//! The add/edit form as pure state: five fields in a fixed order, one of
//! them a dropdown over the item types, a focus that cycles through them,
//! and key handling over an abstract key.  Rendering and real key events
//! stay outside the library.

use vstd::prelude::*;
use crate::item::{Item, ItemType, spec_item_type_name};
use crate::textops::{pop_char, push_char, str_eq};

verus! {

/// How a form field takes input: free text, or a rotation through the
/// fixed item type options.
#[derive(Debug, Clone, Copy, PartialEq, Eq, Structural)]
pub enum FieldType {
    Text,
    Dropdown { selected: usize },
}

/// One field of the form.
#[derive(Debug)]
pub struct FormField {
    pub label: String,
    pub value: String,
    pub is_focused: bool,
    pub field_type: FieldType,
}

impl Clone for FormField {
    fn clone(&self) -> (r: Self)
        ensures
            r == *self,
    {
        FormField {
            label: self.label.clone(),
            value: self.value.clone(),
            is_focused: self.is_focused,
            field_type: self.field_type,
        }
    }
}

/// Whether the form adds a new item or edits an existing one.
#[derive(Debug, Clone, Copy, PartialEq, Eq, Structural)]
pub enum FormType {
    Add,
    Edit,
}

/// An abstract form key, handed in by whatever reads the keyboard.
#[derive(Debug, Clone, Copy, PartialEq, Eq, Structural)]
pub enum FormKey {
    Tab,
    BackTab,
    Enter,
    Backspace,
    Character(char),
    Other,
}

/// The form: the five fields in order -- name, type, author, link, note --
/// the index of the focused field, visibility, and the form's purpose.
#[derive(Debug)]
pub struct ItemForm {
    pub fields: Vec<FormField>,
    pub focused: usize,
    pub is_visible: bool,
    pub form_type: FormType,
}

/// The dropdown options of the type field: the canonical item type names.
pub open spec fn spec_type_options() -> Seq<Seq<char>> {
    seq![
        "blog_post"@,
        "video"@,
        "podcast"@,
        "news"@,
        "thread"@,
        "academic_paper"@,
        "other"@,
    ]
}

/// The dropdown option at a position.
pub fn type_option(i: usize) -> (r: &'static str)
    requires
        i < 7,
    ensures
        r@ == spec_type_options()[i as int],
{
    if i == 0 {
        "blog_post"
    } else if i == 1 {
        "video"
    } else if i == 2 {
        "podcast"
    } else if i == 3 {
        "news"
    } else if i == 4 {
        "thread"
    } else if i == 5 {
        "academic_paper"
    } else {
        "other"
    }
}

/// Position of an item type among the dropdown options.
pub open spec fn spec_type_index(t: ItemType) -> int {
    match t {
        ItemType::BlogPost => 0,
        ItemType::Video => 1,
        ItemType::Podcast => 2,
        ItemType::News => 3,
        ItemType::Thread => 4,
        ItemType::AcademicPaper => 5,
        ItemType::Other => 6,
    }
}

/// Index of the field a key text names.
pub open spec fn spec_key_index(name: Seq<char>) -> Option<int> {
    if name == "name"@ {
        Some(0int)
    } else if name == "type"@ {
        Some(1int)
    } else if name == "author"@ {
        Some(2int)
    } else if name == "link"@ {
        Some(3int)
    } else if name == "note"@ {
        Some(4int)
    } else {
        None
    }
}

impl ItemForm {
    /// The fixed shape of a well-formed form: five labelled fields, the
    /// second a dropdown over the item type names, focus in range.
    pub open spec fn wf(self) -> bool {
        &&& self.fields@.len() == 5
        &&& 0 <= self.focused < 5
        &&& self.fields@[0].label@ == "Name"@
        &&& self.fields@[1].label@ == "Type"@
        &&& self.fields@[2].label@ == "Author"@
        &&& self.fields@[3].label@ == "Link"@
        &&& self.fields@[4].label@ == "Note"@
        &&& self.fields@[0].field_type is Text
        &&& (self.fields@[1].field_type matches FieldType::Dropdown { selected } && selected
            < 7)
        &&& self.fields@[2].field_type is Text
        &&& self.fields@[3].field_type is Text
        &&& self.fields@[4].field_type is Text
    }

    /// A fresh, hidden form: empty texts, the type dropdown at its first
    /// option, and -- on an add form -- the name field focused.
    pub fn new(form_type: FormType) -> (r: ItemForm)
        ensures
            r.wf(),
            r.focused == 0,
            !r.is_visible,
            r.form_type == form_type,
            r.fields@[0].value@ =~= Seq::<char>::empty(),
            r.fields@[1].value@ == "blog_post"@,
            r.fields@[2].value@ =~= Seq::<char>::empty(),
            r.fields@[3].value@ =~= Seq::<char>::empty(),
            r.fields@[4].value@ =~= Seq::<char>::empty(),
            r.fields@[0].is_focused == (form_type is Add),
            !r.fields@[1].is_focused,
            !r.fields@[2].is_focused,
            !r.fields@[3].is_focused,
            !r.fields@[4].is_focused,
            (r.fields@[1].field_type matches FieldType::Dropdown { selected, .. } && selected
                == 0),
    {
        let mut fields: Vec<FormField> = Vec::new();
        fields.push(
            FormField {
                label: String::from_str("Name"),
                value: String::new(),
                is_focused: match form_type {
                    FormType::Add => true,
                    FormType::Edit => false,
                },
                field_type: FieldType::Text,
            },
        );
        fields.push(
            FormField {
                label: String::from_str("Type"),
                value: String::from_str("blog_post"),
                is_focused: false,
                field_type: FieldType::Dropdown { selected: 0 },
            },
        );
        fields.push(
            FormField {
                label: String::from_str("Author"),
                value: String::new(),
                is_focused: false,
                field_type: FieldType::Text,
            },
        );
        fields.push(
            FormField {
                label: String::from_str("Link"),
                value: String::new(),
                is_focused: false,
                field_type: FieldType::Text,
            },
        );
        fields.push(
            FormField {
                label: String::from_str("Note"),
                value: String::new(),
                is_focused: false,
                field_type: FieldType::Text,
            },
        );

        ItemForm { fields, focused: 0, is_visible: false, form_type }
    }

    /// Replaces the value of one field, leaving its label, focus and
    /// input shape alone.
    fn set_value(&mut self, index: usize, value: String)
        requires
            index < old(self).fields@.len(),
        ensures
            final(self).fields@.len() == old(self).fields@.len(),
            final(self).fields@[index as int].label == old(self).fields@[index as int].label,
            final(self).fields@[index as int].value == value,
            final(self).fields@[index as int].is_focused == old(self).fields@[index as int].is_focused,
            final(self).fields@[index as int].field_type == old(self).fields@[index as int].field_type,
            forall|j: int|
                0 <= j < final(self).fields@.len() && j != index ==> final(self).fields@[j] == old(
                    self,
                ).fields@[j],
            final(self).focused == old(self).focused,
            final(self).is_visible == old(self).is_visible,
            final(self).form_type == old(self).form_type,
    {
        let updated = FormField {
            label: self.fields[index].label.clone(),
            value,
            is_focused: self.fields[index].is_focused,
            field_type: self.fields[index].field_type,
        };
        self.fields[index] = updated;
    }

    /// Replaces the selected position of the type dropdown, leaving
    /// everything else alone.
    fn set_type_selected(&mut self, selected: usize)
        requires
            old(self).wf(),
        ensures
            final(self).fields@.len() == 5,
            final(self).fields@[1].label == old(self).fields@[1].label,
            final(self).fields@[1].value == old(self).fields@[1].value,
            final(self).fields@[1].is_focused == old(self).fields@[1].is_focused,
            (final(self).fields@[1].field_type matches FieldType::Dropdown { selected: sel }
                && sel == selected),
            forall|j: int| 0 <= j < 5 && j != 1 ==> final(self).fields@[j] == old(self).fields@[j],
            final(self).focused == old(self).focused,
            final(self).is_visible == old(self).is_visible,
            final(self).form_type == old(self).form_type,
    {
        let updated = FormField {
            label: self.fields[1].label.clone(),
            value: self.fields[1].value.clone(),
            is_focused: self.fields[1].is_focused,
            field_type: FieldType::Dropdown { selected },
        };
        self.fields[1] = updated;
    }

    /// Copies an item's fields into the form: the name, author, link and
    /// note texts, and the type both as text and as dropdown position.
    pub fn populate_fields(&mut self, item: &Item)
        requires
            old(self).wf(),
        ensures
            final(self).wf(),
            final(self).fields@[0].value == item.name,
            final(self).fields@[1].value@ == spec_item_type_name(item.item_type),
            (final(self).fields@[1].field_type matches FieldType::Dropdown { selected, .. } && selected
                == spec_type_index(item.item_type)),
            final(self).fields@[2].value == item.author,
            final(self).fields@[3].value == item.link,
            final(self).fields@[4].value == item.note,
            forall|j: int|
                0 <= j < 5 ==> (#[trigger] final(self).fields@[j]).is_focused == old(
                    self,
                ).fields@[j].is_focused && final(self).fields@[j].label == old(self).fields@[j].label,
            final(self).focused == old(self).focused,
            final(self).is_visible == old(self).is_visible,
            final(self).form_type == old(self).form_type,
    {
        self.set_value(0, item.name.clone());
        self.set_value(1, String::from_str(item.item_type.as_string()));
        let idx: usize = match item.item_type {
            ItemType::BlogPost => 0,
            ItemType::Video => 1,
            ItemType::Podcast => 2,
            ItemType::News => 3,
            ItemType::Thread => 4,
            ItemType::AcademicPaper => 5,
            ItemType::Other => 6,
        };
        self.set_type_selected(idx);
        self.set_value(2, item.author.clone());
        self.set_value(3, item.link.clone());
        self.set_value(4, item.note.clone());
    }

    /// Moves the focus marker from one field to another.
    fn refocus(&mut self, to: usize)
        requires
            old(self).wf(),
            to < 5,
        ensures
            final(self).wf(),
            final(self).focused == to,
            forall|j: int|
                0 <= j < 5 ==> (#[trigger] final(self).fields@[j]).is_focused == (if j == to {
                    true
                } else if j == old(self).focused {
                    false
                } else {
                    old(self).fields@[j].is_focused
                }),
            forall|j: int|
                0 <= j < 5 ==> (#[trigger] final(self).fields@[j]).label == old(self).fields@[j].label
                    && final(self).fields@[j].value == old(self).fields@[j].value
                    && final(self).fields@[j].field_type == old(self).fields@[j].field_type,
            final(self).is_visible == old(self).is_visible,
            final(self).form_type == old(self).form_type,
    {
        let from = self.focused;
        let cleared = FormField {
            label: self.fields[from].label.clone(),
            value: self.fields[from].value.clone(),
            is_focused: false,
            field_type: self.fields[from].field_type,
        };
        self.fields[from] = cleared;
        let set = FormField {
            label: self.fields[to].label.clone(),
            value: self.fields[to].value.clone(),
            is_focused: true,
            field_type: self.fields[to].field_type,
        };
        self.fields[to] = set;
        self.focused = to;
    }

    /// Moves the focus to the next field, wrapping after the last.
    pub fn focus_next(&mut self)
        requires
            old(self).wf(),
        ensures
            final(self).wf(),
            final(self).focused == (old(self).focused + 1) % 5,
            forall|j: int|
                0 <= j < 5 ==> (#[trigger] final(self).fields@[j]).is_focused == (if j == final(self).focused {
                    true
                } else if j == old(self).focused {
                    false
                } else {
                    old(self).fields@[j].is_focused
                }),
            forall|j: int|
                0 <= j < 5 ==> (#[trigger] final(self).fields@[j]).label == old(self).fields@[j].label
                    && final(self).fields@[j].value == old(self).fields@[j].value
                    && final(self).fields@[j].field_type == old(self).fields@[j].field_type,
            final(self).is_visible == old(self).is_visible,
            final(self).form_type == old(self).form_type,
    {
        let to = (self.focused + 1) % 5;
        self.refocus(to);
    }

    /// Moves the focus to the previous field, wrapping before the first.
    pub fn focus_prev(&mut self)
        requires
            old(self).wf(),
        ensures
            final(self).wf(),
            final(self).focused == (old(self).focused + 4) % 5,
            forall|j: int|
                0 <= j < 5 ==> (#[trigger] final(self).fields@[j]).is_focused == (if j == final(self).focused {
                    true
                } else if j == old(self).focused {
                    false
                } else {
                    old(self).fields@[j].is_focused
                }),
            forall|j: int|
                0 <= j < 5 ==> (#[trigger] final(self).fields@[j]).label == old(self).fields@[j].label
                    && final(self).fields@[j].value == old(self).fields@[j].value
                    && final(self).fields@[j].field_type == old(self).fields@[j].field_type,
            final(self).is_visible == old(self).is_visible,
            final(self).form_type == old(self).form_type,
    {
        let to = (self.focused + 4) % 5;
        self.refocus(to);
    }

    /// Shows or hides the form.  Becoming visible focuses the name field;
    /// an add form additionally starts over: texts cleared, the type
    /// dropdown back at its first option.
    pub fn toggle_visibility(&mut self)
        requires
            old(self).wf(),
        ensures
            final(self).wf(),
            final(self).is_visible == !old(self).is_visible,
            final(self).form_type == old(self).form_type,
            old(self).is_visible ==> {
                &&& final(self).focused == old(self).focused
                &&& final(self).fields@ == old(self).fields@
            },
            !old(self).is_visible ==> {
                &&& final(self).focused == 0
                &&& forall|j: int|
                    0 <= j < 5 ==> (#[trigger] final(self).fields@[j]).is_focused == (j == 0)
                &&& forall|j: int|
                    0 <= j < 5 ==> (#[trigger] final(self).fields@[j]).label == old(
                        self,
                    ).fields@[j].label
            },
            (!old(self).is_visible && old(self).form_type is Add) ==> {
                &&& final(self).fields@[0].value@ =~= Seq::<char>::empty()
                &&& final(self).fields@[1].value@ == "blog_post"@
                &&& final(self).fields@[2].value@ =~= Seq::<char>::empty()
                &&& final(self).fields@[3].value@ =~= Seq::<char>::empty()
                &&& final(self).fields@[4].value@ =~= Seq::<char>::empty()
                &&& (final(self).fields@[1].field_type matches FieldType::Dropdown { selected, .. }
                    && selected == 0)
            },
            (!old(self).is_visible && old(self).form_type is Edit) ==> forall|j: int|
                0 <= j < 5 ==> (#[trigger] final(self).fields@[j]).value == old(self).fields@[j].value
                    && final(self).fields@[j].field_type == old(self).fields@[j].field_type,
    {
        self.is_visible = !self.is_visible;
        if self.is_visible {
            match self.form_type {
                FormType::Add => {
                    self.set_value(0, String::new());
                    self.set_value(1, String::from_str("blog_post"));
                    self.set_type_selected(0);
                    self.set_value(2, String::new());
                    self.set_value(3, String::new());
                    self.set_value(4, String::new());
                }
                FormType::Edit => {}
            }
            self.set_focus(0, true);
            self.set_focus(1, false);
            self.set_focus(2, false);
            self.set_focus(3, false);
            self.set_focus(4, false);
            self.focused = 0;
        }
    }

    /// Replaces the focus marker of one field, leaving everything else
    /// alone.
    fn set_focus(&mut self, index: usize, focused: bool)
        requires
            index < old(self).fields@.len(),
        ensures
            final(self).fields@.len() == old(self).fields@.len(),
            final(self).fields@[index as int].label == old(self).fields@[index as int].label,
            final(self).fields@[index as int].value == old(self).fields@[index as int].value,
            final(self).fields@[index as int].is_focused == focused,
            final(self).fields@[index as int].field_type == old(
                self,
            ).fields@[index as int].field_type,
            forall|j: int|
                0 <= j < final(self).fields@.len() && j != index ==> final(self).fields@[j] == old(
                    self,
                ).fields@[j],
            final(self).focused == old(self).focused,
            final(self).is_visible == old(self).is_visible,
            final(self).form_type == old(self).form_type,
    {
        let updated = FormField {
            label: self.fields[index].label.clone(),
            value: self.fields[index].value.clone(),
            is_focused: focused,
            field_type: self.fields[index].field_type,
        };
        self.fields[index] = updated;
    }

    /// The value of the field a key text names, if it names one.
    pub fn get_field_value(&self, field_name: &str) -> (r: Option<&String>)
        requires
            self.wf(),
        ensures
            match spec_key_index(field_name@) {
                Some(i) => r matches Some(v) && *v == self.fields@[i].value,
                None => r is None,
            },
    {
        if str_eq(field_name, "name") {
            Some(&self.fields[0].value)
        } else if str_eq(field_name, "type") {
            Some(&self.fields[1].value)
        } else if str_eq(field_name, "author") {
            Some(&self.fields[2].value)
        } else if str_eq(field_name, "link") {
            Some(&self.fields[3].value)
        } else if str_eq(field_name, "note") {
            Some(&self.fields[4].value)
        } else {
            None
        }
    }

    /// Feeds one key to a visible form: Tab and BackTab move the focus,
    /// Enter rotates the focused dropdown, a character extends the
    /// focused text, Backspace shortens it, and anything else -- or a
    /// hidden form -- changes nothing.
    pub fn handle_key(&mut self, key: FormKey)
        requires
            old(self).wf(),
        ensures
            final(self).wf(),
            final(self).is_visible == old(self).is_visible,
            final(self).form_type == old(self).form_type,
            !old(self).is_visible ==> *final(self) == *old(self),
            old(self).is_visible ==> match key {
                FormKey::Tab => final(self).focused == (old(self).focused + 1) % 5 && forall|j: int|
                    0 <= j < 5 ==> (#[trigger] final(self).fields@[j]).value == old(
                        self,
                    ).fields@[j].value && final(self).fields@[j].field_type == old(
                        self,
                    ).fields@[j].field_type,
                FormKey::BackTab => final(self).focused == (old(self).focused + 4) % 5 && forall|j: int|
                    0 <= j < 5 ==> (#[trigger] final(self).fields@[j]).value == old(
                        self,
                    ).fields@[j].value && final(self).fields@[j].field_type == old(
                        self,
                    ).fields@[j].field_type,
                FormKey::Enter => {
                    &&& final(self).focused == old(self).focused
                    &&& old(self).focused == 1 ==> {
                        &&& (old(self).fields@[1].field_type matches FieldType::Dropdown {
                            selected: s0,
                        } && {
                            &&& (final(self).fields@[1].field_type matches FieldType::Dropdown {
                                selected: s1,
                            } && s1 == ((s0 + 1) as int % 7))
                            &&& final(self).fields@[1].value@ == spec_type_options()[(s0 + 1) as int % 7]
                        })
                        &&& forall|j: int|
                            0 <= j < 5 && j != 1 ==> final(self).fields@[j] == old(self).fields@[j]
                    }
                    &&& old(self).focused != 1 ==> final(self).fields@ == old(self).fields@
                },
                FormKey::Character(c) => {
                    &&& final(self).focused == old(self).focused
                    &&& old(self).focused != 1 ==> {
                        &&& final(self).fields@[old(self).focused as int].value@ == old(
                            self,
                        ).fields@[old(self).focused as int].value@.push(c)
                        &&& forall|j: int|
                            0 <= j < 5 && j != old(self).focused ==> final(self).fields@[j] == old(
                                self,
                            ).fields@[j]
                    }
                    &&& old(self).focused == 1 ==> final(self).fields@ == old(self).fields@
                },
                FormKey::Backspace => {
                    &&& final(self).focused == old(self).focused
                    &&& old(self).focused != 1 ==> {
                        &&& final(self).fields@[old(self).focused as int].value@ == (if old(
                            self,
                        ).fields@[old(self).focused as int].value@.len() > 0 {
                            old(self).fields@[old(self).focused as int].value@.drop_last()
                        } else {
                            old(self).fields@[old(self).focused as int].value@
                        })
                        &&& forall|j: int|
                            0 <= j < 5 && j != old(self).focused ==> final(self).fields@[j] == old(
                                self,
                            ).fields@[j]
                    }
                    &&& old(self).focused == 1 ==> final(self).fields@ == old(self).fields@
                },
                FormKey::Other => *final(self) == *old(self),
            },
    {
        if !self.is_visible {
            return ;
        }
        match key {
            FormKey::Tab => {
                self.focus_next();
            }
            FormKey::BackTab => {
                self.focus_prev();
            }
            FormKey::Enter => {
                if self.focused == 1 {
                    let sel = match self.fields[1].field_type {
                        FieldType::Dropdown { selected } => selected,
                        FieldType::Text => 0,
                    };
                    let next_sel = (sel + 1) % 7;
                    let text = String::from_str(type_option(next_sel));
                    self.set_type_selected(next_sel);
                    self.set_value(1, text);
                }
            }
            FormKey::Character(c) => {
                if self.focused != 1 {
                    let i = self.focused;
                    let mut value = self.fields[i].value.clone();
                    push_char(&mut value, c);
                    self.set_value(i, value);
                }
            }
            FormKey::Backspace => {
                if self.focused != 1 {
                    let i = self.focused;
                    let mut value = self.fields[i].value.clone();
                    pop_char(&mut value);
                    self.set_value(i, value);
                }
            }
            FormKey::Other => {}
        }
    }
}

} // verus!
