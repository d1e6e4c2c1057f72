//! The item model: the unit entity of the reading list, its enumerations,
//! validation, and the small display helpers that render single fields.

use vstd::prelude::*;
use crate::clock::{date_label_of, format_date, now_millis};
use crate::error::CoreError;
use crate::textops::{
    pad_right, repeat_char, spec_decimal, spec_padded, spec_repeated, str_eq, usize_to_string,
};

verus! {

/// What sort of material an item points at.
#[derive(Clone, Copy, PartialEq, Eq, Structural, Debug)]
pub enum ItemType {
    BlogPost,
    Video,
    Podcast,
    News,
    Thread,
    AcademicPaper,
    Other,
}

/// Where an item stands in its reading life cycle.
#[derive(Clone, Copy, PartialEq, Eq, Structural, Debug)]
pub enum Status {
    Todo,
    Doing,
    Done,
}

/// Normal items occupy inbox capacity; reference items are archived at once
/// and never enter the inbox.
#[derive(Clone, Copy, PartialEq, Eq, Structural, Debug)]
pub enum Kind {
    Normal,
    Reference,
}

/// The unit entity.  Timestamps are milliseconds since the Unix epoch;
/// `started_at` and `finished_at` are absent until the first transition to
/// Doing respectively Done stamps them.
#[derive(Debug, PartialEq)]
pub struct Item {
    pub name: String,
    pub item_type: ItemType,
    pub status: Status,
    pub author: String,
    pub link: String,
    pub added_at: i64,
    pub started_at: Option<i64>,
    pub finished_at: Option<i64>,
    pub note: String,
    pub kind: Kind,
    pub version: u8,
}

impl Clone for Item {
    fn clone(&self) -> (r: Self)
        ensures
            r == *self,
    {
        Item {
            name: self.name.clone(),
            item_type: self.item_type,
            status: self.status,
            author: self.author.clone(),
            link: self.link.clone(),
            added_at: self.added_at,
            started_at: self.started_at,
            finished_at: self.finished_at,
            note: self.note.clone(),
            kind: self.kind,
            version: self.version,
        }
    }
}

/// The canonical name of an item type, as stored on disk and accepted on
/// the command line.
pub open spec fn spec_item_type_name(t: ItemType) -> Seq<char> {
    match t {
        ItemType::BlogPost => "blog_post"@,
        ItemType::Video => "video"@,
        ItemType::Podcast => "podcast"@,
        ItemType::News => "news"@,
        ItemType::Thread => "thread"@,
        ItemType::AcademicPaper => "academic_paper"@,
        ItemType::Other => "other"@,
    }
}

/// The four-column abbreviation of an item type.
pub open spec fn spec_item_type_abbreviation(t: ItemType) -> Seq<char> {
    match t {
        ItemType::BlogPost => "blog"@,
        ItemType::Video => "vid."@,
        ItemType::Podcast => "pod."@,
        ItemType::News => "news"@,
        ItemType::Thread => "thrd"@,
        ItemType::AcademicPaper => "acad"@,
        ItemType::Other => "oth."@,
    }
}

/// The item type a text names, if any.
pub open spec fn spec_parse_item_type(s: Seq<char>) -> Option<ItemType> {
    if s == "blog_post"@ {
        Some(ItemType::BlogPost)
    } else if s == "video"@ {
        Some(ItemType::Video)
    } else if s == "podcast"@ {
        Some(ItemType::Podcast)
    } else if s == "news"@ {
        Some(ItemType::News)
    } else if s == "thread"@ {
        Some(ItemType::Thread)
    } else if s == "academic_paper"@ {
        Some(ItemType::AcademicPaper)
    } else if s == "other"@ {
        Some(ItemType::Other)
    } else {
        None
    }
}

impl ItemType {
    /// The four-column abbreviation used in list rows.
    pub fn abbreviation(&self) -> (r: &'static str)
        ensures
            r@ == spec_item_type_abbreviation(*self),
    {
        match self {
            ItemType::BlogPost => "blog",
            ItemType::Video => "vid.",
            ItemType::Podcast => "pod.",
            ItemType::News => "news",
            ItemType::Thread => "thrd",
            ItemType::AcademicPaper => "acad",
            ItemType::Other => "oth.",
        }
    }

    /// The canonical name of the item type.
    pub fn as_string(&self) -> (r: &'static str)
        ensures
            r@ == spec_item_type_name(*self),
    {
        match self {
            ItemType::BlogPost => "blog_post",
            ItemType::Video => "video",
            ItemType::Podcast => "podcast",
            ItemType::News => "news",
            ItemType::Thread => "thread",
            ItemType::AcademicPaper => "academic_paper",
            ItemType::Other => "other",
        }
    }

    /// The item type the text names, if any.
    pub fn parse(s: &str) -> (r: Option<ItemType>)
        ensures
            r == spec_parse_item_type(s@),
    {
        if str_eq(s, "blog_post") {
            Some(ItemType::BlogPost)
        } else if str_eq(s, "video") {
            Some(ItemType::Video)
        } else if str_eq(s, "podcast") {
            Some(ItemType::Podcast)
        } else if str_eq(s, "news") {
            Some(ItemType::News)
        } else if str_eq(s, "thread") {
            Some(ItemType::Thread)
        } else if str_eq(s, "academic_paper") {
            Some(ItemType::AcademicPaper)
        } else if str_eq(s, "other") {
            Some(ItemType::Other)
        } else {
            None
        }
    }
}

/// The canonical name of a status.
pub open spec fn spec_status_name(s: Status) -> Seq<char> {
    match s {
        Status::Todo => "todo"@,
        Status::Doing => "doing"@,
        Status::Done => "done"@,
    }
}

/// The one-column marker of a status.
pub open spec fn spec_status_char(s: Status) -> Seq<char> {
    match s {
        Status::Todo => "T"@,
        Status::Doing => "D"@,
        Status::Done => "\u{2713}"@,
    }
}

/// The status a text names, if any.
pub open spec fn spec_parse_status(s: Seq<char>) -> Option<Status> {
    if s == "todo"@ {
        Some(Status::Todo)
    } else if s == "doing"@ {
        Some(Status::Doing)
    } else if s == "done"@ {
        Some(Status::Done)
    } else {
        None
    }
}

impl Status {
    /// The one-column marker used in list rows.
    pub fn display_char(&self) -> (r: &'static str)
        ensures
            r@ == spec_status_char(*self),
    {
        match self {
            Status::Todo => "T",
            Status::Doing => "D",
            Status::Done => "\u{2713}",
        }
    }

    /// The emoji marker of a status.
    pub fn display_emoji(&self) -> (r: &'static str)
        ensures
            self is Todo ==> r@ == "\u{1f4dd}"@,
            self is Doing ==> r@ == "\u{23f3}"@,
            self is Done ==> r@ == "\u{2705}"@,
    {
        match self {
            Status::Todo => "\u{1f4dd}",
            Status::Doing => "\u{23f3}",
            Status::Done => "\u{2705}",
        }
    }

    /// The canonical name of the status.
    pub fn as_string(&self) -> (r: &'static str)
        ensures
            r@ == spec_status_name(*self),
    {
        match self {
            Status::Todo => "todo",
            Status::Doing => "doing",
            Status::Done => "done",
        }
    }

    /// The status the text names, if any.
    pub fn parse(s: &str) -> (r: Option<Status>)
        ensures
            r == spec_parse_status(s@),
    {
        if str_eq(s, "todo") {
            Some(Status::Todo)
        } else if str_eq(s, "doing") {
            Some(Status::Doing)
        } else if str_eq(s, "done") {
            Some(Status::Done)
        } else {
            None
        }
    }
}

/// The kind a text names, if any.
pub open spec fn spec_parse_kind(s: Seq<char>) -> Option<Kind> {
    if s == "normal"@ {
        Some(Kind::Normal)
    } else if s == "reference"@ {
        Some(Kind::Reference)
    } else {
        None
    }
}

impl Kind {
    /// The emoji marker of a kind.
    pub fn display_emoji(&self) -> (r: &'static str)
        ensures
            self is Normal ==> r@ == "\u{2705}"@,
            self is Reference ==> r@ == "\u{1f516}"@,
    {
        match self {
            Kind::Normal => "\u{2705}",
            Kind::Reference => "\u{1f516}",
        }
    }

    /// The kind the text names, if any.
    pub fn parse(s: &str) -> (r: Option<Kind>)
        ensures
            r == spec_parse_kind(s@),
    {
        if str_eq(s, "normal") {
            Some(Kind::Normal)
        } else if str_eq(s, "reference") {
            Some(Kind::Reference)
        } else {
            None
        }
    }
}

/// An item is acceptable for persistence exactly when its name is non-empty.
pub open spec fn spec_valid_item(item: Item) -> bool {
    item.name@.len() > 0
}

impl Item {
    /// Accepts the item exactly when its name is non-empty.
    pub fn validate(&self) -> (r: Result<(), CoreError>)
        ensures
            r is Ok <==> spec_valid_item(*self),
            r matches Err(e) ==> (e matches CoreError::ValidationError(m) && m@ == "Name cannot be empty"@),
    {
        if self.name.as_str().is_empty() {
            Err(CoreError::ValidationError(String::from_str("Name cannot be empty")))
        } else {
            Ok(())
        }
    }
}

/// A copy of a list of items, equal entry by entry.
pub fn clone_items(v: &Vec<Item>) -> (r: Vec<Item>)
    ensures
        r@ == v@,
{
    let n = v.len();
    let mut out: Vec<Item> = Vec::new();
    let mut i: usize = 0;
    while i < n
        invariant
            n == v@.len(),
            0 <= i <= n,
            out@ == v@.subrange(0, i as int),
        decreases n - i,
    {
        out.push(v[i].clone());
        proof {
            assert(v@.subrange(0, i + 1) =~= v@.subrange(0, i as int).push(v@[i as int]));
        }
        i = i + 1;
    }
    proof {
        assert(v@.subrange(0, n as int) =~= v@);
    }
    out
}

/// A text cut to its first `keep` characters plus a two-dot ellipsis when
/// longer than `limit` characters; a shorter text stays whole.
pub open spec fn spec_truncated(s: Seq<char>, limit: int, keep: int) -> Seq<char> {
    if s.len() > limit {
        s.subrange(0, keep) + ".."@
    } else {
        s
    }
}

/// One row of the plain listing: the 1-based display index, the status
/// marker, the name cut to the column, the type abbreviation, the date
/// added, and the author cut to the column, each padded to its width.
pub open spec fn spec_list_row(item: Item, index: int) -> Seq<char> {
    spec_padded(spec_decimal(index), 4) + " "@ + spec_padded(spec_status_char(item.status), 6)
        + " "@ + spec_padded(spec_truncated(item.name@, 28, 26), 30) + " "@ + spec_padded(
        spec_item_type_abbreviation(item.item_type),
        10,
    ) + " "@ + spec_padded(date_label_of(item.added_at), 20) + " "@ + spec_padded(
        spec_truncated(item.author@, 13, 11),
        15,
    )
}

/// The header row over the same columns.
pub open spec fn spec_list_header() -> Seq<char> {
    spec_padded("ID"@, 4) + " "@ + spec_padded("Status"@, 6) + " "@ + spec_padded("Name"@, 30)
        + " "@ + spec_padded("Type"@, 10) + " "@ + spec_padded("Added"@, 20) + " "@ + spec_padded(
        "Author"@,
        15,
    )
}

impl Item {
    /// Renders the item as one row of the plain listing, under the given
    /// 1-based display index.  A name longer than its column keeps its
    /// first characters and a two-dot ellipsis; so does the author.
    pub fn format_for_list(&self, index: usize) -> (r: String)
        ensures
            r@ == spec_list_row(*self, index as int),
    {
        let name_display: String = if self.name.as_str().unicode_len() > 28 {
            let head = self.name.as_str().substring_char(0, 26);
            let mut t = head.to_owned();
            t.append("..");
            proof {
                reveal_strlit("..");
                assert(t@ =~= spec_truncated(self.name@, 28, 26));
            }
            t
        } else {
            self.name.clone()
        };

        let author_display: String = if self.author.as_str().unicode_len() > 13 {
            let head = self.author.as_str().substring_char(0, 11);
            let mut t = head.to_owned();
            t.append("..");
            proof {
                reveal_strlit("..");
                assert(t@ =~= spec_truncated(self.author@, 13, 11));
            }
            t
        } else {
            self.author.clone()
        };

        let added_date = format_date(self.added_at);

        let mut out = pad_right(usize_to_string(index).as_str(), 4);
        out.append(" ");
        out.append(pad_right(self.status.display_char(), 6).as_str());
        out.append(" ");
        out.append(pad_right(name_display.as_str(), 30).as_str());
        out.append(" ");
        out.append(pad_right(self.item_type.abbreviation(), 10).as_str());
        out.append(" ");
        out.append(pad_right(added_date.as_str(), 20).as_str());
        out.append(" ");
        out.append(pad_right(author_display.as_str(), 15).as_str());
        proof {
            reveal_strlit(" ");
            assert(out@ =~= spec_list_row(*self, index as int));
        }
        out
    }

    /// The header row of the plain listing.
    pub fn format_list_header() -> (r: String)
        ensures
            r@ == spec_list_header(),
    {
        let mut out = pad_right("ID", 4);
        out.append(" ");
        out.append(pad_right("Status", 6).as_str());
        out.append(" ");
        out.append(pad_right("Name", 30).as_str());
        out.append(" ");
        out.append(pad_right("Type", 10).as_str());
        out.append(" ");
        out.append(pad_right("Added", 20).as_str());
        out.append(" ");
        out.append(pad_right("Author", 15).as_str());
        proof {
            reveal_strlit(" ");
            assert(out@ =~= spec_list_header());
        }
        out
    }

    /// The separator row of the plain listing: one hundred dashes.
    pub fn format_list_separator() -> (r: String)
        ensures
            r@ == spec_repeated('-', 100),
    {
        repeat_char('-', 100)
    }
}

/// The item type a creation request yields: the named type where the text
/// names one, the default otherwise.
pub open spec fn spec_type_or_default(t: Option<String>) -> ItemType {
    match t {
        Some(s) => match spec_parse_item_type(s@) {
            Some(x) => x,
            None => ItemType::BlogPost,
        },
        None => ItemType::BlogPost,
    }
}

/// The kind a creation request yields: the named kind where the text names
/// one, the default otherwise.
pub open spec fn spec_kind_or_default(k: Option<String>) -> Kind {
    match k {
        Some(s) => match spec_parse_kind(s@) {
            Some(x) => x,
            None => Kind::Normal,
        },
        None => Kind::Normal,
    }
}

/// A free-text field of a creation request: the given text, or empty.
pub open spec fn spec_text_or_empty(t: Option<String>) -> Seq<char> {
    match t {
        Some(s) => s@,
        None => Seq::empty(),
    }
}

/// The created item has every requested or defaulted field, stands at
/// Todo with no progress timestamps, and carries `added_at == now`.
pub open spec fn spec_created_item(
    item: Item,
    name: String,
    item_type: Option<String>,
    author: Option<String>,
    link: Option<String>,
    note: Option<String>,
    kind: Option<String>,
    now: i64,
) -> bool {
    &&& item.name == name
    &&& item.item_type == spec_type_or_default(item_type)
    &&& item.status is Todo
    &&& item.author@ == spec_text_or_empty(author)
    &&& item.link@ == spec_text_or_empty(link)
    &&& item.added_at == now
    &&& item.started_at is None
    &&& item.finished_at is None
    &&& item.note@ == spec_text_or_empty(note)
    &&& item.kind == spec_kind_or_default(kind)
    &&& item.version == 1
}

/// Builds a fresh item at clock reading `now`: the type and kind texts are
/// parsed with a default fallback, the free-text fields default to empty,
/// and an empty name is rejected.
pub fn create_item_at(
    name: String,
    item_type: Option<String>,
    author: Option<String>,
    link: Option<String>,
    note: Option<String>,
    kind: Option<String>,
    now: i64,
) -> (r: Result<Item, CoreError>)
    ensures
        r is Ok <==> name@.len() > 0,
        r matches Ok(item) ==> spec_created_item(item, name, item_type, author, link, note, kind, now),
        r matches Err(e) ==> (e matches CoreError::ValidationError(m) && m@
            == "Name cannot be empty"@),
{
    if name.as_str().is_empty() {
        return Err(CoreError::ValidationError(String::from_str("Name cannot be empty")));
    }

    let parsed_type = match &item_type {
        Some(t) => match ItemType::parse(t.as_str()) {
            Some(x) => x,
            None => ItemType::BlogPost,
        },
        None => ItemType::BlogPost,
    };

    let parsed_kind = match &kind {
        Some(k) => match Kind::parse(k.as_str()) {
            Some(x) => x,
            None => Kind::Normal,
        },
        None => Kind::Normal,
    };

    let item = Item {
        name,
        item_type: parsed_type,
        status: Status::Todo,
        author: match author {
            Some(a) => a,
            None => String::new(),
        },
        link: match link {
            Some(l) => l,
            None => String::new(),
        },
        added_at: now,
        started_at: None,
        finished_at: None,
        note: match note {
            Some(n) => n,
            None => String::new(),
        },
        kind: parsed_kind,
        version: 1,
    };

    Ok(item)
}

/// Builds a fresh item stamped at the current wall clock; only the clock
/// reading behind `added_at` is left open.
pub fn create_item(
    name: String,
    item_type: Option<String>,
    author: Option<String>,
    link: Option<String>,
    note: Option<String>,
    kind: Option<String>,
) -> (r: Result<Item, CoreError>)
    ensures
        r is Ok <==> name@.len() > 0,
        r matches Ok(item) ==> spec_created_item(
            item,
            name,
            item_type,
            author,
            link,
            note,
            kind,
            item.added_at,
        ),
        r matches Err(e) ==> (e matches CoreError::ValidationError(m) && m@
            == "Name cannot be empty"@),
{
    let now = now_millis();
    create_item_at(name, item_type, author, link, note, kind, now)
}

} // verus!
