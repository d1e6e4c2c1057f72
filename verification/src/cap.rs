//! The admission controller: capacity-bounded insertion into the inbox
//! with a pluggable overflow strategy, and the laws that hold of it.

use vstd::prelude::*;
use crate::config::OverflowStrategy;
use crate::error::CapError;
use crate::item::{Item, Status};
use crate::status::{transitioned, update_timestamps_at};
use crate::clock::now_millis;

verus! {

/// Index of the first item whose status is Todo, in list order.
pub open spec fn first_todo_index(s: Seq<Item>) -> Option<int>
    decreases s.len(),
{
    if s.len() == 0 {
        None
    } else if s[0].status is Todo {
        Some(0int)
    } else {
        match first_todo_index(s.drop_first()) {
            Some(i) => Some(i + 1),
            None => None,
        }
    }
}

/// The first Todo index is in range, is a Todo item, and nothing before it
/// is one; when there is none, no item is Todo.
pub proof fn lemma_first_todo_index(s: Seq<Item>)
    ensures
        match first_todo_index(s) {
            Some(i) => 0 <= i < s.len() && s[i].status is Todo && (forall|j: int|
                0 <= j < i ==> s[j].status !is Todo),
            None => forall|j: int| 0 <= j < s.len() ==> s[j].status !is Todo,
        },
    decreases s.len(),
{
    if s.len() == 0 {
    } else if s[0].status is Todo {
    } else {
        let rest = s.drop_first();
        lemma_first_todo_index(rest);
        assert(forall|j: int| 0 < j < s.len() ==> s[j] == rest[j - 1]);
        match first_todo_index(rest) {
            Some(i) => {
                assert(s[i + 1] == rest[i]);
                assert(forall|j: int| 0 < j < i + 1 ==> s[j] == rest[j - 1]);
            }
            None => {
                assert(forall|j: int| 0 < j < s.len() ==> s[j] == rest[j - 1]);
            }
        }
    }
}

/// An item that is Todo at index i, with no Todo item before it, is the
/// first Todo item.
proof fn lemma_first_todo_found(s: Seq<Item>, i: int)
    requires
        0 <= i < s.len(),
        s[i].status is Todo,
        forall|j: int| 0 <= j < i ==> s[j].status !is Todo,
    ensures
        first_todo_index(s) == Some(i),
    decreases s.len(),
{
    if i > 0 {
        assert(forall|j: int| 0 <= j < s.drop_first().len() ==> s.drop_first()[j] == s[j + 1]);
        lemma_first_todo_found(s.drop_first(), i - 1);
    }
}

/// The evicted item as it leaves: marked Done, `finished_at` stamped at
/// `now` unless it already was.
pub open spec fn evicted_done(item: Item, now: i64) -> Item {
    transitioned(item, Status::Done, now)
}

/// What admission yields, exactly.  Below capacity the new item is
/// appended and nothing is evicted.  At or above capacity the strategy
/// decides: Abort refuses; Todo evicts the first Todo item if any, else
/// refuses; Any evicts the item at index 0, failing only on an empty inbox.
pub open spec fn admit_result(
    inbox: Seq<Item>,
    new_item: Item,
    max: int,
    strat: OverflowStrategy,
    now: i64,
) -> Result<(Seq<Item>, Seq<Item>), CapError> {
    if inbox.len() < max {
        Ok((inbox.push(new_item), Seq::empty()))
    } else {
        match strat {
            OverflowStrategy::Abort => Err(CapError::Full),
            OverflowStrategy::Todo => match first_todo_index(inbox) {
                Some(i) => Ok(
                    (inbox.remove(i).push(new_item), seq![evicted_done(inbox[i], now)]),
                ),
                None => Err(CapError::Full),
            },
            OverflowStrategy::Any => if inbox.len() > 0 {
                Ok((inbox.remove(0).push(new_item), seq![evicted_done(inbox[0], now)]))
            } else {
                Err(CapError::Full)
            },
        }
    }
}

/// The executable result agrees with `admit_result`.
pub open spec fn cap_result_matches(
    spec_r: Result<(Seq<Item>, Seq<Item>), CapError>,
    r: Result<(Vec<Item>, Vec<Item>), CapError>,
) -> bool {
    match r {
        Ok((ib, ev)) => spec_r == Ok::<(Seq<Item>, Seq<Item>), CapError>((ib@, ev@)),
        Err(e) => spec_r == Err::<(Seq<Item>, Seq<Item>), CapError>(e),
    }
}

/// Position of the first Todo item, scanning in list order.
fn find_first_todo(items: &Vec<Item>) -> (r: Option<usize>)
    ensures
        match r {
            Some(i) => first_todo_index(items@) == Some(i as int),
            None => first_todo_index(items@) is None,
        },
{
    let n = items.len();
    let mut i: usize = 0;
    while i < n
        invariant
            n == items@.len(),
            0 <= i <= n,
            forall|j: int| 0 <= j < i ==> items@[j].status !is Todo,
        decreases n - i,
    {
        if items[i].status == Status::Todo {
            proof {
                lemma_first_todo_found(items@, i as int);
            }
            return Some(i);
        }
        i = i + 1;
    }
    proof {
        lemma_first_todo_index(items@);
    }
    None
}

/// Admits `new_item` into `inbox` under capacity `max` and strategy
/// `strat`, stamping any eviction at clock reading `now`.  On success the
/// new inbox and the evicted items (none or one) come back; on failure the
/// admission is refused outright and nothing is produced.
pub fn add_with_cap_at(
    inbox: Vec<Item>,
    new_item: Item,
    max: usize,
    strat: OverflowStrategy,
    now: i64,
) -> (r: Result<(Vec<Item>, Vec<Item>), CapError>)
    ensures
        cap_result_matches(admit_result(inbox@, new_item, max as int, strat, now), r),
{
    let ghost orig = inbox@;
    let mut cur = inbox;
    if cur.len() < max {
        cur.push(new_item);
        return Ok((cur, Vec::new()));
    }

    match strat {
        OverflowStrategy::Abort => Err(CapError::Full),
        OverflowStrategy::Todo => {
            match find_first_todo(&cur) {
                Some(pos) => {
                    proof {
                        lemma_first_todo_index(orig);
                    }
                    let mut removed = cur.remove(pos);
                    removed.status = Status::Done;
                    update_timestamps_at(&mut removed, now);
                    cur.push(new_item);
                    let mut evicted: Vec<Item> = Vec::new();
                    evicted.push(removed);
                    assert(evicted@ =~= seq![evicted_done(orig[pos as int], now)]);
                    Ok((cur, evicted))
                }
                None => Err(CapError::Full),
            }
        }
        OverflowStrategy::Any => {
            if cur.len() > 0 {
                let mut removed = cur.remove(0);
                removed.status = Status::Done;
                update_timestamps_at(&mut removed, now);
                cur.push(new_item);
                let mut evicted: Vec<Item> = Vec::new();
                evicted.push(removed);
                assert(evicted@ =~= seq![evicted_done(orig[0], now)]);
                Ok((cur, evicted))
            } else {
                Err(CapError::Full)
            }
        }
    }
}

/// Admits at the current wall clock; only the clock reading that stamps an
/// eviction is left open.
pub fn add_with_cap(
    inbox: Vec<Item>,
    new_item: Item,
    max: usize,
    strat: OverflowStrategy,
) -> (r: Result<(Vec<Item>, Vec<Item>), CapError>)
    ensures
        exists|now: i64|
            cap_result_matches(admit_result(inbox@, new_item, max as int, strat, now), r),
{
    let ghost orig = inbox@;
    let now = now_millis();
    let r = add_with_cap_at(inbox, new_item, max, strat, now);
    assert(cap_result_matches(admit_result(orig, new_item, max as int, strat, now), r));
    r
}

/// Whether an add attempt is doomed before it starts: the inbox stands at
/// capacity and the strategy refuses overflow, so the caller can warn and
/// offer remediation instead of attempting admission.
pub fn capacity_warning_needed(inbox_len: usize, config: &crate::config::Config) -> (r: bool)
    ensures
        r == (inbox_len >= config.max_items && config.archive_on_overflow is Abort),
{
    inbox_len >= config.max_items as usize && match config.archive_on_overflow {
        OverflowStrategy::Abort => true,
        _ => false,
    }
}

/// Admission never grows the inbox beyond capacity: from any inbox within
/// capacity, every successful admission leaves the inbox within capacity,
/// whatever the strategy.  Applied after each call in a sequence of
/// admissions, this keeps the bound at every step.
pub proof fn lemma_admit_bounded(
    inbox: Seq<Item>,
    new_item: Item,
    max: int,
    strat: OverflowStrategy,
    now: i64,
)
    requires
        inbox.len() <= max,
    ensures
        admit_result(inbox, new_item, max, strat, now) matches Ok(p) ==> p.0.len() <= max,
{
    if inbox.len() >= max {
        lemma_first_todo_index(inbox);
    }
}

/// The inbox after a whole sequence of admissions, each request a new
/// item, a strategy and a clock reading: a successful admission hands its
/// inbox to the next request, a refused one leaves the inbox as it was.
pub open spec fn spec_admit_all(
    inbox: Seq<Item>,
    requests: Seq<(Item, OverflowStrategy, i64)>,
    max: int,
) -> Seq<Item>
    decreases requests.len(),
{
    if requests.len() == 0 {
        inbox
    } else {
        let first = requests.first();
        let next = match admit_result(inbox, first.0, max, first.1, first.2) {
            Ok(p) => p.0,
            Err(_) => inbox,
        };
        spec_admit_all(next, requests.drop_first(), max)
    }
}

/// The capacity bound holds across every sequence of admissions: from an
/// inbox within capacity, the inbox after any sequence of admission
/// requests -- and so after every prefix of it -- is within capacity.
pub proof fn lemma_admit_sequence_bounded(
    inbox: Seq<Item>,
    requests: Seq<(Item, OverflowStrategy, i64)>,
    max: int,
)
    requires
        inbox.len() <= max,
    ensures
        spec_admit_all(inbox, requests, max).len() <= max,
    decreases requests.len(),
{
    if requests.len() > 0 {
        let first = requests.first();
        lemma_admit_bounded(inbox, first.0, max, first.1, first.2);
        let next = match admit_result(inbox, first.0, max, first.1, first.2) {
            Ok(p) => p.0,
            Err(_) => inbox,
        };
        lemma_admit_sequence_bounded(next, requests.drop_first(), max);
    }
}

/// Abort strategy: admission into a full inbox always fails, however often
/// it is retried, and a refusal produces no new inbox, so the inbox the
/// caller holds stands unchanged.
pub proof fn lemma_abort_full_fails(inbox: Seq<Item>, new_item: Item, max: int, now: i64)
    requires
        inbox.len() >= max,
    ensures
        admit_result(inbox, new_item, max, OverflowStrategy::Abort, now) == Err::<
            (Seq<Item>, Seq<Item>),
            CapError,
        >(CapError::Full),
{
}

/// Todo strategy on a full inbox: if a Todo item is present, exactly one
/// eviction occurs, the evicted item is the first Todo item in list order
/// marked Done, and the inbox length is unchanged; if none is present, the
/// admission fails.
pub proof fn lemma_todo_eviction(inbox: Seq<Item>, new_item: Item, max: int, now: i64)
    requires
        inbox.len() >= max,
    ensures
        (exists|j: int| 0 <= j < inbox.len() && inbox[j].status is Todo) ==> ({
            &&& first_todo_index(inbox) matches Some(i)
            &&& admit_result(inbox, new_item, max, OverflowStrategy::Todo, now) matches Ok(p)
            &&& p.1.len() == 1
            &&& p.1[0] == evicted_done(inbox[first_todo_index(inbox)->Some_0], now)
            &&& p.1[0].status is Done
            &&& p.0.len() == inbox.len()
        }),
        (forall|j: int| 0 <= j < inbox.len() ==> inbox[j].status !is Todo)
            ==> admit_result(inbox, new_item, max, OverflowStrategy::Todo, now) == Err::<
            (Seq<Item>, Seq<Item>),
            CapError,
        >(CapError::Full),
{
    lemma_first_todo_index(inbox);
}

/// Any strategy on a full, non-empty inbox: the item at index 0 is
/// evicted, marked Done, and the inbox length is unchanged.
pub proof fn lemma_any_eviction(inbox: Seq<Item>, new_item: Item, max: int, now: i64)
    requires
        inbox.len() >= max,
        inbox.len() > 0,
    ensures
        admit_result(inbox, new_item, max, OverflowStrategy::Any, now) matches Ok(p) && {
            &&& p.1 =~= seq![evicted_done(inbox[0], now)]
            &&& p.1[0].status is Done
            &&& p.0.len() == inbox.len()
        },
{
}

} // verus!
