//! The numbering of a run's audit trail. Each new event of a run takes the
//! place after the run's last one, and an event rebuilt from a memory page
//! is recorded once, however often the pages are scanned. The store hands
//! in the places of the events it holds and writes the event where these
//! functions say.

use vstd::prelude::*;

use super::db::opt_view;
use super::text::str_eq;

verus! {

broadcast use vstd::string::group_string_axioms;

/// Where a stored event stands: its run, its place in that run, and the
/// memory page it was rebuilt from, if any.
#[derive(Debug, Clone)]
pub struct EventKey {
    pub run_id: String,
    pub sequence: i64,
    pub memory_url: Option<String>,
}

/// An event's place as plain values.
pub struct KeyView {
    pub run_id: Seq<char>,
    pub sequence: i64,
    pub memory_url: Option<Seq<char>>,
}

impl View for EventKey {
    type V = KeyView;

    open spec fn view(&self) -> KeyView {
        KeyView { run_id: self.run_id@, sequence: self.sequence, memory_url: opt_view(self.memory_url) }
    }
}

/// Event places as plain values.
pub open spec fn keys_view(keys: Seq<EventKey>) -> Seq<KeyView> {
    keys.map_values(|k: EventKey| k@)
}

/// The largest place among the events of run `run`; `None` when the run has
/// no event.
pub open spec fn spec_last_sequence(v: Seq<KeyView>, run: Seq<char>) -> Option<i64>
    decreases v.len(),
{
    if v.len() == 0 {
        None
    } else {
        let rest = spec_last_sequence(v.drop_last(), run);
        let k = v.last();
        if k.run_id == run {
            match rest {
                Some(m) => if m >= k.sequence {
                    Some(m)
                } else {
                    Some(k.sequence)
                },
                None => Some(k.sequence),
            }
        } else {
            rest
        }
    }
}

/// The place of the next event of run `run`: one past its last, or 1 for a
/// run without events; `None` when the last place is `i64::MAX`.
pub open spec fn spec_next_sequence(v: Seq<KeyView>, run: Seq<char>) -> Option<i64> {
    match spec_last_sequence(v, run) {
        None => Some(1),
        Some(m) => if m < i64::MAX {
            Some((m + 1) as i64)
        } else {
            None
        },
    }
}

/// Memory page `url` already stands behind a stored event.
pub open spec fn spec_url_recorded(v: Seq<KeyView>, url: Seq<char>) -> bool {
    exists|i: int| 0 <= i < v.len() && v[i].memory_url == Some(url)
}

/// What rebuilding an event from a memory page comes to.
#[derive(Debug, Clone, Copy, PartialEq, Eq)]
pub enum Rebuild {
    /// The page's event is stored already: nothing is written.
    AlreadyRecorded,
    /// The event is written at this place of its run.
    Append(i64),
    /// The run has no place left after `i64::MAX`.
    NoPlaceLeft,
}

/// What `rebuild_slot` decides.
pub open spec fn spec_rebuild(v: Seq<KeyView>, run: Seq<char>, url: Seq<char>) -> Rebuild {
    if spec_url_recorded(v, url) {
        Rebuild::AlreadyRecorded
    } else {
        match spec_next_sequence(v, run) {
            Some(s) => Rebuild::Append(s),
            None => Rebuild::NoPlaceLeft,
        }
    }
}

/// The places `v` followed by one more event of run `run` at place `sequence`.
pub open spec fn spec_appended(v: Seq<KeyView>, run: Seq<char>, sequence: i64, url: Option<Seq<char>>) -> Seq<KeyView> {
    v.push(KeyView { run_id: run, sequence: sequence, memory_url: url })
}

/// `spec_last_sequence` is the largest place of the run's events.
pub proof fn lemma_last_sequence(v: Seq<KeyView>, run: Seq<char>)
    ensures
        match spec_last_sequence(v, run) {
            Some(m) => (forall|i: int| 0 <= i < v.len() && v[i].run_id == run ==> v[i].sequence <= m)
                && exists|i: int| 0 <= i < v.len() && v[i].run_id == run && v[i].sequence == m,
            None => forall|i: int| 0 <= i < v.len() ==> v[i].run_id != run,
        },
    decreases v.len(),
{
    if v.len() > 0 {
        let w = v.drop_last();
        lemma_last_sequence(w, run);
        assert forall|i: int| 0 <= i < w.len() implies w[i] == v[i] by {}
        match spec_last_sequence(w, run) {
            Some(m) => {
                let j = choose|j: int| 0 <= j < w.len() && w[j].run_id == run && w[j].sequence == m;
                assert(v[j] == w[j]);
            },
            None => {},
        }
    }
}

/// The place of the next event of run `run_id`, after the events whose
/// places are in `keys`.
pub fn next_event_sequence(keys: &Vec<EventKey>, run_id: &str) -> (r: Option<i64>)
    ensures
        r == spec_next_sequence(keys_view(keys@), run_id@),
{
    let ghost v = keys_view(keys@);
    let mut last: Option<i64> = None;
    let mut i: usize = 0;
    while i < keys.len()
        invariant
            i <= keys@.len(),
            v == keys_view(keys@),
            last == spec_last_sequence(v.take(i as int), run_id@),
        decreases keys@.len() - i,
    {
        let k = &keys[i];
        proof {
            assert(v.take(i + 1).drop_last() == v.take(i as int));
            assert(v.take(i + 1).last() == k@);
        }
        if str_eq(k.run_id.as_str(), run_id) {
            last = match last {
                Some(m) => if m >= k.sequence {
                    Some(m)
                } else {
                    Some(k.sequence)
                },
                None => Some(k.sequence),
            };
        }
        i = i + 1;
    }
    proof {
        assert(v.take(keys@.len() as int) == v);
    }
    match last {
        None => Some(1),
        Some(m) => if m < i64::MAX {
            Some(m + 1)
        } else {
            None
        },
    }
}

/// Whether page `url` already stands behind one of the events in `keys`.
pub fn url_recorded(keys: &Vec<EventKey>, url: &str) -> (r: bool)
    ensures
        r == spec_url_recorded(keys_view(keys@), url@),
{
    let ghost v = keys_view(keys@);
    let mut i: usize = 0;
    while i < keys.len()
        invariant
            i <= keys@.len(),
            v == keys_view(keys@),
            forall|j: int| 0 <= j < i ==> v[j].memory_url != Some(url@),
        decreases keys@.len() - i,
    {
        match &keys[i].memory_url {
            Some(u) => {
                if str_eq(u.as_str(), url) {
                    assert(v[i as int].memory_url == Some(url@));
                    return true;
                }
            },
            None => {},
        }
        i = i + 1;
    }
    false
}

/// Where an event rebuilt from memory page `memory_url` goes in run
/// `run_id`: nowhere when the page is recorded already, else at the run's
/// next place.
pub fn rebuild_slot(keys: &Vec<EventKey>, run_id: &str, memory_url: &str) -> (r: Rebuild)
    ensures
        r == spec_rebuild(keys_view(keys@), run_id@, memory_url@),
{
    if url_recorded(keys, memory_url) {
        Rebuild::AlreadyRecorded
    } else {
        match next_event_sequence(keys, run_id) {
            Some(s) => Rebuild::Append(s),
            None => Rebuild::NoPlaceLeft,
        }
    }
}

/// An event written at the place that `next_event_sequence` gives comes
/// after every earlier event of its run and becomes the run's last, so the
/// run's next event goes one place further: a run's events are numbered
/// 1, 2, 3, … in the order they are written.
pub proof fn law_events_are_numbered_in_order(v: Seq<KeyView>, run: Seq<char>, url: Option<Seq<char>>)
    requires
        spec_next_sequence(v, run) is Some,
    ensures
        ({
            let s = spec_next_sequence(v, run)->0;
            let w = spec_appended(v, run, s, url);
            &&& forall|i: int| 0 <= i < v.len() && v[i].run_id == run ==> v[i].sequence < s
            &&& spec_last_sequence(w, run) == Some(s)
            &&& s < i64::MAX ==> spec_next_sequence(w, run) == Some((s + 1) as i64)
        }),
        spec_last_sequence(v, run) is None ==> spec_next_sequence(v, run) == Some(1i64),
{
    lemma_last_sequence(v, run);
    let s = spec_next_sequence(v, run)->0;
    let w = spec_appended(v, run, s, url);
    assert(w.drop_last() == v);
}

/// Rebuilding from a memory page is idempotent: once the page's event is
/// written, every later rebuild of that page, for any run, is answered
/// "already recorded" and writes nothing.
pub proof fn law_rebuild_is_idempotent(v: Seq<KeyView>, run: Seq<char>, url: Seq<char>, later_run: Seq<char>)
    requires
        spec_rebuild(v, run, url) is Append,
    ensures
        ({
            let s = spec_rebuild(v, run, url)->0;
            spec_rebuild(spec_appended(v, run, s, Some(url)), later_run, url) == Rebuild::AlreadyRecorded
        }),
{
    let s = spec_rebuild(v, run, url)->0;
    let w = spec_appended(v, run, s, Some(url));
    assert(w[v.len() as int].memory_url == Some(url));
}

} // verus!
