//! Keeping the records of a history that lie inside a time window.

use vstd::prelude::*;
use crate::instant::Instant;
use crate::location::{Location, Locations};
use crate::period::{admits, is_admitted, Period};

verus! {

/// The test that a window puts to a record: its timestamp passes the window.
pub open spec fn admitted_by(window: Option<Period>) -> spec_fn(Location) -> bool {
    |l: Location| admits(window, l.timestamp)
}

/// The records of `s` that pass the window, in the order they have in `s`.
pub open spec fn selected(s: Seq<Location>, window: Option<Period>) -> Seq<Location> {
    s.filter(admitted_by(window))
}

/// The positions of `s` whose record passes the window.
pub open spec fn passing_positions(s: Seq<Location>, window: Option<Period>) -> Set<int> {
    Set::new(|i: int| 0 <= i < s.len() && admits(window, s[i].timestamp))
}

impl Locations {
    /// Keeps the records whose timestamp passes the window, in their order.
    /// The history itself is left as it is.
    pub fn filter(&self, window: &Option<Period>) -> (kept: Locations)
        ensures
            kept@ == selected(self@, *window),
    {
        let mut locations: Vec<Location> = Vec::new();
        let n = self.locations.len();
        let mut i: usize = 0;
        proof {
            reveal(Seq::filter);
            assert(self@.take(0) =~= Seq::<Location>::empty());
        }
        while i < n
            invariant
                i <= n,
                n == self@.len(),
                locations@ == selected(self@.take(i as int), *window),
            decreases n - i,
        {
            let l = self.locations[i];
            proof {
                assert(self@.take(i + 1) =~= self@.take(i as int).push(l));
                self@.take(i as int).lemma_filter_push(l, admitted_by(*window));
            }
            if is_admitted(window, &l.timestamp) {
                locations.push(l);
            }
            i = i + 1;
        }
        proof {
            assert(self@.take(n as int) =~= self@);
        }
        Locations { locations }
    }

    /// Counts the records whose timestamp passes the window.
    pub fn count_filtered(&self, window: &Option<Period>) -> (count: usize)
        ensures
            count == selected(self@, *window).len(),
            count <= self@.len(),
    {
        let mut count: usize = 0;
        let n = self.locations.len();
        let mut i: usize = 0;
        proof {
            reveal(Seq::filter);
            assert(self@.take(0) =~= Seq::<Location>::empty());
        }
        while i < n
            invariant
                i <= n,
                n == self@.len(),
                count <= i,
                count == selected(self@.take(i as int), *window).len(),
            decreases n - i,
        {
            let l = self.locations[i];
            proof {
                assert(self@.take(i + 1) =~= self@.take(i as int).push(l));
                self@.take(i as int).lemma_filter_push(l, admitted_by(*window));
            }
            if is_admitted(window, &l.timestamp) {
                count = count + 1;
            }
            i = i + 1;
        }
        proof {
            assert(self@.take(n as int) =~= self@);
        }
        count
    }
}

/// Without a window every record passes: the selection is the history
/// itself, so as many records are counted as were loaded.
pub proof fn lemma_no_window_keeps_all(s: Seq<Location>)
    ensures
        selected(s, None) == s,
        selected(s, None).len() == s.len(),
    decreases s.len(),
{
    reveal(Seq::filter);
    if s.len() > 0 {
        lemma_no_window_keeps_all(s.drop_last());
        assert(s.drop_last().push(s.last()) =~= s);
    }
}

/// A record is among the selected ones exactly when it stands in the history
/// and passes the window.
pub proof fn lemma_selected_members(s: Seq<Location>, window: Option<Period>, l: Location)
    ensures
        selected(s, window).contains(l) <==> s.contains(l) && admits(window, l.timestamp),
    decreases s.len(),
{
    reveal(Seq::filter);
    let p = admitted_by(window);
    if s.len() == 0 {
    } else {
        let front = s.drop_last();
        lemma_selected_members(front, window, l);
        assert(s =~= front.push(s.last()));
        front.lemma_filter_push(s.last(), p);
        if selected(s, window).contains(l) {
            let j = choose|j: int| 0 <= j < selected(s, window).len() && selected(s, window)[j] == l;
            if p(s.last()) && j == selected(front, window).len() {
                assert(s[s.len() - 1] == l);
            } else {
                assert(selected(front, window)[j] == l);
                let k = choose|k: int| 0 <= k < front.len() && front[k] == l;
                assert(s[k] == l);
            }
        }
        if s.contains(l) && admits(window, l.timestamp) {
            let k = choose|k: int| 0 <= k < s.len() && s[k] == l;
            if k == s.len() - 1 {
                assert(selected(s, window)[selected(front, window).len() as int] == l);
            } else {
                assert(front[k] == l);
                let j = choose|j: int|
                    0 <= j < selected(front, window).len() && selected(front, window)[j] == l;
                assert(selected(s, window)[j] == l);
            }
        }
    }
}

/// As many records are selected as there are positions in the history whose
/// record passes the window.
pub proof fn lemma_selected_count(s: Seq<Location>, window: Option<Period>)
    ensures
        passing_positions(s, window).finite(),
        selected(s, window).len() == passing_positions(s, window).len(),
    decreases s.len(),
{
    reveal(Seq::filter);
    if s.len() == 0 {
        assert(passing_positions(s, window) =~= Set::<int>::empty());
    } else {
        let front = s.drop_last();
        let last = s.len() - 1;
        lemma_selected_count(front, window);
        assert(s =~= front.push(s.last()));
        front.lemma_filter_push(s.last(), admitted_by(window));
        if admits(window, s.last().timestamp) {
            assert(passing_positions(s, window) =~= passing_positions(front, window).insert(last));
        } else {
            assert(passing_positions(s, window) =~= passing_positions(front, window));
        }
    }
}

/// With a lower bound alone, the selected records are those of the history
/// that lie strictly later than the bound: none at the bound or earlier is
/// kept, and none later than the bound is left out.
pub proof fn lemma_from_window(s: Seq<Location>, from: Instant)
    ensures
        forall|i: int|
            0 <= i < selected(s, Some(Period::From { from })).len() ==> (#[trigger] selected(
                s,
                Some(Period::From { from }),
            )[i]).timestamp.after(from),
        forall|i: int|
            0 <= i < s.len() ==> (selected(s, Some(Period::From { from })).contains(#[trigger] s[i])
                <==> s[i].timestamp.after(from)),
        forall|i: int|
            0 <= i < s.len() && !selected(s, Some(Period::From { from })).contains(#[trigger] s[i])
                ==> s[i].timestamp.before(from) || s[i].timestamp == from,
{
    let window = Some(Period::From { from });
    let kept = selected(s, window);
    assert forall|i: int| 0 <= i < kept.len() implies (#[trigger] kept[i]).timestamp.after(
        from,
    ) by {
        lemma_selected_members(s, window, kept[i]);
    }
    assert forall|i: int| 0 <= i < s.len() implies (kept.contains(#[trigger] s[i])
        <==> s[i].timestamp.after(from)) by {
        lemma_selected_members(s, window, s[i]);
    }
}

/// With both bounds, as many records are selected as there are positions in
/// the history whose timestamp lies strictly between the bounds, and a
/// record whose timestamp equals either bound is not selected.
pub proof fn lemma_fromto_window(s: Seq<Location>, from: Instant, to: Instant)
    ensures
        Set::new(
            |i: int| 0 <= i < s.len() && s[i].timestamp.after(from) && s[i].timestamp.before(to),
        ).finite(),
        selected(s, Some(Period::FromTo { from, to })).len() == Set::new(
            |i: int| 0 <= i < s.len() && s[i].timestamp.after(from) && s[i].timestamp.before(to),
        ).len(),
        forall|i: int|
            0 <= i < s.len() && ((#[trigger] s[i]).timestamp == from || s[i].timestamp == to)
                ==> !selected(s, Some(Period::FromTo { from, to })).contains(s[i]),
{
    let window = Some(Period::FromTo { from, to });
    lemma_selected_count(s, window);
    assert(passing_positions(s, window) =~= Set::new(
        |i: int| 0 <= i < s.len() && s[i].timestamp.after(from) && s[i].timestamp.before(to),
    ));
    assert forall|i: int|
        0 <= i < s.len() && ((#[trigger] s[i]).timestamp == from || s[i].timestamp
            == to) implies !selected(s, window).contains(s[i]) by {
        lemma_selected_members(s, window, s[i]);
    }
}

} // verus!
