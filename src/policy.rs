//! The crash history: expiry instants of recent crashes, recorded on each
//! crash, pruned lazily and counted against a limit.

use vstd::prelude::*;

verus! {

/// Whether a crash at `now` can have its expiry `now + window` held in a `u64`.
pub open spec fn expiry_fits(now: u64, window: u16) -> bool {
    now + window <= u64::MAX
}

/// The history after a crash at `now`: one more entry, the instant
/// `window` seconds after the crash, at which that crash stops counting.
pub open spec fn recorded(history: Seq<u64>, now: u64, window: u16) -> Seq<u64> {
    history.push((now + window) as u64)
}

/// The entries of `history` that have not expired at `now`, in their order.
pub open spec fn pruned(history: Seq<u64>, now: u64) -> Seq<u64>
    decreases history.len(),
{
    if history.len() == 0 {
        Seq::empty()
    } else {
        let rest = pruned(history.drop_last(), now);
        if history.last() > now {
            rest.push(history.last())
        } else {
            rest
        }
    }
}

/// Whether a history of `count` live entries leaves room for another restart.
pub open spec fn allowed(count: nat, max_retries: u8) -> bool {
    count < max_retries
}

/// Records a crash at `now`: appends its expiry, `now + timespan`.
pub fn push_history(history: Vec<u64>, timespan: u16, now: u64) -> (r: Vec<u64>)
    requires
        expiry_fits(now, timespan),
    ensures
        r@ == recorded(history@, now, timespan),
{
    let mut history = history;
    history.push(now + timespan as u64);
    history
}

/// Drops every entry that has expired at `now` (every entry `<= now`),
/// keeping the others, duplicates included, in their order.
pub fn update_history(history: Vec<u64>, now: u64) -> (r: Vec<u64>)
    ensures
        r@ == pruned(history@, now),
{
    let mut kept: Vec<u64> = Vec::new();
    let mut i: usize = 0;
    while i < history.len()
        invariant
            i <= history.len(),
            kept@ == pruned(history@.take(i as int), now),
        decreases history.len() - i,
    {
        assert(history@.take(i + 1).drop_last() =~= history@.take(i as int));
        if history[i] > now {
            kept.push(history[i]);
        }
        i += 1;
    }
    assert(history@.take(history.len() as int) =~= history@);
    kept
}

/// Whether another restart is permitted: fewer live entries than `max_retries`.
pub fn check_history(history: &Vec<u64>, max_retries: u8) -> (r: bool)
    ensures
        r == allowed(history@.len(), max_retries),
{
    history.len() < max_retries as usize
}

/// An entry survives pruning at `now` exactly when it was in the history
/// and expires after `now`.
pub proof fn lemma_pruned_contains(history: Seq<u64>, now: u64, e: u64)
    ensures
        pruned(history, now).contains(e) <==> (history.contains(e) && e > now),
    decreases history.len(),
{
    if history.len() > 0 {
        let init = history.drop_last();
        lemma_pruned_contains(init, now, e);
        assert(history =~= init.push(history.last()));
        if history.contains(e) && e != history.last() {
            let k = choose|k: int| 0 <= k < history.len() && history[k] == e;
            assert(init[k] == e);
        }
        if init.contains(e) {
            let k = choose|k: int| 0 <= k < init.len() && init[k] == e;
            assert(history[k] == e);
        }
        if history.last() > now {
            let rest = pruned(init, now);
            if rest.contains(e) {
                let k = choose|k: int| 0 <= k < rest.len() && rest[k] == e;
                assert(rest.push(history.last())[k] == e);
            }
            if e == history.last() {
                assert(rest.push(history.last())[rest.len() as int] == e);
            }
            if rest.push(history.last()).contains(e) && e != history.last() {
                let k = choose|k: int|
                    0 <= k < rest.push(history.last()).len() && rest.push(history.last())[k] == e;
                assert(rest[k] == e);
            }
        }
    }
}

/// Every entry left by pruning at `now` expires after `now`.
pub proof fn lemma_pruned_live(history: Seq<u64>, now: u64)
    ensures
        forall|i: int| 0 <= i < pruned(history, now).len() ==> pruned(history, now)[i] > now,
    decreases history.len(),
{
    if history.len() > 0 {
        lemma_pruned_live(history.drop_last(), now);
        let rest = pruned(history.drop_last(), now);
        if history.last() > now {
            assert forall|i: int| 0 <= i < rest.push(history.last()).len() implies rest.push(
                history.last(),
            )[i] > now by {
                if i < rest.len() {
                    assert(rest.push(history.last())[i] == rest[i]);
                }
            }
        }
    }
}

/// A history whose entries all expire after `now` is left as it is by
/// pruning at `now`.
pub proof fn lemma_pruned_keeps_live(history: Seq<u64>, now: u64)
    requires
        forall|i: int| 0 <= i < history.len() ==> history[i] > now,
    ensures
        pruned(history, now) == history,
    decreases history.len(),
{
    if history.len() > 0 {
        lemma_pruned_keeps_live(history.drop_last(), now);
        assert(history.drop_last().push(history.last()) =~= history);
    }
}

/// Pruning twice at the same instant leaves what pruning once leaves.
pub proof fn lemma_prune_idempotent(history: Seq<u64>, now: u64)
    ensures
        pruned(pruned(history, now), now) == pruned(history, now),
{
    lemma_pruned_live(history, now);
    lemma_pruned_keeps_live(pruned(history, now), now);
}

/// The entry that a crash at `t` with window `w` records is in the history
/// right after recording, and survives pruning at `now` exactly when
/// `now < t + w`: it is gone from any pruning at `t + w` or later.
pub proof fn lemma_recorded_entry_lifetime(history: Seq<u64>, t: u64, w: u16, now: u64)
    requires
        expiry_fits(t, w),
    ensures
        recorded(history, t, w).last() == t + w,
        recorded(history, t, w).contains((t + w) as u64),
        pruned(recorded(history, t, w), now).contains((t + w) as u64) <==> now < t + w,
{
    let r = recorded(history, t, w);
    assert(r[r.len() - 1] == (t + w) as u64);
    lemma_pruned_contains(r, now, (t + w) as u64);
}

/// History carries over from one crash to the next: starting from no
/// history, a crash at `t1` and a second crash at `t2`, before the first
/// one's expiry, leave two live entries, each crash recorded then pruned at
/// its own instant.
pub proof fn lemma_history_persists(t1: u64, t2: u64, w: u16)
    requires
        w > 0,
        expiry_fits(t1, w),
        expiry_fits(t2, w),
        t2 < t1 + w,
    ensures
        pruned(recorded(pruned(recorded(Seq::empty(), t1, w), t1), t2, w), t2).len() == 2,
{
    let first = recorded(Seq::empty(), t1, w);
    lemma_pruned_keeps_live(first, t1);
    let second = recorded(first, t2, w);
    assert(second[0] > t2 && second[1] > t2);
    lemma_pruned_keeps_live(second, t2);
}

} // verus!
