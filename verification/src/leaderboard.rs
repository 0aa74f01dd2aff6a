use vstd::prelude::*;
use vstd::pervasive::VecAdditionalExecFns;

use crate::constants::TOP_SIZE;
use crate::state::{entries_wf, entry_ge, entry_wf, top_sorted, TopEntry};

verus! {

/// Whether some slot already carries this donor id.
pub open spec fn has_id(s: Seq<TopEntry>, id: u64) -> bool {
    exists|i: int| 0 <= i < s.len() && s[i].donor_id == id
}

/// Index of the first slot carrying this donor id.
pub open spec fn first_idx_with_id(s: Seq<TopEntry>, id: u64) -> int
    decreases s.len(),
{
    if s.len() == 0 {
        0
    } else if s[0].donor_id == id {
        0
    } else {
        1 + first_idx_with_id(s.drop_first(), id)
    }
}

/// Index of the first slot with the minimum lifetime amount.
pub open spec fn min_amount_idx(s: Seq<TopEntry>) -> int
    decreases s.len(),
{
    if s.len() <= 1 {
        0
    } else {
        let r = 1 + min_amount_idx(s.drop_first());
        if s[0].lifetime_amount <= s[r].lifetime_amount {
            0
        } else {
            r
        }
    }
}

/// Whether the candidate displaces the minimum slot: strictly more
/// donated, or equal with the slot empty or the candidate's id lower.
pub open spec fn replaces_min(s: Seq<TopEntry>, cand: TopEntry) -> bool {
    let m = s[min_amount_idx(s)];
    cand.lifetime_amount > m.lifetime_amount || (cand.lifetime_amount == m.lifetime_amount && (
    m.donor_id == 0 || cand.donor_id < m.donor_id))
}

/// The board after choosing what the candidate replaces, before
/// re-sorting: refresh an existing slot with the same donor id, else
/// displace the minimum slot if the candidate outranks it, else nothing.
pub open spec fn select_entries(s: Seq<TopEntry>, cand: TopEntry) -> Seq<TopEntry> {
    if has_id(s, cand.donor_id) {
        s.update(first_idx_with_id(s, cand.donor_id), cand)
    } else if s.len() > 0 && replaces_min(s, cand) {
        s.update(min_amount_idx(s), cand)
    } else {
        s
    }
}

/// Insertion of one entry into a board sorted in leaderboard order.
pub open spec fn insert_sorted(s: Seq<TopEntry>, e: TopEntry) -> Seq<TopEntry>
    decreases s.len(),
{
    if s.len() == 0 {
        seq![e]
    } else if entry_ge(e, s[0]) {
        seq![e] + s
    } else {
        seq![s[0]] + insert_sorted(s.drop_first(), e)
    }
}

/// The board re-sorted into leaderboard order.
pub open spec fn sort_entries(s: Seq<TopEntry>) -> Seq<TopEntry>
    decreases s.len(),
{
    if s.len() == 0 {
        Seq::empty()
    } else {
        insert_sorted(sort_entries(s.drop_first()), s[0])
    }
}

/// What one leaderboard update does: selection, then a full re-sort.
pub open spec fn update_top_spec(s: Seq<TopEntry>, cand: TopEntry) -> Seq<TopEntry> {
    sort_entries(select_entries(s, cand))
}

pub proof fn lemma_first_idx(s: Seq<TopEntry>, id: u64)
    requires
        has_id(s, id),
    ensures
        0 <= first_idx_with_id(s, id) < s.len(),
        s[first_idx_with_id(s, id)].donor_id == id,
        forall|j: int| 0 <= j < first_idx_with_id(s, id) ==> (#[trigger] s[j]).donor_id != id,
    decreases s.len(),
{
    if s.len() == 0 {
    } else if s[0].donor_id == id {
    } else {
        assert(has_id(s.drop_first(), id)) by {
            let i = choose|i: int| 0 <= i < s.len() && s[i].donor_id == id;
            assert(s.drop_first()[i - 1].donor_id == id);
        }
        lemma_first_idx(s.drop_first(), id);
        assert forall|j: int| 0 <= j < first_idx_with_id(s, id) implies (#[trigger] s[j]).donor_id
            != id by {
            if j > 0 {
                assert(s.drop_first()[j - 1].donor_id != id);
            }
        }
    }
}

pub proof fn lemma_min_idx(s: Seq<TopEntry>)
    requires
        s.len() > 0,
    ensures
        0 <= min_amount_idx(s) < s.len(),
        forall|j: int| 0 <= j < s.len() ==> s[min_amount_idx(s)].lifetime_amount <= (#[trigger] s[
        j]).lifetime_amount,
        forall|j: int| 0 <= j < min_amount_idx(s) ==> (#[trigger] s[j]).lifetime_amount > s[
        min_amount_idx(s)].lifetime_amount,
    decreases s.len(),
{
    if s.len() > 1 {
        lemma_min_idx(s.drop_first());
        let r = 1 + min_amount_idx(s.drop_first());
        assert forall|j: int| 0 <= j < s.len() implies s[min_amount_idx(s)].lifetime_amount <= (
        #[trigger] s[j]).lifetime_amount by {
            if j > 0 {
                assert(s.drop_first()[j - 1] == s[j]);
            }
        }
        assert forall|j: int| 0 <= j < min_amount_idx(s) implies (#[trigger] s[j]).lifetime_amount
            > s[min_amount_idx(s)].lifetime_amount by {
            if j > 0 {
                assert(s.drop_first()[j - 1] == s[j]);
            }
        }
    }
}

pub proof fn lemma_insert_sorted_at(s: Seq<TopEntry>, e: TopEntry, j: int)
    requires
        0 <= j <= s.len(),
        forall|k: int| 0 <= k < j ==> !entry_ge(e, #[trigger] s[k]),
        j < s.len() ==> entry_ge(e, s[j]),
    ensures
        insert_sorted(s, e) =~= s.subrange(0, j) + seq![e] + s.subrange(j, s.len() as int),
    decreases s.len(),
{
    if j == 0 {
        assert(s.subrange(0, 0) + seq![e] + s.subrange(0, s.len() as int) =~= seq![e] + s);
    } else {
        lemma_insert_sorted_at(s.drop_first(), e, j - 1);
        assert(s.subrange(0, j) =~= seq![s[0]] + s.drop_first().subrange(0, j - 1));
        assert(s.subrange(j, s.len() as int) =~= s.drop_first().subrange(j - 1, s.len() - 1));
    }
}

pub proof fn lemma_insert_sorted_props(s: Seq<TopEntry>, e: TopEntry)
    ensures
        insert_sorted(s, e).len() == s.len() + 1,
        top_sorted(s) ==> top_sorted(insert_sorted(s, e)),
        forall|x: TopEntry| #[trigger] insert_sorted(s, e).contains(x) ==> s.contains(x) || x == e,
    decreases s.len(),
{
    let r = insert_sorted(s, e);
    if s.len() == 0 {
    } else if entry_ge(e, s[0]) {
        if top_sorted(s) {
            assert forall|i: int, j: int| 0 <= i <= j < r.len() implies entry_ge(r[i], r[j]) by {
                if i == 0 && j > 0 {
                    assert(entry_ge(s[0], s[j - 1]));
                }
            }
        }
    } else {
        lemma_insert_sorted_props(s.drop_first(), e);
        let rt = insert_sorted(s.drop_first(), e);
        assert forall|x: TopEntry| #[trigger] r.contains(x) implies s.contains(x) || x == e by {
            let i = choose|i: int| 0 <= i < r.len() && r[i] == x;
            if i == 0 {
                assert(s[0] == x);
            } else {
                assert(rt.contains(r[i]));
                if s.drop_first().contains(x) {
                    let k = choose|k: int| 0 <= k < s.drop_first().len() && s.drop_first()[k] == x;
                    assert(s[k + 1] == x);
                }
            }
        }
        if top_sorted(s) {
            assert(top_sorted(s.drop_first()));
            assert forall|i: int, j: int| 0 <= i <= j < r.len() implies entry_ge(r[i], r[j]) by {
                if i == 0 && j > 0 {
                    let x = r[j];
                    assert(rt.contains(rt[j - 1]));
                    if s.drop_first().contains(x) {
                        let k = choose|k: int|
                            0 <= k < s.drop_first().len() && s.drop_first()[k] == x;
                        assert(entry_ge(s[0], s[k + 1]));
                    }
                } else if i > 0 {
                    assert(entry_ge(rt[i - 1], rt[j - 1]));
                }
            }
        }
    }
}

pub proof fn lemma_sort_entries_props(s: Seq<TopEntry>)
    ensures
        sort_entries(s).len() == s.len(),
        top_sorted(sort_entries(s)),
        forall|x: TopEntry| #[trigger] sort_entries(s).contains(x) ==> s.contains(x),
    decreases s.len(),
{
    if s.len() > 0 {
        lemma_sort_entries_props(s.drop_first());
        lemma_insert_sorted_props(sort_entries(s.drop_first()), s[0]);
        assert forall|x: TopEntry| #[trigger] sort_entries(s).contains(x) implies s.contains(
            x) by {
            if sort_entries(s.drop_first()).contains(x) {
                let k = choose|k: int|
                    0 <= k < s.drop_first().len() && s.drop_first()[k] == x;
                assert(s[k + 1] == x);
            }
        }
    }
}

/// Re-sorting a board that is already in leaderboard order changes
/// nothing.
pub proof fn lemma_sort_sorted_identity(s: Seq<TopEntry>)
    requires
        top_sorted(s),
    ensures
        sort_entries(s) == s,
    decreases s.len(),
{
    if s.len() > 0 {
        let t = s.drop_first();
        assert(top_sorted(t)) by {
            assert forall|i: int, j: int| 0 <= i <= j < t.len() implies entry_ge(t[i], t[j]) by {
                assert(entry_ge(s[i + 1], s[j + 1]));
            }
        }
        lemma_sort_sorted_identity(t);
        if t.len() == 0 {
            assert(sort_entries(s) =~= s);
        } else {
            assert(entry_ge(s[0], t[0]));
            assert(seq![s[0]] + t =~= s);
        }
    }
}

/// Law: applying the leaderboard update with a candidate identical to the
/// entry already held for its donor id leaves the board unchanged.
pub proof fn lemma_update_top_noop(s: Seq<TopEntry>, cand: TopEntry)
    requires
        top_sorted(s),
        has_id(s, cand.donor_id),
        forall|i: int| 0 <= i < s.len() && (#[trigger] s[i]).donor_id == cand.donor_id ==> s[i]
            == cand,
    ensures
        update_top_spec(s, cand) == s,
{
    lemma_first_idx(s, cand.donor_id);
    assert(s.update(first_idx_with_id(s, cand.donor_id), cand) =~= s);
    lemma_sort_sorted_identity(s);
}

/// Law: on a sorted board with sound entries, every sentinel slot
/// (donor id 0) sits after all occupied slots.
pub proof fn lemma_sentinels_sort_last(s: Seq<TopEntry>, i: int, j: int)
    requires
        top_sorted(s),
        entries_wf(s),
        0 <= i <= j < s.len(),
        s[i].donor_id == 0,
    ensures
        s[j].donor_id == 0,
{
    assert(entry_ge(s[i], s[j]));
    assert(entry_wf(s[i]));
    assert(entry_wf(s[j]));
}

fn insert_into_sorted(v: &mut Vec<TopEntry>, e: TopEntry)
    ensures
        final(v)@ == insert_sorted(old(v)@, e),
{
    let mut j: usize = 0;
    while j < v.len() && !(e.lifetime_amount > v[j].lifetime_amount || (e.lifetime_amount
        == v[j].lifetime_amount && e.donor_id <= v[j].donor_id))
        invariant
            0 <= j <= v.len(),
            v@ == old(v)@,
            forall|k: int| 0 <= k < j ==> !entry_ge(e, #[trigger] v@[k]),
        decreases v.len() - j,
    {
        j += 1;
    }
    proof {
        lemma_insert_sorted_at(v@, e, j as int);
    }
    v.insert(j, e);
    proof {
        assert(v@ =~= old(v)@.subrange(0, j as int) + seq![e] + old(v)@.subrange(
            j as int,
            old(v)@.len() as int,
        ));
    }
}

/// Applies one candidate to the fixed-size leaderboard: refresh the slot
/// already carrying its donor id, or displace the minimum slot if the
/// candidate outranks it, then re-sort the whole board.
pub fn update_top10(top: &mut Vec<TopEntry>, candidate: TopEntry)
    requires
        old(top)@.len() == TOP_SIZE,
    ensures
        final(top)@ == update_top_spec(old(top)@, candidate),
        final(top)@.len() == TOP_SIZE,
        top_sorted(final(top)@),
        entries_wf(old(top)@) && entry_wf(candidate) ==> entries_wf(final(top)@),
{
    let ghost s0 = top@;
    let n = top.len();
    let mut i: usize = 0;
    while i < n && top[i].donor_id != candidate.donor_id
        invariant
            0 <= i <= n,
            n == top@.len(),
            top@ == s0,
            forall|k: int| 0 <= k < i ==> (#[trigger] s0[k]).donor_id != candidate.donor_id,
        decreases n - i,
    {
        i += 1;
    }
    if i < n {
        proof {
            lemma_first_idx(s0, candidate.donor_id);
        }
        top.set(i, candidate);
    } else {
        proof {
            assert(!has_id(s0, candidate.donor_id));
        }
        let mut m: usize = 0;
        let mut j: usize = 1;
        while j < n
            invariant
                1 <= j <= n,
                0 <= m < j,
                n == top@.len(),
                top@ == s0,
                forall|k: int| 0 <= k < j ==> s0[m as int].lifetime_amount <= (#[trigger] s0[
                k]).lifetime_amount,
                forall|k: int| 0 <= k < m ==> (#[trigger] s0[k]).lifetime_amount > s0[
                m as int].lifetime_amount,
            decreases n - j,
        {
            if top[j].lifetime_amount < top[m].lifetime_amount {
                m = j;
            }
            j += 1;
        }
        proof {
            lemma_min_idx(s0);
        }
        let displace = candidate.lifetime_amount > top[m].lifetime_amount || (
        candidate.lifetime_amount == top[m].lifetime_amount && (top[m].donor_id == 0
            || candidate.donor_id < top[m].donor_id));
        if displace {
            top.set(m, candidate);
        }
    }
    proof {
        assert(top@ =~= select_entries(s0, candidate));
    }
    let ghost sel = top@;
    let mut r: Vec<TopEntry> = Vec::new();
    let mut i2: usize = top.len();
    while i2 > 0
        invariant
            0 <= i2 <= sel.len(),
            top@ == sel,
            r@ == sort_entries(sel.subrange(i2 as int, sel.len() as int)),
        decreases i2,
    {
        i2 -= 1;
        insert_into_sorted(&mut r, top[i2]);
        proof {
            assert(sel.subrange(i2 as int, sel.len() as int).drop_first() =~= sel.subrange(
                i2 + 1,
                sel.len() as int,
            ));
        }
    }
    proof {
        assert(sel.subrange(0, sel.len() as int) =~= sel);
        lemma_sort_entries_props(sel);
    }
    *top = r;
    proof {
        if entries_wf(s0) && entry_wf(candidate) {
            assert forall|k: int| 0 <= k < top@.len() implies entry_wf(#[trigger] top@[k]) by {
                assert(top@.contains(top@[k]));
                assert(sel.contains(top@[k]));
                let q = choose|q: int| 0 <= q < sel.len() && sel[q] == top@[k];
            }
        }
    }
}

} // verus!
