//! Ordering of process samples for the telemetry report: heaviest memory
//! users first, processes of equal memory kept in the order they were sampled.
use vstd::prelude::*;

verus! {

/// One process as the telemetry report lists it. Memory is counted in bytes;
/// the report shows it in mebibytes.
#[derive(Debug, Clone)]
pub struct ProcessMini {
    pub name: String,
    pub pid: u32,
    pub memory_bytes: u64,
}

/// Where a process of memory `m` goes in a list sorted heaviest first: after
/// every entry of at least `m`.
pub open spec fn insert_pos(s: Seq<ProcessMini>, m: u64) -> nat
    decreases s.len(),
{
    if s.len() == 0 {
        0
    } else if s[0].memory_bytes < m {
        0
    } else {
        1 + insert_pos(s.drop_first(), m)
    }
}

/// `s` with `p` inserted at its place.
pub open spec fn insert_desc(s: Seq<ProcessMini>, p: ProcessMini) -> Seq<ProcessMini> {
    s.insert(insert_pos(s, p.memory_bytes) as int, p)
}

/// `s` sorted by memory, heaviest first, equal entries in their order in `s`.
pub open spec fn sort_desc(s: Seq<ProcessMini>) -> Seq<ProcessMini>
    decreases s.len(),
{
    if s.len() == 0 {
        s
    } else {
        insert_desc(sort_desc(s.drop_last()), s.last())
    }
}

/// Memory does not increase along `s`.
pub open spec fn sorted_desc(s: Seq<ProcessMini>) -> bool {
    forall|i: int, j: int| 0 <= i < j < s.len() ==> s[i].memory_bytes >= s[j].memory_bytes
}

/// The position `insert_pos` picks is the first entry lighter than `m`.
proof fn lemma_insert_pos(s: Seq<ProcessMini>, m: u64)
    ensures
        insert_pos(s, m) <= s.len(),
        forall|i: int| 0 <= i < insert_pos(s, m) ==> s[i].memory_bytes >= m,
        insert_pos(s, m) < s.len() ==> s[insert_pos(s, m) as int].memory_bytes < m,
    decreases s.len(),
{
    if s.len() > 0 && s[0].memory_bytes >= m {
        lemma_insert_pos(s.drop_first(), m);
        assert forall|i: int| 0 <= i < insert_pos(s, m) implies s[i].memory_bytes >= m by {
            if i > 0 {
                assert(s[i] == s.drop_first()[i - 1]);
            }
        }
    }
}

/// Any position after all entries of at least `m` and before the first lighter
/// one is the position `insert_pos` picks.
proof fn lemma_insert_pos_unique(s: Seq<ProcessMini>, m: u64, k: int)
    requires
        0 <= k <= s.len(),
        forall|i: int| 0 <= i < k ==> s[i].memory_bytes >= m,
        k < s.len() ==> s[k].memory_bytes < m,
    ensures
        insert_pos(s, m) == k,
    decreases s.len(),
{
    if k > 0 {
        assert(s[0].memory_bytes >= m);
        let t = s.drop_first();
        assert forall|i: int| 0 <= i < k - 1 implies t[i].memory_bytes >= m by {
            assert(t[i] == s[i + 1]);
        }
        if k - 1 < t.len() {
            assert(t[k - 1] == s[k]);
        }
        lemma_insert_pos_unique(t, m, k - 1);
    }
}

/// Inserting at its place keeps a list sorted.
proof fn lemma_insert_desc_sorted(s: Seq<ProcessMini>, p: ProcessMini)
    requires
        sorted_desc(s),
    ensures
        sorted_desc(insert_desc(s, p)),
{
    lemma_insert_pos(s, p.memory_bytes);
    let k = insert_pos(s, p.memory_bytes) as int;
    let r = insert_desc(s, p);
    assert forall|i: int, j: int| 0 <= i < j < r.len() implies r[i].memory_bytes
        >= r[j].memory_bytes by {
        if j < k {
        } else if j == k {
            assert(r[i] == s[i]);
        } else if i < k {
            assert(r[j] == s[j - 1]);
            assert(r[i] == s[i]);
            assert(s[k].memory_bytes < p.memory_bytes);
        } else if i == k {
            assert(r[j] == s[j - 1]);
            assert(s[k].memory_bytes < p.memory_bytes);
            assert(s[k].memory_bytes >= s[j - 1].memory_bytes || k == j - 1);
        } else {
            assert(r[j] == s[j - 1]);
            assert(r[i] == s[i - 1]);
        }
    }
}

/// The sorted list is ordered heaviest first and holds exactly the entries of
/// the input, each as often as there.
pub proof fn lemma_sort_desc(s: Seq<ProcessMini>)
    ensures
        sorted_desc(sort_desc(s)),
        sort_desc(s).to_multiset() == s.to_multiset(),
        sort_desc(s).len() == s.len(),
    decreases s.len(),
{
    broadcast use vstd::seq_lib::group_to_multiset_ensures;

    if s.len() > 0 {
        let t = s.drop_last();
        lemma_sort_desc(t);
        lemma_insert_desc_sorted(sort_desc(t), s.last());
        lemma_insert_pos(sort_desc(t), s.last().memory_bytes);
        assert(s =~= t.push(s.last()));
    } else {
        assert(s.to_multiset() =~= Seq::<ProcessMini>::empty().to_multiset());
    }
}

/// Sorts process samples by memory, heaviest first; samples of equal memory
/// keep their relative order.
pub fn sort_by_memory_desc(procs: Vec<ProcessMini>) -> (res: Vec<ProcessMini>)
    ensures
        res@ == sort_desc(procs@),
        sorted_desc(res@),
        res@.to_multiset() == procs@.to_multiset(),
{
    let ghost orig = procs@;
    assert(orig.len() == procs.len());
    let mut rest = procs;
    let mut res: Vec<ProcessMini> = Vec::new();
    let mut i: usize = 0;
    while rest.len() > 0
        invariant
            i + rest@.len() == orig.len(),
            orig.len() <= usize::MAX,
            rest@ == orig.skip(i as int),
            res@ == sort_desc(orig.take(i as int)),
        decreases rest@.len(),
    {
        let p = rest.remove(0);
        let m = p.memory_bytes;
        let mut k: usize = 0;
        while k < res.len() && res[k].memory_bytes >= m
            invariant
                k <= res.len(),
                forall|j: int| 0 <= j < k ==> res@[j].memory_bytes >= m,
            decreases res.len() - k,
        {
            k = k + 1;
        }
        proof {
            lemma_insert_pos_unique(res@, m, k as int);
            assert(p == orig[i as int]);
            assert(orig.take(i + 1).drop_last() =~= orig.take(i as int));
            assert(orig.take(i + 1).last() == p);
        }
        res.insert(k, p);
        i = i + 1;
        proof {
            assert(rest@ =~= orig.skip(i as int));
        }
    }
    proof {
        assert(orig.take(i as int) =~= orig);
        lemma_sort_desc(orig);
    }
    res
}

} // verus!
