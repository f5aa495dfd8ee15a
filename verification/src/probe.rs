//! The probe that tells whether a directory can be written to: a file that
//! the directory does not hold yet is created in it and removed again.

use vstd::prelude::*;
use vstd::string::StringExecFns;
use vstd::set_lib::{lemma_len_subset, lemma_subset_equality};

verus! {

/// The name that the probe file gets where the directory holds no entry of
/// that name.
pub const PROBE_FILE: &'static str = "test";

/// What is appended to the probe file's name, as often as it takes, for the
/// name to be new to the directory.
pub const PROBE_PADDING: &'static str = "_";

/// The `k`-th name that is tried for the probe file: `PROBE_FILE` with
/// `PROBE_PADDING` appended `k` times.
pub open spec fn candidate(k: nat) -> Seq<char>
    decreases k,
{
    if k == 0 {
        PROBE_FILE@
    } else {
        candidate((k - 1) as nat) + PROBE_PADDING@
    }
}

/// The index of the first name, from the `k`-th on, that none of `entries`
/// has.
pub open spec fn first_free(entries: Seq<Seq<char>>, k: nat) -> nat
    decreases entries.len() - k,
{
    if k < entries.len() && entries.contains(candidate(k)) {
        first_free(entries, k + 1)
    } else {
        k
    }
}

/// The name of the probe file in a directory that holds `entries`.
#[verifier::opaque]
pub open spec fn fresh_name(entries: Seq<Seq<char>>) -> Seq<char> {
    candidate(first_free(entries, 0))
}

/// Whether a directory can be written to, given how its probe went: the
/// probe file was created, and it was removed again.
pub open spec fn can_write(created: bool, removed: bool) -> bool {
    created && removed
}

/// The first `k` names that are tried, as a set.
spec fn tried(k: nat) -> Set<Seq<char>>
    decreases k,
{
    if k == 0 {
        Set::empty()
    } else {
        tried((k - 1) as nat).insert(candidate((k - 1) as nat))
    }
}

/// Each name that is tried is longer by one character than the one before.
proof fn lemma_candidate_len(k: nat)
    ensures
        candidate(k).len() == PROBE_FILE@.len() + k,
    decreases k,
{
    reveal_strlit("_");
    if k > 0 {
        lemma_candidate_len((k - 1) as nat);
    }
}

/// The first `k` names that are tried are `k` different names.
proof fn lemma_tried(k: nat)
    ensures
        tried(k).finite(),
        tried(k).len() == k,
        forall|name: Seq<char>| #[trigger]
            tried(k).contains(name) <==> exists|j: nat| j < k && name == #[trigger] candidate(j),
    decreases k,
{
    if k > 0 {
        let before = (k - 1) as nat;
        lemma_tried(before);
        assert(!tried(before).contains(candidate(before))) by {
            if tried(before).contains(candidate(before)) {
                let j = choose|j: nat| j < before && candidate(before) == #[trigger] candidate(j);
                lemma_candidate_len(j);
                lemma_candidate_len(before);
            }
        }
        assert forall|name: Seq<char>| #[trigger]
            tried(k).contains(name) implies exists|j: nat|
            j < k && name == #[trigger] candidate(j) by {
            if name == candidate(before) {
            } else {
                let j = choose|j: nat| j < before && name == #[trigger] candidate(j);
                assert(j < k && name == candidate(j));
            }
        }
    }
}

/// A directory whose entries are as many names as have been tried, all of
/// them found there, holds nothing else: the next name is new to it.
proof fn lemma_next_is_free(entries: Seq<Seq<char>>)
    requires
        forall|j: nat| j < entries.len() ==> entries.contains(#[trigger] candidate(j)),
    ensures
        !entries.contains(candidate(entries.len())),
{
    let n = entries.len();
    lemma_tried(n);
    entries.lemma_cardinality_of_set();
    assert(tried(n).subset_of(entries.to_set())) by {
        assert forall|name: Seq<char>| tried(n).contains(name) implies entries.to_set().contains(
            name,
        ) by {
            let j = choose|j: nat| j < n && name == #[trigger] candidate(j);
            assert(entries.contains(candidate(j)));
        }
    }
    vstd::seq_lib::seq_to_set_is_finite(entries);
    lemma_len_subset(tried(n), entries.to_set());
    lemma_subset_equality(tried(n), entries.to_set());
    if entries.contains(candidate(n)) {
        assert(entries.to_set().contains(candidate(n)));
        assert(tried(n).contains(candidate(n)));
        let j = choose|j: nat| j < n && candidate(n) == #[trigger] candidate(j);
        lemma_candidate_len(j);
        lemma_candidate_len(n);
    }
}

/// The search from the `k`-th name on, where every name before it is taken,
/// ends at the first name that is free.
proof fn lemma_first_free(entries: Seq<Seq<char>>, k: nat)
    requires
        k <= entries.len(),
        forall|j: nat| j < k ==> entries.contains(#[trigger] candidate(j)),
    ensures
        k <= first_free(entries, k) <= entries.len(),
        forall|j: nat| j < first_free(entries, k) ==> entries.contains(#[trigger] candidate(j)),
        !entries.contains(candidate(first_free(entries, k))),
    decreases entries.len() - k,
{
    if k < entries.len() && entries.contains(candidate(k)) {
        lemma_first_free(entries, k + 1);
    } else if k == entries.len() {
        lemma_next_is_free(entries);
    }
}

/// The probe touches no entry of the directory: the name of the probe file
/// is that of none of the entries. It is the first of the names `test`,
/// `test_`, `test__` and so on that is free, so every shorter one is taken,
/// and in a directory without an entry `test` it is `test` itself.
pub proof fn lemma_fresh_name_is_free(entries: Seq<Seq<char>>)
    ensures
        !entries.contains(fresh_name(entries)),
        first_free(entries, 0) <= entries.len(),
        forall|j: nat| j < first_free(entries, 0) ==> entries.contains(#[trigger] candidate(j)),
        !entries.contains(PROBE_FILE@) ==> fresh_name(entries) == PROBE_FILE@,
{
    reveal(fresh_name);
    lemma_first_free(entries, 0);
}

/// Whether one of `entries` is `name`.
fn holds(entries: &Vec<String>, name: &String) -> (found: bool)
    ensures
        found == entries.deep_view().contains(name@),
{
    let ghost names = entries.deep_view();
    let mut i: usize = 0;
    while i < entries.len()
        invariant
            i <= entries.len(),
            names == entries.deep_view(),
            forall|j: int| 0 <= j < i ==> names[j] != name@,
        decreases entries.len() - i,
    {
        if entries[i] == *name {
            assert(names[i as int] == name@);
            return true;
        }
        assert(names[i as int] == entries[i as int]@);
        i = i + 1;
    }
    false
}

/// Names the probe file for a directory that holds `entries`: `PROBE_FILE`,
/// with `PROBE_PADDING` appended as often as it takes for the name to be
/// that of no entry.
pub fn probe_name(entries: &Vec<String>) -> (name: String)
    ensures
        name@ == fresh_name(entries.deep_view()),
        !entries.deep_view().contains(name@),
{
    let ghost names = entries.deep_view();
    let mut name = String::from_str(PROBE_FILE);
    let mut k: usize = 0;
    while k < entries.len() && holds(entries, &name)
        invariant
            k <= entries.len(),
            names == entries.deep_view(),
            name@ == candidate(k as nat),
            first_free(names, k as nat) == first_free(names, 0),
        decreases entries.len() - k,
    {
        name.append(PROBE_PADDING);
        k = k + 1;
    }
    proof {
        reveal(fresh_name);
        lemma_fresh_name_is_free(names);
    }
    name
}

/// Decides from the probe of a directory whether higher privileges are
/// needed to write to it: they are unless the probe file was created and
/// removed again. A failure of either step is an answer, not an error.
pub fn needs_to_elevate(created: bool, removed: bool) -> (needed: bool)
    ensures
        needed == !can_write(created, removed),
{
    !(created && removed)
}

} // verus!
