//! Uniquification of a folder name: append a numeric suffix until the name
//! collides with nothing under the base directory.
//!
//! The caller lists the names that already exist under the base; this module
//! returns the first candidate — `name`, `name_1`, `name_2`, ... — that is
//! not among them. The search terminates because the candidates are pairwise
//! distinct, so at most as many as there are existing names can be taken.

use vstd::prelude::*;
use vstd::string::StringExecFns;
use crate::digits::{spec_dec, u64_to_dec_string, lemma_spec_dec_len, lemma_spec_dec_injective};

verus! {

/// The candidate tried at step `i`: the name itself first, then the name with
/// `_i` appended.
pub open spec fn spec_candidate(name: Seq<char>, i: nat) -> Seq<char> {
    if i == 0 {
        name
    } else {
        name + "_"@ + spec_dec(i)
    }
}

/// Whether a candidate collides with one of the existing names.
pub open spec fn taken(existing: Seq<String>, cand: Seq<char>) -> bool {
    exists|k: int| 0 <= k < existing.len() && existing[k]@ == cand
}

/// `r` is the first free candidate: some step reached it, it collides with
/// nothing, and every earlier candidate collides.
pub open spec fn is_first_free(existing: Seq<String>, name: Seq<char>, r: Seq<char>) -> bool {
    exists|i: nat|
        {
            &&& r == spec_candidate(name, i)
            &&& !taken(existing, spec_candidate(name, i))
            &&& forall|j: nat| j < i ==> taken(existing, spec_candidate(name, j))
        }
}

/// Distinct steps give distinct candidates.
proof fn lemma_candidate_injective(name: Seq<char>, i: nat, j: nat)
    requires
        spec_candidate(name, i) == spec_candidate(name, j),
    ensures
        i == j,
{
    reveal_strlit("_");
    if i == 0 && j != 0 {
        lemma_spec_dec_len(j);
        assert(spec_candidate(name, j).len() >= name.len() + 2);
        assert(false);
    } else if i != 0 && j == 0 {
        lemma_spec_dec_len(i);
        assert(spec_candidate(name, i).len() >= name.len() + 2);
        assert(false);
    } else if i != 0 && j != 0 {
        let prefix = name + "_"@;
        assert(spec_candidate(name, i) == prefix + spec_dec(i));
        assert(spec_candidate(name, j) == prefix + spec_dec(j));
        prefix.lemma_concat_injective(spec_dec(i), spec_dec(j));
        lemma_spec_dec_injective(i, j);
    }
}

/// Pigeonhole: when the first `m` candidates are all taken, each collides
/// with a different existing name, so there are at least `m` existing names.
proof fn lemma_taken_candidates_bound(existing: Seq<String>, name: Seq<char>, m: nat)
    requires
        forall|j: nat| j < m ==> taken(existing, spec_candidate(name, j)),
    ensures
        m <= existing.len(),
    decreases m,
{
    if m > 0 {
        let last = spec_candidate(name, (m - 1) as nat);
        assert(taken(existing, last));
        let k = choose|k: int| 0 <= k < existing.len() && existing[k]@ == last;
        let rest = existing.remove(k);
        assert forall|j: nat| j < m - 1 implies taken(rest, spec_candidate(name, j)) by {
            let cand = spec_candidate(name, j);
            assert(taken(existing, cand));
            let kj = choose|kj: int| 0 <= kj < existing.len() && existing[kj]@ == cand;
            if kj == k {
                lemma_candidate_injective(name, j, (m - 1) as nat);
                assert(false);
            } else if kj < k {
                assert(rest[kj]@ == cand);
            } else {
                assert(rest[kj - 1]@ == cand);
            }
        }
        lemma_taken_candidates_bound(rest, name, (m - 1) as nat);
    }
}

/// Build the candidate of step `i`.
fn make_candidate(name: &String, i: usize) -> (r: String)
    ensures
        r@ == spec_candidate(name@, i as nat),
{
    if i == 0 {
        name.clone()
    } else {
        let mut r = name.clone();
        r.append("_");
        let digits = u64_to_dec_string(i as u64);
        r.append(digits.as_str());
        proof {
            assert(r@ =~= spec_candidate(name@, i as nat));
        }
        r
    }
}

/// Whether a candidate is among the existing names.
fn is_taken(existing: &Vec<String>, cand: &String) -> (r: bool)
    ensures
        r == taken(existing@, cand@),
{
    let mut k: usize = 0;
    while k < existing.len()
        invariant
            k <= existing@.len(),
            forall|t: int| 0 <= t < k ==> existing@[t]@ != cand@,
        decreases existing@.len() - k,
    {
        if existing[k].eq(cand) {
            return true;
        }
        k = k + 1;
    }
    false
}

/// The first of `folder_name`, `folder_name_1`, `folder_name_2`, ... that is
/// not among the existing names under the base directory.
pub fn generate_unique_folder_name(existing: &Vec<String>, folder_name: &String) -> (r: String)
    ensures
        is_first_free(existing@, folder_name@, r@),
{
    let n = existing.len();
    let mut i: usize = 0;
    loop
        invariant
            n == existing@.len(),
            i <= n,
            forall|j: nat| j < i ==> taken(existing@, spec_candidate(folder_name@, j)),
        decreases existing@.len() - i,
    {
        let cand = make_candidate(folder_name, i);
        if !is_taken(existing, &cand) {
            proof {
                assert(is_first_free(existing@, folder_name@, cand@)) by {
                    assert(cand@ == spec_candidate(folder_name@, i as nat));
                }
            }
            return cand;
        }
        proof {
            assert forall|j: nat| j < i + 1 implies taken(
                existing@,
                spec_candidate(folder_name@, j),
            ) by {}
            lemma_taken_candidates_bound(existing@, folder_name@, (i + 1) as nat);
            assert(i + 1 <= n);
        }
        i = i + 1;
    }
}

} // verus!
