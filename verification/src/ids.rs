//! Stable unique profile identifiers derived from display names.
//!
//! A name is lowercased; every character that is not alphanumeric, `-` or
//! `_` becomes `-`; leading and trailing `-` are dropped. A name that
//! normalizes to the empty string falls back to the literal base `-`, so
//! that no identifier is ever empty. If the base collides with an existing
//! identifier, numeric suffixes `-1`, `-2`, ... are tried in order and the
//! first free candidate wins.

use vstd::prelude::*;
use vstd::seq_lib::*;
use vstd::set_lib::lemma_len_subset;
use vstd::string::*;
use crate::numbers::{nat_to_digits, lemma_digits_roundtrip, usize_to_string};
use crate::text::{
    char_is_alnum,
    char_to_string,
    is_alnum_char,
    lower_of,
    strip_ends,
    to_lower,
};

verus! {

/// Whether normalization keeps the character as it is.
pub open spec fn keep_char(c: char) -> bool {
    is_alnum_char(c) || c == '-' || c == '_'
}

/// Every kept character stays; every other character becomes `-`.
pub open spec fn dashify(s: Seq<char>) -> Seq<char> {
    Seq::new(s.len(), |i: int| if keep_char(s[i]) { s[i] } else { '-' })
}

/// The normalized base of a display name: lowercased, mapped to the
/// identifier alphabet, stripped of leading and trailing dashes, with the
/// literal `-` as fallback for names that normalize to nothing.
pub open spec fn base_id_of(name: Seq<char>) -> Seq<char> {
    let t = strip_ends(dashify(lower_of(name)), |c: char| c == '-');
    if t.len() == 0 {
        seq!['-']
    } else {
        t
    }
}

/// The k-th suffixed candidate for a base identifier.
pub open spec fn candidate(base: Seq<char>, k: nat) -> Seq<char> {
    base + seq!['-'] + nat_to_digits(k)
}

/// The first index at or after `k` whose candidate is not taken, searched
/// with bounded fuel.
pub open spec fn first_free(base: Seq<char>, ids: Seq<Seq<char>>, k: nat, fuel: nat) -> nat
    decreases fuel,
{
    if fuel == 0 {
        k
    } else if !ids.contains(candidate(base, k)) {
        k
    } else {
        first_free(base, ids, k + 1, (fuel - 1) as nat)
    }
}

/// The identifier that `generate_provider_id` returns: the base when it is
/// free, else the first free suffixed candidate.
pub open spec fn gen_id_spec(name: Seq<char>, ids: Seq<Seq<char>>) -> Seq<char> {
    let base = base_id_of(name);
    if !ids.contains(base) {
        base
    } else {
        candidate(base, first_free(base, ids, 1, ids.len() + 1))
    }
}

/// Distinct suffix indices give distinct candidates.
proof fn lemma_candidate_injective(base: Seq<char>, a: nat, b: nat)
    requires
        candidate(base, a) == candidate(base, b),
    ensures
        a == b,
{
    lemma_digits_roundtrip(a);
    lemma_digits_roundtrip(b);
    let sa = candidate(base, a);
    let sb = candidate(base, b);
    let start = base.len() + 1;
    assert(sa.len() == start + nat_to_digits(a).len());
    assert(sb.len() == start + nat_to_digits(b).len());
    assert(sa.subrange(start as int, sa.len() as int) =~= nat_to_digits(a));
    assert(sb.subrange(start as int, sb.len() as int) =~= nat_to_digits(b));
    crate::numbers::lemma_digits_injective(a, b);
}

/// A candidate is strictly longer than its base, so never equal to it.
proof fn lemma_candidate_ne_base(base: Seq<char>, k: nat)
    ensures
        candidate(base, k) != base,
{
    lemma_digits_roundtrip(k);
    assert(candidate(base, k).len() > base.len());
}

/// When the base and the candidates `1..k` are all taken, the identifier
/// list holds at least `k` distinct entries.
proof fn lemma_taken_bound(base: Seq<char>, ids: Seq<Seq<char>>, k: nat)
    requires
        k >= 1,
        ids.contains(base),
        forall|j: nat| 1 <= j < k ==> ids.contains(#[trigger] candidate(base, j)),
    ensures
        k <= ids.len(),
{
    let cs = Seq::new(k, |i: int| if i == 0 { base } else { candidate(base, i as nat) });
    assert forall|i: int, j: int| 0 <= i < j < k implies cs[i] != cs[j] by {
        if i == 0 {
            lemma_candidate_ne_base(base, j as nat);
        } else {
            if cs[i] == cs[j] {
                lemma_candidate_injective(base, i as nat, j as nat);
            }
        }
    }
    assert(cs.no_duplicates());
    cs.unique_seq_to_set();
    assert forall|x: Seq<char>| cs.to_set().contains(x) implies ids.to_set().contains(x) by {
        let i = choose|i: int| 0 <= i < cs.len() && cs[i] == x;
        assert(ids.contains(x));
    }
    assert(cs.to_set().subset_of(ids.to_set()));
    ids.lemma_cardinality_of_set();
    lemma_len_subset(cs.to_set(), ids.to_set());
}

/// The bounded search finds `k` when everything before `k` is taken and
/// `k` itself is free.
proof fn lemma_first_free_finds(base: Seq<char>, ids: Seq<Seq<char>>, start: nat, k: nat, fuel: nat)
    requires
        start <= k,
        start + fuel > k,
        forall|j: nat| start <= j < k ==> ids.contains(#[trigger] candidate(base, j)),
        !ids.contains(candidate(base, k)),
    ensures
        first_free(base, ids, start, fuel) == k,
    decreases k - start,
{
    if start == k {
    } else {
        assert(ids.contains(candidate(base, start)));
        lemma_first_free_finds(base, ids, start + 1, k, (fuel - 1) as nat);
    }
}

/// Whether any of the identifiers equals the given string.
fn ids_contain(ids: &[String], s: &String) -> (b: bool)
    ensures
        b == ids.deep_view().contains(s@),
{
    let n = ids.len();
    let mut i: usize = 0;
    while i < n
        invariant
            0 <= i <= n,
            n == ids@.len(),
            forall|j: int| 0 <= j < i ==> ids.deep_view()[j] != s@,
        decreases n - i,
    {
        let x = vstd::slice::slice_index_get(ids, i);
        if x.eq(s) {
            proof {
                assert(ids.deep_view()[i as int] == s@);
            }
            return true;
        }
        i = i + 1;
    }
    proof {
        if ids.deep_view().contains(s@) {
            let j = choose|j: int| 0 <= j < ids.deep_view().len() && ids.deep_view()[j] == s@;
        }
    }
    false
}

/// Replaces every character outside the identifier alphabet with `-`.
fn dashify_exec(s: &str) -> (r: String)
    ensures
        r@ == dashify(s@),
{
    let n = s.unicode_len();
    let mut out = String::new();
    let mut i: usize = 0;
    while i < n
        invariant
            0 <= i <= n,
            n == s@.len(),
            out@ == dashify(s@).subrange(0, i as int),
        decreases n - i,
    {
        let c = s.get_char(i);
        let kept: char = if char_is_alnum(c) || c == '-' || c == '_' {
            c
        } else {
            '-'
        };
        proof {
            assert(kept == dashify(s@)[i as int]);
        }
        let piece = char_to_string(kept);
        out.append(piece.as_str());
        proof {
            assert(out@ =~= dashify(s@).subrange(0, i as int + 1));
        }
        i = i + 1;
    }
    proof {
        assert(dashify(s@).subrange(0, n as int) =~= dashify(s@));
    }
    out
}

/// Strips leading and trailing dashes.
fn strip_dashes(s: &str) -> (r: String)
    ensures
        r@ == strip_ends(s@, |c: char| c == '-'),
{
    let n = s.unicode_len();
    let mut start: usize = 0;
    while start < n && s.get_char(start) == '-'
        invariant
            0 <= start <= n,
            n == s@.len(),
            forall|j: int| 0 <= j < start ==> s@[j] == '-',
        decreases n - start,
    {
        start = start + 1;
    }
    let mut end: usize = n;
    while end > start && s.get_char(end - 1) == '-'
        invariant
            start <= end <= n,
            n == s@.len(),
            forall|k: int| end <= k < n ==> s@[k] == '-',
        decreases end,
    {
        end = end - 1;
    }
    proof {
        let p = |c: char| c == '-';
        assert(forall|j: int| 0 <= j < start ==> p(s@[j]));
        assert(start == s@.len() || !p(s@[start as int]));
        crate::text::lemma_strip_front_subrange(s@, p, start as int);
        let f = s@.subrange(start as int, n as int);
        assert(forall|k: int| end - start <= k < f.len() ==> p(f[k]));
        if end > start {
            assert(!p(s@[end - 1]));
            assert(f[end - start - 1] == s@[end - 1]);
        }
        crate::text::lemma_strip_back_subrange(f, p, end - start);
        assert(f.subrange(0, end - start) =~= s@.subrange(start as int, end as int));
    }
    let out = s.substring_char(start, end);
    out.to_owned()
}

/// Derives a unique identifier for a new profile from its display name.
///
/// Returns exactly [`gen_id_spec`] of the name and the existing
/// identifiers; in particular the result never collides with an existing
/// identifier, and equal inputs always give equal results.
pub fn generate_provider_id(name: &str, existing_ids: &[String]) -> (r: String)
    ensures
        r@ == gen_id_spec(name@, existing_ids.deep_view()),
        !existing_ids.deep_view().contains(r@),
{
    let ghost ids = existing_ids.deep_view();
    let n_ids = existing_ids.len();
    proof {
        assert(ids.len() == existing_ids@.len());
    }
    let lowered = to_lower(name);
    let mapped = dashify_exec(lowered.as_str());
    let stripped = strip_dashes(mapped.as_str());
    let base: String = if stripped.unicode_len() == 0 {
        String::from_str("-")
    } else {
        stripped
    };
    proof {
        reveal_strlit("-");
        assert(base@ == base_id_of(name@));
    }
    if !ids_contain(existing_ids, &base) {
        return base;
    }
    let mut k: usize = 1;
    loop
        invariant
            1 <= k,
            k <= ids.len(),
            ids.len() == n_ids,
            base@ == base_id_of(name@),
            ids == existing_ids.deep_view(),
            ids.contains(base@),
            forall|j: nat| 1 <= j < k ==> ids.contains(#[trigger] candidate(base@, j)),
        decreases ids.len() - k,
    {
        let digits = usize_to_string(k);
        let cand = base.clone().concat("-").concat(digits.as_str());
        proof {
            reveal_strlit("-");
            assert(cand@ =~= candidate(base@, k as nat));
        }
        if !ids_contain(existing_ids, &cand) {
            proof {
                lemma_first_free_finds(base@, ids, 1, k as nat, ids.len() + 1);
            }
            return cand;
        }
        proof {
            lemma_taken_bound(base@, ids, k as nat + 1);
        }
        k = k + 1;
    }
}

} // verus!
