//! Display-safe masking of secrets.
//!
//! A secret of at most eight characters is replaced by a fixed placeholder
//! that reveals nothing, not even its length; a longer one shows its first
//! four and last four characters joined by an ellipsis. The function is
//! pure and never exposes any middle character of a long secret.

use vstd::prelude::*;
use vstd::string::*;

verus! {

/// The exact display form of a masked secret.
pub open spec fn mask_spec(s: Seq<char>) -> Seq<char> {
    if s.len() <= 8 {
        seq!['*', '*', '*']
    } else {
        s.subrange(0, 4) + seq!['.', '.', '.'] + s.subrange(s.len() - 4, s.len() as int)
    }
}

/// Law: the mask of a secret longer than eight characters is built from
/// its first four characters, the three separator dots, and its last
/// four characters — no other position of the secret reaches the
/// display.
pub proof fn lemma_mask_reveals_only_ends(s: Seq<char>)
    requires
        s.len() > 8,
    ensures
        mask_spec(s).len() == 11,
        forall|i: int| 0 <= i < 4 ==> mask_spec(s)[i] == s[i],
        forall|i: int| 4 <= i < 7 ==> mask_spec(s)[i] == '.',
        forall|i: int| 7 <= i < 11 ==> mask_spec(s)[i] == s[s.len() - 11 + i],
{
}

/// Masks a secret for display: the fixed placeholder `***` for length
/// eight or less, else the first four and last four characters joined by
/// `...`.
pub fn mask_api_key(key: &str) -> (r: String)
    ensures
        r@ == mask_spec(key@),
{
    let n = key.unicode_len();
    if n <= 8 {
        let r = String::from_str("***");
        proof {
            reveal_strlit("***");
            assert(r@ =~= mask_spec(key@));
        }
        r
    } else {
        let head = key.substring_char(0, 4);
        let tail = key.substring_char(n - 4, n);
        let r = head.to_owned().concat("...").concat(tail);
        proof {
            reveal_strlit("...");
            assert(r@ =~= mask_spec(key@));
        }
        r
    }
}

} // verus!
