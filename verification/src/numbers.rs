//! Decimal digits: parsing a non-negative integer from text and rendering
//! one back, with exact contracts over the digit sequence.

use vstd::prelude::*;
use vstd::string::*;
use crate::text::char_to_string;

verus! {

/// Whether the character is an ASCII decimal digit.
pub open spec fn is_digit_char(c: char) -> bool {
    '0' <= c && c <= '9'
}

/// The numeric value of an ASCII digit character.
pub open spec fn digit_val(c: char) -> int {
    c as int - '0' as int
}

/// Whether every character of the sequence is an ASCII decimal digit.
pub open spec fn all_digits(s: Seq<char>) -> bool {
    forall|i: int| 0 <= i < s.len() ==> is_digit_char(s[i])
}

/// The number denoted by a sequence of decimal digits, most significant
/// first.
pub open spec fn seq_to_nat(s: Seq<char>) -> nat
    decreases s.len(),
{
    if s.len() == 0 {
        0
    } else {
        seq_to_nat(s.drop_last()) * 10 + (if digit_val(s.last()) >= 0 {
            digit_val(s.last()) as nat
        } else {
            0
        })
    }
}

/// The digit character for a value below ten.
pub open spec fn digit_char(d: int) -> char {
    if d == 0 {
        '0'
    } else if d == 1 {
        '1'
    } else if d == 2 {
        '2'
    } else if d == 3 {
        '3'
    } else if d == 4 {
        '4'
    } else if d == 5 {
        '5'
    } else if d == 6 {
        '6'
    } else if d == 7 {
        '7'
    } else if d == 8 {
        '8'
    } else {
        '9'
    }
}

/// The decimal rendering of a number, without leading zeros (a single
/// zero for zero itself).
pub open spec fn nat_to_digits(n: nat) -> Seq<char>
    decreases n,
{
    if n < 10 {
        seq![digit_char(n as int)]
    } else {
        nat_to_digits(n / 10).push(digit_char((n % 10) as int))
    }
}

/// Rendering a number gives digits only, at least one of them, and parsing
/// them back yields the number.
pub proof fn lemma_digits_roundtrip(n: nat)
    ensures
        all_digits(nat_to_digits(n)),
        nat_to_digits(n).len() >= 1,
        seq_to_nat(nat_to_digits(n)) == n,
    decreases n,
{
    if n < 10 {
        let s = seq![digit_char(n as int)];
        assert(s.drop_last() =~= Seq::<char>::empty());
        assert(digit_val('0') == 0 && digit_val('1') == 1 && digit_val('2') == 2 && digit_val('3')
            == 3 && digit_val('4') == 4 && digit_val('5') == 5 && digit_val('6') == 6 && digit_val(
        '7') == 7 && digit_val('8') == 8 && digit_val('9') == 9);
        assert(digit_val(digit_char(n as int)) == n);
        assert(s.len() == 1);
        assert(s.last() == digit_char(n as int));
        assert(seq_to_nat(s.drop_last()) == 0);
        assert(seq_to_nat(s) == n);
    } else {
        lemma_digits_roundtrip(n / 10);
        let t = nat_to_digits(n / 10);
        let s = t.push(digit_char((n % 10) as int));
        assert(s.drop_last() =~= t);
        assert(s.last() == digit_char((n % 10) as int));
        assert(seq_to_nat(s) == seq_to_nat(t) * 10 + n % 10);
        assert((n / 10) * 10 + n % 10 == n) by (nonlinear_arith);
    }
}

/// Distinct numbers render to distinct digit strings.
pub proof fn lemma_digits_injective(a: nat, b: nat)
    requires
        nat_to_digits(a) == nat_to_digits(b),
    ensures
        a == b,
{
    lemma_digits_roundtrip(a);
    lemma_digits_roundtrip(b);
}

/// Extending a digit string on the right never decreases its value.
proof fn lemma_seq_to_nat_prefix(s: Seq<char>, i: int)
    requires
        0 <= i <= s.len(),
    ensures
        seq_to_nat(s.subrange(0, i)) <= seq_to_nat(s),
    decreases s.len() - i,
{
    if i == s.len() {
        assert(s.subrange(0, i) =~= s);
    } else {
        let t = s.subrange(0, i + 1);
        assert(t.drop_last() =~= s.subrange(0, i));
        assert(seq_to_nat(t) == seq_to_nat(s.subrange(0, i)) * 10 + (if digit_val(t.last())
            >= 0 {
            digit_val(t.last()) as nat
        } else {
            0
        }));
        assert(seq_to_nat(s.subrange(0, i)) <= seq_to_nat(s.subrange(0, i)) * 10) by (nonlinear_arith);
        lemma_seq_to_nat_prefix(s, i + 1);
    }
}

fn digit_char_exec(d: usize) -> (c: char)
    requires
        d < 10,
    ensures
        c == digit_char(d as int),
{
    if d == 0 {
        '0'
    } else if d == 1 {
        '1'
    } else if d == 2 {
        '2'
    } else if d == 3 {
        '3'
    } else if d == 4 {
        '4'
    } else if d == 5 {
        '5'
    } else if d == 6 {
        '6'
    } else if d == 7 {
        '7'
    } else if d == 8 {
        '8'
    } else {
        '9'
    }
}

/// Renders a number in decimal.
pub fn usize_to_string(n: usize) -> (r: String)
    ensures
        r@ == nat_to_digits(n as nat),
    decreases n,
{
    if n < 10 {
        char_to_string(digit_char_exec(n))
    } else {
        let mut r = usize_to_string(n / 10);
        let d = char_to_string(digit_char_exec(n % 10));
        r.append(d.as_str());
        proof {
            assert(r@ =~= nat_to_digits((n / 10) as nat).push(digit_char((n % 10) as int)));
        }
        r
    }
}

/// Parses a non-negative decimal integer. Returns the value exactly when
/// the text is non-empty, holds digits only, and the value fits in
/// `usize`; returns nothing otherwise.
pub fn parse_usize(s: &str) -> (r: Option<usize>)
    ensures
        r is Some <==> (s@.len() > 0 && all_digits(s@) && seq_to_nat(s@) <= usize::MAX),
        r is Some ==> r.unwrap() as nat == seq_to_nat(s@),
{
    let n = s.unicode_len();
    if n == 0 {
        return None;
    }
    let mut acc: usize = 0;
    let mut i: usize = 0;
    while i < n
        invariant
            0 <= i <= n,
            n == s@.len(),
            all_digits(s@.subrange(0, i as int)),
            acc as nat == seq_to_nat(s@.subrange(0, i as int)),
        decreases n - i,
    {
        let c = s.get_char(i);
        let cv = c as u32;
        if cv < 48 || cv > 57 {
            proof {
                assert(!is_digit_char(s@[i as int]));
            }
            return None;
        }
        let d = (cv - 48) as usize;
        proof {
            assert(is_digit_char(s@[i as int]));
            assert(d as int == digit_val(s@[i as int]));
        }
        if acc > (usize::MAX - d) / 10 {
            proof {
                let m = usize::MAX as int;
                let di = d as int;
                let q = (m - di) / 10;
                assert(q * 10 + (m - di) % 10 == m - di) by (nonlinear_arith)
                    requires
                        q == (m - di) / 10,
                        0 <= di <= m,
                ;
                assert(acc as int * 10 >= (q + 1) * 10) by (nonlinear_arith)
                    requires
                        acc as int >= q + 1,
                ;
                assert(acc as int * 10 + di > m);
                let t = s@.subrange(0, i as int + 1);
                assert(t.drop_last() =~= s@.subrange(0, i as int));
                assert(seq_to_nat(t) == acc as nat * 10 + d as nat);
                lemma_seq_to_nat_prefix(s@, i as int + 1);
            }
            return None;
        }
        proof {
            let m = usize::MAX as int;
            let di = d as int;
            let q = (m - di) / 10;
            assert(q * 10 + (m - di) % 10 == m - di) by (nonlinear_arith)
                requires
                    q == (m - di) / 10,
                    0 <= di <= m,
            ;
            assert(acc as int * 10 <= q * 10) by (nonlinear_arith)
                requires
                    acc as int <= q,
            ;
            assert(acc as int * 10 + di <= m);
        }
        let next = acc * 10 + d;
        proof {
            let t = s@.subrange(0, i as int + 1);
            assert(t.drop_last() =~= s@.subrange(0, i as int));
            assert(seq_to_nat(t) == acc as nat * 10 + d as nat);
        }
        acc = next;
        i = i + 1;
    }
    proof {
        assert(s@.subrange(0, n as int) =~= s@);
    }
    Some(acc)
}

} // verus!
