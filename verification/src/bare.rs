//! The bare protocol variant: no JSON envelope, one decimal numeral per line
//! in each direction — the multiplier out, the resulting day back. A worker
//! build speaks either this variant or the JSON one; the two are never mixed
//! in one process lifetime, so they are separate entry points here.

use vstd::prelude::*;
use vstd::string::{StrSliceExecFns, StringExecFns};
use vstd::arithmetic::div_mod::lemma_fundamental_div_mod;
use crate::numeral::{dec_digit, dec_rep, u32_dec};
use crate::response::WorkerError;

verus! {

/// The numeric value of one digit character, `None` for any other character.
pub open spec fn digit_val(c: char) -> Option<nat> {
    if c == '0' {
        Some(0nat)
    } else if c == '1' {
        Some(1nat)
    } else if c == '2' {
        Some(2nat)
    } else if c == '3' {
        Some(3nat)
    } else if c == '4' {
        Some(4nat)
    } else if c == '5' {
        Some(5nat)
    } else if c == '6' {
        Some(6nat)
    } else if c == '7' {
        Some(7nat)
    } else if c == '8' {
        Some(8nat)
    } else if c == '9' {
        Some(9nat)
    } else {
        None
    }
}

/// Every character of `s` is a decimal digit.
pub open spec fn all_digits(s: Seq<char>) -> bool {
    forall|i: int| 0 <= i < s.len() ==> #[trigger] digit_val(s[i]) is Some
}

/// The number a digit string denotes (most significant digit first).
pub open spec fn dec_value(s: Seq<char>) -> nat
    recommends
        all_digits(s),
    decreases s.len(),
{
    if s.len() == 0 {
        0
    } else {
        dec_value(s.drop_last()) * 10 + (match digit_val(s.last()) {
            Some(d) => d,
            None => 0,
        })
    }
}

/// A canonical decimal numeral: at least one digit, and no leading zero
/// except for `0` itself.
pub open spec fn canonical_numeral(s: Seq<char>) -> bool {
    s.len() > 0 && all_digits(s) && (s.len() > 1 ==> s[0] != '0')
}

/// The payload of a received line: the line with one trailing newline
/// removed, when present.
pub open spec fn bare_payload(s: Seq<char>) -> Seq<char> {
    if s.len() > 0 && s.last() == '\n' {
        s.drop_last()
    } else {
        s
    }
}

proof fn lemma_digit_val_of_dec_digit(d: nat)
    requires
        d < 10,
    ensures
        digit_val(dec_digit(d)) == Some(d),
{
}

proof fn lemma_dec_rep_shape(n: nat)
    ensures
        dec_rep(n).len() > 0,
        n >= 1 ==> dec_rep(n)[0] != '0',
        n < 10 ==> dec_rep(n).len() == 1,
        n >= 10 ==> dec_rep(n).len() > 1,
    decreases n,
{
    if n >= 10 {
        lemma_dec_rep_shape(n / 10);
        assert(dec_rep(n)[0] == dec_rep(n / 10)[0]);
    }
}

/// Law: the rendered numeral of any number is canonical and denotes exactly
/// that number — rendering then parsing is the identity.
pub proof fn lemma_numeral_round_trip(n: nat)
    ensures
        canonical_numeral(dec_rep(n)),
        dec_value(dec_rep(n)) == n,
    decreases n,
{
    if n < 10 {
        lemma_digit_val_of_dec_digit(n);
        assert(dec_rep(n).drop_last() =~= Seq::<char>::empty());
        assert(dec_rep(n).last() == dec_digit(n));
        assert(dec_value(Seq::<char>::empty()) == 0);
        assert(dec_value(dec_rep(n)) == dec_value(dec_rep(n).drop_last()) * 10 + n);
    } else {
        lemma_numeral_round_trip(n / 10);
        lemma_digit_val_of_dec_digit(n % 10);
        lemma_dec_rep_shape(n / 10);
        let s = dec_rep(n);
        assert(s.drop_last() =~= dec_rep(n / 10));
        assert(s.last() == dec_digit(n % 10));
        assert forall|i: int| 0 <= i < s.len() implies #[trigger] digit_val(s[i]) is Some by {
            if i < s.len() - 1 {
                assert(s[i] == dec_rep(n / 10)[i]);
            } else {
                assert(s[i] == dec_digit(n % 10));
            }
        }
        assert(s[0] == dec_rep(n / 10)[0]);
        lemma_fundamental_div_mod(n as int, 10);
        assert(dec_value(s) == (n / 10) * 10 + n % 10);
    }
}

proof fn lemma_digit_char_inverse(c: char)
    requires
        digit_val(c) is Some,
    ensures
        dec_digit(digit_val(c)->Some_0) == c,
        digit_val(c)->Some_0 < 10,
{
}

proof fn lemma_leading_digit_value(s: Seq<char>)
    requires
        all_digits(s),
        s.len() >= 1,
        s[0] != '0',
    ensures
        dec_value(s) >= 1,
{
    assert(digit_val(s[0]) is Some);
    assert(s.take(1).drop_last() =~= Seq::<char>::empty());
    assert(s.take(1).last() == s[0]);
    assert(dec_value(Seq::<char>::empty()) == 0);
    assert(s.take(1).len() == 1);
    assert(dec_value(s.take(1)) == digit_val(s[0])->Some_0);
    assert(digit_val(s[0])->Some_0 >= 1);
    lemma_dec_value_prefix_monotone(s, 1, s.len() as int);
    assert(s.take(s.len() as int) =~= s);
}

/// Law: a canonical numeral renders back to itself — parsing then rendering
/// is the identity, so the wire form of a number is unique.
pub proof fn lemma_numeral_render_of_value(s: Seq<char>)
    requires
        canonical_numeral(s),
    ensures
        dec_rep(dec_value(s)) == s,
    decreases s.len(),
{
    let d = digit_val(s.last())->Some_0;
    assert(digit_val(s.last()) is Some);
    lemma_digit_char_inverse(s.last());
    if s.len() == 1 {
        assert(dec_value(s.drop_last()) == 0) by {
            assert(s.drop_last() =~= Seq::<char>::empty());
        }
        assert(dec_value(s) == d);
        assert(dec_rep(d) =~= s);
    } else {
        let t = s.drop_last();
        assert forall|i: int| 0 <= i < t.len() implies #[trigger] digit_val(t[i]) is Some by {
            assert(t[i] == s[i]);
        }
        assert(t[0] == s[0]);
        assert(canonical_numeral(t));
        lemma_leading_digit_value(t);
        let v = dec_value(t);
        let n = dec_value(s);
        assert(n == v * 10 + d);
        assert(n >= 10) by (nonlinear_arith)
            requires
                v >= 1,
                d >= 0,
                n == v * 10 + d,
        {
        }
        vstd::arithmetic::div_mod::lemma_fundamental_div_mod_converse_div(
            n as int,
            10,
            v as int,
            d as int,
        );
        vstd::arithmetic::div_mod::lemma_fundamental_div_mod_converse_mod(
            n as int,
            10,
            v as int,
            d as int,
        );
        assert(n / 10 == v);
        assert(n % 10 == d);
        lemma_numeral_render_of_value(t);
        assert(dec_rep(n) == dec_rep(v) + seq![dec_digit(d)]);
        assert(dec_rep(n) =~= s);
    }
}

proof fn lemma_dec_value_prefix_monotone(s: Seq<char>, i: int, j: int)
    requires
        0 <= i <= j <= s.len(),
    ensures
        dec_value(s.take(i)) <= dec_value(s.take(j)),
    decreases j - i,
{
    if i < j {
        lemma_dec_value_prefix_monotone(s, i, j - 1);
        assert(s.take(j).drop_last() =~= s.take(j - 1));
        assert(dec_value(s.take(j)) >= dec_value(s.take(j - 1)));
    }
}

fn digit_of(c: char) -> (r: Option<u64>)
    ensures
        match r {
            Some(d) => digit_val(c) == Some(d as nat) && d < 10,
            None => digit_val(c) is None,
        },
{
    if c == '0' {
        Some(0)
    } else if c == '1' {
        Some(1)
    } else if c == '2' {
        Some(2)
    } else if c == '3' {
        Some(3)
    } else if c == '4' {
        Some(4)
    } else if c == '5' {
        Some(5)
    } else if c == '6' {
        Some(6)
    } else if c == '7' {
        Some(7)
    } else if c == '8' {
        Some(8)
    } else if c == '9' {
        Some(9)
    } else {
        None
    }
}

/// Parse a canonical decimal numeral that fits in a `u64`; anything else —
/// empty, a non-digit, a leading zero, a value past `u64::MAX` — is `None`.
pub fn parse_numeral(s: &str) -> (r: Option<u64>)
    ensures
        r matches Some(n) ==> canonical_numeral(s@) && dec_value(s@) == n as nat,
        canonical_numeral(s@) && dec_value(s@) <= u64::MAX ==> (r matches Some(n) && n as nat
            == dec_value(s@)),
{
    let len = s.unicode_len();
    if len == 0 {
        return None;
    }
    if len > 1 && s.get_char(0) == '0' {
        return None;
    }
    let mut acc: u64 = 0;
    let mut i: usize = 0;
    while i < len
        invariant
            0 <= i <= len,
            len == s@.len(),
            len >= 1,
            len > 1 ==> s@[0] != '0',
            all_digits(s@.take(i as int)),
            acc as nat == dec_value(s@.take(i as int)),
        decreases len - i,
    {
        let c = s.get_char(i);
        let d = match digit_of(c) {
            Some(d) => d,
            None => {
                assert(digit_val(s@[i as int]) is None);
                return None;
            },
        };
        proof {
            assert(s@.take(i + 1).drop_last() =~= s@.take(i as int));
            assert(s@.take(i + 1).last() == s@[i as int]);
            assert(dec_value(s@.take(i + 1)) == (acc as nat) * 10 + d as nat);
        }
        let scaled = match acc.checked_mul(10) {
            Some(x) => x,
            None => {
                proof {
                    lemma_dec_value_prefix_monotone(s@, i + 1, s@.len() as int);
                    assert(s@.take(s@.len() as int) =~= s@);
                }
                return None;
            },
        };
        let next = match scaled.checked_add(d) {
            Some(x) => x,
            None => {
                proof {
                    lemma_dec_value_prefix_monotone(s@, i + 1, s@.len() as int);
                    assert(s@.take(s@.len() as int) =~= s@);
                }
                return None;
            },
        };
        proof {
            assert forall|j: int| 0 <= j < i + 1 implies #[trigger] digit_val(
                s@.take(i + 1)[j],
            ) is Some by {
                if j < i {
                    assert(s@.take(i + 1)[j] == s@.take(i as int)[j]);
                }
            }
        }
        acc = next;
        i += 1;
    }
    proof {
        assert(s@.take(len as int) =~= s@);
    }
    Some(acc)
}

/// Render a bare tick request: the multiplier's decimal numeral, then a
/// newline.
pub fn render_bare_tick(multiplier: u32) -> (r: String)
    ensures
        r@ == dec_rep(multiplier as nat) + "\n"@,
{
    let mut s = u32_dec(multiplier);
    s.append("\n");
    proof {
        assert(s@ =~= dec_rep(multiplier as nat) + "\n"@);
    }
    s
}

/// Decode a bare day response: zero bytes read means the worker ended;
/// otherwise the line (its trailing newline removed) must be a canonical
/// decimal numeral that fits in a `u64`, and that number is the day.
pub fn decode_bare_day(bytes_read: usize, line: &str) -> (r: Result<u64, WorkerError>)
    ensures
        bytes_read == 0 ==> (r matches Err(e) && e matches WorkerError::Ended),
        bytes_read > 0 ==> (match r {
            Ok(n) => canonical_numeral(bare_payload(line@)) && dec_value(bare_payload(line@))
                == n as nat,
            Err(e) => e matches WorkerError::InvalidOutput(_) && !(canonical_numeral(
                bare_payload(line@),
            ) && dec_value(bare_payload(line@)) <= u64::MAX),
        }),
{
    if bytes_read == 0 {
        return Err(WorkerError::Ended);
    }
    let len = line.unicode_len();
    let payload: &str = if len > 0 && line.get_char(len - 1) == '\n' {
        let trimmed = line.substring_char(0, len - 1);
        proof {
            assert(trimmed@ =~= bare_payload(line@));
        }
        trimmed
    } else {
        line
    };
    assert(payload@ == bare_payload(line@));
    match parse_numeral(payload) {
        Some(n) => Ok(n),
        None => Err(WorkerError::InvalidOutput("expected a decimal numeral".to_owned())),
    }
}

} // verus!
