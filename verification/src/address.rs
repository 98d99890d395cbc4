//! Textual account addresses. The canonical form this service accepts is
//! `workchain:hex` — a decimal workchain id (optionally negative) that fits
//! a signed 32-bit integer, a colon, and exactly 64 hexadecimal digits of
//! address hash. The packed, checksummed representation is an external
//! concern: its validity is handed in by the caller.

use vstd::prelude::*;

use crate::models::AccountAddress;

verus! {

pub open spec fn is_dec_digit(c: char) -> bool {
    '0' <= c <= '9'
}

pub open spec fn is_hex_digit(c: char) -> bool {
    is_dec_digit(c) || ('a' <= c <= 'f') || ('A' <= c <= 'F')
}

pub open spec fn digit_val(c: char) -> int {
    c as int - '0' as int
}

/// Value of a sequence of decimal digits, most significant first.
pub open spec fn dec_value(s: Seq<char>) -> int
    decreases s.len(),
{
    if s.len() == 0 {
        0
    } else {
        dec_value(s.drop_last()) * 10 + digit_val(s.last())
    }
}

pub open spec fn pow10(n: nat) -> int
    decreases n,
{
    if n == 0 {
        1
    } else {
        10 * pow10((n - 1) as nat)
    }
}

/// A digit string's value is bounded by the power of ten of its length.
proof fn lemma_dec_value_bound(s: Seq<char>)
    requires
        forall|i: int| 0 <= i < s.len() ==> is_dec_digit(#[trigger] s[i]),
    ensures
        0 <= dec_value(s) < pow10(s.len() as nat),
    decreases s.len(),
{
    if s.len() > 0 {
        let rest = s.drop_last();
        assert(forall|i: int| 0 <= i < rest.len() ==> is_dec_digit(#[trigger] rest[i]));
        lemma_dec_value_bound(rest);
        assert(0 <= digit_val(s.last()) <= 9);
    }
}

/// Every index before the first colon, if any, holds no colon.
pub open spec fn colon_at(s: Seq<char>, k: int) -> bool {
    0 <= k < s.len() && s[k] == ':' && forall|m: int| 0 <= m < k ==> s[m] != ':'
}

/// The workchain part (everything before the colon) is well-formed: an
/// optional minus sign, one to ten decimal digits, and a value that fits a
/// signed 32-bit integer once the sign is applied.
pub open spec fn valid_workchain_part(p: Seq<char>) -> bool {
    if p.len() > 0 && p[0] == '-' {
        let d = p.subrange(1, p.len() as int);
        1 <= d.len() <= 10 && (forall|i: int| 0 <= i < d.len() ==> is_dec_digit(#[trigger] d[i]))
            && -dec_value(d) >= i32::MIN
    } else {
        1 <= p.len() <= 10 && (forall|i: int| 0 <= i < p.len() ==> is_dec_digit(#[trigger] p[i]))
            && dec_value(p) <= i32::MAX
    }
}

/// The signed value of the workchain part.
pub open spec fn workchain_value(p: Seq<char>) -> int {
    if p.len() > 0 && p[0] == '-' {
        -dec_value(p.subrange(1, p.len() as int))
    } else {
        dec_value(p)
    }
}

/// The canonical textual account form: `workchain:hex64`.
pub open spec fn valid_account_str(s: Seq<char>) -> bool {
    exists|k: int|
        #![trigger s[k]]
        colon_at(s, k) && valid_workchain_part(s.subrange(0, k)) && s.len() - k - 1 == 64
            && (forall|i: int| k < i < s.len() ==> is_hex_digit(#[trigger] s[i]))
}

/// The workchain id a valid account string denotes.
pub open spec fn parsed_workchain(s: Seq<char>) -> int {
    let k = choose|k: int| #![trigger s[k]] colon_at(s, k);
    workchain_value(s.subrange(0, k))
}

/// The hex address hash a valid account string denotes.
pub open spec fn parsed_hex(s: Seq<char>) -> Seq<char> {
    let k = choose|k: int| #![trigger s[k]] colon_at(s, k);
    s.subrange(k + 1, s.len() as int)
}

/// The first colon is unique, so any colon witness is the chosen one.
proof fn lemma_colon_unique(s: Seq<char>, k: int)
    requires
        colon_at(s, k),
    ensures
        (choose|k2: int| #![trigger s[k2]] colon_at(s, k2)) == k,
{
    let k2 = choose|k2: int| #![trigger s[k2]] colon_at(s, k2);
    assert(colon_at(s, k2));
    if k2 < k {
        assert(s[k2] != ':');
    } else if k < k2 {
        assert(s[k] != ':');
    }
}

/// Parses the canonical `workchain:hex` account form; `None` exactly on
/// strings that do not match it.
pub fn parse_account_address(s: &str) -> (r: Option<AccountAddress>)
    ensures
        r is Some <==> valid_account_str(s@),
        r is Some ==> r->0.workchain_id as int == parsed_workchain(s@) && r->0.hex@ == parsed_hex(
            s@,
        ),
{
    let n = s.unicode_len();
    // find the first colon
    let mut ci: usize = 0;
    while ci < n && s.get_char(ci) != ':'
        invariant
            ci <= n,
            n == s@.len(),
            forall|m: int| 0 <= m < ci ==> s@[m] != ':',
        decreases n - ci,
    {
        ci = ci + 1;
    }
    if ci == n {
        proof {
            if valid_account_str(s@) {
                let k = choose|k: int| #![trigger s@[k]] colon_at(s@, k);
                assert(s@[k] == ':');
            }
        }
        return Option::None;
    }
    proof {
        assert(colon_at(s@, ci as int));
    }
    // the workchain part
    let neg = s.get_char(0) == '-';
    let start: usize = if neg { 1 } else { 0 };
    let digits = ci - start;
    if digits < 1 || digits > 10 {
        proof {
            if valid_account_str(s@) {
                let k = choose|k: int| #![trigger s@[k]] colon_at(s@, k);
                lemma_colon_unique(s@, ci as int);
                assert(k == ci as int);
                assert(valid_workchain_part(s@.subrange(0, ci as int)));
            }
        }
        return Option::None;
    }
    let mut acc: i64 = 0;
    let mut j: usize = start;
    while j < ci
        invariant
            start <= j <= ci,
            1 <= ci < n,
            n == s@.len(),
            ci - start <= 10,
            colon_at(s@, ci as int),
            neg == (s@[0] == '-'),
            start == (if neg { 1int } else { 0int }),
            acc == dec_value(s@.subrange(start as int, j as int)),
            forall|m: int| start <= m < j ==> is_dec_digit(#[trigger] s@[m]),
            0 <= acc < pow10((j - start) as nat),
        decreases ci - j,
    {
        let c = s.get_char(j);
        if !('0' <= c && c <= '9') {
            proof {
                if valid_account_str(s@) {
                    let k = choose|k: int| #![trigger s@[k]] colon_at(s@, k);
                    lemma_colon_unique(s@, ci as int);
                    let p = s@.subrange(0, ci as int);
                    assert(p[j as int] == s@[j as int]);
                    if p.len() > 0 && p[0] == '-' {
                        let d = p.subrange(1, p.len() as int);
                        assert(d[j - 1] == s@[j as int]);
                    }
                }
            }
            return Option::None;
        }
        proof {
            let sub0 = s@.subrange(start as int, j as int);
            let sub1 = s@.subrange(start as int, j + 1);
            assert(sub1.drop_last() =~= sub0);
            assert(sub1.last() == s@[j as int]);
            assert(forall|i: int| 0 <= i < sub1.len() ==> is_dec_digit(#[trigger] sub1[i]));
            lemma_dec_value_bound(sub1);
            reveal_with_fuel(pow10, 12);
            assert(pow10(((j + 1) - start as int) as nat) <= pow10(10)) by {
                assert(pow10(10) == 10000000000);
                assert(pow10(((j + 1) - start as int) as nat) <= 10000000000) by {
                    lemma_pow10_le(((j + 1) - start as int) as nat, 10);
                };
            };
        }
        acc = acc * 10 + (c as u32 as i64 - 48);
        j = j + 1;
    }
    let wc_signed: i64 = if neg {
        -acc
    } else {
        acc
    };
    proof {
        reveal_with_fuel(pow10, 12);
        assert(acc < 10000000000) by {
            lemma_pow10_le((ci - start) as nat, 10);
        };
        assert(s@.subrange(start as int, ci as int) =~= if neg {
            s@.subrange(0, ci as int).subrange(1, ci as int)
        } else {
            s@.subrange(0, ci as int)
        });
    }
    if wc_signed < -2147483648i64 || wc_signed > 2147483647i64 {
        proof {
            if valid_account_str(s@) {
                lemma_colon_unique(s@, ci as int);
                assert(valid_workchain_part(s@.subrange(0, ci as int)));
            }
        }
        return Option::None;
    }
    // the hex part
    if n - ci - 1 != 64 {
        proof {
            if valid_account_str(s@) {
                lemma_colon_unique(s@, ci as int);
            }
        }
        return Option::None;
    }
    let mut h: usize = ci + 1;
    while h < n
        invariant
            ci < h <= n,
            n == s@.len(),
            colon_at(s@, ci as int),
            forall|m: int| ci < m < h ==> is_hex_digit(#[trigger] s@[m]),
        decreases n - h,
    {
        let c = s.get_char(h);
        let ok = ('0' <= c && c <= '9') || ('a' <= c && c <= 'f') || ('A' <= c && c <= 'F');
        if !ok {
            proof {
                if valid_account_str(s@) {
                    lemma_colon_unique(s@, ci as int);
                }
            }
            return Option::None;
        }
        h = h + 1;
    }
    let hex = s.substring_char(ci + 1, n).to_owned();
    proof {
        assert(colon_at(s@, ci as int));
        lemma_colon_unique(s@, ci as int);
        let p = s@.subrange(0, ci as int);
        assert(p.len() == ci);
        if neg {
            assert(p[0] == s@[0]);
            assert(p.subrange(1, p.len() as int) =~= s@.subrange(1, ci as int));
        } else {
            if p.len() > 0 {
                assert(p[0] == s@[0]);
            }
        }
        assert(valid_workchain_part(p));
        assert(workchain_value(p) == wc_signed);
        assert(valid_account_str(s@)) by {
            assert(colon_at(s@, ci as int) && valid_workchain_part(s@.subrange(0, ci as int))
                && s@.len() - ci - 1 == 64 && (forall|i: int|
                ci < i < s@.len() ==> is_hex_digit(#[trigger] s@[i])));
        };
        assert(hex@ == s@.subrange(ci + 1, s@.len() as int));
    }
    Option::Some(AccountAddress { workchain_id: wc_signed as i32, hex })
}

/// Powers of ten are monotone in the exponent.
proof fn lemma_pow10_le(a: nat, b: nat)
    requires
        a <= b,
    ensures
        pow10(a) <= pow10(b),
    decreases b,
{
    if a < b {
        lemma_pow10_le(a, (b - 1) as nat);
        assert(pow10(b) == 10 * pow10((b - 1) as nat));
        assert(pow10((b - 1) as nat) >= 1) by {
            lemma_pow10_pos((b - 1) as nat);
        };
    }
}

/// Powers of ten are positive.
proof fn lemma_pow10_pos(n: nat)
    ensures
        pow10(n) >= 1,
    decreases n,
{
    if n > 0 {
        lemma_pow10_pos((n - 1) as nat);
    }
}

} // verus!
