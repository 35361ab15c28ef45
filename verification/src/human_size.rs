//! Parsing of human-readable sizes such as `10M` or `1G`.
//!
//! A size is optional whitespace, a run of decimal digits, an optional
//! unit letter (`K` for thousand, `M` for million, `G` for billion), and
//! optional trailing whitespace. A string of any other shape, or one whose
//! value does not fit in 32 bits, is rejected.

use vstd::prelude::*;

verus! {

/// Represents a size as a number of bytes
pub struct Bytes(pub u32);

/// Whitespace accepted around a size.
pub open spec fn is_space_char(c: char) -> bool {
    c == ' ' || c == '\t' || c == '\n' || c == '\r' || c == '\u{b}' || c == '\u{c}'
}

/// A decimal digit.
pub open spec fn is_digit_char(c: char) -> bool {
    48 <= c as u32 <= 57
}

/// The numeric value of a decimal digit.
pub open spec fn digit_val(c: char) -> nat {
    (c as u32 - 48) as nat
}

/// The value of a run of decimal digits.
pub open spec fn digits_value(s: Seq<char>) -> nat
    decreases s.len(),
{
    if s.len() == 0 {
        0
    } else {
        digits_value(s.drop_last()) * 10 + digit_val(s.last())
    }
}

/// The factor a unit letter stands for.
pub open spec fn multiplier_of(c: char) -> nat {
    if c == 'K' {
        1000
    } else if c == 'M' {
        1000000
    } else if c == 'G' {
        1000000000
    } else {
        1
    }
}

/// Whether `c` is one of the accepted unit letters.
pub open spec fn is_unit_char(c: char) -> bool {
    c == 'K' || c == 'M' || c == 'G'
}

/// The length of the longest prefix of `s` whose characters all satisfy `p`.
pub open spec fn run_len(s: Seq<char>, p: spec_fn(char) -> bool) -> nat
    decreases s.len(),
{
    if s.len() > 0 && p(s[0]) {
        1 + run_len(s.drop_first(), p)
    } else {
        0
    }
}

/// A scan that saw `k` characters satisfying `p` and then a boundary has
/// found exactly the run length.
pub proof fn lemma_run_len(s: Seq<char>, p: spec_fn(char) -> bool, k: int)
    requires
        0 <= k <= s.len(),
        forall|j: int| 0 <= j < k ==> p(s[j]),
        k == s.len() || !p(s[k]),
    ensures
        run_len(s, p) == k,
    decreases k,
{
    if k == 0 {
    } else {
        assert(p(s[0]));
        let rest = s.drop_first();
        assert(forall|j: int| 0 <= j < k - 1 ==> p(#[trigger] rest[j]));
        assert(k - 1 == rest.len() || !p(rest[k - 1]));
        lemma_run_len(rest, p, k - 1);
    }
}

/// The value a size string denotes, if it has the accepted shape:
/// whitespace, digits, an optional unit letter, whitespace. The value is
/// the digits' number times the unit's factor.
pub open spec fn human_size_value(s: Seq<char>) -> Option<nat> {
    let lead = run_len(s, |c: char| is_space_char(c));
    let rest = s.skip(lead as int);
    let d = run_len(rest, |c: char| is_digit_char(c));
    if d == 0 {
        None
    } else {
        let digits = rest.subrange(0, d as int);
        let after = rest.skip(d as int);
        let has_unit = after.len() > 0 && is_unit_char(after[0]);
        let mult = if has_unit {
            multiplier_of(after[0])
        } else {
            1 as nat
        };
        let tail = if has_unit {
            after.skip(1)
        } else {
            after
        };
        if run_len(tail, |c: char| is_space_char(c)) == tail.len() {
            Some(digits_value(digits) * mult)
        } else {
            None
        }
    }
}

/// Run-time test for the whitespace set.
fn space_char(c: char) -> (r: bool)
    ensures
        r == is_space_char(c),
{
    c == ' ' || c == '\t' || c == '\n' || c == '\r' || c == '\u{b}' || c == '\u{c}'
}

/// Run-time test for a decimal digit.
fn digit_char(c: char) -> (r: bool)
    ensures
        r == is_digit_char(c),
{
    let u = c as u32;
    48 <= u && u <= 57
}

/// Multiplies a quantity by the factor its unit letter stands for:
/// `K` is a thousand, `M` a million, `G` a billion.
pub fn scale(quantity: u32, unit: &str) -> (r: u32)
    requires
        unit@.len() == 1,
        is_unit_char(unit@[0]),
        quantity * multiplier_of(unit@[0]) <= u32::MAX,
    ensures
        r == quantity * multiplier_of(unit@[0]),
{
    let c = unit.get_char(0);
    if c == 'K' {
        quantity * 1000
    } else if c == 'M' {
        quantity * 1000000
    } else {
        assert(c == 'G');
        quantity * 1000000000
    }
}

impl Bytes {
    /// Parses a human-readable size. Returns the denoted number of bytes,
    /// or an error when the string has the wrong shape or the value does
    /// not fit in 32 bits.
    #[verifier::loop_isolation(false)]
    pub fn from_str(src: &str) -> (r: Result<Bytes, ()>)
        ensures
            match human_size_value(src@) {
                Some(v) => if v <= u32::MAX {
                    r == Ok::<Bytes, ()>(Bytes(v as u32))
                } else {
                    r == Err::<Bytes, ()>(())
                },
                None => r == Err::<Bytes, ()>(()),
            },
    {
        let n = src.unicode_len();
        let ghost sp = |c: char| is_space_char(c);
        let ghost dg = |c: char| is_digit_char(c);
        let mut i: usize = 0;
        while i < n && space_char(src.get_char(i))
            invariant
                0 <= i <= n,
                forall|j: int| 0 <= j < i ==> is_space_char(src@[j]),
            decreases n - i,
        {
            i += 1;
        }
        proof {
            lemma_run_len(src@, sp, i as int);
        }
        let lead = i;
        let ghost rest = src@.skip(lead as int);
        let mut val: u64 = 0;
        let mut big = false;
        while i < n && digit_char(src.get_char(i))
            invariant
                lead <= i <= n,
                forall|j: int| lead <= j < i ==> is_digit_char(src@[j]),
                !big ==> val == digits_value(src@.subrange(lead as int, i as int)) && val
                    <= u32::MAX,
                big ==> digits_value(src@.subrange(lead as int, i as int)) > u32::MAX,
            decreases n - i,
        {
            let c = src.get_char(i);
            let d = (c as u32) - 48;
            proof {
                assert(src@.subrange(lead as int, i + 1).drop_last() =~= src@.subrange(
                    lead as int,
                    i as int,
                ));
                assert(src@.subrange(lead as int, i + 1).last() == c);
            }
            if big {
                proof {
                    let dv = digits_value(src@.subrange(lead as int, i as int));
                    assert(digits_value(src@.subrange(lead as int, i + 1)) == dv * 10 + digit_val(
                        c,
                    ));
                    assert(dv * 10 >= dv);
                }
            } else {
                let v2 = val * 10 + (d as u64);
                if v2 > u32::MAX as u64 {
                    big = true;
                } else {
                    val = v2;
                }
            }
            i += 1;
        }
        proof {
            assert(forall|j: int| 0 <= j < i - lead ==> dg(#[trigger] rest[j]));
            assert(i - lead == rest.len() || !dg(rest[i - lead]));
            lemma_run_len(rest, dg, i - lead);
        }
        if i == lead {
            return Err(());
        }
        let ghost digits = rest.subrange(0, i - lead);
        proof {
            assert(digits =~= src@.subrange(lead as int, i as int));
        }
        let dend = i;
        let ghost after = rest.skip(i - lead);
        let mut mult: u64 = 1;
        if i < n {
            let c = src.get_char(i);
            proof {
                assert(after[0] == src@[i as int]);
            }
            if c == 'K' {
                mult = 1000;
                i += 1;
            } else if c == 'M' {
                mult = 1000000;
                i += 1;
            } else if c == 'G' {
                mult = 1000000000;
                i += 1;
            }
        }
        let ghost has_unit = after.len() > 0 && is_unit_char(after[0]);
        let ghost tail = if has_unit {
            after.skip(1)
        } else {
            after
        };
        proof {
            if has_unit {
                assert(mult == multiplier_of(after[0]));
                assert(tail =~= src@.skip(i as int));
            } else {
                assert(mult == 1);
                assert(tail =~= src@.skip(i as int));
            }
        }
        let tstart = i;
        while i < n && space_char(src.get_char(i))
            invariant
                tstart <= i <= n,
                forall|j: int| tstart <= j < i ==> is_space_char(src@[j]),
            decreases n - i,
        {
            i += 1;
        }
        if i < n {
            proof {
                assert(!sp(tail[i - tstart]));
                lemma_run_len(tail, sp, i - tstart);
            }
            return Err(());
        }
        proof {
            assert(forall|j: int| 0 <= j < tail.len() ==> sp(#[trigger] tail[j]));
            lemma_run_len(tail, sp, tail.len() as int);
        }
        if big {
            proof {
                let dv = digits_value(digits);
                assert(dv * mult >= dv * 1) by (nonlinear_arith)
                    requires
                        mult >= 1,
                        dv >= 0,
                ;
            }
            return Err(());
        }
        let total: u64 = val * mult;
        proof {
            assert(val * mult <= 0xFFFF_FFFFu64 * 1_000_000_000u64) by (nonlinear_arith)
                requires
                    val <= 0xFFFF_FFFFu64,
                    mult <= 1_000_000_000u64,
            ;
        }
        if total > u32::MAX as u64 {
            return Err(());
        }
        Ok(Bytes(total as u32))
    }
}

/// The value of a string of digits alone: no sign, no whitespace, no
/// unit; `None` when the string is empty, holds another character, or
/// denotes more than 32 bits.
pub open spec fn plain_u32_of(s: Seq<char>) -> Option<nat> {
    if s.len() > 0 && (forall|i: int| 0 <= i < s.len() ==> is_digit_char(s[i])) && digits_value(s)
        <= u32::MAX {
        Some(digits_value(s))
    } else {
        None
    }
}

/// Parses a string of digits alone into a 32-bit number.
#[verifier::loop_isolation(false)]
pub fn parse_u32(s: &str) -> (r: Option<u32>)
    ensures
        match plain_u32_of(s@) {
            Some(v) => r == Some(v as u32),
            None => r is None,
        },
{
    let n = s.unicode_len();
    if n == 0 {
        return None;
    }
    let mut val: u64 = 0;
    let mut big = false;
    let mut i: usize = 0;
    while i < n
        invariant
            0 <= i <= n,
            forall|j: int| 0 <= j < i ==> is_digit_char(s@[j]),
            !big ==> val == digits_value(s@.subrange(0, i as int)) && val <= u32::MAX,
            big ==> digits_value(s@.subrange(0, i as int)) > u32::MAX,
        decreases n - i,
    {
        let c = s.get_char(i);
        if !digit_char(c) {
            return None;
        }
        let d = (c as u32) - 48;
        proof {
            assert(s@.subrange(0, i + 1).drop_last() =~= s@.subrange(0, i as int));
            assert(s@.subrange(0, i + 1).last() == c);
        }
        if big {
            proof {
                let dv = digits_value(s@.subrange(0, i as int));
                assert(digits_value(s@.subrange(0, i + 1)) == dv * 10 + digit_val(c));
                assert(dv * 10 >= dv);
            }
        } else {
            let v2 = val * 10 + (d as u64);
            if v2 > u32::MAX as u64 {
                big = true;
            } else {
                val = v2;
            }
        }
        i += 1;
    }
    proof {
        assert(s@.subrange(0, n as int) =~= s@);
    }
    if big {
        None
    } else {
        Some(val as u32)
    }
}

/// The character of a decimal digit value below ten.
pub open spec fn digit_char_of(n: nat) -> char {
    if n == 0 {
        '0'
    } else if n == 1 {
        '1'
    } else if n == 2 {
        '2'
    } else if n == 3 {
        '3'
    } else if n == 4 {
        '4'
    } else if n == 5 {
        '5'
    } else if n == 6 {
        '6'
    } else if n == 7 {
        '7'
    } else if n == 8 {
        '8'
    } else {
        '9'
    }
}

/// The decimal text of `n`, without sign or padding.
pub open spec fn dec_chars(n: nat) -> Seq<char>
    decreases n,
{
    if n < 10 {
        seq![digit_char_of(n)]
    } else {
        dec_chars(n / 10).push(digit_char_of(n % 10))
    }
}

/// Every character of a decimal text is a digit.
pub proof fn lemma_dec_chars_are_digits(n: nat)
    ensures
        dec_chars(n).len() > 0,
        forall|i: int| 0 <= i < dec_chars(n).len() ==> is_digit_char(dec_chars(n)[i]),
    decreases n,
{
    if n < 10 {
    } else {
        lemma_dec_chars_are_digits(n / 10);
    }
}

/// The digits of a decimal text denote the number it was written from.
pub proof fn lemma_dec_chars_value(n: nat)
    ensures
        digits_value(dec_chars(n)) == n,
    decreases n,
{
    if n < 10 {
        assert(dec_chars(n) =~= seq![digit_char_of(n)]);
        assert(dec_chars(n).drop_last() =~= Seq::<char>::empty());
        assert(digits_value(Seq::<char>::empty()) == 0);
        assert(dec_chars(n).last() == digit_char_of(n));
        assert(digits_value(dec_chars(n)) == digits_value(dec_chars(n).drop_last()) * 10
            + digit_val(dec_chars(n).last()));
        assert(digits_value(dec_chars(n)) == digit_val(digit_char_of(n)));
    } else {
        lemma_dec_chars_value(n / 10);
        let w = dec_chars(n / 10);
        assert(w.push(digit_char_of(n % 10)).drop_last() =~= w);
        assert(w.push(digit_char_of(n % 10)).last() == digit_char_of(n % 10));
        assert(digits_value(dec_chars(n)) == (n / 10) * 10 + n % 10);
    }
}

/// Writes `n` in decimal.
pub fn u32_to_decimal(n: u32) -> (r: String)
    ensures
        r@ == dec_chars(n as nat),
    decreases n,
{
    let d = n % 10;
    let c: char = if d == 0 {
        '0'
    } else if d == 1 {
        '1'
    } else if d == 2 {
        '2'
    } else if d == 3 {
        '3'
    } else if d == 4 {
        '4'
    } else if d == 5 {
        '5'
    } else if d == 6 {
        '6'
    } else if d == 7 {
        '7'
    } else if d == 8 {
        '8'
    } else {
        '9'
    };
    if n < 10 {
        proof {
            assert(n % 10 == n);
        }
        let mut r = String::new();
        r.push(c);
        proof {
            assert(r@ =~= seq![digit_char_of(n as nat)]);
        }
        r
    } else {
        let mut r = u32_to_decimal(n / 10);
        r.push(c);
        r
    }
}

/// The unit-free round trip: the decimal text of any 32-bit number parses
/// back to that number.
pub proof fn lemma_decimal_round_trip(n: u32)
    ensures
        human_size_value(dec_chars(n as nat)) == Some(n as nat),
{
    lemma_dec_chars_are_digits(n as nat);
    lemma_plain_number_round_trip(dec_chars(n as nat));
    lemma_dec_chars_value(n as nat);
}

/// A bare, non-empty digit string parses to the digits' own value: the
/// unit-free form round-trips.
pub proof fn lemma_plain_number_round_trip(s: Seq<char>)
    requires
        s.len() > 0,
        forall|i: int| 0 <= i < s.len() ==> is_digit_char(s[i]),
    ensures
        human_size_value(s) == Some(digits_value(s)),
{
    let sp = |c: char| is_space_char(c);
    let dg = |c: char| is_digit_char(c);
    lemma_run_len(s, sp, 0);
    assert(s.skip(0) =~= s);
    lemma_run_len(s, dg, s.len() as int);
    assert(s.subrange(0, s.len() as int) =~= s);
    let after = s.skip(s.len() as int);
    assert(after =~= Seq::<char>::empty());
    lemma_run_len(after, sp, 0);
}

} // verus!
