//! Duration strings.
//!
//! A duration is written `<integer><unit>`, where the unit is `ms`, `s`,
//! `m` or `t` (an hour). A missing or unrecognized unit counts
//! milliseconds. The digit characters of the string, wherever they stand,
//! form the number; the remaining characters, in order, form the unit.

use vstd::prelude::*;
use vstd::string::StrSliceExecFns;
use vstd::string::StringExecFns;

verus! {

/// True of the characters `'0'` through `'9'`.
pub open spec fn is_digit_char(c: char) -> bool {
    '0' <= c && c <= '9'
}

/// Numeric value of a digit character.
pub open spec fn digit_val(c: char) -> int {
    c as int - '0' as int
}

/// The digit characters of a duration string, in order.
pub open spec fn digits_of(s: Seq<char>) -> Seq<char>
    decreases s.len(),
{
    if s.len() == 0 {
        Seq::empty()
    } else if is_digit_char(s.last()) {
        digits_of(s.drop_last()).push(s.last())
    } else {
        digits_of(s.drop_last())
    }
}

/// The non-digit characters of a duration string (its unit), in order.
pub open spec fn unit_of(s: Seq<char>) -> Seq<char>
    decreases s.len(),
{
    if s.len() == 0 {
        Seq::empty()
    } else if is_digit_char(s.last()) {
        unit_of(s.drop_last())
    } else {
        unit_of(s.drop_last()).push(s.last())
    }
}

/// Value of a digit sequence read as a decimal number.
pub open spec fn dec_value(s: Seq<char>) -> int
    decreases s.len(),
{
    if s.len() == 0 {
        0
    } else {
        dec_value(s.drop_last()) * 10 + digit_val(s.last())
    }
}

/// Milliseconds per unit: `t` is an hour, `m` a minute, `s` a second;
/// every other unit (including `ms` and the empty one) counts
/// milliseconds.
pub open spec fn unit_factor(u: Seq<char>) -> int {
    if u =~= seq!['t'] {
        3600000
    } else if u =~= seq!['m'] {
        60000
    } else if u =~= seq!['s'] {
        1000
    } else {
        1
    }
}

/// The length in milliseconds that a duration string denotes.
pub open spec fn duration_millis(s: Seq<char>) -> int {
    dec_value(digits_of(s)) * unit_factor(unit_of(s))
}

/// A duration string is readable when it holds at least one digit and its
/// value fits the result type.
pub open spec fn valid_duration(s: Seq<char>) -> bool {
    digits_of(s).len() > 0 && duration_millis(s) <= u128::MAX
}

/// Digit character of a value below ten.
pub open spec fn digit_char(d: nat) -> char {
    if d == 0 {
        '0'
    } else if d == 1 {
        '1'
    } else if d == 2 {
        '2'
    } else if d == 3 {
        '3'
    } else if d == 4 {
        '4'
    } else if d == 5 {
        '5'
    } else if d == 6 {
        '6'
    } else if d == 7 {
        '7'
    } else if d == 8 {
        '8'
    } else {
        '9'
    }
}

/// Decimal representation of a value, most significant digit first.
pub open spec fn dec_rep(v: nat) -> Seq<char>
    decreases v,
{
    if v < 10 {
        seq![digit_char(v)]
    } else {
        dec_rep(v / 10).push(digit_char(v % 10))
    }
}

/// The canonical spelling of a number of milliseconds: its decimal digits
/// followed by `ms`.
pub open spec fn canonical_duration(v: u128) -> Seq<char> {
    dec_rep(v as nat) + seq!['m', 's']
}

/// Scanning one more character extends the digit image exactly when the
/// character is a digit, and the unit image exactly when it is not.
proof fn lemma_scan_step(s: Seq<char>, i: int)
    requires
        0 <= i < s.len(),
    ensures
        is_digit_char(s[i]) ==> digits_of(s.take(i + 1)) == digits_of(s.take(i)).push(s[i]),
        is_digit_char(s[i]) ==> unit_of(s.take(i + 1)) == unit_of(s.take(i)),
        !is_digit_char(s[i]) ==> digits_of(s.take(i + 1)) == digits_of(s.take(i)),
        !is_digit_char(s[i]) ==> unit_of(s.take(i + 1)) == unit_of(s.take(i)).push(s[i]),
{
    let t = s.take(i + 1);
    assert(t.drop_last() =~= s.take(i));
    assert(t.last() == s[i]);
}

proof fn lemma_digits_all_digits(s: Seq<char>)
    ensures
        forall|i: int|
            0 <= i < digits_of(s).len() ==> is_digit_char(#[trigger] digits_of(s)[i]),
    decreases s.len(),
{
    if s.len() > 0 {
        lemma_digits_all_digits(s.drop_last());
        let d0 = digits_of(s.drop_last());
        if is_digit_char(s.last()) {
            assert forall|i: int|
                0 <= i < digits_of(s).len() implies is_digit_char(digits_of(s)[i]) by {
                if i < d0.len() {
                    assert(digits_of(s)[i] == d0[i]);
                } else {
                    assert(digits_of(s)[i] == s.last());
                }
            }
        }
    }
}

proof fn lemma_dec_value_nonneg(s: Seq<char>)
    requires
        forall|i: int| 0 <= i < s.len() ==> is_digit_char(#[trigger] s[i]),
    ensures
        dec_value(s) >= 0,
    decreases s.len(),
{
    if s.len() > 0 {
        lemma_dec_value_nonneg(s.drop_last());
    }
}

/// Reads a duration string and returns its length in milliseconds, or
/// `None` when the string holds no digit or the value does not fit.
pub fn parse_duration(time: &str) -> (r: Option<u128>)
    ensures
        r is Some <==> valid_duration(time@),
        r is Some ==> r->0 == duration_millis(time@),
{
    let n = time.unicode_len();
    let mut i: usize = 0;
    let mut acc: u128 = 0;
    let mut overflowed: bool = false;
    let mut ndigits: usize = 0;
    let mut unit: Vec<char> = Vec::new();
    while i < n
        invariant
            n == time@.len(),
            i <= n,
            unit@ == unit_of(time@.take(i as int)),
            ndigits <= i,
            ndigits == digits_of(time@.take(i as int)).len(),
            !overflowed ==> acc == dec_value(digits_of(time@.take(i as int))),
            overflowed ==> dec_value(digits_of(time@.take(i as int))) > u128::MAX,
        decreases n - i,
    {
        let c = time.get_char(i);
        proof {
            lemma_scan_step(time@, i as int);
            lemma_digits_all_digits(time@.take(i as int));
            lemma_dec_value_nonneg(digits_of(time@.take(i as int)));
        }
        if '0' <= c && c <= '9' {
            let d: u128 = ((c as u32) - ('0' as u32)) as u128;
            assert(d == digit_val(c));
            ndigits = ndigits + 1;
            proof {
                let prev = digits_of(time@.take(i as int));
                assert(digits_of(time@.take(i as int + 1)) == prev.push(c));
                assert(prev.push(c).drop_last() =~= prev);
                assert(dec_value(prev.push(c)) == dec_value(prev) * 10 + digit_val(c));
            }
            if !overflowed {
                match acc.checked_mul(10) {
                    Some(shifted) => {
                        match shifted.checked_add(d) {
                            Some(next) => {
                                acc = next;
                            },
                            None => {
                                overflowed = true;
                            },
                        }
                    },
                    None => {
                        overflowed = true;
                    },
                }
            } else {
                proof {
                    let prev = digits_of(time@.take(i as int));
                    assert(dec_value(prev) * 10 >= dec_value(prev));
                }
            }
        } else {
            unit.push(c);
        }
        i = i + 1;
    }
    proof {
        assert(time@.take(n as int) =~= time@);
        lemma_digits_all_digits(time@);
        lemma_dec_value_nonneg(digits_of(time@));
    }
    if ndigits == 0 {
        return None;
    }
    let factor: u128 = if unit.len() == 1 {
        let u0 = unit[0];
        if u0 == 't' {
            3600000
        } else if u0 == 'm' {
            60000
        } else if u0 == 's' {
            1000
        } else {
            1
        }
    } else {
        1
    };
    proof {
        assert(factor == unit_factor(unit_of(time@)));
    }
    if overflowed {
        proof {
            let dv = dec_value(digits_of(time@));
            assert(dv * factor >= dv * 1 && dv * 1 == dv) by (nonlinear_arith)
                requires
                    dv >= 0 && factor >= 1,
            ;
        }
        return None;
    }
    match acc.checked_mul(factor) {
        Some(v) => Some(v),
        None => None,
    }
}

/// Reads a duration string whose value is known to be in range, as used
/// for the scenario's `duration`, `ramp-up` and `interval` fields.
pub fn string_to_millis_u128(time: &str) -> (r: u128)
    requires
        valid_duration(time@),
    ensures
        r == duration_millis(time@),
{
    let r = parse_duration(time);
    r.unwrap()
}

/// Same conversion under its older name.
pub fn time_to_millis(time: &str) -> (r: u128)
    requires
        valid_duration(time@),
    ensures
        r == duration_millis(time@),
{
    string_to_millis_u128(time)
}

fn push_digit(d: u128, out: &mut String)
    requires
        d < 10,
    ensures
        final(out)@ == old(out)@ + seq![digit_char(d as nat)],
{
    proof {
        reveal_strlit("0");
        reveal_strlit("1");
        reveal_strlit("2");
        reveal_strlit("3");
        reveal_strlit("4");
        reveal_strlit("5");
        reveal_strlit("6");
        reveal_strlit("7");
        reveal_strlit("8");
        reveal_strlit("9");
    }
    if d == 0 {
        out.append("0");
    } else if d == 1 {
        out.append("1");
    } else if d == 2 {
        out.append("2");
    } else if d == 3 {
        out.append("3");
    } else if d == 4 {
        out.append("4");
    } else if d == 5 {
        out.append("5");
    } else if d == 6 {
        out.append("6");
    } else if d == 7 {
        out.append("7");
    } else if d == 8 {
        out.append("8");
    } else {
        out.append("9");
    }
    assert(final(out)@ =~= old(out)@ + seq![digit_char(d as nat)]);
}

fn push_dec(v: u128, out: &mut String)
    ensures
        final(out)@ == old(out)@ + dec_rep(v as nat),
    decreases v,
{
    if v >= 10 {
        push_dec(v / 10, out);
        push_digit(v % 10, out);
        assert(old(out)@ + dec_rep((v / 10) as nat) + seq![digit_char((v % 10) as nat)] =~= old(
            out,
        )@ + dec_rep(v as nat));
    } else {
        push_digit(v, out);
    }
}

/// Writes a value's decimal digits.
pub fn render_decimal(v: u128) -> (r: String)
    ensures
        r@ == dec_rep(v as nat),
{
    let mut out = String::new();
    push_dec(v, &mut out);
    assert(out@ =~= dec_rep(v as nat));
    out
}

/// Writes a number of milliseconds in its canonical spelling, the decimal
/// digits followed by `ms`.
pub fn render_millis(v: u128) -> (r: String)
    ensures
        r@ == canonical_duration(v),
{
    let mut out = String::new();
    push_dec(v, &mut out);
    proof {
        reveal_strlit("ms");
    }
    out.append("ms");
    assert(out@ =~= canonical_duration(v));
    out
}

proof fn lemma_dec_rep(v: nat)
    ensures
        dec_rep(v).len() >= 1,
        forall|i: int| 0 <= i < dec_rep(v).len() ==> is_digit_char(#[trigger] dec_rep(v)[i]),
        dec_value(dec_rep(v)) == v,
    decreases v,
{
    if v < 10 {
        let s = seq![digit_char(v)];
        assert(s.drop_last() =~= Seq::<char>::empty());
        assert(dec_value(s) == dec_value(Seq::<char>::empty()) * 10 + digit_val(digit_char(v)));
        assert(digit_val(digit_char(v)) == v);
    } else {
        lemma_dec_rep(v / 10);
        assert(dec_rep(v).drop_last() =~= dec_rep(v / 10));
        assert(dec_value(dec_rep(v)) == dec_value(dec_rep(v / 10)) * 10 + digit_val(
            digit_char(v % 10),
        ));
        assert(digit_val(digit_char(v % 10)) == v % 10);
        assert(v / 10 * 10 + v % 10 == v);
    }
}

/// Law: the canonical spelling of any millisecond value reads back as that
/// value, so re-reading a canonically rendered duration changes nothing.
pub proof fn lemma_canonical_duration_parses(v: u128)
    ensures
        valid_duration(canonical_duration(v)),
        duration_millis(canonical_duration(v)) == v,
{
    let d = dec_rep(v as nat);
    let ms = seq!['m', 's'];
    let c = canonical_duration(v);
    lemma_dec_rep(v as nat);
    assert(c.drop_last() =~= d + seq!['m']);
    assert((d + seq!['m']).drop_last() =~= d);
    assert(c.last() == 's');
    assert((d + seq!['m']).last() == 'm');
    assert(!is_digit_char('m'));
    assert(!is_digit_char('s'));
    lemma_digits_unit_of_digits(d);
    assert(digits_of(c) == digits_of(d + seq!['m']));
    assert(digits_of(d + seq!['m']) == digits_of(d));
    assert(digits_of(c) == d);
    assert(unit_of(c) == unit_of(d + seq!['m']).push('s'));
    assert(unit_of(d + seq!['m']) == unit_of(d).push('m'));
    assert(unit_of(c) =~= ms);
    assert(!(ms =~= seq!['t']));
    assert(!(ms =~= seq!['m']));
    assert(!(ms =~= seq!['s']));
    assert(unit_factor(ms) == 1);
    assert(duration_millis(c) == dec_value(d) * 1);
}

/// A pure digit sequence is all digits and carries no unit.
proof fn lemma_digits_unit_of_digits(s: Seq<char>)
    requires
        forall|i: int| 0 <= i < s.len() ==> is_digit_char(#[trigger] s[i]),
    ensures
        digits_of(s) == s,
        unit_of(s) == Seq::<char>::empty(),
    decreases s.len(),
{
    if s.len() == 0 {
        assert(digits_of(s) =~= s);
    } else {
        let s0 = s.drop_last();
        assert(forall|i: int| 0 <= i < s0.len() ==> is_digit_char(#[trigger] s0[i]));
        lemma_digits_unit_of_digits(s0);
        assert(digits_of(s) =~= s0.push(s.last()));
        assert(s0.push(s.last()) =~= s);
    }
}

/// Law: for any readable duration string, rendering its value canonically
/// and reading the result again gives the same value.
pub proof fn lemma_duration_round_trip(s: Seq<char>)
    requires
        valid_duration(s),
    ensures
        valid_duration(canonical_duration(duration_millis(s) as u128)),
        duration_millis(canonical_duration(duration_millis(s) as u128)) == duration_millis(s),
{
    lemma_digits_all_digits(s);
    lemma_dec_value_nonneg(digits_of(s));
    let dv = dec_value(digits_of(s));
    let f = unit_factor(unit_of(s));
    assert(dv * f >= 0) by (nonlinear_arith)
        requires
            dv >= 0 && f >= 1,
    ;
    lemma_canonical_duration_parses(duration_millis(s) as u128);
}

} // verus!
