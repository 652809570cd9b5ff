//! Decimal text rendering for values and listing offsets.
use vstd::prelude::*;
use vstd::string::StringExecFns;

use crate::floats::float_text;
use crate::floats::float_text_of;
use crate::value::Value;

verus! {

/// The decimal digit character for `d` in 0..10.
pub open spec fn digit_char(d: int) -> char {
    if d == 0 {
        '0'
    } else if d == 1 {
        '1'
    } else if d == 2 {
        '2'
    } else if d == 3 {
        '3'
    } else if d == 4 {
        '4'
    } else if d == 5 {
        '5'
    } else if d == 6 {
        '6'
    } else if d == 7 {
        '7'
    } else if d == 8 {
        '8'
    } else {
        '9'
    }
}

/// The decimal rendering of a natural number.
pub open spec fn dec_nat(n: nat) -> Seq<char>
    decreases n,
{
    if n < 10 {
        seq![digit_char(n as int)]
    } else {
        dec_nat(n / 10) + seq![digit_char((n % 10) as int)]
    }
}

/// The decimal rendering of an integer, a minus sign ahead of a negative.
pub open spec fn dec_int(i: int) -> Seq<char> {
    if i < 0 {
        seq!['-'] + dec_nat((-i) as nat)
    } else {
        dec_nat(i as nat)
    }
}

/// `k` spaces.
pub open spec fn spaces(k: nat) -> Seq<char>
    decreases k,
{
    if k == 0 {
        Seq::empty()
    } else {
        seq![' '] + spaces((k - 1) as nat)
    }
}

/// A text right-aligned to a width of four characters.
pub open spec fn pad4(s: Seq<char>) -> Seq<char> {
    if s.len() >= 4 {
        s
    } else {
        spaces((4 - s.len()) as nat) + s
    }
}

/// The text a value renders as: its natural decimal form, no type tag.
pub open spec fn value_text(v: Value) -> Seq<char> {
    match v {
        Value::Int(i) => dec_int(i as int),
        Value::Num(b) => float_text_of(b),
    }
}

/// How many characters the decimal rendering of a natural number has.
proof fn lemma_dec_nat_len(n: nat)
    ensures
        n < 10 ==> dec_nat(n).len() == 1,
        10 <= n && n < 100 ==> dec_nat(n).len() == 2,
        100 <= n && n < 1000 ==> dec_nat(n).len() == 3,
        1000 <= n ==> dec_nat(n).len() >= 4,
    decreases n,
{
    if n >= 10 {
        lemma_dec_nat_len(n / 10);
    }
}

/// Appends one decimal digit.
fn push_digit(s: &mut String, d: u8)
    requires
        d < 10,
    ensures
        final(s)@ == old(s)@ + seq![digit_char(d as int)],
{
    proof {
        reveal_strlit("0");
        reveal_strlit("1");
        reveal_strlit("2");
        reveal_strlit("3");
        reveal_strlit("4");
        reveal_strlit("5");
        reveal_strlit("6");
        reveal_strlit("7");
        reveal_strlit("8");
        reveal_strlit("9");
    }
    if d == 0 {
        s.append("0");
        assert(("0")@ =~= seq![digit_char(0)]);
    } else if d == 1 {
        s.append("1");
        assert(("1")@ =~= seq![digit_char(1)]);
    } else if d == 2 {
        s.append("2");
        assert(("2")@ =~= seq![digit_char(2)]);
    } else if d == 3 {
        s.append("3");
        assert(("3")@ =~= seq![digit_char(3)]);
    } else if d == 4 {
        s.append("4");
        assert(("4")@ =~= seq![digit_char(4)]);
    } else if d == 5 {
        s.append("5");
        assert(("5")@ =~= seq![digit_char(5)]);
    } else if d == 6 {
        s.append("6");
        assert(("6")@ =~= seq![digit_char(6)]);
    } else if d == 7 {
        s.append("7");
        assert(("7")@ =~= seq![digit_char(7)]);
    } else if d == 8 {
        s.append("8");
        assert(("8")@ =~= seq![digit_char(8)]);
    } else {
        s.append("9");
        assert(("9")@ =~= seq![digit_char(9)]);
    }
}

/// Appends the decimal rendering of a natural number.
pub fn push_dec_uint(s: &mut String, n: u128)
    ensures
        final(s)@ == old(s)@ + dec_nat(n as nat),
    decreases n,
{
    if n < 10 {
        push_digit(s, n as u8);
    } else {
        push_dec_uint(s, n / 10);
        push_digit(s, (n % 10) as u8);
    }
}

/// Appends the decimal rendering of an integer.
pub fn push_dec_int(s: &mut String, i: i128)
    requires
        i != i128::MIN,
    ensures
        final(s)@ == old(s)@ + dec_int(i as int),
    decreases i,
{
    if i < 0 {
        proof {
            reveal_strlit("-");
        }
        s.append("-");
        assert(("-")@ =~= seq!['-']);
        push_dec_uint(s, (-i) as u128);
    } else {
        push_dec_uint(s, i as u128);
    }
}

/// Appends a byte offset right-aligned to four characters.
pub fn push_offset(s: &mut String, off: usize)
    ensures
        final(s)@ == old(s)@ + pad4(dec_nat(off as nat)),
{
    proof {
        lemma_dec_nat_len(off as nat);
        reveal_strlit(" ");
        reveal_strlit("  ");
        reveal_strlit("   ");
        reveal_with_fuel(spaces, 5);
    }
    if off < 10 {
        s.append("   ");
        assert(("   ")@ =~= spaces(3));
    } else if off < 100 {
        s.append("  ");
        assert(("  ")@ =~= spaces(2));
    } else if off < 1000 {
        s.append(" ");
        assert((" ")@ =~= spaces(1));
    } else {
        assert(pad4(dec_nat(off as nat)) == dec_nat(off as nat));
    }
    push_dec_uint(s, off as u128);
}

/// Renders a value: its natural decimal form, no type tag.
pub fn render_value(v: Value) -> (r: String)
    ensures
        r@ == value_text(v),
{
    match v {
        Value::Int(i) => {
            let mut s = String::new();
            push_dec_int(&mut s, i as i128);
            s
        },
        Value::Num(b) => float_text(b),
    }
}

} // verus!
