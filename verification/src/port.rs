//! Decimal text of a listen port: reading it and writing it.

use vstd::prelude::*;
use vstd::string::StringExecFns;

verus! {

/// Largest port number.
pub const PORT_MAX: u16 = 65535;

/// Whether `c` is one of the ten decimal digits.
pub open spec fn is_digit(c: char) -> bool {
    '0' <= c && c <= '9'
}

/// Whether every character of `text` is a decimal digit.
pub open spec fn all_digits(text: Seq<char>) -> bool {
    forall|i: int| 0 <= i < text.len() ==> is_digit(#[trigger] text[i])
}

/// The number that the digit `c` stands for.
pub open spec fn digit_value(c: char) -> nat {
    (c as nat - '0' as nat) as nat
}

/// The digit that stands for `d`, for `d` below ten.
pub open spec fn digit_char(d: nat) -> char {
    (d + '0' as nat) as char
}

/// The number that a run of decimal digits denotes, most significant digit first.
pub open spec fn decimal_value(digits: Seq<char>) -> nat
    decreases digits.len(),
{
    if digits.len() == 0 {
        0
    } else {
        decimal_value(digits.drop_last()) * 10 + digit_value(digits.last())
    }
}

/// The digits of `n` in decimal, without leading zeros; `"0"` for zero.
pub open spec fn decimal_text(n: nat) -> Seq<char>
    decreases n,
{
    if n < 10 {
        seq![digit_char(n)]
    } else {
        decimal_text(n / 10).push(digit_char(n % 10))
    }
}

/// The part of `text` that must hold the digits: all of it, or what follows one leading `+`.
pub open spec fn unsigned_digits(text: Seq<char>) -> Seq<char> {
    if text.len() > 0 && text[0] == '+' {
        text.subrange(1, text.len() as int)
    } else {
        text
    }
}

/// The port that `text` denotes, if any: an optional `+`, then one or more decimal
/// digits (leading zeros allowed) whose value is at most 65535.
pub open spec fn port_of_text(text: Seq<char>) -> Option<u16> {
    let digits = unsigned_digits(text);
    if digits.len() > 0 && all_digits(digits) && decimal_value(digits) <= PORT_MAX {
        Some(decimal_value(digits) as u16)
    } else {
        None
    }
}

/// The canonical text of `port`: its decimal digits without sign or leading zeros.
pub open spec fn port_text(port: u16) -> Seq<char> {
    decimal_text(port as nat)
}

/// A run of digits denotes at least what any of its prefixes denotes.
pub proof fn lemma_decimal_value_grows(digits: Seq<char>, k: int)
    requires
        0 <= k <= digits.len(),
    ensures
        decimal_value(digits.take(k)) <= decimal_value(digits),
    decreases digits.len() - k,
{
    if k == digits.len() {
        assert(digits.take(k) =~= digits);
    } else {
        lemma_decimal_value_grows(digits, k + 1);
        assert(digits.take(k + 1).drop_last() =~= digits.take(k));
    }
}

/// The decimal text of a number is a non-empty run of digits that denotes that number.
pub proof fn lemma_decimal_text_value(n: nat)
    ensures
        decimal_text(n).len() > 0,
        all_digits(decimal_text(n)),
        decimal_value(decimal_text(n)) == n,
        decimal_text(n)[0] != '+',
    decreases n,
{
    if n < 10 {
        let t = decimal_text(n);
        assert(t.drop_last() =~= Seq::<char>::empty());
        assert(decimal_value(t.drop_last()) == 0);
    } else {
        lemma_decimal_text_value(n / 10);
        let t = decimal_text(n);
        assert(t.drop_last() =~= decimal_text(n / 10));
        assert(t[0] == decimal_text(n / 10)[0]);
    }
}

/// Reading the canonical text of a port gives that port back.
pub proof fn lemma_port_text_reads_back(port: u16)
    ensures
        port_of_text(port_text(port)) == Some(port),
{
    lemma_decimal_text_value(port as nat);
}

/// Reads a port number from its decimal text.
pub fn parse_port(text: &str) -> (port: Option<u16>)
    ensures
        port == port_of_text(text@),
{
    let mut value: u32 = 0;
    let mut first = true;
    let mut signed = false;
    let mut seen_digit = false;
    for c in it: text.chars()
        invariant
            it.seq() == text@,
            first == (it.index() == 0),
            signed == (it.index() > 0 && text@[0] == '+'),
            seen_digit == (it.index() > (if signed { 1int } else { 0int })),
            !first ==> all_digits(text@.subrange(if signed { 1int } else { 0int }, it.index() as int)),
            !first ==> value == decimal_value(text@.subrange(if signed { 1int } else { 0int }, it.index() as int)),
            first ==> value == 0,
            value <= PORT_MAX,
    {
        let ghost k = it.index() as int;
        if first && c == '+' {
            signed = true;
            proof {
                assert(text@.subrange(1, k + 1) =~= Seq::<char>::empty());
            }
        } else {
            let ghost skip = if signed { 1int } else { 0int };
            let ghost before = text@.subrange(skip, k);
            let ghost after = text@.subrange(skip, k + 1);
            proof {
                assert(after.drop_last() =~= before);
                assert(after.last() == c);
                if first {
                    assert(before =~= Seq::<char>::empty());
                }
                assert(after =~= unsigned_digits(text@).take(k + 1 - skip));
            }
            if !('0' <= c && c <= '9') {
                proof {
                    assert(!is_digit(unsigned_digits(text@)[k - skip]));
                }
                return None;
            }
            let d: u32 = c as u32 - '0' as u32;
            let next: u32 = value * 10 + d;
            if next > PORT_MAX as u32 {
                proof {
                    lemma_decimal_value_grows(unsigned_digits(text@), k + 1 - skip);
                }
                return None;
            }
            value = next;
            seen_digit = true;
        }
        first = false;
    }
    proof {
        let skip = if signed { 1int } else { 0int };
        if !first {
            assert(text@.subrange(skip, text@.len() as int) =~= unsigned_digits(text@));
        }
    }
    if seen_digit {
        Some(value as u16)
    } else {
        None
    }
}

/// The text of the digit that stands for `d`.
fn digit_str(d: u16) -> (s: &'static str)
    requires
        d < 10,
    ensures
        s@ == seq![digit_char(d as nat)],
{
    proof {
        reveal_strlit("0");
        reveal_strlit("1");
        reveal_strlit("2");
        reveal_strlit("3");
        reveal_strlit("4");
        reveal_strlit("5");
        reveal_strlit("6");
        reveal_strlit("7");
        reveal_strlit("8");
        reveal_strlit("9");
    }
    let s = if d == 0 {
        "0"
    } else if d == 1 {
        "1"
    } else if d == 2 {
        "2"
    } else if d == 3 {
        "3"
    } else if d == 4 {
        "4"
    } else if d == 5 {
        "5"
    } else if d == 6 {
        "6"
    } else if d == 7 {
        "7"
    } else if d == 8 {
        "8"
    } else {
        "9"
    };
    assert(s@ =~= seq![digit_char(d as nat)]);
    s
}

/// Appends the decimal text of `n` to `text`.
fn append_decimal(text: &mut String, n: u16)
    ensures
        final(text)@ == old(text)@ + decimal_text(n as nat),
    decreases n,
{
    if n >= 10 {
        append_decimal(text, n / 10);
    }
    text.append(digit_str(n % 10));
    proof {
        let d = seq![digit_char((n % 10) as nat)];
        if n >= 10 {
            assert(old(text)@ + decimal_text((n / 10) as nat) + d =~= old(text)@ + decimal_text(
                n as nat,
            ));
        }
    }
}

/// Writes `port` as its canonical decimal text.
pub fn port_to_string(port: u16) -> (text: String)
    ensures
        text@ == port_text(port),
{
    let mut text = String::new();
    append_decimal(&mut text, port);
    assert(Seq::<char>::empty() + port_text(port) =~= port_text(port));
    text
}

} // verus!
