//! Text of integers and of identification values, as the CSV files hold them.

use vstd::prelude::*;
use vstd::string::*;
use vstd::utf8::*;

verus! {

/// The character of a digit below sixteen, letters in upper case.
pub open spec fn digit_char(d: nat) -> char {
    if d == 0 {
        '0'
    } else if d == 1 {
        '1'
    } else if d == 2 {
        '2'
    } else if d == 3 {
        '3'
    } else if d == 4 {
        '4'
    } else if d == 5 {
        '5'
    } else if d == 6 {
        '6'
    } else if d == 7 {
        '7'
    } else if d == 8 {
        '8'
    } else if d == 9 {
        '9'
    } else if d == 10 {
        'A'
    } else if d == 11 {
        'B'
    } else if d == 12 {
        'C'
    } else if d == 13 {
        'D'
    } else if d == 14 {
        'E'
    } else {
        'F'
    }
}

/// Decimal text of a natural number: its digits, most significant first,
/// without leading zeros; the single digit `0` for zero.
pub open spec fn decimal(n: nat) -> Seq<char>
    decreases n,
{
    if n < 10 {
        seq![digit_char(n)]
    } else {
        decimal(n / 10).push(digit_char(n % 10))
    }
}

/// Decimal text of an integer, with a minus sign below zero.
pub open spec fn signed_decimal(i: int) -> Seq<char> {
    if i < 0 {
        seq!['-'] + decimal((-i) as nat)
    } else {
        decimal(i as nat)
    }
}

/// Upper-case hexadecimal text of a natural number, without leading zeros.
pub open spec fn upper_hex(n: nat) -> Seq<char>
    decreases n,
{
    if n < 16 {
        seq![digit_char(n)]
    } else {
        upper_hex(n / 16).push(digit_char(n % 16))
    }
}

/// Upper-case hexadecimal text of a natural number, at least two digits wide.
pub open spec fn upper_hex2(n: nat) -> Seq<char> {
    if n < 16 {
        seq!['0', digit_char(n)]
    } else {
        upper_hex(n)
    }
}

/// Decimal text holds digits only, and at least one.
pub proof fn lemma_decimal_digits(n: nat)
    ensures
        decimal(n).len() >= 1,
        forall|i: int| 0 <= i < decimal(n).len() ==> '0' <= #[trigger] decimal(n)[i] <= '9',
    decreases n,
{
    if n >= 10 {
        lemma_decimal_digits(n / 10);
    }
}

/// Different numbers have different decimal texts.
pub proof fn lemma_decimal_injective(m: nat, n: nat)
    requires
        decimal(m) == decimal(n),
    ensures
        m == n,
    decreases m,
{
    lemma_decimal_digits(m / 10);
    lemma_decimal_digits(n / 10);
    if m >= 10 && n >= 10 {
        assert(decimal(m).drop_last() =~= decimal(m / 10));
        assert(decimal(n).drop_last() =~= decimal(n / 10));
        assert(decimal(m).last() == digit_char(m % 10));
        lemma_decimal_injective(m / 10, n / 10);
    } else if m < 10 && n < 10 {
        assert(decimal(m)[0] == digit_char(m));
    } else if m < 10 {
        assert(decimal(m).len() == 1);
    } else {
        assert(decimal(n).len() == 1);
    }
}

/// The one-character text of a digit.
fn digit_str(d: u8) -> (s: &'static str)
    requires
        d < 16,
    ensures
        s@ == seq![digit_char(d as nat)],
{
    proof {
        reveal_strlit("0");
        reveal_strlit("1");
        reveal_strlit("2");
        reveal_strlit("3");
        reveal_strlit("4");
        reveal_strlit("5");
        reveal_strlit("6");
        reveal_strlit("7");
        reveal_strlit("8");
        reveal_strlit("9");
        reveal_strlit("A");
        reveal_strlit("B");
        reveal_strlit("C");
        reveal_strlit("D");
        reveal_strlit("E");
        reveal_strlit("F");
    }
    let s = match d {
        0 => "0",
        1 => "1",
        2 => "2",
        3 => "3",
        4 => "4",
        5 => "5",
        6 => "6",
        7 => "7",
        8 => "8",
        9 => "9",
        10 => "A",
        11 => "B",
        12 => "C",
        13 => "D",
        14 => "E",
        _ => "F",
    };
    s
}

/// Appends the decimal text of `n` to `out`.
pub fn push_decimal(out: &mut String, n: u64)
    ensures
        final(out)@ == old(out)@ + decimal(n as nat),
    decreases n,
{
    if n >= 10 {
        push_decimal(out, n / 10);
    }
    let digit: u64 = n % 10;
    out.append(digit_str(digit as u8));
}

/// Appends the upper-case hexadecimal text of `n` to `out`.
pub fn push_upper_hex(out: &mut String, n: u64)
    ensures
        final(out)@ == old(out)@ + upper_hex(n as nat),
    decreases n,
{
    if n >= 16 {
        push_upper_hex(out, n / 16);
    }
    let digit: u64 = n % 16;
    out.append(digit_str(digit as u8));
}

/// Appends the decimal text of `i` to `out`, with a minus sign below zero.
pub fn push_signed_decimal(out: &mut String, i: i64)
    ensures
        final(out)@ == old(out)@ + signed_decimal(i as int),
{
    if i < 0 {
        proof {
            reveal_strlit("-");
        }
        out.append("-");
        let magnitude: u64 = if i == i64::MIN {
            0x8000_0000_0000_0000u64
        } else {
            (-i) as u64
        };
        push_decimal(out, magnitude);
    } else {
        push_decimal(out, i as u64);
    }
}

/// Appends the upper-case hexadecimal text of `n` to `out`, at least two
/// digits wide.
pub fn push_upper_hex2(out: &mut String, n: u64)
    ensures
        final(out)@ == old(out)@ + upper_hex2(n as nat),
{
    if n < 16 {
        proof {
            reveal_strlit("0");
        }
        out.append("0");
        out.append(digit_str(n as u8));
    } else {
        push_upper_hex(out, n);
    }
}

/// Whether a character is white space, as Unicode defines it.
pub open spec fn is_whitespace(c: char) -> bool {
    let u = c as u32;
    ||| 0x09 <= u <= 0x0D
    ||| u == 0x20
    ||| u == 0x85
    ||| u == 0xA0
    ||| u == 0x1680
    ||| 0x2000 <= u <= 0x200A
    ||| u == 0x2028
    ||| u == 0x2029
    ||| u == 0x202F
    ||| u == 0x205F
    ||| u == 0x3000
}

/// Whether a character only fills up an identification value: white space or
/// the zero character.
pub open spec fn is_padding(c: char) -> bool {
    c as u32 == 0 || is_whitespace(c)
}

/// The text without the padding at its end.
pub open spec fn trim_end(text: Seq<char>) -> Seq<char>
    decreases text.len(),
{
    if text.len() > 0 && is_padding(text.last()) {
        trim_end(text.drop_last())
    } else {
        text
    }
}

/// The text of an identification value: its UTF-8 decoding without the
/// padding at its end, and the empty text where the bytes are not UTF-8.
pub open spec fn identification_text(bytes: Seq<u8>) -> Seq<char> {
    if valid_utf8(bytes) {
        trim_end(decode_utf8(bytes))
    } else {
        Seq::<char>::empty()
    }
}

/// The trimmed text is the start of the text, and ends in no padding.
pub proof fn lemma_trim_end(text: Seq<char>)
    ensures
        trim_end(text).len() <= text.len(),
        trim_end(text) == text.subrange(0, trim_end(text).len() as int),
        trim_end(text).len() > 0 ==> !is_padding(trim_end(text).last()),
        forall|i: int| trim_end(text).len() <= i < text.len() ==> is_padding(#[trigger] text[i]),
    decreases text.len(),
{
    if text.len() > 0 && is_padding(text.last()) {
        lemma_trim_end(text.drop_last());
        let t = trim_end(text);
        assert forall|i: int| t.len() <= i < text.len() implies is_padding(
            #[trigger] text[i],
        ) by {
            if i < text.len() - 1 {
                assert(text.drop_last()[i] == text[i]);
            }
        }
    }
}

/// Whether `c` is padding.
fn is_padding_char(c: char) -> (padding: bool)
    ensures
        padding == is_padding(c),
{
    let u: u32 = c as u32;
    u == 0 || (0x09 <= u && u <= 0x0D) || u == 0x20 || u == 0x85 || u == 0xA0 || u == 0x1680 || (
    0x2000 <= u && u <= 0x200A) || u == 0x2028 || u == 0x2029 || u == 0x202F || u == 0x205F || u
        == 0x3000
}

/// `core::str::from_utf8`: the text that the bytes encode, and `None`
/// exactly where the bytes are not valid UTF-8.
#[verifier::external_body]
fn from_utf8(bytes: &[u8]) -> (text: Option<&str>)
    ensures
        text is Some <==> valid_utf8(bytes@),
        text matches Some(s) ==> s@ == decode_utf8(bytes@),
{
    match core::str::from_utf8(bytes) {
        Ok(text) => Some(text),
        Err(_) => None,
    }
}

/// The text of an identification value.
pub fn identification_string(bytes: &[u8]) -> (text: String)
    ensures
        text@ == identification_text(bytes@),
        text@.len() > 0 ==> !is_padding(text@.last()),
{
    proof {
        lemma_trim_end(decode_utf8(bytes@));
    }
    match from_utf8(bytes) {
        Some(decoded) => {
            let mut end: usize = decoded.unicode_len();
            assert(decoded@.subrange(0, end as int) =~= decoded@);
            while end > 0 && is_padding_char(decoded.get_char(end - 1))
                invariant
                    end <= decoded@.len(),
                    trim_end(decoded@) == trim_end(decoded@.subrange(0, end as int)),
                decreases end,
            {
                proof {
                    let head = decoded@.subrange(0, end as int);
                    assert(head.drop_last() =~= decoded@.subrange(0, end - 1));
                }
                end = end - 1;
            }
            decoded.substring_char(0, end).to_owned()
        },
        None => String::new(),
    }
}

} // verus!
