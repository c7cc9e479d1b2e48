//! Small text helpers: decimal rendering and joining, with exact
//! specifications, for the diagnostic disassembly and the catalog getters.

use vstd::prelude::*;

verus! {

/// The decimal digit characters.
pub open spec fn spec_digit(d: int) -> char
    recommends
        0 <= d <= 9,
{
    if d == 0 {
        '0'
    } else if d == 1 {
        '1'
    } else if d == 2 {
        '2'
    } else if d == 3 {
        '3'
    } else if d == 4 {
        '4'
    } else if d == 5 {
        '5'
    } else if d == 6 {
        '6'
    } else if d == 7 {
        '7'
    } else if d == 8 {
        '8'
    } else {
        '9'
    }
}

/// The usual decimal rendering of a number: most significant digit first,
/// no leading zeros, a single zero for zero itself.
pub open spec fn spec_dec(n: int) -> Seq<char>
    recommends
        n >= 0,
    decreases n,
{
    if n <= 9 {
        seq![spec_digit(n)]
    } else {
        spec_dec(n / 10).push(spec_digit(n % 10))
    }
}

/// A sequence of texts joined by a separator: nothing for no parts, and
/// the separator between each neighboring pair otherwise.
pub open spec fn spec_join(parts: Seq<Seq<char>>, sep: Seq<char>) -> Seq<char>
    decreases parts.len(),
{
    if parts.len() == 0 {
        Seq::empty()
    } else if parts.len() == 1 {
        parts[0]
    } else {
        parts[0] + sep + spec_join(parts.drop_first(), sep)
    }
}

/// Law: joining one more part appends one separator and that part.
pub proof fn lemma_join_push(parts: Seq<Seq<char>>, sep: Seq<char>, last: Seq<char>)
    requires
        parts.len() >= 1,
    ensures
        spec_join(parts.push(last), sep) == spec_join(parts, sep) + sep + last,
    decreases parts.len(),
{
    let whole = parts.push(last);
    if parts.len() == 1 {
        assert(whole.drop_first() =~= seq![last]);
        assert(spec_join(whole.drop_first(), sep) == last);
        assert(spec_join(whole, sep) == parts[0] + sep + last);
    } else {
        assert(whole.drop_first() =~= parts.drop_first().push(last));
        lemma_join_push(parts.drop_first(), sep, last);
        assert(spec_join(whole, sep) == parts[0] + sep + (spec_join(parts.drop_first(), sep) + sep
            + last));
        assert(parts[0] + sep + (spec_join(parts.drop_first(), sep) + sep + last) =~= (parts[0]
            + sep + spec_join(parts.drop_first(), sep)) + sep + last);
    }
}

/// The uppercase hexadecimal digit characters.
pub open spec fn spec_hex_upper(d: int) -> char
    recommends
        0 <= d <= 15,
{
    if d == 0 {
        '0'
    } else if d == 1 {
        '1'
    } else if d == 2 {
        '2'
    } else if d == 3 {
        '3'
    } else if d == 4 {
        '4'
    } else if d == 5 {
        '5'
    } else if d == 6 {
        '6'
    } else if d == 7 {
        '7'
    } else if d == 8 {
        '8'
    } else if d == 9 {
        '9'
    } else if d == 10 {
        'A'
    } else if d == 11 {
        'B'
    } else if d == 12 {
        'C'
    } else if d == 13 {
        'D'
    } else if d == 14 {
        'E'
    } else {
        'F'
    }
}

/// A 16-bit value as four uppercase hexadecimal digits.
pub open spec fn spec_hex4(n: u16) -> Seq<char> {
    seq![
        spec_hex_upper(n as int / 0x1000),
        spec_hex_upper((n as int / 0x100) % 16),
        spec_hex_upper((n as int / 16) % 16),
        spec_hex_upper(n as int % 16),
    ]
}

/// A byte as two uppercase hexadecimal digits.
pub open spec fn spec_hex2(n: u8) -> Seq<char> {
    seq![spec_hex_upper(n as int / 16), spec_hex_upper(n as int % 16)]
}

/// An owned copy of a text.
pub fn str_owned(text: &str) -> (owned: String)
    ensures
        owned@ == text@,
{
    String::from_str(text)
}

/// One uppercase hexadecimal digit as text.
fn hex_digit_string(d: u8) -> (s: String)
    requires
        d < 16,
    ensures
        s@ == seq![spec_hex_upper(d as int)],
{
    let text: &str = if d == 0 {
        "0"
    } else if d == 1 {
        "1"
    } else if d == 2 {
        "2"
    } else if d == 3 {
        "3"
    } else if d == 4 {
        "4"
    } else if d == 5 {
        "5"
    } else if d == 6 {
        "6"
    } else if d == 7 {
        "7"
    } else if d == 8 {
        "8"
    } else if d == 9 {
        "9"
    } else if d == 10 {
        "A"
    } else if d == 11 {
        "B"
    } else if d == 12 {
        "C"
    } else if d == 13 {
        "D"
    } else if d == 14 {
        "E"
    } else {
        "F"
    };
    proof {
        reveal_strlit("0");
        reveal_strlit("1");
        reveal_strlit("2");
        reveal_strlit("3");
        reveal_strlit("4");
        reveal_strlit("5");
        reveal_strlit("6");
        reveal_strlit("7");
        reveal_strlit("8");
        reveal_strlit("9");
        reveal_strlit("A");
        reveal_strlit("B");
        reveal_strlit("C");
        reveal_strlit("D");
        reveal_strlit("E");
        reveal_strlit("F");
        assert(text@ =~= seq![spec_hex_upper(d as int)]);
    }
    String::from_str(text)
}

/// A 16-bit value rendered as four uppercase hexadecimal digits.
pub fn hex4(n: u16) -> (s: String)
    ensures
        s@ == spec_hex4(n),
{
    let mut s = hex_digit_string((n / 0x1000) as u8);
    s.append(hex_digit_string(((n / 0x100) % 16) as u8).as_str());
    s.append(hex_digit_string(((n / 16) % 16) as u8).as_str());
    s.append(hex_digit_string((n % 16) as u8).as_str());
    proof {
        assert(s@ =~= spec_hex4(n));
    }
    s
}

/// A byte rendered as two uppercase hexadecimal digits.
pub fn hex2(n: u8) -> (s: String)
    ensures
        s@ == spec_hex2(n),
{
    let mut s = hex_digit_string(n / 16);
    s.append(hex_digit_string(n % 16).as_str());
    proof {
        assert(s@ =~= spec_hex2(n));
    }
    s
}

/// One decimal digit as text.
fn digit_string(d: u8) -> (s: String)
    requires
        d <= 9,
    ensures
        s@ == seq![spec_digit(d as int)],
{
    let text: &str = if d == 0 {
        "0"
    } else if d == 1 {
        "1"
    } else if d == 2 {
        "2"
    } else if d == 3 {
        "3"
    } else if d == 4 {
        "4"
    } else if d == 5 {
        "5"
    } else if d == 6 {
        "6"
    } else if d == 7 {
        "7"
    } else if d == 8 {
        "8"
    } else {
        "9"
    };
    proof {
        reveal_strlit("0");
        reveal_strlit("1");
        reveal_strlit("2");
        reveal_strlit("3");
        reveal_strlit("4");
        reveal_strlit("5");
        reveal_strlit("6");
        reveal_strlit("7");
        reveal_strlit("8");
        reveal_strlit("9");
        assert(text@ =~= seq![spec_digit(d as int)]);
    }
    String::from_str(text)
}

/// A number rendered in decimal.
pub fn dec_u16(n: u16) -> (s: String)
    ensures
        s@ == spec_dec(n as int),
    decreases n,
{
    if n <= 9 {
        digit_string(n as u8)
    } else {
        let mut s = dec_u16(n / 10);
        let unit = digit_string((n % 10) as u8);
        s.append(unit.as_str());
        proof {
            assert(s@ =~= spec_dec(n as int));
        }
        s
    }
}

/// Texts joined by a separator, as `spec_join` describes.
pub fn join_strings(parts: &Vec<String>, sep: &str) -> (joined: String)
    ensures
        joined@ == spec_join(parts.deep_view(), sep@),
{
    let mut joined = String::new();
    if parts.len() == 0 {
        return joined;
    }
    joined.append(parts[0].as_str());
    let mut k: usize = 1;
    while k < parts.len()
        invariant
            1 <= k <= parts.len(),
            parts.deep_view().len() == parts@.len(),
            forall|j: int| 0 <= j < parts@.len() ==> parts.deep_view()[j] == parts@[j]@,
            joined@ == spec_join(parts.deep_view().take(k as int), sep@),
        decreases parts.len() - k,
    {
        joined.append(sep);
        joined.append(parts[k].as_str());
        proof {
            let views = parts.deep_view();
            lemma_join_push(views.take(k as int), sep@, views[k as int]);
            assert(views.take(k + 1) =~= views.take(k as int).push(views[k as int]));
        }
        k = k + 1;
    }
    proof {
        assert(parts.deep_view().take(parts@.len() as int) =~= parts.deep_view());
    }
    joined
}

} // verus!
