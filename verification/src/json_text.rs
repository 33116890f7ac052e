//! Compact JSON text as `serde_json` writes it: strings with its escapes,
//! decimal integers, and comma-separated arrays.
use vstd::prelude::*;

verus! {

/// Lower-case hexadecimal digit of a value below 16.
pub open spec fn hex_lower_digit(n: int) -> char {
    if n < 10 {
        (('0' as int) + n) as char
    } else {
        (('a' as int) + n - 10) as char
    }
}

/// The JSON text of one character inside a string.
pub open spec fn escape_char(c: char) -> Seq<char> {
    let v = c as u32;
    if c == '"' {
        seq!['\\', '"']
    } else if c == '\\' {
        seq!['\\', '\\']
    } else if v == 0x08 {
        seq!['\\', 'b']
    } else if v == 0x09 {
        seq!['\\', 't']
    } else if v == 0x0A {
        seq!['\\', 'n']
    } else if v == 0x0C {
        seq!['\\', 'f']
    } else if v == 0x0D {
        seq!['\\', 'r']
    } else if v < 0x20 {
        seq!['\\', 'u', '0', '0', hex_lower_digit((v / 16) as int), hex_lower_digit((v % 16) as int)]
    } else {
        seq![c]
    }
}

/// The escaped characters of a text.
pub open spec fn escaped(s: Seq<char>) -> Seq<char>
    decreases s.len(),
{
    if s.len() == 0 {
        Seq::empty()
    } else {
        escaped(s.drop_last()) + escape_char(s.last())
    }
}

/// A JSON string literal.
pub open spec fn json_str(s: Seq<char>) -> Seq<char> {
    seq!['"'] + escaped(s) + seq!['"']
}

/// Decimal digits of a natural number.
pub open spec fn decimal(n: nat) -> Seq<char>
    decreases n,
{
    if n < 10 {
        seq![(('0' as int) + n) as char]
    } else {
        decimal(n / 10) + seq![(('0' as int) + n % 10) as char]
    }
}

/// A JSON integer.
pub open spec fn json_int(n: int) -> Seq<char> {
    if n < 0 {
        seq!['-'] + decimal((-n) as nat)
    } else {
        decimal(n as nat)
    }
}

/// Encoded items separated by commas.
pub open spec fn joined(items: Seq<Seq<char>>) -> Seq<char>
    decreases items.len(),
{
    if items.len() == 0 {
        Seq::empty()
    } else if items.len() == 1 {
        items[0]
    } else {
        joined(items.drop_last()) + seq![','] + items.last()
    }
}

/// A JSON array of encoded items.
pub open spec fn json_array(items: Seq<Seq<char>>) -> Seq<char> {
    seq!['['] + joined(items) + seq![']']
}

/// The JSON strings of a list of texts.
pub open spec fn json_strs(values: Seq<Seq<char>>) -> Seq<Seq<char>> {
    values.map_values(|v: Seq<char>| json_str(v))
}

/// Appends a text.
pub fn push_text(out: &mut Vec<char>, s: &str)
    ensures
        final(out)@ == old(out)@ + s@,
{
    let ghost start = out@;
    for c in it: s.chars()
        invariant
            it.seq() == s@,
            out@ == start + s@.take(it.index()),
    {
        let ghost i = it.index();
        out.push(c);
        assert(out@ =~= start + s@.take(i + 1));
    }
    assert(s@.take(s@.len() as int) =~= s@);
}

fn hex_digit_char(n: u32) -> (r: char)
    requires
        n < 16,
    ensures
        r == hex_lower_digit(n as int),
{
    if n < 10 {
        (0x30u8 + n as u8) as char
    } else {
        (0x61u8 + (n - 10) as u8) as char
    }
}

fn push_escaped_char(out: &mut Vec<char>, c: char)
    ensures
        final(out)@ == old(out)@ + escape_char(c),
{
    let ghost start = out@;
    let v = c as u32;
    if c == '"' {
        out.push('\\');
        out.push('"');
    } else if c == '\\' {
        out.push('\\');
        out.push('\\');
    } else if v == 0x08 {
        out.push('\\');
        out.push('b');
    } else if v == 0x09 {
        out.push('\\');
        out.push('t');
    } else if v == 0x0A {
        out.push('\\');
        out.push('n');
    } else if v == 0x0C {
        out.push('\\');
        out.push('f');
    } else if v == 0x0D {
        out.push('\\');
        out.push('r');
    } else if v < 0x20 {
        out.push('\\');
        out.push('u');
        out.push('0');
        out.push('0');
        out.push(hex_digit_char(v / 16));
        out.push(hex_digit_char(v % 16));
    } else {
        out.push(c);
    }
    assert(out@ =~= start + escape_char(c));
}

/// Appends a JSON string literal.
pub fn push_json_str(out: &mut Vec<char>, s: &str)
    ensures
        final(out)@ == old(out)@ + json_str(s@),
{
    let ghost start = out@;
    out.push('"');
    for c in it: s.chars()
        invariant
            it.seq() == s@,
            out@ == start + seq!['"'] + escaped(s@.take(it.index())),
    {
        let ghost i = it.index();
        push_escaped_char(out, c);
        assert(s@.take(i + 1).drop_last() =~= s@.take(i));
        assert(out@ =~= start + seq!['"'] + escaped(s@.take(i + 1)));
    }
    assert(s@.take(s@.len() as int) =~= s@);
    out.push('"');
    assert(out@ =~= start + json_str(s@));
}

fn digit_char(n: u64) -> (r: char)
    requires
        n < 10,
    ensures
        r == (('0' as int) + n) as char,
{
    (0x30u8 + n as u8) as char
}

/// Appends the decimal digits of a number.
pub fn push_decimal(out: &mut Vec<char>, n: u64)
    ensures
        final(out)@ == old(out)@ + decimal(n as nat),
    decreases n,
{
    let ghost start = out@;
    if n >= 10 {
        push_decimal(out, n / 10);
    }
    out.push(digit_char(n % 10));
    assert(out@ =~= start + decimal(n as nat));
}

/// Appends a JSON integer.
pub fn push_json_int(out: &mut Vec<char>, n: i64)
    ensures
        final(out)@ == old(out)@ + json_int(n as int),
{
    let ghost start = out@;
    if n < 0 {
        out.push('-');
        let magnitude: u64 = if n == i64::MIN {
            9223372036854775808u64
        } else {
            (-n) as u64
        };
        push_decimal(out, magnitude);
    } else {
        push_decimal(out, n as u64);
    }
    assert(out@ =~= start + json_int(n as int));
}

/// Appends a JSON array of strings.
pub fn push_json_str_array(out: &mut Vec<char>, values: &Vec<String>)
    ensures
        final(out)@ == old(out)@ + json_array(json_strs(values@.map_values(|v: String| v@))),
{
    let ghost start = out@;
    let ghost items = json_strs(values@.map_values(|v: String| v@));
    out.push('[');
    let mut i: usize = 0;
    while i < values.len()
        invariant
            i <= values@.len(),
            items == json_strs(values@.map_values(|v: String| v@)),
            items.len() == values@.len(),
            out@ == start + seq!['['] + joined(items.take(i as int)),
        decreases values@.len() - i,
    {
        if i > 0 {
            out.push(',');
        }
        push_json_str(out, values[i].as_str());
        assert(items[i as int] == json_str(values@[i as int]@));
        assert(items.take(i + 1).drop_last() =~= items.take(i as int));
        assert(out@ =~= start + seq!['['] + joined(items.take(i + 1)));
        i = i + 1;
    }
    assert(items.take(i as int) =~= items);
    out.push(']');
    assert(out@ =~= start + json_array(items));
}

/// `String::from_iter` over characters.
#[verifier::external_body]
pub(crate) fn string_from_chars(chars: &Vec<char>) -> (r: String)
    ensures
        r@ == chars@,
{
    chars.iter().collect()
}

} // verus!
