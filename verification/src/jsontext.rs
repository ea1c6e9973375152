//! Verified construction of JSON text fragments.
//!
//! Task payloads are handed to the engine as JSON objects. The encoders in
//! the task modules build those objects out of the fragments defined here:
//! decimal renderings of integers, escaped string literals, and booleans.
//! Each exec function is specified against a spec-level model of the
//! fragment it produces.

use vstd::prelude::*;

verus! {

/// The decimal digit character for `d`, which must be in `0..10`.
pub open spec fn spec_digit(d: int) -> char {
    if d == 0 {
        '0'
    } else if d == 1 {
        '1'
    } else if d == 2 {
        '2'
    } else if d == 3 {
        '3'
    } else if d == 4 {
        '4'
    } else if d == 5 {
        '5'
    } else if d == 6 {
        '6'
    } else if d == 7 {
        '7'
    } else if d == 8 {
        '8'
    } else {
        '9'
    }
}

/// The decimal rendering of `n`, without sign or leading zeros
/// (a single `'0'` for zero).
pub open spec fn spec_dec(n: nat) -> Seq<char>
    decreases n,
{
    if n < 10 {
        seq![spec_digit(n as int)]
    } else {
        spec_dec(n / 10).push(spec_digit((n % 10) as int))
    }
}

/// The lowercase hexadecimal digit character for `d`, which must be in `0..16`.
pub open spec fn spec_hex_digit(d: int) -> char {
    if d < 10 {
        spec_digit(d)
    } else if d == 10 {
        'a'
    } else if d == 11 {
        'b'
    } else if d == 12 {
        'c'
    } else if d == 13 {
        'd'
    } else if d == 14 {
        'e'
    } else {
        'f'
    }
}

/// How a single character appears inside a JSON string literal: the
/// two-character short escapes for quote, backslash and the common control
/// characters, `\u00XX` for the remaining control characters, and the
/// character itself otherwise.
pub open spec fn spec_escape_char(c: char) -> Seq<char> {
    if c == '"' {
        seq!['\\', '"']
    } else if c == '\\' {
        seq!['\\', '\\']
    } else if c as u32 == 0x08 {
        seq!['\\', 'b']
    } else if c as u32 == 0x09 {
        seq!['\\', 't']
    } else if c as u32 == 0x0a {
        seq!['\\', 'n']
    } else if c as u32 == 0x0c {
        seq!['\\', 'f']
    } else if c as u32 == 0x0d {
        seq!['\\', 'r']
    } else if (c as u32) < 0x20 {
        seq!['\\', 'u', '0', '0', spec_hex_digit(((c as u32) as int) / 16), spec_hex_digit(((
        c as u32) as int) % 16)]
    } else {
        seq![c]
    }
}

/// The body of a JSON string literal for `s`: every character escaped.
pub open spec fn spec_escape(s: Seq<char>) -> Seq<char>
    decreases s.len(),
{
    if s.len() == 0 {
        Seq::empty()
    } else {
        spec_escape(s.drop_last()) + spec_escape_char(s.last())
    }
}

/// A complete JSON string literal for `s`, quotes included.
pub open spec fn spec_json_str(s: Seq<char>) -> Seq<char> {
    seq!['"'] + spec_escape(s) + seq!['"']
}

/// The JSON rendering of a boolean.
pub open spec fn spec_json_bool(b: bool) -> Seq<char> {
    if b {
        "true"@
    } else {
        "false"@
    }
}

/// Whether every character of `s` stands for itself inside a JSON string
/// literal: no quote, no backslash, no control character.
pub open spec fn spec_plain(s: Seq<char>) -> bool {
    forall|i: int|
        0 <= i < s.len() ==> (#[trigger] s[i]) != '"' && s[i] != '\\' && s[i] as u32 >= 0x20
}

/// Escaping changes nothing in a string of plain characters.
pub proof fn lemma_escape_plain(s: Seq<char>)
    requires
        spec_plain(s),
    ensures
        spec_escape(s) == s,
    decreases s.len(),
{
    if s.len() == 0 {
        assert(spec_escape(s) =~= s);
    } else {
        assert(spec_plain(s.drop_last())) by {
            assert(forall|i: int|
                0 <= i < s.drop_last().len() ==> #[trigger] s.drop_last()[i] == s[i]);
        }
        lemma_escape_plain(s.drop_last());
        assert(spec_escape_char(s.last()) == seq![s.last()]);
        assert(spec_escape(s) =~= s);
    }
}

/// Relies on `String::from_iter` for `char` items: the characters of the
/// resulting string are exactly the elements of the vector, in order.
#[verifier::external_body]
pub(crate) fn string_from_chars(v: Vec<char>) -> (r: String)
    ensures
        r@ == v@,
{
    String::from_iter(v)
}

/// The decimal digit character for `d < 10`.
fn digit_char(d: u64) -> (c: char)
    requires
        d < 10,
    ensures
        c == spec_digit(d as int),
{
    match d {
        0 => '0',
        1 => '1',
        2 => '2',
        3 => '3',
        4 => '4',
        5 => '5',
        6 => '6',
        7 => '7',
        8 => '8',
        _ => '9',
    }
}

/// The lowercase hexadecimal digit character for `d < 16`.
fn hex_digit_char(d: u32) -> (c: char)
    requires
        d < 16,
    ensures
        c == spec_hex_digit(d as int),
{
    match d {
        0 => '0',
        1 => '1',
        2 => '2',
        3 => '3',
        4 => '4',
        5 => '5',
        6 => '6',
        7 => '7',
        8 => '8',
        9 => '9',
        10 => 'a',
        11 => 'b',
        12 => 'c',
        13 => 'd',
        14 => 'e',
        _ => 'f',
    }
}

fn push_dec_u64(buf: &mut Vec<char>, n: u64)
    ensures
        final(buf)@ == old(buf)@ + spec_dec(n as nat),
    decreases n,
{
    if n < 10 {
        buf.push(digit_char(n));
    } else {
        push_dec_u64(buf, n / 10);
        buf.push(digit_char(n % 10));
    }
}

/// The decimal rendering of `n`.
pub fn dec_u64(n: u64) -> (r: String)
    ensures
        r@ == spec_dec(n as nat),
{
    let mut buf: Vec<char> = Vec::new();
    push_dec_u64(&mut buf, n);
    string_from_chars(buf)
}

/// The decimal rendering of a possibly negative number.
pub open spec fn spec_dec_i64(n: int) -> Seq<char> {
    if n < 0 {
        seq!['-'] + spec_dec((-n) as nat)
    } else {
        spec_dec(n as nat)
    }
}

/// The decimal rendering of `n`, with a leading minus sign when negative.
pub fn dec_i64(n: i64) -> (r: String)
    ensures
        r@ == spec_dec_i64(n as int),
{
    if n >= 0 {
        dec_u64(n as u64)
    } else {
        let mag: u64 = if n == i64::MIN {
            9223372036854775808u64
        } else {
            (-n) as u64
        };
        let mut buf: Vec<char> = Vec::new();
        buf.push('-');
        push_dec_u64(&mut buf, mag);
        proof {
            assert(buf@ == spec_dec_i64(n as int));
        }
        string_from_chars(buf)
    }
}

fn push_escaped_char(buf: &mut Vec<char>, c: char)
    ensures
        final(buf)@ == old(buf)@ + spec_escape_char(c),
{
    if c == '"' {
        buf.push('\\');
        buf.push('"');
    } else if c == '\\' {
        buf.push('\\');
        buf.push('\\');
    } else if c as u32 == 0x08 {
        buf.push('\\');
        buf.push('b');
    } else if c as u32 == 0x09 {
        buf.push('\\');
        buf.push('t');
    } else if c as u32 == 0x0a {
        buf.push('\\');
        buf.push('n');
    } else if c as u32 == 0x0c {
        buf.push('\\');
        buf.push('f');
    } else if c as u32 == 0x0d {
        buf.push('\\');
        buf.push('r');
    } else if (c as u32) < 0x20 {
        buf.push('\\');
        buf.push('u');
        buf.push('0');
        buf.push('0');
        buf.push(hex_digit_char(c as u32 / 16));
        buf.push(hex_digit_char(c as u32 % 16));
    } else {
        buf.push(c);
    }
}

fn push_escaped(buf: &mut Vec<char>, s: &str)
    ensures
        final(buf)@ == old(buf)@ + spec_escape(s@),
{
    let len = s.unicode_len();
    let mut i: usize = 0;
    while i < len
        invariant
            len == s@.len(),
            i <= len,
            buf@ == old(buf)@ + spec_escape(s@.take(i as int)),
        decreases len - i,
    {
        let c = s.get_char(i);
        push_escaped_char(buf, c);
        proof {
            assert(s@.take(i + 1).drop_last() == s@.take(i as int));
            assert(s@.take(i + 1).last() == s@[i as int]);
        }
        i = i + 1;
    }
    proof {
        assert(s@.take(len as int) == s@);
    }
}

/// The opening bracket and first `k` elements of a JSON array of numbers.
pub open spec fn spec_num_array_upto(v: Seq<nat>, k: int) -> Seq<char>
    decreases k,
{
    if k <= 0 {
        "["@
    } else if k == 1 {
        "["@ + spec_dec(v[0])
    } else {
        spec_num_array_upto(v, k - 1) + ","@ + spec_dec(v[k - 1])
    }
}

/// A complete JSON array of numbers.
pub open spec fn spec_json_num_array(v: Seq<nat>) -> Seq<char> {
    spec_num_array_upto(v, v.len() as int) + "]"@
}

/// The opening bracket and first `k` elements of a JSON array of strings.
pub open spec fn spec_str_array_upto(v: Seq<Seq<char>>, k: int) -> Seq<char>
    decreases k,
{
    if k <= 0 {
        "["@
    } else if k == 1 {
        "["@ + spec_json_str(v[0])
    } else {
        spec_str_array_upto(v, k - 1) + ","@ + spec_json_str(v[k - 1])
    }
}

/// A complete JSON array of strings.
pub open spec fn spec_json_str_array(v: Seq<Seq<char>>) -> Seq<char> {
    spec_str_array_upto(v, v.len() as int) + "]"@
}

/// The opening brace and first `k` entries of a JSON object with numeric
/// values.
pub open spec fn spec_num_obj_upto(v: Seq<(Seq<char>, nat)>, k: int) -> Seq<char>
    decreases k,
{
    if k <= 0 {
        "{"@
    } else if k == 1 {
        "{"@ + spec_json_str(v[0].0) + ":"@ + spec_dec(v[0].1)
    } else {
        spec_num_obj_upto(v, k - 1) + ","@ + spec_json_str(v[k - 1].0) + ":"@ + spec_dec(
            v[k - 1].1,
        )
    }
}

/// A complete JSON object with numeric values, entries in the given order.
pub open spec fn spec_json_num_obj(v: Seq<(Seq<char>, nat)>) -> Seq<char> {
    spec_num_obj_upto(v, v.len() as int) + "}"@
}

/// A complete JSON string literal for `s`, quotes included.
pub fn json_str(s: &str) -> (r: String)
    ensures
        r@ == spec_json_str(s@),
{
    let mut buf: Vec<char> = Vec::new();
    buf.push('"');
    push_escaped(&mut buf, s);
    buf.push('"');
    proof {
        assert(buf@ == spec_json_str(s@));
    }
    string_from_chars(buf)
}

/// A JSON array holding the numbers of `v`, in order.
pub fn json_num_array(v: &Vec<usize>) -> (r: String)
    ensures
        r@ == spec_json_num_array(v@.map_values(|x: usize| x as nat)),
{
    let ghost model = v@.map_values(|x: usize| x as nat);
    let mut r: String = "[".to_owned();
    let mut i: usize = 0;
    while i < v.len()
        invariant
            i <= v@.len(),
            model == v@.map_values(|x: usize| x as nat),
            r@ == spec_num_array_upto(model, i as int),
        decreases v@.len() - i,
    {
        if i > 0 {
            r.append(",");
        }
        let n = dec_u64(v[i] as u64);
        r.append(n.as_str());
        proof {
            assert(model[i as int] == v@[i as int] as nat);
        }
        i = i + 1;
    }
    r.append("]");
    r
}

/// A JSON array holding the strings of `v`, in order, each escaped.
pub fn json_str_array(v: &Vec<String>) -> (r: String)
    ensures
        r@ == spec_json_str_array(v@.map_values(|s: String| s@)),
{
    let ghost model = v@.map_values(|s: String| s@);
    let mut r: String = "[".to_owned();
    let mut i: usize = 0;
    while i < v.len()
        invariant
            i <= v@.len(),
            model == v@.map_values(|s: String| s@),
            r@ == spec_str_array_upto(model, i as int),
        decreases v@.len() - i,
    {
        if i > 0 {
            r.append(",");
        }
        let s = json_str(v[i].as_str());
        r.append(s.as_str());
        proof {
            assert(model[i as int] == v@[i as int]@);
        }
        i = i + 1;
    }
    r.append("]");
    r
}

/// A JSON object holding the key/number entries of `v`, in order.
pub fn json_num_obj(v: &Vec<(String, usize)>) -> (r: String)
    ensures
        r@ == spec_json_num_obj(v@.map_values(|e: (String, usize)| (e.0@, e.1 as nat))),
{
    let ghost model = v@.map_values(|e: (String, usize)| (e.0@, e.1 as nat));
    let mut r: String = "{".to_owned();
    let mut i: usize = 0;
    while i < v.len()
        invariant
            i <= v@.len(),
            model == v@.map_values(|e: (String, usize)| (e.0@, e.1 as nat)),
            r@ == spec_num_obj_upto(model, i as int),
        decreases v@.len() - i,
    {
        if i > 0 {
            r.append(",");
        }
        let k = json_str(v[i].0.as_str());
        r.append(k.as_str());
        r.append(":");
        let n = dec_u64(v[i].1 as u64);
        r.append(n.as_str());
        proof {
            assert(model[i as int] == (v@[i as int].0@, v@[i as int].1 as nat));
        }
        i = i + 1;
    }
    r.append("}");
    r
}

} // verus!
