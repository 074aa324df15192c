//! JSON: reading fields of a response text, and writing request bodies.
//!
//! Parsing and string escaping are serde_json's; the framing of request
//! bodies is written and proved here.
use vstd::prelude::*;
use vstd::string::*;
use crate::text::{joined, views, join_with_commas};

verus! {

/// The JSON string literal of `s`, as serde_json writes it.
pub uninterp spec fn json_quoted(s: Seq<char>) -> Seq<char>;

/// The string that the JSON pointer `pointer` reaches in the document `text`,
/// if `text` parses and a string stands there.
pub uninterp spec fn json_str_at(text: Seq<char>, pointer: Seq<char>) -> Option<Seq<char>>;

/// The non-negative integer that `pointer` reaches in the document `text`, if
/// `text` parses and such an integer, within `u64`, stands there.
pub uninterp spec fn json_u64_at(text: Seq<char>, pointer: Seq<char>) -> Option<u64>;

/// Whether `text` parses and `pointer` reaches nothing in it, or `null`.
pub uninterp spec fn json_null_at(text: Seq<char>, pointer: Seq<char>) -> bool;

/// The length of the array that `pointer` reaches in the document `text`, if
/// `text` parses and an array stands there.
pub uninterp spec fn json_len_at(text: Seq<char>, pointer: Seq<char>) -> Option<usize>;

/// The numerals, as serde_json writes them, of the array of numbers that
/// `pointer` reaches in the document `text`, if `text` parses and such an
/// array stands there.
pub uninterp spec fn json_numbers_at(text: Seq<char>, pointer: Seq<char>) -> Option<Seq<Seq<char>>>;

/// Relies on serde_json::to_string on a `str`: it writes the quoted, escaped
/// literal into a `Vec<u8>`, which cannot fail, so the default is never taken.
#[verifier::external_body]
pub(crate) fn quote(s: &str) -> (r: String)
    ensures
        r@ == json_quoted(s@),
{
    serde_json::to_string(s).unwrap_or_default()
}

/// Relies on serde_json::from_str into a `Value`, `Value::pointer` and
/// `Value::as_str`.
#[verifier::external_body]
pub(crate) fn str_at(text: &str, pointer: &str) -> (r: Option<String>)
    ensures
        r.deep_view() == json_str_at(text@, pointer@),
{
    let v: serde_json::Value = serde_json::from_str(text).ok()?;
    v.pointer(pointer)?.as_str().map(|s| s.to_string())
}

/// Relies on serde_json::from_str into a `Value`, `Value::pointer` and
/// `Value::as_u64`.
#[verifier::external_body]
pub(crate) fn u64_at(text: &str, pointer: &str) -> (r: Option<u64>)
    ensures
        r == json_u64_at(text@, pointer@),
{
    let v: serde_json::Value = serde_json::from_str(text).ok()?;
    v.pointer(pointer)?.as_u64()
}

/// Relies on serde_json::from_str into a `Value`, `Value::pointer` and
/// `Value::is_null`.
#[verifier::external_body]
pub(crate) fn null_at(text: &str, pointer: &str) -> (r: bool)
    ensures
        r == json_null_at(text@, pointer@),
{
    match serde_json::from_str::<serde_json::Value>(text) {
        Ok(v) => v.pointer(pointer).map_or(true, |f| f.is_null()),
        Err(_) => false,
    }
}

/// Relies on serde_json::from_str into a `Value`, `Value::pointer` and
/// `Value::as_array`.
#[verifier::external_body]
pub(crate) fn len_at(text: &str, pointer: &str) -> (r: Option<usize>)
    ensures
        r == json_len_at(text@, pointer@),
{
    let v: serde_json::Value = serde_json::from_str(text).ok()?;
    v.pointer(pointer)?.as_array().map(|a| a.len())
}

/// Relies on serde_json::from_str into a `Value`, `Value::pointer`,
/// `Value::as_array`, `Value::as_number` and the `Display` of `Number`.
#[verifier::external_body]
pub(crate) fn numbers_at(text: &str, pointer: &str) -> (r: Option<Vec<String>>)
    ensures
        r matches Some(v) ==> json_numbers_at(text@, pointer@) == Some(views(v@)),
        r is None <==> json_numbers_at(text@, pointer@) is None,
{
    let v: serde_json::Value = serde_json::from_str(text).ok()?;
    v.pointer(pointer)?.as_array()?.iter().map(|x| x.as_number().map(|n| n.to_string())).collect()
}

/// The string field at `pointer`, where a missing field or `null` reads as
/// `None`; `None` outside means that something else stands there.
pub open spec fn json_opt_str_at(text: Seq<char>, pointer: Seq<char>) -> Option<Option<Seq<char>>> {
    match json_str_at(text, pointer) {
        Some(s) => Some(Some(s)),
        None => if json_null_at(text, pointer) {
            Some(None)
        } else {
            None
        },
    }
}

/// The field at `pointer` as a `u32`, if an integer in that range stands there.
pub open spec fn json_u32_at(text: Seq<char>, pointer: Seq<char>) -> Option<u32> {
    match json_u64_at(text, pointer) {
        Some(n) => if n <= u32::MAX {
            Some(n as u32)
        } else {
            None
        },
        None => None,
    }
}

/// Reads an optional string field.
pub fn opt_str_at(text: &str, pointer: &str) -> (r: Option<Option<String>>)
    ensures
        r.deep_view() == json_opt_str_at(text@, pointer@),
{
    match str_at(text, pointer) {
        Some(s) => Some(Some(s)),
        None => if null_at(text, pointer) {
            Some(None)
        } else {
            None
        },
    }
}

/// Reads a `u32` field.
pub fn u32_at(text: &str, pointer: &str) -> (r: Option<u32>)
    ensures
        r == json_u32_at(text@, pointer@),
{
    match u64_at(text, pointer) {
        Some(n) => if n <= 4294967295 {
            Some(n as u32)
        } else {
            None
        },
        None => None,
    }
}

/// One member of an object: the quoted key, a colon, the value's JSON text.
pub open spec fn member(entry: (Seq<char>, Seq<char>)) -> Seq<char> {
    json_quoted(entry.0) + seq![':'] + entry.1
}

/// The JSON text of an object with the given members, in order.
pub open spec fn object_text(entries: Seq<(Seq<char>, Seq<char>)>) -> Seq<char> {
    seq!['{'] + joined(entries.map_values(|e: (Seq<char>, Seq<char>)| member(e))) + seq!['}']
}

/// The JSON text of an array of the given values, in order.
pub open spec fn array_text(items: Seq<Seq<char>>) -> Seq<char> {
    seq!['['] + joined(items) + seq![']']
}

/// The views of a list of (key, JSON text) pairs.
pub open spec fn pair_views(entries: Seq<(String, String)>) -> Seq<(Seq<char>, Seq<char>)> {
    entries.map_values(|e: (String, String)| (e.0@, e.1@))
}

/// Writes a JSON object from (key, JSON text of the value) pairs.
pub fn render_object(entries: &Vec<(String, String)>) -> (r: String)
    ensures
        r@ == object_text(pair_views(entries@)),
{
    let mut members: Vec<String> = Vec::new();
    let mut i: usize = 0;
    while i < entries.len()
        invariant
            i <= entries.len(),
            views(members@) =~= pair_views(entries@.subrange(0, i as int)).map_values(
                |e: (Seq<char>, Seq<char>)| member(e),
            ),
        decreases entries.len() - i,
    {
        let mut m = quote(entries[i].0.as_str());
        m.append(":");
        m.append(entries[i].1.as_str());
        proof {
            reveal_strlit(":");
        }
        let ghost prev = members@;
        members.push(m);
        proof {
            let step = pair_views(entries@.subrange(0, i as int + 1));
            assert(step =~= pair_views(entries@.subrange(0, i as int)).push(
                (entries@[i as int].0@, entries@[i as int].1@),
            ));
            assert(members@ =~= prev.push(m));
            assert(views(members@) =~= views(prev).push(m@));
            assert(m@ == member((entries@[i as int].0@, entries@[i as int].1@)));
            let f = |e: (Seq<char>, Seq<char>)| member(e);
            assert(step.map_values(f) =~= pair_views(entries@.subrange(0, i as int)).map_values(
                f,
            ).push(member((entries@[i as int].0@, entries@[i as int].1@))));
        }
        i = i + 1;
    }
    assert(entries@.subrange(0, entries.len() as int) =~= entries@);
    let mut out = String::from_str("{");
    out.append(join_with_commas(&members).as_str());
    out.append("}");
    proof {
        reveal_strlit("{");
        reveal_strlit("}");
    }
    out
}

/// Writes a JSON array from the JSON texts of its values.
pub fn render_array(items: &Vec<String>) -> (r: String)
    ensures
        r@ == array_text(views(items@)),
{
    let mut out = String::from_str("[");
    out.append(join_with_commas(items).as_str());
    out.append("]");
    proof {
        reveal_strlit("[");
        reveal_strlit("]");
    }
    out
}

/// Where a reader of a JSON numeral stands after a prefix of it.
#[derive(Debug, Clone, Copy, PartialEq, Eq, Structural)]
pub enum NumeralState {
    Start,
    Minus,
    Zero,
    Int,
    Dot,
    Frac,
    Exp,
    ExpSign,
    ExpDigits,
}

/// One character of a JSON numeral (RFC 8259: an optional minus, an integer
/// part without leading zeros, an optional fraction, an optional exponent).
pub open spec fn numeral_step(st: NumeralState, c: char) -> Option<NumeralState> {
    let digit = '0' <= c && c <= '9';
    let exp = c == 'e' || c == 'E';
    match st {
        NumeralState::Start => if c == '-' {
            Some(NumeralState::Minus)
        } else if c == '0' {
            Some(NumeralState::Zero)
        } else if digit {
            Some(NumeralState::Int)
        } else {
            None
        },
        NumeralState::Minus => if c == '0' {
            Some(NumeralState::Zero)
        } else if digit {
            Some(NumeralState::Int)
        } else {
            None
        },
        NumeralState::Zero => if c == '.' {
            Some(NumeralState::Dot)
        } else if exp {
            Some(NumeralState::Exp)
        } else {
            None
        },
        NumeralState::Int => if digit {
            Some(NumeralState::Int)
        } else if c == '.' {
            Some(NumeralState::Dot)
        } else if exp {
            Some(NumeralState::Exp)
        } else {
            None
        },
        NumeralState::Dot => if digit {
            Some(NumeralState::Frac)
        } else {
            None
        },
        NumeralState::Frac => if digit {
            Some(NumeralState::Frac)
        } else if exp {
            Some(NumeralState::Exp)
        } else {
            None
        },
        NumeralState::Exp => if c == '+' || c == '-' {
            Some(NumeralState::ExpSign)
        } else if digit {
            Some(NumeralState::ExpDigits)
        } else {
            None
        },
        NumeralState::ExpSign | NumeralState::ExpDigits => if digit {
            Some(NumeralState::ExpDigits)
        } else {
            None
        },
    }
}

/// Where the reader stands after `s`, or `None` once `s` cannot begin a numeral.
pub open spec fn numeral_run(s: Seq<char>) -> Option<NumeralState>
    decreases s.len(),
{
    if s.len() == 0 {
        Some(NumeralState::Start)
    } else {
        match numeral_run(s.drop_last()) {
            Some(st) => numeral_step(st, s.last()),
            None => None,
        }
    }
}

/// Whether `s` is a JSON numeral.
pub open spec fn is_json_numeral(s: Seq<char>) -> bool {
    match numeral_run(s) {
        Some(st) => st == NumeralState::Zero || st == NumeralState::Int || st == NumeralState::Frac
            || st == NumeralState::ExpDigits,
        None => false,
    }
}

fn next_numeral_state(st: NumeralState, c: char) -> (r: Option<NumeralState>)
    ensures
        r == numeral_step(st, c),
{
    let digit = '0' <= c && c <= '9';
    let exp = c == 'e' || c == 'E';
    match st {
        NumeralState::Start => if c == '-' {
            Some(NumeralState::Minus)
        } else if c == '0' {
            Some(NumeralState::Zero)
        } else if digit {
            Some(NumeralState::Int)
        } else {
            None
        },
        NumeralState::Minus => if c == '0' {
            Some(NumeralState::Zero)
        } else if digit {
            Some(NumeralState::Int)
        } else {
            None
        },
        NumeralState::Zero => if c == '.' {
            Some(NumeralState::Dot)
        } else if exp {
            Some(NumeralState::Exp)
        } else {
            None
        },
        NumeralState::Int => if digit {
            Some(NumeralState::Int)
        } else if c == '.' {
            Some(NumeralState::Dot)
        } else if exp {
            Some(NumeralState::Exp)
        } else {
            None
        },
        NumeralState::Dot => if digit {
            Some(NumeralState::Frac)
        } else {
            None
        },
        NumeralState::Frac => if digit {
            Some(NumeralState::Frac)
        } else if exp {
            Some(NumeralState::Exp)
        } else {
            None
        },
        NumeralState::Exp => if c == '+' || c == '-' {
            Some(NumeralState::ExpSign)
        } else if digit {
            Some(NumeralState::ExpDigits)
        } else {
            None
        },
        NumeralState::ExpSign | NumeralState::ExpDigits => if digit {
            Some(NumeralState::ExpDigits)
        } else {
            None
        },
    }
}

/// Whether `s` is a JSON numeral, such as `0.7`, `-1` or `2e-3`.
pub fn is_numeral(s: &str) -> (r: bool)
    ensures
        r == is_json_numeral(s@),
{
    let n = s.unicode_len();
    let mut cur: Option<NumeralState> = Some(NumeralState::Start);
    let mut i: usize = 0;
    while i < n
        invariant
            n == s@.len(),
            i <= n,
            cur == numeral_run(s@.subrange(0, i as int)),
        decreases n - i,
    {
        let c = s.get_char(i);
        cur = match cur {
            Some(st) => next_numeral_state(st, c),
            None => None,
        };
        assert(s@.subrange(0, i as int + 1).drop_last() =~= s@.subrange(0, i as int));
        i = i + 1;
    }
    assert(s@.subrange(0, n as int) =~= s@);
    match cur {
        Some(st) => st == NumeralState::Zero || st == NumeralState::Int || st == NumeralState::Frac
            || st == NumeralState::ExpDigits,
        None => false,
    }
}

} // verus!
