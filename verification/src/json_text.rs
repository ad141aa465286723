//! JSON values as JSON text, and the reading of that text back.

use vstd::prelude::*;
use crate::json::{JsonModel, JsonValue};
use crate::text::{chars_of, string_of};

verus! {

// ---------------------------------------------------------------------------
// Numbers
// ---------------------------------------------------------------------------

/// A decimal digit.
pub open spec fn is_digit(c: char) -> bool {
    '0' <= c && c <= '9'
}

/// The step of the automaton of JSON's number grammar,
/// `-? (0 | [1-9][0-9]*) (. [0-9]+)? ([eE] [+-]? [0-9]+)?`, from `state` on `c`.
pub open spec fn number_step(state: nat, c: char) -> Option<nat> {
    if state == 0 {
        if c == '-' { Some(1) } else if c == '0' { Some(2) } else if is_digit(c) { Some(3) } else { None }
    } else if state == 1 {
        if c == '0' { Some(2) } else if is_digit(c) { Some(3) } else { None }
    } else if state == 2 {
        if c == '.' { Some(4) } else if c == 'e' || c == 'E' { Some(6) } else { None }
    } else if state == 3 {
        if is_digit(c) { Some(3) } else if c == '.' { Some(4) } else if c == 'e' || c == 'E' { Some(6) } else { None }
    } else if state == 4 {
        if is_digit(c) { Some(5) } else { None }
    } else if state == 5 {
        if is_digit(c) { Some(5) } else if c == 'e' || c == 'E' { Some(6) } else { None }
    } else if state == 6 {
        if c == '+' || c == '-' { Some(7) } else if is_digit(c) { Some(8) } else { None }
    } else if state == 7 {
        if is_digit(c) { Some(8) } else { None }
    } else if state == 8 {
        if is_digit(c) { Some(8) } else { None }
    } else {
        None
    }
}

/// The state the number automaton reaches on `s`, if it does not stop.
pub open spec fn number_run(s: Seq<char>) -> Option<nat>
    decreases s.len(),
{
    if s.len() == 0 {
        Some(0)
    } else {
        match number_run(s.drop_last()) {
            Some(st) => number_step(st, s.last()),
            None => None,
        }
    }
}

/// `s` is a number as JSON writes one.
pub open spec fn json_number(s: Seq<char>) -> bool {
    number_run(s) matches Some(st) && (st == 2 || st == 3 || st == 5 || st == 8)
}

// ---------------------------------------------------------------------------
// Writing
// ---------------------------------------------------------------------------

/// The hexadecimal digits, in order of value.
pub open spec fn hex_digits() -> Seq<char> {
    "0123456789abcdef"@
}

/// A character inside a JSON string: a quote and a backslash behind a
/// backslash, a control character as `\u00` and its two hexadecimal digits,
/// any other character as itself.
pub open spec fn escape_char(c: char) -> Seq<char> {
    if c == '"' {
        seq!['\\', '"']
    } else if c == '\\' {
        seq!['\\', '\\']
    } else if (c as u32) < 32 {
        seq!['\\', 'u', '0', '0', hex_digits()[((c as u32) / 16) as int], hex_digits()[((c as u32) % 16) as int]]
    } else {
        seq![c]
    }
}

/// The characters of a string, each escaped as JSON needs.
pub open spec fn escaped(s: Seq<char>) -> Seq<char>
    decreases s.len(),
{
    if s.len() == 0 {
        Seq::empty()
    } else {
        escape_char(s[0]) + escaped(s.drop_first())
    }
}

/// A string as a JSON string: escaped, between quotes.
pub open spec fn quoted(s: Seq<char>) -> Seq<char> {
    seq!['"'] + escaped(s) + seq!['"']
}

/// The JSON text of a value, without spaces: `null`, `true` or `false`, a
/// number's text (`null` for a text that is no JSON number), a quoted
/// string, the texts of an array's items between brackets and of an object's
/// members (a quoted name, a colon, the value) between braces, separated by
/// commas.
pub open spec fn json_text(v: JsonValue) -> Seq<char>
    decreases v, 1nat,
{
    match v {
        JsonValue::Null => "null"@,
        JsonValue::Bool(b) => if b { "true"@ } else { "false"@ },
        JsonValue::Number(n) => if json_number(n@) { n@ } else { "null"@ },
        JsonValue::String(s) => quoted(s@),
        JsonValue::Array(items) => {
            proof {
                assert(decreases_to!(v => v->Array_0));
                assert(decreases_to!(v->Array_0 => items@));
            }
            seq!['['] + items_text(items@) + seq![']']
        },
        JsonValue::Object(members) => {
            proof {
                assert(decreases_to!(v => v->Object_0));
                assert(decreases_to!(v->Object_0 => members@));
            }
            seq!['{'] + members_text(members@) + seq!['}']
        },
    }
}

/// The texts of values separated by commas.
pub open spec fn items_text(items: Seq<JsonValue>) -> Seq<char>
    decreases items, 0nat,
{
    if items.len() == 0 {
        Seq::empty()
    } else if items.len() == 1 {
        json_text(items[0])
    } else {
        json_text(items[0]) + seq![','] + items_text(items.drop_first())
    }
}

/// The text of one object member: its quoted name, a colon, its value.
pub open spec fn member_text(m: (String, JsonValue)) -> Seq<char>
    decreases m, 1nat,
{
    quoted(m.0@) + seq![':'] + json_text(m.1)
}

/// The texts of object members separated by commas.
pub open spec fn members_text(members: Seq<(String, JsonValue)>) -> Seq<char>
    decreases members, 0nat,
{
    if members.len() == 0 {
        Seq::empty()
    } else if members.len() == 1 {
        member_text(members[0])
    } else {
        member_text(members[0]) + seq![','] + members_text(members.drop_first())
    }
}

// ---------------------------------------------------------------------------
// Reading
// ---------------------------------------------------------------------------

/// The value of a hexadecimal digit, -1 for another character.
pub open spec fn hex_value(c: char) -> int {
    if is_digit(c) {
        c as int - '0' as int
    } else if 'a' <= c && c <= 'f' {
        c as int - 'a' as int + 10
    } else if 'A' <= c && c <= 'F' {
        c as int - 'A' as int + 10
    } else {
        -1
    }
}

/// The character a JSON string escape `\x` stands for, where `x` is one
/// letter or sign.
pub open spec fn short_escape(x: char) -> Option<char> {
    if x == '"' { Some('"') }
    else if x == '\\' { Some('\\') }
    else if x == '/' { Some('/') }
    else if x == 'b' { Some('\u{8}') }
    else if x == 'f' { Some('\u{c}') }
    else if x == 'n' { Some('\n') }
    else if x == 'r' { Some('\r') }
    else if x == 't' { Some('\t') }
    else { None }
}

/// `c` before the characters read, if they were read.
pub open spec fn read_after(c: char, r: Option<(Seq<char>, Seq<char>)>) -> Option<(Seq<char>, Seq<char>)> {
    match r {
        Some((x, rest)) => Some((seq![c] + x, rest)),
        None => None,
    }
}

/// The characters of a JSON string whose opening quote has been read, and
/// the text after its closing quote: escapes stand for what they denote
/// (`\u` with four hexadecimal digits for a character outside the
/// surrogates); a control character may not stand unescaped.
pub open spec fn read_chars(s: Seq<char>) -> Option<(Seq<char>, Seq<char>)>
    decreases s.len(),
{
    if s.len() == 0 {
        None
    } else if s[0] == '"' {
        Some((Seq::empty(), s.drop_first()))
    } else if s[0] == '\\' {
        if s.len() >= 2 && short_escape(s[1]) is Some {
            read_after(short_escape(s[1])->0, read_chars(s.subrange(2, s.len() as int)))
        } else if s.len() >= 6 && s[1] == 'u' && hex_value(s[2]) >= 0 && hex_value(s[3]) >= 0
            && hex_value(s[4]) >= 0 && hex_value(s[5]) >= 0 {
            let code = 4096 * hex_value(s[2]) + 256 * hex_value(s[3]) + 16 * hex_value(s[4]) + hex_value(s[5]);
            if code < 0xD800 || code >= 0xE000 {
                read_after((code as u32) as char, read_chars(s.subrange(6, s.len() as int)))
            } else {
                None
            }
        } else {
            None
        }
    } else if (s[0] as u32) < 32 {
        None
    } else {
        read_after(s[0], read_chars(s.drop_first()))
    }
}

/// A character that may continue a number.
pub open spec fn number_char(c: char) -> bool {
    is_digit(c) || c == '-' || c == '+' || c == '.' || c == 'e' || c == 'E'
}

/// The length of the run of number characters `s` starts with.
pub open spec fn number_len(s: Seq<char>) -> nat
    decreases s.len(),
{
    if s.len() > 0 && number_char(s[0]) { 1 + number_len(s.drop_first()) } else { 0 }
}

/// `s` starts with `p`.
pub open spec fn starts_with(s: Seq<char>, p: Seq<char>) -> bool {
    p.len() <= s.len() && s.subrange(0, p.len() as int) == p
}

/// The JSON value `s` starts with, and the text after it.
pub open spec fn read_value(s: Seq<char>) -> Option<(JsonModel, Seq<char>)>
    decreases s.len(), 0nat,
{
    if s.len() == 0 {
        None
    } else if s[0] == 'n' {
        if starts_with(s, "null"@) { Some((JsonModel::Null, s.subrange(4, s.len() as int))) } else { None }
    } else if s[0] == 't' {
        if starts_with(s, "true"@) { Some((JsonModel::Bool(true), s.subrange(4, s.len() as int))) } else { None }
    } else if s[0] == 'f' {
        if starts_with(s, "false"@) { Some((JsonModel::Bool(false), s.subrange(5, s.len() as int))) } else { None }
    } else if s[0] == '"' {
        match read_chars(s.drop_first()) {
            Some((x, rest)) => Some((JsonModel::String(x), rest)),
            None => None,
        }
    } else if s[0] == '[' {
        if s.len() >= 2 && s[1] == ']' {
            Some((JsonModel::Array(Seq::empty()), s.subrange(2, s.len() as int)))
        } else {
            match read_items(s.drop_first()) {
                Some((xs, rest)) => Some((JsonModel::Array(xs), rest)),
                None => None,
            }
        }
    } else if s[0] == '{' {
        if s.len() >= 2 && s[1] == '}' {
            Some((JsonModel::Object(Seq::empty()), s.subrange(2, s.len() as int)))
        } else {
            match read_members(s.drop_first()) {
                Some((ms, rest)) => Some((JsonModel::Object(ms), rest)),
                None => None,
            }
        }
    } else if s[0] == '-' || is_digit(s[0]) {
        let k = number_len(s);
        if k <= s.len() && json_number(s.subrange(0, k as int)) {
            Some((JsonModel::Number(s.subrange(0, k as int)), s.subrange(k as int, s.len() as int)))
        } else {
            None
        }
    } else {
        None
    }
}

/// The items of an array whose opening bracket has been read, and the text
/// after its closing bracket.
pub open spec fn read_items(s: Seq<char>) -> Option<(Seq<JsonModel>, Seq<char>)>
    decreases s.len(), 1nat,
{
    match read_value(s) {
        Some((x, r)) => if r.len() < s.len() && r.len() > 0 {
            if r[0] == ']' {
                Some((seq![x], r.drop_first()))
            } else if r[0] == ',' {
                match read_items(r.drop_first()) {
                    Some((xs, r2)) => Some((seq![x] + xs, r2)),
                    None => None,
                }
            } else {
                None
            }
        } else {
            None
        },
        None => None,
    }
}

/// The members of an object whose opening brace has been read, and the text
/// after its closing brace.
pub open spec fn read_members(s: Seq<char>) -> Option<(Seq<(Seq<char>, JsonModel)>, Seq<char>)>
    decreases s.len(), 1nat,
{
    if s.len() > 0 && s[0] == '"' {
        match read_chars(s.drop_first()) {
            Some((k, r1)) => if r1.len() < s.len() && r1.len() > 0 && r1[0] == ':' {
                match read_value(r1.drop_first()) {
                    Some((x, r2)) => if r2.len() < s.len() && r2.len() > 0 {
                        if r2[0] == '}' {
                            Some((seq![(k, x)], r2.drop_first()))
                        } else if r2[0] == ',' {
                            match read_members(r2.drop_first()) {
                                Some((ms, r3)) => Some((seq![(k, x)] + ms, r3)),
                                None => None,
                            }
                        } else {
                            None
                        }
                    } else {
                        None
                    },
                    None => None,
                }
            } else {
                None
            },
            None => None,
        }
    } else {
        None
    }
}

/// The JSON value a whole text holds, if it holds exactly one.
pub open spec fn read_json(s: Seq<char>) -> Option<JsonModel> {
    match read_value(s) {
        Some((x, rest)) => if rest.len() == 0 { Some(x) } else { None },
        None => None,
    }
}

/// The value as JSON holds it: `json_model`, but a number whose text is no
/// JSON number is `null`.
pub open spec fn canon(v: JsonValue) -> JsonModel
    decreases v,
{
    match v {
        JsonValue::Null => JsonModel::Null,
        JsonValue::Bool(b) => JsonModel::Bool(b),
        JsonValue::Number(n) => if json_number(n@) { JsonModel::Number(n@) } else { JsonModel::Null },
        JsonValue::String(s) => JsonModel::String(s@),
        JsonValue::Array(items) => JsonModel::Array(Seq::new(items@.len(), |i: int|
            if 0 <= i < items@.len() { canon(items@[i]) } else { JsonModel::Null })),
        JsonValue::Object(members) => JsonModel::Object(Seq::new(members@.len(), |i: int|
            if 0 <= i < members@.len() { (members@[i].0@, canon(members@[i].1)) } else { (Seq::empty(), JsonModel::Null) })),
    }
}

// ---------------------------------------------------------------------------
// Reading back what is written
// ---------------------------------------------------------------------------

/// The number automaton never returns to its start, and takes only number
/// characters, the first a minus or a digit.
proof fn lemma_number_run(s: Seq<char>)
    ensures
        number_run(s) matches Some(st) ==> {
            &&& forall|i: int| 0 <= i < s.len() ==> number_char(#[trigger] s[i])
            &&& s.len() > 0 ==> st != 0 && (s[0] == '-' || is_digit(s[0]))
        },
    decreases s.len(),
{
    if s.len() > 0 {
        lemma_number_run(s.drop_last());
        if number_run(s) is Some {
            assert forall|i: int| 0 <= i < s.len() implies number_char(#[trigger] s[i]) by {
                if i < s.len() - 1 {
                    assert(s.drop_last()[i] == s[i]);
                }
            }
            if s.len() > 1 {
                assert(s.drop_last()[0] == s[0]);
            }
        }
    }
}

/// A JSON number is a run of number characters, starting with a minus or a
/// digit.
proof fn lemma_json_number(n: Seq<char>)
    requires
        json_number(n),
    ensures
        n.len() > 0,
        n[0] == '-' || is_digit(n[0]),
        forall|i: int| 0 <= i < n.len() ==> number_char(#[trigger] n[i]),
{
    lemma_number_run(n);
}

/// The run of number characters of a number followed by a delimiter is the
/// number.
proof fn lemma_number_len(n: Seq<char>, rest: Seq<char>)
    requires
        forall|i: int| 0 <= i < n.len() ==> number_char(#[trigger] n[i]),
        rest.len() == 0 || !number_char(rest[0]),
    ensures
        number_len(n + rest) == n.len(),
    decreases n.len(),
{
    if n.len() > 0 {
        assert((n + rest)[0] == n[0]);
        assert((n + rest).drop_first() =~= n.drop_first() + rest);
        assert forall|i: int| 0 <= i < n.drop_first().len() implies number_char(#[trigger] n.drop_first()[i]) by {
            assert(n.drop_first()[i] == n[i + 1]);
        }
        lemma_number_len(n.drop_first(), rest);
    } else {
        assert(n + rest =~= rest);
    }
}

/// The value of each hexadecimal digit.
proof fn lemma_hex_digits(d: int)
    requires
        0 <= d < 16,
    ensures
        hex_value(hex_digits()[d]) == d,
{
    reveal_strlit("0123456789abcdef");
    assert(hex_digits().len() == 16);
    if d == 0 { assert(hex_digits()[0] == '0'); }
    else if d == 1 { assert(hex_digits()[1] == '1'); }
    else if d == 2 { assert(hex_digits()[2] == '2'); }
    else if d == 3 { assert(hex_digits()[3] == '3'); }
    else if d == 4 { assert(hex_digits()[4] == '4'); }
    else if d == 5 { assert(hex_digits()[5] == '5'); }
    else if d == 6 { assert(hex_digits()[6] == '6'); }
    else if d == 7 { assert(hex_digits()[7] == '7'); }
    else if d == 8 { assert(hex_digits()[8] == '8'); }
    else if d == 9 { assert(hex_digits()[9] == '9'); }
    else if d == 10 { assert(hex_digits()[10] == 'a'); }
    else if d == 11 { assert(hex_digits()[11] == 'b'); }
    else if d == 12 { assert(hex_digits()[12] == 'c'); }
    else if d == 13 { assert(hex_digits()[13] == 'd'); }
    else if d == 14 { assert(hex_digits()[14] == 'e'); }
    else { assert(hex_digits()[15] == 'f'); }
}

/// An escaped string and its closing quote read back as the string.
proof fn lemma_read_escaped(x: Seq<char>, rest: Seq<char>)
    ensures
        read_chars(escaped(x) + seq!['"'] + rest) == Some((x, rest)),
    decreases x.len(),
{
    let t = escaped(x) + seq!['"'] + rest;
    if x.len() == 0 {
        assert(t =~= seq!['"'] + rest);
        assert(t.drop_first() =~= rest);
    } else {
        let c = x[0];
        let tail = escaped(x.drop_first()) + seq!['"'] + rest;
        lemma_read_escaped(x.drop_first(), rest);
        assert(t =~= escape_char(c) + tail);
        if c == '"' || c == '\\' {
            assert(t.subrange(2, t.len() as int) =~= tail);
        } else if (c as u32) < 32 {
            let hi = ((c as u32) / 16) as int;
            let lo = ((c as u32) % 16) as int;
            lemma_hex_digits(hi);
            lemma_hex_digits(lo);
            lemma_hex_digits(0);
            reveal_strlit("0123456789abcdef");
            assert(hex_digits()[0] == '0');
            assert(t[2] == '0' && t[3] == '0');
            assert(t.subrange(6, t.len() as int) =~= tail);
            assert(4096 * hex_value(t[2]) + 256 * hex_value(t[3]) + 16 * hex_value(t[4]) + hex_value(t[5]) == c as u32);
            let u: u32 = c as u32;
            vstd::utf8::char_u32_cast(c, u);
        } else {
            assert(t.drop_first() =~= tail);
        }
        assert(seq![c] + x.drop_first() =~= x);
    }
}

/// The values of a list as JSON holds them.
pub open spec fn canon_items(items: Seq<JsonValue>) -> Seq<JsonModel> {
    Seq::new(items.len(), |i: int| canon(items[i]))
}

/// The members of a list as JSON holds them.
pub open spec fn canon_members(members: Seq<(String, JsonValue)>) -> Seq<(Seq<char>, JsonModel)> {
    Seq::new(members.len(), |i: int| (members[i].0@, canon(members[i].1)))
}

/// Text that may follow a value inside a document: nothing, a comma, or a
/// closing bracket or brace.
pub open spec fn delimited(rest: Seq<char>) -> bool {
    rest.len() == 0 || rest[0] == ',' || rest[0] == ']' || rest[0] == '}'
}

/// The text of a value is not empty and does not start by closing a list.
proof fn lemma_text_start(v: JsonValue)
    ensures
        json_text(v).len() > 0,
        json_text(v)[0] != ']',
        json_text(v)[0] != '}',
{
    reveal_strlit("null");
    reveal_strlit("true");
    reveal_strlit("false");
    match v {
        JsonValue::Number(n) => {
            if json_number(n@) {
                lemma_json_number(n@);
            }
        },
        _ => {},
    }
}

/// `x` followed by `rest` starts with `p` and continues with `rest` where `x`
/// is `p`.
proof fn lemma_literal(p: Seq<char>, rest: Seq<char>)
    ensures
        starts_with(p + rest, p),
        (p + rest).subrange(p.len() as int, (p + rest).len() as int) =~= rest,
{
    assert((p + rest).subrange(0, p.len() as int) =~= p);
}

/// The text of some members starts with a quote.
proof fn lemma_members_start(members: Seq<(String, JsonValue)>)
    requires
        members.len() > 0,
    ensures
        members_text(members).len() > 0,
        members_text(members)[0] == '"',
{
    let m = members[0];
    assert(member_text(m) == quoted(m.0@) + seq![':'] + json_text(m.1));
    assert(member_text(m)[0] == '"');
    if members.len() > 1 {
        assert(members_text(members) == member_text(m) + seq![','] + members_text(members.drop_first()));
    }
}

/// A value's text followed by a delimiter reads back as the value and the
/// delimiter.
#[verifier::rlimit(60)]
#[verifier::spinoff_prover]
proof fn lemma_read_value(v: JsonValue, rest: Seq<char>)
    requires
        delimited(rest),
    ensures
        read_value(json_text(v) + rest) == Some((canon(v), rest)),
    decreases v, 1nat,
{
    reveal_strlit("null");
    reveal_strlit("true");
    reveal_strlit("false");
    let t = json_text(v) + rest;
    match v {
        JsonValue::Null => { lemma_literal("null"@, rest); },
        JsonValue::Bool(b) => {
            if b { lemma_literal("true"@, rest); } else { lemma_literal("false"@, rest); }
        },
        JsonValue::Number(n) => {
            if json_number(n@) {
                lemma_json_number(n@);
                lemma_number_len(n@, rest);
                lemma_literal(n@, rest);
                assert(t[0] == n@[0]);
            } else {
                lemma_literal("null"@, rest);
            }
        },
        JsonValue::String(x) => {
            assert(t.drop_first() =~= escaped(x@) + seq!['"'] + rest);
            lemma_read_escaped(x@, rest);
        },
        JsonValue::Array(items) => {
            assert(decreases_to!(v => v->Array_0));
            assert(decreases_to!(v->Array_0 => items@));
            if items@.len() == 0 {
                assert(t =~= seq!['[', ']'] + rest);
                assert(t.subrange(2, t.len() as int) =~= rest);
                if let JsonModel::Array(a) = canon(v) {
                    assert(a =~= Seq::<JsonModel>::empty());
                }
            } else {
                lemma_text_start(items@[0]);
                assert(t.drop_first() =~= items_text(items@) + seq![']'] + rest);
                assert(t[1] == json_text(items@[0])[0]);
                lemma_read_items(items@, rest);
                if let JsonModel::Array(a) = canon(v) {
                    assert(a =~= canon_items(items@));
                }
            }
        },
        JsonValue::Object(members) => {
            assert(decreases_to!(v => v->Object_0));
            assert(decreases_to!(v->Object_0 => members@));
            if members@.len() == 0 {
                assert(t =~= seq!['{', '}'] + rest);
                assert(t.subrange(2, t.len() as int) =~= rest);
                if let JsonModel::Object(a) = canon(v) {
                    assert(a =~= Seq::<(Seq<char>, JsonModel)>::empty());
                }
            } else {
                assert(t.drop_first() =~= members_text(members@) + seq!['}'] + rest);
                lemma_members_start(members@);
                assert(t[1] == members_text(members@)[0]);
                lemma_read_members(members@, rest);
                if let JsonModel::Object(a) = canon(v) {
                    assert(a =~= canon_members(members@));
                }
            }
        },
    }
}

/// The texts of some values separated by commas, a closing bracket, and a
/// delimiter read back as the values and the delimiter.
#[verifier::rlimit(60)]
#[verifier::spinoff_prover]
proof fn lemma_read_items(items: Seq<JsonValue>, rest: Seq<char>)
    requires
        items.len() > 0,
        delimited(rest),
    ensures
        read_items(items_text(items) + seq![']'] + rest) == Some((canon_items(items), rest)),
    decreases items, 0nat,
{
    let s = items_text(items) + seq![']'] + rest;
    let first = items[0];
    lemma_text_start(first);
    if items.len() == 1 {
        let after = seq![']'] + rest;
        assert(s =~= json_text(first) + after);
        lemma_read_value(first, after);
        assert(after.drop_first() =~= rest);
        assert(canon_items(items) =~= seq![canon(first)]);
    } else {
        let tail = items.drop_first();
        let after = seq![','] + (items_text(tail) + seq![']'] + rest);
        assert(s =~= json_text(first) + after);
        lemma_read_value(first, after);
        assert(after.drop_first() =~= items_text(tail) + seq![']'] + rest);
        lemma_read_items(tail, rest);
        assert(canon_items(items) =~= seq![canon(first)] + canon_items(tail));
    }
}

/// The texts of some members separated by commas, a closing brace, and a
/// delimiter read back as the members and the delimiter.
#[verifier::rlimit(60)]
#[verifier::spinoff_prover]
proof fn lemma_read_members(members: Seq<(String, JsonValue)>, rest: Seq<char>)
    requires
        members.len() > 0,
        delimited(rest),
    ensures
        read_members(members_text(members) + seq!['}'] + rest) == Some((canon_members(members), rest)),
    decreases members, 0nat,
{
    let s = members_text(members) + seq!['}'] + rest;
    let m = members[0];
    lemma_text_start(m.1);
    let after = if members.len() == 1 {
        seq!['}'] + rest
    } else {
        seq![','] + (members_text(members.drop_first()) + seq!['}'] + rest)
    };
    let r1 = seq![':'] + json_text(m.1) + after;
    assert(member_text(m) == quoted(m.0@) + seq![':'] + json_text(m.1));
    if members.len() == 1 {
        assert(members_text(members) == member_text(m));
    } else {
        assert(members_text(members) == member_text(m) + seq![','] + members_text(members.drop_first()));
    }
    assert(s =~= seq!['"'] + escaped(m.0@) + seq!['"'] + r1);
    assert(s.drop_first() =~= escaped(m.0@) + seq!['"'] + r1);
    lemma_read_escaped(m.0@, r1);
    assert(r1.drop_first() =~= json_text(m.1) + after);
    lemma_read_value(m.1, after);
    if members.len() == 1 {
        assert(after.drop_first() =~= rest);
        assert(canon_members(members) =~= seq![(m.0@, canon(m.1))]);
    } else {
        let tail = members.drop_first();
        assert(after.drop_first() =~= members_text(tail) + seq!['}'] + rest);
        lemma_read_members(tail, rest);
        assert(canon_members(members) =~= seq![(m.0@, canon(m.1))] + canon_members(tail));
    }
}

/// The JSON text written for a value reads back, as a whole document, as
/// that same value: `null` as null, `true` and `false` as themselves, each
/// string with its characters, each number with its text, each array with
/// its items and each object with its members, in order (a number whose
/// text is no JSON number reads as null).
pub proof fn lemma_json_text_reads_back(v: JsonValue)
    ensures
        read_json(json_text(v)) == Some(canon(v)),
{
    lemma_read_value(v, Seq::empty());
    assert(json_text(v) + Seq::<char>::empty() =~= json_text(v));
}

// ---------------------------------------------------------------------------
// The writer
// ---------------------------------------------------------------------------

/// Escaping a string with one more character escapes that character last.
proof fn lemma_escaped_push(a: Seq<char>, c: char)
    ensures
        escaped(a.push(c)) == escaped(a) + escape_char(c),
    decreases a.len(),
{
    if a.len() == 0 {
        assert(a.push(c).drop_first() =~= Seq::<char>::empty());
        assert(a.push(c)[0] == c);
        assert(escaped(Seq::<char>::empty()) =~= Seq::<char>::empty());
        assert(escaped(a) =~= Seq::<char>::empty());
        assert(escaped(a.push(c)) =~= escape_char(c));
    } else {
        assert(a.push(c).drop_first() =~= a.drop_first().push(c));
        lemma_escaped_push(a.drop_first(), c);
        assert(escaped(a.push(c)) =~= escaped(a) + escape_char(c));
    }
}

/// The items' text with one more item ends with that item's text.
proof fn lemma_items_push(a: Seq<JsonValue>, x: JsonValue)
    ensures
        items_text(a.push(x)) == if a.len() == 0 { json_text(x) } else { items_text(a) + seq![','] + json_text(x) },
    decreases a.len(),
{
    if a.len() == 0 {
        assert(a.push(x)[0] == x);
    } else {
        assert(a.push(x)[0] == a[0]);
        assert(a.push(x).drop_first() =~= a.drop_first().push(x));
        lemma_items_push(a.drop_first(), x);
        if a.len() == 1 {
            assert(a.drop_first().push(x)[0] == x);
        }
        assert(items_text(a.push(x)) =~= items_text(a) + seq![','] + json_text(x));
    }
}

/// The members' text with one more member ends with that member's text.
proof fn lemma_members_push(a: Seq<(String, JsonValue)>, x: (String, JsonValue))
    ensures
        members_text(a.push(x)) == if a.len() == 0 { member_text(x) } else { members_text(a) + seq![','] + member_text(x) },
    decreases a.len(),
{
    if a.len() == 0 {
        assert(a.push(x)[0] == x);
    } else {
        assert(a.push(x)[0] == a[0]);
        assert(a.push(x).drop_first() =~= a.drop_first().push(x));
        lemma_members_push(a.drop_first(), x);
        if a.len() == 1 {
            assert(a.drop_first().push(x)[0] == x);
        }
        assert(members_text(a.push(x)) =~= members_text(a) + seq![','] + member_text(x));
    }
}

/// The state the number automaton reaches from `st` on `c`, 9 where it stops.
fn number_state(st: u8, c: char) -> (r: u8)
    requires
        st <= 9,
    ensures
        r == if st == 9 { 9 } else {
            match number_step(st as nat, c) { Some(t) => t as u8, None => 9u8 }
        },
{
    let digit = '0' <= c && c <= '9';
    let exp = c == 'e' || c == 'E';
    if st == 0 {
        if c == '-' { 1 } else if c == '0' { 2 } else if digit { 3 } else { 9 }
    } else if st == 1 {
        if c == '0' { 2 } else if digit { 3 } else { 9 }
    } else if st == 2 {
        if c == '.' { 4 } else if exp { 6 } else { 9 }
    } else if st == 3 {
        if digit { 3 } else if c == '.' { 4 } else if exp { 6 } else { 9 }
    } else if st == 4 {
        if digit { 5 } else { 9 }
    } else if st == 5 {
        if digit { 5 } else if exp { 6 } else { 9 }
    } else if st == 6 {
        if c == '+' || c == '-' { 7 } else if digit { 8 } else { 9 }
    } else if st == 7 {
        if digit { 8 } else { 9 }
    } else if st == 8 {
        if digit { 8 } else { 9 }
    } else {
        9
    }
}

/// Whether `n` is a number as JSON writes one.
pub fn is_json_number(n: &str) -> (r: bool)
    ensures
        r == json_number(n@),
{
    let c = chars_of(n);
    let mut st: u8 = 0;
    let mut i: usize = 0;
    assert(c@.subrange(0, 0) =~= Seq::<char>::empty());
    while i < c.len()
        invariant
            i <= c@.len(),
            c@ == n@,
            st <= 9,
            st == match number_run(c@.subrange(0, i as int)) { Some(t) => t as u8, None => 9u8 },
            number_run(c@.subrange(0, i as int)) matches Some(t) ==> t <= 8,
        decreases c.len() - i,
    {
        let ghost pre = c@.subrange(0, i as int);
        assert(c@.subrange(0, i + 1).drop_last() =~= pre);
        assert(c@.subrange(0, i + 1).last() == c@[i as int]);
        st = number_state(st, c[i]);
        i = i + 1;
    }
    assert(c@.subrange(0, c@.len() as int) =~= n@);
    st == 2 || st == 3 || st == 5 || st == 8
}

/// Appends the characters of `s`.
fn push_str(out: &mut Vec<char>, s: &str)
    ensures
        final(out)@ == old(out)@ + s@,
{
    let c = chars_of(s);
    let mut i: usize = 0;
    while i < c.len()
        invariant
            i <= c@.len(),
            c@ == s@,
            out@ == old(out)@ + c@.subrange(0, i as int),
        decreases c.len() - i,
    {
        out.push(c[i]);
        assert(old(out)@ + c@.subrange(0, i + 1) =~= old(out)@ + c@.subrange(0, i as int) + seq![c@[i as int]]);
        i = i + 1;
    }
    assert(c@.subrange(0, c@.len() as int) =~= s@);
}

/// Appends the characters of `x`, escaped.
fn push_escaped(out: &mut Vec<char>, x: &str)
    ensures
        final(out)@ == old(out)@ + escaped(x@),
{
    let c = chars_of(x);
    let hex = chars_of("0123456789abcdef");
    proof { reveal_strlit("0123456789abcdef"); }
    assert(hex@.len() == 16);
    let mut i: usize = 0;
    assert(c@.subrange(0, 0) =~= Seq::<char>::empty());
    while i < c.len()
        invariant
            i <= c@.len(),
            c@ == x@,
            hex@ == hex_digits(),
            hex@.len() == 16,
            out@ == old(out)@ + escaped(c@.subrange(0, i as int)),
        decreases c.len() - i,
    {
        let ch = c[i];
        let ghost before = out@;
        if ch == '"' {
            out.push('\\');
            out.push('"');
        } else if ch == '\\' {
            out.push('\\');
            out.push('\\');
        } else if (ch as u32) < 32 {
            out.push('\\');
            out.push('u');
            out.push('0');
            out.push('0');
            out.push(hex[((ch as u32) / 16) as usize]);
            out.push(hex[((ch as u32) % 16) as usize]);
        } else {
            out.push(ch);
        }
        assert(out@ =~= before + escape_char(ch));
        assert(c@.subrange(0, i + 1) =~= c@.subrange(0, i as int).push(ch));
        proof { lemma_escaped_push(c@.subrange(0, i as int), ch); }
        i = i + 1;
    }
    assert(c@.subrange(0, c@.len() as int) =~= x@);
}

/// Appends the JSON text of `v`.
fn push_json(out: &mut Vec<char>, v: &JsonValue)
    ensures
        final(out)@ == old(out)@ + json_text(*v),
    decreases v,
{
    proof {
        reveal_strlit("null");
        reveal_strlit("true");
        reveal_strlit("false");
    }
    match v {
        JsonValue::Null => push_str(out, "null"),
        JsonValue::Bool(b) => if *b { push_str(out, "true") } else { push_str(out, "false") },
        JsonValue::Number(n) => if is_json_number(n.as_str()) { push_str(out, n.as_str()) } else { push_str(out, "null") },
        JsonValue::String(x) => {
            out.push('"');
            push_escaped(out, x.as_str());
            out.push('"');
            assert(out@ =~= old(out)@ + quoted(x@));
        },
        JsonValue::Array(items) => {
            out.push('[');
            let ghost start = out@;
            let mut i: usize = 0;
            assert(items@.subrange(0, 0) =~= Seq::<JsonValue>::empty());
            while i < items.len()
                invariant
                    i <= items@.len(),
                    *v == JsonValue::Array(*items),
                    out@ == start + items_text(items@.subrange(0, i as int)),
                decreases items.len() - i,
            {
                proof {
                    assert(decreases_to!(*v => (*v)->Array_0));
                    assert(decreases_to!(*items => items@));
                    assert(decreases_to!(items@ => items@[i as int]));
                }
                let ghost before = out@;
                if i > 0 {
                    out.push(',');
                }
                push_json(out, &items[i]);
                proof {
                    let a = items@.subrange(0, i as int);
                    assert(items@.subrange(0, i + 1) =~= a.push(items@[i as int]));
                    lemma_items_push(a, items@[i as int]);
                }
                assert(out@ =~= start + items_text(items@.subrange(0, i + 1)));
                i = i + 1;
            }
            out.push(']');
            assert(items@.subrange(0, items@.len() as int) =~= items@);
            assert(out@ =~= old(out)@ + json_text(*v));
        },
        JsonValue::Object(members) => {
            out.push('{');
            let ghost start = out@;
            let mut i: usize = 0;
            assert(members@.subrange(0, 0) =~= Seq::<(String, JsonValue)>::empty());
            while i < members.len()
                invariant
                    i <= members@.len(),
                    *v == JsonValue::Object(*members),
                    out@ == start + members_text(members@.subrange(0, i as int)),
                decreases members.len() - i,
            {
                proof {
                    assert(decreases_to!(*v => (*v)->Object_0));
                    assert(decreases_to!(*members => members@));
                    assert(decreases_to!(members@ => members@[i as int]));
                    assert(decreases_to!(members@[i as int] => members@[i as int].1));
                }
                let ghost before = out@;
                if i > 0 {
                    out.push(',');
                }
                let ghost mid = out@;
                out.push('"');
                push_escaped(out, members[i].0.as_str());
                out.push('"');
                out.push(':');
                push_json(out, &members[i].1);
                proof {
                    let a = members@.subrange(0, i as int);
                    let m = members@[i as int];
                    assert(out@ =~= mid + member_text(m));
                    assert(members@.subrange(0, i + 1) =~= a.push(m));
                    lemma_members_push(a, m);
                }
                assert(out@ =~= start + members_text(members@.subrange(0, i + 1)));
                i = i + 1;
            }
            out.push('}');
            assert(members@.subrange(0, members@.len() as int) =~= members@);
            assert(out@ =~= old(out)@ + json_text(*v));
        },
    }
}

/// The JSON text of a value, without spaces.
pub fn to_json_text(v: &JsonValue) -> (r: String)
    ensures
        r@ == json_text(*v),
{
    let mut out: Vec<char> = Vec::new();
    push_json(&mut out, v);
    assert(out@ =~= json_text(*v));
    string_of(out.as_slice())
}

} // verus!
