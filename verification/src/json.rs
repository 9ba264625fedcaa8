//! JSON text: string literals and the values read back from JSON text.

use vstd::prelude::*;

verus! {

/// A lowercase hexadecimal digit.
pub open spec fn hex_digit(n: nat) -> char {
    if n < 10 {
        (48 + n) as char
    } else {
        (87 + n) as char
    }
}

/// How serde_json writes one character inside a string: `"` and `\` and the
/// control characters with short escapes are escaped by a backslash, the
/// other control characters below U+0020 as `\u00xx`, everything else as it is.
pub open spec fn json_char_escape(c: char) -> Seq<char> {
    if c == '"' {
        seq!['\\', '"']
    } else if c == '\\' {
        seq!['\\', '\\']
    } else if c == '\u{8}' {
        seq!['\\', 'b']
    } else if c == '\t' {
        seq!['\\', 't']
    } else if c == '\n' {
        seq!['\\', 'n']
    } else if c == '\u{c}' {
        seq!['\\', 'f']
    } else if c == '\r' {
        seq!['\\', 'r']
    } else if (c as u32) < 32 {
        seq!['\\', 'u', '0', '0', hex_digit((c as u32 / 16) as nat), hex_digit((c as u32 % 16) as nat)]
    } else {
        seq![c]
    }
}

/// The escaped characters of a string.
pub open spec fn json_escaped(s: Seq<char>) -> Seq<char>
    decreases s.len(),
{
    if s.len() == 0 {
        Seq::empty()
    } else {
        json_escaped(s.drop_last()) + json_char_escape(s.last())
    }
}

/// The JSON text of a string value: quoted, with JSON escapes.
pub open spec fn json_string_literal(s: Seq<char>) -> Seq<char> {
    seq!['"'] + json_escaped(s) + seq!['"']
}

/// Writes a string as a JSON string literal.
///
/// Trusted: the `Display` of `serde_json::Value::String` (compact JSON, as
/// `serde_json::to_string` writes a string), which writes the string between
/// quotes, each character as serde_json's escape table gives it; that text
/// is stated as `json_string_literal` of the string.
#[verifier::external_body]
pub(crate) fn json_quote(s: &str) -> (r: String)
    ensures
        r@ == json_string_literal(s@),
{
    serde_json::Value::String(s.to_string()).to_string()
}

/// The string a JSON text denotes, when the text is a JSON string.
pub uninterp spec fn json_decoded_string(s: Seq<char>) -> Option<Seq<char>>;

/// Reads a JSON text as a string value.
///
/// Trusted: `serde_json::from_str::<String>`; it succeeds exactly on JSON
/// texts that denote a string, and its result is named `json_decoded_string`
/// of the text (`None` on failure).  Nothing else is claimed.
#[verifier::external_body]
pub(crate) fn decode_json_string(s: &str) -> (r: Option<String>)
    ensures
        r.deep_view() == json_decoded_string(s@),
{
    serde_json::from_str::<String>(s).ok()
}

/// The string value of a JSON text, or the empty string when the text is not
/// a JSON string.
pub open spec fn json_str_value(s: Seq<char>) -> Seq<char> {
    match json_decoded_string(s) {
        Some(t) => t,
        None => Seq::empty(),
    }
}

/// The string held by a JSON text, or `""` when it holds no string.
pub fn json_str(s: &str) -> (r: String)
    ensures
        r@ == json_str_value(s@),
{
    match decode_json_string(s) {
        Some(t) => t,
        None => String::new(),
    }
}

/// The records of a JSON array of objects whose values are all strings, each
/// record as its (key, value) pairs in ascending key order.
pub uninterp spec fn json_string_records(s: Seq<char>) -> Option<Seq<Seq<(Seq<char>, Seq<char>)>>>;

/// A key that JSON writes between quotes as it is: lowercase ASCII letters.
pub open spec fn plain_key(k: Seq<char>) -> bool {
    k.len() > 0 && forall|i: int| 0 <= i < k.len() ==> 'a' <= #[trigger] k[i] && k[i] <= 'z'
}

/// Whether `a` comes before `b` in the order of `String` (character by
/// character, a proper prefix first).
pub open spec fn key_less(a: Seq<char>, b: Seq<char>) -> bool
    decreases a.len(),
{
    if b.len() == 0 {
        false
    } else if a.len() == 0 {
        true
    } else if a[0] != b[0] {
        (a[0] as u32) < (b[0] as u32)
    } else {
        key_less(a.drop_first(), b.drop_first())
    }
}

/// A record whose keys are plain and strictly ascending, as a map sorted by
/// key gives them back.
pub open spec fn well_keyed(rec: Seq<(Seq<char>, Seq<char>)>) -> bool {
    &&& forall|i: int| 0 <= i < rec.len() ==> plain_key(#[trigger] rec[i].0)
    &&& forall|i: int, j: int| 0 <= i < j < rec.len() ==> key_less(#[trigger] rec[i].0, #[trigger] rec[j].0)
}

/// One member `"key":"value"` of a JSON object.
pub open spec fn member_text(p: (Seq<char>, Seq<char>)) -> Seq<char> {
    "\""@ + p.0 + "\":"@ + json_string_literal(p.1)
}

/// The members of a JSON object, separated by commas.
pub open spec fn members_text(rec: Seq<(Seq<char>, Seq<char>)>) -> Seq<char>
    decreases rec.len(),
{
    if rec.len() == 0 {
        Seq::empty()
    } else if rec.len() == 1 {
        member_text(rec[0])
    } else {
        members_text(rec.drop_last()) + ","@ + member_text(rec.last())
    }
}

/// A JSON object of string members.
pub open spec fn object_text(rec: Seq<(Seq<char>, Seq<char>)>) -> Seq<char> {
    "{"@ + members_text(rec) + "}"@
}

/// JSON objects separated by `,` and a line break.
pub open spec fn objects_text(recs: Seq<Seq<(Seq<char>, Seq<char>)>>) -> Seq<char>
    decreases recs.len(),
{
    if recs.len() == 0 {
        Seq::empty()
    } else if recs.len() == 1 {
        object_text(recs[0])
    } else {
        objects_text(recs.drop_last()) + ",\n"@ + object_text(recs.last())
    }
}

/// A JSON array of such objects, opened by `[` and a line break.
pub open spec fn records_array_text(recs: Seq<Seq<(Seq<char>, Seq<char>)>>) -> Seq<char> {
    "[\n"@ + objects_text(recs) + "]"@
}

/// Reads a JSON array of string-valued objects.
///
/// Trusted: `serde_json::from_str::<Vec<BTreeMap<String, String>>>`, each map
/// turned into its pairs; the result is named `json_string_records` of the
/// text (`None` where serde_json rejects it).  One fact is stated besides:
/// an array written as `records_array_text` writes it (string values written
/// by serde_json itself, plain keys in ascending order, whitespace between
/// tokens) reads back as those very records, since serde_json reads back
/// the strings it writes and a `BTreeMap` gives its keys in ascending order.
#[verifier::external_body]
pub(crate) fn parse_string_records(s: &str) -> (r: Option<Vec<Vec<(String, String)>>>)
    ensures
        r.deep_view() == json_string_records(s@),
        forall|recs: Seq<Seq<(Seq<char>, Seq<char>)>>|
            #[trigger] records_array_text(recs) == s@ && (forall|i: int|
                0 <= i < recs.len() ==> well_keyed(#[trigger] recs[i])) ==> r.deep_view() == Some(recs),
{
    serde_json::from_str::<Vec<std::collections::BTreeMap<String, String>>>(s)
        .ok()
        .map(|v| v.into_iter().map(|m| m.into_iter().collect()).collect())
}


/// A JSON object of two string members, written out.
pub proof fn lemma_object_text_2(k0: Seq<char>, v0: Seq<char>, k1: Seq<char>, v1: Seq<char>)
    ensures
        object_text(seq![(k0, v0), (k1, v1)]) == "{"@ + member_text((k0, v0)) + ","@ + member_text((k1, v1)) + "}"@,
{
    let r = seq![(k0, v0), (k1, v1)];
    assert(r.drop_last() =~= seq![(k0, v0)]);
    assert(members_text(r.drop_last()) == member_text((k0, v0)));
    assert(members_text(r) == member_text((k0, v0)) + ","@ + member_text((k1, v1)));
    assert(object_text(r) =~= "{"@ + member_text((k0, v0)) + ","@ + member_text((k1, v1)) + "}"@);
}

/// A JSON object of three string members, written out.
pub proof fn lemma_object_text_3(k0: Seq<char>, v0: Seq<char>, k1: Seq<char>, v1: Seq<char>, k2: Seq<char>, v2: Seq<char>)
    ensures
        object_text(seq![(k0, v0), (k1, v1), (k2, v2)]) == "{"@ + member_text((k0, v0)) + ","@ + member_text((k1, v1))
            + ","@ + member_text((k2, v2)) + "}"@,
{
    let r = seq![(k0, v0), (k1, v1), (k2, v2)];
    assert(r.drop_last() =~= seq![(k0, v0), (k1, v1)]);
    assert(r.drop_last().drop_last() =~= seq![(k0, v0)]);
    assert(members_text(r.drop_last().drop_last()) == member_text((k0, v0)));
    assert(members_text(r.drop_last()) == member_text((k0, v0)) + ","@ + member_text((k1, v1)));
    assert(members_text(r) == member_text((k0, v0)) + ","@ + member_text((k1, v1)) + ","@ + member_text((k2, v2)));
    assert(object_text(r) =~= "{"@ + member_text((k0, v0)) + ","@ + member_text((k1, v1)) + ","@ + member_text(
        (k2, v2),
    ) + "}"@);
}


/// A JSON object of one string member, written out.
pub proof fn lemma_object_text_1(k0: Seq<char>, v0: Seq<char>)
    ensures
        object_text(seq![(k0, v0)]) == "{"@ + member_text((k0, v0)) + "}"@,
{
    assert(members_text(seq![(k0, v0)]) == member_text((k0, v0)));
}

} // verus!
