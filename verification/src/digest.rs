//! Digests and JSON text.

use vstd::prelude::*;
use vstd::utf8::*;

use crate::text::{hex_char, hex_digits, hex_text, lemma_hex_digits_len};

verus! {

/// The SHA-256 digest of `bytes`, as `sha2::Sha256::digest` computes it.
pub uninterp spec fn sha256(bytes: Seq<u8>) -> Seq<u8>;

/// The compact JSON text of member `field` of the object that `json` holds,
/// as `serde_json` reads and writes it; nothing where `json` is no JSON
/// object or has no such member.
pub uninterp spec fn json_member(json: Seq<u8>, field: Seq<char>) -> Option<Seq<u8>>;

/// The text in member `field` of the object that `json` holds, as
/// `serde_json` reads it; nothing where there is no such member or it is no
/// string.
pub uninterp spec fn json_text_member(json: Seq<u8>, field: Seq<char>) -> Option<Seq<char>>;

/// The compact form of the JSON text `json`, as `serde_json` reads and
/// writes it; nothing where `json` is not JSON.
pub uninterp spec fn json_compact(json: Seq<u8>) -> Option<Seq<u8>>;

/// What `String::from_utf8_lossy` makes of `bytes`.
pub uninterp spec fn lossy_text(bytes: Seq<u8>) -> Seq<char>;

/// Calls `sha2::Sha256::digest`; a digest is 32 bytes long.
#[verifier::external_body]
pub(crate) fn sha256_digest(bytes: &[u8]) -> (r: Vec<u8>)
    ensures
        r@ == sha256(bytes@),
        r@.len() == 32,
{
    <sha2::Sha256 as sha2::Digest>::digest(bytes).to_vec()
}

/// Calls `hex::encode`: two lower-case hexadecimal digits for each byte.
#[verifier::external_body]
pub(crate) fn hex_encode(bytes: &[u8]) -> (r: String)
    ensures
        r@ == hex_text(bytes@),
{
    hex::encode(bytes)
}

/// Calls `serde_json::from_slice` and `Value::get`, and hands the member back
/// as the text that `serde_json::to_vec` writes.
#[verifier::external_body]
pub(crate) fn read_json_member(json: &[u8], field: &str) -> (r: Option<Vec<u8>>)
    ensures
        r is Some <==> json_member(json@, field@) is Some,
        r matches Some(text) ==> text@ == json_member(json@, field@)->0,
{
    let value: serde_json::Value = serde_json::from_slice(json).ok()?;
    serde_json::to_vec(value.get(field)?).ok()
}

/// Calls `serde_json::from_slice`, `Value::get` and `Value::as_str`.
#[verifier::external_body]
pub(crate) fn read_json_text_member(json: &[u8], field: &str) -> (r: Option<String>)
    ensures
        r is Some <==> json_text_member(json@, field@) is Some,
        r matches Some(text) ==> text@ == json_text_member(json@, field@)->0,
{
    let value: serde_json::Value = serde_json::from_slice(json).ok()?;
    value.get(field)?.as_str().map(|text| text.to_string())
}

/// Calls `serde_json::from_slice` and `serde_json::to_vec`.
#[verifier::external_body]
pub(crate) fn compact_json(json: &[u8]) -> (r: Option<Vec<u8>>)
    ensures
        r is Some <==> json_compact(json@) is Some,
        r matches Some(text) ==> text@ == json_compact(json@)->0,
{
    let value: serde_json::Value = serde_json::from_slice(json).ok()?;
    serde_json::to_vec(&value).ok()
}

/// Calls `String::from_utf8_lossy`, which keeps valid UTF-8 as it is.
#[verifier::external_body]
pub(crate) fn utf8_lossy(bytes: &[u8]) -> (r: String)
    ensures
        r@ == lossy_text(bytes@),
        valid_utf8(bytes@) ==> r@ == decode_utf8(bytes@),
{
    String::from_utf8_lossy(bytes).into_owned()
}

/// How one character stands inside a JSON string.
pub open spec fn json_char(c: char) -> Seq<char> {
    if c == '"' {
        seq!['\\', '"']
    } else if c == '\\' {
        seq!['\\', '\\']
    } else if c as u32 == 8 {
        seq!['\\', 'b']
    } else if c as u32 == 9 {
        seq!['\\', 't']
    } else if c as u32 == 10 {
        seq!['\\', 'n']
    } else if c as u32 == 12 {
        seq!['\\', 'f']
    } else if c as u32 == 13 {
        seq!['\\', 'r']
    } else if (c as u32) < 32 {
        seq!['\\', 'u'] + hex_digits(c as nat, 4)
    } else {
        seq![c]
    }
}

/// The characters of `text` as they stand inside a JSON string.
pub open spec fn json_chars(text: Seq<char>) -> Seq<char>
    decreases text.len(),
{
    if text.len() == 0 {
        Seq::empty()
    } else {
        json_chars(text.drop_last()) + json_char(text.last())
    }
}

/// `text` as a JSON string, with its quotes.
pub open spec fn json_string(text: Seq<char>) -> Seq<char> {
    seq!['"'] + json_chars(text) + seq!['"']
}

/// Calls `serde_json::to_string` on a text: quotes around it, `"`, `\` and
/// the characters below U+0020 escaped, every other character as it is.
#[verifier::external_body]
pub(crate) fn json_quote(text: &str) -> (r: String)
    ensures
        r@ == json_string(text@),
{
    serde_json::to_string(text).expect("a text always serializes")
}

proof fn lemma_json_chars_front(text: Seq<char>)
    requires
        text.len() > 0,
    ensures
        json_chars(text) == json_char(text[0]) + json_chars(text.drop_first()),
    decreases text.len(),
{
    if text.len() == 1 {
        assert(text.drop_last() =~= Seq::<char>::empty());
        assert(text.drop_first() =~= Seq::<char>::empty());
        assert(json_chars(text) =~= json_char(text[0]) + json_chars(text.drop_first()));
    } else {
        let front = text.drop_last();
        lemma_json_chars_front(front);
        let rest = text.drop_first();
        assert(front.drop_first() =~= rest.drop_last());
        assert(rest.last() == text.last());
        assert(json_chars(text) =~= json_char(text[0]) + json_chars(rest));
    }
}

proof fn lemma_json_control(c: char, d: char)
    requires
        (c as u32) < 32,
        (d as u32) < 32,
        hex_digits(c as nat, 4) == hex_digits(d as nat, 4),
    ensures
        c == d,
{
    reveal_with_fuel(hex_digits, 5);
    let x = hex_digits(c as nat, 4);
    let y = hex_digits(d as nat, 4);
    assert(x[3] == hex_char(c as nat % 16));
    assert(y[3] == hex_char(d as nat % 16));
    assert(x[2] == hex_char((c as nat / 16) % 16));
    assert(y[2] == hex_char((d as nat / 16) % 16));
}

/// The escapes of a JSON string can be told apart from their beginnings.
proof fn lemma_json_char_prefix(c: char, d: char, x: Seq<char>, y: Seq<char>)
    requires
        json_char(c) + x == json_char(d) + y,
    ensures
        c == d,
        x == y,
{
    let s = json_char(c) + x;
    let t = json_char(d) + y;
    lemma_hex_digits_len(c as nat, 4);
    lemma_hex_digits_len(d as nat, 4);
    assert(s[0] == json_char(c)[0]);
    assert(t[0] == json_char(d)[0]);
    if s[0] == '\\' {
        assert(s[1] == json_char(c)[1]);
        assert(t[1] == json_char(d)[1]);
        if s[1] == 'u' {
            let p = seq!['\\', 'u'];
            assert(json_char(c) == p + hex_digits(c as nat, 4));
            assert(json_char(d) == p + hex_digits(d as nat, 4));
            assert(hex_digits(c as nat, 4) =~= s.subrange(2, 6));
            assert(hex_digits(d as nat, 4) =~= t.subrange(2, 6));
            lemma_json_control(c, d);
        }
    }
    assert(c == d);
    let n = json_char(c).len() as int;
    assert(x =~= s.subrange(n, s.len() as int));
    assert(y =~= t.subrange(n, t.len() as int));
}

/// A JSON string tells where it ends: whatever follows, two texts that read
/// the same were the same text with the same remainder.
pub proof fn json_strings_delimit_themselves(a: Seq<char>, b: Seq<char>, x: Seq<char>, y: Seq<char>)
    requires
        json_string(a) + x == json_string(b) + y,
    ensures
        a == b,
        x == y,
{
    let s = json_string(a) + x;
    let t = json_string(b) + y;
    let p = json_chars(a) + (seq!['"'] + x);
    let q = json_chars(b) + (seq!['"'] + y);
    assert(p =~= s.drop_first());
    assert(q =~= t.drop_first());
    lemma_json_body(a, b, x, y);
}

proof fn lemma_json_body(a: Seq<char>, b: Seq<char>, x: Seq<char>, y: Seq<char>)
    requires
        json_chars(a) + (seq!['"'] + x) == json_chars(b) + (seq!['"'] + y),
    ensures
        a == b,
        x == y,
    decreases a.len(),
{
    let p = json_chars(a) + (seq!['"'] + x);
    let q = json_chars(b) + (seq!['"'] + y);
    if a.len() > 0 {
        lemma_json_chars_front(a);
        assert(p =~= json_char(a[0]) + (json_chars(a.drop_first()) + (seq!['"'] + x)));
        assert(p[0] == json_char(a[0])[0]);
    } else {
        assert(p =~= seq!['"'] + x);
        assert(p[0] == '"');
    }
    if b.len() > 0 {
        lemma_json_chars_front(b);
        assert(q =~= json_char(b[0]) + (json_chars(b.drop_first()) + (seq!['"'] + y)));
        assert(q[0] == json_char(b[0])[0]);
    } else {
        assert(q =~= seq!['"'] + y);
        assert(q[0] == '"');
    }
    if a.len() > 0 && b.len() > 0 {
        let rest_a = json_chars(a.drop_first()) + (seq!['"'] + x);
        let rest_b = json_chars(b.drop_first()) + (seq!['"'] + y);
        lemma_json_char_prefix(a[0], b[0], rest_a, rest_b);
        lemma_json_body(a.drop_first(), b.drop_first(), x, y);
        assert(a =~= seq![a[0]] + a.drop_first());
        assert(b =~= seq![b[0]] + b.drop_first());
    } else {
        assert(a.len() == 0 && b.len() == 0);
        assert(a =~= b);
        assert(x =~= p.drop_first());
        assert(y =~= q.drop_first());
    }
}

}
