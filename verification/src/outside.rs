//! Everything that the library takes from std and from other crates without a proof, each with
//! the contract that the rest of the library relies on.
use base64::Engine;
use std::time::{Duration, SystemTime, SystemTimeError};
use vstd::prelude::*;

verus! {

// ---------------------------------------------------------------------------
// Strings
// ---------------------------------------------------------------------------

/// `String::push` of std: the character is appended at the end of the string.
pub assume_specification[ String::push ](s: &mut String, ch: char)
    ensures
        final(s)@ == old(s)@.push(ch),
;

/// What `String::from_utf8_lossy` makes of a run of bytes.
pub uninterp spec fn utf8_lossy(bytes: Seq<u8>) -> Seq<char>;

/// `String::from_utf8_lossy` of std, as an owned string. The text is a function of the bytes
/// alone, and what is valid UTF-8 comes out as the text that it encodes; how malformed sequences are
/// replaced is not spelled out.
#[verifier::external_body]
pub(crate) fn lossy_text(bytes: &[u8]) -> (r: String)
    ensures
        r@ == utf8_lossy(bytes@),
        vstd::utf8::valid_utf8(bytes@) ==> r@ == vstd::utf8::decode_utf8(bytes@),
{
    String::from_utf8_lossy(bytes).into_owned()
}

// ---------------------------------------------------------------------------
// JSON
// ---------------------------------------------------------------------------

/// A hexadecimal digit, in lower case.
pub open spec fn hex_digit(n: int) -> char {
    if n < 10 {
        (48 + n) as char
    } else {
        (87 + n) as char
    }
}

/// A character as `serde_json` writes it in a string: quotes, backslashes and control characters are
/// escaped, everything else stands for itself.
pub open spec fn escaped(c: char) -> Seq<char> {
    if c == '"' {
        seq!['\\', '"']
    } else if c == '\\' {
        seq!['\\', '\\']
    } else if c == '\u{8}' {
        seq!['\\', 'b']
    } else if c == '\t' {
        seq!['\\', 't']
    } else if c == '\n' {
        seq!['\\', 'n']
    } else if c == '\u{c}' {
        seq!['\\', 'f']
    } else if c == '\r' {
        seq!['\\', 'r']
    } else if ' ' > c {
        seq!['\\', 'u', '0', '0', hex_digit(c as int / 16), hex_digit(c as int % 16)]
    } else {
        seq![c]
    }
}

/// Characters as `serde_json` writes them in a string, one after the other.
pub open spec fn all_escaped(s: Seq<char>) -> Seq<char>
    decreases s.len(),
{
    if s.len() == 0 {
        Seq::empty()
    } else {
        all_escaped(s.drop_last()) + escaped(s.last())
    }
}

/// A text as `serde_json` writes it in a JSON document: escaped and between quotes.
pub open spec fn json_string(s: Seq<char>) -> Seq<char> {
    seq!['"'] + all_escaped(s) + seq!['"']
}

/// The compact form of a `serde_json::Value` that holds one string: the string escaped and between
/// quotes.
#[verifier::external_body]
pub(crate) fn quoted(s: &str) -> (r: String)
    ensures
        r@ == json_string(s@),
{
    serde_json::Value::from(s).to_string()
}

/// A member of a JSON document: its own compact text and, where it is a string, what it says.
pub struct Member {
    pub json: String,
    pub text: Option<String>,
}

impl Member {
    pub open spec fn view(&self) -> (Seq<char>, Option<Seq<char>>) {
        (
            self.json@,
            match self.text {
                Some(t) => Some(t@),
                None => None,
            },
        )
    }
}

/// What a lookup in a JSON document gave, over texts: the member, nothing, or why the document
/// could not be read.
pub open spec fn member_view(r: Result<Option<Member>, String>) -> Result<
    Option<(Seq<char>, Option<Seq<char>>)>,
    Seq<char>,
> {
    match r {
        Ok(Some(m)) => Ok(Some(m.view())),
        Ok(None) => Ok(None),
        Err(e) => Err(e@),
    }
}

/// What `serde_json` finds under a key of a JSON document.
pub uninterp spec fn document_member(document: Seq<u8>, key: Seq<char>) -> Result<
    Option<(Seq<char>, Option<Seq<char>>)>,
    Seq<char>,
>;

/// `serde_json::from_slice` into a `serde_json::Value`, then `Value::get`. The member comes out as
/// its compact text and, by `Value::as_str`, as a string where it is one; the error as its text.
/// All of it is a function of the document and the key. In an object of texts as [`quoted`] writes them,
/// of decimal numbers, truth values, nulls and objects of one text, under plain names of which no two are
/// alike, each is found as it was written.
#[verifier::external_body]
pub(crate) fn member(document: &[u8], key: &str) -> (r: Result<Option<Member>, String>)
    ensures
        member_view(r) == document_member(document@, key@),
        crate::json::as_written(document@, key@, member_view(r)),
{
    match serde_json::from_slice::<serde_json::Value>(document) {
        Ok(value) => Ok(
            value.get(key).map(
                |m| Member { json: m.to_string(), text: m.as_str().map(|t| t.to_string()) },
            ),
        ),
        Err(e) => Err(e.to_string()),
    }
}

// ---------------------------------------------------------------------------
// Base64
// ---------------------------------------------------------------------------

/// The bytes that a text denotes in the standard padded base64 alphabet, or nothing where it is
/// not such a text.
pub uninterp spec fn base64_bytes(text: Seq<char>) -> Option<Seq<u8>>;

/// `decode` of the `base64` crate with its `STANDARD` engine. Whether it succeeds, and the bytes, are
/// a function of the text; the decoding is not spelled out.
#[verifier::external_body]
pub(crate) fn base64_decode(text: &str) -> (r: Option<Vec<u8>>)
    ensures
        match r {
            Some(bytes) => base64_bytes(text@) == Some(bytes@),
            None => base64_bytes(text@) is None,
        },
{
    base64::engine::general_purpose::STANDARD.decode(text.as_bytes()).ok()
}

// ---------------------------------------------------------------------------
// HTTP status codes
// ---------------------------------------------------------------------------

/// The canonical reason phrase of an HTTP status code, where it has one.
pub uninterp spec fn canonical_reason(code: u16) -> Option<Seq<char>>;

/// `StatusCode::canonical_reason` of `reqwest`, and nothing for a number that is no status code. It is
/// a function of the code; the table of phrases is not spelled out.
#[verifier::external_body]
pub(crate) fn reason_phrase(code: u16) -> (r: Option<String>)
    ensures
        match r {
            Some(phrase) => canonical_reason(code) == Some(phrase@),
            None => canonical_reason(code) is None,
        },
{
    let status = reqwest::StatusCode::from_u16(code).ok()?;
    status.canonical_reason().map(|phrase| phrase.to_string())
}

// ---------------------------------------------------------------------------
// Identifiers
// ---------------------------------------------------------------------------

/// Whether a character is a lower-case hexadecimal digit.
pub open spec fn is_hex(c: char) -> bool {
    '0' <= c <= '9' || 'a' <= c <= 'f'
}

/// Whether a text has the form of a random (version 4) UUID without its hyphens.
pub open spec fn is_simple_uuid(s: Seq<char>) -> bool {
    &&& s.len() == 32
    &&& forall|i: int| 0 <= i < 32 ==> is_hex(#[trigger] s[i])
    &&& s[12] == '4'
    &&& (s[16] == '8' || s[16] == '9' || s[16] == 'a' || s[16] == 'b')
}

/// `Uuid::new_v4` of the `uuid` crate in its `simple` form: 32 lower-case hexadecimal digits with the
/// version and variant of a random UUID in their places. The rest is up to chance.
#[verifier::external_body]
pub(crate) fn random_uuid() -> (r: String)
    ensures
        is_simple_uuid(r@),
{
    uuid::Uuid::new_v4().simple().to_string()
}

// ---------------------------------------------------------------------------
// Time
// ---------------------------------------------------------------------------

/// `std::time::SystemTime`, carried and not looked into.
#[verifier::external_type_specification]
#[verifier::external_body]
pub struct ExSystemTime(SystemTime);

/// `std::time::SystemTimeError`, carried and not looked into.
#[verifier::external_type_specification]
#[verifier::external_body]
pub struct ExSystemTimeError(SystemTimeError);

/// `SystemTime::now` of std: the moment of the call, of which nothing can be promised.
pub assume_specification[ SystemTime::now ]() -> SystemTime
;

/// `SystemTime::duration_since` of std. What it gives depends on the clock: nothing is promised.
pub assume_specification[ SystemTime::duration_since ](
    later: &SystemTime,
    earlier: SystemTime,
) -> Result<Duration, SystemTimeError>
;

/// `std::time::UNIX_EPOCH`, the start of the Unix clock.
#[verifier::external_body]
pub(crate) fn unix_epoch() -> SystemTime {
    std::time::UNIX_EPOCH
}

/// `Duration::as_secs` of std: the whole seconds of a duration.
pub assume_specification[ Duration::as_secs ](d: &Duration) -> u64
;

} // verus!
