//! Object keys and extensions: what an upload is stored under, and what a
//! retrieval reads back from the key.
use vstd::prelude::*;
use vstd::string::*;
use crate::text::{is_last_dot, lemma_last_dot_unique, last_dot, last_segment, last_segment_of, str_eq};

verus! {

/// Length of the hex prefix of the digest that names an object.
pub const KEY_ID_LEN: usize = 10;

/// The character view of an optional string.
pub open spec fn opt_chars(o: Option<&str>) -> Option<Seq<char>> {
    match o {
        Some(s) => Some(s@),
        None => None,
    }
}

/// The character view of an optional owned string.
pub open spec fn opt_string_chars(o: Option<String>) -> Option<Seq<char>> {
    match o {
        Some(s) => Some(s@),
        None => None,
    }
}

/// A filename hint that stands for "a screenshot": stored as `png`, with no
/// filename kept.
pub open spec fn is_screenshot_hint(s: Seq<char>) -> bool {
    s == ">sc"@
}

/// A filename hint that stands for "a text snippet": stored as `txt`, with no
/// filename kept.
pub open spec fn is_text_hint(s: Seq<char>) -> bool {
    s == ">txt"@
}

/// The extension appended to a new key, from the client's filename hint.
/// No hint means `txt`; a hint without a dot means no extension; otherwise
/// the text after the last dot, where the two reserved hints map to `png`
/// and `txt`.
pub open spec fn format_of(hint: Option<Seq<char>>) -> Seq<char> {
    match hint {
        None => "txt"@,
        Some(h) => {
            let seg = last_segment(h);
            if is_screenshot_hint(seg) {
                "png"@
            } else if is_text_hint(seg) {
                "txt"@
            } else if h.contains('.') {
                seg
            } else {
                Seq::empty()
            }
        },
    }
}

/// The filename kept as the object's `filename` tag: the hint verbatim,
/// unless there is none or it is one of the reserved hints.
pub open spec fn filename_of(hint: Option<Seq<char>>) -> Option<Seq<char>> {
    match hint {
        None => None,
        Some(h) => if is_screenshot_hint(h) || is_text_hint(h) {
            None
        } else {
            Some(h)
        },
    }
}

/// The extension read back from a key: the text after its last dot, or
/// nothing when it has no dot or its only dot leads the key.
pub open spec fn extension_of(key: Seq<char>) -> Seq<char> {
    if key.contains('.') && !is_last_dot(key, 0) {
        last_segment(key)
    } else {
        Seq::empty()
    }
}

/// The key made of a hex digest and a format: the digest's first ten
/// characters, then `.` and the format when the format is not empty.
pub open spec fn key_of(digest: Seq<char>, format: Seq<char>) -> Seq<char> {
    let id = digest.take(KEY_ID_LEN as int);
    if format.len() == 0 {
        id
    } else {
        id + "."@ + format
    }
}

/// What `sha1_smol` prints for the SHA-1 digest of `data`.
pub uninterp spec fn sha1_hex_of(data: Seq<u8>) -> Seq<char>;

/// Relies on `sha1_smol::Sha1::{new, update, digest}` and the `Display` of
/// `Digest`, which writes the five state words as `{:08x}`: forty hex digits.
#[verifier::external_body]
fn sha1_hex(data: &[u8]) -> (r: String)
    ensures
        r@ == sha1_hex_of(data@),
        r@.len() == 40,
{
    let mut hasher = sha1_smol::Sha1::new();
    hasher.update(data);
    hasher.digest().to_string()
}

/// Relies on `chrono::Local::now` and the `Display` of `DateTime`: the local
/// wall-clock time as text. Nothing is known of its value.
#[verifier::external_body]
pub(crate) fn local_timestamp() -> (r: String) {
    chrono::Local::now().to_string()
}

/// Resolves the extension of a new key from the filename hint.
pub fn resolve_format(hint: Option<&str>) -> (r: String)
    ensures
        r@ == format_of(opt_chars(hint)),
{
    match hint {
        None => "txt".to_owned(),
        Some(h) => {
            let seg = last_segment_of(h);
            if str_eq(seg, ">sc") {
                "png".to_owned()
            } else if str_eq(seg, ">txt") {
                "txt".to_owned()
            } else {
                match last_dot(h) {
                    Some(_) => seg.to_owned(),
                    None => String::new(),
                }
            }
        },
    }
}

/// Resolves the filename to keep as the object's tag from the hint.
pub fn resolve_filename(hint: Option<&str>) -> (r: Option<String>)
    ensures
        opt_string_chars(r) == filename_of(opt_chars(hint)),
{
    match hint {
        None => None,
        Some(h) => if str_eq(h, ">sc") || str_eq(h, ">txt") {
            None
        } else {
            Some(h.to_owned())
        },
    }
}

/// The extension of a stored key, which selects its content type.
pub fn key_extension(key: &str) -> (r: &str)
    ensures
        r@ == extension_of(key@),
{
    proof {
        reveal_strlit("");
    }
    match last_dot(key) {
        Some(i) => if i == 0 {
            ""
        } else {
            proof {
                if is_last_dot(key@, 0) {
                    lemma_last_dot_unique(key@, 0, i as int);
                }
            }
            last_segment_of(key)
        },
        None => "",
    }
}

/// Builds the key from a hex digest and a format.
pub fn key_from_digest(digest: &str, format: &str) -> (r: String)
    requires
        digest@.len() >= KEY_ID_LEN,
    ensures
        r@ == key_of(digest@, format@),
{
    let mut r = digest.substring_char(0, KEY_ID_LEN).to_owned();
    if format.unicode_len() > 0 {
        r.append(".");
        r.append(format);
    }
    r
}

/// The key for an upload made at the time written as `stamp`: the digest of
/// the stamp's bytes, shortened, with the format appended.
pub fn key_for_stamp(stamp: &str, format: &str) -> (r: String)
    ensures
        r@ == key_of(sha1_hex_of(stamp.spec_bytes()), format@),
{
    let digest = sha1_hex(stamp.as_bytes());
    key_from_digest(digest.as_str(), format)
}

/// A new key for an upload made now.
pub fn fresh_key(format: &str) -> (r: String)
    ensures
        exists|stamp: Seq<u8>| r@ == key_of(sha1_hex_of(stamp), format@),
{
    let stamp = local_timestamp();
    key_for_stamp(stamp.as_str(), format)
}

} // verus!
