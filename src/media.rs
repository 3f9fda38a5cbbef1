//! The content-type table: file extension to MIME type.
use vstd::prelude::*;
use crate::text::str_eq;

verus! {

/// The MIME type served for a key whose extension is `ext`; the empty
/// extension reads as plain text and an unknown one as a byte stream.
pub open spec fn mime_of(ext: Seq<char>) -> Seq<char> {
    if ext == "bmp"@ {
        "image/bmp"@
    } else if ext == "gif"@ {
        "image/gif"@
    } else if ext == "jpg"@ || ext == "jpeg"@ {
        "image/jpeg"@
    } else if ext == "png"@ {
        "image/png"@
    } else if ext == "svg"@ {
        "image/svg+xml"@
    } else if ext == "webp"@ {
        "image/webp"@
    } else if ext == "aac"@ {
        "audio/aac"@
    } else if ext == "mid"@ || ext == "midi"@ {
        "audio/midi"@
    } else if ext == "oga"@ || ext == "ogg"@ {
        "audio/ogg"@
    } else if ext == "wav"@ {
        "audio/wav"@
    } else if ext == "weba"@ {
        "audio/webm"@
    } else if ext == "mp4"@ {
        "video/mp4"@
    } else if ext == "mpeg"@ {
        "video/mpeg"@
    } else if ext == "ogv"@ {
        "video/ogg"@
    } else if ext == "webm"@ {
        "video/webm"@
    } else if ext == "css"@ {
        "text/css"@
    } else if ext == "csv"@ {
        "text/csv"@
    } else if ext == "html"@ || ext == "htm"@ {
        "text/html"@
    } else if ext == "js"@ || ext == "mjs"@ {
        "text/javascript"@
    } else if ext == "txt"@ || ext == ""@ {
        "text/plain"@
    } else if ext == "json"@ {
        "application/json"@
    } else if ext == "pdf"@ {
        "application/pdf"@
    } else {
        "application/octet-stream"@
    }
}

/// Looks up the MIME type of an extension.
pub fn content_type(ext: &str) -> (r: &'static str)
    ensures
        r@ == mime_of(ext@),
{
    if str_eq(ext, "bmp") {
        "image/bmp"
    } else if str_eq(ext, "gif") {
        "image/gif"
    } else if str_eq(ext, "jpg") || str_eq(ext, "jpeg") {
        "image/jpeg"
    } else if str_eq(ext, "png") {
        "image/png"
    } else if str_eq(ext, "svg") {
        "image/svg+xml"
    } else if str_eq(ext, "webp") {
        "image/webp"
    } else if str_eq(ext, "aac") {
        "audio/aac"
    } else if str_eq(ext, "mid") || str_eq(ext, "midi") {
        "audio/midi"
    } else if str_eq(ext, "oga") || str_eq(ext, "ogg") {
        "audio/ogg"
    } else if str_eq(ext, "wav") {
        "audio/wav"
    } else if str_eq(ext, "weba") {
        "audio/webm"
    } else if str_eq(ext, "mp4") {
        "video/mp4"
    } else if str_eq(ext, "mpeg") {
        "video/mpeg"
    } else if str_eq(ext, "ogv") {
        "video/ogg"
    } else if str_eq(ext, "webm") {
        "video/webm"
    } else if str_eq(ext, "css") {
        "text/css"
    } else if str_eq(ext, "csv") {
        "text/csv"
    } else if str_eq(ext, "html") || str_eq(ext, "htm") {
        "text/html"
    } else if str_eq(ext, "js") || str_eq(ext, "mjs") {
        "text/javascript"
    } else if str_eq(ext, "txt") || str_eq(ext, "") {
        "text/plain"
    } else if str_eq(ext, "json") {
        "application/json"
    } else if str_eq(ext, "pdf") {
        "application/pdf"
    } else {
        "application/octet-stream"
    }
}

/// The table on the extensions that the handlers' properties speak of.
pub proof fn lemma_mime_examples()
    ensures
        mime_of("pdf"@) == "application/pdf"@,
        mime_of("txt"@) == "text/plain"@,
        mime_of(Seq::empty()) == "text/plain"@,
        mime_of("xyz"@) == "application/octet-stream"@,
{
    reveal_strlit("");
    reveal_strlit("aac");
    reveal_strlit("application/json");
    reveal_strlit("application/octet-stream");
    reveal_strlit("application/pdf");
    reveal_strlit("audio/aac");
    reveal_strlit("audio/midi");
    reveal_strlit("audio/ogg");
    reveal_strlit("audio/wav");
    reveal_strlit("audio/webm");
    reveal_strlit("bmp");
    reveal_strlit("css");
    reveal_strlit("csv");
    reveal_strlit("gif");
    reveal_strlit("htm");
    reveal_strlit("html");
    reveal_strlit("image/bmp");
    reveal_strlit("image/gif");
    reveal_strlit("image/jpeg");
    reveal_strlit("image/png");
    reveal_strlit("image/svg+xml");
    reveal_strlit("image/webp");
    reveal_strlit("jpeg");
    reveal_strlit("jpg");
    reveal_strlit("js");
    reveal_strlit("json");
    reveal_strlit("mid");
    reveal_strlit("midi");
    reveal_strlit("mjs");
    reveal_strlit("mp4");
    reveal_strlit("mpeg");
    reveal_strlit("oga");
    reveal_strlit("ogg");
    reveal_strlit("ogv");
    reveal_strlit("pdf");
    reveal_strlit("png");
    reveal_strlit("svg");
    reveal_strlit("text/css");
    reveal_strlit("text/csv");
    reveal_strlit("text/html");
    reveal_strlit("text/javascript");
    reveal_strlit("text/plain");
    reveal_strlit("txt");
    reveal_strlit("video/mp4");
    reveal_strlit("video/mpeg");
    reveal_strlit("video/ogg");
    reveal_strlit("video/webm");
    reveal_strlit("wav");
    reveal_strlit("weba");
    reveal_strlit("webm");
    reveal_strlit("webp");
    reveal_strlit("xyz");
    assert(""@ =~= Seq::<char>::empty());
    assert("pdf"@.len() != ""@.len());
    assert("pdf"@[0] != "aac"@[0]);
    assert("pdf"@[0] != "bmp"@[0]);
    assert("pdf"@[0] != "css"@[0]);
    assert("pdf"@[0] != "csv"@[0]);
    assert("pdf"@[0] != "gif"@[0]);
    assert("pdf"@[0] != "htm"@[0]);
    assert("pdf"@.len() != "html"@.len());
    assert("pdf"@.len() != "jpeg"@.len());
    assert("pdf"@[0] != "jpg"@[0]);
    assert("pdf"@.len() != "js"@.len());
    assert("pdf"@.len() != "json"@.len());
    assert("pdf"@[0] != "mid"@[0]);
    assert("pdf"@.len() != "midi"@.len());
    assert("pdf"@[0] != "mjs"@[0]);
    assert("pdf"@[0] != "mp4"@[0]);
    assert("pdf"@.len() != "mpeg"@.len());
    assert("pdf"@[0] != "oga"@[0]);
    assert("pdf"@[0] != "ogg"@[0]);
    assert("pdf"@[0] != "ogv"@[0]);
    assert("pdf"@[1] != "png"@[1]);
    assert("pdf"@[0] != "svg"@[0]);
    assert("pdf"@[0] != "txt"@[0]);
    assert("pdf"@[0] != "wav"@[0]);
    assert("pdf"@.len() != "weba"@.len());
    assert("pdf"@.len() != "webm"@.len());
    assert("pdf"@.len() != "webp"@.len());
    assert("txt"@.len() != ""@.len());
    assert("txt"@[0] != "aac"@[0]);
    assert("txt"@[0] != "bmp"@[0]);
    assert("txt"@[0] != "css"@[0]);
    assert("txt"@[0] != "csv"@[0]);
    assert("txt"@[0] != "gif"@[0]);
    assert("txt"@[0] != "htm"@[0]);
    assert("txt"@.len() != "html"@.len());
    assert("txt"@.len() != "jpeg"@.len());
    assert("txt"@[0] != "jpg"@[0]);
    assert("txt"@.len() != "js"@.len());
    assert("txt"@.len() != "json"@.len());
    assert("txt"@[0] != "mid"@[0]);
    assert("txt"@.len() != "midi"@.len());
    assert("txt"@[0] != "mjs"@[0]);
    assert("txt"@[0] != "mp4"@[0]);
    assert("txt"@.len() != "mpeg"@.len());
    assert("txt"@[0] != "oga"@[0]);
    assert("txt"@[0] != "ogg"@[0]);
    assert("txt"@[0] != "ogv"@[0]);
    assert("txt"@[0] != "pdf"@[0]);
    assert("txt"@[0] != "png"@[0]);
    assert("txt"@[0] != "svg"@[0]);
    assert("txt"@[0] != "wav"@[0]);
    assert("txt"@.len() != "weba"@.len());
    assert("txt"@.len() != "webm"@.len());
    assert("txt"@.len() != "webp"@.len());
    assert("xyz"@.len() != ""@.len());
    assert("xyz"@[0] != "aac"@[0]);
    assert("xyz"@[0] != "bmp"@[0]);
    assert("xyz"@[0] != "css"@[0]);
    assert("xyz"@[0] != "csv"@[0]);
    assert("xyz"@[0] != "gif"@[0]);
    assert("xyz"@[0] != "htm"@[0]);
    assert("xyz"@.len() != "html"@.len());
    assert("xyz"@.len() != "jpeg"@.len());
    assert("xyz"@[0] != "jpg"@[0]);
    assert("xyz"@.len() != "js"@.len());
    assert("xyz"@.len() != "json"@.len());
    assert("xyz"@[0] != "mid"@[0]);
    assert("xyz"@.len() != "midi"@.len());
    assert("xyz"@[0] != "mjs"@[0]);
    assert("xyz"@[0] != "mp4"@[0]);
    assert("xyz"@.len() != "mpeg"@.len());
    assert("xyz"@[0] != "oga"@[0]);
    assert("xyz"@[0] != "ogg"@[0]);
    assert("xyz"@[0] != "ogv"@[0]);
    assert("xyz"@[0] != "pdf"@[0]);
    assert("xyz"@[0] != "png"@[0]);
    assert("xyz"@[0] != "svg"@[0]);
    assert("xyz"@[0] != "txt"@[0]);
    assert("xyz"@[0] != "wav"@[0]);
    assert("xyz"@.len() != "weba"@.len());
    assert("xyz"@.len() != "webm"@.len());
    assert("xyz"@.len() != "webp"@.len());
}

} // verus!
