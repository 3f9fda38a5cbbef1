//! Properties of the upload and retrieval handlers taken together.
use vstd::prelude::*;
use vstd::string::*;
use crate::auth::token_accepted;
use crate::media::lemma_mime_examples;
use crate::naming::{extension_of, filename_of, format_of, key_of, opt_string_chars, KEY_ID_LEN};
use crate::retrieve::{
    disposition_of, found_reply, missing_code, not_found_reply, retrieval_next, retrieval_start,
    tag_lookup, tags_view, ReplyView, RetrievalActionView, RetrievalEvent, RetrievalStage,
    RetrievalView, NOT_FOUND_BODY,
};
use crate::text::{is_last_dot, last_segment, lemma_last_dot_unique, lemma_last_segment_at};
use crate::upload::{
    bucket_exists_code, names_view, request_token, upload_next, upload_run, upload_start, url_of,
    ActionView, BackendError, ResponseView, SessionView, UploadEvent, UploadRequest, UploadStage,
    BUCKET_NAME, FILENAME_TAG, INVALID_TOKEN,
};

verus! {

/// A key made from a digest of at least ten characters and a non-empty
/// format without a dot reads back that format as its extension.
pub proof fn lemma_key_extension(digest: Seq<char>, format: Seq<char>)
    requires
        digest.len() >= KEY_ID_LEN,
        format.len() > 0,
        !format.contains('.'),
    ensures
        extension_of(key_of(digest, format)) == format,
{
    let id = digest.take(KEY_ID_LEN as int);
    let key = key_of(digest, format);
    reveal_strlit(".");
    assert(key == id + "."@ + format);
    let i = KEY_ID_LEN as int;
    assert(key[i] == '.');
    assert forall|j: int| i < j < key.len() implies key[j] != '.' by {
        assert(key[j] == format[j - i - 1]);
    }
    assert(is_last_dot(key, i));
    assert(key.contains('.'));
    lemma_last_segment_at(key, i);
    assert(key.subrange(i + 1, key.len() as int) =~= format);
    if is_last_dot(key, 0) {
        lemma_last_dot_unique(key, 0, i);
    }
}

/// The hint `report.pdf` gives the format `pdf` and is kept as the filename.
pub proof fn lemma_report_pdf_hint()
    ensures
        format_of(Some("report.pdf"@)) == "pdf"@,
        filename_of(Some("report.pdf"@)) == Some("report.pdf"@),
{
    let h = "report.pdf"@;
    reveal_strlit("report.pdf");
    reveal_strlit("pdf");
    reveal_strlit(">sc");
    reveal_strlit(">txt");
    assert(is_last_dot(h, 6));
    assert(h.contains('.'));
    lemma_last_segment_at(h, 6);
    assert(last_segment(h) =~= "pdf"@);
    assert(h.len() != ">sc"@.len());
    assert(h.len() != ">txt"@.len());
    assert("pdf"@[0] != ">sc"@[0]);
    assert("pdf"@.len() != ">txt"@.len());
}

/// Round trip: an upload of a body with the filename hint `report.pdf` and
/// the right token, against a backend that holds the bucket and accepts the
/// write and the tag, writes the body under its key, tags it with
/// `report.pdf` and answers with the key's URL. A retrieval of that key, to
/// which the backend hands back what was written, answers 200 with the same
/// body, the type `application/pdf`, and a disposition naming `report.pdf`.
pub proof fn lemma_round_trip(
    secret: Seq<u8>,
    req: UploadRequest,
    digest: Seq<char>,
    names: Vec<String>,
    stored: Vec<u8>,
    tags: Vec<(String, String)>,
)
    requires
        request_token(req) == Some(secret),
        opt_string_chars(req.filename) == Some("report.pdf"@),
        digest.len() >= KEY_ID_LEN,
        names_view(names).contains(BUCKET_NAME@),
        stored@ == req.body@,
        tags_view(tags) == seq![(FILENAME_TAG@, "report.pdf"@)],
    ensures
        ({
            let key = key_of(digest, format_of(opt_string_chars(req.filename)));
            let start = upload_start(secret, req, key);
            let events = seq![
                UploadEvent::BucketsListed { names: Ok(names) },
                UploadEvent::ObjectWritten { written: Ok(()) },
                UploadEvent::TagSet { tagged: Ok(()) },
            ];
            let r0 = retrieval_start(key);
            let r1 = retrieval_next(r0.0, RetrievalEvent::ObjectFetched { object: Ok(stored) });
            let r2 = retrieval_next(r1.0, RetrievalEvent::TagsFetched { tags: Ok(tags) });
            &&& key == key_of(digest, "pdf"@)
            &&& start.1 == ActionView::ListBuckets
            &&& upload_run(start.0, events) == seq![
                ActionView::PutObject(key, req.body@),
                ActionView::SetFilenameTag(key, "report.pdf"@),
                ActionView::Respond(ResponseView::Success(url_of(req.scheme@, req.host@, key))),
            ]
            &&& r0.1 == RetrievalActionView::GetObject(key)
            &&& r1.1 == RetrievalActionView::GetTags(key)
            &&& r2.1 == RetrievalActionView::Respond(
                ReplyView {
                    status: 200,
                    content_type: "application/pdf"@,
                    disposition: Some(disposition_of("report.pdf"@)),
                    body: req.body@,
                },
            )
        }),
{
    lemma_report_pdf_hint();
    reveal_strlit("pdf");
    let key = key_of(digest, "pdf"@);
    lemma_key_extension(digest, "pdf"@);
    lemma_mime_examples();
    let events = seq![
        UploadEvent::BucketsListed { names: Ok(names) },
        UploadEvent::ObjectWritten { written: Ok(()) },
        UploadEvent::TagSet { tagged: Ok(()) },
    ];
    let s0 = upload_start(secret, req, key).0;
    let (s1, a1) = upload_next(s0, events[0]);
    let (s2, a2) = upload_next(s1, events[1]);
    let (s3, a3) = upload_next(s2, events[2]);
    assert(events.drop_first().drop_first().drop_first() =~= Seq::<UploadEvent>::empty());
    assert(upload_run(s3, events.drop_first().drop_first().drop_first()) == Seq::<ActionView>::empty());
    assert(upload_run(s2, events.drop_first().drop_first()) =~= seq![a3]);
    assert(upload_run(s1, events.drop_first()) =~= seq![a2, a3]);
    assert(upload_run(s0, events) =~= seq![a1, a2, a3]);
    let t = tags_view(tags);
    assert(t[0].0 == FILENAME_TAG@);
    assert(tag_lookup(t, FILENAME_TAG@) == Some("report.pdf"@));
}

/// A finished upload answers every further event with a failure.
pub proof fn lemma_finished_run(s: SessionView, events: Seq<UploadEvent>)
    requires
        s.stage == UploadStage::Finished,
    ensures
        upload_run(s, events).len() == events.len(),
        forall|i: int| 0 <= i < events.len() ==> upload_run(s, events)[i] == ActionView::Fail,
    decreases events.len(),
{
    if events.len() > 0 {
        let (next, _) = upload_next(s, events[0]);
        lemma_finished_run(next, events.drop_first());
        assert forall|i: int| 0 <= i < events.len() implies upload_run(s, events)[i]
            == ActionView::Fail by {
            if i > 0 {
                assert(upload_run(s, events)[i] == upload_run(next, events.drop_first())[i - 1]);
            }
        }
    }
}

/// An upload with a wrong or missing token is answered with the
/// invalid-token error at once, and whatever events follow, it never writes
/// an object, creates a bucket or sets a tag.
pub proof fn lemma_rejected_upload_never_writes(
    secret: Seq<u8>,
    req: UploadRequest,
    key: Seq<char>,
    events: Seq<UploadEvent>,
)
    requires
        !token_accepted(secret, request_token(req)),
    ensures
        upload_start(secret, req, key).1 == ActionView::Respond(
            ResponseView::Error(INVALID_TOKEN@),
        ),
        forall|i: int|
            0 <= i < events.len() ==> upload_run(upload_start(secret, req, key).0, events)[i]
                == ActionView::Fail,
{
    lemma_finished_run(upload_start(secret, req, key).0, events);
}

/// Without a hint the key ends in `.txt`, which reads back as plain text;
/// with a hint that has no dot (and is not a reserved hint) the key is the
/// bare identifier, with no extension.
pub proof fn lemma_format_defaults(digest: Seq<char>, hint: Seq<char>)
    requires
        digest.len() >= KEY_ID_LEN,
        !hint.contains('.'),
        hint != ">sc"@,
        hint != ">txt"@,
    ensures
        format_of(None) == "txt"@,
        key_of(digest, format_of(None)) == digest.take(KEY_ID_LEN as int) + ".txt"@,
        retrieval_start(key_of(digest, format_of(None))).0.content_type == "text/plain"@,
        format_of(Some(hint)) == Seq::<char>::empty(),
        key_of(digest, format_of(Some(hint))) == digest.take(KEY_ID_LEN as int),
{
    reveal_strlit("txt");
    reveal_strlit(".");
    reveal_strlit(".txt");
    lemma_mime_examples();
    assert("txt"@.len() == 3);
    assert(!"txt"@.contains('.')) by {
        assert forall|j: int| 0 <= j < 3 implies "txt"@[j] != '.' by {}
    }
    assert(digest.take(KEY_ID_LEN as int) + "."@ + "txt"@ =~= digest.take(KEY_ID_LEN as int)
        + ".txt"@);
    lemma_key_extension(digest, "txt"@);
}

/// A key with the extension `xyz`, which the table does not know, is served
/// as `application/octet-stream`; every key stored with the format `xyz`
/// has that extension.
pub proof fn lemma_unknown_extension(key: Seq<char>, digest: Seq<char>)
    requires
        extension_of(key) == "xyz"@,
        digest.len() >= KEY_ID_LEN,
    ensures
        retrieval_start(key).0.content_type == "application/octet-stream"@,
        extension_of(key_of(digest, "xyz"@)) == "xyz"@,
{
    lemma_mime_examples();
    reveal_strlit("xyz");
    assert forall|j: int| 0 <= j < 3 implies "xyz"@[j] != '.' by {}
    lemma_key_extension(digest, "xyz"@);
}

/// A retrieval of a key that the backend does not hold answers 404 with
/// the plain-text body `File not found`.
pub proof fn lemma_miss(key: Seq<char>, err: BackendError)
    requires
        missing_code(err),
    ensures
        ({
            let r0 = retrieval_start(key);
            let r1 = retrieval_next(r0.0, RetrievalEvent::ObjectFetched { object: Err(err) });
            &&& r0.1 == RetrievalActionView::GetObject(key)
            &&& r1.1 == RetrievalActionView::Respond(not_found_reply())
            &&& r1.0.stage == RetrievalStage::Finished
        }),
        not_found_reply().status == 404,
        not_found_reply().content_type == "text/plain"@,
        not_found_reply().body == NOT_FOUND_BODY.spec_bytes(),
        not_found_reply().disposition is None,
{
}

/// Bucket bootstrap: an accepted upload against a backend without the bucket
/// creates it and then writes the body. A creation that fails because the
/// bucket is already there, as when another first upload made it meanwhile,
/// goes on to the write all the same.
pub proof fn lemma_bucket_bootstrap(
    secret: Seq<u8>,
    req: UploadRequest,
    key: Seq<char>,
    names: Vec<String>,
    made: Result<(), BackendError>,
)
    requires
        token_accepted(secret, request_token(req)),
        !names_view(names).contains(BUCKET_NAME@),
        match made {
            Ok(_) => true,
            Err(e) => bucket_exists_code(e),
        },
    ensures
        ({
            let start = upload_start(secret, req, key);
            let events = seq![
                UploadEvent::BucketsListed { names: Ok(names) },
                UploadEvent::BucketMade { made },
            ];
            &&& start.1 == ActionView::ListBuckets
            &&& upload_run(start.0, events) == seq![
                ActionView::MakeBucket,
                ActionView::PutObject(key, req.body@),
            ]
        }),
{
    let events = seq![
        UploadEvent::BucketsListed { names: Ok(names) },
        UploadEvent::BucketMade { made },
    ];
    let s0 = upload_start(secret, req, key).0;
    let (s1, a1) = upload_next(s0, events[0]);
    let (s2, a2) = upload_next(s1, events[1]);
    assert(events.drop_first().drop_first() =~= Seq::<UploadEvent>::empty());
    assert(events.drop_first()[0] == events[1]);
    assert(upload_run(s2, events.drop_first().drop_first()) == Seq::<ActionView>::empty());
    assert(upload_run(s1, events.drop_first()) =~= seq![a2]);
    assert(upload_run(s0, events) =~= seq![a1, a2]);
}

/// No tag of the list is called `name`: the lookup finds nothing.
pub proof fn lemma_lookup_absent(tags: Seq<(Seq<char>, Seq<char>)>, name: Seq<char>)
    requires
        forall|i: int| 0 <= i < tags.len() ==> tags[i].0 != name,
    ensures
        tag_lookup(tags, name) is None,
    decreases tags.len(),
{
    if tags.len() > 0 {
        assert(tags[0].0 != name);
        assert forall|i: int| 0 <= i < tags.drop_first().len() implies tags.drop_first()[i].0
            != name by {
            assert(tags.drop_first()[i] == tags[i + 1]);
        }
        lemma_lookup_absent(tags.drop_first(), name);
    }
}

/// An upload whose hint is one of the reserved values stores the body and
/// answers with its URL without setting a filename tag; a retrieval of an
/// object with no filename tag answers without a disposition.
pub proof fn lemma_reserved_hint_sets_no_tag(
    secret: Seq<u8>,
    req: UploadRequest,
    key: Seq<char>,
    names: Vec<String>,
    stored: RetrievalView,
    tags: Vec<(String, String)>,
)
    requires
        token_accepted(secret, request_token(req)),
        opt_string_chars(req.filename) == Some(">sc"@) || opt_string_chars(req.filename) == Some(
            ">txt"@,
        ),
        names_view(names).contains(BUCKET_NAME@),
        forall|i: int| 0 <= i < tags_view(tags).len() ==> tags_view(tags)[i].0 != FILENAME_TAG@,
    ensures
        filename_of(opt_string_chars(req.filename)) is None,
        ({
            let start = upload_start(secret, req, key);
            let events = seq![
                UploadEvent::BucketsListed { names: Ok(names) },
                UploadEvent::ObjectWritten { written: Ok(()) },
            ];
            upload_run(start.0, events) == seq![
                ActionView::PutObject(key, req.body@),
                ActionView::Respond(ResponseView::Success(url_of(req.scheme@, req.host@, key))),
            ]
        }),
        found_reply(stored, tags_view(tags)).disposition is None,
{
    let events = seq![
        UploadEvent::BucketsListed { names: Ok(names) },
        UploadEvent::ObjectWritten { written: Ok(()) },
    ];
    let s0 = upload_start(secret, req, key).0;
    let (s1, a1) = upload_next(s0, events[0]);
    let (s2, a2) = upload_next(s1, events[1]);
    assert(events.drop_first().drop_first() =~= Seq::<UploadEvent>::empty());
    assert(events.drop_first()[0] == events[1]);
    assert(upload_run(s2, events.drop_first().drop_first()) == Seq::<ActionView>::empty());
    assert(upload_run(s1, events.drop_first()) =~= seq![a2]);
    assert(upload_run(s0, events) =~= seq![a1, a2]);
    lemma_lookup_absent(tags_view(tags), FILENAME_TAG@);
}

} // verus!
