use share_server::auth::token_matches;
use share_server::media::content_type;
use share_server::naming::{
    fresh_key, key_extension, key_for_stamp, key_from_digest, resolve_filename, resolve_format,
};
use share_server::retrieve::{
    find_tag, make_disposition, start_retrieval, RetrievalAction, RetrievalEvent, RetrievalStage,
};
use share_server::upload::{
    begin_upload, make_url, start_upload, BackendError, UploadAction, UploadEvent, UploadRequest,
    UploadResponse, UploadSession, UploadStage, BUCKET_NAME,
};

const SECRET: &[u8] = b"s3cret";

fn request(token: Option<&[u8]>, filename: Option<&str>, body: &[u8]) -> UploadRequest {
    UploadRequest {
        token: token.map(|t| t.to_vec()),
        filename: filename.map(|f| f.to_string()),
        body: body.to_vec(),
        scheme: "http".to_string(),
        host: "localhost:9500".to_string(),
    }
}

fn no_error() -> Result<(), BackendError> {
    Ok(())
}

fn s3_error(code: &str) -> BackendError {
    BackendError { code: Some(code.to_string()) }
}

fn listed(names: &[&str]) -> UploadEvent {
    UploadEvent::BucketsListed { names: Ok(names.iter().map(|n| n.to_string()).collect()) }
}

fn expect_put(session: UploadSession, event: UploadEvent, key: &str, body: &[u8]) -> UploadSession {
    let (next, action) = session.step(event);
    match action {
        UploadAction::PutObject { key: k, body: b } => {
            assert_eq!(k, key);
            assert_eq!(b, body.to_vec());
        }
        _ => panic!("expected a write"),
    }
    assert_eq!(next.stage, UploadStage::Writing);
    next
}

fn expect_success(action: UploadAction) -> String {
    match action {
        UploadAction::Respond { response: UploadResponse::Success { message } } => message,
        _ => panic!("expected a success response"),
    }
}

#[test]
fn content_types_of_known_and_unknown_extensions() {
    assert_eq!(content_type("pdf"), "application/pdf");
    assert_eq!(content_type("jpeg"), "image/jpeg");
    assert_eq!(content_type("jpg"), "image/jpeg");
    assert_eq!(content_type("svg"), "image/svg+xml");
    assert_eq!(content_type("weba"), "audio/webm");
    assert_eq!(content_type("mjs"), "text/javascript");
    assert_eq!(content_type("txt"), "text/plain");
    assert_eq!(content_type(""), "text/plain");
    assert_eq!(content_type("xyz"), "application/octet-stream");
    assert_eq!(content_type("PDF"), "application/octet-stream");
}

#[test]
fn extensions_read_from_keys() {
    assert_eq!(key_extension("a9993e3647.pdf"), "pdf");
    assert_eq!(key_extension("a9993e3647"), "");
    assert_eq!(key_extension("archive.tar.gz"), "gz");
    assert_eq!(key_extension(".bashrc"), "");
    assert_eq!(key_extension("name."), "");
    assert_eq!(key_extension(".."), "");
    assert_eq!(key_extension(""), "");
}

#[test]
fn formats_resolved_from_hints() {
    assert_eq!(resolve_format(None), "txt");
    assert_eq!(resolve_format(Some("report.pdf")), "pdf");
    assert_eq!(resolve_format(Some("README")), "");
    assert_eq!(resolve_format(Some("archive.tar.gz")), "gz");
    assert_eq!(resolve_format(Some("trailing.")), "");
    assert_eq!(resolve_format(Some(">sc")), "png");
    assert_eq!(resolve_format(Some(">txt")), "txt");
    assert_eq!(resolve_format(Some("shot.>sc")), "png");
}

#[test]
fn filenames_kept_from_hints() {
    assert_eq!(resolve_filename(None), None);
    assert_eq!(resolve_filename(Some(">sc")), None);
    assert_eq!(resolve_filename(Some(">txt")), None);
    assert_eq!(resolve_filename(Some("report.pdf")), Some("report.pdf".to_string()));
    assert_eq!(resolve_filename(Some("README")), Some("README".to_string()));
}

#[test]
fn token_gate() {
    assert!(token_matches(SECRET, Some(b"s3cret")));
    assert!(!token_matches(SECRET, Some(b"s3cret ")));
    assert!(!token_matches(SECRET, Some(b"wrong!")));
    assert!(!token_matches(SECRET, Some(b"")));
    assert!(!token_matches(SECRET, None));
}

#[test]
fn keys_from_digests() {
    assert_eq!(key_from_digest("0123456789abcdef", "pdf"), "0123456789.pdf");
    assert_eq!(key_from_digest("0123456789abcdef", ""), "0123456789");
    assert_eq!(key_from_digest("0123456789", "txt"), "0123456789.txt");
}

#[test]
fn keys_from_stamps_use_sha1() {
    // SHA-1 of "abc" is a9993e364706816aba3e25717850c26c9cd0d89d.
    assert_eq!(key_for_stamp("abc", "txt"), "a9993e3647.txt");
    assert_eq!(key_for_stamp("abc", ""), "a9993e3647");
    assert_eq!(key_for_stamp("", "pdf"), "da39a3ee5e.pdf");
}

#[test]
fn fresh_keys_have_the_expected_shape() {
    let key = fresh_key("txt");
    assert_eq!(key.len(), 14);
    assert!(key.ends_with(".txt"));
    assert!(key[..10].chars().all(|c| c.is_ascii_hexdigit()));
    assert_eq!(fresh_key("").len(), 10);
}

#[test]
fn urls_point_at_the_key() {
    assert_eq!(make_url("https", "share.example", "abc.txt"), "https://share.example/abc.txt");
}

#[test]
fn round_trip_of_a_pdf() {
    let body: &[u8] = b"%PDF-1.4 contents";
    let (session, action) = start_upload(SECRET, request(Some(SECRET), Some("report.pdf"), body), "abc");
    assert!(matches!(action, UploadAction::ListBuckets));
    assert_eq!(session.key, "a9993e3647.pdf");
    let session = expect_put(session, listed(&["other", BUCKET_NAME]), "a9993e3647.pdf", body);
    let (session, action) = session.step(UploadEvent::ObjectWritten { written: no_error() });
    match action {
        UploadAction::SetFilenameTag { key, filename } => {
            assert_eq!(key, "a9993e3647.pdf");
            assert_eq!(filename, "report.pdf");
        }
        _ => panic!("expected a tag"),
    }
    let (session, action) = session.step(UploadEvent::TagSet { tagged: no_error() });
    assert_eq!(expect_success(action), "http://localhost:9500/a9993e3647.pdf");
    assert_eq!(session.stage, UploadStage::Finished);

    let (fetch, action) = start_retrieval("a9993e3647.pdf");
    assert!(matches!(action, RetrievalAction::GetObject { ref key } if key == "a9993e3647.pdf"));
    let (fetch, action) = fetch.step(RetrievalEvent::ObjectFetched { object: Ok(body.to_vec()) });
    assert!(matches!(action, RetrievalAction::GetTags { ref key } if key == "a9993e3647.pdf"));
    let tags = vec![("filename".to_string(), "report.pdf".to_string())];
    let (fetch, action) = fetch.step(RetrievalEvent::TagsFetched { tags: Ok(tags) });
    assert_eq!(fetch.stage, RetrievalStage::Finished);
    match action {
        RetrievalAction::Respond { reply } => {
            assert_eq!(reply.status, 200);
            assert_eq!(reply.content_type, "application/pdf");
            assert_eq!(reply.disposition, Some("inline; filename=\"report.pdf\"".to_string()));
            assert_eq!(reply.body, body.to_vec());
        }
        _ => panic!("expected a reply"),
    }
}

#[test]
fn wrong_token_is_refused_without_backend_calls() {
    for token in [Some(&b"nope"[..]), None] {
        let (session, action) = start_upload(SECRET, request(token, Some("a.txt"), b"x"), "abc");
        match action {
            UploadAction::Respond { response: UploadResponse::Error { message } } => {
                assert_eq!(message, "Invalid token")
            }
            _ => panic!("expected the invalid-token error"),
        }
        assert_eq!(session.stage, UploadStage::Finished);
        let (_, action) = session.step(listed(&[BUCKET_NAME]));
        assert!(matches!(action, UploadAction::Fail));
    }
}

#[test]
fn no_hint_gives_a_txt_key() {
    let (session, _) = start_upload(SECRET, request(Some(SECRET), None, b"hello"), "abc");
    assert_eq!(session.key, "a9993e3647.txt");
    assert_eq!(session.filename, None);
    let session = expect_put(session, listed(&[BUCKET_NAME]), "a9993e3647.txt", b"hello");
    let (_, action) = session.step(UploadEvent::ObjectWritten { written: no_error() });
    assert_eq!(expect_success(action), "http://localhost:9500/a9993e3647.txt");
    let (fetch, _) = start_retrieval("a9993e3647.txt");
    assert_eq!(fetch.content_type, "text/plain");
}

#[test]
fn hint_without_dot_gives_a_bare_key() {
    let (session, _) = start_upload(SECRET, request(Some(SECRET), Some("README"), b"hi"), "abc");
    assert_eq!(session.key, "a9993e3647");
    assert_eq!(session.filename, Some("README".to_string()));
    let (fetch, _) = start_retrieval("a9993e3647");
    assert_eq!(fetch.content_type, "text/plain");
}

#[test]
fn unknown_extension_is_a_byte_stream() {
    let (fetch, _) = start_retrieval("a9993e3647.xyz");
    let (fetch, _) = fetch.step(RetrievalEvent::ObjectFetched { object: Ok(vec![1, 2, 3]) });
    let (_, action) = fetch.step(RetrievalEvent::TagsFetched { tags: Ok(vec![]) });
    match action {
        RetrievalAction::Respond { reply } => {
            assert_eq!(reply.status, 200);
            assert_eq!(reply.content_type, "application/octet-stream");
            assert_eq!(reply.disposition, None);
            assert_eq!(reply.body, vec![1, 2, 3]);
        }
        _ => panic!("expected a reply"),
    }
}

#[test]
fn missing_object_is_not_found() {
    for code in ["NoSuchKey", "NoSuchBucket"] {
        let (fetch, _) = start_retrieval("0000000000.png");
        let (_, action) = fetch.step(RetrievalEvent::ObjectFetched { object: Err(s3_error(code)) });
        match action {
            RetrievalAction::Respond { reply } => {
                assert_eq!(reply.status, 404);
                assert_eq!(reply.content_type, "text/plain");
                assert_eq!(reply.disposition, None);
                assert_eq!(reply.body, b"File not found".to_vec());
            }
            _ => panic!("expected a miss"),
        }
    }
}

#[test]
fn other_read_failures_are_server_errors() {
    let (fetch, _) = start_retrieval("k.png");
    let (_, action) = fetch.step(RetrievalEvent::ObjectFetched { object: Err(s3_error("AccessDenied")) });
    assert!(matches!(action, RetrievalAction::Fail));
    let (fetch, _) = start_retrieval("k.png");
    let (_, action) = fetch.step(RetrievalEvent::ObjectFetched { object: Err(BackendError { code: None }) });
    assert!(matches!(action, RetrievalAction::Fail));
    let (fetch, _) = start_retrieval("k.png");
    let (fetch, _) = fetch.step(RetrievalEvent::ObjectFetched { object: Ok(vec![]) });
    let (_, action) = fetch.step(RetrievalEvent::TagsFetched { tags: Err(BackendError { code: None }) });
    assert!(matches!(action, RetrievalAction::Fail));
}

#[test]
fn first_upload_creates_the_bucket() {
    let (session, _) = start_upload(SECRET, request(Some(SECRET), Some("a.png"), b"img"), "abc");
    let (session, action) = session.step(listed(&[]));
    assert!(matches!(action, UploadAction::MakeBucket));
    assert_eq!(session.stage, UploadStage::CreatingBucket);
    expect_put(session, UploadEvent::BucketMade { made: no_error() }, "a9993e3647.png", b"img");
}

#[test]
fn bucket_created_meanwhile_is_no_failure() {
    for code in ["BucketAlreadyOwnedByYou", "BucketAlreadyExists"] {
        let (session, _) = start_upload(SECRET, request(Some(SECRET), None, b"t"), "abc");
        let (session, _) = session.step(listed(&["unrelated"]));
        let made = UploadEvent::BucketMade { made: Err(s3_error(code)) };
        expect_put(session, made, "a9993e3647.txt", b"t");
    }
}

#[test]
fn backend_failures_end_the_upload() {
    let (session, _) = start_upload(SECRET, request(Some(SECRET), None, b"t"), "abc");
    let (session, _) = session.step(listed(&[]));
    let (_, action) = session.step(UploadEvent::BucketMade { made: Err(s3_error("AccessDenied")) });
    assert!(matches!(action, UploadAction::Fail));

    let (session, _) = start_upload(SECRET, request(Some(SECRET), None, b"t"), "abc");
    let (_, action) = session.step(UploadEvent::BucketsListed { names: Err(BackendError { code: None }) });
    assert!(matches!(action, UploadAction::Fail));

    let (session, _) = start_upload(SECRET, request(Some(SECRET), None, b"t"), "abc");
    let session = expect_put(session, listed(&[BUCKET_NAME]), "a9993e3647.txt", b"t");
    let (session, action) = session.step(UploadEvent::ObjectWritten { written: Err(BackendError { code: None }) });
    assert!(matches!(action, UploadAction::Fail));
    assert_eq!(session.stage, UploadStage::Finished);

    let (session, _) = start_upload(SECRET, request(Some(SECRET), Some("r.pdf"), b"t"), "abc");
    let session = expect_put(session, listed(&[BUCKET_NAME]), "a9993e3647.pdf", b"t");
    let (session, _) = session.step(UploadEvent::ObjectWritten { written: no_error() });
    let (_, action) = session.step(UploadEvent::TagSet { tagged: Err(BackendError { code: None }) });
    assert!(matches!(action, UploadAction::Fail));
}

#[test]
fn reserved_hint_sets_no_tag() {
    for (hint, key) in [(">sc", "a9993e3647.png"), (">txt", "a9993e3647.txt")] {
        let (session, _) = start_upload(SECRET, request(Some(SECRET), Some(hint), b"shot"), "abc");
        assert_eq!(session.filename, None);
        let session = expect_put(session, listed(&[BUCKET_NAME]), key, b"shot");
        let (_, action) = session.step(UploadEvent::ObjectWritten { written: no_error() });
        assert_eq!(expect_success(action), format!("http://localhost:9500/{key}"));

        let (fetch, _) = start_retrieval(key);
        let (fetch, _) = fetch.step(RetrievalEvent::ObjectFetched { object: Ok(b"shot".to_vec()) });
        let (_, action) = fetch.step(RetrievalEvent::TagsFetched { tags: Ok(vec![]) });
        match action {
            RetrievalAction::Respond { reply } => assert_eq!(reply.disposition, None),
            _ => panic!("expected a reply"),
        }
    }
}

#[test]
fn tag_lookup_and_disposition() {
    let tags = vec![
        ("owner".to_string(), "me".to_string()),
        ("filename".to_string(), "a b.txt".to_string()),
    ];
    assert_eq!(find_tag(&tags, "filename"), Some("a b.txt".to_string()));
    assert_eq!(find_tag(&tags, "missing"), None);
    assert_eq!(make_disposition("a b.txt"), "inline; filename=\"a b.txt\"");
}

#[test]
fn begin_upload_reads_the_clock() {
    let (session, action) = begin_upload(SECRET, request(Some(SECRET), Some("x.gif"), b"g"));
    assert!(matches!(action, UploadAction::ListBuckets));
    assert_eq!(session.key.len(), 14);
    assert!(session.key.ends_with(".gif"));
    assert_eq!(session.url, format!("http://localhost:9500/{}", session.key));
}
