//! The upload handler as a state machine. Each step takes what the storage
//! backend answered and says what to do next; the caller performs the
//! backend call and feeds its outcome back.
use vstd::prelude::*;
use vstd::string::*;
use crate::auth::{opt_bytes, token_accepted, token_matches};
use crate::naming::{
    filename_of, format_of, key_for_stamp, key_of, local_timestamp, opt_chars,
    opt_string_chars, resolve_filename, resolve_format, sha1_hex_of,
};
use crate::text::str_eq;

verus! {

/// The one bucket that holds every uploaded object.
pub const BUCKET_NAME: &'static str = "share-files";

/// The tag that keeps an object's original filename.
pub const FILENAME_TAG: &'static str = "filename";

/// The message of the response to a request with a wrong or missing token.
pub const INVALID_TOKEN: &'static str = "Invalid token";

/// An inbound upload.
pub struct UploadRequest {
    /// The `share-token` header, as bytes.
    pub token: Option<Vec<u8>>,
    /// The `share-filename` header.
    pub filename: Option<String>,
    /// The raw request body.
    pub body: Vec<u8>,
    /// The scheme the request came in on, such as `http`.
    pub scheme: String,
    /// The host the request was addressed to.
    pub host: String,
}

/// The JSON body of the reply to an upload.
pub enum UploadResponse {
    Success { message: String },
    Error { message: String },
}

/// A failed backend call, with the S3 error code when the backend sent one.
pub struct BackendError {
    pub code: Option<String>,
}

/// Where an upload stands.
#[derive(PartialEq, Eq, Structural, Clone, Copy, Debug)]
pub enum UploadStage {
    Bootstrapping,
    CreatingBucket,
    Writing,
    Tagging,
    Finished,
}

/// An upload under way.
pub struct UploadSession {
    pub stage: UploadStage,
    /// The key the object is stored under.
    pub key: String,
    /// The filename to tag the object with, if any.
    pub filename: Option<String>,
    /// The body, until it is handed to the write.
    pub body: Vec<u8>,
    /// The public URL of the object.
    pub url: String,
}

/// What the caller does next.
pub enum UploadAction {
    /// List the account's buckets and report them with `BucketsListed`.
    ListBuckets,
    /// Create `BUCKET_NAME` and report with `BucketMade`.
    MakeBucket,
    /// Write `body` under `key` in `BUCKET_NAME`; report with `ObjectWritten`.
    PutObject { key: String, body: Vec<u8> },
    /// Tag the object `key` with `FILENAME_TAG` = `filename`; report with `TagSet`.
    SetFilenameTag { key: String, filename: String },
    /// Reply with this JSON body; the upload is over.
    Respond { response: UploadResponse },
    /// Reply with a server error; the upload is over.
    Fail,
}

/// What the backend answered to the last action.
pub enum UploadEvent {
    BucketsListed { names: Result<Vec<String>, BackendError> },
    BucketMade { made: Result<(), BackendError> },
    ObjectWritten { written: Result<(), BackendError> },
    TagSet { tagged: Result<(), BackendError> },
}

/// The model of an `UploadResponse`.
pub enum ResponseView {
    Success(Seq<char>),
    Error(Seq<char>),
}

/// The model of an `UploadSession`.
pub struct SessionView {
    pub stage: UploadStage,
    pub key: Seq<char>,
    pub filename: Option<Seq<char>>,
    pub body: Seq<u8>,
    pub url: Seq<char>,
}

/// The model of an `UploadAction`.
pub enum ActionView {
    ListBuckets,
    MakeBucket,
    PutObject(Seq<char>, Seq<u8>),
    SetFilenameTag(Seq<char>, Seq<char>),
    Respond(ResponseView),
    Fail,
}

impl View for UploadResponse {
    type V = ResponseView;

    open spec fn view(&self) -> ResponseView {
        match self {
            UploadResponse::Success { message } => ResponseView::Success(message@),
            UploadResponse::Error { message } => ResponseView::Error(message@),
        }
    }
}

impl View for UploadSession {
    type V = SessionView;

    open spec fn view(&self) -> SessionView {
        SessionView {
            stage: self.stage,
            key: self.key@,
            filename: opt_string_chars(self.filename),
            body: self.body@,
            url: self.url@,
        }
    }
}

impl View for UploadAction {
    type V = ActionView;

    open spec fn view(&self) -> ActionView {
        match self {
            UploadAction::ListBuckets => ActionView::ListBuckets,
            UploadAction::MakeBucket => ActionView::MakeBucket,
            UploadAction::PutObject { key, body } => ActionView::PutObject(key@, body@),
            UploadAction::SetFilenameTag { key, filename } => ActionView::SetFilenameTag(
                key@,
                filename@,
            ),
            UploadAction::Respond { response } => ActionView::Respond(response@),
            UploadAction::Fail => ActionView::Fail,
        }
    }
}

/// The token of a request, as bytes.
pub open spec fn request_token(req: UploadRequest) -> Option<Seq<u8>> {
    match req.token {
        Some(t) => Some(t@),
        None => None,
    }
}

/// The public URL of `key`: `<scheme>://<host>/<key>`.
pub open spec fn url_of(scheme: Seq<char>, host: Seq<char>, key: Seq<char>) -> Seq<char> {
    scheme + "://"@ + host + "/"@ + key
}

/// The key of an upload whose clock read gave `stamp`.
pub open spec fn upload_key(req: UploadRequest, stamp: Seq<u8>) -> Seq<char> {
    key_of(sha1_hex_of(stamp), format_of(opt_string_chars(req.filename)))
}

/// How an upload starts: a request with the wrong token is answered at
/// once with the invalid-token error; any other goes on to list buckets.
pub open spec fn upload_start(secret: Seq<u8>, req: UploadRequest, key: Seq<char>) -> (
    SessionView,
    ActionView,
) {
    let s = SessionView {
        stage: UploadStage::Bootstrapping,
        key,
        filename: filename_of(opt_string_chars(req.filename)),
        body: req.body@,
        url: url_of(req.scheme@, req.host@, key),
    };
    if token_accepted(secret, request_token(req)) {
        (s, ActionView::ListBuckets)
    } else {
        (
            SessionView { stage: UploadStage::Finished, ..s },
            ActionView::Respond(ResponseView::Error(INVALID_TOKEN@)),
        )
    }
}

/// The actions a session takes when fed `events` one after another.
pub open spec fn upload_run(s: SessionView, events: Seq<UploadEvent>) -> Seq<ActionView>
    decreases events.len(),
{
    if events.len() == 0 {
        Seq::empty()
    } else {
        let (next, action) = upload_next(s, events[0]);
        seq![action] + upload_run(next, events.drop_first())
    }
}

/// The names of a list of buckets.
pub open spec fn names_view(names: Vec<String>) -> Seq<Seq<char>> {
    names@.map_values(|n: String| n@)
}

/// A backend error that means the bucket is there after all: another
/// upload created it first.
pub open spec fn bucket_exists_code(e: BackendError) -> bool {
    match e.code {
        Some(c) => c@ == "BucketAlreadyOwnedByYou"@ || c@ == "BucketAlreadyExists"@,
        None => false,
    }
}

/// The session moved to `stage`, all else kept.
pub open spec fn at_stage(s: SessionView, stage: UploadStage) -> SessionView {
    SessionView { stage, ..s }
}

/// Give up with a server error.
pub open spec fn fail_step(s: SessionView) -> (SessionView, ActionView) {
    (at_stage(s, UploadStage::Finished), ActionView::Fail)
}

/// Hand the body to the write.
pub open spec fn write_step(s: SessionView) -> (SessionView, ActionView) {
    (
        SessionView { stage: UploadStage::Writing, body: Seq::empty(), ..s },
        ActionView::PutObject(s.key, s.body),
    )
}

/// Answer with the object's URL.
pub open spec fn finish_step(s: SessionView) -> (SessionView, ActionView) {
    (at_stage(s, UploadStage::Finished), ActionView::Respond(ResponseView::Success(s.url)))
}

/// One step of an upload.
pub open spec fn upload_next(s: SessionView, e: UploadEvent) -> (SessionView, ActionView) {
    match e {
        UploadEvent::BucketsListed { names } => if s.stage == UploadStage::Bootstrapping {
            match names {
                Ok(names) => if names_view(names).contains(BUCKET_NAME@) {
                    write_step(s)
                } else {
                    (at_stage(s, UploadStage::CreatingBucket), ActionView::MakeBucket)
                },
                Err(_) => fail_step(s),
            }
        } else {
            fail_step(s)
        },
        UploadEvent::BucketMade { made } => if s.stage == UploadStage::CreatingBucket {
            match made {
                Ok(_) => write_step(s),
                Err(err) => if bucket_exists_code(err) {
                    write_step(s)
                } else {
                    fail_step(s)
                },
            }
        } else {
            fail_step(s)
        },
        UploadEvent::ObjectWritten { written } => if s.stage == UploadStage::Writing {
            match written {
                Ok(_) => match s.filename {
                    Some(f) => (
                        at_stage(s, UploadStage::Tagging),
                        ActionView::SetFilenameTag(s.key, f),
                    ),
                    None => finish_step(s),
                },
                Err(_) => fail_step(s),
            }
        } else {
            fail_step(s)
        },
        UploadEvent::TagSet { tagged } => if s.stage == UploadStage::Tagging {
            match tagged {
                Ok(_) => finish_step(s),
                Err(_) => fail_step(s),
            }
        } else {
            fail_step(s)
        },
    }
}

/// Whether `BUCKET_NAME` is among the listed buckets.
pub fn has_bucket(names: &Vec<String>) -> (r: bool)
    ensures
        r == names_view(*names).contains(BUCKET_NAME@),
{
    let mut i: usize = 0;
    while i < names.len()
        invariant
            0 <= i <= names@.len(),
            forall|j: int| 0 <= j < i ==> names@[j]@ != BUCKET_NAME@,
        decreases names@.len() - i,
    {
        if str_eq(names[i].as_str(), BUCKET_NAME) {
            proof {
                assert(names_view(*names)[i as int] == BUCKET_NAME@);
            }
            return true;
        }
        i = i + 1;
    }
    proof {
        if names_view(*names).contains(BUCKET_NAME@) {
            let j = choose|j: int|
                0 <= j < names_view(*names).len() && names_view(*names)[j] == BUCKET_NAME@;
            assert(names@[j]@ == BUCKET_NAME@);
        }
    }
    false
}

/// Whether a failed bucket creation left the bucket in place.
pub fn bucket_already_there(err: &BackendError) -> (r: bool)
    ensures
        r == bucket_exists_code(*err),
{
    match &err.code {
        Some(c) => str_eq(c.as_str(), "BucketAlreadyOwnedByYou") || str_eq(
            c.as_str(),
            "BucketAlreadyExists",
        ),
        None => false,
    }
}

/// Builds the public URL of `key`.
pub fn make_url(scheme: &str, host: &str, key: &str) -> (r: String)
    ensures
        r@ == url_of(scheme@, host@, key@),
{
    let mut r = scheme.to_owned();
    r.append("://");
    r.append(host);
    r.append("/");
    r.append(key);
    r
}

/// Starts an upload whose clock read gave `stamp`: checks the token and
/// derives the key, the filename tag and the URL.
pub fn start_upload(secret: &[u8], req: UploadRequest, stamp: &str) -> (r: (
    UploadSession,
    UploadAction,
))
    ensures
        (r.0@, r.1@) == upload_start(secret@, req, upload_key(req, stamp.spec_bytes())),
{
    let ghost old_req = req;
    let UploadRequest { token, filename, body, scheme, host } = req;
    let accepted = match &token {
        Some(t) => token_matches(secret, Some(t.as_slice())),
        None => token_matches(secret, None),
    };
    let hint: Option<&str> = match &filename {
        Some(f) => Some(f.as_str()),
        None => None,
    };
    assert(opt_chars(hint) == opt_string_chars(old_req.filename));
    let format = resolve_format(hint);
    let kept = resolve_filename(hint);
    let key = key_for_stamp(stamp, format.as_str());
    let url = make_url(scheme.as_str(), host.as_str(), key.as_str());
    if accepted {
        (
            UploadSession { stage: UploadStage::Bootstrapping, key, filename: kept, body, url },
            UploadAction::ListBuckets,
        )
    } else {
        (
            UploadSession { stage: UploadStage::Finished, key, filename: kept, body, url },
            UploadAction::Respond {
                response: UploadResponse::Error { message: INVALID_TOKEN.to_owned() },
            },
        )
    }
}

/// Starts an upload now: reads the clock for the key, then as `start_upload`.
pub fn begin_upload(secret: &[u8], req: UploadRequest) -> (r: (UploadSession, UploadAction))
    ensures
        exists|stamp: Seq<u8>|
            (r.0@, r.1@) == upload_start(secret@, req, upload_key(req, stamp)),
{
    let stamp = local_timestamp();
    start_upload(secret, req, stamp.as_str())
}

impl UploadSession {
    /// Moves to `stage` and does `action`.
    fn finish_with(self, stage: UploadStage, action: UploadAction) -> (r: (
        UploadSession,
        UploadAction,
    ))
        ensures
            r.0@ == at_stage(self@, stage),
            r.1 == action,
    {
        let UploadSession { stage: _, key, filename, body, url } = self;
        (UploadSession { stage, key, filename, body, url }, action)
    }

    /// Hands the body to the write.
    fn write(self) -> (r: (UploadSession, UploadAction))
        ensures
            (r.0@, r.1@) == write_step(self@),
    {
        let UploadSession { stage: _, key, filename, body, url } = self;
        let k = key.clone();
        (
            UploadSession { stage: UploadStage::Writing, key, filename, body: Vec::new(), url },
            UploadAction::PutObject { key: k, body },
        )
    }

    /// Gives up with a server error.
    fn fail(self) -> (r: (UploadSession, UploadAction))
        ensures
            (r.0@, r.1@) == fail_step(self@),
    {
        self.finish_with(UploadStage::Finished, UploadAction::Fail)
    }

    /// Answers with the object's URL.
    fn finish(self) -> (r: (UploadSession, UploadAction))
        ensures
            (r.0@, r.1@) == finish_step(self@),
    {
        let message = self.url.clone();
        self.finish_with(
            UploadStage::Finished,
            UploadAction::Respond { response: UploadResponse::Success { message } },
        )
    }

    /// Takes the backend's answer to the last action and decides the next.
    pub fn step(self, event: UploadEvent) -> (r: (UploadSession, UploadAction))
        ensures
            (r.0@, r.1@) == upload_next(self@, event),
    {
        let ghost ev = event;
        match event {
            UploadEvent::BucketsListed { names } => if self.stage == UploadStage::Bootstrapping {
                match names {
                    Ok(names) => if has_bucket(&names) {
                        self.write()
                    } else {
                        self.finish_with(UploadStage::CreatingBucket, UploadAction::MakeBucket)
                    },
                    Err(_) => self.fail(),
                }
            } else {
                self.fail()
            },
            UploadEvent::BucketMade { made } => if self.stage == UploadStage::CreatingBucket {
                match made {
                    Ok(_) => self.write(),
                    Err(err) => if bucket_already_there(&err) {
                        self.write()
                    } else {
                        self.fail()
                    },
                }
            } else {
                self.fail()
            },
            UploadEvent::ObjectWritten { written } => if self.stage == UploadStage::Writing {
                match written {
                    Ok(_) => match &self.filename {
                        Some(f) => {
                            let action = UploadAction::SetFilenameTag {
                                key: self.key.clone(),
                                filename: f.clone(),
                            };
                            self.finish_with(UploadStage::Tagging, action)
                        },
                        None => self.finish(),
                    },
                    Err(_) => self.fail(),
                }
            } else {
                self.fail()
            },
            UploadEvent::TagSet { tagged } => if self.stage == UploadStage::Tagging {
                match tagged {
                    Ok(_) => self.finish(),
                    Err(_) => self.fail(),
                }
            } else {
                self.fail()
            },
        }
    }
}

} // verus!
