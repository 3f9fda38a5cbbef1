//! The retrieval handler as a state machine: read the object, then its
//! tags, then answer with its bytes and content type, or with a miss.
use vstd::prelude::*;
use vstd::string::*;
use crate::media::{content_type, mime_of};
use crate::naming::{extension_of, key_extension};
use crate::text::str_eq;
use crate::upload::{BackendError, FILENAME_TAG};

verus! {

/// The body of the reply to a key that is not stored.
pub const NOT_FOUND_BODY: &'static str = "File not found";

/// The content type of the reply to a key that is not stored.
pub const NOT_FOUND_TYPE: &'static str = "text/plain";

/// An HTTP reply to a retrieval.
pub struct FileReply {
    pub status: u16,
    pub content_type: String,
    /// The `Content-Disposition` header, when the object has a filename.
    pub disposition: Option<String>,
    pub body: Vec<u8>,
}

/// Where a retrieval stands.
#[derive(PartialEq, Eq, Structural, Clone, Copy, Debug)]
pub enum RetrievalStage {
    Fetching,
    ReadingTags,
    Finished,
}

/// A retrieval under way.
pub struct RetrievalSession {
    pub stage: RetrievalStage,
    pub key: String,
    /// The content type that the key's extension selects.
    pub content_type: String,
    /// The object's bytes, once read.
    pub body: Vec<u8>,
}

/// What the caller does next.
pub enum RetrievalAction {
    /// Read the object `key` of `BUCKET_NAME`; report with `ObjectFetched`.
    GetObject { key: String },
    /// Read the tags of the object `key`; report with `TagsFetched`.
    GetTags { key: String },
    /// Send this reply; the retrieval is over.
    Respond { reply: FileReply },
    /// Reply with a server error; the retrieval is over.
    Fail,
}

/// What the backend answered to the last action.
pub enum RetrievalEvent {
    ObjectFetched { object: Result<Vec<u8>, BackendError> },
    /// The object's tags as name and value pairs.
    TagsFetched { tags: Result<Vec<(String, String)>, BackendError> },
}

/// The model of a `FileReply`.
pub struct ReplyView {
    pub status: u16,
    pub content_type: Seq<char>,
    pub disposition: Option<Seq<char>>,
    pub body: Seq<u8>,
}

/// The model of a `RetrievalSession`.
pub struct RetrievalView {
    pub stage: RetrievalStage,
    pub key: Seq<char>,
    pub content_type: Seq<char>,
    pub body: Seq<u8>,
}

/// The model of a `RetrievalAction`.
pub enum RetrievalActionView {
    GetObject(Seq<char>),
    GetTags(Seq<char>),
    Respond(ReplyView),
    Fail,
}

impl View for FileReply {
    type V = ReplyView;

    open spec fn view(&self) -> ReplyView {
        ReplyView {
            status: self.status,
            content_type: self.content_type@,
            disposition: match self.disposition {
                Some(d) => Some(d@),
                None => None,
            },
            body: self.body@,
        }
    }
}

impl View for RetrievalSession {
    type V = RetrievalView;

    open spec fn view(&self) -> RetrievalView {
        RetrievalView {
            stage: self.stage,
            key: self.key@,
            content_type: self.content_type@,
            body: self.body@,
        }
    }
}

impl View for RetrievalAction {
    type V = RetrievalActionView;

    open spec fn view(&self) -> RetrievalActionView {
        match self {
            RetrievalAction::GetObject { key } => RetrievalActionView::GetObject(key@),
            RetrievalAction::GetTags { key } => RetrievalActionView::GetTags(key@),
            RetrievalAction::Respond { reply } => RetrievalActionView::Respond(reply@),
            RetrievalAction::Fail => RetrievalActionView::Fail,
        }
    }
}

/// Tags as pairs of character sequences.
pub open spec fn tags_view(tags: Vec<(String, String)>) -> Seq<(Seq<char>, Seq<char>)> {
    tags@.map_values(|p: (String, String)| (p.0@, p.1@))
}

/// The value of the first tag called `name`.
pub open spec fn tag_lookup(tags: Seq<(Seq<char>, Seq<char>)>, name: Seq<char>) -> Option<
    Seq<char>,
>
    decreases tags.len(),
{
    if tags.len() == 0 {
        None
    } else if tags[0].0 == name {
        Some(tags[0].1)
    } else {
        tag_lookup(tags.drop_first(), name)
    }
}

/// The `Content-Disposition` header that shows `filename`.
pub open spec fn disposition_of(filename: Seq<char>) -> Seq<char> {
    "inline; filename=\""@ + filename + "\""@
}

/// A backend error that means there is no such object.
pub open spec fn missing_code(e: BackendError) -> bool {
    match e.code {
        Some(c) => c@ == "NoSuchKey"@ || c@ == "NoSuchBucket"@,
        None => false,
    }
}

/// The reply to a key that is not stored.
pub open spec fn not_found_reply() -> ReplyView {
    ReplyView {
        status: 404,
        content_type: NOT_FOUND_TYPE@,
        disposition: None,
        body: NOT_FOUND_BODY.spec_bytes(),
    }
}

/// The reply with an object's bytes.
pub open spec fn found_reply(s: RetrievalView, tags: Seq<(Seq<char>, Seq<char>)>) -> ReplyView {
    ReplyView {
        status: 200,
        content_type: s.content_type,
        disposition: match tag_lookup(tags, FILENAME_TAG@) {
            Some(f) => Some(disposition_of(f)),
            None => None,
        },
        body: s.body,
    }
}

/// How a retrieval of `key` starts: its content type is fixed by its
/// extension, and the object is read.
pub open spec fn retrieval_start(key: Seq<char>) -> (RetrievalView, RetrievalActionView) {
    (
        RetrievalView {
            stage: RetrievalStage::Fetching,
            key,
            content_type: mime_of(extension_of(key)),
            body: Seq::empty(),
        },
        RetrievalActionView::GetObject(key),
    )
}

/// The session, with the retrieval over.
pub open spec fn finished(s: RetrievalView) -> RetrievalView {
    RetrievalView { stage: RetrievalStage::Finished, ..s }
}

/// One step of a retrieval.
pub open spec fn retrieval_next(s: RetrievalView, e: RetrievalEvent) -> (
    RetrievalView,
    RetrievalActionView,
) {
    match e {
        RetrievalEvent::ObjectFetched { object } => if s.stage == RetrievalStage::Fetching {
            match object {
                Ok(body) => (
                    RetrievalView { stage: RetrievalStage::ReadingTags, body: body@, ..s },
                    RetrievalActionView::GetTags(s.key),
                ),
                Err(err) => if missing_code(err) {
                    (finished(s), RetrievalActionView::Respond(not_found_reply()))
                } else {
                    (finished(s), RetrievalActionView::Fail)
                },
            }
        } else {
            (finished(s), RetrievalActionView::Fail)
        },
        RetrievalEvent::TagsFetched { tags } => if s.stage == RetrievalStage::ReadingTags {
            match tags {
                Ok(tags) => (
                    RetrievalView { stage: RetrievalStage::Finished, body: Seq::empty(), ..s },
                    RetrievalActionView::Respond(found_reply(s, tags_view(tags))),
                ),
                Err(_) => (finished(s), RetrievalActionView::Fail),
            }
        } else {
            (finished(s), RetrievalActionView::Fail)
        },
    }
}

/// Finds the value of the first tag called `name`.
pub fn find_tag(tags: &Vec<(String, String)>, name: &str) -> (r: Option<String>)
    ensures
        match r {
            Some(v) => tag_lookup(tags_view(*tags), name@) == Some(v@),
            None => tag_lookup(tags_view(*tags), name@) is None,
        },
{
    let ghost all = tags_view(*tags);
    let mut i: usize = 0;
    proof {
        assert(all.subrange(0, all.len() as int) =~= all);
    }
    while i < tags.len()
        invariant
            0 <= i <= tags@.len(),
            all == tags_view(*tags),
            tag_lookup(all, name@) == tag_lookup(all.subrange(i as int, all.len() as int), name@),
        decreases tags@.len() - i,
    {
        let ghost rest = all.subrange(i as int, all.len() as int);
        proof {
            assert(rest.drop_first() =~= all.subrange(i + 1, all.len() as int));
            assert(rest[0] == (tags@[i as int].0@, tags@[i as int].1@));
        }
        if str_eq(tags[i].0.as_str(), name) {
            return Some(tags[i].1.clone());
        }
        i = i + 1;
    }
    proof {
        assert(all.subrange(i as int, all.len() as int).len() == 0);
    }
    None
}

/// Builds the `Content-Disposition` header that shows `filename`.
pub fn make_disposition(filename: &str) -> (r: String)
    ensures
        r@ == disposition_of(filename@),
{
    let mut r = "inline; filename=\"".to_owned();
    r.append(filename);
    r.append("\"");
    r
}

/// Whether a failed read means the object is not there.
pub fn is_missing(err: &BackendError) -> (r: bool)
    ensures
        r == missing_code(*err),
{
    match &err.code {
        Some(c) => str_eq(c.as_str(), "NoSuchKey") || str_eq(c.as_str(), "NoSuchBucket"),
        None => false,
    }
}

/// Starts the retrieval of `key`.
pub fn start_retrieval(key: &str) -> (r: (RetrievalSession, RetrievalAction))
    ensures
        (r.0@, r.1@) == retrieval_start(key@),
{
    let ext = key_extension(key);
    let ctype = content_type(ext);
    (
        RetrievalSession {
            stage: RetrievalStage::Fetching,
            key: key.to_owned(),
            content_type: ctype.to_owned(),
            body: Vec::new(),
        },
        RetrievalAction::GetObject { key: key.to_owned() },
    )
}

impl RetrievalSession {
    /// Ends the retrieval with `action`.
    fn end(self, action: RetrievalAction) -> (r: (RetrievalSession, RetrievalAction))
        ensures
            r.0@ == finished(self@),
            r.1 == action,
    {
        let RetrievalSession { stage: _, key, content_type, body } = self;
        (RetrievalSession { stage: RetrievalStage::Finished, key, content_type, body }, action)
    }

    /// Takes the backend's answer to the last action and decides the next.
    pub fn step(self, event: RetrievalEvent) -> (r: (RetrievalSession, RetrievalAction))
        ensures
            (r.0@, r.1@) == retrieval_next(self@, event),
    {
        match event {
            RetrievalEvent::ObjectFetched { object } => if self.stage
                == RetrievalStage::Fetching {
                match object {
                    Ok(body) => {
                        let RetrievalSession { stage: _, key, content_type, body: _ } = self;
                        let k = key.clone();
                        (
                            RetrievalSession {
                                stage: RetrievalStage::ReadingTags,
                                key,
                                content_type,
                                body,
                            },
                            RetrievalAction::GetTags { key: k },
                        )
                    },
                    Err(err) => if is_missing(&err) {
                        let reply = FileReply {
                            status: 404,
                            content_type: NOT_FOUND_TYPE.to_owned(),
                            disposition: None,
                            body: NOT_FOUND_BODY.as_bytes_vec(),
                        };
                        self.end(RetrievalAction::Respond { reply })
                    } else {
                        self.end(RetrievalAction::Fail)
                    },
                }
            } else {
                self.end(RetrievalAction::Fail)
            },
            RetrievalEvent::TagsFetched { tags } => if self.stage
                == RetrievalStage::ReadingTags {
                match tags {
                    Ok(tags) => {
                        let disposition = match find_tag(&tags, FILENAME_TAG) {
                            Some(f) => Some(make_disposition(f.as_str())),
                            None => None,
                        };
                        let RetrievalSession { stage: _, key, content_type, body } = self;
                        let reply = FileReply {
                            status: 200,
                            content_type: content_type.clone(),
                            disposition,
                            body,
                        };
                        (
                            RetrievalSession {
                                stage: RetrievalStage::Finished,
                                key,
                                content_type,
                                body: Vec::new(),
                            },
                            RetrievalAction::Respond { reply },
                        )
                    },
                    Err(_) => self.end(RetrievalAction::Fail),
                }
            } else {
                self.end(RetrievalAction::Fail)
            },
        }
    }
}

} // verus!
