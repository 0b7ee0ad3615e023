use vstd::prelude::*;

verus! {

/// What the service answers to a request.
#[derive(Debug, PartialEq, Eq)]
pub enum Reply {
    /// The client is sent on to the place where its result waits (303).
    Redirect(String),
    /// Plain text under a status: 400 for a submission that is turned away, 422
    /// for one that the converter rejected.
    Text { status: u16, body: String },
    /// A result as a JSON document (200).
    Json(String),
    /// A result as an archive (200).
    Archive(Vec<u8>),
    /// A status and nothing else: 404 where no result is known under an
    /// identifier, 500 for a failure of the server, whose detail stays in its log.
    Status(u16),
}

/// What a `Reply` holds.
pub enum ReplyView {
    Redirect(Seq<char>),
    Text { status: u16, body: Seq<char> },
    Json(Seq<char>),
    Archive(Seq<u8>),
    Status(u16),
}

impl View for Reply {
    type V = ReplyView;

    open spec fn view(&self) -> ReplyView {
        match self {
            Reply::Redirect(location) => ReplyView::Redirect(location@),
            Reply::Text { status, body } => ReplyView::Text { status: *status, body: body@ },
            Reply::Json(text) => ReplyView::Json(text@),
            Reply::Archive(bytes) => ReplyView::Archive(bytes@),
            Reply::Status(status) => ReplyView::Status(*status),
        }
    }
}

/// The status of a submission that is turned away.
pub const BAD_REQUEST: u16 = 400;

/// The status under which no result is known.
pub const NOT_FOUND: u16 = 404;

/// The status of a submission that the converter rejected.
pub const UNPROCESSABLE_ENTITY: u16 = 422;

/// The status of a failure of the server.
pub const INTERNAL_SERVER_ERROR: u16 = 500;

impl ReplyView {
    /// The HTTP status of the reply.
    pub open spec fn status(self) -> u16 {
        match self {
            ReplyView::Redirect(_) => 303,
            ReplyView::Text { status, body } => status,
            ReplyView::Json(_) => 200,
            ReplyView::Archive(_) => 200,
            ReplyView::Status(status) => status,
        }
    }
}

impl Reply {
    /// The HTTP status of the reply.
    pub fn status(&self) -> (code: u16)
        ensures
            code == self@.status(),
    {
        match self {
            Reply::Redirect(_) => 303,
            Reply::Text { status, body } => *status,
            Reply::Json(_) => 200,
            Reply::Archive(_) => 200,
            Reply::Status(status) => *status,
        }
    }
}

} // verus!
