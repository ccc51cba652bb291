//! The two requests of the service, from plain values to plain values.

use crate::decoder::{resolve_code, spec_resolve_code};
use crate::encoder::{code_reads_back, encode_url, spec_encode_url};
use crate::page::{render_redirect_page, spec_redirect_page, PageMeta, PageMetaView};
pub use crate::registry::{Community, Platform};
use vstd::prelude::*;

verus! {

/// The body of both a request to shorten a URL and the answer to it.
#[derive(Debug, Clone, PartialEq, Eq)]
pub struct UrlPayload {
    /// The destination URL.
    pub url: String,
    /// The short code; ignored in a request, always present in an answer.
    pub sqid: Option<String>,
}

/// The mathematical content of a [`UrlPayload`].
pub struct UrlPayloadView {
    pub url: Seq<char>,
    pub sqid: Option<Seq<char>>,
}

impl View for UrlPayload {
    type V = UrlPayloadView;

    open spec fn view(&self) -> UrlPayloadView {
        UrlPayloadView {
            url: self.url@,
            sqid: match self.sqid {
                Some(code) => Some(code@),
                None => None,
            },
        }
    }
}

/// What the service answers.
#[derive(Debug, Clone, PartialEq, Eq)]
pub enum Reply {
    /// Success: the redirect page, an HTML document.
    Page(String),
    /// Success: the destination and its short code, to be sent as JSON.
    Created(UrlPayload),
    /// Failure of any kind; the body of the answer is [`BAD_REQUEST`].
    BadRequest,
}

/// The mathematical content of a [`Reply`].
pub enum ReplyView {
    Page(Seq<char>),
    Created(UrlPayloadView),
    BadRequest,
}

impl View for Reply {
    type V = ReplyView;

    open spec fn view(&self) -> ReplyView {
        match self {
            Reply::Page(document) => ReplyView::Page(document@),
            Reply::Created(payload) => ReplyView::Created(payload@),
            Reply::BadRequest => ReplyView::BadRequest,
        }
    }
}

/// The body of every answer that reports a failure.
pub const BAD_REQUEST: &'static str = "Bad Request";

impl ReplyView {
    /// The HTTP status of the answer: 200 for a success, 400 for a failure.
    pub open spec fn status(self) -> u16 {
        match self {
            ReplyView::Page(_) => 200,
            ReplyView::Created(_) => 200,
            ReplyView::BadRequest => 400,
        }
    }
}

impl Reply {
    /// The HTTP status of the answer.
    pub fn status(&self) -> (code: u16)
        ensures
            code == self@.status(),
    {
        match self {
            Reply::Page(_) => 200,
            Reply::Created(_) => 200,
            Reply::BadRequest => 400,
        }
    }
}

/// The answer to a request for the short code `sqid`: the redirect page for
/// its destination, or a failure where the request names no code or the code
/// resolves to no destination.
pub open spec fn spec_handle_redirect(sqid: Option<Seq<char>>, meta: PageMetaView) -> ReplyView {
    match sqid {
        None => ReplyView::BadRequest,
        Some(code) => match spec_resolve_code(code) {
            Ok(url) => ReplyView::Page(spec_redirect_page(meta, url)),
            Err(_) => ReplyView::BadRequest,
        },
    }
}

/// The answer to a request to shorten the URL of `payload`: the destination
/// with its short code, or a failure where the request has no readable body
/// or the URL cannot be shortened. A code that the request carries is not
/// looked at.
pub open spec fn spec_handle_creation(payload: Option<UrlPayloadView>) -> ReplyView {
    match payload {
        None => ReplyView::BadRequest,
        Some(request) => match spec_encode_url(request.url) {
            Ok(link) => ReplyView::Created(UrlPayloadView { url: link.url, sqid: Some(link.code) }),
            Err(_) => ReplyView::BadRequest,
        },
    }
}

/// The code of an answer to `request`, where the reply is such an answer, is
/// one that the codec reads back as the numbers of the triple that the URL
/// of the request stands for.
pub open spec fn answer_reads_back(request: UrlPayloadView, reply: ReplyView) -> bool {
    reply matches ReplyView::Created(answer) ==> answer.sqid matches Some(code)
        && code_reads_back(request.url, code)
}

/// Answers a request for a short code. `sqid` is the code that the request
/// names, if it names one.
pub fn handle_redirect(sqid: Option<&str>, meta: &PageMeta) -> (reply: Reply)
    ensures
        reply@ == spec_handle_redirect(
            match sqid {
                Some(code) => Some(code@),
                None => None,
            },
            meta@,
        ),
{
    let code = match sqid {
        Some(code) => code,
        None => {
            return Reply::BadRequest;
        },
    };
    match resolve_code(code) {
        Ok(url) => Reply::Page(render_redirect_page(meta, url.as_str())),
        Err(_) => Reply::BadRequest,
    }
}

/// Answers a request to shorten a URL. `payload` is the body of the request,
/// if it could be read.
pub fn handle_creation(payload: Option<&UrlPayload>) -> (reply: Reply)
    ensures
        reply@ == spec_handle_creation(
            match payload {
                Some(request) => Some(request@),
                None => None,
            },
        ),
        payload matches Some(request) ==> answer_reads_back(request@, reply@),
{
    let request = match payload {
        Some(request) => request,
        None => {
            return Reply::BadRequest;
        },
    };
    match encode_url(request.url.as_str()) {
        Ok(link) => Reply::Created(UrlPayload { url: link.url, sqid: Some(link.code) }),
        Err(_) => Reply::BadRequest,
    }
}

} // verus!
