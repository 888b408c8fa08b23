//! Judging what came back from a request for a page.

use vstd::prelude::*;
use vstd::string::StringExecFns;
use crate::error::FetchCause;
use crate::error::FetchCauseView;
use crate::error::ScrapeError;
use crate::error::ScrapeErrorView;
use crate::html::Page;

verus! {

/// What a request for a page came to.
#[derive(Debug, PartialEq, Eq)]
pub enum FetchReply {
    /// The server answered, with this status and this body.
    Answered { status: u16, body: Page },
    /// No answer could be had, or its body could not be read.
    Failed(String),
}

/// Mathematical value of a [`FetchReply`].
pub enum FetchReplyView {
    Answered { status: u16, body: Seq<char> },
    Failed(Seq<char>),
}

impl View for FetchReply {
    type V = FetchReplyView;

    open spec fn view(&self) -> FetchReplyView {
        match self {
            FetchReply::Answered { status, body } => FetchReplyView::Answered {
                status: *status,
                body: body@,
            },
            FetchReply::Failed(cause) => FetchReplyView::Failed(cause@),
        }
    }
}

/// Whether a status tells of success: the codes 200 to 299, and no others.
pub open spec fn is_success(status: u16) -> bool {
    200 <= status < 300
}

/// Tells whether `status` is one of success.
pub fn status_is_success(status: u16) -> (success: bool)
    ensures
        success == is_success(status),
{
    200 <= status && status < 300
}

/// The page that a reply holds, or why the page at `url` could not be had.
pub open spec fn reply_outcome(url: Seq<char>, reply: FetchReplyView) -> Result<
    Seq<char>,
    ScrapeErrorView,
> {
    match reply {
        FetchReplyView::Answered { status, body } => if is_success(status) {
            Ok(body)
        } else {
            Err(ScrapeErrorView::Fetch { url, cause: FetchCauseView::Status(status) })
        },
        FetchReplyView::Failed(cause) => Err(
            ScrapeErrorView::Fetch { url, cause: FetchCauseView::Transport(cause) },
        ),
    }
}

/// Takes the page out of a reply to the request for `url`. Only an answer
/// with a status of success holds a page; any other reply is a failure that
/// names the address and the status or the cause.
pub fn check_reply(url: &str, reply: FetchReply) -> (page: Result<Page, ScrapeError>)
    ensures
        match page {
            Ok(body) => reply_outcome(url@, reply@) == Ok::<Seq<char>, ScrapeErrorView>(body@),
            Err(e) => reply_outcome(url@, reply@) == Err::<Seq<char>, ScrapeErrorView>(e@),
        },
{
    match reply {
        FetchReply::Answered { status, body } => {
            if status_is_success(status) {
                Ok(body)
            } else {
                Err(ScrapeError::Fetch { url: String::from_str(url), cause: FetchCause::Status(status) })
            }
        },
        FetchReply::Failed(cause) => Err(
            ScrapeError::Fetch { url: String::from_str(url), cause: FetchCause::Transport(cause) },
        ),
    }
}

} // verus!
