use vstd::prelude::*;
use crate::error::CatError;

verus! {

/// Status of a served picture.
pub const STATUS_OK: u16 = 200;

/// Status of every failed request.
pub const STATUS_INTERNAL_ERROR: u16 = 500;

/// The content type of a served picture.
pub const HTML_CONTENT_TYPE: &'static str = "text/html; charset=utf-8";

/// The one body that a failed request gets, whatever went wrong.
pub const FAILURE_BODY: &'static str = "Something went wrong";

/// What the server sends back for one request.
#[derive(Debug)]
pub struct HttpReply {
    pub status: u16,
    /// `None` leaves the header to the server framework.
    pub content_type: Option<String>,
    pub body: String,
}

/// The reply owed for the outcome of a request: the art as HTML on success,
/// the fixed failure text on any error.
pub open spec fn reply_spec(outcome: Result<Seq<char>, ()>) -> (u16, Option<Seq<char>>, Seq<char>) {
    match outcome {
        Ok(art) => (STATUS_OK, Some(HTML_CONTENT_TYPE@), art),
        Err(_) => (STATUS_INTERNAL_ERROR, None, FAILURE_BODY@),
    }
}

/// The outcome of a request with the error detail dropped.
pub open spec fn outcome_view(outcome: Result<String, CatError>) -> Result<Seq<char>, ()> {
    match outcome {
        Ok(art) => Ok(art@),
        Err(_) => Err(()),
    }
}

impl HttpReply {
    /// Status, content type and body, as plain values.
    pub open spec fn view_triple(&self) -> (u16, Option<Seq<char>>, Seq<char>) {
        (
            self.status,
            match self.content_type {
                Some(t) => Some(t@),
                None => None,
            },
            self.body@,
        )
    }
}

/// Turns the outcome of a request into the reply that the caller sees.
pub fn respond(outcome: &Result<String, CatError>) -> (r: HttpReply)
    ensures
        r.view_triple() == reply_spec(outcome_view(*outcome)),
{
    match outcome {
        Ok(art) => HttpReply {
            status: STATUS_OK,
            content_type: Some(HTML_CONTENT_TYPE.to_owned()),
            body: art.clone(),
        },
        Err(_) => HttpReply {
            status: STATUS_INTERNAL_ERROR,
            content_type: None,
            body: FAILURE_BODY.to_owned(),
        },
    }
}

/// A successful request is answered with status 200, an HTML content type and
/// the art, which is not empty when the art is not.
pub proof fn lemma_success_reply(art: Seq<char>)
    requires
        art.len() > 0,
    ensures
        reply_spec(Ok(art)).0 == STATUS_OK,
        reply_spec(Ok(art)).1 == Some(HTML_CONTENT_TYPE@),
        HTML_CONTENT_TYPE@.subrange(0, 9) == "text/html"@,
        reply_spec(Ok(art)).2.len() > 0,
{
    reveal_strlit("text/html; charset=utf-8");
    reveal_strlit("text/html");
    assert(HTML_CONTENT_TYPE@.subrange(0, 9) =~= "text/html"@);
}

/// Every failure is answered alike: status 500 and the fixed text, whatever
/// its kind or detail.
pub proof fn lemma_failures_alike(a: CatError, b: CatError)
    ensures
        reply_spec(outcome_view(Err(a))) == reply_spec(outcome_view(Err(b))),
        reply_spec(outcome_view(Err(a))).0 == STATUS_INTERNAL_ERROR,
        reply_spec(outcome_view(Err(a))).2 == FAILURE_BODY@,
{
}

} // verus!
