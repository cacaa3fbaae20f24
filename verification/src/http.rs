//! Requests to make and replies to read. The library composes the one and
//! judges the other; sending is the caller's part.

use vstd::prelude::*;
use crate::error::{viewed, Error};
use crate::json::{json_node, node_at, Node, NodeView};

verus! {

/// The two ways in which the services are asked.
#[derive(Debug, Clone, Copy, PartialEq, Eq, Structural)]
pub enum Method {
    Get,
    Post,
}

/// A request, ready to be sent.
#[derive(Debug, Clone, PartialEq, Eq)]
pub struct Request {
    pub method: Method,
    pub url: String,
    /// Name and value of each header, in the order in which they are set.
    pub headers: Vec<(String, String)>,
    pub body: String,
}

/// [`Request`] over sequences of characters.
pub ghost struct RequestView {
    pub method: Method,
    pub url: Seq<char>,
    pub headers: Seq<(Seq<char>, Seq<char>)>,
    pub body: Seq<char>,
}

impl View for Request {
    type V = RequestView;

    open spec fn view(&self) -> RequestView {
        RequestView {
            method: self.method,
            url: self.url@,
            headers: Seq::new(
                self.headers@.len(),
                |i: int| (self.headers@[i].0@, self.headers@[i].1@),
            ),
            body: self.body@,
        }
    }
}

/// What came back for a request.
#[derive(Debug, Clone, PartialEq, Eq)]
pub enum Reply {
    /// Nothing came back: the request could not be sent, or the answer could
    /// not be read.
    Failed,
    /// The service answered.
    Answered { status: u16, body: String },
}

/// Whether a status lies in the success range, 200 to 299.
pub open spec fn is_success(status: u16) -> bool {
    200 <= status < 300
}

/// The body of a reply, whatever its status: only a reply that never came is
/// a failure.
pub open spec fn answer_of(reply: Reply) -> Result<Seq<char>, Error> {
    match reply {
        Reply::Answered { status, body } => Ok(body@),
        Reply::Failed => Err(Error::Network),
    }
}

/// Takes the body out of a reply, whatever its status.
pub fn answered_body(reply: Reply) -> (r: Result<String, Error>)
    ensures
        viewed(r) == answer_of(reply),
{
    match reply {
        Reply::Answered { status, body } => Ok(body),
        Reply::Failed => Err(Error::Network),
    }
}

/// The body of a reply that is to hold JSON: the fetch has failed unless the
/// service answered, with a status in the success range and a body that is
/// JSON.
pub open spec fn json_answer_of(reply: Reply) -> Result<Seq<char>, Error> {
    match reply {
        Reply::Answered { status, body } if is_success(status) && json_node(body@, ""@)
            != NodeView::Malformed => Ok(body@),
        _ => Err(Error::Network),
    }
}

/// Judges a reply by its status and by what the body was found to be as a
/// whole. What the body holds inside is not looked at here.
pub fn json_body_checked(reply: Reply, whole: &Node) -> (r: Result<String, Error>)
    ensures
        viewed(r) == (match reply {
            Reply::Answered { status, body } if is_success(status) && whole@
                != NodeView::Malformed => Ok::<Seq<char>, Error>(body@),
            _ => Err::<Seq<char>, Error>(Error::Network),
        }),
{
    match reply {
        Reply::Answered { status, body } => {
            let malformed = match whole {
                Node::Malformed => true,
                _ => false,
            };
            if 200 <= status && status < 300 && !malformed {
                Ok(body)
            } else {
                Err(Error::Network)
            }
        },
        Reply::Failed => Err(Error::Network),
    }
}

/// Takes the body out of a reply that is to hold JSON. There is one attempt:
/// nothing is asked again.
pub fn json_body(reply: Reply) -> (r: Result<String, Error>)
    ensures
        viewed(r) == json_answer_of(reply),
{
    let whole = match &reply {
        Reply::Answered { status, body } => node_at(body.as_str(), ""),
        Reply::Failed => Node::Malformed,
    };
    json_body_checked(reply, &whole)
}

} // verus!
