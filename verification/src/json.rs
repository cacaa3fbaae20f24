//! Reading single values out of a JSON document. Parsing and addressing are
//! the `serde_json` crate's; the decoders built on them are verified.

use vstd::prelude::*;

verus! {

/// What a JSON document holds at one place, as far as the decoders read it.
#[derive(Debug, Clone, PartialEq, Eq)]
pub enum Node {
    /// The document is not JSON.
    Malformed,
    /// The document holds nothing at that place.
    Missing,
    /// A string, with its text.
    Text(String),
    /// An array, with the number of its elements.
    Array(usize),
    /// Any other value.
    Other,
}

/// [`Node`] over sequences of characters.
pub ghost enum NodeView {
    Malformed,
    Missing,
    Text(Seq<char>),
    Array(nat),
    Other,
}

impl View for Node {
    type V = NodeView;

    open spec fn view(&self) -> NodeView {
        match self {
            Node::Malformed => NodeView::Malformed,
            Node::Missing => NodeView::Missing,
            Node::Text(s) => NodeView::Text(s@),
            Node::Array(n) => NodeView::Array(*n as nat),
            Node::Other => NodeView::Other,
        }
    }
}

/// The value that the JSON document `doc` holds at the JSON pointer `pointer`,
/// as `serde_json::from_str` followed by `Value::pointer` gives it. The empty
/// pointer stands for the whole document.
pub uninterp spec fn json_node(doc: Seq<char>, pointer: Seq<char>) -> NodeView;

/// Trusted: parses `doc` with `serde_json::from_str` into a `Value` and looks
/// `pointer` up in it with `Value::pointer`. A text that does not parse is
/// `Malformed`; a pointer that leads nowhere is `Missing`; a string is handed
/// out with its text, an array with its length, anything else as `Other`. The
/// contract claims only that the answer is the one named by [`json_node`]:
/// that it depends on the two texts alone.
#[verifier::external_body]
pub(crate) fn node_at(doc: &str, pointer: &str) -> (r: Node)
    ensures
        r@ == json_node(doc@, pointer@),
{
    let parsed: Result<serde_json::Value, serde_json::Error> = serde_json::from_str(doc);
    match parsed.as_ref().map(|value| value.pointer(pointer)) {
        Err(_) => Node::Malformed,
        Ok(None) => Node::Missing,
        Ok(Some(serde_json::Value::String(s))) => Node::Text(s.clone()),
        Ok(Some(serde_json::Value::Array(a))) => Node::Array(a.len()),
        Ok(Some(_)) => Node::Other,
    }
}

} // verus!
