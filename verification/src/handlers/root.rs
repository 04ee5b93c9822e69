//! The answer to a request for the server's root.

use vstd::prelude::*;

verus! {

/// A JSON answer: its content type and its body.
pub struct JsonReply {
    pub content_type: String,
    pub body: String,
}

/// The content type of a JSON body.
pub open spec fn json_content_type() -> Seq<char> {
    "application/json"@
}

/// The server's name and version, as JSON.
pub open spec fn toshi_info() -> Seq<char> {
    "{\"name\":\"Toshi Search\",\"version\":\"0.1.1\"}"@
}

/// The answer to a request for the root: the server's name and version.
pub fn root() -> (r: JsonReply)
    ensures
        r.content_type@ == json_content_type(),
        r.body@ == toshi_info(),
{
    JsonReply {
        content_type: String::from_str("application/json"),
        body: String::from_str("{\"name\":\"Toshi Search\",\"version\":\"0.1.1\"}"),
    }
}

} // verus!
