//! The frame of a JSON-RPC call to the node: what is sent and how the
//! answer is read.

use crate::base64::{decode_padded, decoded_padded};
use crate::json::{parse, parsed, Json, JsonModel};
use vstd::string::StringExecFns;
use vstd::prelude::*;

verus! {

/// The version of JSON-RPC that is spoken.
pub const RPC_VERSION: &'static str = "2.0";

/// What every method name of the node starts with.
pub const METHOD_PREFIX: &'static str = "Filecoin.";

/// Success.
pub const STATUS_OK: u16 = 200;

/// The answer to a call.
pub struct Rs<T> {
    pub result: T,
    pub jsonrpc: String,
    pub id: i64,
}

/// A call.
pub struct RPCRequest {
    pub jsonrpc: String,
    pub method: String,
    pub id: i64,
    pub params: Json,
}

/// What can go wrong in a call, apart from the transport.
#[derive(Debug)]
pub enum Error {
    /// The node answered with another status than 200; the body is kept.
    Lotus(u16, String),
    /// The body is no JSON text; the message says why.
    Json(String),
    /// The body is JSON, but no answer to a call.
    Shape,
    /// The result is no base64 text.
    Decode,
}

/// What an error says, as mathematical data.
pub enum ErrorModel {
    Lotus(u16, Seq<char>),
    Json,
    Shape,
    Decode,
}

impl View for Error {
    type V = ErrorModel;

    open spec fn view(&self) -> ErrorModel {
        match self {
            Error::Lotus(status, body) => ErrorModel::Lotus(*status, body@),
            Error::Json(_) => ErrorModel::Json,
            Error::Shape => ErrorModel::Shape,
            Error::Decode => ErrorModel::Decode,
        }
    }
}

/// The name of a method as the node knows it.
pub fn method_name(method: &str) -> (name: String)
    ensures
        name@ == METHOD_PREFIX@ + method@,
{
    METHOD_PREFIX.to_owned().concat(method)
}

/// The call of `method` with the given parameters: version 2.0, number 1.
pub fn format(method: String, params: Json) -> (request: RPCRequest)
    ensures
        request.jsonrpc@ == RPC_VERSION@,
        request.method == method,
        request.id == 1,
        request.params == params,
{
    RPCRequest { jsonrpc: RPC_VERSION.to_owned(), method, id: 1, params }
}

/// The answer in a tree: its members `result`, `jsonrpc` and `id`.
pub open spec fn answer_of(tree: JsonModel) -> Option<(JsonModel, Seq<char>, i64)> {
    match (tree.member("result"@), tree.member("jsonrpc"@), tree.member("id"@)) {
        (Some(result), Some(version), Some(id)) => match (version.as_text(), id.as_i64()) {
            (Some(v), Some(n)) => Some((result, v, n)),
            _ => None,
        },
        _ => None,
    }
}

/// What the response to a call without a result means: any status but 200
/// is an error that keeps the body.
pub open spec fn accepted_outcome(status: u16, body: Seq<char>) -> Result<(), ErrorModel> {
    if status == STATUS_OK {
        Ok(())
    } else {
        Err(ErrorModel::Lotus(status, body))
    }
}

/// What the response to a call means: any status but 200 is an error that
/// keeps the body; on 200 the body must be the JSON text of an answer, whose
/// tree is the outcome.
pub open spec fn answer_outcome(status: u16, body: Seq<char>) -> Result<JsonModel, ErrorModel> {
    if status != STATUS_OK {
        Err(ErrorModel::Lotus(status, body))
    } else {
        match parsed(body) {
            Some(tree) => if answer_of(tree) is Some {
                Ok(tree)
            } else {
                Err(ErrorModel::Shape)
            },
            None => Err(ErrorModel::Json),
        }
    }
}

/// Whether the node accepted a call that has no result.
pub fn accepted(status: u16, body: &str) -> (outcome: Result<(), Error>)
    ensures
        match outcome {
            Ok(_) => accepted_outcome(status, body@) is Ok,
            Err(e) => accepted_outcome(status, body@) == Err::<(), ErrorModel>(e@),
        },
{
    if status != STATUS_OK {
        return Err(Error::Lotus(status, body.to_owned()));
    }
    Ok(())
}

/// Reads the answer to a call from a tree, leaving the result as a tree.
pub fn answer_from_tree(tree: &Json) -> (answer: Option<Rs<&Json>>)
    ensures
        match answer {
            Some(rs) => answer_of(tree@) == Some((rs.result@, rs.jsonrpc@, rs.id)),
            None => answer_of(tree@) is None,
        },
{
    let result = match tree.get("result") {
        Some(v) => v,
        None => return None,
    };
    let version = match tree.get("jsonrpc") {
        Some(v) => v,
        None => return None,
    };
    let id = match tree.get("id") {
        Some(v) => v,
        None => return None,
    };
    match (version.as_str(), id.as_i64()) {
        (Some(v), Some(n)) => Some(Rs { result, jsonrpc: v.to_owned(), id: n }),
        _ => None,
    }
}

/// Reads the response to a call and hands back the tree of the answer.
pub fn answer(status: u16, body: &str) -> (outcome: Result<Json, Error>)
    ensures
        match outcome {
            Ok(tree) => answer_outcome(status, body@) == Ok::<JsonModel, ErrorModel>(tree@),
            Err(e) => answer_outcome(status, body@) == Err::<JsonModel, ErrorModel>(e@),
        },
{
    if status != STATUS_OK {
        return Err(Error::Lotus(status, body.to_owned()));
    }
    match parse(body) {
        Ok(tree) => {
            if answer_from_tree(&tree).is_some() {
                Ok(tree)
            } else {
                Err(Error::Shape)
            }
        },
        Err(message) => Err(Error::Json(message)),
    }
}

/// The randomness that the node drew, from the base64 text of its answer.
pub fn randomness(result: &str) -> (bytes: Result<Vec<u8>, Error>)
    ensures
        match bytes {
            Ok(b) => decoded_padded(result@) == Some(b@),
            Err(e) => decoded_padded(result@) is None && e@ == ErrorModel::Decode,
        },
{
    match decode_padded(result) {
        Some(bytes) => Ok(bytes),
        None => Err(Error::Decode),
    }
}

} // verus!
