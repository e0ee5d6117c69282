//! Requests to the engine and its replies, each wrapped with the identifier
//! that pairs a reply with its request.

use crate::model::project::Project;
use crate::util::id::get_id;
use vstd::prelude::*;

verus! {

#[derive(Debug, PartialEq, Eq)]
pub enum Request {
    Init,
    Exit,
    GetModel,
    LoadModel(Project),
}

#[derive(Debug, PartialEq, Eq)]
pub struct RequestWrapper {
    pub id: u64,
    pub request: Request,
}

impl RequestWrapper {
    pub fn new(id: u64, request: Request) -> (r: Self)
        ensures
            r.id == id,
            r.request == request,
    {
        RequestWrapper { id, request }
    }

    /// Wraps a request with a new identifier; nothing where no identifier
    /// can be drawn.
    pub fn wrap(request: Request) -> (r: Option<Self>)
        ensures
            r.is_some() ==> r.unwrap().request == request,
    {
        match get_id() {
            Some(id) => Some(RequestWrapper::new(id, request)),
            None => None,
        }
    }
}

#[derive(Debug, PartialEq, Eq)]
pub enum Reply {
    GetModelReply(Project),
}

#[derive(Debug, PartialEq, Eq)]
pub struct ReplyWrapper {
    pub id: u64,
    /// The reply, where the request has one.
    pub reply: Option<Reply>,
}

impl ReplyWrapper {
    pub fn new(id: u64, reply: Option<Reply>) -> (r: Self)
        ensures
            r.id == id,
            r.reply == reply,
    {
        ReplyWrapper { id, reply }
    }
}

} // verus!
