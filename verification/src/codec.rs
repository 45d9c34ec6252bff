//! The generic frame model exchanged with the transport collaborator: a
//! dynamically shaped reply tree coming in, an ordered token frame going
//! out, and the error taxonomy shared by builders and decoders.

use vstd::prelude::*;

verus! {

broadcast use vstd::std_specs::vec::group_vec_axioms;

/// A generic reply value as delivered by the wire-protocol codec: a tagged
/// tree of integers, byte strings, status strings and nested arrays.
#[derive(Debug)]
pub enum Response {
    /// A signed integer reply.
    Integer(i64),
    /// A bulk (byte) string reply, held here as its text content.
    Bytes(String),
    /// A status (simple string) reply such as `OK`.
    String(String),
    /// An ordered sequence of nested replies.
    Array(Vec<Response>),
    /// An error reply produced by the server.
    Error(String),
}

/// The mathematical shape of a [`Response`] tree.
pub enum RespV {
    Integer(int),
    Bytes(Seq<char>),
    Status(Seq<char>),
    Array(Seq<RespV>),
    Error(Seq<char>),
}

/// The view of a reply tree: each node mapped to its shape, arrays mapped
/// element-wise.
pub open spec fn resp_view(r: Response) -> RespV
    decreases r,
{
    match r {
        Response::Integer(n) => RespV::Integer(n as int),
        Response::Bytes(s) => RespV::Bytes(s@),
        Response::String(s) => RespV::Status(s@),
        Response::Array(items) => RespV::Array(resp_views(items@)),
        Response::Error(s) => RespV::Error(s@),
    }
}

/// The views of a sequence of reply trees, in order.
pub open spec fn resp_views(s: Seq<Response>) -> Seq<RespV>
    decreases s,
{
    if s.len() == 0 {
        Seq::empty()
    } else {
        resp_views(s.drop_last()).push(resp_view(s.last()))
    }
}

/// The element-wise reading of [`resp_views`]: it keeps the length and
/// views each position.
pub broadcast proof fn lemma_resp_views(s: Seq<Response>)
    ensures
        (#[trigger] resp_views(s)).len() == s.len(),
        forall|i: int| 0 <= i < s.len() ==> resp_views(s)[i] == resp_view(s[i]),
    decreases s.len(),
{
    if s.len() > 0 {
        lemma_resp_views(s.drop_last());
    }
}

impl View for Response {
    type V = RespV;

    open spec fn view(&self) -> RespV {
        resp_view(*self)
    }
}

/// One token (or nested token list) of an outgoing command frame.
#[derive(Debug)]
pub enum Request {
    /// An ordered sequence of nested frame parts.
    Array(Vec<Request>),
    /// A textual token.
    Text(String),
    /// A numeric token.
    Number(usize),
}

/// The mathematical shape of a [`Request`] frame.
pub enum ReqV {
    Array(Seq<ReqV>),
    Text(Seq<char>),
    Number(int),
}

/// The view of a frame part: tokens mapped to their content, arrays
/// mapped element-wise.
pub open spec fn req_view(r: Request) -> ReqV
    decreases r,
{
    match r {
        Request::Array(items) => ReqV::Array(req_views(items@)),
        Request::Text(s) => ReqV::Text(s@),
        Request::Number(n) => ReqV::Number(n as int),
    }
}

/// The views of a sequence of frame parts, in order.
pub open spec fn req_views(s: Seq<Request>) -> Seq<ReqV>
    decreases s,
{
    if s.len() == 0 {
        Seq::empty()
    } else {
        req_views(s.drop_last()).push(req_view(s.last()))
    }
}

/// The element-wise reading of [`req_views`]: it keeps the length and
/// views each position.
pub broadcast proof fn lemma_req_views(s: Seq<Request>)
    ensures
        (#[trigger] req_views(s)).len() == s.len(),
        forall|i: int| 0 <= i < s.len() ==> req_views(s)[i] == req_view(s[i]),
    decreases s.len(),
{
    if s.len() > 0 {
        lemma_req_views(s.drop_last());
    }
}

impl View for Request {
    type V = ReqV;

    open spec fn view(&self) -> ReqV {
        req_view(*self)
    }
}

impl Clone for Response {
    /// A deep copy of the reply tree, equal to the original in shape.
    fn clone(&self) -> (r: Self)
        ensures
            r@ == self@,
        decreases self,
    {
        match self {
            Response::Integer(n) => Response::Integer(*n),
            Response::Bytes(s) => Response::Bytes(s.clone()),
            Response::String(s) => Response::String(s.clone()),
            Response::Array(items) => {
                let mut copies: Vec<Response> = Vec::new();
                let mut i: usize = 0;
                while i < items.len()
                    invariant
                        i <= items.len(),
                        copies@.len() == i as int,
                        *self matches Response::Array(its) && its == *items,
                        forall|j: int| 0 <= j < i as int ==> copies@[j]@ == items@[j]@,
                    decreases items.len() - i,
                {
                    proof {
                        assert(decreases_to!(*items => items@));
                        assert(decreases_to!(items@ => items@[i as int]));
                    }
                    copies.push(items[i].clone());
                    i = i + 1;
                }
                proof {
                    lemma_resp_views(copies@);
                    lemma_resp_views(items@);
                    assert(resp_views(copies@) =~= resp_views(items@));
                }
                Response::Array(copies)
            },
            Response::Error(s) => Response::Error(s.clone()),
        }
    }
}

/// The errors this crate reports: an application-level or builder
/// validation error carrying its reason, a shape decode error carrying the
/// expected kind and the offending value, and a missing required key.
#[derive(Debug)]
pub enum CommandError {
    /// The server's logical answer was itself an error string, or a
    /// builder rejected an illegal call sequence; carries the reason.
    Error(String),
    /// A reply value's runtime shape does not match what its context
    /// requires; carries the expected kind and the offending value.
    Output(String, Response),
    /// A required key was absent from a flattened key/value map.
    MissingField(String),
}

/// The mathematical shape of a [`CommandError`].
pub enum ErrV {
    Error(Seq<char>),
    Output(Seq<char>, RespV),
    MissingField(Seq<char>),
}

impl View for CommandError {
    type V = ErrV;

    open spec fn view(&self) -> ErrV {
        match self {
            CommandError::Error(s) => ErrV::Error(s@),
            CommandError::Output(m, v) => ErrV::Output(m@, v@),
            CommandError::MissingField(k) => ErrV::MissingField(k@),
        }
    }
}

/// The view of a whole `Result`, with both sides mapped to their shapes.
pub open spec fn res_view<T: View>(r: Result<T, CommandError>) -> Result<T::V, ErrV> {
    match r {
        Ok(t) => Ok(t@),
        Err(e) => Err(e@),
    }
}

} // verus!
