//! Outbound envelopes: the handshake, opening a stream, executing a statement.

use crate::text::opt_view;
use vstd::prelude::*;

verus! {

/// The id under which the handshake travels.
pub const HELLO_REQ_ID: i32 = 1;

/// The id under which the latency probe is tracked.
pub const PING_REQ_ID: i32 = -1;

/// The first id handed out to an ordinary request.
pub const FIRST_REQ_ID: i32 = 2;

/// The handshake message, which carries the bearer credential.
#[derive(Debug, Clone)]
pub struct HelloMsg {
    pub ty: String,
    pub jwt: String,
}

/// A `HelloMsg` with its texts as characters.
pub struct HelloMsgView {
    pub ty: Seq<char>,
    pub jwt: Seq<char>,
}

impl View for HelloMsg {
    type V = HelloMsgView;

    open spec fn view(&self) -> HelloMsgView {
        HelloMsgView { ty: self.ty@, jwt: self.jwt@ }
    }
}

/// The body of a request that opens a stream.
#[derive(Debug, Clone)]
pub struct OpenStreamRequest {
    pub ty: String,
    pub stream_id: i32,
}

/// An `OpenStreamRequest` with its tag as characters.
pub struct OpenStreamRequestView {
    pub ty: Seq<char>,
    pub stream_id: i32,
}

impl View for OpenStreamRequest {
    type V = OpenStreamRequestView;

    open spec fn view(&self) -> OpenStreamRequestView {
        OpenStreamRequestView { ty: self.ty@, stream_id: self.stream_id }
    }
}

/// The envelope of a request that opens a stream.
#[derive(Debug, Clone)]
pub struct OpenStreamReq {
    pub ty: String,
    pub request_id: i32,
    pub request: OpenStreamRequest,
}

/// An `OpenStreamReq` with its tag as characters.
pub struct OpenStreamReqView {
    pub ty: Seq<char>,
    pub request_id: i32,
    pub request: OpenStreamRequestView,
}

impl View for OpenStreamReq {
    type V = OpenStreamReqView;

    open spec fn view(&self) -> OpenStreamReqView {
        OpenStreamReqView { ty: self.ty@, request_id: self.request_id, request: self.request@ }
    }
}

/// A statement argument. An integer travels as decimal text in `value`, a
/// blob as base64 text in `base64`.
#[derive(Debug, Clone)]
pub struct Value {
    pub ty: String,
    pub value: Option<String>,
    pub base64: Option<String>,
}

/// A `Value` with its texts as characters.
pub struct ValueView {
    pub ty: Seq<char>,
    pub value: Option<Seq<char>>,
    pub base64: Option<Seq<char>>,
}

impl View for Value {
    type V = ValueView;

    open spec fn view(&self) -> ValueView {
        ValueView { ty: self.ty@, value: opt_view(self.value), base64: opt_view(self.base64) }
    }
}

/// A statement argument bound by name.
#[derive(Debug, Clone)]
pub struct NamedArg {
    pub name: String,
    pub value: Value,
}

/// A `NamedArg` with its texts as characters.
pub struct NamedArgView {
    pub name: Seq<char>,
    pub value: ValueView,
}

impl View for NamedArg {
    type V = NamedArgView;

    open spec fn view(&self) -> NamedArgView {
        NamedArgView { name: self.name@, value: self.value@ }
    }
}

/// A statement: its text, its arguments, and whether rows are wanted back.
#[derive(Debug, Clone)]
pub struct Statement {
    pub sql: String,
    pub args: Option<Vec<Value>>,
    pub named_args: Option<Vec<NamedArg>>,
    pub want_rows: Option<bool>,
}

/// A `Statement` with its text as characters and its arguments as sequences.
pub struct StatementView {
    pub sql: Seq<char>,
    pub args: Option<Seq<ValueView>>,
    pub named_args: Option<Seq<NamedArgView>>,
    pub want_rows: Option<bool>,
}

impl View for Statement {
    type V = StatementView;

    open spec fn view(&self) -> StatementView {
        StatementView {
            sql: self.sql@,
            args: match self.args {
                Some(args) => Some(args@.map_values(|a: Value| a@)),
                None => None,
            },
            named_args: match self.named_args {
                Some(args) => Some(args@.map_values(|a: NamedArg| a@)),
                None => None,
            },
            want_rows: self.want_rows,
        }
    }
}

/// The body of a request that executes a statement on a stream.
#[derive(Debug, Clone)]
pub struct ExecuteRequest {
    pub ty: String,
    pub stream_id: i32,
    pub stmt: Statement,
}

/// An `ExecuteRequest` with its tag as characters.
pub struct ExecuteRequestView {
    pub ty: Seq<char>,
    pub stream_id: i32,
    pub stmt: StatementView,
}

impl View for ExecuteRequest {
    type V = ExecuteRequestView;

    open spec fn view(&self) -> ExecuteRequestView {
        ExecuteRequestView { ty: self.ty@, stream_id: self.stream_id, stmt: self.stmt@ }
    }
}

/// The envelope of a request that executes a statement.
#[derive(Debug, Clone)]
pub struct ExecuteReq {
    pub ty: String,
    pub request_id: i32,
    pub request: ExecuteRequest,
}

/// An `ExecuteReq` with its tag as characters.
pub struct ExecuteReqView {
    pub ty: Seq<char>,
    pub request_id: i32,
    pub request: ExecuteRequestView,
}

impl View for ExecuteReq {
    type V = ExecuteReqView;

    open spec fn view(&self) -> ExecuteReqView {
        ExecuteReqView { ty: self.ty@, request_id: self.request_id, request: self.request@ }
    }
}

/// The handshake that presents `jwt`.
pub open spec fn hello_msg(jwt: Seq<char>) -> HelloMsgView {
    HelloMsgView { ty: "hello"@, jwt }
}

/// The request that opens stream `stream_id` under `request_id`.
pub open spec fn open_stream_req(request_id: i32, stream_id: i32) -> OpenStreamReqView {
    OpenStreamReqView {
        ty: "request"@,
        request_id,
        request: OpenStreamRequestView { ty: "open_stream"@, stream_id },
    }
}

/// The request that runs `sql`, without arguments and asking for its rows,
/// on stream `stream_id` under `request_id`.
pub open spec fn execute_req(request_id: i32, stream_id: i32, sql: Seq<char>) -> ExecuteReqView {
    ExecuteReqView {
        ty: "request"@,
        request_id,
        request: ExecuteRequestView {
            ty: "execute"@,
            stream_id,
            stmt: StatementView { sql, args: None, named_args: None, want_rows: Some(true) },
        },
    }
}

impl HelloMsg {
    /// The handshake that presents `jwt`.
    pub fn new(jwt: &str) -> (msg: HelloMsg)
        ensures
            msg@ == hello_msg(jwt@),
    {
        HelloMsg { ty: "hello".to_owned(), jwt: jwt.to_owned() }
    }
}

impl OpenStreamReq {
    /// The request that opens stream `stream_id` under `request_id`.
    pub fn new(request_id: i32, stream_id: i32) -> (req: OpenStreamReq)
        ensures
            req@ == open_stream_req(request_id, stream_id),
    {
        OpenStreamReq {
            ty: "request".to_owned(),
            request_id,
            request: OpenStreamRequest { ty: "open_stream".to_owned(), stream_id },
        }
    }
}

impl ExecuteReq {
    /// The request that runs `sql` on stream `stream_id` under `request_id`.
    pub fn new(request_id: i32, stream_id: i32, sql: &str) -> (req: ExecuteReq)
        ensures
            req@ == execute_req(request_id, stream_id, sql@),
    {
        ExecuteReq {
            ty: "request".to_owned(),
            request_id,
            request: ExecuteRequest {
                ty: "execute".to_owned(),
                stream_id,
                stmt: Statement {
                    sql: sql.to_owned(),
                    args: None,
                    named_args: None,
                    want_rows: Some(true),
                },
            },
        }
    }
}

} // verus!
