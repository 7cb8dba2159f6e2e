//! Inbound envelopes, the replies they resolve to, and statement results.

use crate::request::HELLO_REQ_ID;
use crate::text::opt_view;
use vstd::prelude::*;

verus! {

/// The error body of an inbound envelope. Its view is the message.
#[derive(Debug, Clone)]
pub struct ErrorType {
    pub message: String,
}

impl View for ErrorType {
    type V = Seq<char>;

    open spec fn view(&self) -> Seq<char> {
        self.message@
    }
}

/// A result column: its name and declared type, where the server gave them.
#[derive(Debug, Clone)]
pub struct Column {
    pub name: Option<String>,
    pub decltype: Option<String>,
}

/// A `Column` with its texts as characters.
pub struct ColumnView {
    pub name: Option<Seq<char>>,
    pub decltype: Option<Seq<char>>,
}

impl View for Column {
    type V = ColumnView;

    open spec fn view(&self) -> ColumnView {
        ColumnView { name: opt_view(self.name), decltype: opt_view(self.decltype) }
    }
}

impl ColumnView {
    /// The text a column is shown as: its name, or nothing where it has none.
    pub open spec fn text(self) -> Seq<char> {
        match self.name {
            Some(name) => name,
            None => Seq::empty(),
        }
    }
}

impl Column {
    /// The column's name, or the empty text where it has none.
    pub fn to_text(&self) -> (shown: String)
        ensures
            shown@ == self@.text(),
    {
        match &self.name {
            Some(name) => name.clone(),
            None => String::new(),
        }
    }
}

/// A scalar of a result row. An integer is held as the decimal text it
/// travelled as, so that no 64-bit value loses precision; a float is held as
/// decimal text too, and a blob as base64 text.
#[derive(Debug, Clone)]
pub enum LibSqlValue {
    Null,
    Integer { value: String },
    Float { value: String },
    Text { value: String },
    Blob { base64: String },
}

/// A `LibSqlValue` with its text as characters.
pub enum LibSqlValueView {
    Null,
    Integer { value: Seq<char> },
    Float { value: Seq<char> },
    Text { value: Seq<char> },
    Blob { base64: Seq<char> },
}

impl View for LibSqlValue {
    type V = LibSqlValueView;

    open spec fn view(&self) -> LibSqlValueView {
        match self {
            LibSqlValue::Null => LibSqlValueView::Null,
            LibSqlValue::Integer { value } => LibSqlValueView::Integer { value: value@ },
            LibSqlValue::Float { value } => LibSqlValueView::Float { value: value@ },
            LibSqlValue::Text { value } => LibSqlValueView::Text { value: value@ },
            LibSqlValue::Blob { base64 } => LibSqlValueView::Blob { base64: base64@ },
        }
    }
}

impl LibSqlValueView {
    /// The text a scalar is shown as: `null` for the null value, otherwise
    /// the text that the scalar holds.
    pub open spec fn text(self) -> Seq<char> {
        match self {
            LibSqlValueView::Null => "null"@,
            LibSqlValueView::Integer { value } => value,
            LibSqlValueView::Float { value } => value,
            LibSqlValueView::Text { value } => value,
            LibSqlValueView::Blob { base64 } => base64,
        }
    }
}

impl LibSqlValue {
    /// `null` for the null value, otherwise the text that the scalar holds.
    pub fn to_text(&self) -> (shown: String)
        ensures
            shown@ == self@.text(),
    {
        match self {
            LibSqlValue::Null => "null".to_owned(),
            LibSqlValue::Integer { value } => value.clone(),
            LibSqlValue::Float { value } => value.clone(),
            LibSqlValue::Text { value } => value.clone(),
            LibSqlValue::Blob { base64 } => base64.clone(),
        }
    }
}

/// What a statement produced: columns, rows aligned with them, and counters.
/// The query duration is held as the decimal text of its milliseconds.
#[derive(Debug, Clone)]
pub struct StmtResult {
    pub cols: Vec<Column>,
    pub rows: Vec<Vec<LibSqlValue>>,
    pub affected_row_count: i64,
    pub rows_read: i64,
    pub rows_written: i64,
    pub query_duration_ms: String,
}

/// A `StmtResult` with its columns and rows as sequences.
pub struct StmtResultView {
    pub cols: Seq<ColumnView>,
    pub rows: Seq<Seq<LibSqlValueView>>,
    pub affected_row_count: i64,
    pub rows_read: i64,
    pub rows_written: i64,
    pub query_duration_ms: Seq<char>,
}

impl View for StmtResult {
    type V = StmtResultView;

    open spec fn view(&self) -> StmtResultView {
        StmtResultView {
            cols: self.cols@.map_values(|c: Column| c@),
            rows: self.rows@.map_values(
                |row: Vec<LibSqlValue>| row@.map_values(|v: LibSqlValue| v@),
            ),
            affected_row_count: self.affected_row_count,
            rows_read: self.rows_read,
            rows_written: self.rows_written,
            query_duration_ms: self.query_duration_ms@,
        }
    }
}

impl StmtResultView {
    /// Every row has one value per column.
    pub open spec fn aligned(self) -> bool {
        forall|i: int| 0 <= i < self.rows.len() ==> (#[trigger] self.rows[i]).len() == self.cols.len()
    }
}

impl StmtResult {
    /// Whether every row has one value per column.
    pub fn is_aligned(&self) -> (ok: bool)
        ensures
            ok == self@.aligned(),
    {
        let width = self.cols.len();
        let mut i: usize = 0;
        while i < self.rows.len()
            invariant
                i <= self.rows@.len(),
                width == self@.cols.len(),
                forall|j: int| 0 <= j < i ==> (#[trigger] self@.rows[j]).len() == width,
            decreases self.rows@.len() - i,
        {
            assert(self@.rows[i as int].len() == self.rows@[i as int]@.len());
            if self.rows[i].len() != width {
                return false;
            }
            i += 1;
        }
        true
    }
}

/// The payload of an inbound envelope: its own tag, where it carries one, and
/// the statement result, where it carries one.
#[derive(Debug, Clone)]
pub struct ResponsePayload {
    pub ty: Option<String>,
    pub result: Option<StmtResult>,
}

/// A `ResponsePayload` with its tag as characters.
pub struct ResponsePayloadView {
    pub ty: Option<Seq<char>>,
    pub result: Option<StmtResultView>,
}

impl View for ResponsePayload {
    type V = ResponsePayloadView;

    open spec fn view(&self) -> ResponsePayloadView {
        ResponsePayloadView {
            ty: opt_view(self.ty),
            result: opt_view(self.result),
        }
    }
}

/// An inbound envelope as it was decoded from a text frame.
#[derive(Debug, Clone)]
pub struct ResponseMsg {
    pub ty: String,
    pub request_id: Option<i32>,
    pub response: Option<ResponsePayload>,
    pub error: Option<ErrorType>,
}

/// A `ResponseMsg` with its texts as characters.
pub struct ResponseMsgView {
    pub ty: Seq<char>,
    pub request_id: Option<i32>,
    pub response: Option<ResponsePayloadView>,
    pub error: Option<Seq<char>>,
}

impl View for ResponseMsg {
    type V = ResponseMsgView;

    open spec fn view(&self) -> ResponseMsgView {
        ResponseMsgView {
            ty: self.ty@,
            request_id: self.request_id,
            response: opt_view(self.response),
            error: opt_view(self.error),
        }
    }
}

/// What a pending request is resolved with.
#[derive(Debug, Clone)]
pub enum ResponseType {
    /// The latency probe was answered.
    Pong,
    /// The server reported a failure, whatever the request was.
    Error { message: String },
    /// The handshake was accepted.
    HelloOk,
    /// The stream was opened.
    OpenStreamResp,
    /// The statement ran.
    ExecuteResp { result: StmtResult },
    /// An envelope with a tag that is not known and nothing usable in it.
    Unrecognized,
}

/// A `ResponseType` with its texts as characters.
pub enum ResponseTypeView {
    Pong,
    Error { message: Seq<char> },
    HelloOk,
    OpenStreamResp,
    ExecuteResp { result: StmtResultView },
    Unrecognized,
}

impl View for ResponseType {
    type V = ResponseTypeView;

    open spec fn view(&self) -> ResponseTypeView {
        match self {
            ResponseType::Pong => ResponseTypeView::Pong,
            ResponseType::Error { message } => ResponseTypeView::Error { message: message@ },
            ResponseType::HelloOk => ResponseTypeView::HelloOk,
            ResponseType::OpenStreamResp => ResponseTypeView::OpenStreamResp,
            ResponseType::ExecuteResp { result } => ResponseTypeView::ExecuteResp {
                result: result@,
            },
            ResponseType::Unrecognized => ResponseTypeView::Unrecognized,
        }
    }
}

impl ResponseMsgView {
    /// The request that the envelope answers: the handshake where it names none.
    pub open spec fn correlation_id(self) -> i32 {
        match self.request_id {
            Some(id) => id,
            None => HELLO_REQ_ID,
        }
    }

    /// The tag that decides what a payload is: the payload's own, or the
    /// envelope's where the payload carries none.
    pub open spec fn payload_tag(self) -> Seq<char> {
        match self.response {
            Some(ResponsePayloadView { ty: Some(tag), .. }) => tag,
            _ => self.ty,
        }
    }

    /// The reply that the envelope stands for. `hello_ok` accepts the
    /// handshake; `response_error` carries the server's message; a payload
    /// tagged `open_stream` or `execute` answers the request of that kind;
    /// anything else, and a known tag without what it should carry, is
    /// unrecognized.
    pub open spec fn reply(self) -> ResponseTypeView {
        if self.ty == "hello_ok"@ {
            ResponseTypeView::HelloOk
        } else if self.ty == "response_error"@ {
            match self.error {
                Some(message) => ResponseTypeView::Error { message },
                None => ResponseTypeView::Unrecognized,
            }
        } else {
            match self.response {
                Some(payload) => if self.payload_tag() == "open_stream"@ {
                    ResponseTypeView::OpenStreamResp
                } else if self.payload_tag() == "execute"@ {
                    match payload.result {
                        Some(result) => ResponseTypeView::ExecuteResp { result },
                        None => ResponseTypeView::Unrecognized,
                    }
                } else {
                    ResponseTypeView::Unrecognized
                },
                None => ResponseTypeView::Unrecognized,
            }
        }
    }
}

impl ResponseMsg {
    /// The id to correlate on: the envelope's, or the handshake's where the
    /// envelope names none.
    pub fn id(&self) -> (id: i32)
        ensures
            id == self@.correlation_id(),
    {
        match self.request_id {
            Some(id) => id,
            None => HELLO_REQ_ID,
        }
    }

    /// Classifies the envelope by its tag.
    pub fn classify(self) -> (reply: ResponseType)
        ensures
            reply@ == self@.reply(),
    {
        let ResponseMsg { ty, request_id: _, response, error } = self;
        if ty == "hello_ok".to_owned() {
            ResponseType::HelloOk
        } else if ty == "response_error".to_owned() {
            match error {
                Some(error) => ResponseType::Error { message: error.message },
                None => ResponseType::Unrecognized,
            }
        } else {
            match response {
                Some(payload) => {
                    let ResponsePayload { ty: inner, result } = payload;
                    let tag = match inner {
                        Some(tag) => tag,
                        None => ty,
                    };
                    if tag == "open_stream".to_owned() {
                        ResponseType::OpenStreamResp
                    } else if tag == "execute".to_owned() {
                        match result {
                            Some(result) => ResponseType::ExecuteResp { result },
                            None => ResponseType::Unrecognized,
                        }
                    } else {
                        ResponseType::Unrecognized
                    }
                },
                None => ResponseType::Unrecognized,
            }
        }
    }
}

} // verus!
