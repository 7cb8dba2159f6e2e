//! The connection core: the id generator, the pending table, the handshake,
//! and the decisions taken for each request sent and each frame received.
//!
//! The core neither reads nor writes the stream. A caller registers its
//! request and is told which message to write and under which slot number to
//! await the reply. The reader hands in each frame it received and is told
//! which slot, if any, to resolve and with what.

use crate::request::{
    execute_req, hello_msg, open_stream_req, ExecuteReq, HelloMsg, OpenStreamReq, FIRST_REQ_ID,
    HELLO_REQ_ID, PING_REQ_ID,
};
use crate::response::{
    ResponseMsg, ResponseMsgView, ResponseType, ResponseTypeView, StmtResult, StmtResultView,
};
use crate::table::{lists, nothing_pending, slot_of, CorrelationTable};
use crate::text::opt_view;
use vstd::prelude::*;

verus! {

/// The subprotocol to ask for when the stream is established.
pub const SUBPROTOCOL: &'static str = "hrana3";

/// Why a call failed.
#[derive(Debug, Clone)]
pub enum ClientError {
    /// The stream could not be written, or closed before the reply came.
    Transport { message: String },
    /// The handshake was rejected or answered by anything but its acceptance.
    Handshake { message: String },
    /// The server reported that the statement failed.
    Query { message: String },
    /// The reply was not of the kind that the call expects.
    ProtocolMismatch { message: String },
}

/// A `ClientError` with its message as characters.
pub enum ClientErrorView {
    Transport { message: Seq<char> },
    Handshake { message: Seq<char> },
    Query { message: Seq<char> },
    ProtocolMismatch { message: Seq<char> },
}

impl View for ClientError {
    type V = ClientErrorView;

    open spec fn view(&self) -> ClientErrorView {
        match self {
            ClientError::Transport { message } => ClientErrorView::Transport { message: message@ },
            ClientError::Handshake { message } => ClientErrorView::Handshake { message: message@ },
            ClientError::Query { message } => ClientErrorView::Query { message: message@ },
            ClientError::ProtocolMismatch { message } => ClientErrorView::ProtocolMismatch {
                message: message@,
            },
        }
    }
}

impl ClientErrorView {
    /// The message that the error carries.
    pub open spec fn message(self) -> Seq<char> {
        match self {
            ClientErrorView::Transport { message } => message,
            ClientErrorView::Handshake { message } => message,
            ClientErrorView::Query { message } => message,
            ClientErrorView::ProtocolMismatch { message } => message,
        }
    }
}

impl ClientError {
    /// The message that the error carries.
    pub fn to_text(&self) -> (text: String)
        ensures
            text@ == self@.message(),
    {
        match self {
            ClientError::Transport { message } => message.clone(),
            ClientError::Handshake { message } => message.clone(),
            ClientError::Query { message } => message.clone(),
            ClientError::ProtocolMismatch { message } => message.clone(),
        }
    }
}

/// The view of the outcome of a call.
pub open spec fn outcome<T: View>(result: Result<T, ClientError>) -> Result<T::V, ClientErrorView> {
    match result {
        Ok(value) => Ok(value@),
        Err(error) => Err(error@),
    }
}

/// The failure of a call whose slot was dropped before anything resolved it.
pub open spec fn closed_early() -> ClientErrorView {
    ClientErrorView::Transport { message: "Connection closed before a reply arrived"@ }
}

/// What the handshake comes to. `reply` is what its slot was resolved with,
/// `None` where the slot was dropped.
pub open spec fn hello_outcome(reply: Option<ResponseTypeView>) -> Result<(), ClientErrorView> {
    match reply {
        Some(ResponseTypeView::HelloOk) => Ok(()),
        Some(ResponseTypeView::Error { message }) => Err(ClientErrorView::Handshake { message }),
        Some(_) => Err(ClientErrorView::Handshake { message: "Unexpected response for hello"@ }),
        None => Err(
            ClientErrorView::Handshake { message: "Connection closed during the handshake"@ },
        ),
    }
}

/// What opening a stream comes to.
pub open spec fn open_stream_outcome(reply: Option<ResponseTypeView>) -> Result<
    (),
    ClientErrorView,
> {
    match reply {
        Some(ResponseTypeView::OpenStreamResp) => Ok(()),
        Some(_) => Err(
            ClientErrorView::ProtocolMismatch { message: "Unexpected response for open_stream"@ },
        ),
        None => Err(closed_early()),
    }
}

/// What executing a statement comes to.
pub open spec fn execute_outcome(reply: Option<ResponseTypeView>) -> Result<
    StmtResultView,
    ClientErrorView,
> {
    match reply {
        Some(ResponseTypeView::ExecuteResp { result }) => Ok(result),
        Some(ResponseTypeView::Error { message }) => Err(ClientErrorView::Query { message }),
        Some(_) => Err(
            ClientErrorView::ProtocolMismatch {
                message: "Unexpected response for execute_statement"@,
            },
        ),
        None => Err(closed_early()),
    }
}

/// The milliseconds from `sent_at_ms` to `resolved_at_ms`, and none where the
/// second is not the later.
pub open spec fn elapsed_ms(sent_at_ms: u64, resolved_at_ms: u64) -> u64 {
    if resolved_at_ms >= sent_at_ms {
        (resolved_at_ms - sent_at_ms) as u64
    } else {
        0
    }
}

/// What a latency probe comes to.
pub open spec fn ping_outcome(
    reply: Option<ResponseTypeView>,
    sent_at_ms: u64,
    resolved_at_ms: u64,
) -> Result<u64, ClientErrorView> {
    match reply {
        Some(ResponseTypeView::Pong) => Ok(elapsed_ms(sent_at_ms, resolved_at_ms)),
        Some(_) => Err(
            ClientErrorView::ProtocolMismatch { message: "Unexpected response for ping"@ },
        ),
        None => Err(closed_early()),
    }
}

/// The id that follows `id` in the order in which ids are handed out. The
/// order runs upwards, wraps from the largest value to the smallest, and
/// passes over the two reserved ids.
pub open spec fn next_id_after(id: i32) -> i32 {
    if id == i32::MAX {
        i32::MIN
    } else if id == PING_REQ_ID - 1 {
        0
    } else if id == HELLO_REQ_ID - 1 {
        FIRST_REQ_ID
    } else {
        (id + 1) as i32
    }
}

/// What one unit read from the stream was.
#[derive(Debug, Clone)]
pub enum Inbound {
    /// A text frame: the envelope decoded from it, or `None` where it held none.
    Text { decoded: Option<ResponseMsg> },
    /// A pong control frame.
    Pong,
    /// A close frame.
    Close,
    /// Any other frame.
    Other,
    /// The stream failed.
    Failed,
}

/// An `Inbound` with its envelope by its view.
pub enum InboundView {
    Text { decoded: Option<ResponseMsgView> },
    Pong,
    Close,
    Other,
    Failed,
}

impl View for Inbound {
    type V = InboundView;

    open spec fn view(&self) -> InboundView {
        match self {
            Inbound::Text { decoded } => InboundView::Text { decoded: opt_view(*decoded) },
            Inbound::Pong => InboundView::Pong,
            Inbound::Close => InboundView::Close,
            Inbound::Other => InboundView::Other,
            Inbound::Failed => InboundView::Failed,
        }
    }
}

/// What the reader is to do about a unit it read.
#[derive(Debug, Clone)]
pub enum ListenerAction {
    /// Resolve `slot` with `reply`.
    Deliver { slot: u64, reply: ResponseType },
    /// Drop `slot` unresolved: its envelope held nothing to deliver.
    Abandon { slot: u64 },
    /// The frame held no envelope: drop it.
    DropMalformed,
    /// Nothing is pending under the id: drop the reply.
    DropOrphaned { request_id: i32 },
    /// The frame answers nothing: go on.
    Skip,
    /// Stop reading.
    Terminate,
}

/// A `ListenerAction` with its reply by its view.
pub enum ListenerActionView {
    Deliver { slot: u64, reply: ResponseTypeView },
    Abandon { slot: u64 },
    DropMalformed,
    DropOrphaned { request_id: i32 },
    Skip,
    Terminate,
}

impl View for ListenerAction {
    type V = ListenerActionView;

    open spec fn view(&self) -> ListenerActionView {
        match self {
            ListenerAction::Deliver { slot, reply } => ListenerActionView::Deliver {
                slot: *slot,
                reply: reply@,
            },
            ListenerAction::Abandon { slot } => ListenerActionView::Abandon { slot: *slot },
            ListenerAction::DropMalformed => ListenerActionView::DropMalformed,
            ListenerAction::DropOrphaned { request_id } => ListenerActionView::DropOrphaned {
                request_id: *request_id,
            },
            ListenerAction::Skip => ListenerActionView::Skip,
            ListenerAction::Terminate => ListenerActionView::Terminate,
        }
    }
}

/// What becomes of a reply to `id`, given what is pending: the slot pending
/// under `id` is resolved with the reply, or dropped where the reply is
/// unrecognized; the reply is dropped where nothing is pending under `id`.
pub open spec fn resolution(
    pending: Map<i32, u64>,
    id: i32,
    reply: ResponseTypeView,
) -> ListenerActionView {
    if !pending.contains_key(id) {
        ListenerActionView::DropOrphaned { request_id: id }
    } else if reply is Unrecognized {
        ListenerActionView::Abandon { slot: pending[id] }
    } else {
        ListenerActionView::Deliver { slot: pending[id], reply }
    }
}

/// What the reader is to do about `event`, given what is pending.
pub open spec fn action_on(pending: Map<i32, u64>, event: InboundView) -> ListenerActionView {
    match event {
        InboundView::Text { decoded: Some(msg) } => resolution(
            pending,
            msg.correlation_id(),
            msg.reply(),
        ),
        InboundView::Text { decoded: None } => ListenerActionView::DropMalformed,
        InboundView::Pong => resolution(pending, PING_REQ_ID, ResponseTypeView::Pong),
        InboundView::Close => ListenerActionView::Terminate,
        InboundView::Other => ListenerActionView::Skip,
        InboundView::Failed => ListenerActionView::Terminate,
    }
}

/// What is pending once `event` has been handled.
pub open spec fn pending_after(pending: Map<i32, u64>, event: InboundView) -> Map<i32, u64> {
    match event {
        InboundView::Text { decoded: Some(msg) } => pending.remove(msg.correlation_id()),
        InboundView::Pong => pending.remove(PING_REQ_ID),
        _ => pending,
    }
}

/// What a caller is handed when its request is registered: the message to
/// write, the number of the slot that its reply will resolve, and the slot
/// that the registration displaced, one that was pending under the same id
/// and can no longer be resolved.
#[derive(Debug, Clone)]
pub struct Outbound<M> {
    pub message: M,
    pub slot: u64,
    pub displaced: Option<u64>,
}

/// The slot number that follows `slot`: the next one up, and zero after the
/// largest.
pub open spec fn next_slot_after(slot: u64) -> u64 {
    if slot == u64::MAX {
        0
    } else {
        (slot + 1) as u64
    }
}

/// The state of a connection as contracts see it.
pub struct ClientState {
    /// The id that the next ordinary request will carry.
    pub next_id: i32,
    /// The number of the slot that the next registration will be given.
    pub next_slot: u64,
    /// The slot awaiting each request in flight.
    pub pending: Map<i32, u64>,
    /// Whether the handshake has been accepted.
    pub ready: bool,
}

impl ClientState {
    /// The state once a slot has been registered under `id`.
    pub open spec fn registered(self, id: i32) -> ClientState {
        ClientState {
            next_slot: next_slot_after(self.next_slot),
            pending: self.pending.insert(id, self.next_slot),
            ..self
        }
    }

    /// The state once an ordinary request has been registered: under the next
    /// id, with the next slot.
    pub open spec fn with_request(self) -> ClientState {
        ClientState { next_id: next_id_after(self.next_id), ..self.registered(self.next_id) }
    }
}

/// The generator of request ids. Its view is the id it hands out next.
pub struct RequestIds {
    next: i32,
}

impl View for RequestIds {
    type V = i32;

    closed spec fn view(&self) -> i32 {
        self.next
    }
}

impl RequestIds {
    #[verifier::type_invariant]
    spec fn no_reserved_id_ahead(self) -> bool {
        self.next != HELLO_REQ_ID && self.next != PING_REQ_ID
    }

    /// A generator that starts at the first ordinary id.
    pub fn new() -> (ids: RequestIds)
        ensures
            ids@ == FIRST_REQ_ID,
    {
        RequestIds { next: FIRST_REQ_ID }
    }

    /// A generator that starts at `first`, unless that is a reserved id.
    pub fn starting_at(first: i32) -> (ids: Option<RequestIds>)
        ensures
            match ids {
                Some(ids) => ids@ == first && first != HELLO_REQ_ID && first != PING_REQ_ID,
                None => first == HELLO_REQ_ID || first == PING_REQ_ID,
            },
    {
        if first == HELLO_REQ_ID || first == PING_REQ_ID {
            None
        } else {
            Some(RequestIds { next: first })
        }
    }

    /// Hands out the next id, which is never one of the two reserved ids, and
    /// moves on to the id that follows it.
    pub fn next(&mut self) -> (id: i32)
        ensures
            id == old(self)@,
            id != HELLO_REQ_ID,
            id != PING_REQ_ID,
            final(self)@ == next_id_after(id),
    {
        proof {
            use_type_invariant(&*self);
        }
        let id: i32 = self.next;
        self.next = if id == i32::MAX {
            i32::MIN
        } else if id == PING_REQ_ID - 1 {
            0
        } else if id == HELLO_REQ_ID - 1 {
            FIRST_REQ_ID
        } else {
            id + 1
        };
        id
    }
}

/// The generator of slot numbers. Its view is the number it hands out next.
pub struct SlotNumbers {
    next: u64,
}

impl View for SlotNumbers {
    type V = u64;

    closed spec fn view(&self) -> u64 {
        self.next
    }
}

impl SlotNumbers {
    /// A generator that starts at zero.
    pub fn new() -> (slots: SlotNumbers)
        ensures
            slots@ == 0,
    {
        SlotNumbers { next: 0 }
    }

    /// A generator that starts at `first`.
    pub fn starting_at(first: u64) -> (slots: SlotNumbers)
        ensures
            slots@ == first,
    {
        SlotNumbers { next: first }
    }

    /// Hands out the next slot number and moves on to the one that follows.
    pub fn next(&mut self) -> (slot: u64)
        ensures
            slot == old(self)@,
            final(self)@ == next_slot_after(slot),
    {
        let slot: u64 = self.next;
        self.next = if slot == u64::MAX {
            0
        } else {
            slot + 1
        };
        slot
    }
}

/// The connection core.
pub struct LibSqlClient {
    request_id: RequestIds,
    slots: SlotNumbers,
    pending: CorrelationTable,
    ready: bool,
}

impl View for LibSqlClient {
    type V = ClientState;

    closed spec fn view(&self) -> ClientState {
        ClientState {
            next_id: self.request_id@,
            next_slot: self.slots@,
            pending: self.pending@,
            ready: self.ready,
        }
    }
}

/// The state of a connection on which nothing has been sent: nothing is
/// pending, the handshake is outstanding, and ids and slot numbers start at
/// their first.
pub open spec fn initial_state() -> ClientState {
    ClientState { next_id: FIRST_REQ_ID, next_slot: 0, pending: nothing_pending(), ready: false }
}

impl LibSqlClient {
    /// A connection on which nothing has been sent.
    pub fn new() -> (client: LibSqlClient)
        ensures
            client@ == initial_state(),
    {
        LibSqlClient {
            request_id: RequestIds::new(),
            slots: SlotNumbers::new(),
            pending: CorrelationTable::new(),
            ready: false,
        }
    }

    /// Starts a connection: registers a slot for the handshake and returns
    /// the core with the handshake message to write first.
    pub fn connect(jwt: &str) -> (started: (LibSqlClient, Outbound<HelloMsg>))
        ensures
            started.0@ == initial_state().registered(HELLO_REQ_ID),
            started.1.message@ == hello_msg(jwt@),
            started.1.slot == 0,
            started.1.displaced is None,
    {
        let mut client = LibSqlClient::new();
        let hello = client.send_hello(jwt);
        (client, hello)
    }

    /// Whether the handshake has been accepted.
    pub fn is_ready(&self) -> (ready: bool)
        ensures
            ready == self@.ready,
    {
        self.ready
    }

    /// Hands out the next request id. It is never one of the two reserved ids.
    pub fn next_request_id(&mut self) -> (id: i32)
        ensures
            id == old(self)@.next_id,
            id != HELLO_REQ_ID,
            id != PING_REQ_ID,
            final(self)@ == (ClientState { next_id: next_id_after(id), ..old(self)@ }),
    {
        self.request_id.next()
    }

    /// Files the next slot under `id` and moves on to the slot number that
    /// follows. Returns the slot, and the slot that it displaced.
    fn register(&mut self, id: i32) -> (filed: (u64, Option<u64>))
        ensures
            filed.0 == old(self)@.next_slot,
            filed.1 == slot_of(old(self)@.pending, id),
            final(self)@ == old(self)@.registered(id),
    {
        let slot = self.slots.next();
        let displaced = self.pending.insert(id, slot);
        (slot, displaced)
    }

    /// Registers a slot for the handshake under the handshake's id and returns
    /// the message that presents `jwt`.
    pub fn send_hello(&mut self, jwt: &str) -> (out: Outbound<HelloMsg>)
        ensures
            out.message@ == hello_msg(jwt@),
            out.slot == old(self)@.next_slot,
            out.displaced == slot_of(old(self)@.pending, HELLO_REQ_ID),
            final(self)@ == old(self)@.registered(HELLO_REQ_ID),
    {
        let (slot, displaced) = self.register(HELLO_REQ_ID);
        Outbound { message: HelloMsg::new(jwt), slot, displaced }
    }

    /// Settles the handshake with what its slot was resolved with, `None`
    /// where the slot was dropped. Nothing but `HelloOk` makes the connection ready.
    pub fn hello_reply(&mut self, reply: Option<ResponseType>) -> (result: Result<(), ClientError>)
        ensures
            outcome(result) == hello_outcome(opt_view(reply)),
            final(self)@ == (ClientState {
                ready: old(self)@.ready || result is Ok,
                ..old(self)@
            }),
    {
        match reply {
            Some(ResponseType::HelloOk) => {
                self.ready = true;
                Ok(())
            },
            Some(ResponseType::Error { message }) => Err(ClientError::Handshake { message }),
            Some(_) => Err(
                ClientError::Handshake { message: "Unexpected response for hello".to_owned() },
            ),
            None => Err(
                ClientError::Handshake {
                    message: "Connection closed during the handshake".to_owned(),
                },
            ),
        }
    }

    /// Registers a slot under a fresh id and returns the request that opens
    /// stream `stream_id` under that id. The handshake must have been
    /// accepted.
    pub fn open_stream(&mut self, stream_id: i32) -> (out: Outbound<OpenStreamReq>)
        requires
            old(self)@.ready,
        ensures
            out.message@ == open_stream_req(old(self)@.next_id, stream_id),
            out.message.request_id != HELLO_REQ_ID,
            out.message.request_id != PING_REQ_ID,
            out.slot == old(self)@.next_slot,
            out.displaced == slot_of(old(self)@.pending, old(self)@.next_id),
            final(self)@ == old(self)@.with_request(),
    {
        let request_id = self.next_request_id();
        let (slot, displaced) = self.register(request_id);
        Outbound { message: OpenStreamReq::new(request_id, stream_id), slot, displaced }
    }

    /// What opening a stream came to, from what its slot was resolved with.
    pub fn open_stream_reply(reply: Option<ResponseType>) -> (result: Result<(), ClientError>)
        ensures
            outcome(result) == open_stream_outcome(opt_view(reply)),
    {
        match reply {
            Some(ResponseType::OpenStreamResp) => Ok(()),
            Some(_) => Err(
                ClientError::ProtocolMismatch {
                    message: "Unexpected response for open_stream".to_owned(),
                },
            ),
            None => Err(LibSqlClient::closed_before_reply()),
        }
    }

    /// Registers a slot under a fresh id and returns the request that runs
    /// `sql` on stream `stream_id` under that id. The handshake must have been
    /// accepted.
    pub fn execute_statement(&mut self, stream_id: i32, sql: &str) -> (out: Outbound<ExecuteReq>)
        requires
            old(self)@.ready,
        ensures
            out.message@ == execute_req(old(self)@.next_id, stream_id, sql@),
            out.message.request_id != HELLO_REQ_ID,
            out.message.request_id != PING_REQ_ID,
            out.slot == old(self)@.next_slot,
            out.displaced == slot_of(old(self)@.pending, old(self)@.next_id),
            final(self)@ == old(self)@.with_request(),
    {
        let request_id = self.next_request_id();
        let (slot, displaced) = self.register(request_id);
        Outbound { message: ExecuteReq::new(request_id, stream_id, sql), slot, displaced }
    }

    /// What executing a statement came to, from what its slot was resolved
    /// with: the result, the server's failure as a query error, or a mismatch.
    pub fn execute_reply(reply: Option<ResponseType>) -> (result: Result<StmtResult, ClientError>)
        ensures
            outcome(result) == execute_outcome(opt_view(reply)),
    {
        match reply {
            Some(ResponseType::ExecuteResp { result }) => Ok(result),
            Some(ResponseType::Error { message }) => Err(ClientError::Query { message }),
            Some(_) => Err(
                ClientError::ProtocolMismatch {
                    message: "Unexpected response for execute_statement".to_owned(),
                },
            ),
            None => Err(LibSqlClient::closed_before_reply()),
        }
    }

    /// Registers a slot for a latency probe under the probe's id and returns
    /// the payload of the ping frame to write, which is empty. A probe that
    /// was still outstanding loses its slot, which is returned as displaced.
    pub fn send_ping(&mut self) -> (out: Outbound<Vec<u8>>)
        ensures
            out.message@.len() == 0,
            out.slot == old(self)@.next_slot,
            out.displaced == slot_of(old(self)@.pending, PING_REQ_ID),
            final(self)@ == old(self)@.registered(PING_REQ_ID),
    {
        let (slot, displaced) = self.register(PING_REQ_ID);
        Outbound { message: Vec::new(), slot, displaced }
    }

    /// What a latency probe came to: the milliseconds between the instant it
    /// was sent and the instant its slot was resolved.
    pub fn ping_reply(reply: Option<ResponseType>, sent_at_ms: u64, resolved_at_ms: u64) -> (result:
        Result<u64, ClientError>)
        ensures
            outcome(result) == ping_outcome(opt_view(reply), sent_at_ms, resolved_at_ms),
    {
        match reply {
            Some(ResponseType::Pong) => Ok(
                if resolved_at_ms >= sent_at_ms {
                    resolved_at_ms - sent_at_ms
                } else {
                    0
                },
            ),
            Some(_) => Err(
                ClientError::ProtocolMismatch { message: "Unexpected response for ping".to_owned() },
            ),
            None => Err(LibSqlClient::closed_before_reply()),
        }
    }

    fn closed_before_reply() -> (error: ClientError)
        ensures
            error@ == closed_early(),
    {
        ClientError::Transport { message: "Connection closed before a reply arrived".to_owned() }
    }

    /// Gives up every request in flight: empties the table and returns what was
    /// pending, each id once with its slot, so that the reader can drop those
    /// slots when it stops and no caller waits for a reply that cannot come.
    pub fn abandon_pending(&mut self) -> (abandoned: Vec<(i32, u64)>)
        ensures
            lists(abandoned@, old(self)@.pending),
            final(self)@ == (ClientState { pending: nothing_pending(), ..old(self)@ }),
    {
        self.pending.drain()
    }

    /// Takes the entry of `id` out of the table and says what to do with its
    /// slot. No other entry changes.
    fn resolve(&mut self, id: i32, reply: ResponseType) -> (action: ListenerAction)
        ensures
            action@ == resolution(old(self)@.pending, id, reply@),
            final(self)@ == (ClientState { pending: old(self)@.pending.remove(id), ..old(self)@ }),
    {
        match self.pending.remove(id) {
            None => ListenerAction::DropOrphaned { request_id: id },
            Some(slot) => match reply {
                ResponseType::Unrecognized => ListenerAction::Abandon { slot },
                reply => ListenerAction::Deliver { slot, reply },
            },
        }
    }

    /// Handles one unit read from the stream. A text frame resolves the entry
    /// of the id it names, the handshake's where it names none; a pong
    /// resolves the probe's entry; a close frame or a failure ends the
    /// reading; anything else changes nothing.
    pub fn handle_inbound(&mut self, event: Inbound) -> (action: ListenerAction)
        ensures
            action@ == action_on(old(self)@.pending, event@),
            final(self)@ == (ClientState {
                pending: pending_after(old(self)@.pending, event@),
                ..old(self)@
            }),
    {
        match event {
            Inbound::Text { decoded: Some(msg) } => {
                let id = msg.id();
                let reply = msg.classify();
                self.resolve(id, reply)
            },
            Inbound::Text { decoded: None } => ListenerAction::DropMalformed,
            Inbound::Pong => self.resolve(PING_REQ_ID, ResponseType::Pong),
            Inbound::Close => ListenerAction::Terminate,
            Inbound::Other => ListenerAction::Skip,
            Inbound::Failed => ListenerAction::Terminate,
        }
    }
}

} // verus!
