use libsql_shell::client::{
    ClientError, Inbound, LibSqlClient, ListenerAction, RequestIds, SlotNumbers,
};
use libsql_shell::response::{
    Column, ErrorType, LibSqlValue, ResponseMsg, ResponsePayload, ResponseType, StmtResult,
};

fn ready_client() -> LibSqlClient {
    let (mut client, hello) = LibSqlClient::connect("token");
    assert_eq!(hello.slot, 0);
    assert_eq!(hello.displaced, None);
    let ack = ResponseMsg { ty: "hello_ok".to_string(), request_id: None, response: None, error: None };
    match client.handle_inbound(Inbound::Text { decoded: Some(ack) }) {
        ListenerAction::Deliver { slot, reply } => {
            assert_eq!(slot, 0);
            assert!(client.hello_reply(Some(reply)).is_ok());
        }
        other => panic!("the handshake was not delivered: {:?}", other),
    }
    assert!(client.is_ready());
    client
}

fn text_of(value: Option<&serde_json::Value>) -> Option<Option<String>> {
    match value {
        None | Some(serde_json::Value::Null) => Some(None),
        Some(value) => Some(Some(value.as_str()?.to_string())),
    }
}

fn decode_scalar(value: &serde_json::Value) -> Option<LibSqlValue> {
    let text = |field: &str| Some(value.get(field)?.as_str()?.to_string());
    match value.get("type")?.as_str()? {
        "null" => Some(LibSqlValue::Null),
        "integer" => Some(LibSqlValue::Integer { value: text("value")? }),
        "float" => Some(LibSqlValue::Float { value: value.get("value")?.as_f64()?.to_string() }),
        "text" => Some(LibSqlValue::Text { value: text("value")? }),
        "blob" => Some(LibSqlValue::Blob { base64: text("base64")? }),
        _ => None,
    }
}

fn decode_result(value: &serde_json::Value) -> Option<StmtResult> {
    let mut cols = Vec::new();
    for col in value.get("cols")?.as_array()? {
        cols.push(Column { name: text_of(col.get("name"))?, decltype: text_of(col.get("decltype"))? });
    }
    let mut rows = Vec::new();
    for row in value.get("rows")?.as_array()? {
        let mut values = Vec::new();
        for scalar in row.as_array()? {
            values.push(decode_scalar(scalar)?);
        }
        rows.push(values);
    }
    Some(StmtResult {
        cols,
        rows,
        affected_row_count: value.get("affected_row_count")?.as_i64()?,
        rows_read: value.get("rows_read")?.as_i64()?,
        rows_written: value.get("rows_written")?.as_i64()?,
        query_duration_ms: value.get("query_duration_ms")?.as_f64()?.to_string(),
    })
}

/// Reads an envelope off its wire text, field by field.
fn decode(text: &str) -> Option<ResponseMsg> {
    let value: serde_json::Value = serde_json::from_str(text).ok()?;
    let request_id = match value.get("request_id") {
        None | Some(serde_json::Value::Null) => None,
        Some(id) => Some(i32::try_from(id.as_i64()?).ok()?),
    };
    let response = match value.get("response") {
        None | Some(serde_json::Value::Null) => None,
        Some(payload) => Some(ResponsePayload {
            ty: text_of(payload.get("type"))?,
            result: match payload.get("result") {
                None | Some(serde_json::Value::Null) => None,
                Some(result) => Some(decode_result(result)?),
            },
        }),
    };
    let error = match value.get("error") {
        None | Some(serde_json::Value::Null) => None,
        Some(error) => Some(ErrorType { message: error.get("message")?.as_str()?.to_string() }),
    };
    Some(ResponseMsg { ty: value.get("type")?.as_str()?.to_string(), request_id, response, error })
}

fn select_one() -> StmtResult {
    StmtResult {
        cols: vec![Column { name: Some("1".to_string()), decltype: None }],
        rows: vec![vec![LibSqlValue::Integer { value: "1".to_string() }]],
        affected_row_count: 0,
        rows_read: 1,
        rows_written: 0,
        query_duration_ms: "0.1".to_string(),
    }
}

fn execute_reply_msg(request_id: i32, result: StmtResult) -> ResponseMsg {
    ResponseMsg {
        ty: "execute".to_string(),
        request_id: Some(request_id),
        response: Some(ResponsePayload { ty: None, result: Some(result) }),
        error: None,
    }
}

#[test]
fn scenario_execute_select_one() {
    let mut client = ready_client();
    let out = client.execute_statement(1, "SELECT 1");
    assert_eq!(out.slot, 1);
    assert_eq!(out.displaced, None);
    assert_eq!(out.message.ty, "request");
    assert_eq!(out.message.request_id, 2);
    assert_eq!(out.message.request.ty, "execute");
    assert_eq!(out.message.request.stream_id, 1);
    assert_eq!(out.message.request.stmt.sql, "SELECT 1");
    assert!(out.message.request.stmt.args.is_none());
    assert!(out.message.request.stmt.named_args.is_none());
    assert_eq!(out.message.request.stmt.want_rows, Some(true));

    let frame = r#"{"type":"execute","request_id":2,"response":{"result":{"cols":[{"name":"1"}],"rows":[[{"type":"integer","value":"1"}]],"affected_row_count":0,"rows_read":1,"rows_written":0,"query_duration_ms":0.1}}}"#;
    let decoded = decode(frame);
    assert!(decoded.is_some());
    let action = client.handle_inbound(Inbound::Text { decoded });
    let reply = match action {
        ListenerAction::Deliver { slot, reply } => {
            assert_eq!(slot, out.slot);
            reply
        }
        other => panic!("not delivered: {:?}", other),
    };
    let result = LibSqlClient::execute_reply(Some(reply)).expect("the statement ran");
    assert_eq!(result.cols.len(), 1);
    assert_eq!(result.cols[0].name.as_deref(), Some("1"));
    assert_eq!(result.cols[0].to_text(), "1");
    assert_eq!(result.rows.len(), 1);
    assert_eq!(result.rows[0].len(), 1);
    assert!(matches!(&result.rows[0][0], LibSqlValue::Integer { value } if value == "1"));
    assert_eq!(result.affected_row_count, 0);
    assert_eq!(result.rows_read, 1);
    assert_eq!(result.rows_written, 0);
    assert_eq!(result.query_duration_ms, "0.1");
    assert!(result.is_aligned());
}

#[test]
fn scenario_handshake_rejected() {
    let (mut client, hello) = LibSqlClient::connect("bad");
    assert_eq!(hello.message.ty, "hello");
    assert_eq!(hello.message.jwt, "bad");
    let frame = r#"{"type":"response_error","request_id":1,"error":{"message":"invalid token"}}"#;
    let decoded = decode(frame);
    assert!(decoded.is_some());
    let action = client.handle_inbound(Inbound::Text { decoded });
    let reply = match action {
        ListenerAction::Deliver { slot, reply } => {
            assert_eq!(slot, hello.slot);
            reply
        }
        other => panic!("not delivered: {:?}", other),
    };
    match client.hello_reply(Some(reply)) {
        Err(ClientError::Handshake { message }) => assert_eq!(message, "invalid token"),
        other => panic!("expected a handshake error, got {:?}", other),
    }
    assert!(!client.is_ready());
}

#[test]
fn scenario_replies_out_of_order() {
    let mut client = ready_client();
    assert_eq!(client.next_request_id(), 2);
    assert_eq!(client.next_request_id(), 3);
    assert_eq!(client.next_request_id(), 4);
    let first = client.execute_statement(1, "SELECT 5");
    let second = client.execute_statement(1, "SELECT 6");
    assert_eq!(first.message.request_id, 5);
    assert_eq!(second.message.request_id, 6);
    assert_ne!(first.slot, second.slot);

    let mut six = select_one();
    six.rows = vec![vec![LibSqlValue::Integer { value: "6".to_string() }]];
    let mut five = select_one();
    five.rows = vec![vec![LibSqlValue::Integer { value: "5".to_string() }]];

    let for_second = client.handle_inbound(Inbound::Text { decoded: Some(execute_reply_msg(6, six)) });
    let for_first = client.handle_inbound(Inbound::Text { decoded: Some(execute_reply_msg(5, five)) });

    match for_second {
        ListenerAction::Deliver { slot, reply } => {
            assert_eq!(slot, second.slot);
            let result = LibSqlClient::execute_reply(Some(reply)).unwrap();
            assert!(matches!(&result.rows[0][0], LibSqlValue::Integer { value } if value == "6"));
        }
        other => panic!("not delivered: {:?}", other),
    }
    match for_first {
        ListenerAction::Deliver { slot, reply } => {
            assert_eq!(slot, first.slot);
            let result = LibSqlClient::execute_reply(Some(reply)).unwrap();
            assert!(matches!(&result.rows[0][0], LibSqlValue::Integer { value } if value == "5"));
        }
        other => panic!("not delivered: {:?}", other),
    }
}

#[test]
fn reversed_replies_reach_their_own_callers() {
    let mut client = ready_client();
    let mut calls = Vec::new();
    for k in 0..20u64 {
        let out = client.execute_statement(1, "SELECT 1");
        assert_eq!(out.displaced, None);
        assert_eq!(out.slot, 1 + k);
        assert_eq!(out.message.request_id, 2 + k as i32);
        calls.push((out.message.request_id, out.slot));
    }
    for (id, expected) in calls.iter().rev() {
        let mut result = select_one();
        result.rows_read = *id as i64;
        match client.handle_inbound(Inbound::Text { decoded: Some(execute_reply_msg(*id, result)) }) {
            ListenerAction::Deliver { slot, reply } => {
                assert_eq!(slot, *expected);
                assert_eq!(LibSqlClient::execute_reply(Some(reply)).unwrap().rows_read, *id as i64);
            }
            other => panic!("not delivered: {:?}", other),
        }
    }
}

#[test]
fn error_reply_resolves_only_its_entry() {
    let mut client = ready_client();
    let a = client.execute_statement(1, "SELECT a");
    let b = client.execute_statement(1, "SELEC b");
    let c = client.execute_statement(1, "SELECT c");
    let failure = ResponseMsg {
        ty: "response_error".to_string(),
        request_id: Some(b.message.request_id),
        response: None,
        error: Some(ErrorType { message: "syntax error".to_string() }),
    };
    match client.handle_inbound(Inbound::Text { decoded: Some(failure) }) {
        ListenerAction::Deliver { slot, reply } => {
            assert_eq!(slot, b.slot);
            match LibSqlClient::execute_reply(Some(reply)) {
                Err(ClientError::Query { message }) => assert_eq!(message, "syntax error"),
                other => panic!("expected a query error, got {:?}", other),
            }
        }
        other => panic!("not delivered: {:?}", other),
    }
    for call in [a, c] {
        let reply = execute_reply_msg(call.message.request_id, select_one());
        match client.handle_inbound(Inbound::Text { decoded: Some(reply) }) {
            ListenerAction::Deliver { slot, .. } => assert_eq!(slot, call.slot),
            other => panic!("not delivered: {:?}", other),
        }
    }
}

#[test]
fn orphaned_reply_is_dropped_and_reading_goes_on() {
    let mut client = ready_client();
    let call = client.execute_statement(1, "SELECT 1");
    let id = call.message.request_id;
    let action = client.handle_inbound(Inbound::Text { decoded: Some(execute_reply_msg(id + 40, select_one())) });
    assert!(matches!(action, ListenerAction::DropOrphaned { request_id } if request_id == id + 40));
    let action = client.handle_inbound(Inbound::Text { decoded: Some(execute_reply_msg(id, select_one())) });
    assert!(matches!(action, ListenerAction::Deliver { slot, .. } if slot == call.slot));
    let late = client.handle_inbound(Inbound::Text { decoded: Some(execute_reply_msg(id, select_one())) });
    assert!(matches!(late, ListenerAction::DropOrphaned { request_id } if request_id == id));
}

#[test]
fn request_ids_start_at_two_and_never_repeat() {
    let mut client = LibSqlClient::new();
    let mut seen = std::collections::HashSet::new();
    for k in 0..1500 {
        let id = client.next_request_id();
        assert_eq!(id, 2 + k);
        assert_ne!(id, 1);
        assert_ne!(id, -1);
        assert!(seen.insert(id));
    }
}

#[test]
fn ping_measures_the_time_to_the_pong() {
    let mut client = ready_client();
    let probe = client.send_ping();
    assert!(probe.message.is_empty());
    assert_eq!(probe.slot, 1);
    assert_eq!(probe.displaced, None);
    let action = client.handle_inbound(Inbound::Pong);
    let reply = match action {
        ListenerAction::Deliver { slot, reply } => {
            assert_eq!(slot, probe.slot);
            reply
        }
        other => panic!("not delivered: {:?}", other),
    };
    assert!(matches!(reply, ResponseType::Pong));
    assert_eq!(LibSqlClient::ping_reply(Some(reply), 1_000, 1_050).unwrap(), 50);
    assert_eq!(LibSqlClient::ping_reply(Some(ResponseType::Pong), 1_050, 1_000).unwrap(), 0);
    assert_eq!(LibSqlClient::ping_reply(Some(ResponseType::Pong), 7, 7).unwrap(), 0);
}

#[test]
fn a_second_ping_displaces_the_first() {
    let mut client = ready_client();
    let first = client.send_ping();
    let second = client.send_ping();
    assert_eq!(first.displaced, None);
    assert_eq!(second.displaced, Some(first.slot));
    assert_ne!(first.slot, second.slot);
    assert!(matches!(
        client.handle_inbound(Inbound::Pong),
        ListenerAction::Deliver { slot, reply: ResponseType::Pong } if slot == second.slot
    ));
    assert!(matches!(client.handle_inbound(Inbound::Pong), ListenerAction::DropOrphaned { request_id: -1 }));
}

#[test]
fn frames_that_resolve_nothing() {
    let mut client = ready_client();
    let call = client.execute_statement(1, "SELECT 1");
    assert!(matches!(client.handle_inbound(Inbound::Text { decoded: None }), ListenerAction::DropMalformed));
    assert!(matches!(client.handle_inbound(Inbound::Other), ListenerAction::Skip));
    assert!(matches!(client.handle_inbound(Inbound::Close), ListenerAction::Terminate));
    assert!(matches!(client.handle_inbound(Inbound::Failed), ListenerAction::Terminate));
    let reply = execute_reply_msg(call.message.request_id, select_one());
    let action = client.handle_inbound(Inbound::Text { decoded: Some(reply) });
    assert!(matches!(action, ListenerAction::Deliver { slot, .. } if slot == call.slot));
}

#[test]
fn envelopes_are_classified_by_tag() {
    let envelope = |ty: &str, response: Option<ResponsePayload>, error: Option<ErrorType>| ResponseMsg {
        ty: ty.to_string(),
        request_id: Some(3),
        response,
        error,
    };
    let payload = |ty: Option<&str>, result: Option<StmtResult>| {
        Some(ResponsePayload { ty: ty.map(|t| t.to_string()), result })
    };
    assert!(matches!(envelope("hello_ok", None, None).classify(), ResponseType::HelloOk));
    assert!(matches!(
        envelope("hello_ok", payload(Some("execute"), Some(select_one())), None).classify(),
        ResponseType::HelloOk
    ));
    assert!(matches!(
        envelope("response_error", None, Some(ErrorType { message: "no".to_string() })).classify(),
        ResponseType::Error { message } if message == "no"
    ));
    assert!(matches!(envelope("response_error", None, None).classify(), ResponseType::Unrecognized));
    assert!(matches!(
        envelope("open_stream", payload(None, None), None).classify(),
        ResponseType::OpenStreamResp
    ));
    assert!(matches!(envelope("open_stream", None, None).classify(), ResponseType::Unrecognized));
    assert!(matches!(
        envelope("response_ok", payload(Some("open_stream"), None), None).classify(),
        ResponseType::OpenStreamResp
    ));
    assert!(matches!(
        envelope("response_ok", payload(Some("execute"), Some(select_one())), None).classify(),
        ResponseType::ExecuteResp { result } if result.rows_read == 1
    ));
    assert!(matches!(
        envelope("execute", payload(None, Some(select_one())), None).classify(),
        ResponseType::ExecuteResp { .. }
    ));
    assert!(matches!(
        envelope("execute", payload(None, None), None).classify(),
        ResponseType::Unrecognized
    ));
    assert!(matches!(
        envelope("execute", payload(Some("open_stream"), Some(select_one())), None).classify(),
        ResponseType::OpenStreamResp
    ));
    assert!(matches!(
        envelope("response_ok", payload(None, Some(select_one())), None).classify(),
        ResponseType::Unrecognized
    ));
    assert!(matches!(
        envelope("notice", payload(Some("Pong"), None), None).classify(),
        ResponseType::Unrecognized
    ));
    assert_eq!(envelope("hello_ok", None, None).id(), 3);
    let unnamed = ResponseMsg { ty: "hello_ok".to_string(), request_id: None, response: None, error: None };
    assert_eq!(unnamed.id(), 1);
}

#[test]
fn an_unrecognized_envelope_abandons_its_slot() {
    let mut client = ready_client();
    let call = client.execute_statement(1, "SELECT 1");
    let id = call.message.request_id;
    let odd = ResponseMsg { ty: "notice".to_string(), request_id: Some(id), response: None, error: None };
    assert!(matches!(
        client.handle_inbound(Inbound::Text { decoded: Some(odd) }),
        ListenerAction::Abandon { slot } if slot == call.slot
    ));
    let late = client.handle_inbound(Inbound::Text { decoded: Some(execute_reply_msg(id, select_one())) });
    assert!(matches!(late, ListenerAction::DropOrphaned { .. }));
}

#[test]
fn open_stream_is_answered_by_its_acknowledgement() {
    let mut client = ready_client();
    let out = client.open_stream(1);
    assert_eq!(out.slot, 1);
    assert_eq!(out.displaced, None);
    assert_eq!(out.message.ty, "request");
    assert_eq!(out.message.request_id, 2);
    assert_eq!(out.message.request.ty, "open_stream");
    assert_eq!(out.message.request.stream_id, 1);
    let ack = ResponseMsg {
        ty: "open_stream".to_string(),
        request_id: Some(2),
        response: Some(ResponsePayload { ty: None, result: None }),
        error: None,
    };
    match client.handle_inbound(Inbound::Text { decoded: Some(ack) }) {
        ListenerAction::Deliver { slot, reply } => {
            assert_eq!(slot, out.slot);
            assert!(LibSqlClient::open_stream_reply(Some(reply)).is_ok());
        }
        other => panic!("not delivered: {:?}", other),
    }
    let next = client.execute_statement(1, "SELECT 1");
    assert_eq!(next.message.request_id, 3);
    assert_eq!(next.slot, 2);
}

#[test]
fn giving_up_returns_every_pending_slot_once() {
    let mut client = ready_client();
    let a = client.execute_statement(1, "SELECT 1");
    let b = client.open_stream(2);
    let probe = client.send_ping();
    let mut abandoned = client.abandon_pending();
    abandoned.sort();
    assert_eq!(
        abandoned,
        vec![(-1, probe.slot), (a.message.request_id, a.slot), (b.message.request_id, b.slot)]
    );
    assert!(client.abandon_pending().is_empty());
    let reply = execute_reply_msg(a.message.request_id, select_one());
    let late = client.handle_inbound(Inbound::Text { decoded: Some(reply) });
    assert!(matches!(late, ListenerAction::DropOrphaned { .. }));
    let next = client.execute_statement(1, "SELECT 1");
    assert_eq!(next.message.request_id, b.message.request_id + 1);
    assert_eq!(next.slot, probe.slot + 1);
}

#[test]
fn the_handshake_slot_can_be_displaced() {
    let (mut client, first) = LibSqlClient::connect("token");
    let again = client.send_hello("token");
    assert_eq!(again.displaced, Some(first.slot));
    assert_eq!(again.slot, first.slot + 1);
    assert_eq!(again.message.jwt, "token");
}

#[test]
fn request_ids_wrap_around_the_reserved_ids() {
    let mut ids = RequestIds::starting_at(i32::MAX - 1).unwrap();
    assert_eq!(ids.next(), i32::MAX - 1);
    assert_eq!(ids.next(), i32::MAX);
    assert_eq!(ids.next(), i32::MIN);
    assert_eq!(ids.next(), i32::MIN + 1);
    let mut ids = RequestIds::starting_at(-3).unwrap();
    assert_eq!(ids.next(), -3);
    assert_eq!(ids.next(), -2);
    assert_eq!(ids.next(), 0);
    assert_eq!(ids.next(), 2);
    assert_eq!(ids.next(), 3);
    assert!(RequestIds::starting_at(1).is_none());
    assert!(RequestIds::starting_at(-1).is_none());
    assert!(RequestIds::starting_at(0).is_some());
    assert_eq!(RequestIds::new().next(), 2);
}

#[test]
fn slot_numbers_count_up_and_wrap() {
    let mut slots = SlotNumbers::new();
    assert_eq!(slots.next(), 0);
    assert_eq!(slots.next(), 1);
    assert_eq!(slots.next(), 2);
    let mut slots = SlotNumbers::starting_at(u64::MAX - 1);
    assert_eq!(slots.next(), u64::MAX - 1);
    assert_eq!(slots.next(), u64::MAX);
    assert_eq!(slots.next(), 0);
    assert_eq!(slots.next(), 1);
}

#[test]
fn a_frame_that_is_no_envelope_is_dropped() {
    let mut client = ready_client();
    let call = client.execute_statement(1, "SELECT 1");
    for frame in ["", "not json", "[]", r#"{"request_id":2}"#, r#"{"type":"execute","request_id":"2"}"#] {
        let decoded = decode(frame);
        assert!(decoded.is_none(), "{}", frame);
        assert!(matches!(client.handle_inbound(Inbound::Text { decoded }), ListenerAction::DropMalformed));
    }
    let reply = execute_reply_msg(call.message.request_id, select_one());
    let action = client.handle_inbound(Inbound::Text { decoded: Some(reply) });
    assert!(matches!(action, ListenerAction::Deliver { slot, .. } if slot == call.slot));
}
