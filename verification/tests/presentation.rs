use libsql_shell::config::{
    select_database, Cache, Config, ConfigError, DatabaseName, DatabaseNames, DatabaseToken,
    APP_IDENTIFIER, SETTINGS_FILE,
};
use libsql_shell::client::{ClientError, LibSqlClient, SUBPROTOCOL};
use libsql_shell::layout::{calculate_cursor_position, cursor_cell, cursor_position_defined, wrap_text};
use libsql_shell::request::{ExecuteReq, HelloMsg, OpenStreamReq, FIRST_REQ_ID, HELLO_REQ_ID, PING_REQ_ID};
use libsql_shell::response::{Column, LibSqlValue, ResponseType};
use libsql_shell::results::ValueWrapper;
use libsql_shell::text::{chars_of, push_decimal, push_hex_byte, push_hex_joined, push_signed_decimal};

fn database(id: &str, name: &str, host: &str) -> DatabaseName {
    DatabaseName { db_id: id.to_string(), name: name.to_string(), hostname: host.to_string() }
}

fn settings() -> Config {
    Config {
        username: "ada".to_string(),
        cache: Cache {
            database_names: Some(DatabaseNames {
                data: vec![
                    database("id-1", "todos", "todos-ada.turso.io"),
                    database("id-2", "notes", "notes-ada.turso.io"),
                ],
            }),
            database_token: Some(vec![
                ("id-2".to_string(), DatabaseToken { expiration: 20, data: "token-2".to_string() }),
                ("id-1".to_string(), DatabaseToken { expiration: 10, data: "token-1".to_string() }),
                ("id-1".to_string(), DatabaseToken { expiration: 11, data: "token-1b".to_string() }),
            ]),
        },
    }
}

#[test]
fn databases_are_chosen_by_position() {
    let config = settings();
    assert_eq!(config.database_choices().unwrap(), vec!["todos".to_string(), "notes".to_string()]);
    assert_eq!(select_database(&config, 0).unwrap().name, "todos");
    assert_eq!(select_database(&config, 1).unwrap().db_id, "id-2");
    assert!(matches!(select_database(&config, 2), Err(ConfigError::NoSuchDatabase { selected: 2 })));
}

#[test]
fn tokens_are_found_by_database_id() {
    let config = settings();
    let todos = select_database(&config, 0).unwrap();
    let token = config.database_token(todos).unwrap();
    assert_eq!(token.data, "token-1");
    assert_eq!(token.expiration, 10);
    let notes = select_database(&config, 1).unwrap();
    assert_eq!(config.database_token(notes).unwrap().data, "token-2");
    assert_eq!(todos.to_url(), "libsql://todos-ada.turso.io");
}

#[test]
fn settings_without_what_is_needed() {
    let mut config = settings();
    let other = database("id-9", "logs", "logs-ada.turso.io");
    match config.database_token(&other) {
        Err(e @ ConfigError::NoDatabaseToken { .. }) => assert_eq!(
            e.to_text(),
            "No database token found for logs, use `turso db shell logs` to populate the config"
        ),
        other => panic!("expected a missing token, got {:?}", other),
    }
    config.cache.database_token = None;
    match config.database_token(&other) {
        Err(e @ ConfigError::NoDatabaseTokens) => assert_eq!(
            e.to_text(),
            "No database tokens found in config, use `turso db shell DB_NAME` to populate the config"
        ),
        other => panic!("expected no tokens, got {:?}", other),
    }
    config.cache.database_names = None;
    match config.database_choices() {
        Err(e @ ConfigError::NoDatabaseNames) => {
            assert_eq!(e.to_text(), "No database names, please run `turso db list`")
        }
        other => panic!("expected no names, got {:?}", other),
    }
    assert!(matches!(select_database(&config, 0), Err(ConfigError::NoDatabaseNames)));
    assert_eq!(
        ConfigError::NoSuchDatabase { selected: 4 }.to_text(),
        "No database at the selected position"
    );
    assert_eq!(APP_IDENTIFIER, "turso");
    assert_eq!(SETTINGS_FILE, "settings.json");
}

#[test]
fn numerals() {
    let mut text = String::new();
    push_decimal(&mut text, 0);
    assert_eq!(text, "0");
    let mut text = "n=".to_string();
    push_decimal(&mut text, 1234567890);
    assert_eq!(text, "n=1234567890");
    let mut text = String::new();
    push_decimal(&mut text, u64::MAX);
    assert_eq!(text, "18446744073709551615");
    let mut text = String::new();
    push_signed_decimal(&mut text, -42);
    assert_eq!(text, "-42");
    let mut text = String::new();
    push_signed_decimal(&mut text, i64::MIN);
    assert_eq!(text, "-9223372036854775808");
    let mut text = String::new();
    push_signed_decimal(&mut text, i64::MAX);
    assert_eq!(text, "9223372036854775807");
    let mut text = String::new();
    push_hex_byte(&mut text, 0x0a);
    push_hex_byte(&mut text, 0xff);
    push_hex_byte(&mut text, 0x00);
    assert_eq!(text, "0AFF00");
    let mut text = String::new();
    push_hex_joined(&mut text, &vec![0xde, 0xad, 0xbe, 0xef], 3);
    assert_eq!(text, "DE AD BE");
    let mut text = String::new();
    push_hex_joined(&mut text, &vec![7], 0);
    assert_eq!(text, "");
    assert_eq!(chars_of("aé世"), vec!['a', 'é', '世']);
}

#[test]
fn cells_are_shown_as_text() {
    assert_eq!(ValueWrapper::Null.to_text(), "NULL");
    assert_eq!(ValueWrapper::Integer(0).to_text(), "0");
    assert_eq!(ValueWrapper::Integer(-7).to_text(), "-7");
    assert_eq!(ValueWrapper::Integer(9007199254740993).to_text(), "9007199254740993");
    assert_eq!(ValueWrapper::Real("1.5".to_string()).to_text(), "1.5");
    assert_eq!(ValueWrapper::Text("hello".to_string()).to_text(), "hello");
    assert_eq!(ValueWrapper::Blob(vec![]).to_text(), "");
    assert_eq!(ValueWrapper::Blob(vec![0x01]).to_text(), "01");
    assert_eq!(ValueWrapper::Blob(vec![0x01, 0xab]).to_text(), "01 AB");
    let sixteen: Vec<u8> = (0..16).collect();
    assert_eq!(
        ValueWrapper::Blob(sixteen).to_text(),
        "00 01 02 03 04 05 06 07 08 09 0A 0B 0C 0D 0E 0F"
    );
    let seventeen: Vec<u8> = (0..17).collect();
    assert_eq!(
        ValueWrapper::Blob(seventeen).to_text(),
        "00 01 02 03 04 05 06 07 08 09 0A 0B 0C 0D 0E 0F … (17 bytes)"
    );
}

#[test]
fn scalars_and_columns_are_shown_as_text() {
    assert_eq!(LibSqlValue::Null.to_text(), "null");
    assert_eq!(LibSqlValue::Integer { value: "9223372036854775807".to_string() }.to_text(), "9223372036854775807");
    assert_eq!(LibSqlValue::Float { value: "0.1".to_string() }.to_text(), "0.1");
    assert_eq!(LibSqlValue::Text { value: "a b".to_string() }.to_text(), "a b");
    assert_eq!(LibSqlValue::Blob { base64: "3q2+7w==".to_string() }.to_text(), "3q2+7w==");
    assert_eq!(Column { name: Some("id".to_string()), decltype: Some("INTEGER".to_string()) }.to_text(), "id");
    assert_eq!(Column { name: None, decltype: None }.to_text(), "");
}

#[test]
fn text_wraps_by_displayed_width() {
    assert_eq!(wrap_text("", 10), vec!["".to_string()]);
    assert_eq!(wrap_text("abc", 10), vec!["abc".to_string()]);
    assert_eq!(wrap_text("abcdefg", 3), vec!["abc".to_string(), "def".to_string(), "g".to_string()]);
    assert_eq!(wrap_text("abcdef", 3), vec!["abc".to_string(), "def".to_string()]);
    assert_eq!(wrap_text("世界a", 3), vec!["世".to_string(), "界a".to_string()]);
    assert_eq!(wrap_text("世界", 4), vec!["世界".to_string()]);
    assert_eq!(wrap_text("ab", 0), vec!["".to_string(), "a".to_string(), "b".to_string()]);
}

#[test]
fn the_cursor_has_a_cell() {
    let lines = wrap_text("abcdefg", 3);
    assert_eq!(calculate_cursor_position(&lines, 0), (0, 0));
    assert_eq!(calculate_cursor_position(&lines, 2), (2, 0));
    assert_eq!(calculate_cursor_position(&lines, 3), (3, 0));
    assert_eq!(calculate_cursor_position(&lines, 4), (1, 1));
    assert_eq!(calculate_cursor_position(&lines, 6), (3, 1));
    assert_eq!(calculate_cursor_position(&lines, 7), (1, 2));
    assert_eq!(calculate_cursor_position(&lines, 50), (1, 2));
    let wide = vec!["世界".to_string()];
    assert!(cursor_position_defined(&wide, 0));
    assert!(!cursor_position_defined(&wide, 1));
    assert!(!cursor_position_defined(&wide, 2));
    assert!(cursor_position_defined(&wide, 9));
    assert_eq!(calculate_cursor_position(&wide, 0), (0, 0));
    assert_eq!(calculate_cursor_position(&wide, 9), (4, 0));
    assert!(!cursor_position_defined(&Vec::new(), 0));
    let mixed = vec!["é".to_string(), "世b".to_string()];
    assert!(!cursor_position_defined(&mixed, 1));
    assert!(!cursor_position_defined(&mixed, 2));
    assert!(cursor_position_defined(&mixed, 4));
    assert_eq!(calculate_cursor_position(&mixed, 4), (3, 1));
    let second = vec!["é".to_string(), "b世".to_string()];
    assert!(cursor_position_defined(&second, 2));
    assert_eq!(calculate_cursor_position(&second, 2), (1, 1));
}

#[test]
fn the_cursor_has_a_screen_cell() {
    assert_eq!(cursor_cell(0, 4, 12, "SELECT 1", 8), Some((9, 5)));
    assert_eq!(cursor_cell(10, 4, 5, "abcdefg", 4), Some((12, 6)));
    assert_eq!(cursor_cell(0, 0, 1, "abc", 0), None);
    assert_eq!(cursor_cell(0, 0, 2, "", 0), Some((1, 1)));
    assert_eq!(cursor_cell(u16::MAX, 0, 10, "abc", 1), None);
    assert_eq!(cursor_cell(0, u16::MAX, 10, "abc", 1), None);
    assert_eq!(cursor_cell(0, 0, 10, "é", 1), None);
}

#[test]
fn outbound_messages() {
    let hello = HelloMsg::new("secret");
    assert_eq!(hello.ty, "hello");
    assert_eq!(hello.jwt, "secret");
    let open = OpenStreamReq::new(2, 1);
    assert_eq!(open.ty, "request");
    assert_eq!(open.request_id, 2);
    assert_eq!(open.request.ty, "open_stream");
    assert_eq!(open.request.stream_id, 1);
    let execute = ExecuteReq::new(3, 1, "SELECT 1");
    assert_eq!(execute.ty, "request");
    assert_eq!(execute.request_id, 3);
    assert_eq!(execute.request.ty, "execute");
    assert_eq!(execute.request.stream_id, 1);
    assert_eq!(execute.request.stmt.sql, "SELECT 1");
    assert!(execute.request.stmt.args.is_none());
    assert!(execute.request.stmt.named_args.is_none());
    assert_eq!(execute.request.stmt.want_rows, Some(true));
    assert_eq!(HELLO_REQ_ID, 1);
    assert_eq!(PING_REQ_ID, -1);
    assert_eq!(FIRST_REQ_ID, 2);
    assert_eq!(SUBPROTOCOL, "hrana3");
}

#[test]
fn calls_fail_with_the_error_of_their_kind() {
    match LibSqlClient::open_stream_reply(None) {
        Err(e @ ClientError::Transport { .. }) => {
            assert_eq!(e.to_text(), "Connection closed before a reply arrived")
        }
        other => panic!("expected a transport error, got {:?}", other),
    }
    assert!(matches!(LibSqlClient::execute_reply(None), Err(ClientError::Transport { .. })));
    assert!(matches!(LibSqlClient::ping_reply(None, 0, 1), Err(ClientError::Transport { .. })));
    match LibSqlClient::open_stream_reply(Some(ResponseType::HelloOk)) {
        Err(e @ ClientError::ProtocolMismatch { .. }) => {
            assert_eq!(e.to_text(), "Unexpected response for open_stream")
        }
        other => panic!("expected a mismatch, got {:?}", other),
    }
    match LibSqlClient::open_stream_reply(Some(ResponseType::Error { message: "no".to_string() })) {
        Err(e @ ClientError::ProtocolMismatch { .. }) => {
            assert_eq!(e.to_text(), "Unexpected response for open_stream")
        }
        other => panic!("expected a mismatch, got {:?}", other),
    }
    match LibSqlClient::execute_reply(Some(ResponseType::OpenStreamResp)) {
        Err(e @ ClientError::ProtocolMismatch { .. }) => {
            assert_eq!(e.to_text(), "Unexpected response for execute_statement")
        }
        other => panic!("expected a mismatch, got {:?}", other),
    }
    match LibSqlClient::ping_reply(Some(ResponseType::HelloOk), 0, 1) {
        Err(e @ ClientError::ProtocolMismatch { .. }) => {
            assert_eq!(e.to_text(), "Unexpected response for ping")
        }
        other => panic!("expected a mismatch, got {:?}", other),
    }
    match LibSqlClient::execute_reply(Some(ResponseType::Error { message: "near SELEC".to_string() })) {
        Err(e @ ClientError::Query { .. }) => assert_eq!(e.to_text(), "near SELEC"),
        other => panic!("expected a query error, got {:?}", other),
    }
    assert!(LibSqlClient::open_stream_reply(Some(ResponseType::OpenStreamResp)).is_ok());

    let mut client = LibSqlClient::new();
    match client.hello_reply(Some(ResponseType::Pong)) {
        Err(e @ ClientError::Handshake { .. }) => assert_eq!(e.to_text(), "Unexpected response for hello"),
        other => panic!("expected a handshake error, got {:?}", other),
    }
    match client.hello_reply(None) {
        Err(e @ ClientError::Handshake { .. }) => {
            assert_eq!(e.to_text(), "Connection closed during the handshake")
        }
        other => panic!("expected a handshake error, got {:?}", other),
    }
    assert!(!client.is_ready());
    assert!(client.hello_reply(Some(ResponseType::HelloOk)).is_ok());
    assert!(client.is_ready());
    assert!(client.hello_reply(None).is_err());
    assert!(client.is_ready());
}
