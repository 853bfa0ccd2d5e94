//! End-to-end exercises of the engine over raw JSON requests.

use mcp_core::{HostInfo, McpServer};

fn fresh() -> McpServer {
    McpServer::new(HostInfo {
        platform: String::from("linux"),
        architecture: String::from("x86_64"),
        rust_version: String::from("1.80.0"),
    })
}

fn handshake(s: &mut McpServer) {
    let r = s
        .handle_request("{\"id\":1,\"method\":\"initialize\"}")
        .expect("initialize must parse");
    assert!(r.is_some());
    let r = s
        .handle_request("{\"method\":\"initialized\"}")
        .expect("initialized must parse");
    assert!(r.is_none());
}

#[test]
fn initialize_reports_protocol_and_server() {
    let mut s = fresh();
    let out = s
        .handle_request("{\"id\":1,\"method\":\"initialize\"}")
        .unwrap()
        .unwrap();
    assert_eq!(
        out,
        "{\"id\":1,\"result\":{\"protocolVersion\":\"2024-11-05\",\"capabilities\":{\"tools\":{}},\"serverInfo\":{\"name\":\"rust-mcp-server\",\"version\":\"1.0.0\"}}}"
    );
}

#[test]
fn initialized_notification_emits_nothing_and_enables_list() {
    let mut s = fresh();
    let before = s
        .handle_request("{\"id\":2,\"method\":\"tools/list\"}")
        .unwrap()
        .unwrap();
    assert_eq!(
        before,
        "{\"id\":2,\"error\":{\"code\":-32002,\"message\":\"Server not initialized\"}}"
    );
    handshake(&mut s);
    let after = s
        .handle_request("{\"id\":3,\"method\":\"tools/list\"}")
        .unwrap()
        .unwrap();
    assert!(after.starts_with("{\"id\":3,\"result\":{\"tools\":["));
    for name in [
        "calculator",
        "storage_set",
        "storage_get",
        "storage_delete",
        "storage_list",
        "system_info",
        "echo",
    ] {
        assert!(after.contains(&format!("\"name\":\"{}\"", name)), "{}", name);
    }
}

#[test]
fn tools_call_requires_initialization() {
    let mut s = fresh();
    let out = s
        .handle_request(
            "{\"id\":4,\"method\":\"tools/call\",\"params\":{\"name\":\"ping\",\"arguments\":{}}}",
        )
        .unwrap()
        .unwrap();
    assert_eq!(
        out,
        "{\"id\":4,\"error\":{\"code\":-32002,\"message\":\"Server not initialized\"}}"
    );
}

#[test]
fn unknown_tool_yields_tool_not_found() {
    let mut s = fresh();
    handshake(&mut s);
    let out = s
        .handle_request(
            "{\"id\":5,\"method\":\"tools/call\",\"params\":{\"name\":\"nope\",\"arguments\":{}}}",
        )
        .unwrap()
        .unwrap();
    assert_eq!(
        out,
        "{\"id\":5,\"error\":{\"code\":-32000,\"message\":\"Tool not found: nope\"}}"
    );
}

#[test]
fn missing_params_yields_invalid_params() {
    let mut s = fresh();
    handshake(&mut s);
    let out = s
        .handle_request("{\"id\":6,\"method\":\"tools/call\"}")
        .unwrap()
        .unwrap();
    assert_eq!(
        out,
        "{\"id\":6,\"error\":{\"code\":-32602,\"message\":\"Invalid params\"}}"
    );
}

#[test]
fn unknown_method_yields_method_not_found() {
    let mut s = fresh();
    let out = s
        .handle_request("{\"id\":7,\"method\":\"frobnicate\"}")
        .unwrap()
        .unwrap();
    assert_eq!(
        out,
        "{\"id\":7,\"error\":{\"code\":-32601,\"message\":\"Method not found: frobnicate\"}}"
    );
}

#[test]
fn ping_is_idempotent_and_ignores_session_state() {
    let mut s = fresh();
    let a = s
        .handle_request("{\"id\":8,\"method\":\"ping\"}")
        .unwrap()
        .unwrap();
    let b = s
        .handle_request("{\"id\":8,\"method\":\"ping\"}")
        .unwrap()
        .unwrap();
    assert_eq!(a, "{\"id\":8,\"result\":{\"status\":\"ok\"}}");
    assert_eq!(a, b);
    handshake(&mut s);
    let c = s
        .handle_request("{\"id\":8,\"method\":\"ping\"}")
        .unwrap()
        .unwrap();
    assert_eq!(a, c);
}

#[test]
fn string_id_and_null_id_are_carried() {
    let mut s = fresh();
    let out = s
        .handle_request("{\"id\":\"abc\",\"method\":\"ping\"}")
        .unwrap()
        .unwrap();
    assert_eq!(out, "{\"id\":\"abc\",\"result\":{\"status\":\"ok\"}}");
    let out = s.handle_request("{\"method\":\"ping\"}").unwrap().unwrap();
    assert_eq!(out, "{\"id\":null,\"result\":{\"status\":\"ok\"}}");
}

#[test]
fn unparseable_body_is_surfaced_to_the_transport() {
    let mut s = fresh();
    assert!(s.handle_request("this is not json").is_err());
    assert!(s.handle_request("{\"id\":1}").is_err());
}

#[test]
fn calculator_via_wire_adds() {
    let mut s = fresh();
    handshake(&mut s);
    let out = s
        .handle_request(
            "{\"id\":9,\"method\":\"tools/call\",\"params\":{\"name\":\"calculator\",\"arguments\":{\"operation\":\"add\",\"a\":2,\"b\":3}}}",
        )
        .unwrap()
        .unwrap();
    assert_eq!(
        out,
        "{\"id\":9,\"result\":{\"content\":[{\"type\":\"text\",\"text\":\"{\\\"result\\\":5,\\\"operation\\\":\\\"2 add 3 = 5\\\"}\"}]}}"
    );
}

#[test]
fn division_by_zero_becomes_tool_execution_error() {
    let mut s = fresh();
    handshake(&mut s);
    let out = s
        .handle_request(
            "{\"id\":10,\"method\":\"tools/call\",\"params\":{\"name\":\"calculator\",\"arguments\":{\"operation\":\"divide\",\"a\":4,\"b\":0}}}",
        )
        .unwrap()
        .unwrap();
    assert_eq!(
        out,
        "{\"id\":10,\"error\":{\"code\":-32603,\"message\":\"Tool execution error: Division by zero\"}}"
    );
}

#[test]
fn storage_round_trip_via_wire() {
    let mut s = fresh();
    handshake(&mut s);
    let set = s
        .handle_request(
            "{\"id\":11,\"method\":\"tools/call\",\"params\":{\"name\":\"storage_set\",\"arguments\":{\"key\":\"k\",\"value\":\"v\"}}}",
        )
        .unwrap()
        .unwrap();
    assert!(set.contains("Stored value for key 'k'"), "{}", set);
    let get = s
        .handle_request(
            "{\"id\":12,\"method\":\"tools/call\",\"params\":{\"name\":\"storage_get\",\"arguments\":{\"key\":\"k\"}}}",
        )
        .unwrap()
        .unwrap();
    assert!(get.contains("\\\"found\\\":true"), "{}", get);
    assert!(get.contains("\\\"value\\\":\\\"v\\\""), "{}", get);
    let del = s
        .handle_request(
            "{\"id\":13,\"method\":\"tools/call\",\"params\":{\"name\":\"storage_delete\",\"arguments\":{\"key\":\"k\"}}}",
        )
        .unwrap()
        .unwrap();
    assert!(del.contains("Deleted key 'k'"), "{}", del);
    let get2 = s
        .handle_request(
            "{\"id\":14,\"method\":\"tools/call\",\"params\":{\"name\":\"storage_get\",\"arguments\":{\"key\":\"k\"}}}",
        )
        .unwrap()
        .unwrap();
    assert!(get2.contains("\\\"found\\\":false"), "{}", get2);
}

#[test]
fn storage_list_counts_distinct_keys() {
    let mut s = fresh();
    handshake(&mut s);
    let n = 8;
    for i in 0..n {
        let req = format!(
            "{{\"id\":{},\"method\":\"tools/call\",\"params\":{{\"name\":\"storage_set\",\"arguments\":{{\"key\":\"key{}\",\"value\":\"v{}\"}}}}}}",
            20 + i,
            i,
            i
        );
        let out = s.handle_request(&req).unwrap().unwrap();
        assert!(out.contains("\\\"success\\\":true"), "{}", out);
    }
    let out = s
        .handle_request(
            "{\"id\":40,\"method\":\"tools/call\",\"params\":{\"name\":\"storage_list\",\"arguments\":{}}}",
        )
        .unwrap()
        .unwrap();
    assert!(out.contains(&format!("\\\"count\\\":{}", n)), "{}", out);
    for i in 0..n {
        assert!(out.contains(&format!("\\\"key{}\\\"", i)), "{}", out);
    }
}

#[test]
fn echo_reports_message_and_length() {
    let mut s = fresh();
    handshake(&mut s);
    let out = s
        .handle_request(
            "{\"id\":15,\"method\":\"tools/call\",\"params\":{\"name\":\"echo\",\"arguments\":{\"message\":\"hello\"}}}",
        )
        .unwrap()
        .unwrap();
    assert!(out.contains("\\\"echo\\\":\\\"hello\\\""), "{}", out);
    assert!(out.contains("\\\"length\\\":5"), "{}", out);
    assert!(out.contains("\\\"timestamp\\\""), "{}", out);
}

#[test]
fn empty_echo_message_fails() {
    let mut s = fresh();
    handshake(&mut s);
    let out = s
        .handle_request(
            "{\"id\":16,\"method\":\"tools/call\",\"params\":{\"name\":\"echo\",\"arguments\":{\"message\":\"\"}}}",
        )
        .unwrap()
        .unwrap();
    assert_eq!(
        out,
        "{\"id\":16,\"error\":{\"code\":-32603,\"message\":\"Tool execution error: Message is required\"}}"
    );
}

#[test]
fn system_info_reports_configured_host() {
    let mut s = fresh();
    handshake(&mut s);
    let out = s
        .handle_request(
            "{\"id\":17,\"method\":\"tools/call\",\"params\":{\"name\":\"system_info\",\"arguments\":{}}}",
        )
        .unwrap()
        .unwrap();
    assert!(out.contains("\\\"platform\\\":\\\"linux\\\""), "{}", out);
    assert!(out.contains("\\\"architecture\\\":\\\"x86_64\\\""), "{}", out);
    assert!(out.contains("Rust MCP Server"), "{}", out);
}

#[test]
fn unsupported_id_is_surfaced_to_the_transport() {
    let mut s = fresh();
    assert!(s.handle_request("{\"id\":true,\"method\":\"ping\"}").is_err());
    assert!(s.handle_request("{\"id\":1.5,\"method\":\"ping\"}").is_err());
}

#[test]
fn fractional_argument_fails_tool_validation() {
    let mut s = fresh();
    handshake(&mut s);
    let out = s
        .handle_request(
            "{\"id\":30,\"method\":\"tools/call\",\"params\":{\"name\":\"calculator\",\"arguments\":{\"operation\":\"add\",\"a\":1.5,\"b\":2}}}",
        )
        .unwrap()
        .unwrap();
    assert_eq!(
        out,
        "{\"id\":30,\"error\":{\"code\":-32603,\"message\":\"Tool execution error: Invalid arguments: operation, a and b are required\"}}"
    );
}
