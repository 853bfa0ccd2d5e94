//! Unit exercises of the library's pieces: the registry, the store, the
//! tools called directly, and the text encoders.

use mcp_core::proto::ArgValue;
use mcp_core::tools::calculator::CalculatorTool;
use mcp_core::tools::echo::EchoTool;
use mcp_core::tools::storage::{StorageDeleteTool, StorageGetTool, StorageListTool, StorageSetTool};
use mcp_core::tools::system::SystemInfoTool;
use mcp_core::tools::{definition_of, ToolCtx, ToolHandler, ToolKind};
use mcp_core::{bearer_ok, dec_i64, dec_u64, escape_json, get_all_tools, KvStore, Registry};

fn ctx() -> ToolCtx {
    ToolCtx {
        store: KvStore::new(),
        platform: String::from("linux"),
        architecture: String::from("aarch64"),
        rust_version: String::from("1.80.0"),
        start_ms: 0,
    }
}

fn args(pairs: &[(&str, ArgValue)]) -> Vec<(String, ArgValue)> {
    pairs
        .iter()
        .map(|(k, v)| (String::from(*k), clone_arg(v)))
        .collect()
}

fn clone_arg(v: &ArgValue) -> ArgValue {
    match v {
        ArgValue::Null => ArgValue::Null,
        ArgValue::Bool(b) => ArgValue::Bool(*b),
        ArgValue::Int(n) => ArgValue::Int(*n),
        ArgValue::Str(s) => ArgValue::Str(s.clone()),
        ArgValue::Other => ArgValue::Other,
    }
}

fn s(x: &str) -> ArgValue {
    ArgValue::Str(String::from(x))
}

#[test]
fn registry_lookup_returns_matching_definition() {
    let reg = Registry::new();
    for name in [
        "calculator",
        "storage_set",
        "storage_get",
        "storage_delete",
        "storage_list",
        "system_info",
        "echo",
    ] {
        let kind = reg.lookup(name).expect(name);
        let def = definition_of(kind);
        assert_eq!(def.name, name);
        assert!(!def.description.is_empty());
        assert!(def.input_schema.starts_with("{\"type\":\"object\""));
    }
    assert!(reg.lookup("absent").is_none());
    assert_eq!(reg.list().len(), 7);
    assert_eq!(get_all_tools().len(), 7);
}

#[test]
fn calculator_adds_subtracts_multiplies() {
    let mut c = ctx();
    let t = CalculatorTool {};
    let out = t
        .execute(
            &args(&[("operation", s("add")), ("a", ArgValue::Int(2)), ("b", ArgValue::Int(3))]),
            &mut c,
        )
        .unwrap();
    assert_eq!(out, "{\"result\":5,\"operation\":\"2 add 3 = 5\"}");
    let out = t
        .execute(
            &args(&[
                ("operation", s("multiply")),
                ("a", ArgValue::Int(-2)),
                ("b", ArgValue::Int(3)),
            ]),
            &mut c,
        )
        .unwrap();
    assert_eq!(out, "{\"result\":-6,\"operation\":\"-2 multiply 3 = -6\"}");
    let out = t
        .execute(
            &args(&[
                ("operation", s("subtract")),
                ("a", ArgValue::Int(7)),
                ("b", ArgValue::Int(10)),
            ]),
            &mut c,
        )
        .unwrap();
    assert_eq!(out, "{\"result\":-3,\"operation\":\"7 subtract 10 = -3\"}");
}

#[test]
fn calculator_divides_truncating_toward_zero() {
    let mut c = ctx();
    let t = CalculatorTool {};
    let out = t
        .execute(
            &args(&[
                ("operation", s("divide")),
                ("a", ArgValue::Int(-7)),
                ("b", ArgValue::Int(2)),
            ]),
            &mut c,
        )
        .unwrap();
    assert_eq!(out, "{\"result\":-3,\"operation\":\"-7 divide 2 = -3\"}");
}

#[test]
fn calculator_rejects_bad_input() {
    let mut c = ctx();
    let t = CalculatorTool {};
    let e = t
        .execute(
            &args(&[
                ("operation", s("divide")),
                ("a", ArgValue::Int(4)),
                ("b", ArgValue::Int(0)),
            ]),
            &mut c,
        )
        .unwrap_err();
    assert_eq!(e.message, "Division by zero");
    let e = t
        .execute(
            &args(&[("operation", s("modulo")), ("a", ArgValue::Int(1)), ("b", ArgValue::Int(2))]),
            &mut c,
        )
        .unwrap_err();
    assert_eq!(e.message, "Unsupported operation: modulo");
    let e = t.execute(&args(&[("a", ArgValue::Int(1))]), &mut c).unwrap_err();
    assert_eq!(e.message, "Invalid arguments: operation, a and b are required");
    let e = t
        .execute(
            &args(&[
                ("operation", s("add")),
                ("a", ArgValue::Int(i64::MAX)),
                ("b", ArgValue::Int(1)),
            ]),
            &mut c,
        )
        .unwrap_err();
    assert_eq!(e.message, "Result out of range");
}

#[test]
fn storage_tools_share_the_store() {
    let mut c = ctx();
    let set = StorageSetTool {};
    let get = StorageGetTool {};
    let del = StorageDeleteTool {};
    let list = StorageListTool {};

    let out = set
        .execute(&args(&[("key", s("k")), ("value", s("v"))]), &mut c)
        .unwrap();
    assert_eq!(out, "{\"success\":true,\"message\":\"Stored value for key 'k'\"}");
    let out = get.execute(&args(&[("key", s("k"))]), &mut c).unwrap();
    assert_eq!(out, "{\"found\":true,\"key\":\"k\",\"value\":\"v\"}");
    let out = del.execute(&args(&[("key", s("k"))]), &mut c).unwrap();
    assert_eq!(out, "{\"success\":true,\"message\":\"Deleted key 'k'\"}");
    let out = get.execute(&args(&[("key", s("k"))]), &mut c).unwrap();
    assert_eq!(out, "{\"found\":false,\"key\":\"k\"}");
    let out = del.execute(&args(&[("key", s("k"))]), &mut c).unwrap();
    assert_eq!(out, "{\"success\":false,\"message\":\"Key 'k' not found\"}");

    set.execute(&args(&[("key", s("a")), ("value", s("1"))]), &mut c)
        .unwrap();
    set.execute(&args(&[("key", s("b")), ("value", s("2"))]), &mut c)
        .unwrap();
    let out = list.execute(&args(&[]), &mut c).unwrap();
    assert!(out.contains("\"count\":2"), "{}", out);
    assert!(out.contains("\"a\""), "{}", out);
    assert!(out.contains("\"b\""), "{}", out);

    let e = set
        .execute(&args(&[("key", s("")), ("value", s("x"))]), &mut c)
        .unwrap_err();
    assert_eq!(e.message, "Key is required");
    let e = get.execute(&args(&[("key", s(""))]), &mut c).unwrap_err();
    assert_eq!(e.message, "Key is required");
    let e = del.execute(&args(&[]), &mut c).unwrap_err();
    assert_eq!(e.message, "Invalid arguments: key is required");
}

#[test]
fn storage_set_overwrites_without_duplicating() {
    let mut c = ctx();
    let set = StorageSetTool {};
    let list = StorageListTool {};
    set.execute(&args(&[("key", s("k")), ("value", s("v1"))]), &mut c)
        .unwrap();
    set.execute(&args(&[("key", s("k")), ("value", s("v2"))]), &mut c)
        .unwrap();
    let out = list.execute(&args(&[]), &mut c).unwrap();
    assert!(out.contains("\"count\":1"), "{}", out);
    let get = StorageGetTool {};
    let out = get.execute(&args(&[("key", s("k"))]), &mut c).unwrap();
    assert!(out.contains("\"value\":\"v2\""), "{}", out);
}

#[test]
fn echo_and_system_info_render() {
    let mut c = ctx();
    let out = EchoTool {}
        .execute(&args(&[("message", s("héllo"))]), &mut c)
        .unwrap();
    assert!(out.starts_with("{\"echo\":\"héllo\",\"length\":6,\"timestamp\":\""), "{}", out);
    let out = SystemInfoTool {}.execute(&args(&[]), &mut c).unwrap();
    assert!(out.contains("\"platform\":\"linux\""), "{}", out);
    assert!(out.contains("\"architecture\":\"aarch64\""), "{}", out);
    assert!(out.contains("\"rustVersion\":\"1.80.0\""), "{}", out);
    assert!(out.contains("\"serverType\":\"Rust MCP Server\""), "{}", out);
}

#[test]
fn store_operations_match_their_contracts() {
    let mut st = KvStore::new();
    assert_eq!(st.len(), 0);
    assert!(st.get("x").is_none());
    st.set("x", "1");
    st.set("y", "2");
    st.set("x", "3");
    assert_eq!(st.len(), 2);
    assert_eq!(st.get("x").unwrap(), "3");
    assert_eq!(st.get("y").unwrap(), "2");
    assert!(st.remove("x"));
    assert!(!st.remove("x"));
    assert_eq!(st.len(), 1);
    let keys = st.keys();
    assert_eq!(keys, vec![String::from("y")]);
}

#[test]
fn decimal_rendering_is_exact() {
    assert_eq!(dec_u64(0), "0");
    assert_eq!(dec_u64(10), "10");
    assert_eq!(dec_u64(18446744073709551615), "18446744073709551615");
    assert_eq!(dec_i64(-1), "-1");
    assert_eq!(dec_i64(-9223372036854775808), "-9223372036854775808");
    assert_eq!(dec_i64(9223372036854775807), "9223372036854775807");
}

#[test]
fn json_escaping_is_exact() {
    assert_eq!(escape_json("plain"), "plain");
    assert_eq!(escape_json("a\"b"), "a\\\"b");
    assert_eq!(escape_json("a\\b"), "a\\\\b");
    assert_eq!(escape_json("a\nb\rc\td"), "a\\nb\\rc\\td");
    assert_eq!(escape_json("\u{1}"), "\\u0001");
    assert_eq!(escape_json("\u{1f}"), "\\u001f");
    assert_eq!(escape_json("ünïcödé"), "ünïcödé");
}

#[test]
fn tool_kinds_cover_the_fixed_list() {
    let kinds = get_all_tools();
    assert_eq!(
        kinds,
        vec![
            ToolKind::Calculator,
            ToolKind::StorageSet,
            ToolKind::StorageGet,
            ToolKind::StorageDelete,
            ToolKind::StorageList,
            ToolKind::SystemInfo,
            ToolKind::Echo,
        ]
    );
}

#[test]
fn bearer_check_accepts_exactly_the_shared_secret() {
    assert!(bearer_ok("Bearer SECRET-REDACTED", "SECRET-REDACTED"));
    assert!(!bearer_ok("Bearer wrong", "SECRET-REDACTED"));
    assert!(!bearer_ok("bearer SECRET-REDACTED", "SECRET-REDACTED"));
    assert!(!bearer_ok("SECRET-REDACTED", "SECRET-REDACTED"));
    assert!(!bearer_ok("Bearer SECRET-REDACTED extra", "SECRET-REDACTED"));
    assert!(!bearer_ok("", "SECRET-REDACTED"));
    assert!(bearer_ok("Bearer ", ""));
}
