//! Tests of the protocol layer: framing, dispatch, error codes and the
//! exact shape of the rendered JSON.

use mcp_server_rust::connection::process_line;
use mcp_server_rust::connection::LineFramer;
use mcp_server_rust::connection::LineOutcome;
use mcp_server_rust::json_text::write_json_string;
use mcp_server_rust::json_text::write_u64;
use mcp_server_rust::resources::ResourceRegistry;
use mcp_server_rust::server::McpServer;
use mcp_server_rust::tools::ToolRegistry;

fn dispatch(line: &str) -> Option<String> {
    let tool_registry = ToolRegistry::new();
    let resource_registry = ResourceRegistry::new();
    McpServer::handle_message(line.as_bytes(), &tool_registry, &resource_registry)
}

#[test]
fn tools_list_has_exactly_the_builtin_names() {
    let resp = dispatch(r#"{"jsonrpc":"2.0","method":"tools/list","id":1}"#).unwrap();
    let json: serde_json::Value = serde_json::from_str(&resp).unwrap();
    assert_eq!(json["jsonrpc"], "2.0");
    assert_eq!(json["id"], 1);
    let tools = json["result"]["tools"].as_array().unwrap();
    assert_eq!(tools.len(), 2);
    let names: Vec<&str> = tools.iter().map(|t| t["name"].as_str().unwrap()).collect();
    assert!(names.contains(&"search_files"));
    assert!(names.contains(&"get_weather"));
}

#[test]
fn listed_schemas_require_only_declared_properties() {
    let resp = dispatch(r#"{"jsonrpc":"2.0","method":"tools/list","id":1}"#).unwrap();
    let json: serde_json::Value = serde_json::from_str(&resp).unwrap();
    let tools = json["result"]["tools"].as_array().unwrap();
    for tool in tools {
        let schema = &tool["inputSchema"];
        let properties = schema["properties"].as_object().unwrap();
        for required in schema["required"].as_array().unwrap() {
            let name = required.as_str().unwrap();
            assert!(
                properties.contains_key(name),
                "required parameter not among the properties"
            );
        }
    }
}

#[test]
fn search_files_call_reports_pattern_and_directory() {
    let resp = dispatch(
        r#"{"jsonrpc":"2.0","method":"tools/call","params":{"name":"search_files","arguments":{"pattern":"*.txt","directory":"/tmp"}},"id":2}"#,
    )
    .unwrap();
    let json: serde_json::Value = serde_json::from_str(&resp).unwrap();
    let content = json["result"]["content"].as_array().unwrap();
    assert!(!content.is_empty());
    assert_eq!(content[0]["type"], "text");
    let text = content[0]["text"].as_str().unwrap();
    assert!(text.contains("*.txt"));
    assert!(text.contains("/tmp"));
}

#[test]
fn search_files_call_without_pattern_is_an_error() {
    let resp = dispatch(
        r#"{"jsonrpc":"2.0","method":"tools/call","params":{"name":"search_files","arguments":{"directory":"/tmp"}},"id":3}"#,
    )
    .unwrap();
    let json: serde_json::Value = serde_json::from_str(&resp).unwrap();
    assert!(json.get("result").is_none());
    assert_eq!(json["error"]["code"], -32602);
    let message = json["error"]["message"].as_str().unwrap();
    assert!(message.contains("pattern"));
}

#[test]
fn unknown_tool_yields_code_32601() {
    let resp = dispatch(
        r#"{"jsonrpc":"2.0","method":"tools/call","params":{"name":"does_not_exist","arguments":{}},"id":4}"#,
    )
    .unwrap();
    let json: serde_json::Value = serde_json::from_str(&resp).unwrap();
    assert_eq!(json["error"]["code"], -32601);
}

#[test]
fn read_hosts_contains_localhost_line() {
    let resp = dispatch(
        r#"{"jsonrpc":"2.0","method":"resources/read","params":{"uri":"file:///etc/hosts"},"id":5}"#,
    )
    .unwrap();
    let json: serde_json::Value = serde_json::from_str(&resp).unwrap();
    let contents = json["result"]["contents"].as_array().unwrap();
    assert!(!contents.is_empty());
    let text = contents[0]["text"].as_str().unwrap();
    assert!(text.contains("127.0.0.1 localhost"));
}

#[test]
fn read_unknown_uri_yields_code_32602_and_no_result() {
    let resp = dispatch(
        r#"{"jsonrpc":"2.0","method":"resources/read","params":{"uri":"file:///nonexistent"},"id":6}"#,
    )
    .unwrap();
    let json: serde_json::Value = serde_json::from_str(&resp).unwrap();
    assert!(json.get("result").is_none());
    assert_eq!(json["error"]["code"], -32602);
}

#[test]
fn resources_list_reports_the_builtin_resource() {
    let resp = dispatch(r#"{"jsonrpc":"2.0","method":"resources/list","id":7}"#).unwrap();
    let json: serde_json::Value = serde_json::from_str(&resp).unwrap();
    let resources = json["result"]["resources"].as_array().unwrap();
    assert_eq!(resources.len(), 1);
    assert_eq!(resources[0]["uri"], "file:///etc/hosts");
    assert_eq!(resources[0]["mimeType"], "text/plain");
}

#[test]
fn unknown_method_yields_exact_error_envelope() {
    let resp = dispatch(r#"{"jsonrpc":"2.0","method":"nope"}"#).unwrap();
    assert_eq!(
        resp,
        r#"{"jsonrpc":"2.0","error":{"code":-32601,"message":"Method not found"},"id":null}"#
    );
}

#[test]
fn unknown_method_echoes_the_id() {
    let resp = dispatch(r#"{"jsonrpc":"2.0","method":"nope","id":7}"#).unwrap();
    let json: serde_json::Value = serde_json::from_str(&resp).unwrap();
    assert_eq!(json["error"]["code"], -32601);
    assert_eq!(json["id"], 7);
}

#[test]
fn explicit_null_id_is_echoed_as_null() {
    let resp = dispatch(r#"{"jsonrpc":"2.0","method":"tools/list","id":null}"#).unwrap();
    let json: serde_json::Value = serde_json::from_str(&resp).unwrap();
    assert!(json["id"].is_null());
}

#[test]
fn largest_id_is_echoed_exactly() {
    let resp = dispatch(
        r#"{"jsonrpc":"2.0","method":"tools/list","id":18446744073709551615}"#,
    )
    .unwrap();
    assert!(resp.ends_with(",\"id\":18446744073709551615}"));
}

#[test]
fn non_numeric_id_drops_the_line() {
    assert!(dispatch(r#"{"jsonrpc":"2.0","method":"tools/list","id":"seven"}"#).is_none());
}

#[test]
fn envelope_without_method_drops_the_line() {
    assert!(dispatch(r#"{"jsonrpc":"2.0","id":1}"#).is_none());
}

#[test]
fn envelope_without_jsonrpc_drops_the_line() {
    assert!(dispatch(r#"{"method":"tools/list","id":1}"#).is_none());
}

#[test]
fn invalid_json_drops_the_line() {
    assert!(dispatch("{not json").is_none());
}

#[test]
fn call_params_without_arguments_drop_the_line() {
    assert!(dispatch(
        r#"{"jsonrpc":"2.0","method":"tools/call","params":{"name":"search_files"},"id":1}"#
    )
    .is_none());
}

#[test]
fn same_list_request_twice_is_byte_identical() {
    let line = r#"{"jsonrpc":"2.0","method":"tools/list","id":9}"#;
    let first = dispatch(line).unwrap();
    let second = dispatch(line).unwrap();
    assert_eq!(first, second);
}

#[test]
fn same_call_request_twice_is_byte_identical() {
    let line = r#"{"jsonrpc":"2.0","method":"tools/call","params":{"name":"get_weather","arguments":{"city":"Beijing"}},"id":10}"#;
    let first = dispatch(line).unwrap();
    let second = dispatch(line).unwrap();
    assert_eq!(first, second);
}

#[test]
fn framer_splits_fed_bytes_into_lines() {
    let mut framer = LineFramer::new();
    framer.feed(b"{\"a\":1}\n{\"b\":2}\npartial");
    assert_eq!(framer.next_line().unwrap(), b"{\"a\":1}".to_vec());
    assert_eq!(framer.next_line().unwrap(), b"{\"b\":2}".to_vec());
    assert!(framer.next_line().is_none());
    framer.feed(b" more\n");
    assert_eq!(framer.next_line().unwrap(), b"partial more".to_vec());
    assert!(framer.take_rest().is_none());
}

#[test]
fn unterminated_line_before_close_is_still_served() {
    let mut framer = LineFramer::new();
    framer.feed(br#"{"jsonrpc":"2.0","method":"tools/list","id":1}"#);
    assert!(framer.next_line().is_none());
    let rest = framer.take_rest().unwrap();
    let tool_registry = ToolRegistry::new();
    let resource_registry = ResourceRegistry::new();
    match process_line(&rest, &tool_registry, &resource_registry) {
        LineOutcome::Response(resp) => {
            let json: serde_json::Value = serde_json::from_str(&resp).unwrap();
            assert_eq!(json["result"]["tools"].as_array().unwrap().len(), 2);
        }
        _ => panic!("an unterminated request line must still be answered"),
    }
}

#[test]
fn blank_line_produces_no_response() {
    let tool_registry = ToolRegistry::new();
    let resource_registry = ResourceRegistry::new();
    assert!(matches!(
        process_line(b"   \r", &tool_registry, &resource_registry),
        LineOutcome::Blank
    ));
    assert!(matches!(process_line(b"", &tool_registry, &resource_registry), LineOutcome::Blank));
}

#[test]
fn undecodable_line_is_reported_malformed() {
    let tool_registry = ToolRegistry::new();
    let resource_registry = ResourceRegistry::new();
    assert!(matches!(
        process_line(b"garbage", &tool_registry, &resource_registry),
        LineOutcome::Malformed
    ));
}

#[test]
fn json_string_escaping_is_exact() {
    let mut out = String::new();
    write_json_string(&mut out, "a\"b\\c\nd\te\rf\u{1}g");
    assert_eq!(out, "\"a\\\"b\\\\c\\nd\\te\\rf\\u0001g\"");
}

#[test]
fn escaped_text_survives_a_json_round_trip() {
    let resp = dispatch(
        r#"{"jsonrpc":"2.0","method":"tools/call","params":{"name":"search_files","arguments":{"pattern":"a\"b\\c","directory":"/tmp"}},"id":11}"#,
    )
    .unwrap();
    let json: serde_json::Value = serde_json::from_str(&resp).unwrap();
    let text = json["result"]["content"][0]["text"].as_str().unwrap();
    assert!(text.contains("a\"b\\c"));
}

#[test]
fn decimal_rendering_is_exact() {
    let mut out = String::new();
    write_u64(&mut out, 0);
    out.push(' ');
    write_u64(&mut out, 12345);
    out.push(' ');
    write_u64(&mut out, u64::MAX);
    assert_eq!(out, "0 12345 18446744073709551615");
}

#[test]
fn default_directory_is_reported_when_omitted() {
    let resp = dispatch(
        r#"{"jsonrpc":"2.0","method":"tools/call","params":{"name":"search_files","arguments":{"pattern":"*.rs"}},"id":12}"#,
    )
    .unwrap();
    let json: serde_json::Value = serde_json::from_str(&resp).unwrap();
    let text = json["result"]["content"][0]["text"].as_str().unwrap();
    assert_eq!(
        text,
        "在目录 . 中搜索模式 '*.rs'\n找到以下文件:\n1. /path/to/file1.txt\n2. /path/to/file2.log"
    );
}

#[test]
fn weather_report_text_is_exact() {
    let resp = dispatch(
        r#"{"jsonrpc":"2.0","method":"tools/call","params":{"name":"get_weather","arguments":{"city":"Beijing"}},"id":14}"#,
    )
    .unwrap();
    let json: serde_json::Value = serde_json::from_str(&resp).unwrap();
    let text = json["result"]["content"][0]["text"].as_str().unwrap();
    assert_eq!(text, "Beijing 的天气:\n温度: 22°C\n天气: 晴朗\n湿度: 65%");
}

#[test]
fn registry_name_accessors_report_registered_entries() {
    let tool_registry = ToolRegistry::new();
    let names = tool_registry.get_tool_names();
    assert_eq!(names, vec!["search_files".to_string(), "get_weather".to_string()]);
    let tool = tool_registry.get("get_weather").unwrap();
    assert_eq!(tool.name(), "get_weather");
    assert!(!tool.description().is_empty());

    let resource_registry = ResourceRegistry::new();
    assert_eq!(resource_registry.get_resource_uris(), vec!["file:///etc/hosts".to_string()]);
    let hosts = resource_registry.get_uri("file:///etc/hosts").unwrap();
    assert_eq!(hosts.mime_type, "text/plain");
    assert!(resource_registry.get_uri("file:///other").is_none());
}

#[test]
fn weather_call_without_city_reports_the_missing_parameter() {
    let resp = dispatch(
        r#"{"jsonrpc":"2.0","method":"tools/call","params":{"name":"get_weather","arguments":{}},"id":13}"#,
    )
    .unwrap();
    let json: serde_json::Value = serde_json::from_str(&resp).unwrap();
    assert_eq!(json["error"]["code"], -32602);
    assert!(json["error"]["message"].as_str().unwrap().contains("city"));
}
