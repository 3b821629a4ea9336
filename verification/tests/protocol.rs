use mcp_server::codec::{encode_response, Response};
use mcp_server::json::{Json, JsonNumber};
use mcp_server::server::{MCPServer, Step};
use mcp_server::tools::SumTexts;

const PARSE_ERROR_LINE: &str =
    r#"{"jsonrpc":"2.0","id":null,"error":{"code":-32700,"message":"Parse error"}}"#;

fn as_float(number: &JsonNumber) -> f64 {
    match number {
        JsonNumber::PosInt(value) => *value as f64,
        JsonNumber::NegInt(value) => *value as f64,
        JsonNumber::Float(number) => number.as_f64().unwrap(),
    }
}

fn respond(server: &MCPServer, line: &str) -> Response {
    match server.handle_line(line) {
        Step::Reply(response) => response,
        Step::Sum(pending) => {
            let a = as_float(&pending.addends.a);
            let b = as_float(&pending.addends.b);
            let texts =
                SumTexts { a: format!("{}", a), b: format!("{}", b), total: format!("{}", a + b) };
            pending.finish(&texts)
        }
    }
}

fn answer(server: &MCPServer, line: &str) -> String {
    encode_response(&respond(server, line)).unwrap()
}

fn result_text(response: &Response) -> String {
    let result = response.result.as_ref().unwrap();
    let content = match result.get("content").unwrap() {
        Json::Array(items) => items,
        other => panic!("content is {:?}", other),
    };
    assert_eq!(content.len(), 1);
    assert_eq!(content[0].get("type").unwrap().as_str(), Some("text"));
    content[0].get("text").unwrap().as_str().unwrap().to_string()
}

fn error_of(response: &Response) -> (i32, String) {
    assert!(response.result.is_none());
    let error = response.error.as_ref().unwrap();
    assert!(error.data.is_none());
    (error.code, error.message.clone())
}

#[test]
fn text_that_is_not_json_gets_a_parse_error() {
    let server = MCPServer::new();
    for line in ["not json", "", "   ", "{", "[1,2", "{\"jsonrpc\":\"2.0\",", "{} trailing", "nul"] {
        let response = respond(&server, line);
        assert_eq!(response.id, None);
        assert_eq!(error_of(&response), (-32700, "Parse error".to_string()));
        assert_eq!(answer(&server, line), PARSE_ERROR_LINE);
    }
}

#[test]
fn json_that_is_not_a_request_gets_a_parse_error() {
    let server = MCPServer::new();
    let lines = [
        "5",
        "null",
        "\"initialize\"",
        "[]",
        r#"["2.0","initialize",1,null]"#,
        "{}",
        r#"{"id":7,"method":"initialize"}"#,
        r#"{"jsonrpc":"2.0","id":7}"#,
        r#"{"jsonrpc":2,"id":7,"method":"initialize"}"#,
        r#"{"jsonrpc":null,"id":7,"method":"initialize"}"#,
        r#"{"jsonrpc":"2.0","id":7,"method":5}"#,
        r#"{"jsonrpc":"2.0","id":7,"method":null}"#,
        r#"{"jsonrpc":"2.0","id":7,"Method":"initialize"}"#,
    ];
    for line in lines {
        assert_eq!(answer(&server, line), PARSE_ERROR_LINE, "line: {}", line);
    }
}

#[test]
fn unknown_method_is_reported_with_its_name() {
    let server = MCPServer::new();
    let line = r#"{"jsonrpc":"2.0","id":5,"method":"nope"}"#;
    let response = respond(&server, line);
    assert_eq!(response.id, Some(Json::Number(JsonNumber::PosInt(5))));
    let (code, message) = error_of(&response);
    assert_eq!(code, -32601);
    assert!(message.contains("nope"));
    assert_eq!(
        answer(&server, line),
        r#"{"jsonrpc":"2.0","id":5,"error":{"code":-32601,"message":"Method not found: nope"}}"#
    );
}

#[test]
fn method_names_are_matched_exactly() {
    let server = MCPServer::new();
    for method in ["Initialize", "initialize ", " initialize", "tools/List", "tools", "tools/", ""] {
        let line = format!("{{\"jsonrpc\":\"2.0\",\"id\":1,\"method\":\"{}\"}}", method);
        let (code, message) = error_of(&respond(&server, &line));
        assert_eq!(code, -32601);
        assert_eq!(message, format!("Method not found: {}", method));
    }
}

#[test]
fn method_name_with_special_characters_is_escaped_on_the_wire() {
    let server = MCPServer::new();
    let line = r#"{"jsonrpc":"2.0","id":1,"method":"a\"b\\c\n"}"#;
    assert_eq!(error_of(&respond(&server, line)).1, "Method not found: a\"b\\c\n");
    assert_eq!(
        answer(&server, line),
        r#"{"jsonrpc":"2.0","id":1,"error":{"code":-32601,"message":"Method not found: a\"b\\c\n"}}"#
    );
}

#[test]
fn tools_call_without_params_is_invalid() {
    let server = MCPServer::new();
    let line = r#"{"jsonrpc":"2.0","id":"x","method":"tools/call"}"#;
    assert_eq!(error_of(&respond(&server, line)), (-32602, "Invalid params".to_string()));
    assert_eq!(
        answer(&server, line),
        r#"{"jsonrpc":"2.0","id":"x","error":{"code":-32602,"message":"Invalid params"}}"#
    );
    let with_null = r#"{"jsonrpc":"2.0","id":"x","method":"tools/call","params":null}"#;
    assert_eq!(error_of(&respond(&server, with_null)).0, -32602);
}

#[test]
fn resources_read_without_params_is_invalid() {
    let server = MCPServer::new();
    let line = r#"{"jsonrpc":"2.0","id":9,"method":"resources/read"}"#;
    assert_eq!(
        answer(&server, line),
        r#"{"jsonrpc":"2.0","id":9,"error":{"code":-32602,"message":"Invalid params"}}"#
    );
}

#[test]
fn add_two_and_three() {
    let server = MCPServer::new();
    let line = r#"{"jsonrpc":"2.0","id":3,"method":"tools/call","params":{"name":"add","arguments":{"a":2,"b":3}}}"#;
    match server.handle_line(line) {
        Step::Sum(pending) => {
            assert_eq!(pending.id, Some(Json::Number(JsonNumber::PosInt(3))));
            assert_eq!(pending.addends.a, JsonNumber::PosInt(2));
            assert_eq!(pending.addends.b, JsonNumber::PosInt(3));
        }
        other => panic!("unexpected step {:?}", other),
    }
    let response = respond(&server, line);
    assert!(response.error.is_none());
    assert_eq!(result_text(&response), "2 + 3 = 5");
    assert_eq!(
        answer(&server, line),
        r#"{"jsonrpc":"2.0","id":3,"result":{"content":[{"text":"2 + 3 = 5","type":"text"}]}}"#
    );
}

#[test]
fn add_shows_numbers_as_floating_point_numbers_are_printed() {
    let server = MCPServer::new();
    let cases = [
        ("1.5", "2.25", "1.5 + 2.25 = 3.75"),
        ("0.1", "0.2", "0.1 + 0.2 = 0.30000000000000004"),
        ("-4", "4", "-4 + 4 = 0"),
        ("2.0", "1e2", "2 + 100 = 102"),
        ("-7", "-8", "-7 + -8 = -15"),
        ("18446744073709551615", "0", "18446744073709552000 + 0 = 18446744073709552000"),
    ];
    for (a, b, expected) in cases {
        let line = format!(
            "{{\"jsonrpc\":\"2.0\",\"id\":1,\"method\":\"tools/call\",\"params\":{{\"name\":\"add\",\"arguments\":{{\"a\":{},\"b\":{}}}}}}}",
            a, b
        );
        assert_eq!(result_text(&respond(&server, &line)), expected);
    }
}

#[test]
fn hello_greets_by_name() {
    let server = MCPServer::new();
    let line = r#"{"jsonrpc":"2.0","id":4,"method":"tools/call","params":{"name":"hello","arguments":{"name":"Ada"}}}"#;
    let response = respond(&server, line);
    let text = result_text(&response);
    assert!(text.contains("Hello, Ada!"));
    assert_eq!(text, "Hello, Ada! This is {{serverName}} speaking.");
}

#[test]
fn hello_names_the_server_it_runs_on() {
    let server = MCPServer::with_identity("calc", "2.1.0");
    assert_eq!(server.name(), "calc");
    assert_eq!(server.version(), "2.1.0");
    let line = r#"{"jsonrpc":"2.0","id":4,"method":"tools/call","params":{"name":"hello","arguments":{"name":"Grace Hopper"}}}"#;
    assert_eq!(
        answer(&server, line),
        r#"{"jsonrpc":"2.0","id":4,"result":{"content":[{"text":"Hello, Grace Hopper! This is calc speaking.","type":"text"}]}}"#
    );
}

#[test]
fn bogus_tool_is_an_internal_error() {
    let server = MCPServer::new();
    let line = r#"{"jsonrpc":"2.0","id":6,"method":"tools/call","params":{"name":"bogus","arguments":{}}}"#;
    let (code, message) = error_of(&respond(&server, line));
    assert_eq!(code, -32603);
    assert!(message.contains("Unknown tool: bogus"));
    assert_eq!(
        answer(&server, line),
        r#"{"jsonrpc":"2.0","id":6,"error":{"code":-32603,"message":"Unknown tool: bogus"}}"#
    );
}

#[test]
fn tool_failures_carry_the_tools_own_message() {
    let server = MCPServer::new();
    let cases = [
        (r#"{}"#, "Missing tool name"),
        (r#"[]"#, "Missing tool name"),
        (r#"{"name":7,"arguments":{}}"#, "Missing tool name"),
        (r#"{"name":"hello"}"#, "Missing tool arguments"),
        (r#"{"name":"hello","arguments":{}}"#, "Missing name parameter"),
        (r#"{"name":"hello","arguments":null}"#, "Missing name parameter"),
        (r#"{"name":"hello","arguments":{"name":5}}"#, "Missing name parameter"),
        (r#"{"name":"add","arguments":{"b":1}}"#, "Parameter 'a' must be a number"),
        (r#"{"name":"add","arguments":{"a":"1","b":1}}"#, "Parameter 'a' must be a number"),
        (r#"{"name":"add","arguments":{"a":1}}"#, "Parameter 'b' must be a number"),
        (r#"{"name":"add","arguments":{"a":1,"b":true}}"#, "Parameter 'b' must be a number"),
        (r#"{"name":"add","arguments":[1,2]}"#, "Parameter 'a' must be a number"),
        (r#"{"name":"Hello","arguments":{"name":"Ada"}}"#, "Unknown tool: Hello"),
        (r#"{"name":"","arguments":{}}"#, "Unknown tool: "),
    ];
    for (params, expected) in cases {
        let line =
            format!("{{\"jsonrpc\":\"2.0\",\"id\":1,\"method\":\"tools/call\",\"params\":{}}}", params);
        assert_eq!(error_of(&respond(&server, &line)), (-32603, expected.to_string()), "{}", params);
    }
}

#[test]
fn resource_reads_fail_with_an_internal_error() {
    let server = MCPServer::new();
    let cases = [
        (r#"{}"#, "Missing resource name"),
        (r#"{"name":"notes"}"#, "Missing resource arguments"),
        (r#"{"name":"notes","arguments":{}}"#, "Unknown resource: notes"),
    ];
    for (params, expected) in cases {
        let line = format!(
            "{{\"jsonrpc\":\"2.0\",\"id\":1,\"method\":\"resources/read\",\"params\":{}}}",
            params
        );
        assert_eq!(error_of(&respond(&server, &line)), (-32603, expected.to_string()), "{}", params);
    }
}

#[test]
fn initialize_reports_the_server() {
    let server = MCPServer::new();
    assert_eq!(
        answer(&server, r#"{"jsonrpc":"2.0","id":1,"method":"initialize"}"#),
        r#"{"jsonrpc":"2.0","id":1,"result":{"capabilities":{"resources":{},"tools":{}},"protocolVersion":"1.0","serverInfo":{"name":"{{serverName}}","version":"0.1.0"}}}"#
    );
    let named = MCPServer::with_identity("calc", "2.1.0");
    assert_eq!(
        answer(&named, r#"{"jsonrpc":"2.0","id":1,"method":"initialize"}"#),
        r#"{"jsonrpc":"2.0","id":1,"result":{"capabilities":{"resources":{},"tools":{}},"protocolVersion":"1.0","serverInfo":{"name":"calc","version":"2.1.0"}}}"#
    );
}

#[test]
fn initialize_result_is_the_same_for_any_params() {
    let server = MCPServer::new();
    let plain = respond(&server, r#"{"jsonrpc":"2.0","id":1,"method":"initialize"}"#);
    assert!(plain.error.is_none());
    for params in ["null", "{}", "[1,2,3]", "7", "\"x\"", r#"{"capabilities":{"tools":false}}"#] {
        let line =
            format!("{{\"jsonrpc\":\"2.0\",\"id\":1,\"method\":\"initialize\",\"params\":{}}}", params);
        assert_eq!(respond(&server, &line), plain, "params: {}", params);
    }
}

#[test]
fn tools_list_gives_the_two_descriptors() {
    let server = MCPServer::new();
    assert_eq!(
        answer(&server, r#"{"jsonrpc":"2.0","id":2,"method":"tools/list"}"#),
        r#"{"jsonrpc":"2.0","id":2,"result":{"tools":[{"description":"Say hello to someone","inputSchema":{"properties":{"name":{"description":"Name to greet","type":"string"}},"required":["name"],"type":"object"},"name":"hello"},{"description":"Add two numbers","inputSchema":{"properties":{"a":{"description":"First number","type":"number"},"b":{"description":"Second number","type":"number"}},"required":["a","b"],"type":"object"},"name":"add"}]}}"#
    );
}

#[test]
fn resources_list_is_empty() {
    let server = MCPServer::new();
    assert_eq!(
        answer(&server, r#"{"jsonrpc":"2.0","id":2,"method":"resources/list","params":{"x":1}}"#),
        r#"{"jsonrpc":"2.0","id":2,"result":{"resources":[]}}"#
    );
}

#[test]
fn id_is_echoed_unchanged() {
    let server = MCPServer::new();
    let ids = [
        "1",
        "0",
        "-12",
        "18446744073709551615",
        "-9223372036854775808",
        "1.5",
        "1e300",
        "\"abc\"",
        "\"\"",
        "\"\\u00e9\\n\"",
        "true",
        "false",
        "[1,\"two\",null]",
        "{\"a\":{\"b\":[]}}",
    ];
    for id in ids {
        let line = format!("{{\"jsonrpc\":\"2.0\",\"id\":{},\"method\":\"resources/list\"}}", id);
        let expected = serde_json::to_string(&serde_json::from_str::<serde_json::Value>(id).unwrap())
            .unwrap();
        assert_eq!(
            answer(&server, &line),
            format!("{{\"jsonrpc\":\"2.0\",\"id\":{},\"result\":{{\"resources\":[]}}}}", expected)
        );
    }
}

#[test]
fn request_without_id_is_answered_with_null() {
    let server = MCPServer::new();
    for line in [
        r#"{"jsonrpc":"2.0","method":"resources/list"}"#,
        r#"{"jsonrpc":"2.0","id":null,"method":"resources/list"}"#,
    ] {
        assert_eq!(respond(&server, line).id, None);
        assert_eq!(answer(&server, line), r#"{"jsonrpc":"2.0","id":null,"result":{"resources":[]}}"#);
    }
}

#[test]
fn members_that_are_not_of_a_request_are_ignored() {
    let server = MCPServer::new();
    assert_eq!(
        answer(&server, r#" {"extra":[1,2],"method":"resources/list","jsonrpc":"1.0","id":8} "#),
        r#"{"jsonrpc":"2.0","id":8,"result":{"resources":[]}}"#
    );
}

#[test]
fn lines_are_answered_one_by_one_in_order() {
    let server = MCPServer::new();
    let lines: Vec<String> = vec![
        r#"{"jsonrpc":"2.0","id":1,"method":"initialize"}"#.to_string(),
        "garbage".to_string(),
        r#"{"jsonrpc":"2.0","id":"three","method":"tools/call","params":{"name":"add","arguments":{"a":1,"b":2}}}"#.to_string(),
        r#"{"jsonrpc":"2.0","id":4,"method":"nope"}"#.to_string(),
        r#"{"jsonrpc":"2.0","method":"tools/list"}"#.to_string(),
        r#"{"jsonrpc":"2.0","id":6,"method":"tools/call"}"#.to_string(),
    ];
    let steps = server.run(&lines);
    assert_eq!(steps.len(), lines.len());
    let ids: Vec<Option<Json>> = steps
        .into_iter()
        .map(|step| match step {
            Step::Reply(response) => response.id,
            Step::Sum(pending) => pending.id,
        })
        .collect();
    assert_eq!(
        ids,
        vec![
            Some(Json::Number(JsonNumber::PosInt(1))),
            None,
            Some(Json::String("three".to_string())),
            Some(Json::Number(JsonNumber::PosInt(4))),
            None,
            Some(Json::Number(JsonNumber::PosInt(6))),
        ]
    );
    let steps = server.run(&lines);
    for (step, line) in steps.iter().zip(lines.iter()) {
        assert_eq!(*step, server.handle_line(line));
    }
    assert!(matches!(steps[2], Step::Sum(_)));
    assert!(server.run(&Vec::new()).is_empty());
}

#[test]
fn a_failed_line_does_not_disturb_the_next() {
    let server = MCPServer::new();
    assert_eq!(answer(&server, "{{{"), PARSE_ERROR_LINE);
    assert_eq!(
        answer(&server, r#"{"jsonrpc":"2.0","id":2,"method":"resources/list"}"#),
        r#"{"jsonrpc":"2.0","id":2,"result":{"resources":[]}}"#
    );
}

#[test]
fn every_response_holds_a_result_or_an_error() {
    let server = MCPServer::new();
    let lines = [
        "x",
        r#"{"jsonrpc":"2.0","id":1,"method":"initialize"}"#,
        r#"{"jsonrpc":"2.0","id":1,"method":"tools/list"}"#,
        r#"{"jsonrpc":"2.0","id":1,"method":"tools/call"}"#,
        r#"{"jsonrpc":"2.0","id":1,"method":"tools/call","params":{"name":"add","arguments":{"a":1,"b":2}}}"#,
        r#"{"jsonrpc":"2.0","id":1,"method":"tools/call","params":{"name":"hello","arguments":{"name":"A"}}}"#,
        r#"{"jsonrpc":"2.0","id":1,"method":"resources/list"}"#,
        r#"{"jsonrpc":"2.0","id":1,"method":"resources/read","params":{}}"#,
        r#"{"jsonrpc":"2.0","id":1,"method":"other"}"#,
    ];
    for line in lines {
        let response = respond(&server, line);
        assert_eq!(response.jsonrpc, "2.0");
        assert_ne!(response.result.is_some(), response.error.is_some(), "line: {}", line);
    }
}
