use wexif::mcp_server::{
    next_step, parse_error_message, plan_request, route_method, server_info, tool_success_text,
    tools_list, ArgKind, LineStep, McpRequest, Method, Plan, Reply, ToolAction, ToolArgs,
    INTERNAL_ERROR_CODE, PARSE_ERROR_CODE,
};

fn no_args() -> ToolArgs {
    ToolArgs {
        image_path: None,
        input_path: None,
        output_path: None,
        exif_json_path: None,
        output_json_path: None,
        enable_ai: None,
    }
}

fn call(tool: Option<&str>, args: ToolArgs) -> McpRequest {
    McpRequest {
        method: "tools/call".to_string(),
        has_params: true,
        tool_name: tool.map(|s| s.to_string()),
        args,
    }
}

fn failure(plan: Plan) -> String {
    match plan {
        Plan::Fail(m) => m,
        other => panic!("expected a failure, got {:?}", other),
    }
}

#[test]
fn lines() {
    assert!(matches!(next_step(0, ""), LineStep::Stop));
    assert!(matches!(next_step(1, "\n"), LineStep::Skip));
    assert!(matches!(next_step(3, " \t\n"), LineStep::Skip));
    match next_step(10, "  {\"a\":1}\n") {
        LineStep::Handle(t) => assert_eq!(t, "{\"a\":1}"),
        other => panic!("{:?}", other),
    }
}

#[test]
fn methods() {
    assert_eq!(route_method("initialize"), Method::Initialize);
    assert_eq!(route_method("tools/list"), Method::ToolsList);
    assert_eq!(route_method("tools/call"), Method::ToolsCall);
    assert_eq!(route_method("tools/Call"), Method::Unknown);
    assert_eq!(route_method(""), Method::Unknown);
}

#[test]
fn fixed_replies_and_unknown_method() {
    let req = McpRequest { method: "initialize".to_string(), has_params: false, tool_name: None, args: no_args() };
    assert!(matches!(plan_request(&req), Plan::Respond(Reply::Initialize)));
    let req = McpRequest { method: "tools/list".to_string(), has_params: true, tool_name: None, args: no_args() };
    assert!(matches!(plan_request(&req), Plan::Respond(Reply::ToolsList)));
    let req = McpRequest { method: "ping".to_string(), has_params: false, tool_name: None, args: no_args() };
    assert_eq!(failure(plan_request(&req)), "Unknown method: ping");
}

#[test]
fn tool_call_errors() {
    let mut req = call(Some("read_exif"), no_args());
    req.has_params = false;
    assert_eq!(failure(plan_request(&req)), "Missing params");
    assert_eq!(failure(plan_request(&call(None, no_args()))), "Missing tool name");
    assert_eq!(failure(plan_request(&call(Some("erase"), no_args()))), "Unknown tool: erase");
    assert_eq!(failure(plan_request(&call(Some("read_exif"), no_args()))), "Missing image_path");
    assert_eq!(failure(plan_request(&call(Some("write_exif"), no_args()))), "Missing input_path");
    let mut args = no_args();
    args.input_path = Some("in.jpg".to_string());
    assert_eq!(failure(plan_request(&call(Some("write_exif"), args))), "Missing exif_json_path");
    assert_eq!(
        failure(plan_request(&call(Some("generate_exif_with_ai"), no_args()))),
        "Missing image_path"
    );
    let mut args = no_args();
    args.image_path = Some("a.jpg".to_string());
    assert_eq!(
        failure(plan_request(&call(Some("generate_exif_with_ai"), args))),
        "Missing output_json_path"
    );
}

#[test]
fn tool_calls() {
    let mut args = no_args();
    args.image_path = Some("a.jpg".to_string());
    match plan_request(&call(Some("read_exif"), args)) {
        Plan::Run(ToolAction::ReadExif { image_path }) => assert_eq!(image_path, "a.jpg"),
        other => panic!("{:?}", other),
    }
    let mut args = no_args();
    args.input_path = Some("in.jpg".to_string());
    args.exif_json_path = Some("exif.json".to_string());
    match plan_request(&call(Some("write_exif"), args)) {
        Plan::Run(ToolAction::WriteExif { input_path, output_path, exif_json_path, enable_ai }) => {
            assert_eq!(input_path, "in.jpg");
            assert_eq!(output_path, "in.jpg");
            assert_eq!(exif_json_path, "exif.json");
            assert!(!enable_ai);
        }
        other => panic!("{:?}", other),
    }
    let mut args = no_args();
    args.input_path = Some("in.jpg".to_string());
    args.output_path = Some("out.jpg".to_string());
    args.exif_json_path = Some("exif.json".to_string());
    args.enable_ai = Some(true);
    match plan_request(&call(Some("write_exif"), args)) {
        Plan::Run(ToolAction::WriteExif { output_path, enable_ai, .. }) => {
            assert_eq!(output_path, "out.jpg");
            assert!(enable_ai);
        }
        other => panic!("{:?}", other),
    }
    let mut args = no_args();
    args.image_path = Some("a.jpg".to_string());
    args.output_json_path = Some("ai.json".to_string());
    match plan_request(&call(Some("generate_exif_with_ai"), args)) {
        Plan::Run(ToolAction::GenerateExif { image_path, output_json_path }) => {
            assert_eq!(image_path, "a.jpg");
            assert_eq!(output_json_path, "ai.json");
        }
        other => panic!("{:?}", other),
    }
}

#[test]
fn result_texts_and_codes() {
    let read = ToolAction::ReadExif { image_path: "a.jpg".to_string() };
    assert_eq!(
        tool_success_text(&read, "  Make: SONY\n"),
        "已读取图片 a.jpg 的 EXIF 信息\n\n=== 原始 EXIF 信息 ===\n图片路径: a.jpg\n\n  Make: SONY\n"
    );
    let write = ToolAction::WriteExif {
        input_path: "in.jpg".to_string(),
        output_path: "out.jpg".to_string(),
        exif_json_path: "e.json".to_string(),
        enable_ai: false,
    };
    assert_eq!(tool_success_text(&write, ""), "已成功将 EXIF 数据写入: out.jpg");
    let write_ai = ToolAction::WriteExif {
        input_path: "in.jpg".to_string(),
        output_path: "out.jpg".to_string(),
        exif_json_path: "e.json".to_string(),
        enable_ai: true,
    };
    assert_eq!(tool_success_text(&write_ai, ""), "已使用 AI 生成 EXIF 信息并成功写入: out.jpg");
    let generate = ToolAction::GenerateExif {
        image_path: "a.jpg".to_string(),
        output_json_path: "ai.json".to_string(),
    };
    assert_eq!(tool_success_text(&generate, ""), "已使用 AI 生成 EXIF 信息并保存到: ai.json");
    assert_eq!(parse_error_message("EOF while parsing"), "Parse error: EOF while parsing");
    assert_eq!(PARSE_ERROR_CODE, -32700);
    assert_eq!(INTERNAL_ERROR_CODE, -32603);
}

#[test]
fn listed_tools_and_their_arguments() {
    let tools = tools_list();
    let names: Vec<&str> = tools.iter().map(|t| t.name.as_str()).collect();
    assert_eq!(names, vec!["read_exif", "write_exif", "generate_exif_with_ai"]);
    assert_eq!(tools[0].description, "读取图片的 EXIF 信息");
    assert_eq!(tools[1].description, "将 EXIF 数据写入图片");
    assert_eq!(tools[2].description, "使用 AI 生成图片的 EXIF 信息");
    let params: Vec<Vec<(&str, bool)>> = tools
        .iter()
        .map(|t| t.params.iter().map(|p| (p.name.as_str(), p.required)).collect())
        .collect();
    assert_eq!(params[0], vec![("image_path", true)]);
    assert_eq!(
        params[1],
        vec![("input_path", true), ("output_path", false), ("exif_json_path", true), ("enable_ai", false)]
    );
    assert_eq!(params[2], vec![("image_path", true), ("output_json_path", true)]);
    assert_eq!(tools[1].params[3].kind, ArgKind::Flag);
    assert_eq!(tools[1].params[1].kind, ArgKind::Text);
    assert_eq!(tools[1].params[1].description, "输出图片路径（可选，默认覆盖原图）");
    assert_eq!(tools[1].params[3].description, "是否使用 AI 生成 EXIF 信息（默认 false）");
}

#[test]
fn listed_tool_runs_with_only_its_required_arguments() {
    let mut args = no_args();
    args.input_path = Some("in.jpg".to_string());
    args.exif_json_path = Some("exif.json".to_string());
    assert!(matches!(plan_request(&call(Some("write_exif"), args)), Plan::Run(_)));
    let mut args = no_args();
    args.input_path = Some("in.jpg".to_string());
    args.output_path = Some("out.jpg".to_string());
    assert_eq!(failure(plan_request(&call(Some("write_exif"), args))), "Missing exif_json_path");
    let mut args = no_args();
    args.output_json_path = Some("gen.json".to_string());
    assert_eq!(
        failure(plan_request(&call(Some("generate_exif_with_ai"), args))),
        "Missing image_path"
    );
    assert_eq!(failure(plan_request(&call(Some("list_exif"), no_args()))), "Unknown tool: list_exif");
}

#[test]
fn server_names_itself() {
    let info = server_info();
    assert_eq!(info.protocol_version, "2024-11-05");
    assert_eq!(info.name, "wexif");
    assert_eq!(info.version, "0.1.0");
}

#[test]
fn read_exif_result_carries_the_report() {
    let mut payload_source = wexif::exif_data::ExifData {
        gps_longitude: String::new(),
        model: String::new(),
        date_time_original: String::new(),
        orientation: String::new(),
        lens: String::new(),
        focal_length: String::new(),
        iso_speed_ratings: 0,
        gps_latitude: String::new(),
        exposure_compensation: String::new(),
        location: String::new(),
        make: String::new(),
        exposure_time: String::new(),
        f_number: String::new(),
        white_balance: String::new(),
    };
    payload_source.make = "SONY".to_string();
    let payload = wexif::exif_writer::exif_payload(&payload_source, None, None).unwrap();
    let jpeg = wexif::jpeg::inject_exif_to_jpeg(&[0xFF, 0xD8, 0xFF, 0xD9], &payload).unwrap();
    let body = wexif::exif_reader::exif_report_body(&jpeg);
    let read = ToolAction::ReadExif { image_path: "p.jpg".to_string() };
    let text = tool_success_text(&read, &body);
    assert!(text.starts_with("已读取图片 p.jpg 的 EXIF 信息\n\n=== 原始 EXIF 信息 ===\n"), "{}", text);
    assert!(text.contains("  Make: SONY\n"), "{}", text);
}
