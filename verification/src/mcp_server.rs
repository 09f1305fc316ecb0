//! The decisions of the MCP (JSON-RPC over standard input and output) tool
//! server: which input lines are requests, what a request asks for, and
//! what the reply says.

use vstd::prelude::*;
use crate::exif_reader::{header_text, report_header};
use crate::text::{chars_of, is_ws, str_equals, trim, trim_bounds, trim_end, trim_start};

verus! {

/// The JSON-RPC error code for a line that is no request.
pub const PARSE_ERROR_CODE: i32 = -32700;

/// The JSON-RPC error code for a request that failed.
pub const INTERNAL_ERROR_CODE: i32 = -32603;

/// What to do with a line read from standard input.
#[derive(Debug)]
pub enum LineStep {
    /// The input has ended: stop serving.
    Stop,
    /// A blank line: read the next one.
    Skip,
    /// Handle the request in this (trimmed) text.
    Handle(String),
}

/// What to do with a line read from standard input, as plain values.
pub enum LineStepView {
    Stop,
    Skip,
    Handle(Seq<char>),
}

impl View for LineStep {
    type V = LineStepView;

    open spec fn view(&self) -> LineStepView {
        match self {
            LineStep::Stop => LineStepView::Stop,
            LineStep::Skip => LineStepView::Skip,
            LineStep::Handle(t) => LineStepView::Handle(t@),
        }
    }
}

/// The step for a line: `bytes_read` of zero is the end of the input, a
/// line that is blank once trimmed is skipped, any other line is handled
/// as a request with its surrounding whitespace removed.
pub open spec fn line_step(bytes_read: usize, line: Seq<char>) -> LineStepView {
    if bytes_read == 0 {
        LineStepView::Stop
    } else if trim(line).len() == 0 {
        LineStepView::Skip
    } else {
        LineStepView::Handle(trim(line))
    }
}

/// What to do with a line read from standard input (`bytes_read` is what
/// the read returned).
pub fn next_step(bytes_read: usize, line: &str) -> (r: LineStep)
    ensures
        r@ == line_step(bytes_read, line@),
{
    if bytes_read == 0 {
        return LineStep::Stop;
    }
    let v = chars_of(line);
    assert(v@.subrange(0, v@.len() as int) =~= line@);
    let (a, b) = trim_bounds(&v, 0, v.len());
    if a == b {
        return LineStep::Skip;
    }
    LineStep::Handle(line.substring_char(a, b).to_owned())
}

/// The methods of the protocol.
#[derive(Debug, Clone, Copy, PartialEq, Eq, Structural)]
pub enum Method {
    Initialize,
    ToolsList,
    ToolsCall,
    Unknown,
}

/// The method that a method name names.
pub open spec fn method_of(name: Seq<char>) -> Method {
    if name == "initialize"@ {
        Method::Initialize
    } else if name == "tools/list"@ {
        Method::ToolsList
    } else if name == "tools/call"@ {
        Method::ToolsCall
    } else {
        Method::Unknown
    }
}

/// The method that `name` names.
pub fn route_method(name: &str) -> (r: Method)
    ensures
        r == method_of(name@),
{
    if str_equals(name, "initialize") {
        Method::Initialize
    } else if str_equals(name, "tools/list") {
        Method::ToolsList
    } else if str_equals(name, "tools/call") {
        Method::ToolsCall
    } else {
        Method::Unknown
    }
}

/// The arguments of a tool call that the tools read: each string argument
/// when it is present and a string, and `enable_ai` when it is a boolean.
#[derive(Debug)]
pub struct ToolArgs {
    pub image_path: Option<String>,
    pub input_path: Option<String>,
    pub output_path: Option<String>,
    pub exif_json_path: Option<String>,
    pub output_json_path: Option<String>,
    pub enable_ai: Option<bool>,
}

/// A request as plain values: its method name, whether it has parameters,
/// the tool name among them (when it is a string), and the tool's
/// arguments.
#[derive(Debug)]
pub struct McpRequest {
    pub method: String,
    pub has_params: bool,
    pub tool_name: Option<String>,
    pub args: ToolArgs,
}

/// The fixed results that need no tool.
#[derive(Debug, Clone, Copy, PartialEq, Eq, Structural)]
pub enum Reply {
    /// The server's protocol version, capabilities and name.
    Initialize,
    /// The list of the tools.
    ToolsList,
}

/// The work that a tool call asks for.
#[derive(Debug)]
pub enum ToolAction {
    /// Print the EXIF fields of an image.
    ReadExif { image_path: String },
    /// Write the EXIF description in a JSON file into an image (after
    /// having the AI write that file, when `enable_ai`), saving the result
    /// to `output_path`.
    WriteExif { input_path: String, output_path: String, exif_json_path: String, enable_ai: bool },
    /// Have the AI write the EXIF description of an image to a JSON file.
    GenerateExif { image_path: String, output_json_path: String },
}

/// What the server does with a request.
#[derive(Debug)]
pub enum Plan {
    /// Answer with a fixed result.
    Respond(Reply),
    /// Run a tool.
    Run(ToolAction),
    /// Answer with this error message.
    Fail(String),
}

/// A tool action as plain values.
pub enum ActionView {
    ReadExif { image_path: Seq<char> },
    WriteExif {
        input_path: Seq<char>,
        output_path: Seq<char>,
        exif_json_path: Seq<char>,
        enable_ai: bool,
    },
    GenerateExif { image_path: Seq<char>, output_json_path: Seq<char> },
}

/// A plan as plain values.
pub enum PlanView {
    Respond(Reply),
    Run(ActionView),
    Fail(Seq<char>),
}

impl View for ToolAction {
    type V = ActionView;

    open spec fn view(&self) -> ActionView {
        match self {
            ToolAction::ReadExif { image_path } => ActionView::ReadExif { image_path: image_path@ },
            ToolAction::WriteExif { input_path, output_path, exif_json_path, enable_ai } =>
                ActionView::WriteExif {
                input_path: input_path@,
                output_path: output_path@,
                exif_json_path: exif_json_path@,
                enable_ai: *enable_ai,
            },
            ToolAction::GenerateExif { image_path, output_json_path } => ActionView::GenerateExif {
                image_path: image_path@,
                output_json_path: output_json_path@,
            },
        }
    }
}

impl View for Plan {
    type V = PlanView;

    open spec fn view(&self) -> PlanView {
        match self {
            Plan::Respond(r) => PlanView::Respond(*r),
            Plan::Run(a) => PlanView::Run(a@),
            Plan::Fail(m) => PlanView::Fail(m@),
        }
    }
}

/// An optional text as plain values.
pub open spec fn opt_text(o: Option<String>) -> Option<Seq<char>> {
    match o {
        Some(s) => Some(s@),
        None => None,
    }
}

/// The plan for a call of the tool named `name`: each tool's required
/// arguments are checked in order, and a missing one is reported as
/// `Missing <argument>`; `write_exif` writes over its input when no output
/// is given and runs without the AI unless `enable_ai` is given as true.
pub open spec fn tool_plan(name: Seq<char>, args: ToolArgs) -> PlanView {
    if name == "read_exif"@ {
        match opt_text(args.image_path) {
            None => PlanView::Fail("Missing image_path"@),
            Some(image_path) => PlanView::Run(ActionView::ReadExif { image_path }),
        }
    } else if name == "write_exif"@ {
        match opt_text(args.input_path) {
            None => PlanView::Fail("Missing input_path"@),
            Some(input_path) => match opt_text(args.exif_json_path) {
                None => PlanView::Fail("Missing exif_json_path"@),
                Some(exif_json_path) => PlanView::Run(
                    ActionView::WriteExif {
                        input_path,
                        output_path: match opt_text(args.output_path) {
                            Some(o) => o,
                            None => input_path,
                        },
                        exif_json_path,
                        enable_ai: match args.enable_ai {
                            Some(b) => b,
                            None => false,
                        },
                    },
                ),
            },
        }
    } else if name == "generate_exif_with_ai"@ {
        match opt_text(args.image_path) {
            None => PlanView::Fail("Missing image_path"@),
            Some(image_path) => match opt_text(args.output_json_path) {
                None => PlanView::Fail("Missing output_json_path"@),
                Some(output_json_path) => PlanView::Run(
                    ActionView::GenerateExif { image_path, output_json_path },
                ),
            },
        }
    } else {
        PlanView::Fail("Unknown tool: "@ + name)
    }
}

/// The plan for a request: `initialize` and `tools/list` get their fixed
/// result, `tools/call` needs parameters with a tool name and then the
/// tool's plan, and any other method is unknown.
pub open spec fn request_plan(req: McpRequest) -> PlanView {
    match method_of(req.method@) {
        Method::Initialize => PlanView::Respond(Reply::Initialize),
        Method::ToolsList => PlanView::Respond(Reply::ToolsList),
        Method::ToolsCall => if !req.has_params {
            PlanView::Fail("Missing params"@)
        } else {
            match opt_text(req.tool_name) {
                None => PlanView::Fail("Missing tool name"@),
                Some(name) => tool_plan(name, req.args),
            }
        },
        Method::Unknown => PlanView::Fail("Unknown method: "@ + req.method@),
    }
}

/// The message `prefix` followed by `detail`.
fn message(prefix: &str, detail: &str) -> (r: String)
    ensures
        r@ == prefix@ + detail@,
{
    let mut m = String::new();
    m.append(prefix);
    m.append(detail);
    assert(m@ =~= prefix@ + detail@);
    m
}

/// An owned copy of an optional text.
fn copy_text(o: &Option<String>) -> (r: Option<String>)
    ensures
        opt_text(r) == opt_text(*o),
{
    match o {
        Some(s) => Some(s.clone()),
        None => None,
    }
}

/// The plan for a call of the tool named `name` with `args`.
fn plan_tool(name: &str, args: &ToolArgs) -> (r: Plan)
    ensures
        r@ == tool_plan(name@, *args),
{
    if str_equals(name, "read_exif") {
        match copy_text(&args.image_path) {
            None => Plan::Fail("Missing image_path".to_owned()),
            Some(image_path) => Plan::Run(ToolAction::ReadExif { image_path }),
        }
    } else if str_equals(name, "write_exif") {
        match copy_text(&args.input_path) {
            None => Plan::Fail("Missing input_path".to_owned()),
            Some(input_path) => match copy_text(&args.exif_json_path) {
                None => Plan::Fail("Missing exif_json_path".to_owned()),
                Some(exif_json_path) => {
                    let output_path = match copy_text(&args.output_path) {
                        Some(o) => o,
                        None => input_path.clone(),
                    };
                    let enable_ai = match args.enable_ai {
                        Some(b) => b,
                        None => false,
                    };
                    Plan::Run(
                        ToolAction::WriteExif { input_path, output_path, exif_json_path, enable_ai },
                    )
                },
            },
        }
    } else if str_equals(name, "generate_exif_with_ai") {
        match copy_text(&args.image_path) {
            None => Plan::Fail("Missing image_path".to_owned()),
            Some(image_path) => match copy_text(&args.output_json_path) {
                None => Plan::Fail("Missing output_json_path".to_owned()),
                Some(output_json_path) => Plan::Run(
                    ToolAction::GenerateExif { image_path, output_json_path },
                ),
            },
        }
    } else {
        Plan::Fail(message("Unknown tool: ", name))
    }
}

/// What the server does with `req`.
pub fn plan_request(req: &McpRequest) -> (r: Plan)
    ensures
        r@ == request_plan(*req),
{
    match route_method(req.method.as_str()) {
        Method::Initialize => Plan::Respond(Reply::Initialize),
        Method::ToolsList => Plan::Respond(Reply::ToolsList),
        Method::ToolsCall => {
            if !req.has_params {
                Plan::Fail("Missing params".to_owned())
            } else {
                match &req.tool_name {
                    None => Plan::Fail("Missing tool name".to_owned()),
                    Some(name) => plan_tool(name.as_str(), &req.args),
                }
            }
        },
        Method::Unknown => Plan::Fail(message("Unknown method: ", req.method.as_str())),
    }
}

/// The text of a tool's result once its work succeeded. For `read_exif` it
/// is a notice, a blank line and the image's EXIF report: its opening
/// (`header_text`) followed by `report`, the report's body for the image
/// (its fields, or why they could not be read).
pub open spec fn success_text(action: ActionView, report: Seq<char>) -> Seq<char> {
    match action {
        ActionView::ReadExif { image_path } => "已读取图片 "@ + image_path + " 的 EXIF 信息\n\n"@
            + header_text(image_path) + report,
        ActionView::WriteExif { output_path, enable_ai, .. } => if enable_ai {
            "已使用 AI 生成 EXIF 信息并成功写入: "@ + output_path
        } else {
            "已成功将 EXIF 数据写入: "@ + output_path
        },
        ActionView::GenerateExif { output_json_path, .. } => "已使用 AI 生成 EXIF 信息并保存到: "@
            + output_json_path,
    }
}

/// The text of a tool's result once its work succeeded; `report` is the
/// body of the image's EXIF report (`exif_report_body` of the image file),
/// which only `read_exif` shows.
pub fn tool_success_text(action: &ToolAction, report: &str) -> (r: String)
    ensures
        r@ == success_text(action@, report@),
{
    match action {
        ToolAction::ReadExif { image_path } => {
            let mut m = message("已读取图片 ", image_path.as_str());
            m.append(" 的 EXIF 信息\n\n");
            let header = report_header(image_path.as_str());
            m.append(header.as_str());
            m.append(report);
            m
        },
        ToolAction::WriteExif { output_path, enable_ai, .. } => {
            if *enable_ai {
                message("已使用 AI 生成 EXIF 信息并成功写入: ", output_path.as_str())
            } else {
                message("已成功将 EXIF 数据写入: ", output_path.as_str())
            }
        },
        ToolAction::GenerateExif { output_json_path, .. } => message(
            "已使用 AI 生成 EXIF 信息并保存到: ",
            output_json_path.as_str(),
        ),
    }
}

/// The error message for a line that could not be read as a request,
/// given the JSON reader's message.
pub fn parse_error_message(detail: &str) -> (r: String)
    ensures
        r@ == "Parse error: "@ + detail@,
{
    message("Parse error: ", detail)
}

/// What the server tells of itself in its `initialize` result.
#[derive(Debug)]
pub struct ServerInfo {
    /// The version of the Model Context Protocol that it speaks.
    pub protocol_version: String,
    /// The server's name.
    pub name: String,
    /// The server's version.
    pub version: String,
}

/// The server's protocol version, name and version for `initialize`.
pub fn server_info() -> (r: ServerInfo)
    ensures
        r.protocol_version@ == "2024-11-05"@,
        r.name@ == "wexif"@,
        r.version@ == "0.1.0"@,
{
    ServerInfo {
        protocol_version: "2024-11-05".to_owned(),
        name: "wexif".to_owned(),
        version: "0.1.0".to_owned(),
    }
}

/// The type of a tool argument.
#[derive(Debug, Clone, Copy, PartialEq, Eq, Structural)]
pub enum ArgKind {
    /// A JSON string.
    Text,
    /// A JSON boolean.
    Flag,
}

/// An argument that a tool takes, as the tool list describes it.
#[derive(Debug)]
pub struct ToolParam {
    pub name: String,
    pub kind: ArgKind,
    pub description: String,
    pub required: bool,
}

/// A tool that the server offers, with its arguments in the order listed.
#[derive(Debug)]
pub struct ToolInfo {
    pub name: String,
    pub description: String,
    pub params: Vec<ToolParam>,
}

/// A tool argument as plain values.
pub struct ParamView {
    pub name: Seq<char>,
    pub kind: ArgKind,
    pub description: Seq<char>,
    pub required: bool,
}

/// A tool as plain values.
pub struct ToolView {
    pub name: Seq<char>,
    pub description: Seq<char>,
    pub params: Seq<ParamView>,
}

impl View for ToolParam {
    type V = ParamView;

    open spec fn view(&self) -> ParamView {
        ParamView {
            name: self.name@,
            kind: self.kind,
            description: self.description@,
            required: self.required,
        }
    }
}

impl View for ToolInfo {
    type V = ToolView;

    open spec fn view(&self) -> ToolView {
        ToolView {
            name: self.name@,
            description: self.description@,
            params: self.params@.map_values(|p: ToolParam| p@),
        }
    }
}

/// A text argument.
pub open spec fn text_param(name: &str, description: &str, required: bool) -> ParamView {
    ParamView { name: name@, kind: ArgKind::Text, description: description@, required }
}

/// The tools that the server offers: `read_exif` (of `image_path`),
/// `write_exif` (of `input_path`, an optional `output_path`,
/// `exif_json_path` and an optional `enable_ai` flag) and
/// `generate_exif_with_ai` (of `image_path` and `output_json_path`).
pub open spec fn tool_catalogue() -> Seq<ToolView> {
    seq![
        ToolView {
            name: "read_exif"@,
            description: "读取图片的 EXIF 信息"@,
            params: seq![text_param("image_path", "图片文件路径", true)],
        },
        ToolView {
            name: "write_exif"@,
            description: "将 EXIF 数据写入图片"@,
            params: seq![
                text_param("input_path", "输入图片路径", true),
                text_param("output_path", "输出图片路径（可选，默认覆盖原图）", false),
                text_param("exif_json_path", "EXIF JSON 文件路径", true),
                ParamView {
                    name: "enable_ai"@,
                    kind: ArgKind::Flag,
                    description: "是否使用 AI 生成 EXIF 信息（默认 false）"@,
                    required: false,
                },
            ],
        },
        ToolView {
            name: "generate_exif_with_ai"@,
            description: "使用 AI 生成图片的 EXIF 信息"@,
            params: seq![
                text_param("image_path", "图片文件路径", true),
                text_param("output_json_path", "输出 JSON 文件路径", true),
            ],
        },
    ]
}

/// The tools of a list, as plain values.
pub open spec fn tools_view(tools: Seq<ToolInfo>) -> Seq<ToolView> {
    tools.map_values(|t: ToolInfo| t@)
}

/// A text argument.
fn text_arg(name: &str, description: &str, required: bool) -> (r: ToolParam)
    ensures
        r@ == text_param(name, description, required),
{
    ToolParam {
        name: name.to_owned(),
        kind: ArgKind::Text,
        description: description.to_owned(),
        required,
    }
}

/// A tool with its arguments.
fn tool(name: &str, description: &str, params: Vec<ToolParam>) -> (r: ToolInfo)
    ensures
        r@ == (ToolView {
            name: name@,
            description: description@,
            params: params@.map_values(|p: ToolParam| p@),
        }),
{
    ToolInfo { name: name.to_owned(), description: description.to_owned(), params }
}

/// The tools that the server lists for `tools/list`.
pub fn tools_list() -> (r: Vec<ToolInfo>)
    ensures
        tools_view(r@) == tool_catalogue(),
{
    let mut read_params: Vec<ToolParam> = Vec::new();
    read_params.push(text_arg("image_path", "图片文件路径", true));
    let read = tool("read_exif", "读取图片的 EXIF 信息", read_params);

    let mut write_params: Vec<ToolParam> = Vec::new();
    write_params.push(text_arg("input_path", "输入图片路径", true));
    write_params.push(text_arg("output_path", "输出图片路径（可选，默认覆盖原图）", false));
    write_params.push(text_arg("exif_json_path", "EXIF JSON 文件路径", true));
    write_params.push(
        ToolParam {
            name: "enable_ai".to_owned(),
            kind: ArgKind::Flag,
            description: "是否使用 AI 生成 EXIF 信息（默认 false）".to_owned(),
            required: false,
        },
    );
    let write = tool("write_exif", "将 EXIF 数据写入图片", write_params);

    let mut generate_params: Vec<ToolParam> = Vec::new();
    generate_params.push(text_arg("image_path", "图片文件路径", true));
    generate_params.push(text_arg("output_json_path", "输出 JSON 文件路径", true));
    let generate = tool("generate_exif_with_ai", "使用 AI 生成图片的 EXIF 信息", generate_params);

    let mut tools: Vec<ToolInfo> = Vec::new();
    tools.push(read);
    tools.push(write);
    tools.push(generate);
    proof {
        assert(tools@[0]@.params =~= tool_catalogue()[0].params);
        assert(tools@[1]@.params =~= tool_catalogue()[1].params);
        assert(tools@[2]@.params =~= tool_catalogue()[2].params);
        assert(tools_view(tools@) =~= tool_catalogue());
    }
    tools
}

/// Whether a tool call gives the argument named `name`: a text argument
/// as a string, `enable_ai` as a boolean.
pub open spec fn has_arg(args: ToolArgs, name: Seq<char>) -> bool {
    if name == "image_path"@ {
        args.image_path is Some
    } else if name == "input_path"@ {
        args.input_path is Some
    } else if name == "output_path"@ {
        args.output_path is Some
    } else if name == "exif_json_path"@ {
        args.exif_json_path is Some
    } else if name == "output_json_path"@ {
        args.output_json_path is Some
    } else if name == "enable_ai"@ {
        args.enable_ai is Some
    } else {
        false
    }
}

/// Whether a call gives every argument that the tool list marks required.
pub open spec fn required_given(tool: ToolView, args: ToolArgs) -> bool {
    forall|j: int|
        0 <= j < tool.params.len() && (#[trigger] tool.params[j]).required ==> has_arg(
            args,
            tool.params[j].name,
        )
}

/// A call of a listed tool runs exactly when it gives every argument that
/// the list marks required, and is otherwise refused for a missing one.
pub proof fn lemma_listed_tool_runs_iff_required_given(i: int, args: ToolArgs)
    requires
        0 <= i < tool_catalogue().len(),
    ensures
        tool_plan(tool_catalogue()[i].name, args) is Run <==> required_given(
            tool_catalogue()[i],
            args,
        ),
{
    reveal_strlit("read_exif");
    reveal_strlit("write_exif");
    reveal_strlit("generate_exif_with_ai");
    reveal_strlit("image_path");
    reveal_strlit("input_path");
    reveal_strlit("output_path");
    reveal_strlit("exif_json_path");
    reveal_strlit("output_json_path");
    reveal_strlit("enable_ai");
    let t = tool_catalogue()[i];
    assert("write_exif"@.len() != "read_exif"@.len());
    assert("generate_exif_with_ai"@.len() != "read_exif"@.len());
    assert("generate_exif_with_ai"@.len() != "write_exif"@.len());
    assert("input_path"@[1] != "image_path"@[1]);
    assert("exif_json_path"@.len() != "image_path"@.len());
    assert("exif_json_path"@.len() != "input_path"@.len());
    assert("exif_json_path"@.len() != "output_path"@.len());
    assert(has_arg(args, "image_path"@) == args.image_path is Some);
    assert(has_arg(args, "input_path"@) == args.input_path is Some);
    assert(has_arg(args, "exif_json_path"@) == args.exif_json_path is Some);
    assert(has_arg(args, "output_json_path"@) == args.output_json_path is Some);
    if i == 0 {
        assert(t.params.len() == 1 && t.params[0].required);
        assert(tool_plan(t.name, args) is Run <==> args.image_path is Some);
        assert(required_given(t, args) <==> args.image_path is Some);
    } else if i == 1 {
        assert(t.params.len() == 4);
        assert(!t.params[1].required && !t.params[3].required);
        assert(t.params[0].required && t.params[2].required);
        assert(tool_plan(t.name, args) is Run <==> args.input_path is Some
            && args.exif_json_path is Some);
        if args.input_path is Some && args.exif_json_path is Some {
            assert forall|j: int|
                0 <= j < t.params.len() && (#[trigger] t.params[j]).required implies has_arg(
                args,
                t.params[j].name,
            ) by {
                assert(j == 0 || j == 2);
            }
        }
    } else {
        assert(t.params.len() == 2 && t.params[0].required && t.params[1].required);
        assert(tool_plan(t.name, args) is Run <==> args.image_path is Some
            && args.output_json_path is Some);
    }
}

/// A call of a tool that the list does not offer is answered as an
/// unknown tool.
pub proof fn lemma_unlisted_tool_is_unknown(name: Seq<char>, args: ToolArgs)
    requires
        forall|i: int| 0 <= i < tool_catalogue().len() ==> tool_catalogue()[i].name != name,
    ensures
        tool_plan(name, args) == PlanView::Fail("Unknown tool: "@ + name),
{
    assert(tool_catalogue()[0].name == "read_exif"@);
    assert(tool_catalogue()[1].name == "write_exif"@);
    assert(tool_catalogue()[2].name == "generate_exif_with_ai"@);
}

/// The methods are answered by name: `initialize` and `tools/list` with
/// their fixed results whatever else the request holds, `tools/call`
/// without parameters with "Missing params", and any other method as
/// unknown.
pub proof fn lemma_methods_answered(req: McpRequest)
    ensures
        req.method@ == "initialize"@ ==> request_plan(req) == PlanView::Respond(Reply::Initialize),
        req.method@ == "tools/list"@ ==> request_plan(req) == PlanView::Respond(Reply::ToolsList),
        req.method@ == "tools/call"@ && !req.has_params ==> request_plan(req) == PlanView::Fail(
            "Missing params"@,
        ),
        req.method@ == "tools/call"@ && req.has_params && req.tool_name is None ==> request_plan(req)
            == PlanView::Fail("Missing tool name"@),
        req.method@ != "initialize"@ && req.method@ != "tools/list"@ && req.method@
            != "tools/call"@ ==> request_plan(req) == PlanView::Fail(
            "Unknown method: "@ + req.method@,
        ),
{
    reveal_strlit("initialize");
    reveal_strlit("tools/list");
    reveal_strlit("tools/call");
    assert("initialize"@[0] != "tools/list"@[0]);
    assert("initialize"@[0] != "tools/call"@[0]);
    assert("tools/list"@[6] != "tools/call"@[6]);
}

/// Only a `tools/call` request is read beyond its method: two requests of
/// any other method get the same answer, whatever their parameters.
pub proof fn lemma_only_tool_calls_read_params(a: McpRequest, b: McpRequest)
    requires
        a.method@ == b.method@,
        a.method@ != "tools/call"@,
    ensures
        request_plan(a) == request_plan(b),
{
}

/// A `write_exif` call that gives its input and its JSON file runs with
/// them, saves to the given output or else over the input, and has the AI
/// write the JSON file first exactly when `enable_ai` is given as true.
pub proof fn lemma_write_exif_plan(args: ToolArgs)
    requires
        args.input_path is Some,
        args.exif_json_path is Some,
    ensures
        tool_plan("write_exif"@, args) matches PlanView::Run(
            ActionView::WriteExif { input_path, output_path, exif_json_path, enable_ai },
        ) && input_path == args.input_path->0@ && exif_json_path == args.exif_json_path->0@ && (
        enable_ai <==> args.enable_ai == Some(true)) && output_path == (if args.output_path is Some {
            args.output_path->0@
        } else {
            args.input_path->0@
        }),
{
    reveal_strlit("read_exif");
    reveal_strlit("write_exif");
    assert("write_exif"@.len() != "read_exif"@.len());
}

/// `read_exif` and `generate_exif_with_ai` calls that give their arguments
/// run with exactly those arguments.
pub proof fn lemma_read_and_generate_plans(args: ToolArgs)
    ensures
        args.image_path is Some ==> tool_plan("read_exif"@, args) == PlanView::Run(
            ActionView::ReadExif { image_path: args.image_path->0@ },
        ),
        args.image_path is Some && args.output_json_path is Some ==> tool_plan(
            "generate_exif_with_ai"@,
            args,
        ) == PlanView::Run(
            ActionView::GenerateExif {
                image_path: args.image_path->0@,
                output_json_path: args.output_json_path->0@,
            },
        ),
{
    reveal_strlit("read_exif");
    reveal_strlit("write_exif");
    reveal_strlit("generate_exif_with_ai");
    assert("generate_exif_with_ai"@.len() != "read_exif"@.len());
    assert("generate_exif_with_ai"@.len() != "write_exif"@.len());
}

/// A tool's result ends with what it produced: the report of the image for
/// `read_exif` (after a notice that names the image), the path written for
/// `write_exif`, and the JSON file for `generate_exif_with_ai`.
pub proof fn lemma_result_ends_with_product(action: ActionView, report: Seq<char>)
    ensures
        action matches ActionView::ReadExif { image_path } ==> success_text(action, report).skip(
            success_text(action, report).len() - report.len(),
        ) == report && success_text(action, report).subrange(
            "已读取图片 "@.len() as int,
            ("已读取图片 "@.len() + image_path.len()) as int,
        ) == image_path,
        action matches ActionView::WriteExif { output_path, .. } ==> success_text(action, report).skip(
            success_text(action, report).len() - output_path.len(),
        ) == output_path,
        action matches ActionView::GenerateExif { output_json_path, .. } ==> success_text(
            action,
            report,
        ).skip(success_text(action, report).len() - output_json_path.len()) == output_json_path,
{
    let t = success_text(action, report);
    match action {
        ActionView::ReadExif { image_path } => {
            assert(t.skip(t.len() - report.len()) =~= report);
            assert(t.subrange(
                "已读取图片 "@.len() as int,
                ("已读取图片 "@.len() + image_path.len()) as int,
            ) =~= image_path);
        },
        ActionView::WriteExif { output_path, .. } => {
            assert(t.skip(t.len() - output_path.len()) =~= output_path);
        },
        ActionView::GenerateExif { output_json_path, .. } => {
            assert(t.skip(t.len() - output_json_path.len()) =~= output_json_path);
        },
    }
}

/// Removing leading whitespace leaves nothing exactly when the text is all
/// whitespace.
proof fn lemma_trim_start_empty(s: Seq<char>)
    ensures
        trim_start(s).len() == 0 <==> (forall|i: int| 0 <= i < s.len() ==> is_ws(#[trigger] s[i])),
    decreases s.len(),
{
    if s.len() > 0 && is_ws(s[0]) {
        lemma_trim_start_empty(s.drop_first());
        if trim_start(s).len() == 0 {
            assert forall|i: int| 0 <= i < s.len() implies is_ws(#[trigger] s[i]) by {
                if i > 0 {
                    assert(s[i] == s.drop_first()[i - 1]);
                }
            }
        } else {
            let j = choose|j: int| 0 <= j < s.drop_first().len() && !is_ws(s.drop_first()[j]);
            assert(s[j + 1] == s.drop_first()[j]);
        }
    } else if s.len() > 0 {
        assert(!is_ws(s[0]));
    }
}

/// Removing trailing whitespace from a non-empty text that starts with a
/// non-space leaves it non-empty.
proof fn lemma_trim_end_keeps_first(s: Seq<char>)
    requires
        s.len() > 0,
        !is_ws(s[0]),
    ensures
        trim_end(s).len() > 0,
    decreases s.len(),
{
    if s.len() > 1 && is_ws(s.last()) {
        lemma_trim_end_keeps_first(s.drop_last());
    }
}

/// The input ends when a read gives no bytes; a line of whitespace only is
/// skipped; any other line is handled, as a non-empty text.
pub proof fn lemma_line_steps(bytes_read: usize, line: Seq<char>)
    ensures
        bytes_read == 0 ==> line_step(bytes_read, line) == LineStepView::Stop,
        bytes_read > 0 && (forall|i: int| 0 <= i < line.len() ==> is_ws(#[trigger] line[i]))
            ==> line_step(bytes_read, line) == LineStepView::Skip,
        bytes_read > 0 && (exists|i: int| 0 <= i < line.len() && !is_ws(#[trigger] line[i]))
            ==> (line_step(bytes_read, line) matches LineStepView::Handle(t) && t.len() > 0),
{
    lemma_trim_start_empty(line);
    let t = trim_start(line);
    if t.len() > 0 {
        lemma_trim_start_nonspace(line);
        lemma_trim_end_keeps_first(t);
    }
}

/// What is left after removing leading whitespace starts with a non-space.
proof fn lemma_trim_start_nonspace(s: Seq<char>)
    requires
        trim_start(s).len() > 0,
    ensures
        !is_ws(trim_start(s)[0]),
    decreases s.len(),
{
    if s.len() > 0 && is_ws(s[0]) {
        lemma_trim_start_nonspace(s.drop_first());
    }
}

} // verus!
