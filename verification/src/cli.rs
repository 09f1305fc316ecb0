//! What the command line asks for: serving the MCP tools, showing an
//! image's EXIF fields, or showing them and then rewriting them.

use vstd::prelude::*;

verus! {

/// The options of the command line.
#[derive(Debug)]
pub struct CliArgs {
    /// Serve the MCP tools on standard input and output.
    pub mcp: bool,
    /// The image to read.
    pub input: Option<String>,
    /// Where to save the rewritten image.
    pub output: Option<String>,
    /// The JSON file with the EXIF description.
    pub exif_json: String,
    /// Rewrite the EXIF fields (otherwise they are only shown).
    pub write: bool,
    /// Have the AI write the JSON file first.
    pub enable_ai: bool,
}

/// What the program does for the options given.
#[derive(Debug)]
pub enum CliPlan {
    /// Serve the MCP tools.
    Serve,
    /// Fail: no input image was given.
    MissingInput,
    /// Show the EXIF fields of the image.
    Show { input: String },
    /// Show the EXIF fields of the image, then write the description in
    /// `exif_json` into it (after having the AI write that file, when
    /// `enable_ai`), saving the result to `output`.
    Rewrite { input: String, output: String, exif_json: String, enable_ai: bool },
}

/// A plan as plain values.
pub enum CliPlanView {
    Serve,
    MissingInput,
    Show { input: Seq<char> },
    Rewrite { input: Seq<char>, output: Seq<char>, exif_json: Seq<char>, enable_ai: bool },
}

impl View for CliPlan {
    type V = CliPlanView;

    open spec fn view(&self) -> CliPlanView {
        match self {
            CliPlan::Serve => CliPlanView::Serve,
            CliPlan::MissingInput => CliPlanView::MissingInput,
            CliPlan::Show { input } => CliPlanView::Show { input: input@ },
            CliPlan::Rewrite { input, output, exif_json, enable_ai } => CliPlanView::Rewrite {
                input: input@,
                output: output@,
                exif_json: exif_json@,
                enable_ai: *enable_ai,
            },
        }
    }
}

/// The plan for the options: `--mcp` serves whatever else is given; other
/// runs need an input image, only show its fields without `--write`, and
/// otherwise save over the input unless an output is given.
pub open spec fn cli_plan(args: CliArgs) -> CliPlanView {
    if args.mcp {
        CliPlanView::Serve
    } else {
        match args.input {
            None => CliPlanView::MissingInput,
            Some(input) => if !args.write {
                CliPlanView::Show { input: input@ }
            } else {
                CliPlanView::Rewrite {
                    input: input@,
                    output: match args.output {
                        Some(o) => o@,
                        None => input@,
                    },
                    exif_json: args.exif_json@,
                    enable_ai: args.enable_ai,
                }
            },
        }
    }
}

/// What the program does for `args`.
pub fn plan_cli(args: &CliArgs) -> (r: CliPlan)
    ensures
        r@ == cli_plan(*args),
{
    if args.mcp {
        return CliPlan::Serve;
    }
    match &args.input {
        None => CliPlan::MissingInput,
        Some(input) => {
            if !args.write {
                CliPlan::Show { input: input.clone() }
            } else {
                let output = match &args.output {
                    Some(o) => o.clone(),
                    None => input.clone(),
                };
                CliPlan::Rewrite {
                    input: input.clone(),
                    output,
                    exif_json: args.exif_json.clone(),
                    enable_ai: args.enable_ai,
                }
            }
        },
    }
}

/// The notice that the image was written to `output`.
pub fn written_notice(output: &str) -> (r: String)
    ensures
        r@ == "\n✓ EXIF 数据已成功写入: "@ + output@,
{
    let mut out = String::new();
    out.append("\n✓ EXIF 数据已成功写入: ");
    out.append(output);
    out
}

} // verus!
