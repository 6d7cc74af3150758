//! The bash tool: a shell command, run in a fresh shell each time.
//!
//! Running the command is the caller's part. The tool reads its input, says
//! what it is about to do, puts the command's output together and turns it
//! into a result.

use vstd::prelude::*;
use crate::json::{
    get_optional_str, get_str, json_parsed, optional_string_member, parse, string_member,
};
use crate::llm::types::{
    CustomTool, CustomToolView, ToolDefinition, ToolDefinitionView, ToolInputSchema,
    ToolInputSchemaView,
};
use crate::text::{concat, concat3, cut_to, i32_to_string, signed_decimal, truncate_chars};
use crate::tools::tool::{Tool, ToolInfo, ToolInfoView, ToolResult, ToolResultDataView, ToolResultView};

verus! {

/// The output length that a tool allows unless told otherwise, in characters.
pub const DEFAULT_MAX_OUTPUT_LENGTH: usize = 50000;

/// The tool's description.
pub const BASH_DESCRIPTION: &'static str =
    "Execute a bash command in the shell. Each command runs in a fresh shell without session persistence.";

/// The properties of the tool's input, as JSON text.
pub const BASH_PROPERTIES: &'static str =
    "{\"command\":{\"type\":\"string\",\"description\":\"The bash command to execute\"},\"working_dir\":{\"type\":\"string\",\"description\":\"Optional working directory for the command. Defaults to the project root.\"}}";

/// Bash tool for executing shell commands.
#[derive(Debug)]
pub struct BashTool {
    /// Working directory for command execution.
    working_dir: String,
    /// Maximum output length in characters.
    max_output_length: usize,
}

/// The model of a [`BashTool`].
pub ghost struct BashToolView {
    pub working_dir: Seq<char>,
    pub max_output_length: usize,
}

impl DeepView for BashTool {
    type V = BashToolView;

    closed spec fn deep_view(&self) -> BashToolView {
        BashToolView { working_dir: self.working_dir@, max_output_length: self.max_output_length }
    }
}

/// Input for the bash tool.
#[derive(Debug)]
pub struct BashInput {
    /// The command to execute.
    pub command: String,
    /// Optional working directory override.
    pub working_dir: Option<String>,
}

/// The model of a [`BashInput`].
pub ghost struct BashInputView {
    pub command: Seq<char>,
    pub working_dir: Option<Seq<char>>,
}

impl DeepView for BashInput {
    type V = BashInputView;

    open spec fn deep_view(&self) -> BashInputView {
        BashInputView { command: self.command@, working_dir: self.working_dir.deep_view() }
    }
}

/// The input that a JSON value describes: a command, and a working directory
/// that may be left out.
pub open spec fn bash_input_of(input: serde_json::Value) -> Option<BashInputView> {
    match (string_member(input, "command"@), optional_string_member(input, "working_dir"@)) {
        (Some(command), Some(working_dir)) => Some(BashInputView { command, working_dir }),
        _ => None,
    }
}

/// What is said of an input that describes no command.
pub open spec fn invalid_bash_input() -> Seq<char> {
    "Invalid bash input: expected `command`, a string, and optionally `working_dir`, a string"@
}

/// The notice behind an output that was cut.
pub open spec fn truncation_notice() -> Seq<char> {
    "\n... (output truncated)"@
}

/// The two streams of a command as one text: the standard output, then the
/// standard error under its heading, on a line of its own where there is
/// output before it.
pub open spec fn streams_text(stdout: Seq<char>, stderr: Seq<char>) -> Seq<char> {
    if stderr.len() == 0 {
        stdout
    } else if stdout.len() == 0 {
        "STDERR:\n"@ + stderr
    } else {
        stdout + "\n"@ + "STDERR:\n"@ + stderr
    }
}

/// The result for a command that ran. With exit code 0 it is a success, with
/// the output or a notice that there was none. Any other exit code is an
/// error that names the code and shows the output.
pub open spec fn command_result(output: Seq<char>, exit_code: i32) -> ToolResultView {
    if exit_code == 0 {
        ToolResultView {
            content: ToolResultDataView::Text(
                if output.len() == 0 {
                    "Command completed successfully (no output)"@
                } else {
                    output
                },
            ),
            is_error: false,
        }
    } else {
        ToolResultView {
            content: ToolResultDataView::Text(
                "Command failed with exit code "@ + signed_decimal(exit_code as int) + "\n"@ + output,
            ),
            is_error: true,
        }
    }
}

/// What the tool says it will do with an input.
pub open spec fn bash_info(tool: BashToolView, input: serde_json::Value) -> ToolInfoView {
    let command = match string_member(input, "command"@) {
        Some(c) => c,
        None => "<unknown command>"@,
    };
    let working_dir = match string_member(input, "working_dir"@) {
        Some(d) => d,
        None => tool.working_dir,
    };
    ToolInfoView {
        name: "bash"@,
        action_description: "Execute command: "@ + command,
        details: Some("Working directory: "@ + working_dir),
    }
}

/// The declaration of the bash tool.
pub open spec fn bash_definition() -> ToolDefinitionView {
    ToolDefinitionView::Custom(
        CustomToolView {
            name: "bash"@,
            description: Some(BASH_DESCRIPTION@),
            input_schema: ToolInputSchemaView {
                schema_type: "object"@,
                properties: json_parsed(BASH_PROPERTIES@),
                required: Some(seq!["command"@]),
            },
            tool_type: None,
        },
    )
}

impl BashTool {
    /// A bash tool with a specific working directory.
    pub fn with_working_dir(working_dir: &str) -> (r: BashTool)
        ensures
            r.deep_view() == (BashToolView {
                working_dir: working_dir@,
                max_output_length: DEFAULT_MAX_OUTPUT_LENGTH,
            }),
    {
        BashTool {
            working_dir: working_dir.to_string(),
            max_output_length: DEFAULT_MAX_OUTPUT_LENGTH,
        }
    }

    /// The same tool with the maximum output length given.
    pub fn with_max_output_length(self, max_length: usize) -> (r: BashTool)
        ensures
            r.deep_view() == (BashToolView { max_output_length: max_length, ..self.deep_view() }),
    {
        let mut tool = self;
        tool.max_output_length = max_length;
        tool
    }

    /// Reads the input of the tool.
    pub fn parse_input(&self, input: &serde_json::Value) -> (r: Result<BashInput, String>)
        ensures
            match r {
                Ok(parsed) => bash_input_of(*input) == Some(parsed.deep_view()),
                Err(message) => bash_input_of(*input) is None && message@ == invalid_bash_input(),
            },
    {
        let command = get_str(input, "command");
        let working_dir = get_optional_str(input, "working_dir");
        match (command, working_dir) {
            (Some(command), Ok(working_dir)) => Ok(BashInput { command, working_dir }),
            _ => Err(
                "Invalid bash input: expected `command`, a string, and optionally `working_dir`, a string".to_string(),
            ),
        }
    }

    /// The directory that a command runs in: the one that the input names,
    /// else the tool's own.
    pub fn working_dir_for(&self, input: &BashInput) -> (r: String)
        ensures
            r@ == match input.working_dir {
                Some(d) => d@,
                None => self.deep_view().working_dir,
            },
    {
        match &input.working_dir {
            Some(d) => d.clone(),
            None => self.working_dir.clone(),
        }
    }

    /// The output of a command as one text, cut to the maximum output
    /// length.
    pub fn combine_output(&self, stdout: &str, stderr: &str) -> (r: String)
        ensures
            r@ == cut_to(
                streams_text(stdout@, stderr@),
                self.deep_view().max_output_length as nat,
                truncation_notice(),
            ),
    {
        let combined = if stderr.is_empty() {
            stdout.to_string()
        } else if stdout.is_empty() {
            concat("STDERR:\n", stderr)
        } else {
            let head = concat3(stdout, "\n", "STDERR:\n");
            concat(head.as_str(), stderr)
        };
        truncate_chars(combined, self.max_output_length, "\n... (output truncated)")
    }

    /// The result for a command that ran, from its output and exit code.
    pub fn result_for(&self, output: &str, exit_code: i32) -> (r: ToolResult)
        ensures
            r.deep_view() == command_result(output@, exit_code),
    {
        if exit_code == 0 {
            if output.is_empty() {
                ToolResult::success("Command completed successfully (no output)")
            } else {
                ToolResult::success(output)
            }
        } else {
            let head = concat3(
                "Command failed with exit code ",
                i32_to_string(exit_code).as_str(),
                "\n",
            );
            let message = concat(head.as_str(), output);
            ToolResult::error(message.as_str())
        }
    }

    /// The result for a command that could not be started.
    pub fn result_for_failure(&self, message: &str) -> (r: ToolResult)
        ensures
            r.deep_view() == (ToolResultView {
                content: ToolResultDataView::Text("Failed to execute command: "@ + message@),
                is_error: true,
            }),
    {
        ToolResult::error(concat("Failed to execute command: ", message).as_str())
    }
}

impl Default for BashTool {
    fn default() -> (r: BashTool)
        ensures
            r.deep_view() == (BashToolView {
                working_dir: "."@,
                max_output_length: DEFAULT_MAX_OUTPUT_LENGTH,
            }),
    {
        BashTool::with_working_dir(".")
    }
}

impl Tool for BashTool {
    fn name(&self) -> (r: String)
        ensures
            r@ == "bash"@,
    {
        "bash".to_string()
    }

    fn description(&self) -> (r: String)
        ensures
            r@ == BASH_DESCRIPTION@,
    {
        BASH_DESCRIPTION.to_string()
    }

    fn definition(&self) -> (r: ToolDefinition)
        ensures
            r.deep_view() == bash_definition(),
    {
        let mut required: Vec<String> = Vec::new();
        required.push("command".to_string());
        proof {
            assert(required.deep_view() =~= seq!["command"@]);
        }
        ToolDefinition::Custom(
            CustomTool {
                name: "bash".to_string(),
                description: Some(BASH_DESCRIPTION.to_string()),
                input_schema: ToolInputSchema {
                    schema_type: "object".to_string(),
                    properties: parse(BASH_PROPERTIES),
                    required: Some(required),
                },
                tool_type: None,
            },
        )
    }

    fn get_info(&self, input: &serde_json::Value) -> (r: ToolInfo)
        ensures
            r.deep_view() == bash_info(self.deep_view(), *input),
    {
        let command = match get_str(input, "command") {
            Some(c) => c,
            None => "<unknown command>".to_string(),
        };
        let working_dir = match get_str(input, "working_dir") {
            Some(d) => d,
            None => self.working_dir.clone(),
        };
        ToolInfo {
            name: "bash".to_string(),
            action_description: concat("Execute command: ", command.as_str()),
            details: Some(concat("Working directory: ", working_dir.as_str())),
        }
    }

    fn requires_permission(&self) -> (r: bool)
        ensures
            r,
    {
        true
    }
}

} // verus!
