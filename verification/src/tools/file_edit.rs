//! The file edit tool: viewing, creating and changing files, and searching
//! for them by pattern.
//!
//! Reading and writing files is the caller's part. The tool reads its
//! command, resolves paths, computes the new content of a file and words the
//! result.

use vstd::prelude::*;
use vstd::string::StringExecFns;
use crate::helpers::path::{absolute, is_absolute, join_path, joined_path, relative_to, shown_below};
use crate::json::{
    get_optional_u64, get_str, get_u64, json_parsed, optional_u64_member, parse, string_member,
    u64_member,
};
use crate::llm::types::{
    CustomTool, CustomToolView, ToolDefinition, ToolDefinitionView,
    ToolInputSchema, ToolInputSchemaView,
};
use crate::text::{
    concat, concat3, count_matches, decimal, join, joined, lines, match_count, pad_left,
    replace_all, replaced_text, right_aligned, str_eq, text_lines, u64_to_string, usize_to_string,
};
use crate::tools::common::read_tool::{count_of, optional_count};
use crate::tools::tool::{Tool, ToolInfo, ToolInfoView, ToolResult, ToolResultDataView, ToolResultView};

verus! {

/// The file size that a tool allows unless told otherwise, in bytes.
pub const DEFAULT_MAX_FILE_SIZE: usize = 1000000;

/// How many files a search shows.
pub const MAX_GLOB_RESULTS: usize = 100;

/// The tool's description.
pub const FILE_EDIT_DESCRIPTION: &'static str =
    "View, create, and edit files. Supports viewing files with line numbers, creating new files, replacing text (str_replace), and searching with glob patterns.";

/// The properties of the tool's input, as JSON text.
pub const FILE_EDIT_PROPERTIES: &'static str =
    "{\"command\":{\"type\":\"string\",\"description\":\"The command to execute: 'view', 'create', 'str_replace', 'glob', or 'insert'\",\"enum\":[\"view\",\"create\",\"str_replace\",\"glob\",\"insert\"]},\"path\":{\"type\":\"string\",\"description\":\"File path (relative to project root or absolute)\"},\"content\":{\"type\":\"string\",\"description\":\"Content for 'create' or 'insert' commands\"},\"old_str\":{\"type\":\"string\",\"description\":\"String to find for 'str_replace' command\"},\"new_str\":{\"type\":\"string\",\"description\":\"String to replace with for 'str_replace' command\"},\"pattern\":{\"type\":\"string\",\"description\":\"Glob pattern for 'glob' command (e.g., '**/*.rs')\"},\"start_line\":{\"type\":\"integer\",\"description\":\"Starting line number for 'view' command (1-indexed)\"},\"end_line\":{\"type\":\"integer\",\"description\":\"Ending line number for 'view' command (inclusive)\"},\"line\":{\"type\":\"integer\",\"description\":\"Line number for 'insert' command (1-indexed)\"}}";

/// A command of the file edit tool.
#[derive(Debug)]
pub enum FileCommand {
    /// View a file's contents.
    View { path: String, start_line: Option<usize>, end_line: Option<usize> },
    /// Create a new file.
    Create { path: String, content: String },
    /// Replace text in a file.
    StrReplace { path: String, old_str: String, new_str: String },
    /// Search for files by a glob pattern.
    Glob { pattern: String },
    /// Insert text at a line.
    Insert { path: String, line: usize, content: String },
}

/// The model of a [`FileCommand`].
pub ghost enum FileCommandView {
    View { path: Seq<char>, start_line: Option<usize>, end_line: Option<usize> },
    Create { path: Seq<char>, content: Seq<char> },
    StrReplace { path: Seq<char>, old_str: Seq<char>, new_str: Seq<char> },
    Glob { pattern: Seq<char> },
    Insert { path: Seq<char>, line: usize, content: Seq<char> },
}

impl DeepView for FileCommand {
    type V = FileCommandView;

    open spec fn deep_view(&self) -> FileCommandView {
        match self {
            FileCommand::View { path, start_line, end_line } => FileCommandView::View {
                path: path@,
                start_line: *start_line,
                end_line: *end_line,
            },
            FileCommand::Create { path, content } => FileCommandView::Create {
                path: path@,
                content: content@,
            },
            FileCommand::StrReplace { path, old_str, new_str } => FileCommandView::StrReplace {
                path: path@,
                old_str: old_str@,
                new_str: new_str@,
            },
            FileCommand::Glob { pattern } => FileCommandView::Glob { pattern: pattern@ },
            FileCommand::Insert { path, line, content } => FileCommandView::Insert {
                path: path@,
                line: *line,
                content: content@,
            },
        }
    }
}

/// The `view` command that a JSON value describes.
pub open spec fn view_command_of(input: serde_json::Value) -> Option<FileCommandView> {
    match (
        string_member(input, "path"@),
        optional_count(optional_u64_member(input, "start_line"@)),
        optional_count(optional_u64_member(input, "end_line"@)),
    ) {
        (Some(path), Some(start_line), Some(end_line)) => Some(
            FileCommandView::View { path, start_line, end_line },
        ),
        _ => None,
    }
}

/// The `create` command that a JSON value describes.
pub open spec fn create_command_of(input: serde_json::Value) -> Option<FileCommandView> {
    match (string_member(input, "path"@), string_member(input, "content"@)) {
        (Some(path), Some(content)) => Some(FileCommandView::Create { path, content }),
        _ => None,
    }
}

/// The `str_replace` command that a JSON value describes.
pub open spec fn replace_command_of(input: serde_json::Value) -> Option<FileCommandView> {
    match (
        string_member(input, "path"@),
        string_member(input, "old_str"@),
        string_member(input, "new_str"@),
    ) {
        (Some(path), Some(old_str), Some(new_str)) => Some(
            FileCommandView::StrReplace { path, old_str, new_str },
        ),
        _ => None,
    }
}

/// The `glob` command that a JSON value describes.
pub open spec fn glob_command_of(input: serde_json::Value) -> Option<FileCommandView> {
    match string_member(input, "pattern"@) {
        Some(pattern) => Some(FileCommandView::Glob { pattern }),
        None => None,
    }
}

/// The `insert` command that a JSON value describes.
pub open spec fn insert_command_of(input: serde_json::Value) -> Option<FileCommandView> {
    match (
        string_member(input, "path"@),
        u64_member(input, "line"@),
        string_member(input, "content"@),
    ) {
        (Some(path), Some(line), Some(content)) => if line <= usize::MAX {
            Some(FileCommandView::Insert { path, line: line as usize, content })
        } else {
            None
        },
        _ => None,
    }
}

/// The command that a JSON value describes: the member `command` names it,
/// and the other members are its arguments.
pub open spec fn file_command_of(input: serde_json::Value) -> Option<FileCommandView> {
    match string_member(input, "command"@) {
        Some(command) => if command == "view"@ {
            view_command_of(input)
        } else if command == "create"@ {
            create_command_of(input)
        } else if command == "str_replace"@ {
            replace_command_of(input)
        } else if command == "glob"@ {
            glob_command_of(input)
        } else if command == "insert"@ {
            insert_command_of(input)
        } else {
            None
        },
        None => None,
    }
}

/// What is said of an input that describes no command.
pub open spec fn invalid_file_edit_input() -> Seq<char> {
    "Invalid file_edit input: expected `command`, one of view, create, str_replace, glob and insert, with its arguments"@
}

/// One line of a view: the number at the right end of four characters, a
/// bar, the line.
pub open spec fn view_line(number: nat, line: Seq<char>) -> Seq<char> {
    right_aligned(decimal(number), 4) + " | "@ + line + "\n"@
}

/// The lines from `start` up to `end` as a view shows them.
pub open spec fn view_lines(lines: Seq<Seq<char>>, start: int, end: int) -> Seq<char>
    decreases end - start,
{
    if end <= start {
        Seq::empty()
    } else {
        view_lines(lines, start, end - 1) + view_line(end as nat, lines[end - 1])
    }
}

/// The index of the first line of a view.
pub open spec fn view_start(start_line: Option<usize>) -> int {
    match start_line {
        Some(s) => if s == 0 {
            0
        } else {
            s - 1
        },
        None => 0,
    }
}

/// The index behind the last line of a view.
pub open spec fn view_end(end_line: Option<usize>, total: int) -> int {
    match end_line {
        Some(e) => if e < total {
            e as int
        } else {
            total
        },
        None => total,
    }
}

/// The view of a file. A start behind the last line gives a notice. Else a
/// heading names the file, its length and the lines shown, and the lines
/// follow with their numbers.
pub open spec fn file_view(
    path: Seq<char>,
    lines: Seq<Seq<char>>,
    start_line: Option<usize>,
    end_line: Option<usize>,
) -> Seq<char> {
    let total = lines.len() as int;
    let start = view_start(start_line);
    let end = view_end(end_line, total);
    if start >= total {
        "File has "@ + decimal(total as nat) + " lines. Requested start line "@ + decimal(
            (start + 1) as nat,
        ) + " is out of range."@
    } else {
        view_heading(path, total, start, end) + view_lines(lines, start, end)
    }
}

/// The heading of a view: the file, its length, and the lines shown.
pub open spec fn view_heading(path: Seq<char>, total: int, start: int, end: int) -> Seq<char> {
    "File: "@ + path + " ("@ + decimal(total as nat) + " lines total)\n"@ + "Showing lines "@
        + decimal((start + 1) as nat) + "-"@ + decimal(end as nat) + ":\n\n"@
}

/// What comes of replacing `old_str` by `new_str` in a content: the new
/// content, where `old_str` occurs exactly once.
pub open spec fn replacement(content: Seq<char>, old_str: Seq<char>, new_str: Seq<char>) -> Option<
    Seq<char>,
> {
    if match_count(content, old_str) == 1 {
        Some(replaced_text(content, old_str, new_str))
    } else {
        None
    }
}

/// What is said where `old_str` does not occur exactly once.
pub open spec fn replacement_error(occurrences: nat) -> Seq<char> {
    if occurrences == 0 {
        "String not found in file. Make sure to include exact text including whitespace."@
    } else {
        "Found "@ + decimal(occurrences)
            + " occurrences of the string. Please provide a more specific string to ensure only one match."@
    }
}

/// The place at which a line is inserted: before the line with the number
/// `line`, or behind the last line.
pub open spec fn insert_index(line: usize, total: int) -> int {
    let wanted = if line == 0 {
        0
    } else {
        line - 1
    };
    if wanted < total {
        wanted
    } else {
        total
    }
}

/// The content of a file after `content` was inserted as a line: the lines
/// joined by line feeds.
pub open spec fn inserted(lines: Seq<Seq<char>>, line: usize, content: Seq<char>) -> Seq<char> {
    joined(lines.insert(insert_index(line, lines.len() as int), content), "\n"@)
}

/// The lines that show the first entries of a search, up to `shown` of them.
pub open spec fn glob_lines(entries: Seq<Seq<char>>, shown: int) -> Seq<char>
    decreases shown,
{
    if shown <= 0 {
        Seq::empty()
    } else {
        glob_lines(entries, shown - 1) + "  "@ + entries[shown - 1] + "\n"@
    }
}

/// What a search for `pattern` reports for the entries found.
pub open spec fn glob_report(pattern: Seq<char>, entries: Seq<Seq<char>>) -> Seq<char> {
    if entries.len() == 0 {
        "No files found matching pattern: "@ + pattern
    } else {
        let head = "Found "@ + decimal(entries.len()) + " files matching '"@ + pattern + "':\n"@;
        if entries.len() > MAX_GLOB_RESULTS {
            head + glob_lines(entries, MAX_GLOB_RESULTS as int) + "  ... and "@ + decimal(
                (entries.len() - MAX_GLOB_RESULTS) as nat,
            ) + " more\n"@
        } else {
            head + glob_lines(entries, entries.len() as int)
        }
    }
}

/// File edit tool for viewing and modifying files.
#[derive(Debug)]
pub struct FileEditTool {
    /// Base directory for file operations.
    base_dir: String,
    /// Maximum file size to read, in bytes.
    max_file_size: usize,
}

/// The model of a [`FileEditTool`].
pub ghost struct FileEditToolView {
    pub base_dir: Seq<char>,
    pub max_file_size: usize,
}

impl DeepView for FileEditTool {
    type V = FileEditToolView;

    closed spec fn deep_view(&self) -> FileEditToolView {
        FileEditToolView { base_dir: self.base_dir@, max_file_size: self.max_file_size }
    }
}

impl FileEditTool {
    /// A tool with a specific base directory.
    pub fn with_base_dir(base_dir: &str) -> (r: FileEditTool)
        ensures
            r.deep_view() == (FileEditToolView {
                base_dir: base_dir@,
                max_file_size: DEFAULT_MAX_FILE_SIZE,
            }),
    {
        FileEditTool { base_dir: base_dir.to_string(), max_file_size: DEFAULT_MAX_FILE_SIZE }
    }

    /// The same tool with the maximum file size given.
    pub fn with_max_file_size(self, max_size: usize) -> (r: FileEditTool)
        ensures
            r.deep_view() == (FileEditToolView { max_file_size: max_size, ..self.deep_view() }),
    {
        let mut tool = self;
        tool.max_file_size = max_size;
        tool
    }

    /// Resolves a path relative to the base directory.
    pub fn resolve_path(&self, path: &str) -> (r: String)
        ensures
            r@ == joined_path(self.deep_view().base_dir, path@),
    {
        join_path(self.base_dir.as_str(), path)
    }

    /// Reads the command from the input of the tool.
    pub fn parse_command(&self, input: &serde_json::Value) -> (r: Result<FileCommand, String>)
        ensures
            match r {
                Ok(command) => file_command_of(*input) == Some(command.deep_view()),
                Err(message) => file_command_of(*input) is None && message@
                    == invalid_file_edit_input(),
            },
    {
        let parsed = match get_str(input, "command") {
            None => None,
            Some(command) => {
                if str_eq(command.as_str(), "view") {
                    match (
                        get_str(input, "path"),
                        count_of(get_optional_u64(input, "start_line")),
                        count_of(get_optional_u64(input, "end_line")),
                    ) {
                        (Some(path), Ok(start_line), Ok(end_line)) => Some(
                            FileCommand::View { path, start_line, end_line },
                        ),
                        _ => None,
                    }
                } else if str_eq(command.as_str(), "create") {
                    match (get_str(input, "path"), get_str(input, "content")) {
                        (Some(path), Some(content)) => Some(FileCommand::Create { path, content }),
                        _ => None,
                    }
                } else if str_eq(command.as_str(), "str_replace") {
                    match (
                        get_str(input, "path"),
                        get_str(input, "old_str"),
                        get_str(input, "new_str"),
                    ) {
                        (Some(path), Some(old_str), Some(new_str)) => Some(
                            FileCommand::StrReplace { path, old_str, new_str },
                        ),
                        _ => None,
                    }
                } else if str_eq(command.as_str(), "glob") {
                    match get_str(input, "pattern") {
                        Some(pattern) => Some(FileCommand::Glob { pattern }),
                        None => None,
                    }
                } else if str_eq(command.as_str(), "insert") {
                    match (get_str(input, "path"), get_u64(input, "line"), get_str(input, "content")) {
                        (Some(path), Some(line), Some(content)) => {
                            if line <= usize::MAX as u64 {
                                Some(FileCommand::Insert { path, line: line as usize, content })
                            } else {
                                None
                            }
                        },
                        _ => None,
                    }
                } else {
                    None
                }
            },
        };
        match parsed {
            Some(command) => Ok(command),
            None => Err(
                "Invalid file_edit input: expected `command`, one of view, create, str_replace, glob and insert, with its arguments".to_string(),
            ),
        }
    }

    /// Whether a file of this size may be viewed; else the error to report.
    pub fn check_size(&self, size: u64) -> (r: Result<(), String>)
        ensures
            match r {
                Ok(_) => size <= self.deep_view().max_file_size,
                Err(message) => size > self.deep_view().max_file_size && message@
                    == "File too large ("@ + decimal(size as nat) + " bytes). Maximum allowed: "@
                    + decimal(self.deep_view().max_file_size as nat) + " bytes"@,
            },
    {
        if size > self.max_file_size as u64 {
            let mut message = "File too large (".to_string();
            message.append(u64_to_string(size).as_str());
            message.append(" bytes). Maximum allowed: ");
            message.append(usize_to_string(self.max_file_size).as_str());
            message.append(" bytes");
            Err(message)
        } else {
            Ok(())
        }
    }

    /// The view of a file with the content given.
    pub fn view_file(
        &self,
        path: &str,
        content: &str,
        start_line: Option<usize>,
        end_line: Option<usize>,
    ) -> (r: String)
        ensures
            r@ == file_view(path@, text_lines(content@), start_line, end_line),
    {
        let all = lines(content);
        let total = all.len();
        let start: usize = match start_line {
            Some(s) => if s == 0 {
                0
            } else {
                s - 1
            },
            None => 0,
        };
        let end: usize = match end_line {
            Some(e) => if e < total {
                e
            } else {
                total
            },
            None => total,
        };
        if start >= total {
            let mut out = "File has ".to_string();
            out.append(usize_to_string(total).as_str());
            out.append(" lines. Requested start line ");
            out.append(usize_to_string(start + 1).as_str());
            out.append(" is out of range.");
            return out;
        }
        let mut out = "File: ".to_string();
        out.append(path);
        out.append(" (");
        out.append(usize_to_string(total).as_str());
        out.append(" lines total)\n");
        out.append("Showing lines ");
        out.append(usize_to_string(start + 1).as_str());
        out.append("-");
        out.append(usize_to_string(end).as_str());
        out.append(":\n\n");
        let ghost head = out@;
        let mut i: usize = start;
        proof {
            assert(head =~= view_heading(path@, total as int, start as int, end as int));
            assert(head + view_lines(all.deep_view(), start as int, start as int) =~= head);
        }
        while i < end
            invariant
                start <= i,
                end <= all.len(),
                i <= end || end < start,
                end < start ==> i == start,
                head == view_heading(path@, total as int, start as int, end as int),
                out@ == head + view_lines(all.deep_view(), start as int, i as int),
            decreases end - i,
        {
            let ghost before = out@;
            let number = pad_left(usize_to_string(i + 1).as_str(), 4);
            out.append(number.as_str());
            out.append(" | ");
            out.append(all[i].as_str());
            out.append("\n");
            proof {
                assert(out@ =~= head + (view_lines(all.deep_view(), start as int, i as int)
                    + view_line((i + 1) as nat, all.deep_view()[i as int])));
            }
            i += 1;
        }
        proof {
            if end < start {
                assert(view_lines(all.deep_view(), start as int, end as int) =~= Seq::empty());
                assert(view_lines(all.deep_view(), start as int, start as int) =~= Seq::empty());
            }
        }
        out
    }

    /// What is reported of a file that was created.
    pub fn create_file(&self, path: &str) -> (r: String)
        ensures
            r@ == "File created successfully: "@ + path@,
    {
        concat("File created successfully: ", path)
    }

    /// Replaces `old_str` by `new_str` in a content, where it occurs exactly
    /// once. Gives the new content and the report, or the error.
    pub fn str_replace(&self, path: &str, content: &str, old_str: &str, new_str: &str) -> (r: Result<
        (String, String),
        String,
    >)
        ensures
            match r {
                Ok((new_content, report)) => replacement(content@, old_str@, new_str@) == Some(
                    new_content@,
                ) && report@ == "Successfully replaced text in "@ + path@
                    + ". The string was replaced 1 time."@,
                Err(message) => replacement(content@, old_str@, new_str@) is None && message@
                    == replacement_error(match_count(content@, old_str@)),
            },
    {
        let occurrences = count_matches(content, old_str);
        if occurrences == 0 {
            return Err(
                "String not found in file. Make sure to include exact text including whitespace.".to_string(),
            );
        }
        if occurrences > 1 {
            return Err(
                concat3(
                    "Found ",
                    usize_to_string(occurrences).as_str(),
                    " occurrences of the string. Please provide a more specific string to ensure only one match.",
                ),
            );
        }
        let new_content = replace_all(content, old_str, new_str);
        let report = concat3(
            "Successfully replaced text in ",
            path,
            ". The string was replaced 1 time.",
        );
        Ok((new_content, report))
    }

    /// The pattern that a search goes by: an absolute pattern as it is, any
    /// other below the base directory.
    pub fn glob_pattern(&self, pattern: &str) -> (r: String)
        ensures
            r@ == if absolute(pattern@) {
                pattern@
            } else {
                self.deep_view().base_dir + "/"@ + pattern@
            },
    {
        if is_absolute(pattern) {
            pattern.to_string()
        } else {
            concat3(self.base_dir.as_str(), "/", pattern)
        }
    }

    /// A path that a search found, as it is shown: below the base directory
    /// where it lies there.
    pub fn glob_entry(&self, path: &str) -> (r: String)
        ensures
            r@ == shown_below(path@, self.deep_view().base_dir),
    {
        relative_to(path, self.base_dir.as_str())
    }

    /// What a search reports for the entries found.
    pub fn glob_search(&self, pattern: &str, entries: &Vec<String>) -> (r: String)
        ensures
            r@ == glob_report(pattern@, entries.deep_view()),
    {
        if entries.len() == 0 {
            return concat("No files found matching pattern: ", pattern);
        }
        let mut out = "Found ".to_string();
        out.append(usize_to_string(entries.len()).as_str());
        out.append(" files matching '");
        out.append(pattern);
        out.append("':\n");
        let ghost head = out@;
        let shown: usize = if entries.len() > MAX_GLOB_RESULTS {
            MAX_GLOB_RESULTS
        } else {
            entries.len()
        };
        let mut i: usize = 0;
        proof {
            assert(head + glob_lines(entries.deep_view(), 0) =~= head);
        }
        while i < shown
            invariant
                0 <= i <= shown <= entries.len(),
                out@ == head + glob_lines(entries.deep_view(), i as int),
            decreases shown - i,
        {
            let ghost before = out@;
            out.append("  ");
            out.append(entries[i].as_str());
            out.append("\n");
            proof {
                assert(out@ =~= head + (glob_lines(entries.deep_view(), i as int) + "  "@
                    + entries.deep_view()[i as int] + "\n"@));
            }
            i += 1;
        }
        if entries.len() > MAX_GLOB_RESULTS {
            out.append("  ... and ");
            out.append(usize_to_string(entries.len() - MAX_GLOB_RESULTS).as_str());
            out.append(" more\n");
        }
        out
    }

    /// Inserts `content` as a line of its own. Gives the new content of the
    /// file and the report.
    pub fn insert_at_line(&self, path: &str, file_content: &str, line: usize, content: &str) -> (r: (
        String,
        String,
    ))
        ensures
            r.0@ == inserted(text_lines(file_content@), line, content@),
            r.1@ == "Successfully inserted text at line "@ + decimal(line as nat) + " in "@ + path@,
    {
        let mut all = lines(file_content);
        let wanted: usize = if line == 0 {
            0
        } else {
            line - 1
        };
        let index: usize = if wanted < all.len() {
            wanted
        } else {
            all.len()
        };
        let ghost before = all;
        all.insert(index, content.to_string());
        proof {
            assert(all.deep_view() =~= before.deep_view().insert(index as int, content@));
        }
        let new_content = join(&all, "\n");
        let mut report = "Successfully inserted text at line ".to_string();
        report.append(usize_to_string(line).as_str());
        report.append(" in ");
        report.append(path);
        (new_content, report)
    }

    /// The result of a command: what it reports, or its error.
    pub fn result_of(&self, outcome: &Result<String, String>) -> (r: ToolResult)
        ensures
            r.deep_view() == match outcome {
                Ok(output) => ToolResultView {
                    content: ToolResultDataView::Text(output@),
                    is_error: false,
                },
                Err(message) => ToolResultView {
                    content: ToolResultDataView::Text(message@),
                    is_error: true,
                },
            },
    {
        match outcome {
            Ok(output) => ToolResult::success(output.as_str()),
            Err(message) => ToolResult::error(message.as_str()),
        }
    }
}

impl Default for FileEditTool {
    fn default() -> (r: FileEditTool)
        ensures
            r.deep_view() == (FileEditToolView {
                base_dir: "."@,
                max_file_size: DEFAULT_MAX_FILE_SIZE,
            }),
    {
        FileEditTool::with_base_dir(".")
    }
}

/// The path that an input names, or a question mark.
pub open spec fn named_path(input: serde_json::Value, key: Seq<char>) -> Seq<char> {
    match string_member(input, key) {
        Some(p) => p,
        None => "?"@,
    }
}

/// What the tool says it will do with an input.
pub open spec fn file_edit_info(input: serde_json::Value) -> ToolInfoView {
    let command = match string_member(input, "command"@) {
        Some(c) => c,
        None => "unknown"@,
    };
    let path = named_path(input, "path"@);
    if command == "view"@ {
        ToolInfoView {
            name: "file_edit"@,
            action_description: "View file"@,
            details: Some("Path: "@ + path),
        }
    } else if command == "create"@ {
        ToolInfoView {
            name: "file_edit"@,
            action_description: "Create file"@,
            details: Some("Path: "@ + path),
        }
    } else if command == "str_replace"@ {
        ToolInfoView {
            name: "file_edit"@,
            action_description: "Replace text in file"@,
            details: Some("Path: "@ + path),
        }
    } else if command == "glob"@ {
        ToolInfoView {
            name: "file_edit"@,
            action_description: "Search files"@,
            details: Some("Pattern: "@ + named_path(input, "pattern"@)),
        }
    } else if command == "insert"@ {
        ToolInfoView {
            name: "file_edit"@,
            action_description: "Insert text in file"@,
            details: Some(
                "Path: "@ + path + ", Line: "@ + decimal(
                    match u64_member(input, "line"@) {
                        Some(n) => n as nat,
                        None => 0,
                    },
                ),
            ),
        }
    } else {
        ToolInfoView {
            name: "file_edit"@,
            action_description: "Unknown file operation"@,
            details: None,
        }
    }
}

/// The declaration of the file edit tool.
pub open spec fn file_edit_definition() -> ToolDefinitionView {
    ToolDefinitionView::Custom(
        CustomToolView {
            name: "file_edit"@,
            description: Some(FILE_EDIT_DESCRIPTION@),
            input_schema: ToolInputSchemaView {
                schema_type: "object"@,
                properties: json_parsed(FILE_EDIT_PROPERTIES@),
                required: Some(seq!["command"@]),
            },
            tool_type: None,
        },
    )
}

impl Tool for FileEditTool {
    fn name(&self) -> (r: String)
        ensures
            r@ == "file_edit"@,
    {
        "file_edit".to_string()
    }

    fn description(&self) -> (r: String)
        ensures
            r@ == FILE_EDIT_DESCRIPTION@,
    {
        FILE_EDIT_DESCRIPTION.to_string()
    }

    fn definition(&self) -> (r: ToolDefinition)
        ensures
            r.deep_view() == file_edit_definition(),
    {
        let mut required: Vec<String> = Vec::new();
        required.push("command".to_string());
        proof {
            assert(required.deep_view() =~= seq!["command"@]);
        }
        ToolDefinition::Custom(
            CustomTool {
                name: "file_edit".to_string(),
                description: Some(FILE_EDIT_DESCRIPTION.to_string()),
                input_schema: ToolInputSchema {
                    schema_type: "object".to_string(),
                    properties: parse(FILE_EDIT_PROPERTIES),
                    required: Some(required),
                },
                tool_type: None,
            },
        )
    }

    fn get_info(&self, input: &serde_json::Value) -> (r: ToolInfo)
        ensures
            r.deep_view() == file_edit_info(*input),
    {
        let command = match get_str(input, "command") {
            Some(c) => c,
            None => "unknown".to_string(),
        };
        let path = match get_str(input, "path") {
            Some(p) => p,
            None => "?".to_string(),
        };
        let (action, details) = if str_eq(command.as_str(), "view") {
            ("View file", Some(concat("Path: ", path.as_str())))
        } else if str_eq(command.as_str(), "create") {
            ("Create file", Some(concat("Path: ", path.as_str())))
        } else if str_eq(command.as_str(), "str_replace") {
            ("Replace text in file", Some(concat("Path: ", path.as_str())))
        } else if str_eq(command.as_str(), "glob") {
            let pattern = match get_str(input, "pattern") {
                Some(p) => p,
                None => "?".to_string(),
            };
            ("Search files", Some(concat("Pattern: ", pattern.as_str())))
        } else if str_eq(command.as_str(), "insert") {
            let line = match get_u64(input, "line") {
                Some(n) => n,
                None => 0,
            };
            let head = concat3("Path: ", path.as_str(), ", Line: ");
            ("Insert text in file", Some(concat(head.as_str(), u64_to_string(line).as_str())))
        } else {
            ("Unknown file operation", None)
        };
        ToolInfo { name: "file_edit".to_string(), action_description: action.to_string(), details }
    }

    fn requires_permission(&self) -> (r: bool)
        ensures
            r,
    {
        true
    }
}

} // verus!
