//! The read tool: text files with line numbers, images and PDFs.
//!
//! Reading the file is the caller's part. The tool resolves the path, tells
//! the kind of the file by its extension, and turns what was read into a
//! result.

use vstd::prelude::*;
use vstd::string::StringExecFns;
use crate::helpers::path::{join_path, joined_path, lower_extension, lowercase_extension};
use crate::json::{
    get_optional_u64, get_str, json_parsed, optional_u64_member, parse, string_member,
};
use crate::llm::types::{
    CustomTool, CustomToolView, ToolDefinition, ToolDefinitionView, ToolInputSchema,
    ToolInputSchemaView,
};
use crate::text::{
    concat, cut_to, decimal, lines, pad_left, right_aligned, str_eq, text_lines,
    truncate_chars, u64_to_string, usize_to_string,
};
use crate::tools::tool::{Tool, ToolInfo, ToolInfoView, ToolResult, ToolResultDataView, ToolResultView};

verus! {

/// Maximum lines to read by default.
pub const DEFAULT_LINE_LIMIT: usize = 2000;

/// Maximum characters per line before truncation.
pub const MAX_LINE_LENGTH: usize = 2000;

/// Maximum file size for images, in bytes.
pub const MAX_IMAGE_SIZE: u64 = 5242880;

/// Maximum file size for PDFs, in bytes.
pub const MAX_PDF_SIZE: u64 = 33554432;

/// The tool's short description.
pub const READ_DESCRIPTION: &'static str =
    "Read a file from the local filesystem. Supports text files, images (PNG, JPEG, GIF, WebP), and PDFs.";

/// The description of the tool for the model.
pub const READ_DEFINITION_DESCRIPTION: &'static str =
    "Reads a file from the local filesystem. Supports text files, images, and PDFs. The file_path parameter must be an absolute path. \n\nFor TEXT FILES: - By default, reads up to 2000 lines with line numbers. - You can optionally specify offset and limit for long files. \n\nFor IMAGES (PNG, JPEG, GIF, WebP): - Reads and returns the image for vision analysis. - Maximum file size: 5MB. - The image will be sent to the model for visual understanding. \n\nFor PDFs: - Reads and returns the PDF document for analysis. - Maximum file size: 32MB. - The PDF will be sent to the model for document understanding. \n\nThe tool automatically detects the file type based on the extension.";

/// The properties of the tool's input, as JSON text.
pub const READ_PROPERTIES: &'static str =
    "{\"file_path\":{\"type\":\"string\",\"description\":\"The absolute path to the file to read\"},\"offset\":{\"type\":\"number\",\"description\":\"The line number to start reading from (1-indexed). Only provide if the file is too large.\"},\"limit\":{\"type\":\"number\",\"description\":\"The number of lines to read. Only provide if the file is too large.\"}}";

/// How a file is read.
#[derive(Clone, Copy, Debug, PartialEq, Eq, Structural)]
pub enum FileKind {
    Image,
    Pdf,
    Text,
}

/// The media type of an image with this extension, in lower case.
pub open spec fn image_media_type(extension: Option<Seq<char>>) -> Option<Seq<char>> {
    match extension {
        Some(e) => if e == "png"@ {
            Some("image/png"@)
        } else if e == "jpg"@ || e == "jpeg"@ {
            Some("image/jpeg"@)
        } else if e == "gif"@ {
            Some("image/gif"@)
        } else if e == "webp"@ {
            Some("image/webp"@)
        } else {
            None
        },
        None => None,
    }
}

/// How a file with this extension, in lower case, is read: as an image, as a
/// PDF, or, by default, as text.
pub open spec fn kind_of_extension(extension: Option<Seq<char>>) -> FileKind {
    if image_media_type(extension) is Some {
        FileKind::Image
    } else if extension == Some("pdf"@) {
        FileKind::Pdf
    } else {
        FileKind::Text
    }
}

/// The media type of an image with this extension, in lower case.
pub fn media_type_for(extension: &Option<String>) -> (r: Option<&'static str>)
    ensures
        r.deep_view() == image_media_type(extension.deep_view()),
{
    match extension {
        Some(e) => {
            if str_eq(e.as_str(), "png") {
                Some("image/png")
            } else if str_eq(e.as_str(), "jpg") || str_eq(e.as_str(), "jpeg") {
                Some("image/jpeg")
            } else if str_eq(e.as_str(), "gif") {
                Some("image/gif")
            } else if str_eq(e.as_str(), "webp") {
                Some("image/webp")
            } else {
                None
            }
        },
        None => None,
    }
}

/// How the file at a path is read.
pub fn file_kind(path: &str) -> (r: FileKind)
    ensures
        r == kind_of_extension(lower_extension(path@)),
{
    let extension = lowercase_extension(path);
    if media_type_for(&extension).is_some() {
        FileKind::Image
    } else {
        match &extension {
            Some(e) => if str_eq(e.as_str(), "pdf") {
                FileKind::Pdf
            } else {
                FileKind::Text
            },
            None => FileKind::Text,
        }
    }
}

/// A line as it is shown: cut to the maximum line length, with dots where
/// anything was cut off.
pub open spec fn shown_line(line: Seq<char>) -> Seq<char> {
    cut_to(line, MAX_LINE_LENGTH as nat, "..."@)
}

/// One numbered line: the number at the right end of six characters, a tab,
/// the line, a line feed.
pub open spec fn numbered_line(number: nat, line: Seq<char>) -> Seq<char> {
    right_aligned(decimal(number), 6) + "\t"@ + shown_line(line) + "\n"@
}

/// The lines from `start` up to `end`, each with its number; the first line
/// of a file has the number 1.
pub open spec fn numbered_lines(lines: Seq<Seq<char>>, start: int, end: int) -> Seq<char>
    decreases end - start,
{
    if end <= start {
        Seq::empty()
    } else {
        numbered_lines(lines, start, end - 1) + numbered_line(end as nat, lines[end - 1])
    }
}

/// The index of the first line to show for an offset, which counts from 1.
pub open spec fn first_index(offset: Option<usize>) -> int {
    match offset {
        Some(o) => if o == 0 {
            0
        } else {
            o - 1
        },
        None => 0,
    }
}

/// The index behind the last line to show.
pub open spec fn end_index(start: int, limit: Option<usize>, total: int) -> int {
    let count = match limit {
        Some(l) => l as int,
        None => DEFAULT_LINE_LIMIT as int,
    };
    if start + count < total {
        start + count
    } else {
        total
    }
}

/// What is shown of a text file. An offset behind the last line gives a
/// notice. Else the lines from the offset on are shown with their numbers, as
/// many as the limit allows, and a note says how many lines are left.
pub open spec fn text_listing(lines: Seq<Seq<char>>, offset: Option<usize>, limit: Option<usize>) -> Seq<
    char,
> {
    let total = lines.len() as int;
    let start = first_index(offset);
    let end = end_index(start, limit, total);
    if start >= total {
        "File has "@ + decimal(total as nat) + " lines. Requested offset "@ + decimal(
            (start + 1) as nat,
        ) + " is out of range."@
    } else if end < total {
        numbered_lines(lines, start, end) + "\n... ("@ + decimal((total - end) as nat)
            + " more lines, use offset and limit to read more)\n"@
    } else {
        numbered_lines(lines, start, end)
    }
}

/// The lines from `start` up to `end`, each with its number. An `end`
/// behind the last line stands for the end of the lines.
pub fn format_numbered_lines(lines: &Vec<String>, start: usize, end: usize) -> (r: String)
    ensures
        r@ == numbered_lines(
            lines.deep_view(),
            start as int,
            if end <= lines.len() {
                end as int
            } else {
                lines.len() as int
            },
        ),
{
    let mut out = String::new();
    let end = if end <= lines.len() {
        end
    } else {
        lines.len()
    };
    if start >= end {
        return out;
    }
    let mut i: usize = start;
    while i < end
        invariant
            start <= i <= end <= lines.len(),
            out@ == numbered_lines(lines.deep_view(), start as int, i as int),
        decreases end - i,
    {
        let ghost before = out@;
        let number = pad_left(usize_to_string(i + 1).as_str(), 6);
        out.append(number.as_str());
        out.append("\t");
        let shown = truncate_chars(lines[i].clone(), MAX_LINE_LENGTH, "...");
        out.append(shown.as_str());
        out.append("\n");
        proof {
            assert(out@ =~= before + numbered_line((i + 1) as nat, lines.deep_view()[i as int]));
        }
        i += 1;
    }
    out
}

/// What is shown of the lines of a text file, from an offset and up to a
/// limit.
pub fn list_lines(lines: &Vec<String>, offset: Option<usize>, limit: Option<usize>) -> (r: String)
    ensures
        r@ == text_listing(lines.deep_view(), offset, limit),
{
    let total = lines.len();
    let start: usize = match offset {
        Some(o) => if o == 0 {
            0
        } else {
            o - 1
        },
        None => 0,
    };
    if start >= total {
        let mut out = "File has ".to_string();
        out.append(usize_to_string(total).as_str());
        out.append(" lines. Requested offset ");
        out.append(usize_to_string(start + 1).as_str());
        out.append(" is out of range.");
        return out;
    }
    let count: usize = match limit {
        Some(l) => l,
        None => DEFAULT_LINE_LIMIT,
    };
    let end: usize = if count < total - start {
        start + count
    } else {
        total
    };
    let mut out = format_numbered_lines(lines, start, end);
    if end < total {
        out.append("\n... (");
        out.append(usize_to_string(total - end).as_str());
        out.append(" more lines, use offset and limit to read more)\n");
    }
    out
}

/// What is said of a file that is too large.
pub open spec fn too_large(what: Seq<char>, size: u64, max: u64) -> Seq<char> {
    what + " file too large: "@ + decimal(size as nat) + " bytes (max: "@ + decimal(max as nat)
        + " bytes)"@
}

/// What is said of a file that is too large.
pub fn too_large_message(what: &str, size: u64, max: u64) -> (r: String)
    ensures
        r@ == too_large(what@, size, max),
{
    let mut out = what.to_string();
    out.append(" file too large: ");
    out.append(u64_to_string(size).as_str());
    out.append(" bytes (max: ");
    out.append(u64_to_string(max).as_str());
    out.append(" bytes)");
    out
}

/// Read tool for reading files.
#[derive(Debug)]
pub struct ReadTool {
    /// Base directory for file operations.
    base_dir: String,
}

/// Input for the read tool.
#[derive(Debug)]
pub struct ReadInput {
    /// The path to the file to read.
    pub file_path: String,
    /// The line number to start reading from, counted from 1.
    pub offset: Option<usize>,
    /// The number of lines to read.
    pub limit: Option<usize>,
}

/// The model of a [`ReadInput`].
pub ghost struct ReadInputView {
    pub file_path: Seq<char>,
    pub offset: Option<usize>,
    pub limit: Option<usize>,
}

impl DeepView for ReadInput {
    type V = ReadInputView;

    open spec fn deep_view(&self) -> ReadInputView {
        ReadInputView { file_path: self.file_path@, offset: self.offset, limit: self.limit }
    }
}

/// A count that may be left out, where it fits the machine's word.
pub open spec fn optional_count(found: Option<Option<u64>>) -> Option<Option<usize>> {
    match found {
        Some(Some(n)) => if n <= usize::MAX {
            Some(Some(n as usize))
        } else {
            None
        },
        Some(None) => Some(None),
        None => None,
    }
}

/// The input that a JSON value describes: a file path, and an offset and a
/// limit that may be left out.
pub open spec fn read_input_of(input: serde_json::Value) -> Option<ReadInputView> {
    match (
        string_member(input, "file_path"@),
        optional_count(optional_u64_member(input, "offset"@)),
        optional_count(optional_u64_member(input, "limit"@)),
    ) {
        (Some(file_path), Some(offset), Some(limit)) => Some(
            ReadInputView { file_path, offset, limit },
        ),
        _ => None,
    }
}

/// What is said of an input that describes no read.
pub open spec fn invalid_read_input() -> Seq<char> {
    "Invalid read input: expected `file_path`, a string, and optionally `offset` and `limit`, numbers"@
}

/// What the tool says it will do with an input.
pub open spec fn read_info(input: serde_json::Value) -> ToolInfoView {
    let file_path = match string_member(input, "file_path"@) {
        Some(p) => p,
        None => "?"@,
    };
    ToolInfoView { name: "Read"@, action_description: "Read file: "@ + file_path, details: None }
}

/// The declaration of the read tool.
pub open spec fn read_definition() -> ToolDefinitionView {
    ToolDefinitionView::Custom(
        CustomToolView {
            name: "Read"@,
            description: Some(READ_DEFINITION_DESCRIPTION@),
            input_schema: ToolInputSchemaView {
                schema_type: "object"@,
                properties: json_parsed(READ_PROPERTIES@),
                required: Some(seq!["file_path"@]),
            },
            tool_type: None,
        },
    )
}

/// Reads a count that may be left out.
pub fn count_of(found: Result<Option<u64>, ()>) -> (r: Result<Option<usize>, ()>)
    ensures
        match r {
            Ok(count) => found is Ok && optional_count(Some(found->Ok_0)) == Some(count),
            Err(_) => found is Err || optional_count(Some(found->Ok_0)) is None,
        },
{
    match found {
        Ok(Some(n)) => {
            if n <= usize::MAX as u64 {
                Ok(Some(n as usize))
            } else {
                Err(())
            }
        },
        Ok(None) => Ok(None),
        Err(_) => Err(()),
    }
}

impl ReadTool {
    /// The base directory.
    pub closed spec fn dir(self) -> Seq<char> {
        self.base_dir@
    }

    /// A read tool with a specific base directory.
    pub fn with_base_dir(base_dir: &str) -> (r: ReadTool)
        ensures
            r.dir() == base_dir@,
    {
        ReadTool { base_dir: base_dir.to_string() }
    }

    /// Resolves a path: an absolute path stands for itself, any other is
    /// seen from the base directory.
    pub fn resolve_path(&self, path: &str) -> (r: String)
        ensures
            r@ == joined_path(self.dir(), path@),
    {
        join_path(self.base_dir.as_str(), path)
    }

    /// Reads the input of the tool.
    pub fn parse_input(&self, input: &serde_json::Value) -> (r: Result<ReadInput, String>)
        ensures
            match r {
                Ok(parsed) => read_input_of(*input) == Some(parsed.deep_view()),
                Err(message) => read_input_of(*input) is None && message@ == invalid_read_input(),
            },
    {
        let file_path = get_str(input, "file_path");
        let offset = count_of(get_optional_u64(input, "offset"));
        let limit = count_of(get_optional_u64(input, "limit"));
        match (file_path, offset, limit) {
            (Some(file_path), Ok(offset), Ok(limit)) => Ok(ReadInput { file_path, offset, limit }),
            _ => Err(
                "Invalid read input: expected `file_path`, a string, and optionally `offset` and `limit`, numbers".to_string(),
            ),
        }
    }

    /// Says how a file is to be read: its resolved path, and its kind by the
    /// extension.
    pub fn read_file(&self, file_path: &str) -> (r: (String, FileKind))
        ensures
            r.0@ == joined_path(self.dir(), file_path@),
            r.1 == kind_of_extension(lower_extension(joined_path(self.dir(), file_path@))),
    {
        let resolved = self.resolve_path(file_path);
        let kind = file_kind(resolved.as_str());
        (resolved, kind)
    }

    /// The result for a text file with the content given.
    pub fn read_text_file(&self, content: &str, offset: Option<usize>, limit: Option<usize>) -> (r:
        ToolResult)
        ensures
            r.deep_view() == (ToolResultView {
                content: ToolResultDataView::Text(text_listing(text_lines(content@), offset, limit)),
                is_error: false,
            }),
    {
        let all = lines(content);
        ToolResult::success(list_lines(&all, offset, limit).as_str())
    }

    /// Whether an image of this size may be read; else the error to report.
    pub fn check_image_size(&self, size: u64) -> (r: Option<ToolResult>)
        ensures
            match r {
                Some(error) => size > MAX_IMAGE_SIZE && error.deep_view() == (ToolResultView {
                    content: ToolResultDataView::Text(too_large("Image"@, size, MAX_IMAGE_SIZE)),
                    is_error: true,
                }),
                None => size <= MAX_IMAGE_SIZE,
            },
    {
        if size > MAX_IMAGE_SIZE {
            Some(ToolResult::error(too_large_message("Image", size, MAX_IMAGE_SIZE).as_str()))
        } else {
            None
        }
    }

    /// Whether a PDF of this size may be read; else the error to report.
    pub fn check_pdf_size(&self, size: u64) -> (r: Option<ToolResult>)
        ensures
            match r {
                Some(error) => size > MAX_PDF_SIZE && error.deep_view() == (ToolResultView {
                    content: ToolResultDataView::Text(too_large("PDF"@, size, MAX_PDF_SIZE)),
                    is_error: true,
                }),
                None => size <= MAX_PDF_SIZE,
            },
    {
        if size > MAX_PDF_SIZE {
            Some(ToolResult::error(too_large_message("PDF", size, MAX_PDF_SIZE).as_str()))
        } else {
            None
        }
    }

    /// The result for an image with the bytes given. The media type goes by
    /// the extension of the path.
    pub fn read_image(&self, resolved_path: &str, data: Vec<u8>) -> (r: ToolResult)
        ensures
            r.deep_view() == (ToolResultView {
                content: ToolResultDataView::Image {
                    data: data@,
                    media_type: match image_media_type(lower_extension(resolved_path@)) {
                        Some(m) => m,
                        None => "application/octet-stream"@,
                    },
                },
                is_error: false,
            }),
    {
        let extension = lowercase_extension(resolved_path);
        let media_type = match media_type_for(&extension) {
            Some(m) => m,
            None => "application/octet-stream",
        };
        ToolResult::image(data, media_type)
    }

    /// The result for a PDF with the bytes given, described by the path and
    /// the size in words.
    pub fn read_pdf(&self, resolved_path: &str, data: Vec<u8>, size_text: &str) -> (r: ToolResult)
        ensures
            r.deep_view() == (ToolResultView {
                content: ToolResultDataView::Document {
                    data: data@,
                    media_type: "application/pdf"@,
                    description: "PDF file read: "@ + resolved_path@ + " ("@ + size_text@ + ")"@,
                },
                is_error: false,
            }),
    {
        let mut description = "PDF file read: ".to_string();
        description.append(resolved_path);
        description.append(" (");
        description.append(size_text);
        description.append(")");
        ToolResult::document(data, "application/pdf", description.as_str())
    }
}

impl Default for ReadTool {
    fn default() -> (r: ReadTool)
        ensures
            r.dir() == "."@,
    {
        ReadTool::with_base_dir(".")
    }
}

impl Tool for ReadTool {
    fn name(&self) -> (r: String)
        ensures
            r@ == "Read"@,
    {
        "Read".to_string()
    }

    fn description(&self) -> (r: String)
        ensures
            r@ == READ_DESCRIPTION@,
    {
        READ_DESCRIPTION.to_string()
    }

    fn definition(&self) -> (r: ToolDefinition)
        ensures
            r.deep_view() == read_definition(),
    {
        let mut required: Vec<String> = Vec::new();
        required.push("file_path".to_string());
        proof {
            assert(required.deep_view() =~= seq!["file_path"@]);
        }
        ToolDefinition::Custom(
            CustomTool {
                name: "Read".to_string(),
                description: Some(READ_DEFINITION_DESCRIPTION.to_string()),
                input_schema: ToolInputSchema {
                    schema_type: "object".to_string(),
                    properties: parse(READ_PROPERTIES),
                    required: Some(required),
                },
                tool_type: None,
            },
        )
    }

    fn get_info(&self, input: &serde_json::Value) -> (r: ToolInfo)
        ensures
            r.deep_view() == read_info(*input),
    {
        let file_path = match get_str(input, "file_path") {
            Some(p) => p,
            None => "?".to_string(),
        };
        ToolInfo {
            name: "Read".to_string(),
            action_description: concat("Read file: ", file_path.as_str()),
            details: None,
        }
    }

    fn requires_permission(&self) -> (r: bool)
        ensures
            !r,
    {
        false
    }
}

} // verus!
