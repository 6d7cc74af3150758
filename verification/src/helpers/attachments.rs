//! Attachments in user messages.
//!
//! An attachment is named by a tag, `<vibe-work-attachment>path</vibe-work-attachment>`.
//! Each file is attached once; a later tag for it gives a note. Reading the
//! files is the caller's part.

use vstd::hash_set::StringHashSet;
use vstd::prelude::*;
use vstd::string::StringExecFns;
use crate::helpers::path::{join_path, joined_path, lower_extension, lowercase_extension};
use crate::llm::types::{ContentBlock, ContentBlockView};
use crate::pattern::{first_group_texts, first_groups};
use crate::text::{concat, concat3, decimal, lines, text_lines, trim_of, trimmed, usize_to_string};
use crate::tools::common::read_tool::{
    file_kind, format_numbered_lines, image_media_type, kind_of_extension, media_type_for,
    numbered_lines, too_large, too_large_message, FileKind, DEFAULT_LINE_LIMIT, MAX_IMAGE_SIZE,
    MAX_PDF_SIZE,
};

verus! {

/// The pattern of an attachment tag; its first group is the path.
pub const ATTACHMENT_PATTERN: &'static str = "<vibe-work-attachment>(.*?)</vibe-work-attachment>";

/// The largest file that is encoded, in bytes.
pub const MAX_ENCODED_SIZE: usize = 0x4000_0000;

/// The base64 text of bytes, in the standard alphabet with padding, as the
/// `base64` crate's `STANDARD` engine encodes them.
pub uninterp spec fn base64_text(bytes: Seq<u8>) -> Seq<char>;

/// Calls `Engine::encode` on `STANDARD`. The result is what `base64_text`
/// names. The length is bounded so that the encoded size fits the machine's
/// word.
#[verifier::external_body]
pub(crate) fn base64_encode(bytes: &Vec<u8>) -> (r: String)
    requires
        bytes.len() <= MAX_ENCODED_SIZE,
    ensures
        r@ == base64_text(bytes@),
{
    base64::Engine::encode(&base64::engine::general_purpose::STANDARD, bytes)
}

/// The paths that the tags of a text name, in order, as they are written.
pub open spec fn tagged_paths(input: Seq<char>) -> Seq<Seq<char>> {
    match first_group_texts(ATTACHMENT_PATTERN@, input) {
        Some(paths) => paths,
        None => Seq::empty(),
    }
}

/// The paths that the tags of a text name, in order, as they are written.
pub fn attachment_tags(input: &str) -> (r: Vec<String>)
    ensures
        r.deep_view() == tagged_paths(input@),
{
    match first_groups(ATTACHMENT_PATTERN, input) {
        Some(paths) => paths,
        None => {
            let empty: Vec<String> = Vec::new();
            proof {
                assert(empty.deep_view() =~= Seq::empty());
            }
            empty
        },
    }
}

/// Resolves a path: an absolute path stands for itself, any other is seen
/// from the base directory.
pub fn resolve_path(path: &str, base_dir: &str) -> (r: String)
    ensures
        r@ == joined_path(base_dir@, path@),
{
    join_path(base_dir, path)
}

/// How an attachment is read.
#[derive(Clone, Copy, Debug, PartialEq, Eq, Structural)]
pub enum AttachmentKind {
    Directory,
    Image,
    Pdf,
    Text,
}

/// How the attachment at a path is read: a directory is listed, any other
/// path goes by its extension.
pub open spec fn attachment_kind(resolved_path: Seq<char>, is_dir: bool) -> AttachmentKind {
    if is_dir {
        AttachmentKind::Directory
    } else {
        match kind_of_extension(lower_extension(resolved_path)) {
            FileKind::Image => AttachmentKind::Image,
            FileKind::Pdf => AttachmentKind::Pdf,
            FileKind::Text => AttachmentKind::Text,
        }
    }
}

/// What to do with one tag.
#[derive(Debug)]
pub enum AttachmentStep {
    /// The file is attached already: add this note.
    Note(ContentBlock),
    /// Read the file at `resolved_path`, which the user wrote as `file_path`.
    Read { file_path: String, resolved_path: String },
}

/// The model of an [`AttachmentStep`].
pub ghost enum AttachmentStepView {
    Note(ContentBlockView),
    Read { file_path: Seq<char>, resolved_path: Seq<char> },
}

impl DeepView for AttachmentStep {
    type V = AttachmentStepView;

    open spec fn deep_view(&self) -> AttachmentStepView {
        match self {
            AttachmentStep::Note(block) => AttachmentStepView::Note(block.deep_view()),
            AttachmentStep::Read { file_path, resolved_path } => AttachmentStepView::Read {
                file_path: file_path@,
                resolved_path: resolved_path@,
            },
        }
    }
}

/// The note for a file that is attached already.
pub open spec fn duplicate_note(file_path: Seq<char>) -> ContentBlockView {
    ContentBlockView::Text { text: "Note: File "@ + file_path + " was already attached above"@ }
}

/// The block for a file that could not be read.
pub open spec fn read_error(file_path: Seq<char>, message: Seq<char>) -> ContentBlockView {
    ContentBlockView::Text { text: "Error: Cannot read file "@ + file_path + " - "@ + message }
}

/// What to do with the tag `tag` when the files `attached` are attached
/// already: the path is the tag without the white space around it.
pub open spec fn attachment_step(attached: Set<Seq<char>>, tag: Seq<char>, base_dir: Seq<char>) -> AttachmentStepView {
    let file_path = trimmed(tag);
    let resolved_path = joined_path(base_dir, file_path);
    if attached.contains(resolved_path) {
        AttachmentStepView::Note(duplicate_note(file_path))
    } else {
        AttachmentStepView::Read { file_path, resolved_path }
    }
}

/// The files attached so far, by their resolved paths.
pub struct Attachments {
    attached: StringHashSet,
}

impl Attachments {
    /// The resolved paths of the files attached so far.
    pub closed spec fn paths(self) -> Set<Seq<char>> {
        self.attached@
    }

    /// No file is attached yet.
    pub fn new() -> (r: Attachments)
        ensures
            r.paths() == Set::<Seq<char>>::empty(),
    {
        Attachments { attached: StringHashSet::new() }
    }

    /// Says what to do with one tag.
    pub fn next(&self, tag: &str, base_dir: &str) -> (r: AttachmentStep)
        ensures
            r.deep_view() == attachment_step(self.paths(), tag@, base_dir@),
    {
        let file_path = trim_of(tag);
        let resolved_path = resolve_path(file_path, base_dir);
        if self.attached.contains(resolved_path.as_str()) {
            AttachmentStep::Note(
                ContentBlock::Text {
                    text: concat3("Note: File ", file_path, " was already attached above"),
                },
            )
        } else {
            AttachmentStep::Read { file_path: file_path.to_string(), resolved_path }
        }
    }

    /// Records that the file at `resolved_path` was read and attached.
    pub fn record(&mut self, resolved_path: &str)
        ensures
            final(self).paths() == old(self).paths().insert(resolved_path@),
    {
        self.attached.insert(resolved_path.to_string());
    }
}

/// The block for a file that could not be read.
pub fn error_block(file_path: &str, message: &str) -> (r: ContentBlock)
    ensures
        r.deep_view() == read_error(file_path@, message@),
{
    let head = concat3("Error: Cannot read file ", file_path, " - ");
    ContentBlock::Text { text: concat(head.as_str(), message) }
}

/// How the attachment at a path is read.
pub fn read_attachment(resolved_path: &str, is_dir: bool) -> (r: AttachmentKind)
    ensures
        r == attachment_kind(resolved_path@, is_dir),
{
    if is_dir {
        AttachmentKind::Directory
    } else {
        match file_kind(resolved_path) {
            FileKind::Image => AttachmentKind::Image,
            FileKind::Pdf => AttachmentKind::Pdf,
            FileKind::Text => AttachmentKind::Text,
        }
    }
}

/// What is shown of an attached text file: its name, its first lines with
/// their numbers, and a note where lines are left.
pub open spec fn attached_text(written_path: Seq<char>, lines: Seq<Seq<char>>) -> Seq<char> {
    let total = lines.len() as int;
    let end = if total < DEFAULT_LINE_LIMIT {
        total
    } else {
        DEFAULT_LINE_LIMIT as int
    };
    let shown = "File: "@ + written_path + "\n\n"@ + numbered_lines(lines, 0, end);
    if end < total {
        shown + "\n... ("@ + decimal((total - end) as nat) + " more lines)\n"@
    } else {
        shown
    }
}

/// The block for an attached text file with the content given.
pub fn read_text_file(content: &str, written_path: &str) -> (r: Vec<ContentBlock>)
    ensures
        r.deep_view() == seq![
            ContentBlockView::Text { text: attached_text(written_path@, text_lines(content@)) },
        ],
{
    let all = lines(content);
    let total = all.len();
    let end: usize = if total < DEFAULT_LINE_LIMIT {
        total
    } else {
        DEFAULT_LINE_LIMIT
    };
    let mut result = concat3("File: ", written_path, "\n\n");
    result.append(format_numbered_lines(&all, 0, end).as_str());
    if end < total {
        result.append("\n... (");
        result.append(usize_to_string(total - end).as_str());
        result.append(" more lines)\n");
    }
    let mut blocks: Vec<ContentBlock> = Vec::new();
    blocks.push(ContentBlock::Text { text: result });
    proof {
        assert(blocks.deep_view() =~= seq![
            ContentBlockView::Text { text: attached_text(written_path@, text_lines(content@)) },
        ]);
    }
    blocks
}

/// The block for an attached image: its bytes in base64, with the media
/// type that goes with the extension. An image over the size limit is an
/// error.
pub fn read_image(resolved_path: &str, data: &Vec<u8>) -> (r: Result<Vec<ContentBlock>, String>)
    ensures
        match r {
            Ok(blocks) => data.len() <= MAX_IMAGE_SIZE && blocks.deep_view() == seq![
                ContentBlockView::Image {
                    data: base64_text(data@),
                    media_type: match image_media_type(lower_extension(resolved_path@)) {
                        Some(m) => m,
                        None => "application/octet-stream"@,
                    },
                },
            ],
            Err(message) => data.len() > MAX_IMAGE_SIZE && message@ == too_large(
                "Image"@,
                data.len() as u64,
                MAX_IMAGE_SIZE,
            ),
        },
{
    if data.len() as u64 > MAX_IMAGE_SIZE {
        return Err(too_large_message("Image", data.len() as u64, MAX_IMAGE_SIZE));
    }
    let extension = lowercase_extension(resolved_path);
    let media_type = match media_type_for(&extension) {
        Some(m) => m,
        None => "application/octet-stream",
    };
    let mut blocks: Vec<ContentBlock> = Vec::new();
    blocks.push(ContentBlock::image(base64_encode(data), media_type.to_string()));
    proof {
        assert(blocks.deep_view() =~= seq![blocks[0].deep_view()]);
    }
    Ok(blocks)
}

/// The block for an attached PDF: its bytes in base64. A PDF over the size
/// limit is an error.
pub fn read_pdf(data: &Vec<u8>) -> (r: Result<Vec<ContentBlock>, String>)
    ensures
        match r {
            Ok(blocks) => data.len() <= MAX_PDF_SIZE && blocks.deep_view() == seq![
                ContentBlockView::Document {
                    data: base64_text(data@),
                    media_type: "application/pdf"@,
                },
            ],
            Err(message) => data.len() > MAX_PDF_SIZE && message@ == too_large(
                "PDF"@,
                data.len() as u64,
                MAX_PDF_SIZE,
            ),
        },
{
    if data.len() as u64 > MAX_PDF_SIZE {
        return Err(too_large_message("PDF", data.len() as u64, MAX_PDF_SIZE));
    }
    let mut blocks: Vec<ContentBlock> = Vec::new();
    blocks.push(ContentBlock::document(base64_encode(data), "application/pdf".to_string()));
    proof {
        assert(blocks.deep_view() =~= seq![blocks[0].deep_view()]);
    }
    Ok(blocks)
}

} // verus!
