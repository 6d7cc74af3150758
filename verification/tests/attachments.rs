use picrust::helpers::attachments::{
    attachment_tags, error_block, read_attachment, read_image, read_pdf, read_text_file,
    resolve_path, AttachmentKind, AttachmentStep, Attachments,
};
use picrust::llm::ContentBlock;

fn text_of(block: &ContentBlock) -> String {
    match block {
        ContentBlock::Text { text } => text.clone(),
        _ => panic!("expected a text block"),
    }
}

#[test]
fn test_attachment_tag_parsing() {
    let input = "Hello <vibe-work-attachment>/path/to/file.txt</vibe-work-attachment> world!";
    let paths = attachment_tags(input);
    assert_eq!(paths, vec!["/path/to/file.txt"]);
}

#[test]
fn test_multiple_attachments() {
    let input = "First <vibe-work-attachment>file1.txt</vibe-work-attachment> and <vibe-work-attachment>file2.png</vibe-work-attachment>";
    let paths = attachment_tags(input);
    assert_eq!(paths, vec!["file1.txt", "file2.png"]);
}

#[test]
fn test_resolve_path() {
    // Absolute path
    let abs = resolve_path("/absolute/path", "/base");
    assert_eq!(abs, "/absolute/path");

    // Relative path
    let rel = resolve_path("relative/path", "/base");
    assert_eq!(rel, "/base/relative/path");
}

#[test]
fn resolve_path_edges() {
    assert_eq!(resolve_path("a.txt", "/base/"), "/base/a.txt");
    assert_eq!(resolve_path("a.txt", ""), "a.txt");
    assert_eq!(resolve_path("", "/base"), "/base/");
}

#[test]
fn no_tags_no_paths() {
    assert!(attachment_tags("nothing attached here").is_empty());
    assert_eq!(
        attachment_tags("<vibe-work-attachment></vibe-work-attachment>"),
        vec![String::new()]
    );
}

#[test]
fn a_file_is_attached_once() {
    let mut attachments = Attachments::new();
    let first = attachments.next("  notes.txt ", "/work");
    match first {
        AttachmentStep::Read { file_path, resolved_path } => {
            assert_eq!(file_path, "notes.txt");
            assert_eq!(resolved_path, "/work/notes.txt");
            attachments.record(&resolved_path);
        }
        _ => panic!("expected a read"),
    }
    match attachments.next("notes.txt", "/work") {
        AttachmentStep::Note(block) => {
            assert_eq!(text_of(&block), "Note: File notes.txt was already attached above");
        }
        _ => panic!("expected a note"),
    }
    // A file that could not be read is not recorded, and is tried again.
    match attachments.next("other.txt", "/work") {
        AttachmentStep::Read { .. } => {}
        _ => panic!("expected a read"),
    }
    match attachments.next("other.txt", "/work") {
        AttachmentStep::Read { .. } => {}
        _ => panic!("expected a read"),
    }
}

#[test]
fn error_block_names_file_and_cause() {
    let block = error_block("a.txt", "No such file");
    assert_eq!(text_of(&block), "Error: Cannot read file a.txt - No such file");
}

#[test]
fn kind_goes_by_directory_and_extension() {
    assert_eq!(read_attachment("/x/photos", true), AttachmentKind::Directory);
    assert_eq!(read_attachment("/x/a.PNG", false), AttachmentKind::Image);
    assert_eq!(read_attachment("/x/a.jpeg", false), AttachmentKind::Image);
    assert_eq!(read_attachment("/x/a.pdf", false), AttachmentKind::Pdf);
    assert_eq!(read_attachment("/x/a.rs", false), AttachmentKind::Text);
    assert_eq!(read_attachment("/x/Makefile", false), AttachmentKind::Text);
}

#[test]
fn text_attachment_is_numbered() {
    let blocks = read_text_file("alpha\nbeta\n", "notes.txt");
    assert_eq!(blocks.len(), 1);
    assert_eq!(text_of(&blocks[0]), "File: notes.txt\n\n     1\talpha\n     2\tbeta\n");
}

#[test]
fn long_text_attachment_is_cut_after_two_thousand_lines() {
    let mut content = String::new();
    for _ in 0..2003 {
        content.push_str("x\n");
    }
    let blocks = read_text_file(&content, "big.txt");
    let text = text_of(&blocks[0]);
    assert!(text.ends_with("  2000\tx\n\n... (3 more lines)\n"));
    assert!(!text.contains("  2001\t"));
}

#[test]
fn image_attachment_is_base64() {
    let blocks = read_image("/x/a.png", &vec![b'M', b'a', b'n']).unwrap();
    assert_eq!(blocks.len(), 1);
    match &blocks[0] {
        ContentBlock::Image { data, media_type } => {
            assert_eq!(data, "TWFu");
            assert_eq!(media_type, "image/png");
        }
        _ => panic!("expected an image"),
    }
    let padded = read_image("/x/a.webp", &vec![b'M', b'a']).unwrap();
    match &padded[0] {
        ContentBlock::Image { data, media_type } => {
            assert_eq!(data, "TWE=");
            assert_eq!(media_type, "image/webp");
        }
        _ => panic!("expected an image"),
    }
}

#[test]
fn image_over_the_limit_is_refused() {
    let data = vec![0u8; 5 * 1024 * 1024 + 1];
    let err = read_image("/x/a.png", &data).unwrap_err();
    assert_eq!(err, "Image file too large: 5242881 bytes (max: 5242880 bytes)");
    let at_limit = vec![0u8; 5 * 1024 * 1024];
    assert!(read_image("/x/a.png", &at_limit).is_ok());
}

#[test]
fn pdf_attachment_is_a_document() {
    let blocks = read_pdf(&vec![b'%', b'P', b'D', b'F']).unwrap();
    match &blocks[0] {
        ContentBlock::Document { data, media_type } => {
            assert_eq!(data, "JVBERg==");
            assert_eq!(media_type, "application/pdf");
        }
        _ => panic!("expected a document"),
    }
}
