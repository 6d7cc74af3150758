use picrust::tools::{ToolResult, ToolResultData};

#[test]
fn test_tool_result_success() {
    let result = ToolResult::success("output");
    match result.content {
        ToolResultData::Text(text) => assert_eq!(text, "output"),
        _ => panic!("Expected text content"),
    }
    assert!(!result.is_error);
}

#[test]
fn test_tool_result_error() {
    let result = ToolResult::error("error message");
    match result.content {
        ToolResultData::Text(text) => assert_eq!(text, "error message"),
        _ => panic!("Expected text content"),
    }
    assert!(result.is_error);
}

#[test]
fn test_tool_result_image() {
    let data = vec![1, 2, 3, 4];
    let result = ToolResult::image(data.clone(), "image/png");
    match result.content {
        ToolResultData::Image { data: img_data, media_type } => {
            assert_eq!(img_data, data);
            assert_eq!(media_type, "image/png");
        }
        _ => panic!("Expected image content"),
    }
    assert!(!result.is_error);
}

#[test]
fn test_tool_result_document() {
    let data = vec![1, 2, 3, 4];
    let result = ToolResult::document(data.clone(), "application/pdf", "Test PDF");
    match result.content {
        ToolResultData::Document { data: doc_data, media_type, description } => {
            assert_eq!(doc_data, data);
            assert_eq!(media_type, "application/pdf");
            assert_eq!(description, "Test PDF");
        }
        _ => panic!("Expected document content"),
    }
    assert!(!result.is_error);
}

#[test]
fn shown_text_of_each_kind_of_result() {
    assert_eq!(ToolResult::success("out").shown(), Some("out".to_string()));
    assert_eq!(ToolResult::image(vec![1], "image/png").shown(), None);
    assert_eq!(
        ToolResult::document(vec![1], "application/pdf", "A report").shown(),
        Some("A report".to_string())
    );
}
