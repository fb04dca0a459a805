use vocabulary_extract::docx::{document_text, parsed_text, DocBlock, ParagraphPart, RunPart};
use vocabulary_extract::extract::{
    classify_path, decoded_text, decoded_tool_output, file_bytes, paginated_text, plain_text,
    ExtractionError, ToolOutcome,
    TOOL_MISSING_GUIDANCE,
};
use vocabulary_extract::format::{classify_extension, same_text, DocumentFormat};

#[test]
fn supported_extensions_are_classified() {
    assert_eq!(classify_path("notes.txt"), Ok(DocumentFormat::Plain));
    assert_eq!(classify_path("dir/readme.md"), Ok(DocumentFormat::Plain));
    assert_eq!(classify_path("/tmp/letter.docx"), Ok(DocumentFormat::StructuredDocument));
    assert_eq!(classify_path("scan.pdf"), Ok(DocumentFormat::Paginated));
}

#[test]
fn extension_case_is_ignored() {
    assert_eq!(classify_path("NOTES.TXT"), Ok(DocumentFormat::Plain));
    assert_eq!(classify_path("Letter.DocX"), Ok(DocumentFormat::StructuredDocument));
    assert_eq!(classify_path("Scan.PDF"), Ok(DocumentFormat::Paginated));
}

#[test]
fn exe_is_unsupported_and_named() {
    let err = classify_path("setup.exe").unwrap_err();
    assert_eq!(err, ExtractionError::Unsupported("exe".to_string()));
    assert_eq!(err.message(), "Unsupported file type: exe");
}

#[test]
fn unsupported_extension_is_named_in_lower_case() {
    let err = classify_path("Setup.EXE").unwrap_err();
    assert_eq!(err, ExtractionError::Unsupported("exe".to_string()));
}

#[test]
fn path_without_extension_is_unclassified() {
    let err = classify_path("/home/user/README").unwrap_err();
    assert_eq!(err, ExtractionError::UnknownType);
    assert_eq!(err.message(), "Could not determine file type");
    assert_eq!(classify_path(""), Err(ExtractionError::UnknownType));
}

#[test]
fn dot_file_has_no_extension() {
    assert_eq!(classify_path(".txt"), Err(ExtractionError::UnknownType));
}

#[test]
fn extension_comes_from_the_file_name() {
    assert_eq!(classify_path("archive.d/notes"), Err(ExtractionError::UnknownType));
    assert_eq!(classify_path("archive.tar.pdf"), Ok(DocumentFormat::Paginated));
}

#[test]
fn classify_extension_expects_lower_case() {
    assert_eq!(classify_extension("md"), DocumentFormat::Plain);
    assert_eq!(classify_extension("MD"), DocumentFormat::Unsupported("MD".to_string()));
    assert_eq!(classify_extension(""), DocumentFormat::Unsupported(String::new()));
}

#[test]
fn same_text_compares_characters() {
    assert!(same_text("docx", "docx"));
    assert!(!same_text("docx", "doc"));
    assert!(!same_text("\u{e9}", "e"));
    assert!(same_text("", ""));
}

#[test]
fn plain_text_is_returned_verbatim() {
    let content = "Line one\nLigne deux \u{e9}\u{2014}\r\n\ttabbed";
    let text = plain_text(Ok(content.as_bytes().to_vec())).unwrap();
    assert_eq!(text, content);
    assert_eq!(text.as_bytes(), content.as_bytes());
}

#[test]
fn empty_plain_file_gives_empty_text() {
    assert_eq!(plain_text(Ok(Vec::new())), Ok(String::new()));
}

#[test]
fn plain_read_failure_is_a_read_error() {
    let err = plain_text(Err("No such file or directory (os error 2)".to_string())).unwrap_err();
    assert_eq!(err, ExtractionError::Read("No such file or directory (os error 2)".to_string()));
    assert_eq!(err.message(), "Failed to read file: No such file or directory (os error 2)");
}

#[test]
fn plain_invalid_utf8_is_a_read_error() {
    let bytes = vec![0x66, 0xff, 0x6f];
    let cause = String::from_utf8(bytes.clone()).unwrap_err().to_string();
    let err = plain_text(Ok(bytes)).unwrap_err();
    assert_eq!(err, ExtractionError::Read(cause.clone()));
    assert_eq!(err.message(), format!("Failed to read file: {}", cause));
}

#[test]
fn pdf_tool_missing_gives_guidance() {
    let err = paginated_text(ToolOutcome::NotLaunched).unwrap_err();
    assert_eq!(err, ExtractionError::ToolMissing);
    let message = err.message();
    assert_eq!(message, TOOL_MISSING_GUIDANCE);
    assert!(message.contains("pdftotext"));
    assert!(message.contains("poppler-utils"));
    assert!(message.contains(".docx or .txt"));
}

#[test]
fn pdf_tool_output_is_returned() {
    let outcome = ToolOutcome::Finished {
        success: true,
        stdout: "Page one\n\u{c}Page two\n".as_bytes().to_vec(),
        stderr: Vec::new(),
    };
    assert_eq!(paginated_text(outcome), Ok("Page one\n\u{c}Page two\n".to_string()));
}

#[test]
fn pdf_tool_failure_carries_diagnostics() {
    let outcome = ToolOutcome::Finished {
        success: false,
        stdout: b"partial".to_vec(),
        stderr: b"Syntax Error: Couldn't read xref table".to_vec(),
    };
    let err = paginated_text(outcome).unwrap_err();
    assert_eq!(err, ExtractionError::ToolFailed("Syntax Error: Couldn't read xref table".to_string()));
    assert_eq!(err.message(), "pdftotext failed: Syntax Error: Couldn't read xref table");
}

#[test]
fn pdf_tool_diagnostics_are_decoded_lossily() {
    let outcome = ToolOutcome::Finished { success: false, stdout: Vec::new(), stderr: vec![0x61, 0xff, 0x62] };
    assert_eq!(paginated_text(outcome), Err(ExtractionError::ToolFailed("a\u{fffd}b".to_string())));
}

#[test]
fn pdf_output_that_is_not_utf8_is_an_error() {
    let outcome = ToolOutcome::Finished { success: true, stdout: vec![0xc3, 0x28], stderr: Vec::new() };
    let cause = String::from_utf8(vec![0xc3, 0x28]).unwrap_err().to_string();
    let err = paginated_text(outcome).unwrap_err();
    assert_eq!(err, ExtractionError::InvalidUtf8(cause));
    assert!(err.message().starts_with("Invalid UTF-8 in PDF: "));
}

#[test]
fn document_text_joins_paragraphs_with_newlines() {
    let blocks = vec![
        DocBlock::Paragraph(vec![
            ParagraphPart::Run(vec![RunPart::Text("Atorva".to_string()), RunPart::Other]),
            ParagraphPart::Other,
            ParagraphPart::Run(vec![RunPart::Text("statin".to_string())]),
        ]),
        DocBlock::Other,
        DocBlock::Paragraph(Vec::new()),
        DocBlock::Paragraph(vec![ParagraphPart::Run(vec![RunPart::Text("LDL".to_string())])]),
    ];
    assert_eq!(document_text(&blocks), "Atorvastatin\n\nLDL\n");
    assert_eq!(document_text(&Vec::new()), "");
}

#[test]
fn parsed_docx_paragraphs_are_extracted() {
    let blocks = vec![
        DocBlock::Paragraph(vec![
            ParagraphPart::Run(vec![RunPart::Text("Cardiology ".to_string())]),
            ParagraphPart::Run(vec![RunPart::Text("Note".to_string())]),
        ]),
        DocBlock::Paragraph(vec![ParagraphPart::Run(vec![RunPart::Other, RunPart::Text("Atorvastatin 40 mg".to_string())])]),
        DocBlock::Other,
        DocBlock::Paragraph(Vec::new()),
    ];
    assert_eq!(parsed_text(Ok(blocks)), Ok("Cardiology Note\nAtorvastatin 40 mg\n\n".to_string()));
}

#[test]
fn docx_parse_failure_carries_the_cause() {
    let err = parsed_text(Err("Failed to read from zip.".to_string())).unwrap_err();
    assert_eq!(err, ExtractionError::Parse("Failed to read from zip.".to_string()));
    assert_eq!(err.message(), "Failed to parse docx: Failed to read from zip.");
}

#[test]
fn file_read_failure_carries_the_cause() {
    assert_eq!(file_bytes(Ok(vec![1, 2, 3])), Ok(vec![1, 2, 3]));
    let err = file_bytes(Err("permission denied".to_string())).unwrap_err();
    assert_eq!(err, ExtractionError::Read("permission denied".to_string()));
    assert_eq!(err.message(), "Failed to read file: permission denied");
}

#[test]
fn plain_decode_failure_carries_the_cause() {
    assert_eq!(decoded_text(Ok("text".to_string())), Ok("text".to_string()));
    let err = decoded_text(Err("invalid utf-8 sequence of 1 bytes from index 1".to_string())).unwrap_err();
    assert_eq!(err, ExtractionError::Read("invalid utf-8 sequence of 1 bytes from index 1".to_string()));
}

#[test]
fn pdf_decode_failure_carries_the_cause() {
    assert_eq!(decoded_tool_output(Ok("page".to_string())), Ok("page".to_string()));
    let err = decoded_tool_output(Err("invalid utf-8 sequence".to_string())).unwrap_err();
    assert_eq!(err, ExtractionError::InvalidUtf8("invalid utf-8 sequence".to_string()));
    assert_eq!(err.message(), "Invalid UTF-8 in PDF: invalid utf-8 sequence");
}
