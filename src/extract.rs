//! Extraction of text from a document, given what was read from it.
use crate::format::{classify_extension, extension_of, lower_of, lowercase, path_extension, selects, DocumentFormat};
use vstd::prelude::*;
use vstd::string::*;
use vstd::utf8::*;

verus! {

/// Why a document yielded no text.
#[derive(Debug, Clone, PartialEq, Eq)]
pub enum ExtractionError {
    /// The path has no extension to classify it by.
    UnknownType,
    /// The extension, lower-cased, names no supported format.
    Unsupported(String),
    /// The file could not be read, or its bytes are not UTF-8; holds the cause.
    Read(String),
    /// The word-processor document is malformed; holds the parser's cause.
    Parse(String),
    /// The PDF text-extraction tool could not be launched.
    ToolMissing,
    /// The PDF tool ran and failed; holds its diagnostic output.
    ToolFailed(String),
    /// The PDF tool's output is not UTF-8; holds the cause.
    InvalidUtf8(String),
}

/// Guidance given when the PDF tool is missing.
pub const TOOL_MISSING_GUIDANCE: &'static str =
    "PDF extraction requires pdftotext (install poppler-utils). For now, please use .docx or .txt files.";

impl ExtractionError {
    /// The message that describes the error to a user.
    pub open spec fn text(self) -> Seq<char> {
        match self {
            ExtractionError::UnknownType => "Could not determine file type"@,
            ExtractionError::Unsupported(e) => "Unsupported file type: "@ + e@,
            ExtractionError::Read(c) => "Failed to read file: "@ + c@,
            ExtractionError::Parse(c) => "Failed to parse docx: "@ + c@,
            ExtractionError::ToolMissing => TOOL_MISSING_GUIDANCE@,
            ExtractionError::ToolFailed(d) => "pdftotext failed: "@ + d@,
            ExtractionError::InvalidUtf8(c) => "Invalid UTF-8 in PDF: "@ + c@,
        }
    }

    /// The message that describes the error to a user.
    pub fn message(&self) -> (r: String)
        ensures
            r@ == self.text(),
    {
        let (head, tail): (&str, &str) = match self {
            ExtractionError::UnknownType => ("Could not determine file type", ""),
            ExtractionError::Unsupported(e) => ("Unsupported file type: ", e.as_str()),
            ExtractionError::Read(c) => ("Failed to read file: ", c.as_str()),
            ExtractionError::Parse(c) => ("Failed to parse docx: ", c.as_str()),
            ExtractionError::ToolMissing => (TOOL_MISSING_GUIDANCE, ""),
            ExtractionError::ToolFailed(d) => ("pdftotext failed: ", d.as_str()),
            ExtractionError::InvalidUtf8(c) => ("Invalid UTF-8 in PDF: ", c.as_str()),
        };
        proof {
            reveal_strlit("");
        }
        let mut r = String::from_str(head);
        r.append(tail);
        proof {
            assert(r@ =~= self.text());
        }
        r
    }
}

/// Classifies a path by its extension, case-insensitively.
///
/// A path without an extension is `UnknownType`; an extension other than
/// `txt`, `md`, `docx` and `pdf` is `Unsupported`, named in lower case.
pub fn classify_path(path: &str) -> (r: Result<DocumentFormat, ExtractionError>)
    ensures
        match extension_of(path@) {
            None => r == Err::<DocumentFormat, ExtractionError>(ExtractionError::UnknownType),
            Some(e) => match r {
                Ok(f) => selects(lower_of(e), f) && !(f is Unsupported),
                Err(err) => err matches ExtractionError::Unsupported(named)
                    && selects(lower_of(e), DocumentFormat::Unsupported(named)),
            },
        },
        !path@.contains('.') ==> r == Err::<DocumentFormat, ExtractionError>(
            ExtractionError::UnknownType,
        ),
{
    match path_extension(path) {
        None => Err(ExtractionError::UnknownType),
        Some(e) => {
            let lower = lowercase(e.as_str());
            match classify_extension(lower.as_str()) {
                DocumentFormat::Unsupported(named) => Err(ExtractionError::Unsupported(named)),
                f => Ok(f),
            }
        },
    }
}

/// The characters that `String::from_utf8_lossy` makes of some bytes.
pub uninterp spec fn lossy_of(bytes: Seq<u8>) -> Seq<char>;

/// The message of the error that `String::from_utf8` reports for some bytes.
pub uninterp spec fn utf8_error_of(bytes: Seq<u8>) -> Seq<char>;

/// Relies on `String::from_utf8`: it succeeds exactly on valid UTF-8 and then
/// holds the characters that the bytes encode; on failure, the error's message,
/// which depends on the bytes alone.
#[verifier::external_body]
fn decode_text(bytes: Vec<u8>) -> (r: Result<String, String>)
    ensures
        r is Ok <==> valid_utf8(bytes@),
        r matches Ok(s) ==> s@ == decode_utf8(bytes@),
        r matches Err(m) ==> m@ == utf8_error_of(bytes@),
{
    String::from_utf8(bytes).map_err(|e| e.to_string())
}

/// Relies on `String::from_utf8_lossy`: invalid sequences become replacement
/// characters, and valid UTF-8 is decoded as it is.
#[verifier::external_body]
fn decode_text_lossy(bytes: &[u8]) -> (r: String)
    ensures
        r@ == lossy_of(bytes@),
        valid_utf8(bytes@) ==> r@ == decode_utf8(bytes@),
{
    String::from_utf8_lossy(bytes).into_owned()
}

/// The bytes of a file, from the outcome of reading it: a failed read is a
/// `Read` error carrying its cause.
pub fn file_bytes(read: Result<Vec<u8>, String>) -> (r: Result<Vec<u8>, ExtractionError>)
    ensures
        match read {
            Err(cause) => r == Err::<Vec<u8>, ExtractionError>(ExtractionError::Read(cause)),
            Ok(bytes) => r == Ok::<Vec<u8>, ExtractionError>(bytes),
        },
{
    match read {
        Err(cause) => Err(ExtractionError::Read(cause)),
        Ok(bytes) => Ok(bytes),
    }
}

/// Text of a plain document, from the outcome of decoding its bytes: a
/// failed decode is a `Read` error carrying the decoder's cause.
pub fn decoded_text(decoded: Result<String, String>) -> (r: Result<String, ExtractionError>)
    ensures
        match decoded {
            Err(cause) => r == Err::<String, ExtractionError>(ExtractionError::Read(cause)),
            Ok(s) => r == Ok::<String, ExtractionError>(s),
        },
{
    match decoded {
        Err(cause) => Err(ExtractionError::Read(cause)),
        Ok(s) => Ok(s),
    }
}

/// Text of a plain (`txt`, `md`) document, from the outcome of reading its bytes.
///
/// A failed read is a `Read` error with its cause; bytes that are not UTF-8
/// are a `Read` error with the decoder's cause; otherwise the text is exactly
/// what the bytes encode.
pub fn plain_text(read: Result<Vec<u8>, String>) -> (r: Result<String, ExtractionError>)
    ensures
        match read {
            Err(cause) => r == Err::<String, ExtractionError>(ExtractionError::Read(cause)),
            Ok(bytes) => if valid_utf8(bytes@) {
                r matches Ok(s) && s@ == decode_utf8(bytes@)
            } else {
                r matches Err(ExtractionError::Read(c)) && c@ == utf8_error_of(bytes@)
            },
        },
{
    match file_bytes(read) {
        Err(e) => Err(e),
        Ok(bytes) => decoded_text(decode_text(bytes)),
    }
}

/// Text of a paginated document, from the outcome of decoding the tool's
/// standard output: a failed decode is an `InvalidUtf8` error carrying the
/// decoder's cause.
pub fn decoded_tool_output(decoded: Result<String, String>) -> (r: Result<String, ExtractionError>)
    ensures
        match decoded {
            Err(cause) => r == Err::<String, ExtractionError>(ExtractionError::InvalidUtf8(cause)),
            Ok(s) => r == Ok::<String, ExtractionError>(s),
        },
{
    match decoded {
        Err(cause) => Err(ExtractionError::InvalidUtf8(cause)),
        Ok(s) => Ok(s),
    }
}

/// How a run of the PDF text-extraction tool ended.
#[derive(Debug, Clone, PartialEq, Eq)]
pub enum ToolOutcome {
    /// The tool could not be launched at all.
    NotLaunched,
    /// The tool ran; whether it reported success, and what it wrote.
    Finished { success: bool, stdout: Vec<u8>, stderr: Vec<u8> },
}

/// Text of a paginated (`pdf`) document, from how the extraction tool ended.
///
/// A tool that could not be launched is `ToolMissing`, whose message is
/// guidance; a failing run is `ToolFailed` with its diagnostic output; a
/// successful run gives its standard output, which must be UTF-8; if it is
/// not, the error carries the decoder's cause.
pub fn paginated_text(outcome: ToolOutcome) -> (r: Result<String, ExtractionError>)
    ensures
        match outcome {
            ToolOutcome::NotLaunched => r == Err::<String, ExtractionError>(
                ExtractionError::ToolMissing,
            ),
            ToolOutcome::Finished { success, stdout, stderr } => if !success {
                r matches Err(ExtractionError::ToolFailed(d)) && d@ == lossy_of(stderr@)
            } else if valid_utf8(stdout@) {
                r matches Ok(s) && s@ == decode_utf8(stdout@)
            } else {
                r matches Err(ExtractionError::InvalidUtf8(c)) && c@ == utf8_error_of(stdout@)
            },
        },
{
    match outcome {
        ToolOutcome::NotLaunched => Err(ExtractionError::ToolMissing),
        ToolOutcome::Finished { success, stdout, stderr } => {
            if !success {
                Err(ExtractionError::ToolFailed(decode_text_lossy(stderr.as_slice())))
            } else {
                decoded_tool_output(decode_text(stdout))
            }
        },
    }
}

/// A plain or paginated document whose bytes encode a text yields that text,
/// byte for byte.
pub proof fn lemma_encoded_text_is_extracted(text: Seq<char>)
    ensures
        valid_utf8(encode_utf8(text)),
        decode_utf8(encode_utf8(text)) == text,
{
    encode_utf8_valid_utf8(text);
    encode_utf8_decode_utf8(text);
}

} // verus!
