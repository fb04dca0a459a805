//! Classification of a path into one of the supported document formats.
use vstd::prelude::*;
use vstd::string::*;
use vstd::utf8::*;

verus! {

/// What a path's file extension says about how to read it.
#[derive(Debug, Clone, PartialEq, Eq)]
pub enum DocumentFormat {
    /// `txt` and `md`: the bytes are the text.
    Plain,
    /// `docx`: a word-processor document of paragraphs, runs and text fragments.
    StructuredDocument,
    /// `pdf`: the text comes from an external extraction tool.
    Paginated,
    /// Any other extension, lower-cased.
    Unsupported(String),
}

/// The extension of a path, as `std::path::Path::extension` finds it.
pub uninterp spec fn extension_of(path: Seq<char>) -> Option<Seq<char>>;

/// The lower-case form of a string, as `str::to_lowercase` gives it.
pub uninterp spec fn lower_of(s: Seq<char>) -> Seq<char>;

/// Relies on `std::path::Path::extension`: the part of the file name after its
/// final dot; there is none when the path holds no dot at all.
#[verifier::external_body]
pub(crate) fn path_extension(path: &str) -> (r: Option<String>)
    ensures
        match r {
            Some(e) => extension_of(path@) == Some(e@),
            None => extension_of(path@) is None,
        },
        !path@.contains('.') ==> r is None,
{
    std::path::Path::new(path).extension().and_then(|e| e.to_str()).map(|e| e.to_string())
}

/// Relies on `str::to_lowercase`: the result depends on the characters alone.
#[verifier::external_body]
pub(crate) fn lowercase(s: &str) -> (r: String)
    ensures
        r@ == lower_of(s@),
{
    s.to_lowercase()
}

/// Whether `f` is the format that the lower-cased extension `ext` selects:
/// `txt` and `md` are plain, `docx` structured, `pdf` paginated, and any other
/// extension is unsupported and named as it is.
pub open spec fn selects(ext: Seq<char>, f: DocumentFormat) -> bool {
    if ext == "txt"@ || ext == "md"@ {
        f == DocumentFormat::Plain
    } else if ext == "docx"@ {
        f == DocumentFormat::StructuredDocument
    } else if ext == "pdf"@ {
        f == DocumentFormat::Paginated
    } else {
        f matches DocumentFormat::Unsupported(named) && named@ == ext
    }
}

/// Whether two strings hold the same characters, compared through their bytes.
pub fn same_text(a: &str, b: &str) -> (r: bool)
    ensures
        r == (a@ == b@),
{
    let x = a.as_bytes();
    let y = b.as_bytes();
    proof {
        broadcast use vstd::utf8::encode_utf8_decode_utf8;
        assert(decode_utf8(encode_utf8(a@)) == a@);
        assert(decode_utf8(encode_utf8(b@)) == b@);
    }
    if x.len() != y.len() {
        return false;
    }
    let mut i: usize = 0;
    while i < x.len()
        invariant
            x@ == a.spec_bytes(),
            y@ == b.spec_bytes(),
            x@.len() == y@.len(),
            i <= x@.len(),
            forall|k: int| 0 <= k < i ==> x@[k] == y@[k],
        decreases x@.len() - i,
    {
        if x[i] != y[i] {
            return false;
        }
        i = i + 1;
    }
    proof {
        assert(x@ =~= y@);
    }
    true
}

/// The format selected by an extension that is already lower-cased.
pub fn classify_extension(ext: &str) -> (r: DocumentFormat)
    ensures
        selects(ext@, r),
{
    proof {
        reveal_strlit("txt");
        reveal_strlit("md");
        reveal_strlit("docx");
        reveal_strlit("pdf");
    }
    if same_text(ext, "txt") || same_text(ext, "md") {
        DocumentFormat::Plain
    } else if same_text(ext, "docx") {
        DocumentFormat::StructuredDocument
    } else if same_text(ext, "pdf") {
        DocumentFormat::Paginated
    } else {
        DocumentFormat::Unsupported(ext.to_string())
    }
}

} // verus!
