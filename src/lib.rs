//! Text extraction from documents and vocabulary mining from the extracted text.
//!
//! The library holds the decisions; the caller performs file reads, runs the
//! external PDF tool and makes the HTTP call, and hands the outcomes back.
pub mod docx;
pub mod extract;
pub mod format;
pub mod vocabulary;
