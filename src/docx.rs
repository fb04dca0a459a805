//! Text of a word-processor document: its paragraphs, each the text of its
//! runs followed by a newline. The document arrives already parsed, as a
//! tree of paragraphs, runs and text fragments.
use crate::extract::ExtractionError;
use vstd::prelude::*;
use vstd::string::*;

verus! {

/// A child of a run: a text fragment, or anything else (a tab, a drawing).
#[derive(Debug, Clone, PartialEq, Eq)]
pub enum RunPart {
    Text(String),
    Other,
}

/// A child of a paragraph: a run of parts, or anything else (a hyperlink, a bookmark).
#[derive(Debug, Clone, PartialEq, Eq)]
pub enum ParagraphPart {
    Run(Vec<RunPart>),
    Other,
}

/// A child of the document body: a paragraph, or anything else (a table, a section).
#[derive(Debug, Clone, PartialEq, Eq)]
pub enum DocBlock {
    Paragraph(Vec<ParagraphPart>),
    Other,
}

/// The text fragments of a run, concatenated.
pub open spec fn run_text(parts: Seq<RunPart>) -> Seq<char>
    decreases parts.len(),
{
    if parts.len() == 0 {
        Seq::empty()
    } else {
        run_text(parts.drop_last()) + match parts.last() {
            RunPart::Text(t) => t@,
            RunPart::Other => Seq::empty(),
        }
    }
}

/// The text of the runs of a paragraph, concatenated.
pub open spec fn paragraph_text(parts: Seq<ParagraphPart>) -> Seq<char>
    decreases parts.len(),
{
    if parts.len() == 0 {
        Seq::empty()
    } else {
        paragraph_text(parts.drop_last()) + match parts.last() {
            ParagraphPart::Run(r) => run_text(r@),
            ParagraphPart::Other => Seq::empty(),
        }
    }
}

/// The text of a document: each paragraph's text followed by a newline.
pub open spec fn document_text_of(blocks: Seq<DocBlock>) -> Seq<char>
    decreases blocks.len(),
{
    if blocks.len() == 0 {
        Seq::empty()
    } else {
        document_text_of(blocks.drop_last()) + match blocks.last() {
            DocBlock::Paragraph(p) => paragraph_text(p@) + seq!['\n'],
            DocBlock::Other => Seq::empty(),
        }
    }
}

/// Appends the text fragments of a run.
fn push_run_text(out: &mut String, parts: &Vec<RunPart>)
    ensures
        final(out)@ == old(out)@ + run_text(parts@),
{
    let mut i: usize = 0;
    while i < parts.len()
        invariant
            i <= parts@.len(),
            out@ == old(out)@ + run_text(parts@.subrange(0, i as int)),
        decreases parts@.len() - i,
    {
        proof {
            assert(parts@.subrange(0, i as int + 1).drop_last() =~= parts@.subrange(0, i as int));
        }
        match &parts[i] {
            RunPart::Text(t) => out.append(t.as_str()),
            RunPart::Other => {},
        }
        i = i + 1;
        proof {
            assert(out@ =~= old(out)@ + run_text(parts@.subrange(0, i as int)));
        }
    }
    proof {
        assert(parts@.subrange(0, i as int) =~= parts@);
    }
}

/// Appends the text of the runs of a paragraph.
fn push_paragraph_text(out: &mut String, parts: &Vec<ParagraphPart>)
    ensures
        final(out)@ == old(out)@ + paragraph_text(parts@),
{
    let mut i: usize = 0;
    while i < parts.len()
        invariant
            i <= parts@.len(),
            out@ == old(out)@ + paragraph_text(parts@.subrange(0, i as int)),
        decreases parts@.len() - i,
    {
        proof {
            assert(parts@.subrange(0, i as int + 1).drop_last() =~= parts@.subrange(0, i as int));
        }
        match &parts[i] {
            ParagraphPart::Run(r) => push_run_text(out, r),
            ParagraphPart::Other => {},
        }
        i = i + 1;
        proof {
            assert(out@ =~= old(out)@ + paragraph_text(parts@.subrange(0, i as int)));
        }
    }
    proof {
        assert(parts@.subrange(0, i as int) =~= parts@);
    }
}

/// The text of a document body: for each paragraph, its text fragments in
/// order and then a newline; children other than paragraphs, runs and text
/// fragments contribute nothing.
pub fn document_text(blocks: &Vec<DocBlock>) -> (r: String)
    ensures
        r@ == document_text_of(blocks@),
{
    let mut out = String::new();
    let mut i: usize = 0;
    proof {
        reveal_strlit("\n");
        assert("\n"@ =~= seq!['\n']);
    }
    while i < blocks.len()
        invariant
            "\n"@ == seq!['\n'],
            i <= blocks@.len(),
            out@ == document_text_of(blocks@.subrange(0, i as int)),
        decreases blocks@.len() - i,
    {
        proof {
            assert(blocks@.subrange(0, i as int + 1).drop_last() =~= blocks@.subrange(0, i as int));
        }
        match &blocks[i] {
            DocBlock::Paragraph(p) => {
                push_paragraph_text(&mut out, p);
                out.append("\n");
            },
            DocBlock::Other => {},
        }
        i = i + 1;
        proof {
            assert(out@ =~= document_text_of(blocks@.subrange(0, i as int)));
        }
    }
    proof {
        assert(blocks@.subrange(0, i as int) =~= blocks@);
    }
    out
}

/// Text of a structured (`docx`) document, from the outcome of parsing it.
///
/// A document that did not parse is a `Parse` error carrying the parser's
/// cause; otherwise the text is that of the parsed body.
pub fn parsed_text(parse: Result<Vec<DocBlock>, String>) -> (r: Result<String, ExtractionError>)
    ensures
        match parse {
            Err(cause) => r == Err::<String, ExtractionError>(ExtractionError::Parse(cause)),
            Ok(blocks) => r matches Ok(s) && s@ == document_text_of(blocks@),
        },
{
    match parse {
        Err(cause) => Err(ExtractionError::Parse(cause)),
        Ok(blocks) => Ok(document_text(&blocks)),
    }
}

/// Texts each followed by a newline, concatenated.
pub open spec fn lines_joined(texts: Seq<Seq<char>>) -> Seq<char>
    decreases texts.len(),
{
    if texts.len() == 0 {
        Seq::empty()
    } else {
        lines_joined(texts.drop_last()) + texts.last() + seq!['\n']
    }
}

/// Whether a body block is a paragraph of one run that holds the one text fragment `t`.
pub open spec fn is_simple_paragraph(block: DocBlock, t: Seq<char>) -> bool {
    match block {
        DocBlock::Paragraph(parts) => parts@.len() == 1 && match parts@[0] {
            ParagraphPart::Run(run) => run@.len() == 1 && match run@[0] {
                RunPart::Text(frag) => frag@ == t,
                RunPart::Other => false,
            },
            ParagraphPart::Other => false,
        },
        DocBlock::Other => false,
    }
}

/// A document whose paragraphs each hold one text yields exactly those
/// texts, each followed by a newline.
pub proof fn lemma_paragraph_texts_are_joined(blocks: Seq<DocBlock>, texts: Seq<Seq<char>>)
    requires
        blocks.len() == texts.len(),
        forall|i: int| 0 <= i < blocks.len() ==> #[trigger] is_simple_paragraph(blocks[i], texts[i]),
    ensures
        document_text_of(blocks) == lines_joined(texts),
    decreases blocks.len(),
{
    if blocks.len() > 0 {
        let n = blocks.len() - 1;
        assert(is_simple_paragraph(blocks[n], texts[n]));
        lemma_paragraph_texts_are_joined(blocks.drop_last(), texts.drop_last());
        if let DocBlock::Paragraph(parts) = blocks.last() {
            if let ParagraphPart::Run(run) = parts@[0] {
                assert(parts@.drop_last() =~= Seq::<ParagraphPart>::empty());
                assert(run@.drop_last() =~= Seq::<RunPart>::empty());
                assert(run_text(run@.drop_last()) == Seq::<char>::empty());
                assert(run@.last() == run@[0]);
                assert(run_text(run@) =~= texts[n]);
                assert(paragraph_text(parts@.drop_last()) == Seq::<char>::empty());
                assert(parts@.last() == parts@[0]);
                assert(paragraph_text(parts@) =~= texts[n]);
            }
        }
    }
}

} // verus!
