//! A minimal block-level content model: a paragraph holds text runs. The
//! full paragraph object model of a word-processing document is out of this
//! crate's scope; what footnote content needs is modelled here directly.

use vstd::prelude::*;
use vstd::string::*;
use crate::build_xml::{BuildXML, children_xml};
use crate::escape::{escape, escape_text};
use crate::xml_builder::{XmlBuilder, open_tag_str, open_tag_attr1_str, closed_tag_str,
    end_tag_str};

verus! {

/// A run of text inside a paragraph. The stored text is already XML-safe:
/// escaping happens exactly once, when text is added.
#[derive(Debug, Clone)]
pub struct Run {
    pub text: String,
}

/// The rendered form of a run: run properties, then the text with
/// whitespace preserved.
pub open spec fn run_xml(r: Run) -> Seq<char> {
    open_tag_str("w:r"@) + closed_tag_str("w:rPr"@) + open_tag_attr1_str(
        "w:t"@,
        "xml:space"@,
        "preserve"@,
    ) + r.text@ + end_tag_str("w:t"@) + end_tag_str("w:r"@)
}

impl Run {
    /// An empty run.
    pub fn new() -> (r: Run)
        ensures
            r.text@ == Seq::<char>::empty(),
    {
        Run { text: String::new() }
    }

    /// Appends raw text; it is escaped here, and only here.
    pub fn add_text(self, raw: &str) -> (r: Run)
        ensures
            r.text@ == self.text@ + escape_text(raw@),
    {
        let escaped = escape(raw);
        let mut text = self.text;
        text.append(escaped.as_str());
        Run { text }
    }
}

impl BuildXML for Run {
    open spec fn xml(&self) -> Seq<char> {
        run_xml(*self)
    }

    fn build_to(&self, b: XmlBuilder) -> (r: XmlBuilder) {
        let b1 = b.open_el("w:r");
        let b2 = b1.closed_el("w:rPr");
        let b3 = b2.open_el_attr("w:t", "xml:space", "preserve");
        let b4 = b3.text(self.text.as_str());
        proof {
            assert(b3.open_tags().last() == "w:t"@);
        }
        let b5 = b4.close("w:t");
        proof {
            assert(b5.open_tags() =~= b.open_tags().push("w:r"@));
        }
        let b6 = b5.close("w:r");
        proof {
            assert(b6.open_tags() =~= b.open_tags());
            assert(b6@ =~= b@ + run_xml(*self));
        }
        b6
    }

    fn build(&self) -> (s: String) {
        let b = XmlBuilder::new();
        let b = self.build_to(b);
        b.finish()
    }
}

/// One paragraph: its identifier attribute and its runs, in order.
#[derive(Debug, Clone)]
pub struct Paragraph {
    pub para_id: String,
    pub runs: Vec<Run>,
}

/// The rendered form of a paragraph: paragraph properties, then each run in
/// stored order.
pub open spec fn paragraph_xml(p: Paragraph) -> Seq<char> {
    open_tag_attr1_str("w:p"@, "w14:paraId"@, p.para_id@) + open_tag_str("w:pPr"@)
        + closed_tag_str("w:rPr"@) + end_tag_str("w:pPr"@) + children_xml(p.runs@) + end_tag_str(
        "w:p"@,
    )
}

/// The rendered form of a freshly constructed, empty paragraph.
pub open spec fn default_paragraph_xml() -> Seq<char> {
    open_tag_attr1_str("w:p"@, "w14:paraId"@, "12345678"@) + open_tag_str("w:pPr"@)
        + closed_tag_str("w:rPr"@) + end_tag_str("w:pPr"@) + end_tag_str("w:p"@)
}

impl Paragraph {
    /// An empty paragraph with the default paragraph identifier.
    pub fn new() -> (p: Paragraph)
        ensures
            p.para_id@ == "12345678"@,
            p.runs@ == Seq::<Run>::empty(),
            p.xml() == default_paragraph_xml(),
    {
        let p = Paragraph { para_id: String::from_str("12345678"), runs: Vec::new() };
        proof {
            assert(children_xml(p.runs@) =~= Seq::<char>::empty());
            assert(paragraph_xml(p) =~= default_paragraph_xml());
        }
        p
    }

    /// Appends a run at the end.
    pub fn add_run(self, run: Run) -> (p: Paragraph)
        ensures
            p.para_id@ == self.para_id@,
            p.runs@ == self.runs@.push(run),
    {
        let mut runs = self.runs;
        runs.push(run);
        Paragraph { para_id: self.para_id, runs }
    }
}

impl BuildXML for Paragraph {
    open spec fn xml(&self) -> Seq<char> {
        paragraph_xml(*self)
    }

    fn build_to(&self, b: XmlBuilder) -> (r: XmlBuilder) {
        let b1 = b.open_el_attr("w:p", "w14:paraId", self.para_id.as_str());
        let b2 = b1.open_el("w:pPr");
        let b3 = b2.closed_el("w:rPr");
        proof {
            assert(b3.open_tags().last() == "w:pPr"@);
        }
        let b4 = b3.close("w:pPr");
        proof {
            assert(b4.open_tags() =~= b.open_tags().push("w:p"@));
        }
        let b5 = b4.add_children(&self.runs);
        let b6 = b5.close("w:p");
        proof {
            assert(b6.open_tags() =~= b.open_tags());
            assert(b6@ =~= b@ + paragraph_xml(*self));
        }
        b6
    }

    fn build(&self) -> (s: String) {
        let b = XmlBuilder::new();
        let b = self.build_to(b);
        b.finish()
    }
}

} // verus!
