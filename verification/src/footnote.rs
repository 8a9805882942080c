//! The footnote element: an identified sequence of paragraphs. A footnote
//! part must never serialize with empty content, so rendering an empty
//! footnote emits one synthesized empty paragraph while the stored entity
//! stays untouched.

use vstd::prelude::*;
use crate::build_xml::{BuildXML, children_xml};
use crate::decimal::{dec_str, usize_to_string};
use crate::ids::{FootnoteIdGenerator, issue_step};
use crate::paragraph::{Paragraph, default_paragraph_xml};
use crate::xml_builder::{XmlBuilder, open_tag_attr1_str, end_tag_str};

verus! {

/// A footnote: its identifier and its block-level content.
#[derive(Debug, Clone)]
pub struct Footnote {
    pub id: usize,
    pub content: Vec<Paragraph>,
}

/// An inline reference site's view of a footnote: the same identifier and
/// content, from which a standalone footnote part can be promoted.
#[derive(Debug, Clone)]
pub struct FootnoteReference {
    pub id: usize,
    pub content: Vec<Paragraph>,
}

/// The rendered form of a footnote: a `w:footnote` element carrying the
/// decimal identifier, holding the stored paragraphs in order — or, when no
/// content is stored, exactly one synthesized empty paragraph.
pub open spec fn footnote_xml(f: Footnote) -> Seq<char> {
    open_tag_attr1_str("w:footnote"@, "w:id"@, dec_str(f.id as nat)) + (if f.content@.len() == 0 {
        default_paragraph_xml()
    } else {
        children_xml(f.content@)
    }) + end_tag_str("w:footnote"@)
}

impl Default for Footnote {
    /// The footnote all parts start from: identifier 1, no content.
    fn default() -> (f: Footnote)
        ensures
            f.id == 1,
            f.content@ == Seq::<Paragraph>::empty(),
    {
        Footnote { id: 1, content: Vec::new() }
    }
}

impl Footnote {
    /// A footnote with a freshly issued identifier and empty content. The
    /// identifier source is passed in; keeping one instance process-wide is
    /// the embedding program's concern.
    pub fn new(ids: &mut FootnoteIdGenerator) -> (f: Footnote)
        requires
            old(ids).wf(),
            old(ids).next_id() < usize::MAX,
        ensures
            final(ids).wf(),
            issue_step(*old(ids), *final(ids), f.id),
            !old(ids).issued_ids().contains(f.id),
            f.content@ == Seq::<Paragraph>::empty(),
    {
        Footnote { id: ids.issue(), content: Vec::new() }
    }

    /// The footnote's identifier.
    pub fn id(&self) -> (id: usize)
        ensures
            id == self.id,
    {
        self.id
    }

    /// Appends one paragraph to the content; the returned value is the
    /// authoritative, updated footnote.
    pub fn add_content(self, p: Paragraph) -> (f: Footnote)
        ensures
            f.id == self.id,
            f.content@ == self.content@.push(p),
    {
        let mut content = self.content;
        content.push(p);
        Footnote { id: self.id, content }
    }
}

impl From<FootnoteReference> for Footnote {
    /// Promotes a reference site's inline content into a standalone
    /// footnote, copying identifier and content verbatim.
    fn from(reference: FootnoteReference) -> (f: Footnote) {
        Footnote { id: reference.id, content: reference.content }
    }
}

impl vstd::std_specs::convert::FromSpecImpl<FootnoteReference> for Footnote {
    open spec fn obeys_from_spec() -> bool {
        true
    }

    open spec fn from_spec(reference: FootnoteReference) -> Footnote {
        Footnote { id: reference.id, content: reference.content }
    }
}

impl BuildXML for Footnote {
    open spec fn xml(&self) -> Seq<char> {
        footnote_xml(*self)
    }

    fn build_to(&self, b: XmlBuilder) -> (r: XmlBuilder) {
        let id_str = usize_to_string(self.id);
        let b1 = b.open_el_attr("w:footnote", "w:id", id_str.as_str());
        let b2 = if self.content.len() == 0 {
            let p = Paragraph::new();
            p.build_to(b1)
        } else {
            b1.add_children(&self.content)
        };
        proof {
            assert(b2.open_tags().last() == "w:footnote"@);
        }
        let b3 = b2.close("w:footnote");
        proof {
            assert(b3.open_tags() =~= b.open_tags());
            assert(b3@ =~= b@ + footnote_xml(*self));
        }
        b3
    }

    fn build(&self) -> (s: String) {
        let b = XmlBuilder::new();
        let b = self.build_to(b);
        b.finish()
    }
}

/// Rendering a footnote with stored content emits exactly the stored
/// paragraphs, in order, between the footnote tags: rendering reads the
/// entity through a shared reference and leaves its content unchanged.
pub proof fn lemma_footnote_renders_stored_content(f: Footnote)
    requires
        f.content@.len() > 0,
    ensures
        footnote_xml(f) == open_tag_attr1_str("w:footnote"@, "w:id"@, dec_str(f.id as nat))
            + children_xml(f.content@) + end_tag_str("w:footnote"@),
{
}

/// Rendering a footnote with empty stored content emits exactly one
/// synthesized empty paragraph as its only child, while the entity itself
/// still stores no content.
pub proof fn lemma_empty_footnote_renders_one_paragraph(f: Footnote)
    requires
        f.content@.len() == 0,
    ensures
        footnote_xml(f) == open_tag_attr1_str("w:footnote"@, "w:id"@, dec_str(f.id as nat))
            + default_paragraph_xml() + end_tag_str("w:footnote"@),
{
}

} // verus!
