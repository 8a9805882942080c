//! The link element: a leaf that stores its value already escaped —
//! escaping happens exactly once, at construction, never at render time.

use vstd::prelude::*;
use vstd::string::*;
use crate::build_xml::BuildXML;
use crate::escape::{escape, escape_text};
use crate::xml_builder::{XmlBuilder, open_tag_str, end_tag_str};

verus! {

/// A link value; the view is the stored, XML-safe text.
#[derive(Debug, Clone)]
pub struct Link {
    val: String,
}

impl View for Link {
    type V = Seq<char>;

    closed spec fn view(&self) -> Seq<char> {
        self.val@
    }
}

/// The rendered form of a link: one element whose payload is the stored
/// escaped value, with no child structure.
pub open spec fn link_xml(l: Link) -> Seq<char> {
    open_tag_str("w:link"@) + l@ + end_tag_str("w:link"@)
}

impl Link {
    /// Builds a link from raw text, escaping it here, and only here.
    pub fn new(raw: &str) -> (l: Link)
        ensures
            l@ == escape_text(raw@),
    {
        Link { val: escape(raw) }
    }

    /// The stored value as a plain string: how a link projects into
    /// non-XML representations such as a structured debug view.
    pub fn plain_string(&self) -> (s: String)
        ensures
            s@ == self@,
    {
        self.val.clone()
    }
}

impl BuildXML for Link {
    open spec fn xml(&self) -> Seq<char> {
        link_xml(*self)
    }

    fn build_to(&self, b: XmlBuilder) -> (r: XmlBuilder) {
        let b1 = b.open_el("w:link");
        let b2 = b1.text(self.val.as_str());
        proof {
            assert(b2.open_tags().last() == "w:link"@);
        }
        let b3 = b2.close("w:link");
        proof {
            assert(b3.open_tags() =~= b.open_tags());
            assert(b3@ =~= b@ + link_xml(*self));
        }
        b3
    }

    fn build(&self) -> (s: String) {
        let b = XmlBuilder::new();
        let b = self.build_to(b);
        b.finish()
    }
}

/// A link built from raw text renders the escaped form of that text as its
/// payload — and, wherever escaping changed the text, the payload differs
/// from the raw form.
pub proof fn lemma_link_renders_escaped(raw: Seq<char>, l: Link)
    requires
        l@ == escape_text(raw),
    ensures
        link_xml(l).subrange(
            open_tag_str("w:link"@).len() as int,
            open_tag_str("w:link"@).len() + l@.len() as int,
        ) == escape_text(raw),
        escape_text(raw) != raw ==> link_xml(l).subrange(
            open_tag_str("w:link"@).len() as int,
            open_tag_str("w:link"@).len() + l@.len() as int,
        ) != raw,
{
    assert(link_xml(l).subrange(
        open_tag_str("w:link"@).len() as int,
        open_tag_str("w:link"@).len() + l@.len() as int,
    ) =~= l@);
}

} // verus!
