//! The relationship table for a header part: an ordered collection of
//! (identifier, target-path) pairs, serialized as one standalone
//! package-relationships XML document.

use vstd::prelude::*;
use vstd::string::*;
use crate::build_xml::BuildXML;
use crate::escape::{escape, escape_text};
use crate::xml_builder::{XmlBuilder, decl_str, open_tag_attr1_str, closed_tag_attr1_str,
    closed_tag_attr3_str, end_tag_str};

verus! {

/// An ordered table of image relationships: insertion order is output
/// order. Identifier uniqueness is the caller's responsibility.
#[derive(Debug, Clone)]
pub struct HeaderRels {
    pub images: Vec<(String, String)>,
}

/// The (identifier, target-path) pairs of the table, as text.
pub open spec fn rels_view(images: Seq<(String, String)>) -> Seq<(Seq<char>, Seq<char>)> {
    images.map_values(|p: (String, String)| (p.0@, p.1@))
}

/// The rendered form of one entry: a `Relationship` element carrying the
/// escaped identifier, the fixed image-relationship type and the escaped
/// target path.
pub open spec fn rel_xml(r: (Seq<char>, Seq<char>)) -> Seq<char> {
    closed_tag_attr3_str(
        "Relationship"@,
        "Id"@,
        escape_text(r.0),
        "Type"@,
        "http://schemas.openxmlformats.org/officeDocument/2006/relationships/image"@,
        "Target"@,
        escape_text(r.1),
    )
}

/// The concatenation of the rendered entries, in table order.
pub open spec fn rels_body(rs: Seq<(Seq<char>, Seq<char>)>) -> Seq<char>
    decreases rs.len(),
{
    if rs.len() == 0 {
        Seq::empty()
    } else {
        rel_xml(rs.first()) + rels_body(rs.drop_first())
    }
}

/// Appending an entry to the table appends its rendered element at the end
/// of the body: the output holds the entries in exactly insertion order.
pub proof fn lemma_rels_body_snoc(rs: Seq<(Seq<char>, Seq<char>)>, r: (Seq<char>, Seq<char>))
    ensures
        rels_body(rs.push(r)) == rels_body(rs) + rel_xml(r),
    decreases rs.len(),
{
    assert(rs.push(r)[0] == if rs.len() == 0 {
        r
    } else {
        rs[0]
    });
    if rs.len() == 0 {
        assert(rels_body(Seq::<(Seq<char>, Seq<char>)>::empty()) =~= Seq::<char>::empty());
        assert(rs.push(r).drop_first() =~= Seq::<(Seq<char>, Seq<char>)>::empty());
        assert(rels_body(rs.push(r)) =~= rels_body(rs) + rel_xml(r));
    } else {
        lemma_rels_body_snoc(rs.drop_first(), r);
        assert(rs.push(r).drop_first() =~= rs.drop_first().push(r));
        assert(rels_body(rs.push(r)) =~= rels_body(rs) + rel_xml(r));
    }
}

/// The rendered form of the whole table: an XML declaration, then the
/// `Relationships` root in the package-relationships namespace holding one
/// `Relationship` element per entry, in stored order. This is a complete,
/// standalone document, not a fragment.
pub open spec fn header_rels_xml(h: HeaderRels) -> Seq<char> {
    decl_str() + (if h.images@.len() == 0 {
        closed_tag_attr1_str(
            "Relationships"@,
            "xmlns"@,
            "http://schemas.openxmlformats.org/package/2006/relationships"@,
        )
    } else {
        open_tag_attr1_str(
            "Relationships"@,
            "xmlns"@,
            "http://schemas.openxmlformats.org/package/2006/relationships"@,
        ) + rels_body(rels_view(h.images@)) + end_tag_str("Relationships"@)
    })
}

impl Default for HeaderRels {
    /// An empty table.
    fn default() -> (h: HeaderRels)
        ensures
            h.images@ == Seq::<(String, String)>::empty(),
    {
        HeaderRels { images: Vec::new() }
    }
}

impl HeaderRels {
    /// An empty table.
    pub fn new() -> (h: HeaderRels)
        ensures
            h.images@ == Seq::<(String, String)>::empty(),
    {
        HeaderRels { images: Vec::new() }
    }

    /// Appends one (identifier, target-path) pair at the end.
    pub fn add_image(self, id: &str, path: &str) -> (h: HeaderRels)
        ensures
            rels_view(h.images@) == rels_view(self.images@).push((id@, path@)),
    {
        let mut images = self.images;
        images.push((String::from_str(id), String::from_str(path)));
        let h = HeaderRels { images };
        proof {
            assert(rels_view(h.images@) =~= rels_view(self.images@).push((id@, path@)));
        }
        h
    }

    /// Replaces the whole entry sequence at once.
    pub fn set_images(&mut self, images: Vec<(String, String)>)
        ensures
            final(self).images@ == images@,
    {
        self.images = images;
    }
}

impl BuildXML for HeaderRels {
    open spec fn xml(&self) -> Seq<char> {
        header_rels_xml(*self)
    }

    fn build_to(&self, b: XmlBuilder) -> (r: XmlBuilder) {
        let b1 = b.declaration();
        if self.images.len() == 0 {
            let r = b1.closed_el_attr1(
                "Relationships",
                "xmlns",
                "http://schemas.openxmlformats.org/package/2006/relationships",
            );
            proof {
                assert(r@ =~= b@ + header_rels_xml(*self));
            }
            r
        } else {
            let mut b2 = b1.open_el_attr(
                "Relationships",
                "xmlns",
                "http://schemas.openxmlformats.org/package/2006/relationships",
            );
            let ghost mid_view = b2@;
            let ghost mid_tags = b2.open_tags();
            let mut i: usize = 0;
            proof {
                assert(rels_body(rels_view(self.images@).take(0int)) =~= Seq::<char>::empty());
                assert(b2@ =~= mid_view + rels_body(rels_view(self.images@).take(0int)));
            }
            while i < self.images.len()
                invariant
                    i <= self.images.len(),
                    b2@ == mid_view + rels_body(rels_view(self.images@).take(i as int)),
                    b2.open_tags() == mid_tags,
                decreases self.images.len() - i,
            {
                let entry = &self.images[i];
                let id_escaped = escape(entry.0.as_str());
                let path_escaped = escape(entry.1.as_str());
                b2 = b2.closed_el_attr3(
                    "Relationship",
                    "Id",
                    id_escaped.as_str(),
                    "Type",
                    "http://schemas.openxmlformats.org/officeDocument/2006/relationships/image",
                    "Target",
                    path_escaped.as_str(),
                );
                proof {
                    lemma_rels_body_snoc(
                        rels_view(self.images@).take(i as int),
                        rels_view(self.images@)[i as int],
                    );
                    assert(rels_view(self.images@).take(i as int).push(
                        rels_view(self.images@)[i as int],
                    ) =~= rels_view(self.images@).take(i as int + 1));
                    assert(b2@ =~= mid_view + rels_body(
                        rels_view(self.images@).take(i as int + 1),
                    ));
                }
                i = i + 1;
            }
            proof {
                assert(rels_view(self.images@).take(self.images@.len() as int) =~= rels_view(
                    self.images@,
                ));
            }
            let r = b2.close("Relationships");
            proof {
                assert(r.open_tags() =~= b.open_tags());
                assert(r@ =~= b@ + header_rels_xml(*self));
            }
            r
        }
    }

    fn build(&self) -> (s: String) {
        let b = XmlBuilder::new();
        let b = self.build_to(b);
        b.finish()
    }
}

} // verus!
