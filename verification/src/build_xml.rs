//! The serializable-element capability: every document fragment can append
//! itself into a shared XML stream, and its whole rendered form is pinned by
//! the `xml` specification.

use vstd::prelude::*;
use crate::xml_builder::XmlBuilder;

verus! {

/// A document fragment that renders itself into an XML stream.
pub trait BuildXML {
    /// The exact text this fragment appends when rendered.
    spec fn xml(&self) -> Seq<char>;

    /// Appends this fragment to the given stream; the stream grows by
    /// exactly `self.xml()` and keeps its open elements balanced.
    fn build_to(&self, b: XmlBuilder) -> (r: XmlBuilder)
        ensures
            r@ == b@ + self.xml(),
            r.open_tags() == b.open_tags(),
    ;

    /// Renders this fragment alone into a fresh stream and returns the
    /// finished text.
    fn build(&self) -> (s: String)
        ensures
            s@ == self.xml(),
    ;
}

/// The concatenation of the rendered forms of a sequence of fragments, in
/// sequence order.
pub open spec fn children_xml<T: BuildXML>(s: Seq<T>) -> Seq<char>
    decreases s.len(),
{
    if s.len() == 0 {
        Seq::empty()
    } else {
        s.first().xml() + children_xml(s.drop_first())
    }
}

/// Appending one fragment to a sequence appends its rendered form at the
/// end of the concatenation: output order is insertion order.
pub proof fn lemma_children_xml_snoc<T: BuildXML>(s: Seq<T>, x: T)
    ensures
        children_xml(s.push(x)) == children_xml(s) + x.xml(),
    decreases s.len(),
{
    assert(s.push(x)[0] == if s.len() == 0 {
        x
    } else {
        s[0]
    });
    if s.len() == 0 {
        assert(children_xml(Seq::<T>::empty()) =~= Seq::<char>::empty());
        assert(s.push(x).drop_first() =~= Seq::<T>::empty());
        assert(children_xml(s.push(x)) =~= children_xml(s) + x.xml());
    } else {
        lemma_children_xml_snoc(s.drop_first(), x);
        assert(s.push(x).drop_first() =~= s.drop_first().push(x));
        assert(children_xml(s.push(x)) =~= children_xml(s) + x.xml());
    }
}

impl XmlBuilder {
    /// Appends each fragment of the sequence in order.
    pub fn add_children<T: BuildXML>(self, children: &Vec<T>) -> (r: XmlBuilder)
        ensures
            r@ == self@ + children_xml(children@),
            r.open_tags() == self.open_tags(),
    {
        let ghost orig_view = self@;
        let ghost orig_tags = self.open_tags();
        let mut b = self;
        let mut i: usize = 0;
        proof {
            assert(children_xml(children@.take(0int)) =~= Seq::<char>::empty());
            assert(b@ =~= orig_view + children_xml(children@.take(0int)));
        }
        while i < children.len()
            invariant
                i <= children.len(),
                b@ == orig_view + children_xml(children@.take(i as int)),
                b.open_tags() == orig_tags,
            decreases children.len() - i,
        {
            proof {
                assert(children_xml(children@.take(0int)) =~= Seq::<char>::empty());
            }
            b = children[i].build_to(b);
            proof {
                lemma_children_xml_snoc(children@.take(i as int), children@[i as int]);
                assert(children@.take(i as int).push(children@[i as int]) =~= children@.take(
                    i as int + 1,
                ));
                assert(b@ =~= orig_view + children_xml(children@.take(i as int + 1)));
            }
            i = i + 1;
        }
        proof {
            assert(children@.take(children@.len() as int) =~= children@);
            assert(children_xml(children@.take(0int)) =~= Seq::<char>::empty());
            assert(b@ =~= orig_view + children_xml(children@));
        }
        b
    }
}

} // verus!
