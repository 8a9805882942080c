//! The compatibility fallback block: a structural placeholder whose
//! serialization is, by design, a permanent no-op.

use vstd::prelude::*;
use crate::build_xml::BuildXML;
use crate::xml_builder::XmlBuilder;

verus! {

/// A marker entity with no payload, standing where a compatibility
/// fallback branch is intentionally suppressed.
#[derive(Debug, Clone)]
pub struct McFallback {}

impl McFallback {
    /// The one fallback value.
    pub fn new() -> (m: McFallback)
        ensures
            m.xml() == Seq::<char>::empty(),
    {
        McFallback {  }
    }
}

impl Default for McFallback {
    /// The one fallback value.
    fn default() -> (m: McFallback)
        ensures
            m.xml() == Seq::<char>::empty(),
    {
        McFallback {  }
    }
}

impl BuildXML for McFallback {
    open spec fn xml(&self) -> Seq<char> {
        Seq::empty()
    }

    fn build_to(&self, b: XmlBuilder) -> (r: XmlBuilder) {
        proof {
            assert(b@ + Seq::<char>::empty() =~= b@);
        }
        b
    }

    fn build(&self) -> (s: String) {
        let b = XmlBuilder::new();
        let b = self.build_to(b);
        b.finish()
    }
}

/// Rendering a fallback block appends nothing: whatever the stream held
/// before, it holds exactly that afterwards.
pub proof fn lemma_fallback_renders_nothing(m: McFallback, stream: Seq<char>)
    ensures
        stream + m.xml() == stream,
{
    assert(stream + m.xml() =~= stream);
}

} // verus!
