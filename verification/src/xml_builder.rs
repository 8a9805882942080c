//! The XML stream builder: a stateful writer that appends tagged elements,
//! attributes and text to an in-memory buffer. The buffer's contents are the
//! builder's view; a ghost stack of open element names makes tag balance a
//! verified property instead of a run-time error path.

use vstd::prelude::*;
use vstd::string::*;

verus! {

/// The text of an opening tag without attributes: `<name>`.
pub open spec fn open_tag_str(name: Seq<char>) -> Seq<char> {
    "<"@ + name + ">"@
}

/// The text of an opening tag with one attribute: `<name key="val">`.
pub open spec fn open_tag_attr1_str(name: Seq<char>, key: Seq<char>, val: Seq<char>) -> Seq<
    char,
> {
    "<"@ + name + " "@ + key + "=\""@ + val + "\">"@
}

/// The text of a self-closed tag without attributes: `<name />`.
pub open spec fn closed_tag_str(name: Seq<char>) -> Seq<char> {
    "<"@ + name + " />"@
}

/// The text of a self-closed tag with one attribute: `<name key="val" />`.
pub open spec fn closed_tag_attr1_str(name: Seq<char>, key: Seq<char>, val: Seq<char>) -> Seq<
    char,
> {
    "<"@ + name + " "@ + key + "=\""@ + val + "\" />"@
}

/// The text of a self-closed tag with three attributes:
/// `<name k1="v1" k2="v2" k3="v3" />`.
pub open spec fn closed_tag_attr3_str(
    name: Seq<char>,
    k1: Seq<char>,
    v1: Seq<char>,
    k2: Seq<char>,
    v2: Seq<char>,
    k3: Seq<char>,
    v3: Seq<char>,
) -> Seq<char> {
    "<"@ + name + " "@ + k1 + "=\""@ + v1 + "\" "@ + k2 + "=\""@ + v2 + "\" "@ + k3 + "=\""@ + v3
        + "\" />"@
}

/// The text of a closing tag: `</name>`.
pub open spec fn end_tag_str(name: Seq<char>) -> Seq<char> {
    "</"@ + name + ">"@
}

/// The text of the XML declaration that precedes a standalone document.
pub open spec fn decl_str() -> Seq<char> {
    "<?xml version=\"1.0\" encoding=\"UTF-8\"?>"@
}

/// A writer that accumulates one XML byte stream. Attribute values and text
/// are appended exactly as given: callers escape raw text first (see
/// `crate::escape`), so that escaping happens exactly once.
pub struct XmlBuilder {
    buf: String,
    open: Ghost<Seq<Seq<char>>>,
}

impl View for XmlBuilder {
    type V = Seq<char>;

    /// The stream contents written so far.
    closed spec fn view(&self) -> Seq<char> {
        self.buf@
    }
}

impl XmlBuilder {
    /// The names of the elements opened and not yet closed, outermost first.
    pub closed spec fn open_tags(&self) -> Seq<Seq<char>> {
        self.open@
    }

    /// A fresh builder with an empty stream and no open elements.
    pub fn new() -> (b: XmlBuilder)
        ensures
            b@ == Seq::<char>::empty(),
            b.open_tags() == Seq::<Seq<char>>::empty(),
    {
        XmlBuilder { buf: String::new(), open: Ghost(Seq::empty()) }
    }

    /// Appends the XML declaration.
    pub fn declaration(self) -> (r: XmlBuilder)
        ensures
            r@ == self@ + decl_str(),
            r.open_tags() == self.open_tags(),
    {
        let XmlBuilder { mut buf, open } = self;
        buf.append("<?xml version=\"1.0\" encoding=\"UTF-8\"?>");
        XmlBuilder { buf, open }
    }

    /// Opens an element without attributes.
    pub fn open_el(self, name: &str) -> (r: XmlBuilder)
        ensures
            r@ == self@ + open_tag_str(name@),
            r.open_tags() == self.open_tags().push(name@),
    {
        let XmlBuilder { mut buf, open } = self;
        buf.append("<");
        buf.append(name);
        buf.append(">");
        let r = XmlBuilder { buf, open: Ghost(open@.push(name@)) };
        proof {
            assert(r@ =~= self@ + open_tag_str(name@));
        }
        r
    }

    /// Opens an element with one attribute, the value appended verbatim.
    pub fn open_el_attr(self, name: &str, key: &str, val: &str) -> (r: XmlBuilder)
        ensures
            r@ == self@ + open_tag_attr1_str(name@, key@, val@),
            r.open_tags() == self.open_tags().push(name@),
    {
        let XmlBuilder { mut buf, open } = self;
        buf.append("<");
        buf.append(name);
        buf.append(" ");
        buf.append(key);
        buf.append("=\"");
        buf.append(val);
        buf.append("\">");
        let r = XmlBuilder { buf, open: Ghost(open@.push(name@)) };
        proof {
            assert(r@ =~= self@ + open_tag_attr1_str(name@, key@, val@));
        }
        r
    }

    /// Appends a self-closed, attribute-free element.
    pub fn closed_el(self, name: &str) -> (r: XmlBuilder)
        ensures
            r@ == self@ + closed_tag_str(name@),
            r.open_tags() == self.open_tags(),
    {
        let XmlBuilder { mut buf, open } = self;
        buf.append("<");
        buf.append(name);
        buf.append(" />");
        let r = XmlBuilder { buf, open };
        proof {
            assert(r@ =~= self@ + closed_tag_str(name@));
        }
        r
    }

    /// Appends a self-closed element with one attribute, the value verbatim.
    pub fn closed_el_attr1(self, name: &str, key: &str, val: &str) -> (r: XmlBuilder)
        ensures
            r@ == self@ + closed_tag_attr1_str(name@, key@, val@),
            r.open_tags() == self.open_tags(),
    {
        let XmlBuilder { mut buf, open } = self;
        buf.append("<");
        buf.append(name);
        buf.append(" ");
        buf.append(key);
        buf.append("=\"");
        buf.append(val);
        buf.append("\" />");
        let r = XmlBuilder { buf, open };
        proof {
            assert(r@ =~= self@ + closed_tag_attr1_str(name@, key@, val@));
        }
        r
    }

    /// Appends a self-closed element with three attributes, values verbatim.
    pub fn closed_el_attr3(
        self,
        name: &str,
        k1: &str,
        v1: &str,
        k2: &str,
        v2: &str,
        k3: &str,
        v3: &str,
    ) -> (r: XmlBuilder)
        ensures
            r@ == self@ + closed_tag_attr3_str(name@, k1@, v1@, k2@, v2@, k3@, v3@),
            r.open_tags() == self.open_tags(),
    {
        let XmlBuilder { mut buf, open } = self;
        buf.append("<");
        buf.append(name);
        buf.append(" ");
        buf.append(k1);
        buf.append("=\"");
        buf.append(v1);
        buf.append("\" ");
        buf.append(k2);
        buf.append("=\"");
        buf.append(v2);
        buf.append("\" ");
        buf.append(k3);
        buf.append("=\"");
        buf.append(v3);
        buf.append("\" />");
        let r = XmlBuilder { buf, open };
        proof {
            assert(r@ =~= self@ + closed_tag_attr3_str(name@, k1@, v1@, k2@, v2@, k3@, v3@));
        }
        r
    }

    /// Appends text verbatim: the caller supplies XML-safe text, escaped
    /// exactly once at its source.
    pub fn text(self, s: &str) -> (r: XmlBuilder)
        ensures
            r@ == self@ + s@,
            r.open_tags() == self.open_tags(),
    {
        let XmlBuilder { mut buf, open } = self;
        buf.append(s);
        XmlBuilder { buf, open }
    }

    /// Closes the innermost open element, which must be the named one: tag
    /// balance is checked by proof, not at run time.
    pub fn close(self, name: &str) -> (r: XmlBuilder)
        requires
            self.open_tags().len() > 0,
            self.open_tags().last() == name@,
        ensures
            r@ == self@ + end_tag_str(name@),
            r.open_tags() == self.open_tags().drop_last(),
    {
        let XmlBuilder { mut buf, open } = self;
        buf.append("</");
        buf.append(name);
        buf.append(">");
        let r = XmlBuilder { buf, open: Ghost(open@.drop_last()) };
        proof {
            assert(r@ =~= self@ + end_tag_str(name@));
        }
        r
    }

    /// Recovers the finished stream; every opened element must be closed.
    pub fn finish(self) -> (s: String)
        requires
            self.open_tags().len() == 0,
        ensures
            s@ == self@,
    {
        self.buf
    }
}

} // verus!
