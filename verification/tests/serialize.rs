use docx_parts::BuildXML;
use docx_parts::Footnote;
use docx_parts::FootnoteIdGenerator;
use docx_parts::FootnoteReference;
use docx_parts::HeaderRels;
use docx_parts::Link;
use docx_parts::McFallback;
use docx_parts::Paragraph;
use docx_parts::Run;
use docx_parts::XmlBuilder;
use docx_parts::escape;

#[test]
fn test_footnote_build_default() {
    let mut ids = FootnoteIdGenerator::new();
    let b = Footnote::new(&mut ids).build();
    assert_eq!(
        b,
        r#"<w:footnote w:id="1"><w:p w14:paraId="12345678"><w:pPr><w:rPr /></w:pPr></w:p></w:footnote>"#
    );
}

#[test]
fn test_footnote_build_with_paragraph() {
    let mut ids = FootnoteIdGenerator::new();
    let b = Footnote::new(&mut ids)
        .add_content(Paragraph::new().add_run(Run::new().add_text("hello")))
        .build();
    assert_eq!(
        b,
        r#"<w:footnote w:id="1"><w:p w14:paraId="12345678"><w:pPr><w:rPr /></w:pPr><w:r><w:rPr /><w:t xml:space="preserve">hello</w:t></w:r></w:p></w:footnote>"#
    );
}

#[test]
fn footnote_with_two_paragraphs_keeps_order() {
    let b = Footnote::default()
        .add_content(Paragraph::new().add_run(Run::new().add_text("first")))
        .add_content(Paragraph::new().add_run(Run::new().add_text("second")))
        .build();
    assert_eq!(
        b,
        r#"<w:footnote w:id="1"><w:p w14:paraId="12345678"><w:pPr><w:rPr /></w:pPr><w:r><w:rPr /><w:t xml:space="preserve">first</w:t></w:r></w:p><w:p w14:paraId="12345678"><w:pPr><w:rPr /></w:pPr><w:r><w:rPr /><w:t xml:space="preserve">second</w:t></w:r></w:p></w:footnote>"#
    );
}

#[test]
fn footnote_large_id_renders_decimal() {
    let f = Footnote {
        id: 90152,
        content: vec![],
    };
    assert_eq!(f.id(), 90152);
    assert!(f.build().starts_with(r#"<w:footnote w:id="90152">"#));
}

#[test]
fn footnote_maximal_id_renders_all_digits() {
    let f = Footnote {
        id: usize::MAX,
        content: vec![],
    };
    assert!(f
        .build()
        .starts_with(&format!("<w:footnote w:id=\"{}\">", usize::MAX)));
}

#[test]
fn empty_run_renders_empty_text_element() {
    let b = Paragraph::new().add_run(Run::new()).build();
    assert_eq!(
        b,
        r#"<w:p w14:paraId="12345678"><w:pPr><w:rPr /></w:pPr><w:r><w:rPr /><w:t xml:space="preserve"></w:t></w:r></w:p>"#
    );
}

#[test]
fn footnote_from_reference_copies_fields() {
    let reference = FootnoteReference {
        id: 7,
        content: vec![Paragraph::new().add_run(Run::new().add_text("note"))],
    };
    let f = Footnote::from(reference);
    assert_eq!(f.id(), 7);
    assert_eq!(
        f.build(),
        r#"<w:footnote w:id="7"><w:p w14:paraId="12345678"><w:pPr><w:rPr /></w:pPr><w:r><w:rPr /><w:t xml:space="preserve">note</w:t></w:r></w:p></w:footnote>"#
    );
}

#[test]
fn link_renders_escaped_not_raw() {
    let out = Link::new("a&b").build();
    assert_eq!(out, r#"<w:link>a&amp;b</w:link>"#);
    assert!(out.contains("a&amp;b"));
    assert!(!out.contains("a&b<"));
}

#[test]
fn link_plain_string_is_escaped_once() {
    let l = Link::new("a<b");
    assert_eq!(l.plain_string(), "a&lt;b");
}

#[test]
fn escape_expands_all_special_characters() {
    assert_eq!(escape(r#"a&b<c>d"e'f"#), "a&amp;b&lt;c&gt;d&quot;e&apos;f");
    assert_eq!(escape("plain"), "plain");
    assert_eq!(escape(""), "");
}

#[test]
fn mc_fallback_renders_nothing() {
    assert_eq!(McFallback::new().build(), "");
    let before = XmlBuilder::new().open_el("w:tc");
    let after = McFallback::new().build_to(before);
    assert_eq!(after.close("w:tc").finish(), "<w:tc></w:tc>");
}

#[test]
fn header_rels_build_one_image() {
    let b = HeaderRels::new()
        .add_image("rId1", "media/image1.png")
        .build();
    assert_eq!(
        b,
        r#"<?xml version="1.0" encoding="UTF-8"?><Relationships xmlns="http://schemas.openxmlformats.org/package/2006/relationships"><Relationship Id="rId1" Type="http://schemas.openxmlformats.org/officeDocument/2006/relationships/image" Target="media/image1.png" /></Relationships>"#
    );
}

#[test]
fn header_rels_build_empty() {
    assert_eq!(
        HeaderRels::new().build(),
        r#"<?xml version="1.0" encoding="UTF-8"?><Relationships xmlns="http://schemas.openxmlformats.org/package/2006/relationships" />"#
    );
}

#[test]
fn header_rels_keeps_insertion_order() {
    let b = HeaderRels::new()
        .add_image("rIdA", "media/a.png")
        .add_image("rIdB", "media/b.png")
        .add_image("rIdC", "media/c.png")
        .build();
    let pos_a = b.find(r#"Id="rIdA""#).unwrap();
    let pos_b = b.find(r#"Id="rIdB""#).unwrap();
    let pos_c = b.find(r#"Id="rIdC""#).unwrap();
    assert!(pos_a < pos_b && pos_b < pos_c);
    assert!(b.contains(r#"<Relationship Id="rIdA" Type="http://schemas.openxmlformats.org/officeDocument/2006/relationships/image" Target="media/a.png" />"#));
    assert!(b.contains(r#"Target="media/b.png""#));
    assert!(b.contains(r#"Target="media/c.png""#));
}

#[test]
fn header_rels_escapes_attribute_values() {
    let b = HeaderRels::new().add_image("r<1", "a&b.png").build();
    assert!(b.contains(r#"Id="r&lt;1""#));
    assert!(b.contains(r#"Target="a&amp;b.png""#));
}

#[test]
fn header_rels_set_images_replaces_entries() {
    let mut h = HeaderRels::new().add_image("old", "old.png");
    h.set_images(vec![("rId9".to_string(), "media/image9.png".to_string())]);
    let b = h.build();
    assert!(!b.contains("old.png"));
    assert!(b.contains(r#"<Relationship Id="rId9" "#));
}

#[test]
fn footnote_default_has_id_one_and_no_content() {
    let f = Footnote::default();
    assert_eq!(f.id(), 1);
    assert_eq!(f.content.len(), 0);
}

#[test]
fn id_generator_never_repeats() {
    let mut g = FootnoteIdGenerator::new();
    let a = g.issue();
    let b = g.issue();
    let c = g.issue();
    assert_eq!(a, 1);
    assert!(a != b && b != c && a != c);
}

#[test]
fn builder_composes_elements_and_text() {
    let out = XmlBuilder::new()
        .declaration()
        .open_el_attr("w:p", "w14:paraId", "0a1b2c3d")
        .text("body")
        .close("w:p")
        .finish();
    assert_eq!(
        out,
        r#"<?xml version="1.0" encoding="UTF-8"?><w:p w14:paraId="0a1b2c3d">body</w:p>"#
    );
}
