//! The library renders XML with its own verified stream builder. These
//! tests pin that builder's byte stream against the output of the `xml`
//! crate's event writer driven with the same events, so the wire format
//! stays interchangeable with an event-writer-based producer.

use docx_parts::BuildXML;
use docx_parts::Footnote;
use docx_parts::HeaderRels;
use docx_parts::Paragraph;
use docx_parts::Run;

use xml::common::XmlVersion;
use xml::writer::{EmitterConfig, XmlEvent};

const RELS_NS: &str = "http://schemas.openxmlformats.org/package/2006/relationships";
const IMAGE_TYPE: &str =
    "http://schemas.openxmlformats.org/officeDocument/2006/relationships/image";

#[test]
fn header_rels_matches_event_writer_output() {
    let mut target: Vec<u8> = Vec::new();
    {
        let mut writer = EmitterConfig::new()
            .write_document_declaration(false)
            .create_writer(&mut target);
        writer
            .write(XmlEvent::StartDocument {
                version: XmlVersion::Version10,
                encoding: Some("UTF-8"),
                standalone: None,
            })
            .unwrap();
        writer
            .write(XmlEvent::start_element("Relationships").attr("xmlns", RELS_NS))
            .unwrap();
        writer
            .write(
                XmlEvent::start_element("Relationship")
                    .attr("Id", "rId1")
                    .attr("Type", IMAGE_TYPE)
                    .attr("Target", "media/image1.png"),
            )
            .unwrap();
        writer.write(XmlEvent::end_element()).unwrap();
        writer.write(XmlEvent::end_element()).unwrap();
    }
    let expected = String::from_utf8(target).unwrap();
    let built = HeaderRels::new().add_image("rId1", "media/image1.png").build();
    assert_eq!(built, expected);
}

#[test]
fn footnote_matches_event_writer_output() {
    let mut target: Vec<u8> = Vec::new();
    {
        let mut writer = EmitterConfig::new()
            .write_document_declaration(false)
            .create_writer(&mut target);
        writer
            .write(XmlEvent::start_element("w:footnote").attr("w:id", "1"))
            .unwrap();
        writer
            .write(XmlEvent::start_element("w:p").attr("w14:paraId", "12345678"))
            .unwrap();
        writer.write(XmlEvent::start_element("w:pPr")).unwrap();
        writer.write(XmlEvent::start_element("w:rPr")).unwrap();
        writer.write(XmlEvent::end_element()).unwrap();
        writer.write(XmlEvent::end_element()).unwrap();
        writer.write(XmlEvent::start_element("w:r")).unwrap();
        writer.write(XmlEvent::start_element("w:rPr")).unwrap();
        writer.write(XmlEvent::end_element()).unwrap();
        writer
            .write(XmlEvent::start_element("w:t").attr("xml:space", "preserve"))
            .unwrap();
        writer.write(XmlEvent::characters("hello")).unwrap();
        writer.write(XmlEvent::end_element()).unwrap();
        writer.write(XmlEvent::end_element()).unwrap();
        writer.write(XmlEvent::end_element()).unwrap();
        writer.write(XmlEvent::end_element()).unwrap();
    }
    let expected = String::from_utf8(target).unwrap();
    let built = Footnote::default()
        .add_content(Paragraph::new().add_run(Run::new().add_text("hello")))
        .build();
    assert_eq!(built, expected);
}

#[test]
fn footnote_render_does_not_mutate_the_entity() {
    let empty = Footnote::default();
    let rendered = empty.build();
    assert_eq!(empty.content.len(), 0);
    assert!(rendered.contains("<w:p "));

    let one = Footnote::default().add_content(Paragraph::new());
    let _ = one.build();
    assert_eq!(one.content.len(), 1);
}
