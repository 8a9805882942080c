//! Serialization core for Office-document parts: footnotes, links,
//! compatibility fallback blocks and image-relationship tables render
//! themselves into a shared XML stream with exact, proved output contracts.

pub mod build_xml;
pub mod decimal;
pub mod escape;
pub mod footnote;
pub mod header_rels;
pub mod ids;
pub mod link;
pub mod mc_fallback;
pub mod paragraph;
pub mod xml_builder;

pub use build_xml::BuildXML;
pub use escape::escape;
pub use footnote::Footnote;
pub use footnote::FootnoteReference;
pub use header_rels::HeaderRels;
pub use ids::FootnoteIdGenerator;
pub use link::Link;
pub use mc_fallback::McFallback;
pub use paragraph::Paragraph;
pub use paragraph::Run;
pub use xml_builder::XmlBuilder;
