//! A typed, navigable model of a WSDL (Web Services Description Language)
//! document, built over a plain representation of an already-parsed,
//! namespace-aware XML element tree.
//!
//! The tree itself is the caller's: it hands this library an [`xml::XmlTree`]
//! (elements in document order, each with its parent, tag, attributes and
//! namespace declarations) and receives lightweight entity handles that
//! classify nodes into WSDL concepts, resolve qualified references, and
//! follow cross-references between entities.

pub mod laws;
pub mod qname;
pub mod wsdl;
pub mod xml;

pub use qname::{resolve_qualified, split_qualified, WsExpandedName};
pub use wsdl::{
    WsBinding, WsBindingOperation, WsDefinitions, WsError, WsErrorMalformedType, WsErrorType,
    WsMessage, WsMessagePart, WsPortOperation, WsPortType, WsService, WsServicePort, WsTransport,
    WsTypes,
};
pub use xml::{XmlAttribute, XmlNamespace, XmlNode, XmlTree};
