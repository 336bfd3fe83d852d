//! Tests of qualified-name splitting and scope-sensitive resolution.

use wsdl::{
    resolve_qualified, split_qualified, WsErrorType, XmlNamespace, XmlNode, XmlTree,
};

fn node_with_ns(parent: Option<usize>, decls: &[(Option<&str>, &str)]) -> XmlNode {
    XmlNode {
        parent,
        namespace: None,
        local_name: "element".to_string(),
        attributes: Vec::new(),
        namespaces: decls
            .iter()
            .map(|(p, u)| XmlNamespace { prefix: p.map(|s| s.to_string()), uri: u.to_string() })
            .collect(),
    }
}

#[test]
fn split_prefixed_reference() {
    let (prefix, local) = split_qualified("tns:Foo").unwrap();
    assert_eq!(prefix.as_deref(), Some("tns"));
    assert_eq!(local, "Foo");
}

#[test]
fn split_unprefixed_reference() {
    let (prefix, local) = split_qualified("Foo").unwrap();
    assert_eq!(prefix, None);
    assert_eq!(local, "Foo");
}

#[test]
fn split_empty_prefix_is_malformed() {
    let err = split_qualified(":Foo").unwrap_err();
    assert_eq!(err, WsErrorType::InvalidReference(":Foo".to_string()));
}

#[test]
fn split_empty_local_part_is_malformed() {
    let err = split_qualified("tns:").unwrap_err();
    assert_eq!(err, WsErrorType::InvalidReference("tns:".to_string()));
}

#[test]
fn split_keeps_segment_between_first_two_colons() {
    let (prefix, local) = split_qualified("a:b:c").unwrap();
    assert_eq!(prefix.as_deref(), Some("a"));
    assert_eq!(local, "b");
}

#[test]
fn resolve_bound_prefix_yields_uri_and_local_name() {
    let tree = XmlTree { nodes: vec![node_with_ns(None, &[(Some("tns"), "urn:u")])] };
    let en = resolve_qualified(&tree, 0, "tns:Foo").unwrap();
    assert_eq!(en.namespace.as_deref(), Some("urn:u"));
    assert_eq!(en.name, "Foo");
}

#[test]
fn resolve_unbound_prefix_is_invalid_reference() {
    let tree = XmlTree { nodes: vec![node_with_ns(None, &[])] };
    let err = resolve_qualified(&tree, 0, "tns:Foo").unwrap_err();
    assert_eq!(err, WsErrorType::InvalidReference("tns:Foo".to_string()));
}

#[test]
fn resolve_unprefixed_reference_has_no_namespace() {
    let tree = XmlTree { nodes: vec![node_with_ns(None, &[(None, "urn:default")])] };
    let en = resolve_qualified(&tree, 0, "Foo").unwrap();
    assert_eq!(en.namespace, None);
    assert_eq!(en.name, "Foo");
}

#[test]
fn resolve_uses_innermost_declaration() {
    let tree = XmlTree {
        nodes: vec![
            node_with_ns(None, &[(Some("tns"), "urn:outer")]),
            node_with_ns(Some(0), &[(Some("tns"), "urn:inner")]),
            node_with_ns(Some(1), &[]),
        ],
    };
    let en = resolve_qualified(&tree, 2, "tns:Foo").unwrap();
    assert_eq!(en.namespace.as_deref(), Some("urn:inner"));
    let en = resolve_qualified(&tree, 0, "tns:Foo").unwrap();
    assert_eq!(en.namespace.as_deref(), Some("urn:outer"));
}

#[test]
fn resolve_malformed_reference_is_invalid_reference() {
    let tree = XmlTree { nodes: vec![node_with_ns(None, &[(Some("tns"), "urn:u")])] };
    let err = resolve_qualified(&tree, 0, ":Foo").unwrap_err();
    assert_eq!(err, WsErrorType::InvalidReference(":Foo".to_string()));
}
