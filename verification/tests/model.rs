//! End-to-end tests of the WSDL model over hand-built XML trees.

use wsdl::{
    WsBinding, WsBindingOperation, WsDefinitions, WsError, WsErrorMalformedType, WsErrorType,
    WsMessagePart, WsPortOperation, WsPortType, WsTransport, XmlAttribute, XmlNamespace, XmlNode,
    XmlTree,
};

const WSDL_NS: &str = "http://schemas.xmlsoap.org/wsdl/";
const XSD_NS: &str = "http://www.w3.org/2001/XMLSchema";
const SOAP11_NS: &str = "http://schemas.xmlsoap.org/wsdl/soap/";
const SOAP12_NS: &str = "http://schemas.xmlsoap.org/wsdl/soap12/";
const HTTP_NS: &str = "http://schemas.xmlsoap.org/wsdl/http/";

fn elem(parent: Option<usize>, ns: Option<&str>, local: &str) -> XmlNode {
    XmlNode {
        parent,
        namespace: ns.map(|s| s.to_string()),
        local_name: local.to_string(),
        attributes: Vec::new(),
        namespaces: Vec::new(),
    }
}

fn attrs(mut node: XmlNode, pairs: &[(&str, &str)]) -> XmlNode {
    node.attributes = pairs
        .iter()
        .map(|(k, v)| XmlAttribute { name: k.to_string(), value: v.to_string() })
        .collect();
    node
}

fn ns_decls(mut node: XmlNode, decls: &[(Option<&str>, &str)]) -> XmlNode {
    node.namespaces = decls
        .iter()
        .map(|(p, u)| XmlNamespace { prefix: p.map(|s| s.to_string()), uri: u.to_string() })
        .collect();
    node
}

/// A small weather service document:
///   0 definitions (targetNamespace=urn:weather; xmlns:tns, xmlns:xsd)
///   1   message GetWeatherRequest
///   2     part ZIP type=xsd:string
///   3   message GetWeatherResponse
///   4   portType WeatherPort
///   5     operation GetWeather
///   6       input message=tns:GetWeatherRequest
///   7       output message=tns:GetWeatherResponse
///   8   binding WeatherBinding type=tns:WeatherPort
///   9     operation GetWeather
///  10       (soap 1.1) operation soapAction=urn:Foo
///  11   service WeatherService
///  12     port WeatherPortEndpoint binding=tns:WeatherBinding
///  13   types
///  14     (xsd) schema
fn weather_tree() -> XmlTree {
    XmlTree {
        nodes: vec![
            ns_decls(
                attrs(elem(None, Some(WSDL_NS), "definitions"), &[(
                    "targetNamespace",
                    "urn:weather",
                )]),
                &[(Some("tns"), "urn:weather"), (Some("xsd"), XSD_NS)],
            ),
            attrs(elem(Some(0), Some(WSDL_NS), "message"), &[("name", "GetWeatherRequest")]),
            attrs(elem(Some(1), Some(WSDL_NS), "part"), &[("name", "ZIP"), ("type", "xsd:string")]),
            attrs(elem(Some(0), Some(WSDL_NS), "message"), &[("name", "GetWeatherResponse")]),
            attrs(elem(Some(0), Some(WSDL_NS), "portType"), &[("name", "WeatherPort")]),
            attrs(elem(Some(4), Some(WSDL_NS), "operation"), &[("name", "GetWeather")]),
            attrs(elem(Some(5), Some(WSDL_NS), "input"), &[("message", "tns:GetWeatherRequest")]),
            attrs(elem(Some(5), Some(WSDL_NS), "output"), &[("message", "tns:GetWeatherResponse")]),
            attrs(elem(Some(0), Some(WSDL_NS), "binding"), &[
                ("name", "WeatherBinding"),
                ("type", "tns:WeatherPort"),
            ]),
            attrs(elem(Some(8), Some(WSDL_NS), "operation"), &[("name", "GetWeather")]),
            attrs(elem(Some(9), Some(SOAP11_NS), "operation"), &[("soapAction", "urn:Foo")]),
            attrs(elem(Some(0), Some(WSDL_NS), "service"), &[("name", "WeatherService")]),
            attrs(elem(Some(11), Some(WSDL_NS), "port"), &[
                ("name", "WeatherPortEndpoint"),
                ("binding", "tns:WeatherBinding"),
            ]),
            elem(Some(0), Some(WSDL_NS), "types"),
            elem(Some(13), Some(XSD_NS), "schema"),
        ],
    }
}

fn definitions(tree: &XmlTree) -> WsDefinitions {
    WsDefinitions::from_document(tree).expect("document should hold a definitions element")
}

#[test]
fn from_document_finds_definitions() {
    let tree = weather_tree();
    let def = definitions(&tree);
    assert_eq!(def.node(), 0);
}

#[test]
fn from_document_without_definitions_is_missing_element() {
    let tree = XmlTree { nodes: vec![elem(None, Some(WSDL_NS), "message")] };
    let err = WsDefinitions::from_document(&tree).unwrap_err();
    assert_eq!(
        err,
        WsError(
            0,
            WsErrorType::MalformedWsdl(WsErrorMalformedType::MissingElement(
                "definitions".to_string()
            ))
        )
    );
}

#[test]
fn from_node_accepts_only_definitions() {
    let tree = weather_tree();
    assert_eq!(WsDefinitions::from_node(&tree, 0).unwrap().node(), 0);
    let err = WsDefinitions::from_node(&tree, 1).unwrap_err();
    assert!(matches!(
        err.1,
        WsErrorType::MalformedWsdl(WsErrorMalformedType::MissingElement(ref s)) if s == "definitions"
    ));
    assert_eq!(err.0, 1);
}

#[test]
fn name_returns_attribute_verbatim() {
    let mut tree = weather_tree();
    // A name with leading and trailing spaces must come back untrimmed.
    tree.nodes[11].attributes[0].value = "  Weather Service ".to_string();
    let def = definitions(&tree);
    let services = def.services(&tree).unwrap();
    assert_eq!(services.len(), 1);
    assert_eq!(services[0].name(&tree).unwrap(), "  Weather Service ");
}

#[test]
fn name_missing_is_an_error_at_the_node() {
    let mut tree = weather_tree();
    tree.nodes[11].attributes.clear();
    let def = definitions(&tree);
    let services = def.services(&tree).unwrap();
    let err = services[0].name(&tree).unwrap_err();
    assert_eq!(
        err,
        WsError(
            11,
            WsErrorType::MalformedWsdl(WsErrorMalformedType::MissingAttribute("name".to_string()))
        )
    );
}

#[test]
fn collections_preserve_document_order() {
    let tree = weather_tree();
    let def = definitions(&tree);
    let messages = def.messages(&tree).unwrap();
    let names: Vec<String> = messages.iter().map(|m| m.name(&tree).unwrap()).collect();
    assert_eq!(names, vec!["GetWeatherRequest".to_string(), "GetWeatherResponse".to_string()]);
    assert_eq!(def.port_types(&tree).unwrap().len(), 1);
    assert_eq!(def.bindings(&tree).unwrap().len(), 1);
    assert_eq!(def.services(&tree).unwrap().len(), 1);
}

#[test]
fn collection_accessors_are_idempotent() {
    let tree = weather_tree();
    let def = definitions(&tree);
    assert_eq!(def.services(&tree).unwrap(), def.services(&tree).unwrap());
    assert_eq!(def.messages(&tree).unwrap(), def.messages(&tree).unwrap());
    assert_eq!(def.bindings(&tree).unwrap(), def.bindings(&tree).unwrap());
    assert_eq!(def.port_types(&tree).unwrap(), def.port_types(&tree).unwrap());
    let pt = def.port_types(&tree).unwrap()[0];
    assert_eq!(pt.operations(&tree).unwrap(), pt.operations(&tree).unwrap());
}

#[test]
fn message_parts_scenario() {
    let tree = weather_tree();
    let def = definitions(&tree);
    let message = def.messages(&tree).unwrap()[0];
    assert_eq!(message.name(&tree).unwrap(), "GetWeatherRequest");
    let parts: Vec<WsMessagePart> = message.parts(&tree);
    assert_eq!(parts.len(), 1);
    assert_eq!(parts[0].name(&tree).unwrap(), "ZIP");
    let tn = parts[0].typename(&tree).unwrap();
    assert_eq!(tn.name, "string");
    assert_eq!(tn.namespace.as_deref(), Some(XSD_NS));
}

#[test]
fn typename_missing_both_attributes() {
    let mut tree = weather_tree();
    tree.nodes[2].attributes.retain(|a| a.name == "name");
    let part = WsMessagePart { node: 2 };
    let err = part.typename(&tree).unwrap_err();
    assert_eq!(
        err,
        WsError(
            2,
            WsErrorType::MalformedWsdl(WsErrorMalformedType::MissingAttribute("type".to_string()))
        )
    );
}

#[test]
fn typename_prefers_element_attribute() {
    let mut tree = weather_tree();
    tree.nodes[2].attributes.push(XmlAttribute {
        name: "element".to_string(),
        value: "tns:ZipElement".to_string(),
    });
    let part = WsMessagePart { node: 2 };
    let tn = part.typename(&tree).unwrap();
    assert_eq!(tn.name, "ZipElement");
    assert_eq!(tn.namespace.as_deref(), Some("urn:weather"));
}

#[test]
fn target_namespace_from_nearest_ancestor() {
    let tree = weather_tree();
    let def = definitions(&tree);
    let pt = def.port_types(&tree).unwrap()[0];
    assert_eq!(pt.target_namespace(&tree).unwrap(), "urn:weather");
}

#[test]
fn target_namespace_across_many_levels() {
    // definitions -> wrapper -> wrapper -> portType; only the root declares it.
    let tree = XmlTree {
        nodes: vec![
            attrs(elem(None, Some(WSDL_NS), "definitions"), &[("targetNamespace", "urn:deep")]),
            elem(Some(0), Some(WSDL_NS), "wrapper"),
            elem(Some(1), Some(WSDL_NS), "wrapper"),
            attrs(elem(Some(2), Some(WSDL_NS), "portType"), &[("name", "Deep")]),
        ],
    };
    let pt = WsPortType { node: 3 };
    assert_eq!(pt.target_namespace(&tree).unwrap(), "urn:deep");
}

#[test]
fn target_namespace_nearest_declaration_wins() {
    let tree = XmlTree {
        nodes: vec![
            attrs(elem(None, Some(WSDL_NS), "definitions"), &[("targetNamespace", "urn:outer")]),
            attrs(elem(Some(0), Some(WSDL_NS), "wrapper"), &[("targetNamespace", "urn:inner")]),
            attrs(elem(Some(1), Some(WSDL_NS), "portType"), &[("name", "Deep")]),
        ],
    };
    let pt = WsPortType { node: 2 };
    assert_eq!(pt.target_namespace(&tree).unwrap(), "urn:inner");
}

#[test]
fn target_namespace_missing_reports_call_site_node() {
    let tree = XmlTree {
        nodes: vec![
            elem(None, Some(WSDL_NS), "definitions"),
            attrs(elem(Some(0), Some(WSDL_NS), "portType"), &[("name", "Bare")]),
        ],
    };
    let pt = WsPortType { node: 1 };
    let err = pt.target_namespace(&tree).unwrap_err();
    assert_eq!(
        err,
        WsError(
            1,
            WsErrorType::MalformedWsdl(WsErrorMalformedType::MissingAttribute(
                "targetNamespace".to_string()
            ))
        )
    );
}

#[test]
fn binding_resolves_port_type_and_finds_operation() {
    let tree = weather_tree();
    let def = definitions(&tree);
    let binding = def.bindings(&tree).unwrap()[0];
    let pt = binding.port_type(&tree).unwrap();
    assert_eq!(pt.name(&tree).unwrap(), "WeatherPort");
    let ops = pt.operations(&tree).unwrap();
    assert_eq!(ops.len(), 1);
    assert_eq!(ops[0].name(&tree).unwrap(), "GetWeather");
}

#[test]
fn binding_missing_type_attribute() {
    let mut tree = weather_tree();
    tree.nodes[8].attributes.retain(|a| a.name == "name");
    let binding = WsBinding { node: 8 };
    let err = binding.port_type(&tree).unwrap_err();
    assert_eq!(
        err,
        WsError(
            8,
            WsErrorType::MalformedWsdl(WsErrorMalformedType::MissingAttribute("type".to_string()))
        )
    );
}

#[test]
fn binding_unresolvable_type_is_invalid_reference() {
    let mut tree = weather_tree();
    tree.nodes[8].attributes[1].value = "tns:NoSuchPort".to_string();
    let binding = WsBinding { node: 8 };
    let err = binding.port_type(&tree).unwrap_err();
    assert_eq!(err, WsError(8, WsErrorType::InvalidReference("NoSuchPort".to_string())));
}

#[test]
fn service_port_resolves_binding() {
    let tree = weather_tree();
    let def = definitions(&tree);
    let service = def.services(&tree).unwrap()[0];
    let ports = service.ports(&tree).unwrap();
    assert_eq!(ports.len(), 1);
    assert_eq!(ports[0].name(&tree).unwrap(), "WeatherPortEndpoint");
    let binding = ports[0].binding(&tree).unwrap();
    assert_eq!(binding.name(&tree).unwrap(), "WeatherBinding");
}

#[test]
fn service_port_unresolvable_binding() {
    let mut tree = weather_tree();
    tree.nodes[12].attributes[1].value = "tns:Gone".to_string();
    let def = definitions(&tree);
    let port = def.services(&tree).unwrap()[0].ports(&tree).unwrap()[0];
    let err = port.binding(&tree).unwrap_err();
    assert_eq!(err, WsError(12, WsErrorType::InvalidReference("Gone".to_string())));
}

#[test]
fn binding_operation_maps_back_to_port_operation() {
    let tree = weather_tree();
    let def = definitions(&tree);
    let binding = def.bindings(&tree).unwrap()[0];
    let bops = binding.operations(&tree).unwrap();
    assert_eq!(bops.len(), 1);
    let op = bops[0].port_operation(&tree).unwrap();
    assert_eq!(op.node(), 5);
    assert_eq!(op.name(&tree).unwrap(), "GetWeather");
}

#[test]
fn binding_operation_without_match_is_missing_element() {
    let mut tree = weather_tree();
    tree.nodes[9].attributes[0].value = "Other".to_string();
    let bop = WsBindingOperation { node: 9 };
    let err = bop.port_operation(&tree).unwrap_err();
    assert_eq!(
        err,
        WsError(
            9,
            WsErrorType::MalformedWsdl(WsErrorMalformedType::MissingElement("Other".to_string()))
        )
    );
}

#[test]
fn resolution_outside_definitions_is_no_parent_node() {
    // A binding that is not enclosed by any definitions element.
    let tree = XmlTree {
        nodes: vec![attrs(elem(None, Some(WSDL_NS), "binding"), &[
            ("name", "Loose"),
            ("type", "Somewhere"),
        ])],
    };
    let binding = WsBinding { node: 0 };
    let err = binding.port_type(&tree).unwrap_err();
    assert_eq!(err, WsError(0, WsErrorType::NoParentNode));
}

#[test]
fn operation_input_resolves_to_message() {
    let tree = weather_tree();
    let def = definitions(&tree);
    let op = def.port_types(&tree).unwrap()[0].operations(&tree).unwrap()[0];
    let input = op.input(&tree).unwrap().expect("operation should have an input");
    assert_eq!(input.name(&tree).unwrap(), "GetWeatherRequest");
}

#[test]
fn operation_without_input_is_none() {
    let mut tree = weather_tree();
    tree.nodes[6].local_name = "documentation".to_string();
    let op = WsPortOperation { node: 5 };
    assert_eq!(op.input(&tree).unwrap(), None);
}

#[test]
fn input_without_message_attribute_is_an_error() {
    let mut tree = weather_tree();
    tree.nodes[6].attributes.clear();
    let op = WsPortOperation { node: 5 };
    let err = op.input(&tree).unwrap_err();
    assert_eq!(
        err,
        WsError(
            6,
            WsErrorType::MalformedWsdl(WsErrorMalformedType::MissingAttribute(
                "message".to_string()
            ))
        )
    );
}

#[test]
fn input_with_unresolved_message_is_invalid_reference() {
    let mut tree = weather_tree();
    tree.nodes[6].attributes[0].value = "tns:Nowhere".to_string();
    let op = WsPortOperation { node: 5 };
    let err = op.input(&tree).unwrap_err();
    assert_eq!(err, WsError(6, WsErrorType::InvalidReference("Nowhere".to_string())));
}

#[test]
fn single_output_resolves() {
    let tree = weather_tree();
    let op = WsPortOperation { node: 5 };
    let output = op.output(&tree).unwrap().expect("operation should have an output");
    assert_eq!(output.name(&tree).unwrap(), "GetWeatherResponse");
    assert_eq!(op.outputs(&tree).unwrap().len(), 1);
}

#[test]
fn no_output_is_none() {
    let mut tree = weather_tree();
    tree.nodes[7].local_name = "documentation".to_string();
    let op = WsPortOperation { node: 5 };
    assert_eq!(op.output(&tree).unwrap(), None);
    assert_eq!(op.outputs(&tree).unwrap().len(), 0);
}

#[test]
fn several_outputs_are_an_ambiguity_error_not_a_panic() {
    let mut tree = weather_tree();
    tree.nodes.push(attrs(elem(Some(5), Some(WSDL_NS), "output"), &[(
        "message",
        "tns:GetWeatherRequest",
    )]));
    let op = WsPortOperation { node: 5 };
    assert_eq!(op.outputs(&tree).unwrap().len(), 2);
    let err = op.output(&tree).unwrap_err();
    assert_eq!(err, WsError(5, WsErrorType::AmbiguousReference("output".to_string())));
}

#[test]
fn two_faults_in_document_order_and_single_accessor_ambiguity() {
    let mut tree = weather_tree();
    tree.nodes.push(attrs(elem(Some(0), Some(WSDL_NS), "message"), &[("name", "BadZipMsg")]));
    tree.nodes.push(attrs(elem(Some(0), Some(WSDL_NS), "message"), &[("name", "TimeoutMsg")]));
    tree.nodes.push(attrs(elem(Some(5), Some(WSDL_NS), "fault"), &[
        ("name", "BadZip"),
        ("message", "tns:BadZipMsg"),
    ]));
    tree.nodes.push(attrs(elem(Some(5), Some(WSDL_NS), "fault"), &[
        ("name", "Timeout"),
        ("message", "tns:TimeoutMsg"),
    ]));
    let op = WsPortOperation { node: 5 };
    let faults = op.faults(&tree).unwrap();
    let names: Vec<String> = faults.iter().map(|m| m.name(&tree).unwrap()).collect();
    assert_eq!(names, vec!["BadZipMsg".to_string(), "TimeoutMsg".to_string()]);
    let err = op.fault(&tree).unwrap_err();
    assert_eq!(err, WsError(5, WsErrorType::AmbiguousReference("fault".to_string())));
}

#[test]
fn fault_absent_is_none() {
    let tree = weather_tree();
    let op = WsPortOperation { node: 5 };
    assert_eq!(op.fault(&tree).unwrap(), None);
    assert_eq!(op.faults(&tree).unwrap().len(), 0);
}

#[test]
fn unresolved_fault_reference_is_an_error_not_skipped() {
    let mut tree = weather_tree();
    tree.nodes.push(attrs(elem(Some(5), Some(WSDL_NS), "fault"), &[
        ("name", "BadZip"),
        ("message", "tns:NoSuchMsg"),
    ]));
    let op = WsPortOperation { node: 5 };
    let fault_node = tree.nodes.len() - 1;
    let err = op.faults(&tree).unwrap_err();
    assert_eq!(err, WsError(fault_node, WsErrorType::InvalidReference("NoSuchMsg".to_string())));
}

#[test]
fn transport_soap11_round_trip() {
    let tree = weather_tree();
    let bop = WsBindingOperation { node: 9 };
    assert_eq!(bop.transport(&tree).unwrap(), WsTransport::Soap("urn:Foo".to_string()));
}

#[test]
fn transport_soap12() {
    let mut tree = weather_tree();
    tree.nodes[10].namespace = Some(SOAP12_NS.to_string());
    let bop = WsBindingOperation { node: 9 };
    assert_eq!(bop.transport(&tree).unwrap(), WsTransport::Soap12("urn:Foo".to_string()));
}

#[test]
fn transport_http_uses_location() {
    let mut tree = weather_tree();
    tree.nodes[10].namespace = Some(HTTP_NS.to_string());
    tree.nodes[10].attributes =
        vec![XmlAttribute { name: "location".to_string(), value: "/weather".to_string() }];
    let bop = WsBindingOperation { node: 9 };
    assert_eq!(bop.transport(&tree).unwrap(), WsTransport::Http("/weather".to_string()));
}

#[test]
fn transport_unrecognized_namespace() {
    let mut tree = weather_tree();
    tree.nodes[10].namespace = Some("urn:carrier-pigeon".to_string());
    let bop = WsBindingOperation { node: 9 };
    let err = bop.transport(&tree).unwrap_err();
    assert_eq!(err, WsError(10, WsErrorType::InvalidNamespace("urn:carrier-pigeon".to_string())));
}

#[test]
fn transport_namespace_missing() {
    let mut tree = weather_tree();
    tree.nodes[10].namespace = None;
    let bop = WsBindingOperation { node: 9 };
    let err = bop.transport(&tree).unwrap_err();
    assert_eq!(err, WsError(10, WsErrorType::MissingNamespace));
}

#[test]
fn transport_nested_operation_absent() {
    let mut tree = weather_tree();
    tree.nodes[10].local_name = "body".to_string();
    let bop = WsBindingOperation { node: 9 };
    let err = bop.transport(&tree).unwrap_err();
    assert_eq!(
        err,
        WsError(
            9,
            WsErrorType::MalformedWsdl(WsErrorMalformedType::MissingElement(
                "operation".to_string()
            ))
        )
    );
}

#[test]
fn transport_soap_action_missing() {
    let mut tree = weather_tree();
    tree.nodes[10].attributes.clear();
    let bop = WsBindingOperation { node: 9 };
    let err = bop.transport(&tree).unwrap_err();
    assert_eq!(
        err,
        WsError(
            10,
            WsErrorType::MalformedWsdl(WsErrorMalformedType::MissingAttribute(
                "soapAction".to_string()
            ))
        )
    );
}

#[test]
fn types_and_schemas_are_exposed_opaquely() {
    let tree = weather_tree();
    let def = definitions(&tree);
    let types = def.types(&tree).unwrap();
    assert_eq!(types.len(), 1);
    assert_eq!(types[0].node(), 13);
    let schemas = types[0].schemas(&tree).unwrap();
    assert_eq!(schemas, vec![14]);
}
