//! Laws relating the entity accessors to one another: what the handles a
//! caller composes show of the tree, stated once and proved from the
//! accessors' contracts.

use vstd::prelude::*;

use crate::wsdl::{
    spec_operations, spec_ref_target, spec_services, spec_soap11_ns, spec_transport_post,
    spec_wsdl_ns, WsService, WsTransport,
};
use crate::xml::{lemma_tagged_children, spec_is_tagged_child, spec_tagged_children, XmlTree};

verus! {

/// Composing `WsBinding::port_type` with `WsPortType::operations` finds an
/// operation of a given name exactly when the binding's `type` attribute
/// resolves, by local name, to a port type that owns an `operation` child so
/// named. (That an unresolvable `type` attribute yields an `InvalidReference`
/// error is part of `WsBinding::port_type`'s own contract.)
pub proof fn lemma_binding_operation_lookup(tree: XmlTree, b: int, pt: int, name: Seq<char>)
    requires
        spec_ref_target(tree, b, "type"@, "portType"@) == Some(pt),
    ensures
        (exists|k: int|
            0 <= k < spec_operations(tree, pt).len() && crate::xml::spec_attr(
                tree,
                spec_operations(tree, pt)[k].node as int,
                "name"@,
            ) == Some(name)) <==> (exists|c: int|
            spec_is_tagged_child(tree, pt, c, spec_wsdl_ns(), "operation"@)
                && crate::xml::spec_attr(tree, c, "name"@) == Some(name)),
{
    let ops = spec_operations(tree, pt);
    let kids = spec_tagged_children(tree, pt, spec_wsdl_ns(), "operation"@);
    lemma_tagged_children(tree, pt, spec_wsdl_ns(), "operation"@);
    if exists|k: int|
        0 <= k < ops.len() && crate::xml::spec_attr(tree, ops[k].node as int, "name"@) == Some(
            name,
        ) {
        let k = choose|k: int|
            0 <= k < ops.len() && crate::xml::spec_attr(tree, ops[k].node as int, "name"@) == Some(
                name,
            );
        assert(spec_is_tagged_child(tree, pt, kids[k], spec_wsdl_ns(), "operation"@));
        assert(tree.nodes.len() == tree.nodes@.len());
        assert(ops[k].node as int == kids[k]);
        assert(spec_is_tagged_child(tree, pt, kids[k], spec_wsdl_ns(), "operation"@)
            && crate::xml::spec_attr(tree, kids[k], "name"@) == Some(name));
    }
    if exists|c: int|
        spec_is_tagged_child(tree, pt, c, spec_wsdl_ns(), "operation"@)
            && crate::xml::spec_attr(tree, c, "name"@) == Some(name) {
        let c = choose|c: int|
            spec_is_tagged_child(tree, pt, c, spec_wsdl_ns(), "operation"@)
                && crate::xml::spec_attr(tree, c, "name"@) == Some(name);
        assert(kids.contains(c));
        let k = choose|k: int| 0 <= k < kids.len() && kids[k] == c;
        assert(tree.nodes.len() == tree.nodes@.len());
        assert(ops[k].node as int == c);
        assert(crate::xml::spec_attr(tree, ops[k].node as int, "name"@) == Some(name));
    }
}

/// Round trip through the transport classifier: a binding operation whose
/// nested `operation` element carries the SOAP 1.1 namespace and a
/// `soapAction` attribute is classified as exactly `Soap` with that action —
/// never `Soap12`, never `Http`, never an error.
pub proof fn lemma_soap11_classification(
    tree: XmlTree,
    bo: int,
    c: int,
    action: Seq<char>,
    r: Result<WsTransport, crate::wsdl::WsError>,
)
    requires
        spec_transport_post(tree, bo, r),
        crate::xml::spec_first_local_child(tree, bo, "operation"@) == Some(c),
        tree.nodes@[c].namespace matches Some(u) && u@ == spec_soap11_ns(),
        crate::xml::spec_attr(tree, c, "soapAction"@) == Some(action),
    ensures
        r matches Ok(t) && t matches WsTransport::Soap(s) && s@ == action,
{
}

/// Idempotence of the collection accessors: each accessor's contract pins its
/// result to a function of the tree alone, so two calls without a tree
/// mutation in between return equal sequences, in the same order. Stated here
/// for `WsDefinitions::services`, whose contract equates any result to
/// `spec_services`.
pub proof fn lemma_services_idempotent(
    tree: XmlTree,
    d: int,
    r1: Seq<WsService>,
    r2: Seq<WsService>,
)
    requires
        r1 == spec_services(tree, d),
        r2 == spec_services(tree, d),
    ensures
        r1 == r2,
{
}

} // verus!
