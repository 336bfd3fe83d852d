//! The WSDL entity model: typed handles over tree nodes, one per WSDL
//! concept, with namespace-aware classification and cross-reference
//! resolution.

use vstd::prelude::*;

use crate::xml::{
    attr, first_tagged_child, has_tag, spec_attr, spec_first_tagged_child, spec_is_tag,
    spec_is_tagged_child, spec_tagged_children, spec_target_namespace, spec_top,
    tagged_children, target_namespace_lookup, XmlTree,
};

verus! {

/// The WSDL namespace, which qualifies every element this model classifies.
pub open spec fn spec_wsdl_ns() -> Seq<char> {
    "http://schemas.xmlsoap.org/wsdl/"@
}

/// The XML Schema namespace, which qualifies the opaque schema containers
/// under a `types` element.
pub open spec fn spec_schema_ns() -> Seq<char> {
    "http://www.w3.org/2001/XMLSchema"@
}

/// The WSDL namespace, for callers that build or inspect trees.
pub fn wsdl_namespace() -> (r: &'static str)
    ensures
        r@ == spec_wsdl_ns(),
{
    "http://schemas.xmlsoap.org/wsdl/"
}

/// The XML Schema namespace.
pub fn schema_namespace() -> (r: &'static str)
    ensures
        r@ == spec_schema_ns(),
{
    "http://www.w3.org/2001/XMLSchema"
}

/// The SOAP 1.1 binding-extension namespace.
pub open spec fn spec_soap11_ns() -> Seq<char> {
    "http://schemas.xmlsoap.org/wsdl/soap/"@
}

/// The SOAP 1.2 binding-extension namespace.
pub open spec fn spec_soap12_ns() -> Seq<char> {
    "http://schemas.xmlsoap.org/wsdl/soap12/"@
}

/// The HTTP binding-extension namespace.
pub open spec fn spec_http_ns() -> Seq<char> {
    "http://schemas.xmlsoap.org/wsdl/http/"@
}

/// The SOAP 1.1 binding-extension namespace.
pub fn soap11_namespace() -> (r: &'static str)
    ensures
        r@ == spec_soap11_ns(),
{
    "http://schemas.xmlsoap.org/wsdl/soap/"
}

/// The SOAP 1.2 binding-extension namespace.
pub fn soap12_namespace() -> (r: &'static str)
    ensures
        r@ == spec_soap12_ns(),
{
    "http://schemas.xmlsoap.org/wsdl/soap12/"
}

/// The HTTP binding-extension namespace.
pub fn http_namespace() -> (r: &'static str)
    ensures
        r@ == spec_http_ns(),
{
    "http://schemas.xmlsoap.org/wsdl/http/"
}

/// A mandatory piece of document structure was absent.
#[derive(Debug, Clone, PartialEq, Eq)]
pub enum WsErrorMalformedType {
    /// A mandatory attribute was absent on an otherwise-recognized element.
    MissingAttribute(String),
    /// A mandatory child element was absent, or a named cross-reference
    /// target was not found by structural search.
    MissingElement(String),
}

/// The typed cause of a resolution failure.
#[derive(Debug, Clone, PartialEq, Eq)]
pub enum WsErrorType {
    /// The input WSDL document was structurally malformed.
    MalformedWsdl(WsErrorMalformedType),
    /// A qualified-name reference was malformed or its target could not be
    /// located by name.
    InvalidReference(String),
    /// Upward navigation required by a resolution step ran out of parents.
    NoParentNode,
    /// An element expected to carry a namespace had none.
    MissingNamespace,
    /// A namespace was present but not one of the recognized set for its
    /// context.
    InvalidNamespace(String),
    /// More than one element matched a single-valued lookup.
    AmbiguousReference(String),
}

/// A resolution error: the index of the node at which the fault was detected,
/// and its typed cause.
#[derive(Debug, Clone, PartialEq, Eq)]
pub struct WsError(pub usize, pub WsErrorType);

/// `e` reports a missing attribute `attr` at node `node`.
pub open spec fn is_missing_attr(e: WsError, node: int, attr: Seq<char>) -> bool {
    &&& e.0 as int == node
    &&& e.1 matches WsErrorType::MalformedWsdl(WsErrorMalformedType::MissingAttribute(a)) && a@
        == attr
}

/// `e` reports a missing element (or missing reference target) `name` at node
/// `node`.
pub open spec fn is_missing_elem(e: WsError, node: int, name: Seq<char>) -> bool {
    &&& e.0 as int == node
    &&& e.1 matches WsErrorType::MalformedWsdl(WsErrorMalformedType::MissingElement(a)) && a@
        == name
}

/// `e` reports an invalid reference `token` at node `node`.
pub open spec fn is_invalid_ref(e: WsError, node: int, token: Seq<char>) -> bool {
    &&& e.0 as int == node
    &&& e.1 matches WsErrorType::InvalidReference(t) && t@ == token
}

/// `e` reports that node `node` unexpectedly had no parent.
pub open spec fn is_no_parent(e: WsError, node: int) -> bool {
    &&& e.0 as int == node
    &&& e.1 is NoParentNode
}

/// `e` reports a missing namespace at node `node`.
pub open spec fn is_missing_ns(e: WsError, node: int) -> bool {
    &&& e.0 as int == node
    &&& e.1 is MissingNamespace
}

/// `e` reports an unrecognized namespace `uri` at node `node`.
pub open spec fn is_invalid_ns(e: WsError, node: int, uri: Seq<char>) -> bool {
    &&& e.0 as int == node
    &&& e.1 matches WsErrorType::InvalidNamespace(u) && u@ == uri
}

/// `e` reports that more than one `what` element matched a single-valued
/// lookup at node `node`.
pub open spec fn is_ambiguous(e: WsError, node: int, what: Seq<char>) -> bool {
    &&& e.0 as int == node
    &&& e.1 matches WsErrorType::AmbiguousReference(t) && t@ == what
}

/// Whether node `i` is a WSDL `definitions` element.
pub open spec fn spec_is_definitions(tree: XmlTree, i: int) -> bool {
    spec_is_tag(tree, i, spec_wsdl_ns(), "definitions"@)
}

/// The nearest `definitions` element at or above node `i`.
pub open spec fn spec_ancestor_definitions(tree: XmlTree, i: int) -> Option<int>
    decreases i,
{
    if 0 <= i < tree.nodes@.len() {
        if spec_is_definitions(tree, i) {
            Some(i)
        } else {
            match tree.nodes@[i].parent {
                Some(p) => if (p as int) < i {
                    spec_ancestor_definitions(tree, p as int)
                } else {
                    None
                },
                None => None,
            }
        }
    } else {
        None
    }
}

/// The nearest `definitions` element strictly above node `i`: the scope in
/// which the node's cross-references resolve.
pub open spec fn spec_parent_definitions(tree: XmlTree, i: int) -> Option<int>
    recommends
        0 <= i < tree.nodes@.len(),
{
    match tree.nodes@[i].parent {
        Some(p) => spec_ancestor_definitions(tree, p as int),
        None => None,
    }
}

/// The first child of `def`, in document order, that carries the WSDL tag
/// `tag_local` and whose `name` attribute equals `name`, searching from index
/// `from`.
pub open spec fn spec_resolve_from(
    tree: XmlTree,
    def: int,
    tag_local: Seq<char>,
    name: Seq<char>,
    from: int,
) -> Option<int>
    decreases tree.nodes@.len() - from,
{
    if from < 0 || from >= tree.nodes@.len() {
        None
    } else if spec_is_tagged_child(tree, def, from, spec_wsdl_ns(), tag_local) && spec_attr(
        tree,
        from,
        "name"@,
    ) == Some(name) {
        Some(from)
    } else {
        spec_resolve_from(tree, def, tag_local, name, from + 1)
    }
}

/// The first child of `def` tagged `tag_local` and named `name`: how every
/// cross-reference locates its target within its scope.
pub open spec fn spec_resolve(
    tree: XmlTree,
    def: int,
    tag_local: Seq<char>,
    name: Seq<char>,
) -> Option<int> {
    spec_resolve_from(tree, def, tag_local, name, 0)
}

/// The outcome of following a reference attribute `attr_name` on node `i`
/// within the scope of the `definitions` element `def`: the reference's local
/// part, looked up among `def`'s `tag_local` children — `None` when the
/// attribute is absent, the reference malformed, or the target not found.
pub open spec fn spec_ref_in_def(
    tree: XmlTree,
    def: int,
    i: int,
    attr_name: Seq<char>,
    tag_local: Seq<char>,
) -> Option<int> {
    match spec_attr(tree, i, attr_name) {
        Some(a) => if !crate::qname::spec_q_malformed(a) {
            spec_resolve(tree, def, tag_local, crate::qname::spec_q_local(a))
        } else {
            None
        },
        None => None,
    }
}

/// The outcome of following a reference attribute on node `i` within the
/// node's own enclosing `definitions` scope.
pub open spec fn spec_ref_target(
    tree: XmlTree,
    i: int,
    attr_name: Seq<char>,
    tag_local: Seq<char>,
) -> Option<int> {
    match spec_parent_definitions(tree, i) {
        Some(def) => spec_ref_in_def(tree, def, i, attr_name, tag_local),
        None => None,
    }
}

/// The error a failed reference resolution reports: a missing reference
/// attribute, a malformed reference, a missing enclosing `definitions`
/// element, or a target not found — each tied to the node where it was
/// detected.
pub open spec fn spec_ref_err(
    tree: XmlTree,
    i: int,
    attr_name: Seq<char>,
    e: WsError,
) -> bool {
    match spec_attr(tree, i, attr_name) {
        None => is_missing_attr(e, i, attr_name),
        Some(a) => if crate::qname::spec_q_malformed(a) {
            is_invalid_ref(e, i, a)
        } else if spec_parent_definitions(tree, i) is None {
            is_no_parent(e, spec_top(tree, i))
        } else {
            is_invalid_ref(e, i, crate::qname::spec_q_local(a))
        },
    }
}

/// Find the first child of `def` carrying the WSDL tag `tag_local` whose
/// `name` attribute equals `name`.
fn find_named(tree: &XmlTree, def: usize, tag_local: &str, name: &str) -> (r: Option<usize>)
    requires
        tree.wf(),
        def < tree.nodes@.len(),
    ensures
        match r {
            Some(c) => spec_resolve(*tree, def as int, tag_local@, name@) == Some(c as int) && c
                < tree.nodes@.len(),
            None => spec_resolve(*tree, def as int, tag_local@, name@) is None,
        },
{
    let n = tree.nodes.len();
    let mut j: usize = 0;
    while j < n
        invariant
            n == tree.nodes@.len(),
            j <= n,
            def < n,
            spec_resolve(*tree, def as int, tag_local@, name@) == spec_resolve_from(
                *tree,
                def as int,
                tag_local@,
                name@,
                j as int,
            ),
        decreases n - j,
    {
        let is_child = match &tree.nodes[j].parent {
            Some(q) => *q == def && has_tag(tree, j, wsdl_namespace(), tag_local),
            None => false,
        };
        if is_child {
            let named = match attr(tree, j, "name") {
                Some(v) => crate::xml::str_eq(v.as_str(), name),
                None => false,
            };
            if named {
                return Some(j);
            }
        }
        proof {
            assert(!(spec_is_tagged_child(*tree, def as int, j as int, spec_wsdl_ns(), tag_local@)
                && spec_attr(*tree, j as int, "name"@) == Some(name@)));
        }
        j = j + 1;
    }
    None
}

/// Fetch the mandatory `name` attribute of node `node`, the shared behaviour
/// of every entity's `name` accessor.
fn name_attr(tree: &XmlTree, node: usize) -> (r: Result<String, WsError>)
    requires
        tree.wf(),
        node < tree.nodes@.len(),
    ensures
        match r {
            Ok(s) => spec_attr(*tree, node as int, "name"@) == Some(s@),
            Err(e) => spec_attr(*tree, node as int, "name"@) is None && is_missing_attr(
                e,
                node as int,
                "name"@,
            ),
        },
{
    match attr(tree, node, "name") {
        Some(v) => Ok(v),
        None => Err(
            WsError(
                node,
                WsErrorType::MalformedWsdl(
                    WsErrorMalformedType::MissingAttribute(String::from_str("name")),
                ),
            ),
        ),
    }
}

/// The root WSDL container: a `definitions` element, the scope in which all
/// top-level declarations live and cross-references resolve.
#[derive(Debug, Clone, Copy, PartialEq, Eq, Structural)]
pub struct WsDefinitions {
    pub node: usize,
}

/// The first parentless `definitions` element at or past index `from`.
pub open spec fn spec_root_definitions_from(tree: XmlTree, from: int) -> Option<int>
    decreases tree.nodes@.len() - from,
{
    if from < 0 || from >= tree.nodes@.len() {
        None
    } else if tree.nodes@[from].parent is None && spec_is_definitions(tree, from) {
        Some(from)
    } else {
        spec_root_definitions_from(tree, from + 1)
    }
}

/// The document's root `definitions` element: the first parentless element
/// with that tag.
pub open spec fn spec_root_definitions(tree: XmlTree) -> Option<int> {
    spec_root_definitions_from(tree, 0)
}

impl WsDefinitions {
    /// Wrap node `node` when it is a `definitions` element; reject it
    /// otherwise.
    pub fn from_node(tree: &XmlTree, node: usize) -> (r: Result<Self, WsError>)
        requires
            tree.wf(),
            node < tree.nodes@.len(),
        ensures
            match r {
                Ok(d) => d.node == node && spec_is_definitions(*tree, node as int),
                Err(e) => !spec_is_definitions(*tree, node as int) && is_missing_elem(
                    e,
                    node as int,
                    "definitions"@,
                ),
            },
    {
        if has_tag(tree, node, wsdl_namespace(), "definitions") {
            Ok(WsDefinitions { node })
        } else {
            Err(
                WsError(
                    node,
                    WsErrorType::MalformedWsdl(
                        WsErrorMalformedType::MissingElement(String::from_str("definitions")),
                    ),
                ),
            )
        }
    }

    /// Locate the `definitions` element among the document's top-level
    /// elements. A document without one is rejected, with the error tied to
    /// the document's first element.
    pub fn from_document(tree: &XmlTree) -> (r: Result<Self, WsError>)
        requires
            tree.wf(),
        ensures
            match r {
                Ok(d) => spec_root_definitions(*tree) == Some(d.node as int),
                Err(e) => spec_root_definitions(*tree) is None && is_missing_elem(
                    e,
                    0,
                    "definitions"@,
                ),
            },
    {
        let n = tree.nodes.len();
        let mut j: usize = 0;
        while j < n
            invariant
                tree.wf(),
                n == tree.nodes@.len(),
                j <= n,
                spec_root_definitions(*tree) == spec_root_definitions_from(*tree, j as int),
            decreases n - j,
        {
            let is_root_def = match &tree.nodes[j].parent {
                Some(_) => false,
                None => has_tag(tree, j, wsdl_namespace(), "definitions"),
            };
            if is_root_def {
                return Ok(WsDefinitions { node: j });
            }
            j = j + 1;
        }
        Err(
            WsError(
                0,
                WsErrorType::MalformedWsdl(
                    WsErrorMalformedType::MissingElement(String::from_str("definitions")),
                ),
            ),
        )
    }

    /// Find the `definitions` block among the proper ancestors of `node`:
    /// cross-reference resolution re-enters the tree from here. Running out
    /// of parents first is a `NoParentNode` error at the node where the walk
    /// stopped.
    pub fn find_parent(tree: &XmlTree, node: usize) -> (r: Result<Self, WsError>)
        requires
            tree.wf(),
            node < tree.nodes@.len(),
        ensures
            match r {
                Ok(d) => spec_parent_definitions(*tree, node as int) == Some(d.node as int)
                    && d.node < tree.nodes@.len(),
                Err(e) => spec_parent_definitions(*tree, node as int) is None && is_no_parent(
                    e,
                    spec_top(*tree, node as int),
                ),
            },
    {
        let mut cur = match &tree.nodes[node].parent {
            Some(p) => *p,
            None => {
                return Err(WsError(node, WsErrorType::NoParentNode));
            },
        };
        let ghost first: usize = cur;
        proof {
            assert(tree.nodes@[node as int].parent matches Some(p) && (p as int) < node as int);
            assert(spec_top(*tree, node as int) == spec_top(*tree, first as int));
        }
        loop
            invariant
                tree.wf(),
                node < tree.nodes@.len(),
                cur < tree.nodes@.len(),
                spec_ancestor_definitions(*tree, cur as int) == spec_ancestor_definitions(
                    *tree,
                    first as int,
                ),
                spec_top(*tree, cur as int) == spec_top(*tree, node as int),
                tree.nodes@[node as int].parent == Some(first),
            decreases cur,
        {
            if has_tag(tree, cur, wsdl_namespace(), "definitions") {
                proof {
                    assert(spec_ancestor_definitions(*tree, cur as int) == Some(cur as int));
                }
                return Ok(WsDefinitions { node: cur });
            }
            match &tree.nodes[cur].parent {
                Some(p) => {
                    proof {
                        assert(tree.nodes@[cur as int].parent matches Some(q) && (q as int)
                            < cur as int);
                        assert(spec_ancestor_definitions(*tree, cur as int)
                            == spec_ancestor_definitions(*tree, *p as int));
                        assert(spec_top(*tree, cur as int) == spec_top(*tree, *p as int));
                    }
                    cur = *p;
                },
                None => {
                    proof {
                        assert(spec_ancestor_definitions(*tree, cur as int) is None);
                        assert(spec_top(*tree, cur as int) == cur as int);
                    }
                    return Err(WsError(cur, WsErrorType::NoParentNode));
                },
            }
        }
    }

    /// Return the node index the handle wraps.
    pub fn node(&self) -> (r: usize)
        ensures
            r == self.node,
    {
        self.node
    }

    /// Retrieve the `portType` declarations of this definitions block, in
    /// document order. Recomputed from the tree on every call.
    pub fn port_types(&self, tree: &XmlTree) -> (r: Result<Vec<WsPortType>, WsError>)
        requires
            tree.wf(),
            self.node < tree.nodes@.len(),
        ensures
            r matches Ok(v) && v@ == spec_port_types(*tree, self.node as int),
    {
        let ch = tagged_children(tree, self.node, wsdl_namespace(), "portType");
        let ghost target = spec_port_types(*tree, self.node as int);
        let ghost ints = spec_tagged_children(*tree, self.node as int, spec_wsdl_ns(), "portType"@);
        let mut v: Vec<WsPortType> = Vec::new();
        let n = ch.len();
        let mut k: usize = 0;
        while k < n
            invariant
                n == ch@.len(),
                k <= n,
                ch@.map_values(|c: usize| c as int) == ints,
                target == ints.map_values(|c: int| WsPortType { node: c as usize }),
                v@.len() == k,
                forall|m: int| 0 <= m < k ==> v@[m] == target[m],
            decreases n - k,
        {
            v.push(WsPortType { node: ch[k] });
            k = k + 1;
        }
        proof {
            assert(v@ =~= target);
        }
        Ok(v)
    }

    /// Retrieve the `message` declarations of this definitions block, in
    /// document order. Recomputed from the tree on every call.
    pub fn messages(&self, tree: &XmlTree) -> (r: Result<Vec<WsMessage>, WsError>)
        requires
            tree.wf(),
            self.node < tree.nodes@.len(),
        ensures
            r matches Ok(v) && v@ == spec_messages(*tree, self.node as int),
    {
        let ch = tagged_children(tree, self.node, wsdl_namespace(), "message");
        let ghost target = spec_messages(*tree, self.node as int);
        let ghost ints = spec_tagged_children(*tree, self.node as int, spec_wsdl_ns(), "message"@);
        let mut v: Vec<WsMessage> = Vec::new();
        let n = ch.len();
        let mut k: usize = 0;
        while k < n
            invariant
                n == ch@.len(),
                k <= n,
                ch@.map_values(|c: usize| c as int) == ints,
                target == ints.map_values(|c: int| WsMessage { node: c as usize }),
                v@.len() == k,
                forall|m: int| 0 <= m < k ==> v@[m] == target[m],
            decreases n - k,
        {
            v.push(WsMessage { node: ch[k] });
            k = k + 1;
        }
        proof {
            assert(v@ =~= target);
        }
        Ok(v)
    }

    /// Retrieve the `binding` declarations of this definitions block, in
    /// document order. Recomputed from the tree on every call.
    pub fn bindings(&self, tree: &XmlTree) -> (r: Result<Vec<WsBinding>, WsError>)
        requires
            tree.wf(),
            self.node < tree.nodes@.len(),
        ensures
            r matches Ok(v) && v@ == spec_bindings(*tree, self.node as int),
    {
        let ch = tagged_children(tree, self.node, wsdl_namespace(), "binding");
        let ghost target = spec_bindings(*tree, self.node as int);
        let ghost ints = spec_tagged_children(*tree, self.node as int, spec_wsdl_ns(), "binding"@);
        let mut v: Vec<WsBinding> = Vec::new();
        let n = ch.len();
        let mut k: usize = 0;
        while k < n
            invariant
                n == ch@.len(),
                k <= n,
                ch@.map_values(|c: usize| c as int) == ints,
                target == ints.map_values(|c: int| WsBinding { node: c as usize }),
                v@.len() == k,
                forall|m: int| 0 <= m < k ==> v@[m] == target[m],
            decreases n - k,
        {
            v.push(WsBinding { node: ch[k] });
            k = k + 1;
        }
        proof {
            assert(v@ =~= target);
        }
        Ok(v)
    }

    /// Retrieve the `service` declarations of this definitions block, in
    /// document order. Recomputed from the tree on every call.
    pub fn services(&self, tree: &XmlTree) -> (r: Result<Vec<WsService>, WsError>)
        requires
            tree.wf(),
            self.node < tree.nodes@.len(),
        ensures
            r matches Ok(v) && v@ == spec_services(*tree, self.node as int),
    {
        let ch = tagged_children(tree, self.node, wsdl_namespace(), "service");
        let ghost target = spec_services(*tree, self.node as int);
        let ghost ints = spec_tagged_children(*tree, self.node as int, spec_wsdl_ns(), "service"@);
        let mut v: Vec<WsService> = Vec::new();
        let n = ch.len();
        let mut k: usize = 0;
        while k < n
            invariant
                n == ch@.len(),
                k <= n,
                ch@.map_values(|c: usize| c as int) == ints,
                target == ints.map_values(|c: int| WsService { node: c as usize }),
                v@.len() == k,
                forall|m: int| 0 <= m < k ==> v@[m] == target[m],
            decreases n - k,
        {
            v.push(WsService { node: ch[k] });
            k = k + 1;
        }
        proof {
            assert(v@ =~= target);
        }
        Ok(v)
    }

    /// Retrieve the `types` containers of this definitions block, in document
    /// order. Their schema content is exposed opaquely and never interpreted.
    pub fn types(&self, tree: &XmlTree) -> (r: Result<Vec<WsTypes>, WsError>)
        requires
            tree.wf(),
            self.node < tree.nodes@.len(),
        ensures
            r matches Ok(v) && v@ == spec_types(*tree, self.node as int),
    {
        let ch = tagged_children(tree, self.node, wsdl_namespace(), "types");
        let ghost target = spec_types(*tree, self.node as int);
        let ghost ints = spec_tagged_children(*tree, self.node as int, spec_wsdl_ns(), "types"@);
        let mut v: Vec<WsTypes> = Vec::new();
        let n = ch.len();
        let mut k: usize = 0;
        while k < n
            invariant
                n == ch@.len(),
                k <= n,
                ch@.map_values(|c: usize| c as int) == ints,
                target == ints.map_values(|c: int| WsTypes { node: c as usize }),
                v@.len() == k,
                forall|m: int| 0 <= m < k ==> v@[m] == target[m],
            decreases n - k,
        {
            v.push(WsTypes { node: ch[k] });
            k = k + 1;
        }
        proof {
            assert(v@ =~= target);
        }
        Ok(v)
    }
}

/// The `portType` children of `d`, in document order.
pub open spec fn spec_port_types(tree: XmlTree, d: int) -> Seq<WsPortType> {
    spec_tagged_children(tree, d, spec_wsdl_ns(), "portType"@).map_values(
        |c: int| WsPortType { node: c as usize },
    )
}

/// The `message` children of `d`, in document order.
pub open spec fn spec_messages(tree: XmlTree, d: int) -> Seq<WsMessage> {
    spec_tagged_children(tree, d, spec_wsdl_ns(), "message"@).map_values(
        |c: int| WsMessage { node: c as usize },
    )
}

/// The `binding` children of `d`, in document order.
pub open spec fn spec_bindings(tree: XmlTree, d: int) -> Seq<WsBinding> {
    spec_tagged_children(tree, d, spec_wsdl_ns(), "binding"@).map_values(
        |c: int| WsBinding { node: c as usize },
    )
}

/// The `service` children of `d`, in document order.
pub open spec fn spec_services(tree: XmlTree, d: int) -> Seq<WsService> {
    spec_tagged_children(tree, d, spec_wsdl_ns(), "service"@).map_values(
        |c: int| WsService { node: c as usize },
    )
}

/// The `types` children of `d`, in document order.
pub open spec fn spec_types(tree: XmlTree, d: int) -> Seq<WsTypes> {
    spec_tagged_children(tree, d, spec_wsdl_ns(), "types"@).map_values(
        |c: int| WsTypes { node: c as usize },
    )
}

/// The `part` children of message `m`, in document order.
pub open spec fn spec_parts(tree: XmlTree, m: int) -> Seq<WsMessagePart> {
    spec_tagged_children(tree, m, spec_wsdl_ns(), "part"@).map_values(
        |c: int| WsMessagePart { node: c as usize },
    )
}

/// The `operation` children of port type `pt`, in document order.
pub open spec fn spec_operations(tree: XmlTree, pt: int) -> Seq<WsPortOperation> {
    spec_tagged_children(tree, pt, spec_wsdl_ns(), "operation"@).map_values(
        |c: int| WsPortOperation { node: c as usize },
    )
}

/// The `operation` children of binding `b`, in document order.
pub open spec fn spec_binding_operations(tree: XmlTree, b: int) -> Seq<WsBindingOperation> {
    spec_tagged_children(tree, b, spec_wsdl_ns(), "operation"@).map_values(
        |c: int| WsBindingOperation { node: c as usize },
    )
}

/// The `port` children of service `s`, in document order.
pub open spec fn spec_ports(tree: XmlTree, s: int) -> Seq<WsServicePort> {
    spec_tagged_children(tree, s, spec_wsdl_ns(), "port"@).map_values(
        |c: int| WsServicePort { node: c as usize },
    )
}

/// The reference a message part carries: its `element` attribute, or failing
/// that its `type` attribute.
pub open spec fn spec_typeref(tree: XmlTree, i: int) -> Option<Seq<char>> {
    match spec_attr(tree, i, "element"@) {
        Some(a) => Some(a),
        None => spec_attr(tree, i, "type"@),
    }
}

/// Whether the `message` reference on node `c` resolves within the
/// `definitions` scope `d`.
pub open spec fn spec_child_resolves(tree: XmlTree, d: int, c: int) -> bool {
    spec_ref_in_def(tree, d, c, "message"@, "message"@) is Some
}

/// The position, within the child list `kids`, of the first child whose
/// `message` reference does not resolve in scope `d`.
pub open spec fn spec_first_unresolved(tree: XmlTree, d: int, kids: Seq<int>) -> Option<int>
    decreases kids.len(),
{
    if kids.len() == 0 {
        None
    } else if !spec_child_resolves(tree, d, kids[0]) {
        Some(0)
    } else {
        match spec_first_unresolved(tree, d, kids.drop_first()) {
            Some(j) => Some(j + 1),
            None => None,
        }
    }
}

/// When everything before position `j` resolves and position `j` does not,
/// `j` is the first unresolved position.
pub proof fn lemma_first_unresolved_at(tree: XmlTree, d: int, kids: Seq<int>, j: int)
    requires
        0 <= j < kids.len(),
        forall|m: int| 0 <= m < j ==> spec_child_resolves(tree, d, #[trigger] kids[m]),
        !spec_child_resolves(tree, d, kids[j]),
    ensures
        spec_first_unresolved(tree, d, kids) == Some(j),
    decreases j,
{
    if j == 0 {
    } else {
        assert(spec_child_resolves(tree, d, kids[0]));
        assert forall|m: int| 0 <= m < j - 1 implies spec_child_resolves(
            tree,
            d,
            #[trigger] kids.drop_first()[m],
        ) by {
            assert(kids.drop_first()[m] == kids[m + 1]);
        }
        assert(kids.drop_first()[j - 1] == kids[j]);
        lemma_first_unresolved_at(tree, d, kids.drop_first(), j - 1);
    }
}

/// When every position resolves, there is no first unresolved position.
pub proof fn lemma_all_resolved(tree: XmlTree, d: int, kids: Seq<int>)
    requires
        forall|m: int| 0 <= m < kids.len() ==> spec_child_resolves(tree, d, #[trigger] kids[m]),
    ensures
        spec_first_unresolved(tree, d, kids) is None,
    decreases kids.len(),
{
    if kids.len() == 0 {
    } else {
        assert(spec_child_resolves(tree, d, kids[0]));
        assert forall|m: int| 0 <= m < kids.drop_first().len() implies spec_child_resolves(
            tree,
            d,
            #[trigger] kids.drop_first()[m],
        ) by {
            assert(kids.drop_first()[m] == kids[m + 1]);
        }
        lemma_all_resolved(tree, d, kids.drop_first());
    }
}

/// What a multi-result message-reference accessor returns on success: within
/// the enclosing `definitions` scope, every `kind` child's `message`
/// reference resolved, to the listed messages, in document order.
pub open spec fn spec_message_refs_ok(
    tree: XmlTree,
    op: int,
    kind: Seq<char>,
    v: Seq<WsMessage>,
) -> bool {
    spec_parent_definitions(tree, op) matches Some(d) && {
        let kids = spec_tagged_children(tree, op, spec_wsdl_ns(), kind);
        &&& v.len() == kids.len()
        &&& forall|k: int|
            0 <= k < kids.len() ==> spec_ref_in_def(
                tree,
                d,
                #[trigger] kids[k],
                "message"@,
                "message"@,
            ) == Some(v[k].node as int) && v[k].node < tree.nodes@.len()
    }
}

/// What a multi-result message-reference accessor reports on failure: no
/// enclosing `definitions` scope, or the first `kind` child whose `message`
/// reference does not resolve, with the precise cause tied to that child.
pub open spec fn spec_message_refs_err(tree: XmlTree, op: int, kind: Seq<char>, e: WsError) -> bool {
    if spec_parent_definitions(tree, op) is None {
        is_no_parent(e, spec_top(tree, op))
    } else {
        spec_parent_definitions(tree, op) matches Some(d) && {
            let kids = spec_tagged_children(tree, op, spec_wsdl_ns(), kind);
            spec_first_unresolved(tree, d, kids) matches Some(j) && {
                let c = kids[j];
                match spec_attr(tree, c, "message"@) {
                    None => is_missing_attr(e, c, "message"@),
                    Some(a) => if crate::qname::spec_q_malformed(a) {
                        is_invalid_ref(e, c, a)
                    } else {
                        is_invalid_ref(e, c, crate::qname::spec_q_local(a))
                    },
                }
            }
        }
    }
}

/// Follow the `message` reference attribute on node `c` to the `message`
/// declaration it names within the `definitions` scope `def`.
fn resolve_message_ref(tree: &XmlTree, def: usize, c: usize) -> (r: Result<WsMessage, WsError>)
    requires
        tree.wf(),
        def < tree.nodes@.len(),
        c < tree.nodes@.len(),
    ensures
        match r {
            Ok(m) => spec_ref_in_def(*tree, def as int, c as int, "message"@, "message"@) == Some(
                m.node as int,
            ) && m.node < tree.nodes@.len(),
            Err(e) => spec_ref_in_def(*tree, def as int, c as int, "message"@, "message"@) is None
                && match spec_attr(*tree, c as int, "message"@) {
                None => is_missing_attr(e, c as int, "message"@),
                Some(a) => if crate::qname::spec_q_malformed(a) {
                    is_invalid_ref(e, c as int, a)
                } else {
                    is_invalid_ref(e, c as int, crate::qname::spec_q_local(a))
                },
            },
        },
{
    let a = match attr(tree, c, "message") {
        Some(a) => a,
        None => {
            return Err(
                WsError(
                    c,
                    WsErrorType::MalformedWsdl(
                        WsErrorMalformedType::MissingAttribute(String::from_str("message")),
                    ),
                ),
            );
        },
    };
    match crate::qname::split_qualified(a.as_str()) {
        Err(et) => Err(WsError(c, et)),
        Ok((_, local)) => match find_named(tree, def, "message", local.as_str()) {
            Some(t) => Ok(WsMessage { node: t }),
            None => Err(WsError(c, WsErrorType::InvalidReference(local))),
        },
    }
}

/// Resolve the `message` references of all `kind` children of operation `op`,
/// in document order, failing on the first child that does not resolve.
fn message_refs(tree: &XmlTree, op: usize, kind: &str) -> (r: Result<Vec<WsMessage>, WsError>)
    requires
        tree.wf(),
        op < tree.nodes@.len(),
    ensures
        match r {
            Ok(v) => spec_message_refs_ok(*tree, op as int, kind@, v@),
            Err(e) => spec_message_refs_err(*tree, op as int, kind@, e),
        },
{
    let def = match WsDefinitions::find_parent(tree, op) {
        Ok(d) => d,
        Err(e) => {
            return Err(e);
        },
    };
    let kids = tagged_children(tree, op, wsdl_namespace(), kind);
    let ghost kids_s = spec_tagged_children(*tree, op as int, spec_wsdl_ns(), kind@);
    let mut v: Vec<WsMessage> = Vec::new();
    let n = kids.len();
    let mut k: usize = 0;
    while k < n
        invariant
            tree.wf(),
            op < tree.nodes@.len(),
            n == kids@.len(),
            k <= n,
            kids@.map_values(|c: usize| c as int) == kids_s,
            kids_s == spec_tagged_children(*tree, op as int, spec_wsdl_ns(), kind@),
            spec_parent_definitions(*tree, op as int) == Some(def.node as int),
            def.node < tree.nodes@.len(),
            v@.len() == k,
            forall|m: int|
                0 <= m < k ==> spec_ref_in_def(
                    *tree,
                    def.node as int,
                    #[trigger] kids_s[m],
                    "message"@,
                    "message"@,
                ) == Some(v@[m].node as int) && v@[m].node < tree.nodes@.len(),
        decreases n - k,
    {
        proof {
            crate::xml::lemma_tagged_children(*tree, op as int, spec_wsdl_ns(), kind@);
            assert(spec_is_tagged_child(*tree, op as int, kids_s[k as int], spec_wsdl_ns(), kind@));
            assert(kids@[k as int] as int == kids_s[k as int]);
        }
        match resolve_message_ref(tree, def.node, kids[k]) {
            Ok(m) => {
                v.push(m);
            },
            Err(e) => {
                proof {
                    lemma_first_unresolved_at(*tree, def.node as int, kids_s, k as int);
                }
                return Err(e);
            },
        }
        k = k + 1;
    }
    Ok(v)
}

/// Resolve a single-valued `kind` message reference: at most one `kind` child
/// may be present; several are reported as an ambiguity, never narrowed to
/// the first silently.
fn single_message_ref(tree: &XmlTree, op: usize, kind: &str) -> (r: Result<
    Option<WsMessage>,
    WsError,
>)
    requires
        tree.wf(),
        op < tree.nodes@.len(),
    ensures
        match r {
            Ok(om) => spec_parent_definitions(*tree, op as int) matches Some(d) && {
                let kids = spec_tagged_children(*tree, op as int, spec_wsdl_ns(), kind@);
                match om {
                    None => kids.len() == 0,
                    Some(m) => kids.len() == 1 && spec_ref_in_def(
                        *tree,
                        d,
                        kids[0],
                        "message"@,
                        "message"@,
                    ) == Some(m.node as int) && m.node < tree.nodes@.len(),
                }
            },
            Err(e) => {
                let kids = spec_tagged_children(*tree, op as int, spec_wsdl_ns(), kind@);
                if spec_parent_definitions(*tree, op as int) is None {
                    is_no_parent(e, spec_top(*tree, op as int))
                } else if spec_parent_definitions(*tree, op as int) matches Some(d)
                    && spec_first_unresolved(*tree, d, kids) is Some {
                    spec_message_refs_err(*tree, op as int, kind@, e)
                } else {
                    kids.len() >= 2 && is_ambiguous(e, op as int, kind@)
                }
            },
        },
{
    let v = match message_refs(tree, op, kind) {
        Ok(v) => v,
        Err(e) => {
            return Err(e);
        },
    };
    let ghost d = spec_parent_definitions(*tree, op as int)->Some_0;
    let ghost kids = spec_tagged_children(*tree, op as int, spec_wsdl_ns(), kind@);
    if v.len() == 0 {
        Ok(None)
    } else if v.len() == 1 {
        Ok(Some(v[0]))
    } else {
        proof {
            assert forall|m: int| 0 <= m < kids.len() implies spec_child_resolves(
                *tree,
                d,
                #[trigger] kids[m],
            ) by {}
            lemma_all_resolved(*tree, d, kids);
        }
        Err(WsError(op, WsErrorType::AmbiguousReference(kind.to_owned())))
    }
}

/// Follow a reference attribute `attr_name` on node `i` to the `tag_local`
/// declaration it names within the node's enclosing `definitions` scope.
fn resolve_ref(tree: &XmlTree, i: usize, attr_name: &str, tag_local: &str) -> (r: Result<
    usize,
    WsError,
>)
    requires
        tree.wf(),
        i < tree.nodes@.len(),
    ensures
        match r {
            Ok(c) => spec_ref_target(*tree, i as int, attr_name@, tag_local@) == Some(c as int)
                && c < tree.nodes@.len(),
            Err(e) => spec_ref_target(*tree, i as int, attr_name@, tag_local@) is None
                && spec_ref_err(*tree, i as int, attr_name@, e),
        },
{
    let a = match attr(tree, i, attr_name) {
        Some(a) => a,
        None => {
            return Err(
                WsError(
                    i,
                    WsErrorType::MalformedWsdl(
                        WsErrorMalformedType::MissingAttribute(attr_name.to_owned()),
                    ),
                ),
            );
        },
    };
    let local = match crate::qname::split_qualified(a.as_str()) {
        Err(et) => {
            return Err(WsError(i, et));
        },
        Ok((_, l)) => l,
    };
    let def = match WsDefinitions::find_parent(tree, i) {
        Ok(d) => d,
        Err(e) => {
            return Err(e);
        },
    };
    match find_named(tree, def.node, tag_local, local.as_str()) {
        Some(c) => Ok(c),
        None => Err(WsError(i, WsErrorType::InvalidReference(local))),
    }
}

/// A WSDL `message`: a named list of parameters.
#[derive(Debug, Clone, Copy, PartialEq, Eq, Structural)]
pub struct WsMessage {
    pub node: usize,
}

/// One `part` (parameter) of a WSDL `message`.
#[derive(Debug, Clone, Copy, PartialEq, Eq, Structural)]
pub struct WsMessagePart {
    pub node: usize,
}

/// A WSDL `portType`: a group of logical operations.
#[derive(Debug, Clone, Copy, PartialEq, Eq, Structural)]
pub struct WsPortType {
    pub node: usize,
}

/// One logical operation of a `portType`.
#[derive(Debug, Clone, Copy, PartialEq, Eq, Structural)]
pub struct WsPortOperation {
    pub node: usize,
}

/// The wire details of one operation within a `binding`.
#[derive(Debug, Clone, Copy, PartialEq, Eq, Structural)]
pub struct WsBindingOperation {
    pub node: usize,
}

/// A WSDL `binding`: the wire-protocol mapping of a `portType`.
#[derive(Debug, Clone, Copy, PartialEq, Eq, Structural)]
pub struct WsBinding {
    pub node: usize,
}

/// One endpoint of a `service`, referring to a `binding`.
#[derive(Debug, Clone, Copy, PartialEq, Eq, Structural)]
pub struct WsServicePort {
    pub node: usize,
}

/// A WSDL `service`: a deployable group of endpoints.
#[derive(Debug, Clone, Copy, PartialEq, Eq, Structural)]
pub struct WsService {
    pub node: usize,
}

/// A WSDL `types` element: an opaque container of XML Schema content.
#[derive(Debug, Clone, Copy, PartialEq, Eq, Structural)]
pub struct WsTypes {
    pub node: usize,
}

impl WsMessage {
    /// Retrieve the name of the message: the literal value of its `name`
    /// attribute.
    pub fn name(&self, tree: &XmlTree) -> (r: Result<String, WsError>)
        requires
            tree.wf(),
            self.node < tree.nodes@.len(),
        ensures
            match r {
                Ok(s) => spec_attr(*tree, self.node as int, "name"@) == Some(s@),
                Err(e) => spec_attr(*tree, self.node as int, "name"@) is None && is_missing_attr(
                    e,
                    self.node as int,
                    "name"@,
                ),
            },
    {
        name_attr(tree, self.node)
    }

    /// Retrieve the parts of this message, in document order. Recomputed from
    /// the tree on every call.
    pub fn parts(&self, tree: &XmlTree) -> (r: Vec<WsMessagePart>)
        requires
            tree.wf(),
            self.node < tree.nodes@.len(),
        ensures
            r@ == spec_parts(*tree, self.node as int),
    {
        let ch = tagged_children(tree, self.node, wsdl_namespace(), "part");
        let ghost target = spec_parts(*tree, self.node as int);
        let ghost ints = spec_tagged_children(*tree, self.node as int, spec_wsdl_ns(), "part"@);
        let mut v: Vec<WsMessagePart> = Vec::new();
        let n = ch.len();
        let mut k: usize = 0;
        while k < n
            invariant
                n == ch@.len(),
                k <= n,
                ch@.map_values(|c: usize| c as int) == ints,
                target == ints.map_values(|c: int| WsMessagePart { node: c as usize }),
                v@.len() == k,
                forall|m: int| 0 <= m < k ==> v@[m] == target[m],
            decreases n - k,
        {
            v.push(WsMessagePart { node: ch[k] });
            k = k + 1;
        }
        proof {
            assert(v@ =~= target);
        }
        v
    }

    /// Return the node index the handle wraps.
    pub fn node(&self) -> (r: usize)
        ensures
            r == self.node,
    {
        self.node
    }
}

impl WsPortType {
    /// Retrieve the name of the port type.
    pub fn name(&self, tree: &XmlTree) -> (r: Result<String, WsError>)
        requires
            tree.wf(),
            self.node < tree.nodes@.len(),
        ensures
            match r {
                Ok(s) => spec_attr(*tree, self.node as int, "name"@) == Some(s@),
                Err(e) => spec_attr(*tree, self.node as int, "name"@) is None && is_missing_attr(
                    e,
                    self.node as int,
                    "name"@,
                ),
            },
    {
        name_attr(tree, self.node)
    }

    /// Retrieve the port type's target namespace: the `targetNamespace`
    /// attribute of the nearest ancestor that declares it, however many
    /// levels separate them. Its absence on every ancestor is an error tied
    /// to this node, not to an ancestor.
    pub fn target_namespace(&self, tree: &XmlTree) -> (r: Result<String, WsError>)
        requires
            tree.wf(),
            self.node < tree.nodes@.len(),
        ensures
            match r {
                Ok(s) => spec_target_namespace(*tree, self.node as int) == Some(s@),
                Err(e) => spec_target_namespace(*tree, self.node as int) is None
                    && is_missing_attr(e, self.node as int, "targetNamespace"@),
            },
    {
        match target_namespace_lookup(tree, self.node) {
            Some(v) => Ok(v),
            None => Err(
                WsError(
                    self.node,
                    WsErrorType::MalformedWsdl(
                        WsErrorMalformedType::MissingAttribute(
                            String::from_str("targetNamespace"),
                        ),
                    ),
                ),
            ),
        }
    }

    /// Retrieve the operations of this port type, in document order.
    /// Recomputed from the tree on every call.
    pub fn operations(&self, tree: &XmlTree) -> (r: Result<Vec<WsPortOperation>, WsError>)
        requires
            tree.wf(),
            self.node < tree.nodes@.len(),
        ensures
            r matches Ok(v) && v@ == spec_operations(*tree, self.node as int),
    {
        let ch = tagged_children(tree, self.node, wsdl_namespace(), "operation");
        let ghost target = spec_operations(*tree, self.node as int);
        let ghost ints = spec_tagged_children(*tree, self.node as int, spec_wsdl_ns(), "operation"@);
        let mut v: Vec<WsPortOperation> = Vec::new();
        let n = ch.len();
        let mut k: usize = 0;
        while k < n
            invariant
                n == ch@.len(),
                k <= n,
                ch@.map_values(|c: usize| c as int) == ints,
                target == ints.map_values(|c: int| WsPortOperation { node: c as usize }),
                v@.len() == k,
                forall|m: int| 0 <= m < k ==> v@[m] == target[m],
            decreases n - k,
        {
            v.push(WsPortOperation { node: ch[k] });
            k = k + 1;
        }
        proof {
            assert(v@ =~= target);
        }
        Ok(v)
    }

    /// Return the node index the handle wraps.
    pub fn node(&self) -> (r: usize)
        ensures
            r == self.node,
    {
        self.node
    }
}

impl WsBinding {
    /// Resolve the binding's `type` attribute, by local name, to the
    /// `portType` declaration it names within the enclosing `definitions`
    /// scope. A missing `type` attribute, a malformed reference, or a name
    /// with no target each yield the corresponding error, never a null port
    /// type.
    pub fn port_type(&self, tree: &XmlTree) -> (r: Result<WsPortType, WsError>)
        requires
            tree.wf(),
            self.node < tree.nodes@.len(),
        ensures
            match r {
                Ok(pt) => spec_ref_target(*tree, self.node as int, "type"@, "portType"@) == Some(
                    pt.node as int,
                ) && pt.node < tree.nodes@.len(),
                Err(e) => spec_ref_target(*tree, self.node as int, "type"@, "portType"@) is None
                    && spec_ref_err(*tree, self.node as int, "type"@, e),
            },
    {
        match resolve_ref(tree, self.node, "type", "portType") {
            Ok(c) => Ok(WsPortType { node: c }),
            Err(e) => Err(e),
        }
    }

    /// Retrieve the name of the binding.
    pub fn name(&self, tree: &XmlTree) -> (r: Result<String, WsError>)
        requires
            tree.wf(),
            self.node < tree.nodes@.len(),
        ensures
            match r {
                Ok(s) => spec_attr(*tree, self.node as int, "name"@) == Some(s@),
                Err(e) => spec_attr(*tree, self.node as int, "name"@) is None && is_missing_attr(
                    e,
                    self.node as int,
                    "name"@,
                ),
            },
    {
        name_attr(tree, self.node)
    }

    /// Retrieve the wire details of the binding's operations, in document
    /// order. Recomputed from the tree on every call.
    pub fn operations(&self, tree: &XmlTree) -> (r: Result<Vec<WsBindingOperation>, WsError>)
        requires
            tree.wf(),
            self.node < tree.nodes@.len(),
        ensures
            r matches Ok(v) && v@ == spec_binding_operations(*tree, self.node as int),
    {
        let ch = tagged_children(tree, self.node, wsdl_namespace(), "operation");
        let ghost target = spec_binding_operations(*tree, self.node as int);
        let ghost ints = spec_tagged_children(*tree, self.node as int, spec_wsdl_ns(), "operation"@);
        let mut v: Vec<WsBindingOperation> = Vec::new();
        let n = ch.len();
        let mut k: usize = 0;
        while k < n
            invariant
                n == ch@.len(),
                k <= n,
                ch@.map_values(|c: usize| c as int) == ints,
                target == ints.map_values(|c: int| WsBindingOperation { node: c as usize }),
                v@.len() == k,
                forall|m: int| 0 <= m < k ==> v@[m] == target[m],
            decreases n - k,
        {
            v.push(WsBindingOperation { node: ch[k] });
            k = k + 1;
        }
        proof {
            assert(v@ =~= target);
        }
        Ok(v)
    }

    /// Return the node index the handle wraps.
    pub fn node(&self) -> (r: usize)
        ensures
            r == self.node,
    {
        self.node
    }
}

impl WsService {
    /// Retrieve the name of the service.
    pub fn name(&self, tree: &XmlTree) -> (r: Result<String, WsError>)
        requires
            tree.wf(),
            self.node < tree.nodes@.len(),
        ensures
            match r {
                Ok(s) => spec_attr(*tree, self.node as int, "name"@) == Some(s@),
                Err(e) => spec_attr(*tree, self.node as int, "name"@) is None && is_missing_attr(
                    e,
                    self.node as int,
                    "name"@,
                ),
            },
    {
        name_attr(tree, self.node)
    }

    /// Retrieve the endpoints of this service, in document order. Recomputed
    /// from the tree on every call.
    pub fn ports(&self, tree: &XmlTree) -> (r: Result<Vec<WsServicePort>, WsError>)
        requires
            tree.wf(),
            self.node < tree.nodes@.len(),
        ensures
            r matches Ok(v) && v@ == spec_ports(*tree, self.node as int),
    {
        let ch = tagged_children(tree, self.node, wsdl_namespace(), "port");
        let ghost target = spec_ports(*tree, self.node as int);
        let ghost ints = spec_tagged_children(*tree, self.node as int, spec_wsdl_ns(), "port"@);
        let mut v: Vec<WsServicePort> = Vec::new();
        let n = ch.len();
        let mut k: usize = 0;
        while k < n
            invariant
                n == ch@.len(),
                k <= n,
                ch@.map_values(|c: usize| c as int) == ints,
                target == ints.map_values(|c: int| WsServicePort { node: c as usize }),
                v@.len() == k,
                forall|m: int| 0 <= m < k ==> v@[m] == target[m],
            decreases n - k,
        {
            v.push(WsServicePort { node: ch[k] });
            k = k + 1;
        }
        proof {
            assert(v@ =~= target);
        }
        Ok(v)
    }

    /// Return the node index the handle wraps.
    pub fn node(&self) -> (r: usize)
        ensures
            r == self.node,
    {
        self.node
    }
}

impl WsTypes {
    /// Return the schema containers within, in document order: nodes defined
    /// by the XML Schema specification, which this library exposes opaquely
    /// and never interprets.
    pub fn schemas(&self, tree: &XmlTree) -> (r: Result<Vec<usize>, WsError>)
        requires
            tree.wf(),
            self.node < tree.nodes@.len(),
        ensures
            r matches Ok(v) && v@.map_values(|c: usize| c as int) == spec_tagged_children(
                *tree,
                self.node as int,
                spec_schema_ns(),
                "schema"@,
            ),
    {
        Ok(tagged_children(tree, self.node, schema_namespace(), "schema"))
    }

    /// Return the node index the handle wraps.
    pub fn node(&self) -> (r: usize)
        ensures
            r == self.node,
    {
        self.node
    }
}

impl WsMessagePart {
    /// Retrieve the typename of this parameter: its `element` attribute, or
    /// failing that its `type` attribute, resolved as a qualified reference
    /// in this node's namespace scope. It refers to a type defined under the
    /// `types` node, which this library does not interpret.
    pub fn typename(&self, tree: &XmlTree) -> (r: Result<crate::qname::WsExpandedName, WsError>)
        requires
            tree.wf(),
            self.node < tree.nodes@.len(),
        ensures
            match r {
                Ok(en) => spec_typeref(*tree, self.node as int) matches Some(a) && {
                    &&& !crate::qname::spec_q_malformed(a)
                    &&& en.name@ == crate::qname::spec_q_local(a)
                    &&& if crate::qname::spec_has_colon(a) {
                        en.namespace matches Some(u) && crate::xml::spec_lookup_ns(
                            *tree,
                            self.node as int,
                            Some(crate::qname::spec_q_prefix(a)),
                        ) == Some(u@)
                    } else {
                        en.namespace is None
                    }
                },
                Err(e) => match spec_typeref(*tree, self.node as int) {
                    None => is_missing_attr(e, self.node as int, "type"@),
                    Some(a) => is_invalid_ref(e, self.node as int, a) && (
                    crate::qname::spec_q_malformed(a) || (crate::qname::spec_has_colon(a)
                        && crate::xml::spec_lookup_ns(
                        *tree,
                        self.node as int,
                        Some(crate::qname::spec_q_prefix(a)),
                    ) is None)),
                },
            },
    {
        let a = match attr(tree, self.node, "element") {
            Some(x) => Some(x),
            None => attr(tree, self.node, "type"),
        };
        let a = match a {
            Some(x) => x,
            None => {
                return Err(
                    WsError(
                        self.node,
                        WsErrorType::MalformedWsdl(
                            WsErrorMalformedType::MissingAttribute(String::from_str("type")),
                        ),
                    ),
                );
            },
        };
        match crate::qname::resolve_qualified(tree, self.node, a.as_str()) {
            Ok(en) => Ok(en),
            Err(et) => Err(WsError(self.node, et)),
        }
    }

    /// Retrieve the name of the part.
    pub fn name(&self, tree: &XmlTree) -> (r: Result<String, WsError>)
        requires
            tree.wf(),
            self.node < tree.nodes@.len(),
        ensures
            match r {
                Ok(s) => spec_attr(*tree, self.node as int, "name"@) == Some(s@),
                Err(e) => spec_attr(*tree, self.node as int, "name"@) is None && is_missing_attr(
                    e,
                    self.node as int,
                    "name"@,
                ),
            },
    {
        name_attr(tree, self.node)
    }

    /// Return the node index the handle wraps.
    pub fn node(&self) -> (r: usize)
        ensures
            r == self.node,
    {
        self.node
    }
}

impl WsPortOperation {
    /// Retrieve the input message of this operation: `None` when the
    /// operation has no `input` child at all; an error when the child is
    /// present but its `message` reference is absent, malformed, or names no
    /// `message` declaration of the enclosing `definitions` scope.
    pub fn input(&self, tree: &XmlTree) -> (r: Result<Option<WsMessage>, WsError>)
        requires
            tree.wf(),
            self.node < tree.nodes@.len(),
        ensures
            match r {
                Ok(om) => match spec_first_tagged_child(
                    *tree,
                    self.node as int,
                    spec_wsdl_ns(),
                    "input"@,
                ) {
                    None => om is None,
                    Some(c) => om matches Some(m) && spec_parent_definitions(
                        *tree,
                        self.node as int,
                    ) matches Some(d) && spec_ref_in_def(*tree, d, c, "message"@, "message"@)
                        == Some(m.node as int) && m.node < tree.nodes@.len(),
                },
                Err(e) => spec_first_tagged_child(
                    *tree,
                    self.node as int,
                    spec_wsdl_ns(),
                    "input"@,
                ) matches Some(c) && (if spec_parent_definitions(*tree, self.node as int) is None {
                    is_no_parent(e, spec_top(*tree, self.node as int))
                } else {
                    spec_parent_definitions(*tree, self.node as int) matches Some(d)
                        && spec_ref_in_def(*tree, d, c, "message"@, "message"@) is None && match (
                    spec_attr(*tree, c, "message"@)) {
                        None => is_missing_attr(e, c, "message"@),
                        Some(a) => if crate::qname::spec_q_malformed(a) {
                            is_invalid_ref(e, c, a)
                        } else {
                            is_invalid_ref(e, c, crate::qname::spec_q_local(a))
                        },
                    }
                }),
            },
    {
        let c = match first_tagged_child(tree, self.node, wsdl_namespace(), "input") {
            None => {
                return Ok(None);
            },
            Some(c) => c,
        };
        let def = match WsDefinitions::find_parent(tree, self.node) {
            Ok(d) => d,
            Err(e) => {
                return Err(e);
            },
        };
        match resolve_message_ref(tree, def.node, c) {
            Ok(m) => Ok(Some(m)),
            Err(e) => Err(e),
        }
    }

    /// Retrieve all output messages of this operation, in document order:
    /// the `message` reference of every `output` child, resolved in the
    /// enclosing `definitions` scope. Any reference that is absent, malformed
    /// or unresolved is an error, never skipped.
    pub fn outputs(&self, tree: &XmlTree) -> (r: Result<Vec<WsMessage>, WsError>)
        requires
            tree.wf(),
            self.node < tree.nodes@.len(),
        ensures
            match r {
                Ok(v) => spec_message_refs_ok(*tree, self.node as int, "output"@, v@),
                Err(e) => spec_message_refs_err(*tree, self.node as int, "output"@, e),
            },
    {
        message_refs(tree, self.node, "output")
    }

    /// Retrieve the output message of this operation: `None` when it has no
    /// `output` child, the single resolved message when it has exactly one,
    /// and an ambiguity error when it has several — never a silent narrowing
    /// to the first.
    pub fn output(&self, tree: &XmlTree) -> (r: Result<Option<WsMessage>, WsError>)
        requires
            tree.wf(),
            self.node < tree.nodes@.len(),
        ensures
            match r {
                Ok(om) => spec_parent_definitions(*tree, self.node as int) matches Some(d) && {
                    let kids = spec_tagged_children(*tree, self.node as int, spec_wsdl_ns(), "output"@);
                    match om {
                        None => kids.len() == 0,
                        Some(m) => kids.len() == 1 && spec_ref_in_def(
                            *tree,
                            d,
                            kids[0],
                            "message"@,
                            "message"@,
                        ) == Some(m.node as int) && m.node < tree.nodes@.len(),
                    }
                },
                Err(e) => {
                    let kids = spec_tagged_children(*tree, self.node as int, spec_wsdl_ns(), "output"@);
                    if spec_parent_definitions(*tree, self.node as int) is None {
                        is_no_parent(e, spec_top(*tree, self.node as int))
                    } else if spec_parent_definitions(*tree, self.node as int) matches Some(d)
                        && spec_first_unresolved(*tree, d, kids) is Some {
                        spec_message_refs_err(*tree, self.node as int, "output"@, e)
                    } else {
                        kids.len() >= 2 && is_ambiguous(e, self.node as int, "output"@)
                    }
                },
            },
    {
        single_message_ref(tree, self.node, "output")
    }

    /// Retrieve all fault messages of this operation, in document order: the
    /// `message` reference of every `fault` child, resolved in the enclosing
    /// `definitions` scope. Any reference that is absent, malformed or
    /// unresolved is an error, never skipped.
    pub fn faults(&self, tree: &XmlTree) -> (r: Result<Vec<WsMessage>, WsError>)
        requires
            tree.wf(),
            self.node < tree.nodes@.len(),
        ensures
            match r {
                Ok(v) => spec_message_refs_ok(*tree, self.node as int, "fault"@, v@),
                Err(e) => spec_message_refs_err(*tree, self.node as int, "fault"@, e),
            },
    {
        message_refs(tree, self.node, "fault")
    }

    /// Retrieve the fault message of this operation: `None` when it has no
    /// `fault` child, the single resolved message when it has exactly one,
    /// and an ambiguity error when it has several — never a silent narrowing
    /// to the first.
    pub fn fault(&self, tree: &XmlTree) -> (r: Result<Option<WsMessage>, WsError>)
        requires
            tree.wf(),
            self.node < tree.nodes@.len(),
        ensures
            match r {
                Ok(om) => spec_parent_definitions(*tree, self.node as int) matches Some(d) && {
                    let kids = spec_tagged_children(*tree, self.node as int, spec_wsdl_ns(), "fault"@);
                    match om {
                        None => kids.len() == 0,
                        Some(m) => kids.len() == 1 && spec_ref_in_def(
                            *tree,
                            d,
                            kids[0],
                            "message"@,
                            "message"@,
                        ) == Some(m.node as int) && m.node < tree.nodes@.len(),
                    }
                },
                Err(e) => {
                    let kids = spec_tagged_children(*tree, self.node as int, spec_wsdl_ns(), "fault"@);
                    if spec_parent_definitions(*tree, self.node as int) is None {
                        is_no_parent(e, spec_top(*tree, self.node as int))
                    } else if spec_parent_definitions(*tree, self.node as int) matches Some(d)
                        && spec_first_unresolved(*tree, d, kids) is Some {
                        spec_message_refs_err(*tree, self.node as int, "fault"@, e)
                    } else {
                        kids.len() >= 2 && is_ambiguous(e, self.node as int, "fault"@)
                    }
                },
            },
    {
        single_message_ref(tree, self.node, "fault")
    }

    /// Retrieve the name of the operation.
    pub fn name(&self, tree: &XmlTree) -> (r: Result<String, WsError>)
        requires
            tree.wf(),
            self.node < tree.nodes@.len(),
        ensures
            match r {
                Ok(s) => spec_attr(*tree, self.node as int, "name"@) == Some(s@),
                Err(e) => spec_attr(*tree, self.node as int, "name"@) is None && is_missing_attr(
                    e,
                    self.node as int,
                    "name"@,
                ),
            },
    {
        name_attr(tree, self.node)
    }

    /// Return the node index the handle wraps.
    pub fn node(&self) -> (r: usize)
        ensures
            r == self.node,
    {
        self.node
    }
}

/// The scan for a port operation named `name` among the `operation` children
/// of port type `pt`, from index `from`: `Some(Ok(c))` for the first match,
/// `Some(Err(c))` when an earlier `operation` child lacks its mandatory
/// `name` attribute, `None` when no child matches.
pub open spec fn spec_op_scan_from(tree: XmlTree, pt: int, name: Seq<char>, from: int) -> Option<
    Result<int, int>,
>
    decreases tree.nodes@.len() - from,
{
    if from < 0 || from >= tree.nodes@.len() {
        None
    } else if spec_is_tagged_child(tree, pt, from, spec_wsdl_ns(), "operation"@) {
        match spec_attr(tree, from, "name"@) {
            None => Some(Result::Err(from)),
            Some(n) => if n == name {
                Some(Result::Ok(from))
            } else {
                spec_op_scan_from(tree, pt, name, from + 1)
            },
        }
    } else {
        spec_op_scan_from(tree, pt, name, from + 1)
    }
}

/// The scan for a port operation named `name` among the `operation` children
/// of port type `pt`, in document order.
pub open spec fn spec_op_scan(tree: XmlTree, pt: int, name: Seq<char>) -> Option<Result<int, int>> {
    spec_op_scan_from(tree, pt, name, 0)
}

/// The wire-protocol details of a binding operation: a closed set of
/// transport variants, selected by the namespace of the nested `operation`
/// element. Extending it to a new protocol is an explicit design change, not
/// a fallback branch.
#[derive(Debug, Clone, PartialEq, Eq)]
pub enum WsTransport {
    /// SOAP 1.1, with the mandatory `soapAction` attribute value.
    Soap(String),
    /// SOAP 1.2, with the mandatory `soapAction` attribute value.
    Soap12(String),
    /// HTTP, with the mandatory `location` attribute value.
    Http(String),
}

/// Exactly what the transport classifier returns for binding operation `bo`:
/// the namespace of the nested `operation` element selects the variant and
/// its mandatory attribute, and every failure — no nested element, no
/// namespace, a missing attribute, an unrecognized namespace — is the
/// corresponding error.
pub open spec fn spec_transport_post(tree: XmlTree, bo: int, r: Result<WsTransport, WsError>) -> bool {
    match crate::xml::spec_first_local_child(tree, bo, "operation"@) {
        None => r matches Err(e) && is_missing_elem(e, bo, "operation"@),
        Some(c) => match tree.nodes@[c].namespace {
            None => r matches Err(e) && is_missing_ns(e, c),
            Some(u) => if u@ == spec_soap11_ns() {
                match spec_attr(tree, c, "soapAction"@) {
                    Some(a) => r matches Ok(t) && t matches WsTransport::Soap(s) && s@ == a,
                    None => r matches Err(e) && is_missing_attr(e, c, "soapAction"@),
                }
            } else if u@ == spec_soap12_ns() {
                match spec_attr(tree, c, "soapAction"@) {
                    Some(a) => r matches Ok(t) && t matches WsTransport::Soap12(s) && s@ == a,
                    None => r matches Err(e) && is_missing_attr(e, c, "soapAction"@),
                }
            } else if u@ == spec_http_ns() {
                match spec_attr(tree, c, "location"@) {
                    Some(a) => r matches Ok(t) && t matches WsTransport::Http(s) && s@ == a,
                    None => r matches Err(e) && is_missing_attr(e, c, "location"@),
                }
            } else {
                r matches Err(e) && is_invalid_ns(e, c, u@)
            },
        },
    }
}

impl WsBindingOperation {
    /// Classify this binding operation's transport: the first nested element
    /// with local name `operation` carries, in its namespace, the wire
    /// protocol — SOAP 1.1 and SOAP 1.2 with their `soapAction`, HTTP with
    /// its `location`.
    pub fn transport(&self, tree: &XmlTree) -> (r: Result<WsTransport, WsError>)
        requires
            tree.wf(),
            self.node < tree.nodes@.len(),
        ensures
            spec_transport_post(*tree, self.node as int, r),
    {
        let c = match crate::xml::first_local_child(tree, self.node, "operation") {
            None => {
                return Err(
                    WsError(
                        self.node,
                        WsErrorType::MalformedWsdl(
                            WsErrorMalformedType::MissingElement(String::from_str("operation")),
                        ),
                    ),
                );
            },
            Some(c) => c,
        };
        let uri = match &tree.nodes[c].namespace {
            None => {
                return Err(WsError(c, WsErrorType::MissingNamespace));
            },
            Some(u) => u.clone(),
        };
        if crate::xml::str_eq(uri.as_str(), soap11_namespace()) {
            match attr(tree, c, "soapAction") {
                Some(a) => Ok(WsTransport::Soap(a)),
                None => Err(
                    WsError(
                        c,
                        WsErrorType::MalformedWsdl(
                            WsErrorMalformedType::MissingAttribute(String::from_str("soapAction")),
                        ),
                    ),
                ),
            }
        } else if crate::xml::str_eq(uri.as_str(), soap12_namespace()) {
            match attr(tree, c, "soapAction") {
                Some(a) => Ok(WsTransport::Soap12(a)),
                None => Err(
                    WsError(
                        c,
                        WsErrorType::MalformedWsdl(
                            WsErrorMalformedType::MissingAttribute(String::from_str("soapAction")),
                        ),
                    ),
                ),
            }
        } else if crate::xml::str_eq(uri.as_str(), http_namespace()) {
            match attr(tree, c, "location") {
                Some(a) => Ok(WsTransport::Http(a)),
                None => Err(
                    WsError(
                        c,
                        WsErrorType::MalformedWsdl(
                            WsErrorMalformedType::MissingAttribute(String::from_str("location")),
                        ),
                    ),
                ),
            }
        } else {
            Err(WsError(c, WsErrorType::InvalidNamespace(uri)))
        }
    }

    /// Retrieve the logical port operation that corresponds to this binding
    /// operation: the enclosing binding (this node's parent) names a
    /// `portType`, and the operation of that port type with this node's
    /// `name` is the match. A binding operation without a parent is a
    /// `NoParentNode` fault; a port type without such an operation is a
    /// missing element.
    pub fn port_operation(&self, tree: &XmlTree) -> (r: Result<WsPortOperation, WsError>)
        requires
            tree.wf(),
            self.node < tree.nodes@.len(),
        ensures
            match r {
                Ok(op) => spec_attr(*tree, self.node as int, "name"@) matches Some(nm)
                    && tree.nodes@[self.node as int].parent matches Some(b) && spec_ref_target(
                    *tree,
                    b as int,
                    "type"@,
                    "portType"@,
                ) matches Some(pt) && spec_op_scan(*tree, pt, nm) == Some(
                    Result::<int, int>::Ok(op.node as int),
                ) && op.node < tree.nodes@.len(),
                Err(e) => match spec_attr(*tree, self.node as int, "name"@) {
                    None => is_missing_attr(e, self.node as int, "name"@),
                    Some(nm) => match tree.nodes@[self.node as int].parent {
                        None => is_no_parent(e, self.node as int),
                        Some(b) => if spec_ref_target(*tree, b as int, "type"@, "portType"@)
                            is None {
                            spec_ref_err(*tree, b as int, "type"@, e)
                        } else {
                            spec_ref_target(*tree, b as int, "type"@, "portType"@) matches Some(pt)
                                && match spec_op_scan(*tree, pt, nm) {
                                None => is_missing_elem(e, self.node as int, nm),
                                Some(res) => res matches Err(c) && is_missing_attr(e, c, "name"@),
                            }
                        },
                    },
                },
            },
    {
        let nm = match name_attr(tree, self.node) {
            Ok(s) => s,
            Err(e) => {
                return Err(e);
            },
        };
        let b = match &tree.nodes[self.node].parent {
            Some(p) => *p,
            None => {
                return Err(WsError(self.node, WsErrorType::NoParentNode));
            },
        };
        proof {
            assert(tree.nodes@[self.node as int].parent matches Some(q) && (q as int) < self.node
                as int);
        }
        let binding = WsBinding { node: b };
        let pt = match binding.port_type(tree) {
            Ok(pt) => pt,
            Err(e) => {
                return Err(e);
            },
        };
        let n = tree.nodes.len();
        let mut j: usize = 0;
        while j < n
            invariant
                tree.wf(),
                n == tree.nodes@.len(),
                j <= n,
                self.node < n,
                pt.node < n,
                spec_attr(*tree, self.node as int, "name"@) == Some(nm@),
                tree.nodes@[self.node as int].parent == Some(b),
                spec_ref_target(*tree, b as int, "type"@, "portType"@) == Some(pt.node as int),
                spec_op_scan(*tree, pt.node as int, nm@) == spec_op_scan_from(
                    *tree,
                    pt.node as int,
                    nm@,
                    j as int,
                ),
            decreases n - j,
        {
            let is_op = match &tree.nodes[j].parent {
                Some(q) => *q == pt.node && has_tag(tree, j, wsdl_namespace(), "operation"),
                None => false,
            };
            if is_op {
                match attr(tree, j, "name") {
                    None => {
                        return Err(
                            WsError(
                                j,
                                WsErrorType::MalformedWsdl(
                                    WsErrorMalformedType::MissingAttribute(
                                        String::from_str("name"),
                                    ),
                                ),
                            ),
                        );
                    },
                    Some(opn) => {
                        if crate::xml::str_eq(opn.as_str(), nm.as_str()) {
                            return Ok(WsPortOperation { node: j });
                        }
                    },
                }
            } else {
                proof {
                    assert(!spec_is_tagged_child(
                        *tree,
                        pt.node as int,
                        j as int,
                        spec_wsdl_ns(),
                        "operation"@,
                    ));
                }
            }
            j = j + 1;
        }
        Err(
            WsError(
                self.node,
                WsErrorType::MalformedWsdl(WsErrorMalformedType::MissingElement(nm)),
            ),
        )
    }

    /// Return the name of the operation described.
    pub fn name(&self, tree: &XmlTree) -> (r: Result<String, WsError>)
        requires
            tree.wf(),
            self.node < tree.nodes@.len(),
        ensures
            match r {
                Ok(s) => spec_attr(*tree, self.node as int, "name"@) == Some(s@),
                Err(e) => spec_attr(*tree, self.node as int, "name"@) is None && is_missing_attr(
                    e,
                    self.node as int,
                    "name"@,
                ),
            },
    {
        name_attr(tree, self.node)
    }

    /// Return the node index the handle wraps.
    pub fn node(&self) -> (r: usize)
        ensures
            r == self.node,
    {
        self.node
    }
}

impl WsServicePort {
    /// Fetch the binding this endpoint refers to: its `binding` attribute,
    /// resolved by local name among the `binding` declarations of the
    /// enclosing `definitions` scope.
    pub fn binding(&self, tree: &XmlTree) -> (r: Result<WsBinding, WsError>)
        requires
            tree.wf(),
            self.node < tree.nodes@.len(),
        ensures
            match r {
                Ok(b) => spec_ref_target(*tree, self.node as int, "binding"@, "binding"@) == Some(
                    b.node as int,
                ) && b.node < tree.nodes@.len(),
                Err(e) => spec_ref_target(*tree, self.node as int, "binding"@, "binding"@) is None
                    && spec_ref_err(*tree, self.node as int, "binding"@, e),
            },
    {
        match resolve_ref(tree, self.node, "binding", "binding") {
            Ok(c) => Ok(WsBinding { node: c }),
            Err(e) => Err(e),
        }
    }

    /// Retrieve the name of the endpoint.
    pub fn name(&self, tree: &XmlTree) -> (r: Result<String, WsError>)
        requires
            tree.wf(),
            self.node < tree.nodes@.len(),
        ensures
            match r {
                Ok(s) => spec_attr(*tree, self.node as int, "name"@) == Some(s@),
                Err(e) => spec_attr(*tree, self.node as int, "name"@) is None && is_missing_attr(
                    e,
                    self.node as int,
                    "name"@,
                ),
            },
    {
        name_attr(tree, self.node)
    }

    /// Return the node index the handle wraps.
    pub fn node(&self) -> (r: usize)
        ensures
            r == self.node,
    {
        self.node
    }
}

} // verus!
