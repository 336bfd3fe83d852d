//! A plain model of a parsed, namespace-aware XML element tree.
//!
//! The caller (typically the code that ran an XML parser) flattens the
//! document's elements into a [`XmlTree`]: one [`XmlNode`] per element, in
//! document order, each carrying the index of its parent element, its
//! expanded tag name, its attributes, and the namespace declarations that
//! appear on it. All navigation this library performs — child filtering,
//! ancestor walks, in-scope namespace lookup — is defined over this model.

use vstd::prelude::*;

verus! {

/// One attribute of an element: its local name and its literal value.
#[derive(Debug, Clone)]
pub struct XmlAttribute {
    pub name: String,
    pub value: String,
}

/// One namespace declaration appearing on an element: a prefix (`None` for
/// the default namespace) bound to a namespace URI.
#[derive(Debug, Clone)]
pub struct XmlNamespace {
    pub prefix: Option<String>,
    pub uri: String,
}

/// One element of the document.
#[derive(Debug, Clone)]
pub struct XmlNode {
    /// Index of the enclosing element in the tree, `None` for a top-level
    /// element.
    pub parent: Option<usize>,
    /// Namespace URI of the tag, `None` for an unqualified tag.
    pub namespace: Option<String>,
    /// Local part of the tag name.
    pub local_name: String,
    /// The element's attributes, keyed by local name.
    pub attributes: Vec<XmlAttribute>,
    /// The namespace declarations written on this element (not the inherited
    /// ones: lookup walks the ancestor chain).
    pub namespaces: Vec<XmlNamespace>,
}

/// An XML document reduced to its elements, in document order. The node at
/// index `i` precedes, in the document, every node at an index above `i`;
/// in particular the children of a node, read in index order, are in
/// document order.
#[derive(Debug, Clone)]
pub struct XmlTree {
    pub nodes: Vec<XmlNode>,
}

impl XmlTree {
    /// Document (pre)order: every element stands after its parent. This is
    /// what bounds every ancestor walk.
    pub open spec fn wf(self) -> bool {
        forall|i: int| 0 <= i < self.nodes@.len() ==> match (#[trigger] self.nodes@[i]).parent {
            Some(p) => (p as int) < i,
            None => true,
        }
    }

    /// The number of elements in the tree.
    pub fn len(&self) -> (r: usize)
        ensures
            r == self.nodes@.len(),
    {
        self.nodes.len()
    }
}

/// The value of the first attribute in `attrs` named `name`, if any.
/// Attribute names are unique on a well-formed element, so "first" is not a
/// choice.
pub open spec fn spec_find_attr(attrs: Seq<XmlAttribute>, name: Seq<char>) -> Option<Seq<char>>
    decreases attrs.len(),
{
    if attrs.len() == 0 {
        None
    } else if attrs[0].name@ == name {
        Some(attrs[0].value@)
    } else {
        spec_find_attr(attrs.drop_first(), name)
    }
}

/// The value of attribute `name` on node `i`.
pub open spec fn spec_attr(tree: XmlTree, i: int, name: Seq<char>) -> Option<Seq<char>>
    recommends
        0 <= i < tree.nodes@.len(),
{
    spec_find_attr(tree.nodes@[i].attributes@, name)
}

/// Whether node `i` carries the expanded tag name `(ns, local)`.
pub open spec fn spec_is_tag(tree: XmlTree, i: int, ns: Seq<char>, local: Seq<char>) -> bool
    recommends
        0 <= i < tree.nodes@.len(),
{
    &&& match tree.nodes@[i].namespace {
        Some(u) => u@ == ns,
        None => false,
    }
    &&& tree.nodes@[i].local_name@ == local
}

/// String equality, stated over the views.
pub fn str_eq(a: &str, b: &str) -> (r: bool)
    ensures
        r == (a@ == b@),
{
    let sa = a.to_owned();
    let sb = b.to_owned();
    sa == sb
}

/// Equality of an optional owned string against an optional borrowed one.
pub fn opt_str_eq(a: &Option<String>, b: Option<&str>) -> (r: bool)
    ensures
        r == match (a, b) {
            (Some(x), Some(y)) => x@ == y@,
            (None, None) => true,
            _ => false,
        },
{
    match (a, b) {
        (Some(x), Some(y)) => str_eq(x.as_str(), y),
        (None, None) => true,
        _ => false,
    }
}

/// Look an attribute up by local name on one node.
pub fn find_attr(node: &XmlNode, name: &str) -> (r: Option<String>)
    ensures
        match r {
            Some(v) => spec_find_attr(node.attributes@, name@) == Some(v@),
            None => spec_find_attr(node.attributes@, name@) is None,
        },
{
    let n = node.attributes.len();
    let mut k: usize = 0;
    proof {
        assert(node.attributes@.skip(0) =~= node.attributes@);
    }
    while k < n
        invariant
            n == node.attributes@.len(),
            k <= n,
            spec_find_attr(node.attributes@.skip(k as int), name@) == spec_find_attr(
                node.attributes@,
                name@,
            ),
        decreases n - k,
    {
        proof {
            assert(node.attributes@.skip(k as int)[0] == node.attributes@[k as int]);
        }
        if str_eq(node.attributes[k].name.as_str(), name) {
            return Some(node.attributes[k].value.clone());
        }
        proof {
            assert(node.attributes@.skip(k as int).drop_first() =~= node.attributes@.skip(
                k as int + 1,
            ));
        }
        k = k + 1;
    }
    proof {
        assert(node.attributes@.skip(n as int).len() == 0);
    }
    None
}

/// Look an attribute up by local name on node `i` of the tree.
pub fn attr(tree: &XmlTree, i: usize, name: &str) -> (r: Option<String>)
    requires
        i < tree.nodes@.len(),
    ensures
        match r {
            Some(v) => spec_attr(*tree, i as int, name@) == Some(v@),
            None => spec_attr(*tree, i as int, name@) is None,
        },
{
    find_attr(&tree.nodes[i], name)
}

/// Whether node `c` is a child of node `p` carrying the expanded tag name
/// `(ns, local)`.
pub open spec fn spec_is_tagged_child(
    tree: XmlTree,
    p: int,
    c: int,
    ns: Seq<char>,
    local: Seq<char>,
) -> bool {
    &&& 0 <= c < tree.nodes@.len()
    &&& tree.nodes@[c].parent matches Some(q) && q as int == p
    &&& spec_is_tag(tree, c, ns, local)
}

/// The children of `p` tagged `(ns, local)` whose index is at least `from`,
/// in document order.
pub open spec fn spec_tagged_children_from(
    tree: XmlTree,
    p: int,
    ns: Seq<char>,
    local: Seq<char>,
    from: int,
) -> Seq<int>
    decreases tree.nodes@.len() - from,
{
    if from < 0 || from >= tree.nodes@.len() {
        Seq::empty()
    } else if spec_is_tagged_child(tree, p, from, ns, local) {
        seq![from] + spec_tagged_children_from(tree, p, ns, local, from + 1)
    } else {
        spec_tagged_children_from(tree, p, ns, local, from + 1)
    }
}

/// All children of `p` tagged `(ns, local)`, in document order.
pub open spec fn spec_tagged_children(
    tree: XmlTree,
    p: int,
    ns: Seq<char>,
    local: Seq<char>,
) -> Seq<int> {
    spec_tagged_children_from(tree, p, ns, local, 0)
}

/// Every entry of the filtered child list is indeed a matching child, the
/// list is strictly increasing (document order), and it is complete: a
/// matching child at or past `from` appears in it.
pub proof fn lemma_tagged_children_from(
    tree: XmlTree,
    p: int,
    ns: Seq<char>,
    local: Seq<char>,
    from: int,
)
    requires
        0 <= from,
    ensures
        forall|k: int|
            0 <= k < spec_tagged_children_from(tree, p, ns, local, from).len()
                ==> spec_is_tagged_child(
                tree,
                p,
                #[trigger] spec_tagged_children_from(tree, p, ns, local, from)[k],
                ns,
                local,
            ) && from <= spec_tagged_children_from(tree, p, ns, local, from)[k],
        forall|k1: int, k2: int|
            0 <= k1 < k2 < spec_tagged_children_from(tree, p, ns, local, from).len()
                ==> #[trigger] spec_tagged_children_from(tree, p, ns, local, from)[k1]
                < #[trigger] spec_tagged_children_from(tree, p, ns, local, from)[k2],
        forall|c: int|
            from <= c && spec_is_tagged_child(tree, p, c, ns, local)
                ==> #[trigger] spec_tagged_children_from(tree, p, ns, local, from).contains(c),
    decreases tree.nodes@.len() - from,
{
    if from < 0 || from >= tree.nodes@.len() {
    } else {
        lemma_tagged_children_from(tree, p, ns, local, from + 1);
        let rest = spec_tagged_children_from(tree, p, ns, local, from + 1);
        let whole = spec_tagged_children_from(tree, p, ns, local, from);
        if spec_is_tagged_child(tree, p, from, ns, local) {
            assert(whole == seq![from] + rest);
            assert forall|c: int| from <= c && spec_is_tagged_child(tree, p, c, ns, local)
                implies #[trigger] whole.contains(c) by {
                if c == from {
                    assert(whole[0] == from);
                } else {
                    assert(spec_tagged_children_from(tree, p, ns, local, from + 1).contains(c));
                    let k = choose|k: int| 0 <= k < rest.len() && rest[k] == c;
                    assert(whole[k + 1] == c);
                }
            }
        } else {
            assert(whole == rest);
            assert forall|c: int| from <= c && spec_is_tagged_child(tree, p, c, ns, local)
                implies #[trigger] whole.contains(c) by {
                assert(c != from);
                assert(spec_tagged_children_from(tree, p, ns, local, from + 1).contains(c));
                let k = choose|k: int| 0 <= k < rest.len() && rest[k] == c;
                assert(whole[k] == c);
            }
        }
    }
}

/// As [`lemma_tagged_children_from`], for the whole child list: membership in
/// the list coincides with being a matching child, and the list is in
/// document order.
pub proof fn lemma_tagged_children(tree: XmlTree, p: int, ns: Seq<char>, local: Seq<char>)
    ensures
        forall|k: int|
            0 <= k < spec_tagged_children(tree, p, ns, local).len() ==> spec_is_tagged_child(
                tree,
                p,
                #[trigger] spec_tagged_children(tree, p, ns, local)[k],
                ns,
                local,
            ),
        forall|k1: int, k2: int|
            0 <= k1 < k2 < spec_tagged_children(tree, p, ns, local).len()
                ==> #[trigger] spec_tagged_children(tree, p, ns, local)[k1]
                < #[trigger] spec_tagged_children(tree, p, ns, local)[k2],
        forall|c: int|
            spec_is_tagged_child(tree, p, c, ns, local) ==> #[trigger] spec_tagged_children(
                tree,
                p,
                ns,
                local,
            ).contains(c),
{
    lemma_tagged_children_from(tree, p, ns, local, 0);
}

/// Collect the children of `p` tagged `(ns, local)`, in document order.
pub fn tagged_children(tree: &XmlTree, p: usize, ns: &str, local: &str) -> (r: Vec<usize>)
    requires
        p < tree.nodes@.len(),
    ensures
        r@.map_values(|c: usize| c as int) == spec_tagged_children(*tree, p as int, ns@, local@),
{
    let n = tree.nodes.len();
    let mut r: Vec<usize> = Vec::new();
    let mut j: usize = 0;
    while j < n
        invariant
            n == tree.nodes@.len(),
            j <= n,
            p < n,
            spec_tagged_children(*tree, p as int, ns@, local@) == r@.map_values(|c: usize| c as int)
                + spec_tagged_children_from(*tree, p as int, ns@, local@, j as int),
        decreases n - j,
    {
        let node = &tree.nodes[j];
        let is_match = match &node.parent {
            Some(q) => *q == p && has_tag(tree, j, ns, local),
            None => false,
        };
        let ghost prev = r@;
        if is_match {
            r.push(j);
            proof {
                assert(r@.map_values(|c: usize| c as int) =~= prev.map_values(|c: usize| c as int)
                    + seq![j as int]);
            }
        }
        proof {
            if is_match {
                assert(spec_is_tagged_child(*tree, p as int, j as int, ns@, local@));
                assert(prev.map_values(|c: usize| c as int) + (seq![j as int]
                    + spec_tagged_children_from(*tree, p as int, ns@, local@, j as int + 1)) =~= (
                prev.map_values(|c: usize| c as int) + seq![j as int])
                    + spec_tagged_children_from(*tree, p as int, ns@, local@, j as int + 1));
            } else {
                assert(!spec_is_tagged_child(*tree, p as int, j as int, ns@, local@));
            }
        }
        j = j + 1;
    }
    proof {
        assert(spec_tagged_children_from(*tree, p as int, ns@, local@, n as int) =~= Seq::<
            int,
        >::empty());
        assert(r@.map_values(|c: usize| c as int) + Seq::<int>::empty() =~= r@.map_values(
            |c: usize| c as int,
        ));
    }
    r
}

/// Whether a declaration's prefix is the one looked up.
pub open spec fn spec_prefix_matches(declared: Option<String>, wanted: Option<Seq<char>>) -> bool {
    match (declared, wanted) {
        (Some(x), Some(y)) => x@ == y,
        (None, None) => true,
        _ => false,
    }
}

/// The URI bound to `prefix` among the declarations `decls`, if any.
pub open spec fn spec_find_ns_decl(
    decls: Seq<XmlNamespace>,
    prefix: Option<Seq<char>>,
) -> Option<Seq<char>>
    decreases decls.len(),
{
    if decls.len() == 0 {
        None
    } else if spec_prefix_matches(decls[0].prefix, prefix) {
        Some(decls[0].uri@)
    } else {
        spec_find_ns_decl(decls.drop_first(), prefix)
    }
}

/// The URI bound to `prefix` in the lexical scope of node `i`: the innermost
/// declaration on `i` or on one of its ancestors wins.
pub open spec fn spec_lookup_ns(tree: XmlTree, i: int, prefix: Option<Seq<char>>) -> Option<
    Seq<char>,
>
    decreases i,
{
    if 0 <= i < tree.nodes@.len() {
        match spec_find_ns_decl(tree.nodes@[i].namespaces@, prefix) {
            Some(u) => Some(u),
            None => match tree.nodes@[i].parent {
                Some(p) => if (p as int) < i {
                    spec_lookup_ns(tree, p as int, prefix)
                } else {
                    None
                },
                None => None,
            },
        }
    } else {
        None
    }
}

/// The value of the `targetNamespace` attribute on node `i` or on its nearest
/// ancestor that carries it.
pub open spec fn spec_tns_at(tree: XmlTree, i: int) -> Option<Seq<char>>
    decreases i,
{
    if 0 <= i < tree.nodes@.len() {
        match spec_attr(tree, i, "targetNamespace"@) {
            Some(v) => Some(v),
            None => match tree.nodes@[i].parent {
                Some(p) => if (p as int) < i {
                    spec_tns_at(tree, p as int)
                } else {
                    None
                },
                None => None,
            },
        }
    } else {
        None
    }
}

/// The target namespace in force at node `i`: the `targetNamespace`
/// attribute of the nearest proper ancestor that declares it. The node's own
/// attributes are not consulted.
pub open spec fn spec_target_namespace(tree: XmlTree, i: int) -> Option<Seq<char>>
    recommends
        0 <= i < tree.nodes@.len(),
{
    match tree.nodes@[i].parent {
        Some(p) => spec_tns_at(tree, p as int),
        None => None,
    }
}

/// The topmost ancestor of node `i` (or `i` itself when it has no parent):
/// the node at which an upward walk runs out of parents.
pub open spec fn spec_top(tree: XmlTree, i: int) -> int
    decreases i,
{
    if 0 <= i < tree.nodes@.len() {
        match tree.nodes@[i].parent {
            Some(p) => if (p as int) < i {
                spec_top(tree, p as int)
            } else {
                i
            },
            None => i,
        }
    } else {
        i
    }
}

/// Look the prefix up in the namespace scope of `node`, walking the ancestor
/// chain from the node itself.
pub fn lookup_namespace_uri(tree: &XmlTree, node: usize, prefix: Option<&str>) -> (r: Option<
    String,
>)
    requires
        tree.wf(),
        node < tree.nodes@.len(),
    ensures
        match r {
            Some(u) => spec_lookup_ns(*tree, node as int, spec_opt_view(prefix)) == Some(u@),
            None => spec_lookup_ns(*tree, node as int, spec_opt_view(prefix)) is None,
        },
{
    let mut cur = node;
    loop
        invariant
            tree.wf(),
            cur < tree.nodes@.len(),
            spec_lookup_ns(*tree, cur as int, spec_opt_view(prefix)) == spec_lookup_ns(
                *tree,
                node as int,
                spec_opt_view(prefix),
            ),
        decreases cur,
    {
        if let Some(u) = find_ns_decl(&tree.nodes[cur], prefix) {
            return Some(u);
        }
        match &tree.nodes[cur].parent {
            Some(p) => {
                cur = *p;
            },
            None => {
                return None;
            },
        }
    }
}

/// The view of an optional borrowed string.
pub open spec fn spec_opt_view(s: Option<&str>) -> Option<Seq<char>> {
    match s {
        Some(x) => Some(x@),
        None => None,
    }
}

/// Find the URI a prefix is bound to among one node's own declarations.
fn find_ns_decl(node: &XmlNode, prefix: Option<&str>) -> (r: Option<String>)
    ensures
        match r {
            Some(u) => spec_find_ns_decl(node.namespaces@, spec_opt_view(prefix)) == Some(u@),
            None => spec_find_ns_decl(node.namespaces@, spec_opt_view(prefix)) is None,
        },
{
    let n = node.namespaces.len();
    let mut k: usize = 0;
    proof {
        assert(node.namespaces@.skip(0) =~= node.namespaces@);
    }
    while k < n
        invariant
            n == node.namespaces@.len(),
            k <= n,
            spec_find_ns_decl(node.namespaces@.skip(k as int), spec_opt_view(prefix))
                == spec_find_ns_decl(node.namespaces@, spec_opt_view(prefix)),
        decreases n - k,
    {
        proof {
            assert(node.namespaces@.skip(k as int)[0] == node.namespaces@[k as int]);
        }
        if opt_str_eq(&node.namespaces[k].prefix, prefix) {
            return Some(node.namespaces[k].uri.clone());
        }
        proof {
            assert(node.namespaces@.skip(k as int).drop_first() =~= node.namespaces@.skip(
                k as int + 1,
            ));
        }
        k = k + 1;
    }
    proof {
        assert(node.namespaces@.skip(n as int).len() == 0);
    }
    None
}

/// Walk the proper ancestors of `node` for a `targetNamespace` attribute.
pub fn target_namespace_lookup(tree: &XmlTree, node: usize) -> (r: Option<String>)
    requires
        tree.wf(),
        node < tree.nodes@.len(),
    ensures
        match r {
            Some(v) => spec_target_namespace(*tree, node as int) == Some(v@),
            None => spec_target_namespace(*tree, node as int) is None,
        },
{
    let mut cur = match &tree.nodes[node].parent {
        Some(p) => *p,
        None => {
            return None;
        },
    };
    loop
        invariant
            tree.wf(),
            cur < tree.nodes@.len(),
            spec_tns_at(*tree, cur as int) == spec_target_namespace(*tree, node as int),
        decreases cur,
    {
        if let Some(v) = attr(tree, cur, "targetNamespace") {
            return Some(v);
        }
        match &tree.nodes[cur].parent {
            Some(p) => {
                cur = *p;
            },
            None => {
                return None;
            },
        }
    }
}

/// The first child of `p` tagged `(ns, local)` at or past index `from`.
pub open spec fn spec_first_tagged_child_from(
    tree: XmlTree,
    p: int,
    ns: Seq<char>,
    local: Seq<char>,
    from: int,
) -> Option<int>
    decreases tree.nodes@.len() - from,
{
    if from < 0 || from >= tree.nodes@.len() {
        None
    } else if spec_is_tagged_child(tree, p, from, ns, local) {
        Some(from)
    } else {
        spec_first_tagged_child_from(tree, p, ns, local, from + 1)
    }
}

/// The first child of `p` tagged `(ns, local)`, in document order.
pub open spec fn spec_first_tagged_child(
    tree: XmlTree,
    p: int,
    ns: Seq<char>,
    local: Seq<char>,
) -> Option<int> {
    spec_first_tagged_child_from(tree, p, ns, local, 0)
}

/// Find the first child of `p` tagged `(ns, local)`, in document order.
pub fn first_tagged_child(tree: &XmlTree, p: usize, ns: &str, local: &str) -> (r: Option<usize>)
    requires
        p < tree.nodes@.len(),
    ensures
        match r {
            Some(c) => spec_first_tagged_child(*tree, p as int, ns@, local@) == Some(c as int)
                && c < tree.nodes@.len(),
            None => spec_first_tagged_child(*tree, p as int, ns@, local@) is None,
        },
{
    let n = tree.nodes.len();
    let mut j: usize = 0;
    while j < n
        invariant
            n == tree.nodes@.len(),
            j <= n,
            p < n,
            spec_first_tagged_child(*tree, p as int, ns@, local@) == spec_first_tagged_child_from(
                *tree,
                p as int,
                ns@,
                local@,
                j as int,
            ),
        decreases n - j,
    {
        let is_match = match &tree.nodes[j].parent {
            Some(q) => *q == p && has_tag(tree, j, ns, local),
            None => false,
        };
        if is_match {
            return Some(j);
        }
        proof {
            assert(!spec_is_tagged_child(*tree, p as int, j as int, ns@, local@));
        }
        j = j + 1;
    }
    None
}

/// Whether node `c` is a child of node `p` whose tag's local name is `local`,
/// whatever its namespace (including none).
pub open spec fn spec_is_local_child(tree: XmlTree, p: int, c: int, local: Seq<char>) -> bool {
    &&& 0 <= c < tree.nodes@.len()
    &&& tree.nodes@[c].parent matches Some(q) && q as int == p
    &&& tree.nodes@[c].local_name@ == local
}

/// The first child of `p` with tag local name `local` at or past index
/// `from`, in any namespace.
pub open spec fn spec_first_local_child_from(
    tree: XmlTree,
    p: int,
    local: Seq<char>,
    from: int,
) -> Option<int>
    decreases tree.nodes@.len() - from,
{
    if from < 0 || from >= tree.nodes@.len() {
        None
    } else if spec_is_local_child(tree, p, from, local) {
        Some(from)
    } else {
        spec_first_local_child_from(tree, p, local, from + 1)
    }
}

/// The first child of `p` with tag local name `local`, in document order.
pub open spec fn spec_first_local_child(tree: XmlTree, p: int, local: Seq<char>) -> Option<int> {
    spec_first_local_child_from(tree, p, local, 0)
}

/// Find the first child of `p` whose tag's local name is `local`, whatever
/// its namespace.
pub fn first_local_child(tree: &XmlTree, p: usize, local: &str) -> (r: Option<usize>)
    requires
        p < tree.nodes@.len(),
    ensures
        match r {
            Some(c) => spec_first_local_child(*tree, p as int, local@) == Some(c as int) && c
                < tree.nodes@.len(),
            None => spec_first_local_child(*tree, p as int, local@) is None,
        },
{
    let n = tree.nodes.len();
    let mut j: usize = 0;
    while j < n
        invariant
            n == tree.nodes@.len(),
            j <= n,
            p < n,
            spec_first_local_child(*tree, p as int, local@) == spec_first_local_child_from(
                *tree,
                p as int,
                local@,
                j as int,
            ),
        decreases n - j,
    {
        let node = &tree.nodes[j];
        let is_match = match &node.parent {
            Some(q) => *q == p && str_eq(node.local_name.as_str(), local),
            None => false,
        };
        if is_match {
            return Some(j);
        }
        proof {
            assert(!spec_is_local_child(*tree, p as int, j as int, local@));
        }
        j = j + 1;
    }
    None
}

/// Test node `i` against an expanded tag name.
pub fn has_tag(tree: &XmlTree, i: usize, ns: &str, local: &str) -> (r: bool)
    requires
        i < tree.nodes@.len(),
    ensures
        r == spec_is_tag(*tree, i as int, ns@, local@),
{
    let node = &tree.nodes[i];
    opt_str_eq(&node.namespace, Some(ns)) && str_eq(node.local_name.as_str(), local)
}

} // verus!
