//! Qualified-name handling: splitting `prefix:local` references and
//! resolving the prefix against the namespace scope of the referencing node.
//!
//! Policy for unprefixed references: they resolve to no namespace. The caller
//! decides whether a bare name inherits a default namespace; the
//! cross-reference resolvers of this library match by local name alone.

use vstd::prelude::*;

use crate::wsdl::WsErrorType;
use crate::xml::{spec_lookup_ns, XmlTree};

verus! {

/// The index of the first `:` in `s` at or past `from`, or `s.len()` when
/// there is none.
pub open spec fn spec_find_colon(s: Seq<char>, from: int) -> int
    decreases s.len() - from,
{
    if from < 0 || from >= s.len() {
        s.len() as int
    } else if s[from] == ':' {
        from
    } else {
        spec_find_colon(s, from + 1)
    }
}

/// Whether `s` contains a prefix separator.
pub open spec fn spec_has_colon(s: Seq<char>) -> bool {
    spec_find_colon(s, 0) < s.len()
}

/// The prefix of a qualified reference: what stands before the first `:`.
pub open spec fn spec_q_prefix(s: Seq<char>) -> Seq<char>
    recommends
        spec_has_colon(s),
{
    s.subrange(0, spec_find_colon(s, 0))
}

/// The local part of a reference: what stands between the first `:` and the
/// next one (or the end), or the whole string when it has no prefix.
pub open spec fn spec_q_local(s: Seq<char>) -> Seq<char> {
    if spec_has_colon(s) {
        let fc = spec_find_colon(s, 0);
        s.subrange(fc + 1, spec_find_colon(s, fc + 1))
    } else {
        s
    }
}

/// A prefixed reference is malformed when its prefix or its local part is
/// empty.
pub open spec fn spec_q_malformed(s: Seq<char>) -> bool {
    spec_has_colon(s) && (spec_q_prefix(s).len() == 0 || spec_q_local(s).len() == 0)
}

/// Find the first `:` at or past `from`, returning the length when there is
/// none.
fn find_colon(s: &str, from: usize) -> (r: usize)
    requires
        from <= s@.len(),
    ensures
        r as int == spec_find_colon(s@, from as int),
        from <= r <= s@.len(),
{
    let n = s.unicode_len();
    let mut i = from;
    while i < n
        invariant
            n == s@.len(),
            from <= i <= n,
            spec_find_colon(s@, from as int) == spec_find_colon(s@, i as int),
        decreases n - i,
    {
        if s.get_char(i) == ':' {
            return i;
        }
        i = i + 1;
    }
    n
}

/// A qualified reference resolved to its namespace URI (if it carried a
/// prefix) and its local name.
#[derive(Debug, Clone, PartialEq, Eq)]
pub struct WsExpandedName {
    /// The URI the prefix was bound to, `None` for an unprefixed reference.
    pub namespace: Option<String>,
    /// The local name.
    pub name: String,
}

/// Split a colon-qualified reference into its prefix and local parts without
/// resolving the prefix — for call sites that match by local name alone.
///
/// An unprefixed reference comes back whole, with no prefix. A prefixed one
/// whose prefix or local part is empty is malformed and rejected.
pub fn split_qualified(qualified_name: &str) -> (r: Result<(Option<String>, String), WsErrorType>)
    ensures
        match r {
            Ok((prefix, local)) => {
                &&& !spec_q_malformed(qualified_name@)
                &&& local@ == spec_q_local(qualified_name@)
                &&& match prefix {
                    Some(p) => spec_has_colon(qualified_name@) && p@ == spec_q_prefix(
                        qualified_name@,
                    ),
                    None => !spec_has_colon(qualified_name@),
                }
            },
            Err(e) => {
                &&& spec_q_malformed(qualified_name@)
                &&& e matches WsErrorType::InvalidReference(t) && t@ == qualified_name@
            },
        },
{
    let n = s_len(qualified_name);
    let fc = find_colon(qualified_name, 0);
    if fc == n {
        return Ok((None, qualified_name.to_owned()));
    }
    let sc = find_colon(qualified_name, fc + 1);
    if fc == 0 || sc == fc + 1 {
        return Err(WsErrorType::InvalidReference(qualified_name.to_owned()));
    }
    let prefix = qualified_name.substring_char(0, fc).to_owned();
    let local = qualified_name.substring_char(fc + 1, sc).to_owned();
    Ok((Some(prefix), local))
}

/// The character length of a string slice.
fn s_len(s: &str) -> (r: usize)
    ensures
        r == s@.len(),
{
    s.unicode_len()
}

/// Resolve a colon-qualified reference in the namespace scope of `node`: the
/// prefix must be bound there. An unprefixed reference resolves to no
/// namespace.
pub fn resolve_qualified(tree: &XmlTree, node: usize, qualified_name: &str) -> (r: Result<
    WsExpandedName,
    WsErrorType,
>)
    requires
        tree.wf(),
        node < tree.nodes@.len(),
    ensures
        match r {
            Ok(en) => {
                &&& !spec_q_malformed(qualified_name@)
                &&& en.name@ == spec_q_local(qualified_name@)
                &&& if spec_has_colon(qualified_name@) {
                    en.namespace matches Some(u) && spec_lookup_ns(
                        *tree,
                        node as int,
                        Some(spec_q_prefix(qualified_name@)),
                    ) == Some(u@)
                } else {
                    en.namespace is None
                }
            },
            Err(e) => {
                &&& e matches WsErrorType::InvalidReference(t) && t@ == qualified_name@
                &&& spec_q_malformed(qualified_name@) || (!spec_q_malformed(qualified_name@)
                    && spec_has_colon(qualified_name@) && spec_lookup_ns(
                    *tree,
                    node as int,
                    Some(spec_q_prefix(qualified_name@)),
                ) is None)
            },
        },
{
    match split_qualified(qualified_name) {
        Err(e) => Err(e),
        Ok((None, local)) => Ok(WsExpandedName { namespace: None, name: local }),
        Ok((Some(prefix), local)) => {
            match crate::xml::lookup_namespace_uri(tree, node, Some(prefix.as_str())) {
                Some(uri) => Ok(WsExpandedName { namespace: Some(uri), name: local }),
                None => Err(WsErrorType::InvalidReference(qualified_name.to_owned())),
            }
        },
    }
}

} // verus!
