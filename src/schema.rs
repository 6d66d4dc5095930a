//! Queries over the metadata document: tag and attribute predicates, entity
//! lookup, editability and primary-key extraction.

use vstd::prelude::*;
use crate::xml::{attr, is_descendant, subtree_end, NodeModel, XmlDocument, XmlNode};

verus! {

pub open spec fn entity_named(n: NodeModel, name: Seq<char>) -> bool {
    n.tag == "EntityType"@ && attr(n, "Name"@) == Some(name)
}

pub open spec fn property_node(n: NodeModel) -> bool {
    n.tag == "Property"@
}

pub open spec fn property_ref_node(n: NodeModel) -> bool {
    n.tag == "PropertyRef"@
}

/// An annotation that forbids editing: both `Term` and `Bool` must match.
pub open spec fn forbids_edit(n: NodeModel) -> bool {
    attr(n, "Term"@) == Some("NAV.AllowEdit"@) && attr(n, "Bool"@) == Some("false"@)
}

/// A property none of whose descendants forbids editing.
pub open spec fn editable_property(doc: Seq<NodeModel>, i: int) -> bool {
    property_node(doc[i]) && !(exists|j: int| is_descendant(doc, i, j) && #[trigger] forbids_edit(doc[j]))
}

/// The first entity type named `name` at or after index `i`.
pub open spec fn entity_from(doc: Seq<NodeModel>, name: Seq<char>, i: int) -> Option<int>
    decreases doc.len() - i,
{
    if i < 0 || i >= doc.len() {
        None
    } else if entity_named(doc[i], name) {
        Some(i)
    } else {
        entity_from(doc, name, i + 1)
    }
}

/// The first entity type named `name` in document order.
pub open spec fn find_entity_spec(doc: Seq<NodeModel>, name: Seq<char>) -> Option<int> {
    entity_from(doc, name, 0)
}

/// The `Name`s of the key references among the nodes `lo .. hi`, in order.
pub open spec fn ref_names(doc: Seq<NodeModel>, lo: int, hi: int) -> Seq<Seq<char>>
    decreases hi - lo,
{
    if hi <= lo {
        Seq::empty()
    } else {
        let before = ref_names(doc, lo, hi - 1);
        if property_ref_node(doc[hi - 1]) && attr(doc[hi - 1], "Name"@) is Some {
            before.push(attr(doc[hi - 1], "Name"@)->0)
        } else {
            before
        }
    }
}

/// Every key reference among the nodes `lo .. hi` carries a `Name`.
pub open spec fn refs_named(doc: Seq<NodeModel>, lo: int, hi: int) -> bool {
    forall|j: int| lo <= j < hi && #[trigger] property_ref_node(doc[j]) ==> attr(doc[j], "Name"@) is Some
}

/// The primary-key names of the entity at `e`, or `None` where one of its key
/// references has no name.
pub open spec fn entity_keys(doc: Seq<NodeModel>, e: int) -> Option<Seq<Seq<char>>> {
    if refs_named(doc, e + 1, subtree_end(doc, e)) {
        Some(ref_names(doc, e + 1, subtree_end(doc, e)))
    } else {
        None
    }
}

/// A key reference without a `Name`: the key list of the entity cannot be built.
#[derive(Debug, Clone, Copy, PartialEq, Eq)]
pub enum SchemaIntegrityError {
    MissingKeyName,
}

pub fn has_tag(n: &XmlNode, name: &str) -> (r: bool)
    ensures
        r == (n@.tag == name@),
{
    n.has_tag(name)
}

pub fn is_entity_named(n: &XmlNode, name: &str) -> (r: bool)
    ensures
        r == entity_named(n@, name@),
{
    n.has_tag("EntityType") && n.attribute_is("Name", name)
}

pub fn is_property(n: &XmlNode) -> (r: bool)
    ensures
        r == property_node(n@),
{
    n.has_tag("Property")
}

pub fn disallows_edit(n: &XmlNode) -> (r: bool)
    ensures
        r == forbids_edit(n@),
{
    n.attribute_is("Term", "NAV.AllowEdit") && n.attribute_is("Bool", "false")
}

/// Whether node `i` is a property that no annotation below it forbids to edit;
/// the search stops at the first forbidding descendant.
pub fn is_editable_property(doc: &XmlDocument, i: usize) -> (r: bool)
    requires
        i < doc@.len(),
    ensures
        r == editable_property(doc@, i as int),
{
    if !is_property(&doc.nodes[i]) {
        return false;
    }
    let end = doc.subtree_end(i);
    let n = doc.nodes.len();
    assert(i < n);
    let mut j: usize = i + 1;
    while j < end
        invariant
            i < doc@.len(),
            end == subtree_end(doc@, i as int),
            end <= doc@.len(),
            i + 1 <= j,
            forall|k: int| i < k < j ==> !#[trigger] forbids_edit(doc@[k]),
        decreases end - j,
    {
        assert(doc@[j as int] == doc.nodes@[j as int]@);
        if disallows_edit(&doc.nodes[j]) {
            assert(is_descendant(doc@, i as int, j as int));
            return false;
        }
        j = j + 1;
    }
    true
}

/// The first entity type named `name` in document order.
pub fn find_entity(doc: &XmlDocument, name: &str) -> (r: Option<usize>)
    ensures
        match r {
            Some(i) => find_entity_spec(doc@, name@) == Some(i as int) && i < doc@.len(),
            None => find_entity_spec(doc@, name@) is None,
        },
{
    let mut i: usize = 0;
    while i < doc.nodes.len()
        invariant
            i <= doc@.len(),
            find_entity_spec(doc@, name@) == entity_from(doc@, name@, i as int),
        decreases doc@.len() - i,
    {
        assert(doc@[i as int] == doc.nodes@[i as int]@);
        if is_entity_named(&doc.nodes[i], name) {
            return Some(i);
        }
        i = i + 1;
    }
    None
}

/// The `Name`s of the key references below the entity at `e`, in document
/// order, duplicates kept.
pub fn extract_keys(doc: &XmlDocument, e: usize) -> (r: Result<Vec<String>, SchemaIntegrityError>)
    requires
        e < doc@.len(),
    ensures
        match r {
            Ok(keys) => entity_keys(doc@, e as int) == Some(keys@.map_values(|k: String| k@)),
            Err(err) => entity_keys(doc@, e as int) is None && err == SchemaIntegrityError::MissingKeyName,
        },
{
    let end = doc.subtree_end(e);
    let n = doc.nodes.len();
    assert(e < n);
    let mut keys: Vec<String> = Vec::new();
    let mut j: usize = e + 1;
    while j < end
        invariant
            e < doc@.len(),
            end == subtree_end(doc@, e as int),
            end <= doc@.len(),
            e + 1 <= j <= end || j == e + 1,
            keys@.map_values(|k: String| k@) == ref_names(doc@, e + 1, j as int),
            refs_named(doc@, e + 1, j as int),
        decreases end - j,
    {
        let node = &doc.nodes[j];
        assert(doc@[j as int] == node@);
        if is_property_ref(node) {
            match node.attribute("Name") {
                Some(n) => {
                    keys.push(n);
                },
                None => {
                    return Err(SchemaIntegrityError::MissingKeyName);
                },
            }
        }
        assert(keys@.map_values(|k: String| k@) =~= ref_names(doc@, e + 1, j + 1));
        j = j + 1;
    }
    Ok(keys)
}

pub fn is_property_ref(n: &XmlNode) -> (r: bool)
    ensures
        r == property_ref_node(n@),
{
    n.has_tag("PropertyRef")
}

} // verus!
