//! Properties of the generator that hold for every document.

use vstd::prelude::*;
use crate::xml::{attr, is_descendant, subtree_end, NodeModel};
use crate::schema::{editable_property, forbids_edit, property_node};
use crate::render::{field_block, field_line, mapped_type, validation_of};
use crate::emit::{variant_fields, variant_keeps, Variant};
use crate::generate::writes_artifact;

verus! {

/// A property with a name and a type is always rendered, and its field has
/// the mapped type of its schema type.
pub proof fn lemma_rendered_field_type(n: NodeModel, with_directives: bool)
    requires
        attr(n, "Name"@) is Some,
        attr(n, "Type"@) is Some,
    ensures
        field_line(n) == Some("\tpub "@ + attr(n, "Name"@)->0 + ": "@ + mapped_type(attr(n, "Type"@)->0) + ",\n"@),
        field_block(n, with_directives) is Some,
{
}

/// The document with node `i` made into a node that is no property, all else
/// kept.
pub open spec fn without_property(doc: Seq<NodeModel>, i: int) -> Seq<NodeModel> {
    doc.update(i, NodeModel { tag: Seq::empty(), attributes: doc[i].attributes, subtree_len: doc[i].subtree_len })
}

/// A property that lacks a name or a type renders to nothing, and every
/// variant is the same as if it were not a property at all.
pub proof fn lemma_incomplete_property_absent(doc: Seq<NodeModel>, v: Variant, lo: int, hi: int, i: int)
    requires
        0 <= i < doc.len(),
        0 <= lo,
        hi <= doc.len(),
        attr(doc[i], "Name"@) is None || attr(doc[i], "Type"@) is None,
    ensures
        field_line(doc[i]) is None,
        field_block(doc[i], true) is None,
        field_block(doc[i], false) is None,
        variant_fields(doc, v, lo, hi) == variant_fields(without_property(doc, i), v, lo, hi),
    decreases hi - lo,
{
    let d2 = without_property(doc, i);
    if hi > lo {
        lemma_incomplete_property_absent(doc, v, lo, hi - 1, i);
        let j = hi - 1;
        assert forall|k: int| 0 <= k < doc.len() implies forbids_edit(d2[k]) == forbids_edit(doc[k]) by {
            if k == i {
                assert(d2[k].attributes == doc[k].attributes);
            }
        }
        if j != i {
            assert(d2[j] == doc[j]);
            assert(subtree_end(d2, j) == subtree_end(doc, j));
            assert forall|k: int| is_descendant(d2, j, k) == is_descendant(doc, j, k) by {}
            if editable_property(doc, j) {
                assert forall|k: int| !(is_descendant(d2, j, k) && #[trigger] forbids_edit(d2[k])) by {
                    if is_descendant(d2, j, k) && forbids_edit(d2[k]) {
                        assert(is_descendant(doc, j, k) && forbids_edit(doc[k]));
                    }
                }
            }
            if editable_property(d2, j) {
                assert forall|k: int| !(is_descendant(doc, j, k) && #[trigger] forbids_edit(doc[k])) by {
                    if is_descendant(doc, j, k) && forbids_edit(doc[k]) {
                        assert(is_descendant(d2, j, k) && forbids_edit(d2[k]));
                    }
                }
            }
            assert(variant_keeps(doc, v, j) == variant_keeps(d2, v, j));
        } else {
            reveal_strlit("Property");
            assert(d2[j].tag.len() == 0);
            assert(!property_node(d2[j]));
        }
    }
}

/// Only an annotation whose `Bool` is exactly `false` forbids editing.
pub proof fn lemma_only_false_forbids(n: NodeModel)
    requires
        attr(n, "Bool"@) != Some("false"@),
    ensures
        !forbids_edit(n),
{
}

/// A property is editable exactly when no node below it forbids editing; in
/// particular when no node below it has `Bool="false"`.
pub proof fn lemma_editable_iff_no_forbidding_descendant(doc: Seq<NodeModel>, i: int)
    requires
        0 <= i < doc.len(),
        property_node(doc[i]),
    ensures
        editable_property(doc, i) == !(exists|j: int| is_descendant(doc, i, j) && #[trigger] forbids_edit(doc[j])),
        (forall|j: int| is_descendant(doc, i, j) ==> attr(#[trigger] doc[j], "Bool"@) != Some("false"@))
            ==> editable_property(doc, i),
{
}

/// The validation directive of a property depends on its `Nullable` and
/// `MaxLength` attributes and on nothing else.
pub proof fn lemma_directive_from_nullable_and_max_length(a: NodeModel, b: NodeModel)
    requires
        attr(a, "Nullable"@) == attr(b, "Nullable"@),
        attr(a, "MaxLength"@) == attr(b, "MaxLength"@),
    ensures
        validation_of(a) == validation_of(b),
{
}

/// Once a request has written an artifact, asking again for the same entity
/// writes nothing.
pub proof fn lemma_second_generation_writes_nothing(doc: Seq<NodeModel>, name: Seq<char>)
    requires
        writes_artifact(doc, name, false),
    ensures
        !writes_artifact(doc, name, true),
{
}

} // verus!
