//! Emission of one entity: the read, create and update structs and the key
//! list, all produced by one pipeline parameterised by the variant.

use vstd::prelude::*;
use vstd::string::*;
use crate::xml::{subtree_end, NodeModel, XmlDocument};
use crate::schema::{editable_property, entity_keys, extract_keys, is_editable_property, is_property, property_node};
use crate::render::{field_block, lines_view, render_field};

verus! {

/// The three shapes generated for an entity. Create and update keep the same
/// fields.
#[derive(Debug, Clone, Copy, PartialEq, Eq)]
pub enum Variant {
    Read,
    Create,
    Update,
}

/// Whether the variant keeps the property at `i`.
pub open spec fn variant_keeps(doc: Seq<NodeModel>, v: Variant, i: int) -> bool {
    match v {
        Variant::Read => property_node(doc[i]),
        _ => editable_property(doc, i),
    }
}

pub open spec fn variant_directives(v: Variant) -> bool {
    !(v is Read)
}

pub open spec fn derive_line(v: Variant) -> Seq<char> {
    match v {
        Variant::Read => "#[derive(Debug, Deserialize)]"@,
        _ => "#[derive(Debug, Validate, Deserialize)]"@,
    }
}

pub open spec fn struct_suffix(v: Variant) -> Seq<char> {
    match v {
        Variant::Read => ""@,
        Variant::Create => "Create"@,
        Variant::Update => "Update"@,
    }
}

/// The rendered fields that the variant keeps among the nodes `lo .. hi`.
pub open spec fn variant_fields(doc: Seq<NodeModel>, v: Variant, lo: int, hi: int) -> Seq<Seq<char>>
    decreases hi - lo,
{
    if hi <= lo {
        Seq::empty()
    } else {
        let before = variant_fields(doc, v, lo, hi - 1);
        if variant_keeps(doc, v, hi - 1) && field_block(doc[hi - 1], variant_directives(v)) is Some {
            before.push(field_block(doc[hi - 1], variant_directives(v))->0)
        } else {
            before
        }
    }
}

/// The lines of one struct for the entity at `e`, called `name`.
pub open spec fn variant_lines(doc: Seq<NodeModel>, e: int, name: Seq<char>, v: Variant) -> Seq<Seq<char>> {
    seq![derive_line(v), "pub struct "@ + name + struct_suffix(v) + " {"@]
        + variant_fields(doc, v, e + 1, subtree_end(doc, e))
        + seq!["}\n\n"@]
}

/// What the standard library's `Debug` writes for a string: the string quoted
/// and escaped.
pub uninterp spec fn debug_str_of(s: Seq<char>) -> Seq<char>;

/// Relies on `<str as Debug>::fmt`, whose output depends on the string alone.
#[verifier::external_body]
fn debug_quoted(s: &String) -> (r: String)
    ensures
        r@ == debug_str_of(s@),
{
    format!("{:?}", s)
}

pub open spec fn key_entries(keys: Seq<Seq<char>>) -> Seq<char>
    decreases keys.len(),
{
    if keys.len() == 0 {
        Seq::empty()
    } else {
        key_entries(keys.drop_last()) + "    "@ + debug_str_of(keys.last()) + ",\n"@
    }
}

/// The key list, one quoted name per line, as a pretty-printed list.
pub open spec fn key_block(keys: Seq<Seq<char>>) -> Seq<char> {
    if keys.len() == 0 {
        "[]"@
    } else {
        "[\n"@ + key_entries(keys) + "]"@
    }
}

pub open spec fn key_lines(doc: Seq<NodeModel>, e: int) -> Seq<Seq<char>> {
    match entity_keys(doc, e) {
        Some(keys) => seq![key_block(keys)],
        None => Seq::empty(),
    }
}

pub open spec fn import_lines() -> Seq<Seq<char>> {
    seq!["use chrono::DateTime;"@, "use serde::Deserialize;"@, "use validator::{Validate, ValidationError};\n\n"@]
}

/// The whole artifact for the entity at `e`: imports, the three structs, and
/// the key list where every key reference is named.
pub open spec fn artifact_lines(doc: Seq<NodeModel>, e: int, name: Seq<char>) -> Seq<Seq<char>> {
    import_lines() + variant_lines(doc, e, name, Variant::Read) + variant_lines(doc, e, name, Variant::Create)
        + variant_lines(doc, e, name, Variant::Update) + key_lines(doc, e)
}

/// The text written for an artifact: each line followed by a newline.
pub open spec fn joined(lines: Seq<Seq<char>>) -> Seq<char>
    decreases lines.len(),
{
    if lines.len() == 0 {
        Seq::empty()
    } else {
        joined(lines.drop_last()) + lines.last() + "\n"@
    }
}

fn push_line(out: &mut Vec<String>, line: String)
    ensures
        lines_view(final(out)@) == lines_view(old(out)@).push(line@),
{
    let ghost before = out@;
    out.push(line);
    assert(lines_view(out@) =~= lines_view(before).push(line@));
}

fn append_lines(out: &mut Vec<String>, more: &Vec<String>)
    ensures
        lines_view(final(out)@) == lines_view(old(out)@) + lines_view(more@),
{
    let ghost start = lines_view(out@);
    let mut i: usize = 0;
    while i < more.len()
        invariant
            i <= more@.len(),
            lines_view(out@) == start + lines_view(more@.subrange(0, i as int)),
        decreases more@.len() - i,
    {
        push_line(out, more[i].clone());
        assert(lines_view(more@.subrange(0, i + 1)) =~= lines_view(more@.subrange(0, i as int)).push(
            more@[i as int]@,
        ));
        i = i + 1;
    }
    assert(more@.subrange(0, i as int) =~= more@);
}

/// One struct of the entity at `e`: its header, the rendered fields of the
/// properties that the variant keeps, in document order, and its closing line.
pub fn emit_variant(doc: &XmlDocument, e: usize, name: &str, v: Variant) -> (r: Vec<String>)
    requires
        e < doc@.len(),
    ensures
        lines_view(r@) == variant_lines(doc@, e as int, name@, v),
{
    let mut out: Vec<String> = Vec::new();
    let derive = match v {
        Variant::Read => String::from_str("#[derive(Debug, Deserialize)]"),
        _ => String::from_str("#[derive(Debug, Validate, Deserialize)]"),
    };
    assert(derive@ == derive_line(v));
    push_line(&mut out, derive);
    let mut header = String::from_str("pub struct ");
    header.append(name);
    match v {
        Variant::Read => {},
        Variant::Create => header.append("Create"),
        Variant::Update => header.append("Update"),
    }
    header.append(" {");
    proof {
        reveal_strlit("");
        assert(header@ =~= "pub struct "@ + name@ + struct_suffix(v) + " {"@);
    }
    push_line(&mut out, header);
    let ghost head = lines_view(out@);
    let with_directives = match v {
        Variant::Read => false,
        _ => true,
    };
    let end = doc.subtree_end(e);
    let n = doc.nodes.len();
    assert(e < n);
    let mut j: usize = e + 1;
    while j < end
        invariant
            e < doc@.len(),
            end == subtree_end(doc@, e as int),
            end <= doc@.len(),
            e + 1 <= j,
            j <= end || j == e + 1,
            with_directives == variant_directives(v),
            lines_view(out@) == head + variant_fields(doc@, v, e + 1, j as int),
        decreases end - j,
    {
        let node = &doc.nodes[j];
        assert(doc@[j as int] == node@);
        let keep = match v {
            Variant::Read => is_property(node),
            _ => is_editable_property(doc, j),
        };
        if keep {
            match render_field(node, with_directives) {
                Some(f) => push_line(&mut out, f),
                None => {},
            }
        }
        j = j + 1;
    }
    assert(variant_fields(doc@, v, e + 1, j as int) == variant_fields(doc@, v, e + 1, end as int));
    push_line(&mut out, String::from_str("}\n\n"));
    assert(lines_view(out@) =~= variant_lines(doc@, e as int, name@, v));
    out
}

/// The key list as a pretty-printed list of quoted names: `[]` when empty,
/// else one name per line, indented by four spaces and followed by a comma.
pub fn render_keys(keys: &Vec<String>) -> (r: String)
    ensures
        r@ == key_block(lines_view(keys@)),
{
    if keys.len() == 0 {
        return String::from_str("[]");
    }
    let ghost all = lines_view(keys@);
    let mut entries = String::new();
    let mut i: usize = 0;
    while i < keys.len()
        invariant
            i <= keys@.len(),
            all == lines_view(keys@),
            entries@ == key_entries(all.subrange(0, i as int)),
        decreases keys@.len() - i,
    {
        let quoted = debug_quoted(&keys[i]);
        entries.append("    ");
        entries.append(quoted.as_str());
        entries.append(",\n");
        proof {
            let next = all.subrange(0, i + 1);
            assert(next.drop_last() =~= all.subrange(0, i as int));
            assert(next.last() == keys@[i as int]@);
            assert(entries@ =~= key_entries(next));
        }
        i = i + 1;
    }
    assert(all.subrange(0, i as int) =~= all);
    let mut r = String::from_str("[\n");
    r.append(entries.as_str());
    r.append("]");
    r
}

/// The whole artifact for the entity at `e`, called `name`: the import lines,
/// the read, create and update structs, and the key list, which is left out
/// where a key reference has no name.
pub fn generate_code(doc: &XmlDocument, e: usize, name: &str) -> (r: Vec<String>)
    requires
        e < doc@.len(),
    ensures
        lines_view(r@) == artifact_lines(doc@, e as int, name@),
{
    let mut out: Vec<String> = Vec::new();
    push_line(&mut out, String::from_str("use chrono::DateTime;"));
    push_line(&mut out, String::from_str("use serde::Deserialize;"));
    push_line(&mut out, String::from_str("use validator::{Validate, ValidationError};\n\n"));
    assert(lines_view(out@) =~= import_lines());
    let read = emit_variant(doc, e, name, Variant::Read);
    append_lines(&mut out, &read);
    let create = emit_variant(doc, e, name, Variant::Create);
    append_lines(&mut out, &create);
    let update = emit_variant(doc, e, name, Variant::Update);
    append_lines(&mut out, &update);
    match extract_keys(doc, e) {
        Ok(keys) => {
            assert(lines_view(keys@) == keys@.map_values(|k: String| k@));
            push_line(&mut out, render_keys(&keys));
        },
        Err(_) => {},
    }
    assert(lines_view(out@) =~= artifact_lines(doc@, e as int, name@));
    out
}

/// The text of an artifact: every line followed by a newline.
pub fn artifact_text(lines: &Vec<String>) -> (r: String)
    ensures
        r@ == joined(lines_view(lines@)),
{
    let ghost all = lines_view(lines@);
    let mut text = String::new();
    let mut i: usize = 0;
    while i < lines.len()
        invariant
            i <= lines@.len(),
            all == lines_view(lines@),
            text@ == joined(all.subrange(0, i as int)),
        decreases lines@.len() - i,
    {
        text.append(lines[i].as_str());
        text.append("\n");
        proof {
            let next = all.subrange(0, i + 1);
            assert(next.drop_last() =~= all.subrange(0, i as int));
            assert(text@ =~= joined(next));
        }
        i = i + 1;
    }
    assert(all.subrange(0, i as int) =~= all);
    text
}

} // verus!
