//! The per-entity generation step: where an artifact goes, whether it is
//! written, and what it holds.

use vstd::prelude::*;
use vstd::string::*;
use crate::xml::{attr, subtree_end, NodeModel, XmlDocument};
use crate::schema::{find_entity, find_entity_spec, is_property, property_node};
use crate::render::{is_known_type, known_type, lines_view};
use crate::emit::{artifact_lines, generate_code};

verus! {

pub open spec fn is_alphanumeric(c: char) -> bool {
    ('a' <= c && c <= 'z') || ('A' <= c && c <= 'Z') || ('0' <= c && c <= '9')
}

/// The letters and digits of `s`, in order.
pub open spec fn alphanumerics(s: Seq<char>) -> Seq<char>
    decreases s.len(),
{
    if s.len() == 0 {
        Seq::empty()
    } else if is_alphanumeric(s.last()) {
        alphanumerics(s.drop_last()).push(s.last())
    } else {
        alphanumerics(s.drop_last())
    }
}

pub open spec fn artifact_path_spec(name: Seq<char>) -> Seq<char> {
    "src/entities/"@ + alphanumerics(name) + ".rs"@
}

/// Relies on String::push, which appends one character.
#[verifier::external_body]
fn push_char(s: &mut String, c: char)
    ensures
        final(s)@ == old(s)@.push(c),
{
    s.push(c)
}

/// Where the artifact of entity `name` is kept: its letters and digits, under
/// `src/entities/`.
pub fn artifact_path(name: &str) -> (r: String)
    ensures
        r@ == artifact_path_spec(name@),
{
    let mut kept = String::new();
    let n = name.unicode_len();
    let mut i: usize = 0;
    while i < n
        invariant
            n == name@.len(),
            i <= n,
            kept@ == alphanumerics(name@.subrange(0, i as int)),
        decreases n - i,
    {
        let c = name.get_char(i);
        if ('a' <= c && c <= 'z') || ('A' <= c && c <= 'Z') || ('0' <= c && c <= '9') {
            push_char(&mut kept, c);
        }
        assert(name@.subrange(0, i + 1).drop_last() =~= name@.subrange(0, i as int));
        i = i + 1;
    }
    assert(name@.subrange(0, i as int) =~= name@);
    let mut r = String::from_str("src/entities/");
    r.append(kept.as_str());
    r.append(".rs");
    r
}

/// The metadata address of a service: its base address followed by `$metadata/`.
pub fn get_odata_url(host: String) -> (r: String)
    ensures
        r@ == host@ + "$metadata/"@,
{
    let mut host = host;
    host.append("$metadata/");
    host
}

/// The properties among the nodes `lo .. hi` that have a name and a type that
/// the type mapping does not know.
pub open spec fn unknown_typed(doc: Seq<NodeModel>, lo: int, hi: int) -> Seq<int>
    decreases hi - lo,
{
    if hi <= lo {
        Seq::empty()
    } else {
        let before = unknown_typed(doc, lo, hi - 1);
        let n = doc[hi - 1];
        if property_node(n) && attr(n, "Name"@) is Some && attr(n, "Type"@) is Some && !known_type(
            attr(n, "Type"@)->0,
        ) {
            before.push(hi - 1)
        } else {
            before
        }
    }
}

/// The positions of the properties of the entity at `e` whose type is
/// rendered as unknown, in document order.
pub fn unknown_type_properties(doc: &XmlDocument, e: usize) -> (r: Vec<usize>)
    requires
        e < doc@.len(),
    ensures
        r@.map_values(|j: usize| j as int) == unknown_typed(doc@, e + 1, subtree_end(doc@, e as int)),
{
    let end = doc.subtree_end(e);
    let n = doc.nodes.len();
    assert(e < n);
    let mut out: Vec<usize> = Vec::new();
    let mut j: usize = e + 1;
    while j < end
        invariant
            e < doc@.len(),
            end == subtree_end(doc@, e as int),
            end <= doc@.len(),
            e + 1 <= j,
            j <= end || j == e + 1,
            out@.map_values(|k: usize| k as int) == unknown_typed(doc@, e + 1, j as int),
        decreases end - j,
    {
        let node = &doc.nodes[j];
        assert(doc@[j as int] == node@);
        if is_property(node) {
            match (node.attribute("Name"), node.attribute("Type")) {
                (Some(_), Some(t)) => {
                    if !is_known_type(&t) {
                        out.push(j);
                    }
                },
                _ => {},
            }
        }
        assert(out@.map_values(|k: usize| k as int) =~= unknown_typed(doc@, e + 1, j + 1));
        j = j + 1;
    }
    assert(unknown_typed(doc@, e + 1, j as int) == unknown_typed(doc@, e + 1, end as int));
    out
}

/// What one generation request comes to.
pub enum Generation {
    /// The artifact exists already: nothing is written.
    AlreadyExists,
    /// No entity type of that name: nothing is written.
    EntityNotFound,
    /// The lines of the artifact to write.
    Write(Vec<String>),
}

/// A request writes an artifact only where none exists and the entity is found.
pub open spec fn writes_artifact(doc: Seq<NodeModel>, name: Seq<char>, artifact_exists: bool) -> bool {
    !artifact_exists && find_entity_spec(doc, name) is Some
}

/// Decides one generation request for the entity `name`: an existing artifact
/// is kept, an absent entity is reported, and otherwise the artifact of the
/// first entity type of that name is produced.
pub fn generate(doc: &XmlDocument, name: &str, artifact_exists: bool) -> (r: Generation)
    ensures
        (r is AlreadyExists) == artifact_exists,
        (r is EntityNotFound) == (!artifact_exists && find_entity_spec(doc@, name@) is None),
        (r is Write) == writes_artifact(doc@, name@, artifact_exists),
        match r {
            Generation::Write(lines) => lines_view(lines@) == artifact_lines(
                doc@,
                find_entity_spec(doc@, name@)->0,
                name@,
            ),
            _ => true,
        },
{
    if artifact_exists {
        return Generation::AlreadyExists;
    }
    match find_entity(doc, name) {
        Some(e) => Generation::Write(generate_code(doc, e, name)),
        None => Generation::EntityNotFound,
    }
}

} // verus!
