//! The metadata document as a flat, document-ordered list of nodes.
//!
//! Node `i` owns the nodes `i + 1 .. i + subtree_len` as its descendants, so a
//! depth-first traversal of any subtree is a walk over a range of indices.

use vstd::prelude::*;
use vstd::string::*;

verus! {

/// One attribute of an element, by local name.
pub struct XmlAttribute {
    pub name: String,
    pub value: String,
}

/// One node of the document: its local tag name (empty for a node that is not
/// an element), its attributes in source order, and the number of nodes in
/// its subtree, itself included.
pub struct XmlNode {
    pub tag: String,
    pub attributes: Vec<XmlAttribute>,
    pub subtree_len: usize,
}

/// A parsed metadata document: every node in document order.
pub struct XmlDocument {
    pub nodes: Vec<XmlNode>,
}

/// What a node is, as plain values.
pub struct NodeModel {
    pub tag: Seq<char>,
    pub attributes: Seq<(Seq<char>, Seq<char>)>,
    pub subtree_len: nat,
}

/// The metadata text could not be parsed as XML.
#[derive(Debug, Clone, Copy, PartialEq, Eq)]
pub enum MetadataError {
    MalformedMetadata,
}

pub open spec fn attributes_view(a: Seq<XmlAttribute>) -> Seq<(Seq<char>, Seq<char>)> {
    a.map_values(|x: XmlAttribute| (x.name@, x.value@))
}

impl View for XmlNode {
    type V = NodeModel;

    open spec fn view(&self) -> NodeModel {
        NodeModel {
            tag: self.tag@,
            attributes: attributes_view(self.attributes@),
            subtree_len: self.subtree_len as nat,
        }
    }
}

pub open spec fn nodes_view(v: Seq<XmlNode>) -> Seq<NodeModel> {
    v.map_values(|n: XmlNode| n@)
}

impl View for XmlDocument {
    type V = Seq<NodeModel>;

    open spec fn view(&self) -> Seq<NodeModel> {
        nodes_view(self.nodes@)
    }
}

/// The nodes that the XML parser finds in a text, or `None` where the text is
/// not well-formed XML.
pub uninterp spec fn parsed_nodes(text: Seq<char>) -> Option<Seq<NodeModel>>;

#[verifier::external_type_specification]
#[verifier::external_body]
pub struct ExXmlError(roxmltree::Error);

/// Relies on roxmltree::Document::parse, which decides from the text alone
/// whether it is well-formed XML, and on the document's `descendants()`, which
/// lists the root and every node below it in document order; each node is
/// read through `tag_name().name()`, `attributes()` and its own
/// `descendants()`.
#[verifier::external_body]
fn parse_nodes(text: &str) -> (r: Result<Vec<XmlNode>, roxmltree::Error>)
    ensures
        match r {
            Ok(v) => parsed_nodes(text@) == Some(nodes_view(v@)),
            Err(_) => parsed_nodes(text@) is None,
        },
{
    let doc = roxmltree::Document::parse(text)?;
    Ok(doc.descendants().map(|n| XmlNode {
        tag: n.tag_name().name().to_string(),
        attributes: n.attributes().map(|a| XmlAttribute {
            name: a.name().to_string(),
            value: a.value().to_string(),
        }).collect(),
        subtree_len: n.descendants().len(),
    }).collect())
}

/// The value of the first attribute named `key`, if any.
pub open spec fn attr_from(attrs: Seq<(Seq<char>, Seq<char>)>, key: Seq<char>, i: int) -> Option<Seq<char>>
    decreases attrs.len() - i,
{
    if i < 0 || i >= attrs.len() {
        None
    } else if attrs[i].0 == key {
        Some(attrs[i].1)
    } else {
        attr_from(attrs, key, i + 1)
    }
}

pub open spec fn attr(n: NodeModel, key: Seq<char>) -> Option<Seq<char>> {
    attr_from(n.attributes, key, 0)
}

/// One past the last descendant of node `i`.
pub open spec fn subtree_end(doc: Seq<NodeModel>, i: int) -> int {
    if i + doc[i].subtree_len < doc.len() {
        i + doc[i].subtree_len
    } else {
        doc.len() as int
    }
}

/// Node `j` lies strictly below node `i`.
pub open spec fn is_descendant(doc: Seq<NodeModel>, i: int, j: int) -> bool {
    0 <= i < doc.len() && i < j < subtree_end(doc, i)
}

impl XmlNode {
    /// The value of the first attribute called `key`.
    pub fn attribute(&self, key: &str) -> (r: Option<String>)
        ensures
            match r {
                Some(v) => attr(self@, key@) == Some(v@),
                None => attr(self@, key@) is None,
            },
    {
        let wanted = String::from_str(key);
        let mut i: usize = 0;
        while i < self.attributes.len()
            invariant
                i <= self.attributes.len(),
                wanted@ == key@,
                attr(self@, key@) == attr_from(self@.attributes, key@, i as int),
            decreases self.attributes.len() - i,
        {
            if self.attributes[i].name == wanted {
                return Some(self.attributes[i].value.clone());
            }
            i = i + 1;
        }
        None
    }

    /// Whether the local tag name is `name`.
    pub fn has_tag(&self, name: &str) -> (r: bool)
        ensures
            r == (self@.tag == name@),
    {
        let wanted = String::from_str(name);
        self.tag == wanted
    }

    /// Whether the attribute `key` is present with exactly the value `value`.
    pub fn attribute_is(&self, key: &str, value: &str) -> (r: bool)
        ensures
            r == (attr(self@, key@) == Some(value@)),
    {
        match self.attribute(key) {
            Some(v) => v == String::from_str(value),
            None => false,
        }
    }
}

impl XmlDocument {
    /// Parses metadata text into its nodes.
    pub fn parse(text: &str) -> (r: Result<XmlDocument, MetadataError>)
        ensures
            match r {
                Ok(d) => parsed_nodes(text@) == Some(d@),
                Err(e) => parsed_nodes(text@) is None && e == MetadataError::MalformedMetadata,
            },
    {
        match parse_nodes(text) {
            Ok(nodes) => Ok(XmlDocument { nodes }),
            Err(_) => Err(MetadataError::MalformedMetadata),
        }
    }

    pub fn len(&self) -> (r: usize)
        ensures
            r == self@.len(),
    {
        self.nodes.len()
    }

    /// One past the last descendant of node `i`.
    pub fn subtree_end(&self, i: usize) -> (r: usize)
        requires
            i < self@.len(),
        ensures
            r == subtree_end(self@, i as int),
    {
        let n = self.nodes.len();
        if self.nodes[i].subtree_len < n - i {
            i + self.nodes[i].subtree_len
        } else {
            n
        }
    }
}

} // verus!
