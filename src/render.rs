//! Type mapping and the rendering of one property as a field declaration with
//! its validation directive.

use vstd::prelude::*;
use vstd::string::*;
use crate::xml::{attr, NodeModel, XmlNode};

verus! {

pub open spec fn opt_view(o: Option<String>) -> Option<Seq<char>> {
    match o {
        Some(s) => Some(s@),
        None => None,
    }
}

pub open spec fn lines_view(v: Seq<String>) -> Seq<Seq<char>> {
    v.map_values(|s: String| s@)
}

/// Whether a schema primitive type has a target type.
pub open spec fn known_type(t: Seq<char>) -> bool {
    t == "Edm.String"@ || t == "Edm.Boolean"@ || t == "Edm.Date"@ || t == "Edm.Int32"@
}

/// The target type of a schema primitive type; `?` marks an unknown one.
pub open spec fn mapped_type(t: Seq<char>) -> Seq<char> {
    if t == "Edm.String"@ {
        "String"@
    } else if t == "Edm.Boolean"@ {
        "bool"@
    } else if t == "Edm.Date"@ {
        "DateTime"@
    } else if t == "Edm.Int32"@ {
        "u32"@
    } else {
        "?"@
    }
}

/// The validation directive for a field, from whether it is required and its
/// maximum length.
pub open spec fn directive(required: bool, max_length: Option<Seq<char>>) -> Option<Seq<char>> {
    match max_length {
        Some(m) => if required {
            Some("\t#[validation(required,length="@ + m + ")]"@)
        } else {
            Some("\t#[validation(length="@ + m + ")]"@)
        },
        None => if required {
            Some("\t#[validation(required)]"@)
        } else {
            None
        },
    }
}

/// An explicit `Nullable="false"` marks a property as required.
pub open spec fn required(n: NodeModel) -> bool {
    attr(n, "Nullable"@) == Some("false"@)
}

pub open spec fn validation_of(n: NodeModel) -> Option<Seq<char>> {
    directive(required(n), attr(n, "MaxLength"@))
}

/// The field declaration of a property, where it has both a name and a type.
pub open spec fn field_line(n: NodeModel) -> Option<Seq<char>> {
    match (attr(n, "Name"@), attr(n, "Type"@)) {
        (Some(name), Some(t)) => Some("\tpub "@ + name + ": "@ + mapped_type(t) + ",\n"@),
        _ => None,
    }
}

/// The field declaration, preceded by its validation directive where
/// directives are asked for and the property has one.
pub open spec fn field_block(n: NodeModel, with_directives: bool) -> Option<Seq<char>> {
    match field_line(n) {
        None => None,
        Some(f) => if with_directives && validation_of(n) is Some {
            Some(validation_of(n)->0 + "\n"@ + f)
        } else {
            Some(f)
        },
    }
}

fn lit(s: &str) -> (r: String)
    ensures
        r@ == s@,
{
    String::from_str(s)
}

fn join(a: &str, b: &str) -> (r: String)
    ensures
        r@ == a@ + b@,
{
    let mut r = String::from_str(a);
    r.append(b);
    r
}

pub fn is_known_type(attr_type: &String) -> (r: bool)
    ensures
        r == known_type(attr_type@),
{
    *attr_type == lit("Edm.String") || *attr_type == lit("Edm.Boolean") || *attr_type == lit("Edm.Date")
        || *attr_type == lit("Edm.Int32")
}

/// Maps a schema primitive type to the target type, `?` where it is unknown.
pub fn convert_type(attr_type: String) -> (r: String)
    ensures
        r@ == mapped_type(attr_type@),
{
    if attr_type == lit("Edm.String") {
        lit("String")
    } else if attr_type == lit("Edm.Boolean") {
        lit("bool")
    } else if attr_type == lit("Edm.Date") {
        lit("DateTime")
    } else if attr_type == lit("Edm.Int32") {
        lit("u32")
    } else {
        lit("?")
    }
}

/// The directive for a field that is `required` and bounded by `max_length`.
pub fn validation_directive(required: bool, max_length: Option<String>) -> (r: Option<String>)
    ensures
        opt_view(r) == directive(required, opt_view(max_length)),
{
    match max_length {
        Some(m) => {
            let mut d = if required {
                lit("\t#[validation(required,length=")
            } else {
                lit("\t#[validation(length=")
            };
            d.append(m.as_str());
            d.append(")]");
            Some(d)
        },
        None => if required {
            Some(lit("\t#[validation(required)]"))
        } else {
            None
        },
    }
}

/// The validation directive that a property's `Nullable` and `MaxLength` call for.
pub fn validation_str(prop: &XmlNode) -> (r: Option<String>)
    ensures
        opt_view(r) == validation_of(prop@),
{
    let required = prop.attribute_is("Nullable", "false");
    validation_directive(required, prop.attribute("MaxLength"))
}

/// The field declaration of a property, or nothing where it lacks a name or a type.
pub fn prop_str(prop: &XmlNode) -> (r: Option<String>)
    ensures
        opt_view(r) == field_line(prop@),
{
    match (prop.attribute("Name"), prop.attribute("Type")) {
        (Some(name), Some(t)) => {
            let mut line = join("\tpub ", name.as_str());
            line.append(": ");
            let ty = convert_type(t);
            line.append(ty.as_str());
            line.append(",\n");
            Some(line)
        },
        _ => None,
    }
}

/// Renders a property as a field, with its validation directive on the line
/// before where `with_directives` holds.
pub fn render_field(prop: &XmlNode, with_directives: bool) -> (r: Option<String>)
    ensures
        opt_view(r) == field_block(prop@, with_directives),
{
    match prop_str(prop) {
        None => None,
        Some(f) => {
            if with_directives {
                match validation_str(prop) {
                    Some(v) => {
                        let mut block = join(v.as_str(), "\n");
                        block.append(f.as_str());
                        return Some(block);
                    },
                    None => {},
                }
            }
            Some(f)
        },
    }
}

} // verus!
