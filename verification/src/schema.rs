//! JSON-like descriptions of the arguments that an operation takes.

use vstd::prelude::*;
use vstd::string::*;
use crate::text::{owned, strings_view};

verus! {

/// The JSON type of one argument.
#[derive(Debug, Clone, Copy, PartialEq, Eq, Structural)]
pub enum FieldType {
    String,
    Number,
    Boolean,
    Object,
}

/// What a schema says of members it does not list.
#[derive(Debug, Clone, Copy, PartialEq, Eq, Structural)]
pub enum Additional {
    /// Nothing is said.
    Unspecified,
    /// Any further member is accepted.
    Allowed,
    /// No further member is accepted.
    Forbidden,
    /// Further members are accepted where their value is a string.
    Strings,
}

/// One named argument of an operation.
#[derive(Debug, Clone)]
pub struct SchemaField {
    pub name: String,
    pub kind: FieldType,
    pub description: String,
    pub additional: Additional,
    pub default: Option<String>,
}

/// The mathematical content of a [`SchemaField`].
pub struct FieldView {
    pub name: Seq<char>,
    pub kind: FieldType,
    pub description: Seq<char>,
    pub additional: Additional,
    pub default: Option<Seq<char>>,
}

impl View for SchemaField {
    type V = FieldView;

    open spec fn view(&self) -> FieldView {
        FieldView {
            name: self.name@,
            kind: self.kind,
            description: self.description@,
            additional: self.additional,
            default: match self.default {
                Some(d) => Some(d@),
                None => None,
            },
        }
    }
}

/// The schema of an operation's arguments: always a JSON object, with the
/// arguments it lists (if it lists any), those it requires, and what it says
/// of further members.
#[derive(Debug, Clone)]
pub struct ToolSchema {
    pub properties: Option<Vec<SchemaField>>,
    pub required: Option<Vec<String>>,
    pub additional: Additional,
}

/// The mathematical content of a [`ToolSchema`].
pub struct SchemaView {
    pub properties: Option<Seq<FieldView>>,
    pub required: Option<Seq<Seq<char>>>,
    pub additional: Additional,
}

/// The contents of a list of fields.
pub open spec fn fields_view(fields: Seq<SchemaField>) -> Seq<FieldView> {
    fields.map_values(|f: SchemaField| f@)
}

impl View for ToolSchema {
    type V = SchemaView;

    open spec fn view(&self) -> SchemaView {
        SchemaView {
            properties: match self.properties {
                Some(p) => Some(fields_view(p@)),
                None => None,
            },
            required: match self.required {
                Some(r) => Some(strings_view(r@)),
                None => None,
            },
            additional: self.additional,
        }
    }
}

/// A plain argument: a name, a type and a description.
pub open spec fn plain_field(name: Seq<char>, kind: FieldType, description: Seq<char>) -> FieldView {
    FieldView { name, kind, description, additional: Additional::Unspecified, default: None }
}

impl ToolSchema {
    /// The JSON type of every schema.
    pub fn json_type(&self) -> (r: &'static str)
        ensures
            r@ == "object"@,
    {
        "object"
    }
}

/// Appends one argument to a list of fields.
pub fn add_field(
    fields: &mut Vec<SchemaField>,
    name: &str,
    kind: FieldType,
    description: &str,
    additional: Additional,
    default: Option<&str>,
)
    ensures
        fields_view(final(fields)@) == fields_view(old(fields)@).push(
            FieldView {
                name: name@,
                kind,
                description: description@,
                additional,
                default: match default {
                    Some(d) => Some(d@),
                    None => None,
                },
            },
        ),
{
    let default = match default {
        Some(d) => Some(owned(d)),
        None => None,
    };
    let field = SchemaField { name: owned(name), kind, description: owned(description), additional, default };
    fields.push(field);
    proof {
        assert(fields_view(fields@) =~= fields_view(old(fields)@).push(field@));
    }
}

/// Appends one name to a list of names.
pub fn add_name(names: &mut Vec<String>, name: &str)
    ensures
        strings_view(final(names)@) == strings_view(old(names)@).push(name@),
{
    let n = owned(name);
    names.push(n);
    proof {
        assert(strings_view(names@) =~= strings_view(old(names)@).push(name@));
    }
}

} // verus!
