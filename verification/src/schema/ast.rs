//! Schema language (type system) syntax tree.
//!
//! The root is [`Document`]; definitions are the schema definition, type
//! definitions, their extension variants (which by grammar carry no
//! description), and directive definitions.  [`DirectiveLocation`] is the
//! closed set of syntactic positions a directive may be declared valid at,
//! with a total, order-preserving mapping to and from its canonical
//! uppercase spelling.

use vstd::prelude::*;

use crate::common::{directives_wf, Directive, Span, Type, Value};
use crate::position::Pos;

verus! {

/// Root of schema data: definitions in source order.
#[derive(Debug, PartialEq)]
pub struct Document {
    pub definitions: Vec<Definition>,
}

#[derive(Debug, PartialEq)]
pub enum Definition {
    SchemaDefinition(SchemaDefinition),
    TypeDefinition(TypeDefinition),
    TypeExtension(TypeExtension),
    DirectiveDefinition(DirectiveDefinition),
}

/// The `schema { ... }` block binding operation types.  Each binding may be
/// given at most once: a second binding of the same operation type is a parse
/// error, never a silent merge.
#[derive(Debug, PartialEq)]
pub struct SchemaDefinition {
    pub position: Pos,
    pub directives: Vec<Directive>,
    pub query: Option<Span>,
    pub mutation: Option<Span>,
    pub subscription: Option<Span>,
}

#[derive(Debug, PartialEq)]
pub enum TypeDefinition {
    Scalar(ScalarType),
    Object(ObjectType),
    Interface(InterfaceType),
    Union(UnionType),
    Enum(EnumType),
    InputObject(InputObjectType),
}

#[derive(Debug, PartialEq)]
pub enum TypeExtension {
    Scalar(ScalarTypeExtension),
    Object(ObjectTypeExtension),
    Interface(InterfaceTypeExtension),
    Union(UnionTypeExtension),
    Enum(EnumTypeExtension),
    InputObject(InputObjectTypeExtension),
}

#[derive(Debug, PartialEq)]
pub struct ScalarType {
    pub position: Pos,
    pub description: Option<Vec<u8>>,
    pub name: Span,
    pub directives: Vec<Directive>,
}

#[derive(Debug, PartialEq)]
pub struct ScalarTypeExtension {
    pub position: Pos,
    pub name: Span,
    pub directives: Vec<Directive>,
}

#[derive(Debug, PartialEq)]
pub struct ObjectType {
    pub position: Pos,
    pub description: Option<Vec<u8>>,
    pub name: Span,
    pub implements_interfaces: Vec<Span>,
    pub directives: Vec<Directive>,
    pub fields: Vec<Field>,
}

#[derive(Debug, PartialEq)]
pub struct ObjectTypeExtension {
    pub position: Pos,
    pub name: Span,
    pub implements_interfaces: Vec<Span>,
    pub directives: Vec<Directive>,
    pub fields: Vec<Field>,
}

/// A field of an object or interface type.
#[derive(Debug, PartialEq)]
pub struct Field {
    pub position: Pos,
    pub description: Option<Vec<u8>>,
    pub name: Span,
    pub arguments: Vec<InputValue>,
    pub field_type: Type,
    pub directives: Vec<Directive>,
}

/// An argument declaration or an input object field.
#[derive(Debug, PartialEq)]
pub struct InputValue {
    pub position: Pos,
    pub description: Option<Vec<u8>>,
    pub name: Span,
    pub value_type: Type,
    pub default_value: Option<Value>,
    pub directives: Vec<Directive>,
}

#[derive(Debug, PartialEq)]
pub struct InterfaceType {
    pub position: Pos,
    pub description: Option<Vec<u8>>,
    pub name: Span,
    pub implements_interfaces: Vec<Span>,
    pub directives: Vec<Directive>,
    pub fields: Vec<Field>,
}

#[derive(Debug, PartialEq)]
pub struct InterfaceTypeExtension {
    pub position: Pos,
    pub name: Span,
    pub implements_interfaces: Vec<Span>,
    pub directives: Vec<Directive>,
    pub fields: Vec<Field>,
}

#[derive(Debug, PartialEq)]
pub struct UnionType {
    pub position: Pos,
    pub description: Option<Vec<u8>>,
    pub name: Span,
    pub directives: Vec<Directive>,
    pub types: Vec<Span>,
}

#[derive(Debug, PartialEq)]
pub struct UnionTypeExtension {
    pub position: Pos,
    pub name: Span,
    pub directives: Vec<Directive>,
    pub types: Vec<Span>,
}

#[derive(Debug, PartialEq)]
pub struct EnumType {
    pub position: Pos,
    pub description: Option<Vec<u8>>,
    pub name: Span,
    pub directives: Vec<Directive>,
    pub values: Vec<EnumValue>,
}

#[derive(Debug, PartialEq)]
pub struct EnumValue {
    pub position: Pos,
    pub description: Option<Vec<u8>>,
    pub name: Span,
    pub directives: Vec<Directive>,
}

#[derive(Debug, PartialEq)]
pub struct EnumTypeExtension {
    pub position: Pos,
    pub name: Span,
    pub directives: Vec<Directive>,
    pub values: Vec<EnumValue>,
}

#[derive(Debug, PartialEq)]
pub struct InputObjectType {
    pub position: Pos,
    pub description: Option<Vec<u8>>,
    pub name: Span,
    pub directives: Vec<Directive>,
    pub fields: Vec<InputValue>,
}

#[derive(Debug, PartialEq)]
pub struct InputObjectTypeExtension {
    pub position: Pos,
    pub name: Span,
    pub directives: Vec<Directive>,
    pub fields: Vec<InputValue>,
}

/// The closed set of syntactic positions a directive may be declared valid
/// at, split into executable and type-system locations.
#[derive(Debug, Clone, Copy, PartialEq, Eq, Structural, Hash)]
pub enum DirectiveLocation {
    // executable
    Query,
    Mutation,
    Subscription,
    Field,
    FragmentDefinition,
    FragmentSpread,
    InlineFragment,
    // type system
    Schema,
    Scalar,
    Object,
    FieldDefinition,
    ArgumentDefinition,
    Interface,
    Union,
    Enum,
    EnumValue,
    InputObject,
    InputFieldDefinition,
    VariableDefinition,
}

#[derive(Debug, PartialEq)]
pub struct DirectiveDefinition {
    pub position: Pos,
    pub description: Option<Vec<u8>>,
    pub name: Span,
    pub arguments: Vec<InputValue>,
    pub repeatable: bool,
    pub locations: Vec<DirectiveLocation>,
}

/// A spelling that names no directive location.
#[derive(Debug, Clone, Copy, PartialEq, Eq, Structural)]
pub struct InvalidDirectiveLocation;

/// The canonical uppercase spelling of a location, as bytes.
pub open spec fn location_name_bytes(l: DirectiveLocation) -> Seq<u8> {
    match l {
        DirectiveLocation::Query => seq![81u8, 85u8, 69u8, 82u8, 89u8],
        DirectiveLocation::Mutation => seq![77u8, 85u8, 84u8, 65u8, 84u8, 73u8, 79u8, 78u8],
        DirectiveLocation::Subscription => seq![83u8, 85u8, 66u8, 83u8, 67u8, 82u8, 73u8, 80u8, 84u8, 73u8, 79u8, 78u8],
        DirectiveLocation::Field => seq![70u8, 73u8, 69u8, 76u8, 68u8],
        DirectiveLocation::FragmentDefinition => seq![70u8, 82u8, 65u8, 71u8, 77u8, 69u8, 78u8, 84u8, 95u8, 68u8, 69u8, 70u8, 73u8, 78u8, 73u8, 84u8, 73u8, 79u8, 78u8],
        DirectiveLocation::FragmentSpread => seq![70u8, 82u8, 65u8, 71u8, 77u8, 69u8, 78u8, 84u8, 95u8, 83u8, 80u8, 82u8, 69u8, 65u8, 68u8],
        DirectiveLocation::InlineFragment => seq![73u8, 78u8, 76u8, 73u8, 78u8, 69u8, 95u8, 70u8, 82u8, 65u8, 71u8, 77u8, 69u8, 78u8, 84u8],
        DirectiveLocation::Schema => seq![83u8, 67u8, 72u8, 69u8, 77u8, 65u8],
        DirectiveLocation::Scalar => seq![83u8, 67u8, 65u8, 76u8, 65u8, 82u8],
        DirectiveLocation::Object => seq![79u8, 66u8, 74u8, 69u8, 67u8, 84u8],
        DirectiveLocation::FieldDefinition => seq![70u8, 73u8, 69u8, 76u8, 68u8, 95u8, 68u8, 69u8, 70u8, 73u8, 78u8, 73u8, 84u8, 73u8, 79u8, 78u8],
        DirectiveLocation::ArgumentDefinition => seq![65u8, 82u8, 71u8, 85u8, 77u8, 69u8, 78u8, 84u8, 95u8, 68u8, 69u8, 70u8, 73u8, 78u8, 73u8, 84u8, 73u8, 79u8, 78u8],
        DirectiveLocation::Interface => seq![73u8, 78u8, 84u8, 69u8, 82u8, 70u8, 65u8, 67u8, 69u8],
        DirectiveLocation::Union => seq![85u8, 78u8, 73u8, 79u8, 78u8],
        DirectiveLocation::Enum => seq![69u8, 78u8, 85u8, 77u8],
        DirectiveLocation::EnumValue => seq![69u8, 78u8, 85u8, 77u8, 95u8, 86u8, 65u8, 76u8, 85u8, 69u8],
        DirectiveLocation::InputObject => seq![73u8, 78u8, 80u8, 85u8, 84u8, 95u8, 79u8, 66u8, 74u8, 69u8, 67u8, 84u8],
        DirectiveLocation::InputFieldDefinition => seq![73u8, 78u8, 80u8, 85u8, 84u8, 95u8, 70u8, 73u8, 69u8, 76u8, 68u8, 95u8, 68u8, 69u8, 70u8, 73u8, 78u8, 73u8, 84u8, 73u8, 79u8, 78u8],
        DirectiveLocation::VariableDefinition => seq![86u8, 65u8, 82u8, 73u8, 65u8, 66u8, 76u8, 69u8, 95u8, 68u8, 69u8, 70u8, 73u8, 78u8, 73u8, 84u8, 73u8, 79u8, 78u8],
    }
}

/// The location a spelling names, if any: the inverse of
/// [`location_name_bytes`].  An unrecognized spelling maps to nothing.
pub open spec fn location_of_bytes(s: Seq<u8>) -> Option<DirectiveLocation> {
    if s == location_name_bytes(DirectiveLocation::Query) {
        Some(DirectiveLocation::Query)
    } else if s == location_name_bytes(DirectiveLocation::Mutation) {
        Some(DirectiveLocation::Mutation)
    } else if s == location_name_bytes(DirectiveLocation::Subscription) {
        Some(DirectiveLocation::Subscription)
    } else if s == location_name_bytes(DirectiveLocation::Field) {
        Some(DirectiveLocation::Field)
    } else if s == location_name_bytes(DirectiveLocation::FragmentDefinition) {
        Some(DirectiveLocation::FragmentDefinition)
    } else if s == location_name_bytes(DirectiveLocation::FragmentSpread) {
        Some(DirectiveLocation::FragmentSpread)
    } else if s == location_name_bytes(DirectiveLocation::InlineFragment) {
        Some(DirectiveLocation::InlineFragment)
    } else if s == location_name_bytes(DirectiveLocation::Schema) {
        Some(DirectiveLocation::Schema)
    } else if s == location_name_bytes(DirectiveLocation::Scalar) {
        Some(DirectiveLocation::Scalar)
    } else if s == location_name_bytes(DirectiveLocation::Object) {
        Some(DirectiveLocation::Object)
    } else if s == location_name_bytes(DirectiveLocation::FieldDefinition) {
        Some(DirectiveLocation::FieldDefinition)
    } else if s == location_name_bytes(DirectiveLocation::ArgumentDefinition) {
        Some(DirectiveLocation::ArgumentDefinition)
    } else if s == location_name_bytes(DirectiveLocation::Interface) {
        Some(DirectiveLocation::Interface)
    } else if s == location_name_bytes(DirectiveLocation::Union) {
        Some(DirectiveLocation::Union)
    } else if s == location_name_bytes(DirectiveLocation::Enum) {
        Some(DirectiveLocation::Enum)
    } else if s == location_name_bytes(DirectiveLocation::EnumValue) {
        Some(DirectiveLocation::EnumValue)
    } else if s == location_name_bytes(DirectiveLocation::InputObject) {
        Some(DirectiveLocation::InputObject)
    } else if s == location_name_bytes(DirectiveLocation::InputFieldDefinition) {
        Some(DirectiveLocation::InputFieldDefinition)
    } else if s == location_name_bytes(DirectiveLocation::VariableDefinition) {
        Some(DirectiveLocation::VariableDefinition)
    } else {
        None
    }
}

/// Whether a location belongs to the executable (query) half of the set.
pub open spec fn location_is_query(l: DirectiveLocation) -> bool {
    match l {
        DirectiveLocation::Query | DirectiveLocation::Mutation | DirectiveLocation::Subscription | DirectiveLocation::Field | DirectiveLocation::FragmentDefinition | DirectiveLocation::FragmentSpread | DirectiveLocation::InlineFragment => true,
        DirectiveLocation::Schema | DirectiveLocation::Scalar | DirectiveLocation::Object | DirectiveLocation::FieldDefinition | DirectiveLocation::ArgumentDefinition | DirectiveLocation::Interface | DirectiveLocation::Union | DirectiveLocation::Enum | DirectiveLocation::EnumValue | DirectiveLocation::InputObject | DirectiveLocation::InputFieldDefinition | DirectiveLocation::VariableDefinition => false,
    }
}

impl DirectiveLocation {
    /// Returns the GraphQL-syntax spelling of the location.
    pub fn as_str(&self) -> (r: &'static str)
        ensures
            r@.map_values(|c: char| c as u8) == location_name_bytes(*self),
    {
        let r = match *self {
            DirectiveLocation::Query => "QUERY",
            DirectiveLocation::Mutation => "MUTATION",
            DirectiveLocation::Subscription => "SUBSCRIPTION",
            DirectiveLocation::Field => "FIELD",
            DirectiveLocation::FragmentDefinition => "FRAGMENT_DEFINITION",
            DirectiveLocation::FragmentSpread => "FRAGMENT_SPREAD",
            DirectiveLocation::InlineFragment => "INLINE_FRAGMENT",
            DirectiveLocation::Schema => "SCHEMA",
            DirectiveLocation::Scalar => "SCALAR",
            DirectiveLocation::Object => "OBJECT",
            DirectiveLocation::FieldDefinition => "FIELD_DEFINITION",
            DirectiveLocation::ArgumentDefinition => "ARGUMENT_DEFINITION",
            DirectiveLocation::Interface => "INTERFACE",
            DirectiveLocation::Union => "UNION",
            DirectiveLocation::Enum => "ENUM",
            DirectiveLocation::EnumValue => "ENUM_VALUE",
            DirectiveLocation::InputObject => "INPUT_OBJECT",
            DirectiveLocation::InputFieldDefinition => "INPUT_FIELD_DEFINITION",
            DirectiveLocation::VariableDefinition => "VARIABLE_DEFINITION",
        };
        proof {
            reveal_strlit("QUERY");
            reveal_strlit("MUTATION");
            reveal_strlit("SUBSCRIPTION");
            reveal_strlit("FIELD");
            reveal_strlit("FRAGMENT_DEFINITION");
            reveal_strlit("FRAGMENT_SPREAD");
            reveal_strlit("INLINE_FRAGMENT");
            reveal_strlit("SCHEMA");
            reveal_strlit("SCALAR");
            reveal_strlit("OBJECT");
            reveal_strlit("FIELD_DEFINITION");
            reveal_strlit("ARGUMENT_DEFINITION");
            reveal_strlit("INTERFACE");
            reveal_strlit("UNION");
            reveal_strlit("ENUM");
            reveal_strlit("ENUM_VALUE");
            reveal_strlit("INPUT_OBJECT");
            reveal_strlit("INPUT_FIELD_DEFINITION");
            reveal_strlit("VARIABLE_DEFINITION");
            assert(r@.map_values(|c: char| c as u8) =~= location_name_bytes(*self));
        }
        r
    }

    /// The location named by a spelling, or nothing for an unrecognized one.
    pub fn from_name(b: &[u8]) -> (r: Option<DirectiveLocation>)
        ensures
            r == location_of_bytes(b@),
    {
    if b.len() == 5 && b[0] == 81 && b[1] == 85 && b[2] == 69 && b[3] == 82 && b[4] == 89 {
        proof {
            assert(b@ =~= location_name_bytes(DirectiveLocation::Query));
        }
        return Some(DirectiveLocation::Query);
    }
    if b.len() == 8 && b[0] == 77 && b[1] == 85 && b[2] == 84 && b[3] == 65 && b[4] == 84 && b[5] == 73 && b[6] == 79 && b[7] == 78 {
        proof {
            assert(b@ =~= location_name_bytes(DirectiveLocation::Mutation));
        }
        return Some(DirectiveLocation::Mutation);
    }
    if b.len() == 12 && b[0] == 83 && b[1] == 85 && b[2] == 66 && b[3] == 83 && b[4] == 67 && b[5] == 82 && b[6] == 73 && b[7] == 80 && b[8] == 84 && b[9] == 73 && b[10] == 79 && b[11] == 78 {
        proof {
            assert(b@ =~= location_name_bytes(DirectiveLocation::Subscription));
        }
        return Some(DirectiveLocation::Subscription);
    }
    if b.len() == 5 && b[0] == 70 && b[1] == 73 && b[2] == 69 && b[3] == 76 && b[4] == 68 {
        proof {
            assert(b@ =~= location_name_bytes(DirectiveLocation::Field));
        }
        return Some(DirectiveLocation::Field);
    }
    if b.len() == 19 && b[0] == 70 && b[1] == 82 && b[2] == 65 && b[3] == 71 && b[4] == 77 && b[5] == 69 && b[6] == 78 && b[7] == 84 && b[8] == 95 && b[9] == 68 && b[10] == 69 && b[11] == 70 && b[12] == 73 && b[13] == 78 && b[14] == 73 && b[15] == 84 && b[16] == 73 && b[17] == 79 && b[18] == 78 {
        proof {
            assert(b@ =~= location_name_bytes(DirectiveLocation::FragmentDefinition));
        }
        return Some(DirectiveLocation::FragmentDefinition);
    }
    if b.len() == 15 && b[0] == 70 && b[1] == 82 && b[2] == 65 && b[3] == 71 && b[4] == 77 && b[5] == 69 && b[6] == 78 && b[7] == 84 && b[8] == 95 && b[9] == 83 && b[10] == 80 && b[11] == 82 && b[12] == 69 && b[13] == 65 && b[14] == 68 {
        proof {
            assert(b@ =~= location_name_bytes(DirectiveLocation::FragmentSpread));
        }
        return Some(DirectiveLocation::FragmentSpread);
    }
    if b.len() == 15 && b[0] == 73 && b[1] == 78 && b[2] == 76 && b[3] == 73 && b[4] == 78 && b[5] == 69 && b[6] == 95 && b[7] == 70 && b[8] == 82 && b[9] == 65 && b[10] == 71 && b[11] == 77 && b[12] == 69 && b[13] == 78 && b[14] == 84 {
        proof {
            assert(b@ =~= location_name_bytes(DirectiveLocation::InlineFragment));
        }
        return Some(DirectiveLocation::InlineFragment);
    }
    if b.len() == 6 && b[0] == 83 && b[1] == 67 && b[2] == 72 && b[3] == 69 && b[4] == 77 && b[5] == 65 {
        proof {
            assert(b@ =~= location_name_bytes(DirectiveLocation::Schema));
        }
        return Some(DirectiveLocation::Schema);
    }
    if b.len() == 6 && b[0] == 83 && b[1] == 67 && b[2] == 65 && b[3] == 76 && b[4] == 65 && b[5] == 82 {
        proof {
            assert(b@ =~= location_name_bytes(DirectiveLocation::Scalar));
        }
        return Some(DirectiveLocation::Scalar);
    }
    if b.len() == 6 && b[0] == 79 && b[1] == 66 && b[2] == 74 && b[3] == 69 && b[4] == 67 && b[5] == 84 {
        proof {
            assert(b@ =~= location_name_bytes(DirectiveLocation::Object));
        }
        return Some(DirectiveLocation::Object);
    }
    if b.len() == 16 && b[0] == 70 && b[1] == 73 && b[2] == 69 && b[3] == 76 && b[4] == 68 && b[5] == 95 && b[6] == 68 && b[7] == 69 && b[8] == 70 && b[9] == 73 && b[10] == 78 && b[11] == 73 && b[12] == 84 && b[13] == 73 && b[14] == 79 && b[15] == 78 {
        proof {
            assert(b@ =~= location_name_bytes(DirectiveLocation::FieldDefinition));
        }
        return Some(DirectiveLocation::FieldDefinition);
    }
    if b.len() == 19 && b[0] == 65 && b[1] == 82 && b[2] == 71 && b[3] == 85 && b[4] == 77 && b[5] == 69 && b[6] == 78 && b[7] == 84 && b[8] == 95 && b[9] == 68 && b[10] == 69 && b[11] == 70 && b[12] == 73 && b[13] == 78 && b[14] == 73 && b[15] == 84 && b[16] == 73 && b[17] == 79 && b[18] == 78 {
        proof {
            assert(b@ =~= location_name_bytes(DirectiveLocation::ArgumentDefinition));
        }
        return Some(DirectiveLocation::ArgumentDefinition);
    }
    if b.len() == 9 && b[0] == 73 && b[1] == 78 && b[2] == 84 && b[3] == 69 && b[4] == 82 && b[5] == 70 && b[6] == 65 && b[7] == 67 && b[8] == 69 {
        proof {
            assert(b@ =~= location_name_bytes(DirectiveLocation::Interface));
        }
        return Some(DirectiveLocation::Interface);
    }
    if b.len() == 5 && b[0] == 85 && b[1] == 78 && b[2] == 73 && b[3] == 79 && b[4] == 78 {
        proof {
            assert(b@ =~= location_name_bytes(DirectiveLocation::Union));
        }
        return Some(DirectiveLocation::Union);
    }
    if b.len() == 4 && b[0] == 69 && b[1] == 78 && b[2] == 85 && b[3] == 77 {
        proof {
            assert(b@ =~= location_name_bytes(DirectiveLocation::Enum));
        }
        return Some(DirectiveLocation::Enum);
    }
    if b.len() == 10 && b[0] == 69 && b[1] == 78 && b[2] == 85 && b[3] == 77 && b[4] == 95 && b[5] == 86 && b[6] == 65 && b[7] == 76 && b[8] == 85 && b[9] == 69 {
        proof {
            assert(b@ =~= location_name_bytes(DirectiveLocation::EnumValue));
        }
        return Some(DirectiveLocation::EnumValue);
    }
    if b.len() == 12 && b[0] == 73 && b[1] == 78 && b[2] == 80 && b[3] == 85 && b[4] == 84 && b[5] == 95 && b[6] == 79 && b[7] == 66 && b[8] == 74 && b[9] == 69 && b[10] == 67 && b[11] == 84 {
        proof {
            assert(b@ =~= location_name_bytes(DirectiveLocation::InputObject));
        }
        return Some(DirectiveLocation::InputObject);
    }
    if b.len() == 22 && b[0] == 73 && b[1] == 78 && b[2] == 80 && b[3] == 85 && b[4] == 84 && b[5] == 95 && b[6] == 70 && b[7] == 73 && b[8] == 69 && b[9] == 76 && b[10] == 68 && b[11] == 95 && b[12] == 68 && b[13] == 69 && b[14] == 70 && b[15] == 73 && b[16] == 78 && b[17] == 73 && b[18] == 84 && b[19] == 73 && b[20] == 79 && b[21] == 78 {
        proof {
            assert(b@ =~= location_name_bytes(DirectiveLocation::InputFieldDefinition));
        }
        return Some(DirectiveLocation::InputFieldDefinition);
    }
    if b.len() == 19 && b[0] == 86 && b[1] == 65 && b[2] == 82 && b[3] == 73 && b[4] == 65 && b[5] == 66 && b[6] == 76 && b[7] == 69 && b[8] == 95 && b[9] == 68 && b[10] == 69 && b[11] == 70 && b[12] == 73 && b[13] == 78 && b[14] == 73 && b[15] == 84 && b[16] == 73 && b[17] == 79 && b[18] == 78 {
        proof {
            assert(b@ =~= location_name_bytes(DirectiveLocation::VariableDefinition));
        }
        return Some(DirectiveLocation::VariableDefinition);
    }
    None
    }

    /// Returns `true` if this location is for queries (execution).
    pub fn is_query(&self) -> (r: bool)
        ensures
            r == location_is_query(*self),
    {
        match *self {
            DirectiveLocation::Query | DirectiveLocation::Mutation | DirectiveLocation::Subscription | DirectiveLocation::Field | DirectiveLocation::FragmentDefinition | DirectiveLocation::FragmentSpread | DirectiveLocation::InlineFragment => true,
            DirectiveLocation::Schema | DirectiveLocation::Scalar | DirectiveLocation::Object | DirectiveLocation::FieldDefinition | DirectiveLocation::ArgumentDefinition | DirectiveLocation::Interface | DirectiveLocation::Union | DirectiveLocation::Enum | DirectiveLocation::EnumValue | DirectiveLocation::InputObject | DirectiveLocation::InputFieldDefinition | DirectiveLocation::VariableDefinition => false,
        }
    }

    /// Returns `true` if this location is for schemas (the type system).
    pub fn is_schema(&self) -> (r: bool)
        ensures
            r == !location_is_query(*self),
    {
        !self.is_query()
    }
}

impl core::str::FromStr for DirectiveLocation {
    type Err = InvalidDirectiveLocation;

    fn from_str(s: &str) -> Result<DirectiveLocation, InvalidDirectiveLocation> {
        match DirectiveLocation::from_name(s.as_bytes()) {
            Some(l) => Ok(l),
            None => Err(InvalidDirectiveLocation),
        }
    }
}

/// Directive location round trip: the canonical spelling of every location
/// is taken back to exactly that location by the inverse mapping.
#[verifier::rlimit(100)]
pub proof fn lemma_directive_location_round_trip(l: DirectiveLocation)
    ensures
        location_of_bytes(location_name_bytes(l)) == Some(l),
{
    assert(location_name_bytes(DirectiveLocation::Query).len() == 5);
    assert(location_name_bytes(DirectiveLocation::Mutation).len() == 8);
    assert(location_name_bytes(DirectiveLocation::Subscription).len() == 12);
    assert(location_name_bytes(DirectiveLocation::Field).len() == 5);
    assert(location_name_bytes(DirectiveLocation::FragmentDefinition).len() == 19);
    assert(location_name_bytes(DirectiveLocation::FragmentSpread).len() == 15);
    assert(location_name_bytes(DirectiveLocation::InlineFragment).len() == 15);
    assert(location_name_bytes(DirectiveLocation::Schema).len() == 6);
    assert(location_name_bytes(DirectiveLocation::Scalar).len() == 6);
    assert(location_name_bytes(DirectiveLocation::Object).len() == 6);
    assert(location_name_bytes(DirectiveLocation::FieldDefinition).len() == 16);
    assert(location_name_bytes(DirectiveLocation::ArgumentDefinition).len() == 19);
    assert(location_name_bytes(DirectiveLocation::Interface).len() == 9);
    assert(location_name_bytes(DirectiveLocation::Union).len() == 5);
    assert(location_name_bytes(DirectiveLocation::Enum).len() == 4);
    assert(location_name_bytes(DirectiveLocation::EnumValue).len() == 10);
    assert(location_name_bytes(DirectiveLocation::InputObject).len() == 12);
    assert(location_name_bytes(DirectiveLocation::InputFieldDefinition).len() == 22);
    assert(location_name_bytes(DirectiveLocation::VariableDefinition).len() == 19);
    assert(location_name_bytes(DirectiveLocation::Query)[0] == 81);
    assert(location_name_bytes(DirectiveLocation::Field)[0] == 70);
    assert(location_name_bytes(DirectiveLocation::Query)[0] == 81);
    assert(location_name_bytes(DirectiveLocation::Union)[0] == 85);
    assert(location_name_bytes(DirectiveLocation::Subscription)[0] == 83);
    assert(location_name_bytes(DirectiveLocation::InputObject)[0] == 73);
    assert(location_name_bytes(DirectiveLocation::Field)[0] == 70);
    assert(location_name_bytes(DirectiveLocation::Union)[0] == 85);
    assert(location_name_bytes(DirectiveLocation::FragmentDefinition)[0] == 70);
    assert(location_name_bytes(DirectiveLocation::ArgumentDefinition)[0] == 65);
    assert(location_name_bytes(DirectiveLocation::FragmentDefinition)[0] == 70);
    assert(location_name_bytes(DirectiveLocation::VariableDefinition)[0] == 86);
    assert(location_name_bytes(DirectiveLocation::FragmentSpread)[0] == 70);
    assert(location_name_bytes(DirectiveLocation::InlineFragment)[0] == 73);
    assert(location_name_bytes(DirectiveLocation::Schema)[2] == 72);
    assert(location_name_bytes(DirectiveLocation::Scalar)[2] == 65);
    assert(location_name_bytes(DirectiveLocation::Schema)[0] == 83);
    assert(location_name_bytes(DirectiveLocation::Object)[0] == 79);
    assert(location_name_bytes(DirectiveLocation::Scalar)[0] == 83);
    assert(location_name_bytes(DirectiveLocation::Object)[0] == 79);
    assert(location_name_bytes(DirectiveLocation::ArgumentDefinition)[0] == 65);
    assert(location_name_bytes(DirectiveLocation::VariableDefinition)[0] == 86);
    match l {
        DirectiveLocation::Query => {
            assert(location_of_bytes(location_name_bytes(l)) == Some(l));
        },
        DirectiveLocation::Mutation => {
            assert(location_of_bytes(location_name_bytes(l)) == Some(l));
        },
        DirectiveLocation::Subscription => {
            assert(location_of_bytes(location_name_bytes(l)) == Some(l));
        },
        DirectiveLocation::Field => {
            assert(location_of_bytes(location_name_bytes(l)) == Some(l));
        },
        DirectiveLocation::FragmentDefinition => {
            assert(location_of_bytes(location_name_bytes(l)) == Some(l));
        },
        DirectiveLocation::FragmentSpread => {
            assert(location_of_bytes(location_name_bytes(l)) == Some(l));
        },
        DirectiveLocation::InlineFragment => {
            assert(location_of_bytes(location_name_bytes(l)) == Some(l));
        },
        DirectiveLocation::Schema => {
            assert(location_of_bytes(location_name_bytes(l)) == Some(l));
        },
        DirectiveLocation::Scalar => {
            assert(location_of_bytes(location_name_bytes(l)) == Some(l));
        },
        DirectiveLocation::Object => {
            assert(location_of_bytes(location_name_bytes(l)) == Some(l));
        },
        DirectiveLocation::FieldDefinition => {
            assert(location_of_bytes(location_name_bytes(l)) == Some(l));
        },
        DirectiveLocation::ArgumentDefinition => {
            assert(location_of_bytes(location_name_bytes(l)) == Some(l));
        },
        DirectiveLocation::Interface => {
            assert(location_of_bytes(location_name_bytes(l)) == Some(l));
        },
        DirectiveLocation::Union => {
            assert(location_of_bytes(location_name_bytes(l)) == Some(l));
        },
        DirectiveLocation::Enum => {
            assert(location_of_bytes(location_name_bytes(l)) == Some(l));
        },
        DirectiveLocation::EnumValue => {
            assert(location_of_bytes(location_name_bytes(l)) == Some(l));
        },
        DirectiveLocation::InputObject => {
            assert(location_of_bytes(location_name_bytes(l)) == Some(l));
        },
        DirectiveLocation::InputFieldDefinition => {
            assert(location_of_bytes(location_name_bytes(l)) == Some(l));
        },
        DirectiveLocation::VariableDefinition => {
            assert(location_of_bytes(location_name_bytes(l)) == Some(l));
        },
    }
}

/// Well-formedness of a list of name ranges.
pub open spec fn spans_wf(s: Seq<Span>, len: nat) -> bool {
    forall|i: int| 0 <= i < s.len() ==> (#[trigger] s[i]).wf(len)
}

/// Well-formedness of a list of type fields.
pub open spec fn fields_wf(s: Seq<Field>, len: nat) -> bool {
    forall|i: int| 0 <= i < s.len() ==> (#[trigger] s[i]).wf(len)
}

/// Well-formedness of a list of input values.
pub open spec fn input_values_wf(s: Seq<InputValue>, len: nat) -> bool {
    forall|i: int| 0 <= i < s.len() ==> (#[trigger] s[i]).wf(len)
}

/// Well-formedness of a list of enum values.
pub open spec fn enum_values_wf(s: Seq<EnumValue>, len: nat) -> bool {
    forall|i: int| 0 <= i < s.len() ==> (#[trigger] s[i]).wf(len)
}

impl Field {
    pub open spec fn wf(self, len: nat) -> bool {
        &&& self.name.wf(len)
        &&& input_values_wf(self.arguments@, len)
        &&& self.field_type.wf(len)
        &&& directives_wf(self.directives@, len)
    }
}

impl InputValue {
    pub open spec fn wf(self, len: nat) -> bool {
        &&& self.name.wf(len)
        &&& self.value_type.wf(len)
        &&& match self.default_value {
            Some(v) => v.wf(len),
            None => true,
        }
        &&& directives_wf(self.directives@, len)
    }
}

impl SchemaDefinition {
    pub open spec fn wf(self, len: nat) -> bool {
        &&& directives_wf(self.directives@, len)
        &&& match self.query {
            Some(s) => s.wf(len),
            None => true,
        }
        &&& match self.mutation {
            Some(s) => s.wf(len),
            None => true,
        }
        &&& match self.subscription {
            Some(s) => s.wf(len),
            None => true,
        }
    }
}

impl ScalarType {
    pub open spec fn wf(self, len: nat) -> bool {
        &&& self.name.wf(len)
        &&& directives_wf(self.directives@, len)
    }
}

impl ScalarTypeExtension {
    pub open spec fn wf(self, len: nat) -> bool {
        &&& self.name.wf(len)
        &&& directives_wf(self.directives@, len)
    }
}

impl ObjectType {
    pub open spec fn wf(self, len: nat) -> bool {
        &&& self.name.wf(len)
        &&& spans_wf(self.implements_interfaces@, len)
        &&& directives_wf(self.directives@, len)
        &&& fields_wf(self.fields@, len)
    }
}

impl ObjectTypeExtension {
    pub open spec fn wf(self, len: nat) -> bool {
        &&& self.name.wf(len)
        &&& spans_wf(self.implements_interfaces@, len)
        &&& directives_wf(self.directives@, len)
        &&& fields_wf(self.fields@, len)
    }
}

impl InterfaceType {
    pub open spec fn wf(self, len: nat) -> bool {
        &&& self.name.wf(len)
        &&& spans_wf(self.implements_interfaces@, len)
        &&& directives_wf(self.directives@, len)
        &&& fields_wf(self.fields@, len)
    }
}

impl InterfaceTypeExtension {
    pub open spec fn wf(self, len: nat) -> bool {
        &&& self.name.wf(len)
        &&& spans_wf(self.implements_interfaces@, len)
        &&& directives_wf(self.directives@, len)
        &&& fields_wf(self.fields@, len)
    }
}

impl UnionType {
    pub open spec fn wf(self, len: nat) -> bool {
        &&& self.name.wf(len)
        &&& directives_wf(self.directives@, len)
        &&& spans_wf(self.types@, len)
    }
}

impl UnionTypeExtension {
    pub open spec fn wf(self, len: nat) -> bool {
        &&& self.name.wf(len)
        &&& directives_wf(self.directives@, len)
        &&& spans_wf(self.types@, len)
    }
}

impl EnumType {
    pub open spec fn wf(self, len: nat) -> bool {
        &&& self.name.wf(len)
        &&& directives_wf(self.directives@, len)
        &&& enum_values_wf(self.values@, len)
    }
}

impl EnumValue {
    pub open spec fn wf(self, len: nat) -> bool {
        &&& self.name.wf(len)
        &&& directives_wf(self.directives@, len)
    }
}

impl EnumTypeExtension {
    pub open spec fn wf(self, len: nat) -> bool {
        &&& self.name.wf(len)
        &&& directives_wf(self.directives@, len)
        &&& enum_values_wf(self.values@, len)
    }
}

impl InputObjectType {
    pub open spec fn wf(self, len: nat) -> bool {
        &&& self.name.wf(len)
        &&& directives_wf(self.directives@, len)
        &&& input_values_wf(self.fields@, len)
    }
}

impl InputObjectTypeExtension {
    pub open spec fn wf(self, len: nat) -> bool {
        &&& self.name.wf(len)
        &&& directives_wf(self.directives@, len)
        &&& input_values_wf(self.fields@, len)
    }
}

impl DirectiveDefinition {
    pub open spec fn wf(self, len: nat) -> bool {
        &&& self.name.wf(len)
        &&& input_values_wf(self.arguments@, len)
    }
}

impl TypeDefinition {
    pub open spec fn wf(self, len: nat) -> bool {
        match self {
            TypeDefinition::Scalar(t) => t.wf(len),
            TypeDefinition::Object(t) => t.wf(len),
            TypeDefinition::Interface(t) => t.wf(len),
            TypeDefinition::Union(t) => t.wf(len),
            TypeDefinition::Enum(t) => t.wf(len),
            TypeDefinition::InputObject(t) => t.wf(len),
        }
    }
}

impl TypeExtension {
    pub open spec fn wf(self, len: nat) -> bool {
        match self {
            TypeExtension::Scalar(t) => t.wf(len),
            TypeExtension::Object(t) => t.wf(len),
            TypeExtension::Interface(t) => t.wf(len),
            TypeExtension::Union(t) => t.wf(len),
            TypeExtension::Enum(t) => t.wf(len),
            TypeExtension::InputObject(t) => t.wf(len),
        }
    }
}

impl Definition {
    pub open spec fn wf(self, len: nat) -> bool {
        match self {
            Definition::SchemaDefinition(d) => d.wf(len),
            Definition::TypeDefinition(d) => d.wf(len),
            Definition::TypeExtension(d) => d.wf(len),
            Definition::DirectiveDefinition(d) => d.wf(len),
        }
    }
}

impl Document {
    /// Every range anywhere in the tree lies inside a buffer of `len` bytes:
    /// each string-valued field is a view into that buffer.
    pub open spec fn wf(self, len: nat) -> bool {
        forall|i: int| 0 <= i < self.definitions@.len() ==> (#[trigger] self.definitions@[i]).wf(len)
    }
}

impl ScalarType {
    /// A bare node carrying a name and nothing else, positionless.
    pub fn new(name: Span) -> (t: ScalarType)
        ensures
            t.position.line == 0 && t.position.column == 0,
            t.name == name,
            t.description is None,
            t.directives@.len() == 0,
    {
        ScalarType { position: Pos::default(), name, description: None, directives: Vec::new() }
    }
}

impl ScalarTypeExtension {
    /// A bare node carrying a name and nothing else, positionless.
    pub fn new(name: Span) -> (t: ScalarTypeExtension)
        ensures
            t.position.line == 0 && t.position.column == 0,
            t.name == name,
            t.directives@.len() == 0,
    {
        ScalarTypeExtension { position: Pos::default(), name, directives: Vec::new() }
    }
}

impl ObjectType {
    /// A bare node carrying a name and nothing else, positionless.
    pub fn new(name: Span) -> (t: ObjectType)
        ensures
            t.position.line == 0 && t.position.column == 0,
            t.name == name,
            t.description is None,
            t.implements_interfaces@.len() == 0,
            t.directives@.len() == 0,
            t.fields@.len() == 0,
    {
        ObjectType { position: Pos::default(), name, description: None, implements_interfaces: Vec::new(), directives: Vec::new(), fields: Vec::new() }
    }
}

impl ObjectTypeExtension {
    /// A bare node carrying a name and nothing else, positionless.
    pub fn new(name: Span) -> (t: ObjectTypeExtension)
        ensures
            t.position.line == 0 && t.position.column == 0,
            t.name == name,
            t.implements_interfaces@.len() == 0,
            t.directives@.len() == 0,
            t.fields@.len() == 0,
    {
        ObjectTypeExtension { position: Pos::default(), name, implements_interfaces: Vec::new(), directives: Vec::new(), fields: Vec::new() }
    }
}

impl InterfaceType {
    /// A bare node carrying a name and nothing else, positionless.
    pub fn new(name: Span) -> (t: InterfaceType)
        ensures
            t.position.line == 0 && t.position.column == 0,
            t.name == name,
            t.description is None,
            t.implements_interfaces@.len() == 0,
            t.directives@.len() == 0,
            t.fields@.len() == 0,
    {
        InterfaceType { position: Pos::default(), name, description: None, implements_interfaces: Vec::new(), directives: Vec::new(), fields: Vec::new() }
    }
}

impl InterfaceTypeExtension {
    /// A bare node carrying a name and nothing else, positionless.
    pub fn new(name: Span) -> (t: InterfaceTypeExtension)
        ensures
            t.position.line == 0 && t.position.column == 0,
            t.name == name,
            t.implements_interfaces@.len() == 0,
            t.directives@.len() == 0,
            t.fields@.len() == 0,
    {
        InterfaceTypeExtension { position: Pos::default(), name, implements_interfaces: Vec::new(), directives: Vec::new(), fields: Vec::new() }
    }
}

impl UnionType {
    /// A bare node carrying a name and nothing else, positionless.
    pub fn new(name: Span) -> (t: UnionType)
        ensures
            t.position.line == 0 && t.position.column == 0,
            t.name == name,
            t.description is None,
            t.directives@.len() == 0,
            t.types@.len() == 0,
    {
        UnionType { position: Pos::default(), name, description: None, directives: Vec::new(), types: Vec::new() }
    }
}

impl UnionTypeExtension {
    /// A bare node carrying a name and nothing else, positionless.
    pub fn new(name: Span) -> (t: UnionTypeExtension)
        ensures
            t.position.line == 0 && t.position.column == 0,
            t.name == name,
            t.directives@.len() == 0,
            t.types@.len() == 0,
    {
        UnionTypeExtension { position: Pos::default(), name, directives: Vec::new(), types: Vec::new() }
    }
}

impl EnumType {
    /// A bare node carrying a name and nothing else, positionless.
    pub fn new(name: Span) -> (t: EnumType)
        ensures
            t.position.line == 0 && t.position.column == 0,
            t.name == name,
            t.description is None,
            t.directives@.len() == 0,
            t.values@.len() == 0,
    {
        EnumType { position: Pos::default(), name, description: None, directives: Vec::new(), values: Vec::new() }
    }
}

impl EnumValue {
    /// A bare node carrying a name and nothing else, positionless.
    pub fn new(name: Span) -> (t: EnumValue)
        ensures
            t.position.line == 0 && t.position.column == 0,
            t.name == name,
            t.description is None,
            t.directives@.len() == 0,
    {
        EnumValue { position: Pos::default(), name, description: None, directives: Vec::new() }
    }
}

impl EnumTypeExtension {
    /// A bare node carrying a name and nothing else, positionless.
    pub fn new(name: Span) -> (t: EnumTypeExtension)
        ensures
            t.position.line == 0 && t.position.column == 0,
            t.name == name,
            t.directives@.len() == 0,
            t.values@.len() == 0,
    {
        EnumTypeExtension { position: Pos::default(), name, directives: Vec::new(), values: Vec::new() }
    }
}

impl InputObjectType {
    /// A bare node carrying a name and nothing else, positionless.
    pub fn new(name: Span) -> (t: InputObjectType)
        ensures
            t.position.line == 0 && t.position.column == 0,
            t.name == name,
            t.description is None,
            t.directives@.len() == 0,
            t.fields@.len() == 0,
    {
        InputObjectType { position: Pos::default(), name, description: None, directives: Vec::new(), fields: Vec::new() }
    }
}

impl InputObjectTypeExtension {
    /// A bare node carrying a name and nothing else, positionless.
    pub fn new(name: Span) -> (t: InputObjectTypeExtension)
        ensures
            t.position.line == 0 && t.position.column == 0,
            t.name == name,
            t.directives@.len() == 0,
            t.fields@.len() == 0,
    {
        InputObjectTypeExtension { position: Pos::default(), name, directives: Vec::new(), fields: Vec::new() }
    }
}

impl DirectiveDefinition {
    /// A bare node carrying a name and nothing else, positionless.
    pub fn new(name: Span) -> (t: DirectiveDefinition)
        ensures
            t.position.line == 0 && t.position.column == 0,
            t.name == name,
            t.description is None,
            t.arguments@.len() == 0,
            t.repeatable == false,
            t.locations@.len() == 0,
    {
        DirectiveDefinition { position: Pos::default(), name, description: None, arguments: Vec::new(), repeatable: false, locations: Vec::new() }
    }
}

} // verus!
