//! Query language syntax tree.
//!
//! The root is [`Document`]; definitions are operations (a named query,
//! mutation or subscription, or a bare selection set) and fragments.  Every
//! string-valued field is a [`Span`] into the buffer the tree was parsed
//! from, and every node carries the position of the token that begins it.

use vstd::prelude::*;

use crate::common::{arguments_wf, directives_wf, Directive, Span, Type, Value};
use crate::position::Pos;

verus! {

/// Root of query data: one or more definitions in source order.
#[derive(Debug, PartialEq)]
pub struct Document {
    pub definitions: Vec<Definition>,
}

#[derive(Debug, PartialEq)]
pub enum Definition {
    Operation(OperationDefinition),
    Fragment(FragmentDefinition),
}

#[derive(Debug, PartialEq)]
pub enum OperationDefinition {
    /// The shorthand form: a bare selection set as an anonymous query.
    SelectionSet(SelectionSet),
    Query(Query),
    Mutation(Mutation),
    Subscription(Subscription),
}

#[derive(Debug, PartialEq)]
pub struct FragmentDefinition {
    pub position: Pos,
    pub name: Span,
    pub type_condition: TypeCondition,
    pub directives: Vec<Directive>,
    pub selection_set: SelectionSet,
}

#[derive(Debug, PartialEq)]
pub struct Query {
    pub position: Pos,
    pub name: Option<Span>,
    pub variable_definitions: Vec<VariableDefinition>,
    pub directives: Vec<Directive>,
    pub selection_set: SelectionSet,
}

#[derive(Debug, PartialEq)]
pub struct Mutation {
    pub position: Pos,
    pub name: Option<Span>,
    pub variable_definitions: Vec<VariableDefinition>,
    pub directives: Vec<Directive>,
    pub selection_set: SelectionSet,
}

#[derive(Debug, PartialEq)]
pub struct Subscription {
    pub position: Pos,
    pub name: Option<Span>,
    pub variable_definitions: Vec<VariableDefinition>,
    pub directives: Vec<Directive>,
    pub selection_set: SelectionSet,
}

/// A braced, ordered list of selections; `span` brackets the source extent
/// of the `{ ... }` block.
#[derive(Debug, PartialEq)]
pub struct SelectionSet {
    pub span: (Pos, Pos),
    pub items: Vec<Selection>,
}

#[derive(Debug, PartialEq)]
pub struct VariableDefinition {
    pub position: Pos,
    pub name: Span,
    pub var_type: Type,
    pub default_value: Option<Value>,
}

#[derive(Debug, PartialEq)]
pub enum Selection {
    Field(Field),
    FragmentSpread(FragmentSpread),
    InlineFragment(InlineFragment),
}

#[derive(Debug, PartialEq)]
pub struct Field {
    pub position: Pos,
    pub alias: Option<Span>,
    pub name: Span,
    pub arguments: Vec<(Span, Value)>,
    pub directives: Vec<Directive>,
    pub selection_set: SelectionSet,
}

#[derive(Debug, PartialEq)]
pub struct FragmentSpread {
    pub position: Pos,
    pub fragment_name: Span,
    pub directives: Vec<Directive>,
}

/// The `on TypeName` clause narrowing a fragment.
#[derive(Debug, PartialEq)]
pub enum TypeCondition {
    On(Span),
}

#[derive(Debug, PartialEq)]
pub struct InlineFragment {
    pub position: Pos,
    pub type_condition: Option<TypeCondition>,
    pub directives: Vec<Directive>,
    pub selection_set: SelectionSet,
}

impl TypeCondition {
    pub open spec fn wf(self, len: nat) -> bool {
        match self {
            TypeCondition::On(name) => name.wf(len),
        }
    }
}

impl VariableDefinition {
    pub open spec fn wf(self, len: nat) -> bool {
        &&& self.name.wf(len)
        &&& self.var_type.wf(len)
        &&& match self.default_value {
            Some(v) => v.wf(len),
            None => true,
        }
    }
}

/// Well-formedness of an ordered selection list.
pub open spec fn selections_wf(items: Seq<Selection>, len: nat) -> bool
    decreases items,
{
    forall|i: int| 0 <= i < items.len() ==> (#[trigger] items[i]).wf(len)
}

impl SelectionSet {
    /// Every range in the selection set lies inside a buffer of `len` bytes.
    pub open spec fn wf(self, len: nat) -> bool
        decreases self,
    {
        selections_wf(self.items@, len)
    }
}

impl Selection {
    pub open spec fn wf(self, len: nat) -> bool
        decreases self,
    {
        match self {
            Selection::Field(f) => f.wf(len),
            Selection::FragmentSpread(f) => f.wf(len),
            Selection::InlineFragment(f) => f.wf(len),
        }
    }
}

impl Field {
    pub open spec fn wf(self, len: nat) -> bool
        decreases self,
    {
        &&& match self.alias {
            Some(a) => a.wf(len),
            None => true,
        }
        &&& self.name.wf(len)
        &&& arguments_wf(self.arguments@, len)
        &&& directives_wf(self.directives@, len)
        &&& self.selection_set.wf(len)
    }
}

impl FragmentSpread {
    pub open spec fn wf(self, len: nat) -> bool {
        self.fragment_name.wf(len) && directives_wf(self.directives@, len)
    }
}

impl InlineFragment {
    pub open spec fn wf(self, len: nat) -> bool
        decreases self,
    {
        &&& match self.type_condition {
            Some(c) => c.wf(len),
            None => true,
        }
        &&& directives_wf(self.directives@, len)
        &&& self.selection_set.wf(len)
    }
}

impl FragmentDefinition {
    pub open spec fn wf(self, len: nat) -> bool {
        &&& self.name.wf(len)
        &&& self.type_condition.wf(len)
        &&& directives_wf(self.directives@, len)
        &&& self.selection_set.wf(len)
    }
}

impl Query {
    pub open spec fn wf(self, len: nat) -> bool {
        &&& match self.name {
            Some(n) => n.wf(len),
            None => true,
        }
        &&& (forall|i: int|
            0 <= i < self.variable_definitions@.len() ==> (
            #[trigger] self.variable_definitions@[i]).wf(len))
        &&& directives_wf(self.directives@, len)
        &&& self.selection_set.wf(len)
    }
}

impl Mutation {
    pub open spec fn wf(self, len: nat) -> bool {
        &&& match self.name {
            Some(n) => n.wf(len),
            None => true,
        }
        &&& (forall|i: int|
            0 <= i < self.variable_definitions@.len() ==> (
            #[trigger] self.variable_definitions@[i]).wf(len))
        &&& directives_wf(self.directives@, len)
        &&& self.selection_set.wf(len)
    }
}

impl Subscription {
    pub open spec fn wf(self, len: nat) -> bool {
        &&& match self.name {
            Some(n) => n.wf(len),
            None => true,
        }
        &&& (forall|i: int|
            0 <= i < self.variable_definitions@.len() ==> (
            #[trigger] self.variable_definitions@[i]).wf(len))
        &&& directives_wf(self.directives@, len)
        &&& self.selection_set.wf(len)
    }
}

impl OperationDefinition {
    pub open spec fn wf(self, len: nat) -> bool {
        match self {
            OperationDefinition::SelectionSet(s) => s.wf(len),
            OperationDefinition::Query(q) => q.wf(len),
            OperationDefinition::Mutation(m) => m.wf(len),
            OperationDefinition::Subscription(s) => s.wf(len),
        }
    }
}

impl Definition {
    pub open spec fn wf(self, len: nat) -> bool {
        match self {
            Definition::Operation(o) => o.wf(len),
            Definition::Fragment(f) => f.wf(len),
        }
    }
}

impl Document {
    /// Every range anywhere in the tree lies inside a buffer of `len` bytes:
    /// each string-valued field is a view into that buffer.
    pub open spec fn wf(self, len: nat) -> bool {
        forall|i: int| 0 <= i < self.definitions@.len() ==> (#[trigger] self.definitions@[i]).wf(len)
    }
}

} // verus!
