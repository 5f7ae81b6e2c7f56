//! Requests as trees of selected fields, and their validation against the
//! type graph.

use vstd::prelude::*;
use crate::entity::NewMember;
use crate::schema::{field_type, root_type, takes_new_member, target_type, Operation, TypeName};

verus! {

/// A scalar value of an input. Anything that is neither an integer nor a
/// text is `Other`, and fits no field of this graph.
#[derive(Debug, PartialEq, Eq)]
pub enum InputScalar {
    Int(i32),
    Text(String),
    Other,
}

/// One field of an input object.
#[derive(Debug, PartialEq, Eq)]
pub struct InputField {
    pub name: String,
    pub value: InputScalar,
}

/// The value of an argument.
#[derive(Debug, PartialEq, Eq)]
pub enum InputValue {
    Scalar(InputScalar),
    Object(Vec<InputField>),
}

/// One argument of a selected field.
#[derive(Debug, PartialEq, Eq)]
pub struct Argument {
    pub name: String,
    pub value: InputValue,
}

/// One selected field, with the fields selected below it.
#[derive(Debug, PartialEq, Eq)]
pub struct Selection {
    pub name: String,
    pub arguments: Vec<Argument>,
    pub fields: Vec<Selection>,
}

/// One operation, with the fields selected at its root.
#[derive(Debug, PartialEq, Eq)]
pub struct Request {
    pub operation: Operation,
    pub fields: Vec<Selection>,
}

/// Why a request does not fit the type graph.
#[derive(Clone, Copy, Debug, PartialEq, Eq, Structural)]
pub enum ValidationError {
    /// Nothing is selected where fields have to be: at the root, or below a
    /// field that resolves to objects.
    EmptySelection,
    /// The type does not declare the field.
    UnknownField,
    /// Fields are selected below a scalar.
    UnexpectedSelection,
    /// An argument that the field does not declare, or more arguments than
    /// it declares.
    UnknownArgument,
    /// The field's argument is not given.
    MissingArgument,
    /// The argument's value has not the shape of its input type.
    InvalidInput,
}

/// What one root field asks of storage.
#[derive(Debug, PartialEq, Eq)]
pub enum RootPlan {
    /// The members, unfiltered.
    Members,
    /// The teams, and for each team its members as often as the selection
    /// names them.
    Teams { loads: usize },
    /// One insert.
    CreateMember { data: NewMember },
}

/// The value of the first field of that name.
pub open spec fn value_of(fields: Seq<InputField>, key: Seq<char>) -> Option<InputScalar>
    decreases fields.len(),
{
    if fields.len() == 0 {
        None
    } else if fields[0].name@ == key {
        Some(fields[0].value)
    } else {
        value_of(fields.drop_first(), key)
    }
}

/// The new member that an input object describes: it has the three fields
/// `name`, `knockouts` and `teamId`, a text and two integers, and no other.
pub open spec fn new_member_of(fields: Seq<InputField>) -> Option<NewMember> {
    match (value_of(fields, "name"@), value_of(fields, "knockouts"@), value_of(fields, "teamId"@)) {
        (
            Some(InputScalar::Text(name)),
            Some(InputScalar::Int(knockouts)),
            Some(InputScalar::Int(team_id)),
        ) => {
            if fields.len() == 3 {
                Some(NewMember { name, knockouts, team_id })
            } else {
                None
            }
        },
        _ => None,
    }
}

/// The new member that the arguments of `createMember` describe.
pub open spec fn new_member_argument(arguments: Seq<Argument>) -> Option<NewMember> {
    if arguments.len() == 1 && arguments[0].name@ == "data"@ {
        match arguments[0].value {
            InputValue::Object(fields) => new_member_of(fields@),
            InputValue::Scalar(_) => None,
        }
    } else {
        None
    }
}

/// What is wrong with a field's arguments, if anything. A field that takes
/// the input of a new member takes it as its one argument `data`; any other
/// field takes no argument.
pub open spec fn argument_error(takes_input: bool, arguments: Seq<Argument>) -> Option<
    ValidationError,
> {
    if !takes_input {
        if arguments.len() > 0 {
            Some(ValidationError::UnknownArgument)
        } else {
            None
        }
    } else if arguments.len() == 0 {
        Some(ValidationError::MissingArgument)
    } else if arguments.len() > 1 || arguments[0].name@ != "data"@ {
        Some(ValidationError::UnknownArgument)
    } else if new_member_argument(arguments) is None {
        Some(ValidationError::InvalidInput)
    } else {
        None
    }
}

/// What is wrong with a selected field of `owner`, if anything: the first
/// fault met when the field is read before its arguments, and these before
/// the fields below it.
pub open spec fn selection_error(owner: TypeName, selection: Selection) -> Option<ValidationError>
    decreases selection, 0nat,
{
    match field_type(owner, selection.name@) {
        None => Some(ValidationError::UnknownField),
        Some(field) => {
            let wrong = argument_error(
                takes_new_member(owner, selection.name@),
                selection.arguments@,
            );
            if wrong is Some {
                wrong
            } else {
                match target_type(field) {
                    None => {
                        if selection.fields@.len() > 0 {
                            Some(ValidationError::UnexpectedSelection)
                        } else {
                            None
                        }
                    },
                    Some(below) => {
                        if selection.fields@.len() == 0 {
                            Some(ValidationError::EmptySelection)
                        } else {
                            selections_error(below, selection.fields@)
                        }
                    },
                }
            }
        },
    }
}

/// What is wrong with the fields selected of `owner`, if anything: the
/// fault of the first field that has one.
pub open spec fn selections_error(owner: TypeName, selections: Seq<Selection>) -> Option<
    ValidationError,
>
    decreases selections, selections.len(),
{
    if selections.len() == 0 {
        None
    } else {
        match selection_error(owner, selections[0]) {
            Some(error) => Some(error),
            None => selections_error(owner, selections.drop_first()),
        }
    }
}

/// What is wrong with a request, if anything.
pub open spec fn request_error(request: Request) -> Option<ValidationError> {
    if request.fields@.len() == 0 {
        Some(ValidationError::EmptySelection)
    } else {
        selections_error(root_type(request.operation), request.fields@)
    }
}

/// How often a selection names the field `members`.
pub open spec fn member_loads(fields: Seq<Selection>) -> nat {
    fields.filter(|selection: Selection| selection.name@ == "members"@).len()
}

/// What a root field asks of storage, for a field that fits the type graph.
pub open spec fn root_plan(operation: Operation, selection: Selection) -> RootPlan
    recommends
        selection_error(root_type(operation), selection) is None,
{
    match operation {
        Operation::Query => {
            if selection.name@ == "teams"@ {
                RootPlan::Teams { loads: member_loads(selection.fields@) as usize }
            } else {
                RootPlan::Members
            }
        },
        Operation::Mutation => RootPlan::CreateMember {
            data: new_member_argument(selection.arguments@).unwrap(),
        },
    }
}

/// What a request asks of storage, root field by root field.
pub open spec fn plan_of(request: Request) -> Seq<RootPlan> {
    Seq::new(request.fields@.len(), |i: int| root_plan(request.operation, request.fields@[i]))
}

} // verus!
