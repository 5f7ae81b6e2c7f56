//! The type graph: which fields each type declares, and what they lead to.

use vstd::prelude::*;
use crate::resolver::{MutationRoot, QueryRoot};
use crate::text::same_text;

verus! {

/// The two kinds of operation, each with a root of its own.
#[derive(Clone, Copy, Debug, PartialEq, Eq, Structural)]
pub enum Operation {
    Query,
    Mutation,
}

/// The object types of the graph.
#[derive(Clone, Copy, Debug, PartialEq, Eq, Structural)]
pub enum TypeName {
    Query,
    Mutation,
    Team,
    Member,
}

/// What a field resolves to.
#[derive(Clone, Copy, Debug, PartialEq, Eq, Structural)]
pub enum FieldType {
    /// An integer read from the row.
    Int,
    /// A text read from the row.
    Text,
    /// One member.
    Member,
    /// A list of members.
    MemberList,
    /// A list of teams.
    TeamList,
}

/// The type at which an operation starts.
pub open spec fn root_type(operation: Operation) -> TypeName {
    match operation {
        Operation::Query => TypeName::Query,
        Operation::Mutation => TypeName::Mutation,
    }
}

/// The declared fields: what the field `name` of `owner` resolves to, if
/// `owner` declares it.
pub open spec fn field_type(owner: TypeName, name: Seq<char>) -> Option<FieldType> {
    match owner {
        TypeName::Query => {
            if name == "members"@ {
                Some(FieldType::MemberList)
            } else if name == "teams"@ {
                Some(FieldType::TeamList)
            } else {
                None
            }
        },
        TypeName::Mutation => {
            if name == "createMember"@ {
                Some(FieldType::Member)
            } else {
                None
            }
        },
        TypeName::Team => {
            if name == "id"@ {
                Some(FieldType::Int)
            } else if name == "name"@ {
                Some(FieldType::Text)
            } else if name == "members"@ {
                Some(FieldType::MemberList)
            } else {
                None
            }
        },
        TypeName::Member => {
            if name == "id"@ {
                Some(FieldType::Int)
            } else if name == "name"@ {
                Some(FieldType::Text)
            } else if name == "knockouts"@ {
                Some(FieldType::Int)
            } else if name == "teamId"@ {
                Some(FieldType::Int)
            } else {
                None
            }
        },
    }
}

/// The object type whose fields can be selected below a field of this type;
/// none below a scalar.
pub open spec fn target_type(field: FieldType) -> Option<TypeName> {
    match field {
        FieldType::Int => None,
        FieldType::Text => None,
        FieldType::Member => Some(TypeName::Member),
        FieldType::MemberList => Some(TypeName::Member),
        FieldType::TeamList => Some(TypeName::Team),
    }
}

/// Whether the field `name` of `owner` takes the input of a new member as its
/// argument `data`. No other field takes any argument.
pub open spec fn takes_new_member(owner: TypeName, name: Seq<char>) -> bool {
    owner == TypeName::Mutation && name == "createMember"@
}

/// The two roots, bound into the one object that requests are held against.
#[derive(Debug, PartialEq, Eq)]
pub struct Schema {
    pub query: QueryRoot,
    pub mutation: MutationRoot,
}

/// Binds the query root and the mutation root into the schema.
pub fn create_schema() -> (schema: Schema)
    ensures
        schema == (Schema { query: QueryRoot {  }, mutation: MutationRoot }),
{
    Schema { query: QueryRoot {  }, mutation: MutationRoot }
}

impl Schema {
    /// The type at which an operation starts.
    pub fn root(&self, operation: Operation) -> (owner: TypeName)
        ensures
            owner == root_type(operation),
    {
        match operation {
            Operation::Query => TypeName::Query,
            Operation::Mutation => TypeName::Mutation,
        }
    }

    /// Looks a field up in the type graph.
    pub fn field(&self, owner: TypeName, name: &str) -> (found: Option<FieldType>)
        ensures
            found == field_type(owner, name@),
    {
        match owner {
            TypeName::Query => {
                if same_text(name, "members") {
                    Some(FieldType::MemberList)
                } else if same_text(name, "teams") {
                    Some(FieldType::TeamList)
                } else {
                    None
                }
            },
            TypeName::Mutation => {
                if same_text(name, "createMember") {
                    Some(FieldType::Member)
                } else {
                    None
                }
            },
            TypeName::Team => {
                if same_text(name, "id") {
                    Some(FieldType::Int)
                } else if same_text(name, "name") {
                    Some(FieldType::Text)
                } else if same_text(name, "members") {
                    Some(FieldType::MemberList)
                } else {
                    None
                }
            },
            TypeName::Member => {
                if same_text(name, "id") {
                    Some(FieldType::Int)
                } else if same_text(name, "name") {
                    Some(FieldType::Text)
                } else if same_text(name, "knockouts") {
                    Some(FieldType::Int)
                } else if same_text(name, "teamId") {
                    Some(FieldType::Int)
                } else {
                    None
                }
            },
        }
    }

    /// The object type below a field, if it has one.
    pub fn target(&self, field: FieldType) -> (below: Option<TypeName>)
        ensures
            below == target_type(field),
    {
        match field {
            FieldType::Int => None,
            FieldType::Text => None,
            FieldType::Member => Some(TypeName::Member),
            FieldType::MemberList => Some(TypeName::Member),
            FieldType::TeamList => Some(TypeName::Team),
        }
    }
}

} // verus!
