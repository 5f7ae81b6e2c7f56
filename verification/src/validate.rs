//! Validation of a request, and the plan of what it asks of storage.

use vstd::prelude::*;
use crate::entity::NewMember;
use crate::request::{
    argument_error, member_loads, new_member_argument, new_member_of, plan_of,
    request_error, root_plan, selection_error, selections_error, value_of, Argument, InputField, InputScalar,
    InputValue, Request, RootPlan, Selection, ValidationError,
};
use crate::schema::{root_type, takes_new_member, Operation, Schema, TypeName};
use crate::text::same_text;

verus! {

/// Fields without a fault do not decide the first fault of the fields that
/// they stand before.
pub proof fn lemma_selections_error_after(owner: TypeName, selections: Seq<Selection>, clear: int)
    requires
        0 <= clear <= selections.len(),
        forall|j: int| 0 <= j < clear ==> selection_error(owner, #[trigger] selections[j]) is None,
    ensures
        selections_error(owner, selections) == selections_error(owner, selections.skip(clear)),
    decreases clear,
{
    if clear > 0 {
        assert(selection_error(owner, selections[0]) is None);
        let rest = selections.drop_first();
        assert forall|j: int| 0 <= j < clear - 1 implies selection_error(
            owner,
            #[trigger] rest[j],
        ) is None by {
            assert(rest[j] == selections[j + 1]);
        }
        lemma_selections_error_after(owner, rest, clear - 1);
        assert(rest.skip(clear - 1) =~= selections.skip(clear));
    } else {
        assert(selections.skip(0) =~= selections);
    }
}

/// Finds the value of the first field of that name.
fn lookup<'a>(fields: &'a Vec<InputField>, key: &str) -> (found: Option<&'a InputScalar>)
    ensures
        match found {
            Some(value) => value_of(fields@, key@) == Some(*value),
            None => value_of(fields@, key@) is None,
        },
{
    let mut at: usize = 0;
    assert(fields@.skip(0) =~= fields@);
    while at < fields.len()
        invariant
            at <= fields.len(),
            value_of(fields@, key@) == value_of(fields@.skip(at as int), key@),
        decreases fields.len() - at,
    {
        if same_text(fields[at].name.as_str(), key) {
            return Some(&fields[at].value);
        }
        assert(fields@.skip(at as int).drop_first() =~= fields@.skip(at + 1));
        at += 1;
    }
    None
}

/// Reads the new member that an input object describes.
pub fn read_new_member(fields: &Vec<InputField>) -> (data: Option<NewMember>)
    ensures
        data == new_member_of(fields@),
{
    if fields.len() != 3 {
        return None;
    }
    match (lookup(fields, "name"), lookup(fields, "knockouts"), lookup(fields, "teamId")) {
        (
            Some(InputScalar::Text(name)),
            Some(InputScalar::Int(knockouts)),
            Some(InputScalar::Int(team_id)),
        ) => Some(NewMember { name: name.clone(), knockouts: *knockouts, team_id: *team_id }),
        _ => None,
    }
}

/// Reads the new member that the arguments of `createMember` describe.
pub fn read_new_member_argument(arguments: &Vec<Argument>) -> (data: Option<NewMember>)
    ensures
        data == new_member_argument(arguments@),
{
    if arguments.len() == 1 && same_text(arguments[0].name.as_str(), "data") {
        match &arguments[0].value {
            InputValue::Object(fields) => read_new_member(fields),
            InputValue::Scalar(_) => None,
        }
    } else {
        None
    }
}

/// Holds a field's arguments against what the field takes.
fn check_arguments(takes_input: bool, arguments: &Vec<Argument>) -> (finding: Option<
    ValidationError,
>)
    ensures
        finding == argument_error(takes_input, arguments@),
{
    if !takes_input {
        if arguments.len() > 0 {
            Some(ValidationError::UnknownArgument)
        } else {
            None
        }
    } else if arguments.len() == 0 {
        Some(ValidationError::MissingArgument)
    } else if arguments.len() > 1 || !same_text(arguments[0].name.as_str(), "data") {
        Some(ValidationError::UnknownArgument)
    } else if read_new_member_argument(arguments).is_none() {
        Some(ValidationError::InvalidInput)
    } else {
        None
    }
}

/// Counts how often a selection names the field `members`.
fn count_member_loads(fields: &Vec<Selection>) -> (loads: usize)
    ensures
        loads == member_loads(fields@),
{
    let ghost named = |selection: Selection| selection.name@ == "members"@;
    let mut loads: usize = 0;
    let mut at: usize = 0;
    assert(fields@.subrange(0, 0) =~= Seq::<Selection>::empty());
    while at < fields.len()
        invariant
            at <= fields.len(),
            loads <= at,
            named == |selection: Selection| selection.name@ == "members"@,
            loads == fields@.subrange(0, at as int).filter(named).len(),
        decreases fields.len() - at,
    {
        proof {
            let before = fields@.subrange(0, at as int);
            let one = seq![fields@[at as int]];
            assert(fields@.subrange(0, at + 1) =~= before + one);
            Seq::filter_distributes_over_add(before, one, named);
            reveal_with_fuel(Seq::filter, 2);
            assert(one.drop_last() =~= Seq::<Selection>::empty());
        }
        if same_text(fields[at].name.as_str(), "members") {
            loads += 1;
        }
        at += 1;
    }
    assert(fields@.subrange(0, at as int) =~= fields@);
    loads
}

impl Schema {
    /// Tells whether a field of `owner` takes the input of a new member.
    pub fn takes_input(&self, owner: TypeName, name: &str) -> (takes: bool)
        ensures
            takes == takes_new_member(owner, name@),
    {
        owner == TypeName::Mutation && same_text(name, "createMember")
    }

    /// Holds one selected field of `owner`, with all below it, against the
    /// type graph, and reports the first fault.
    pub fn check_selection(&self, owner: TypeName, selection: &Selection) -> (finding: Option<
        ValidationError,
    >)
        ensures
            finding == selection_error(owner, *selection),
        decreases *selection,
    {
        let field = match self.field(owner, selection.name.as_str()) {
            Some(field) => field,
            None => {
                return Some(ValidationError::UnknownField);
            },
        };
        let wrong = check_arguments(
            self.takes_input(owner, selection.name.as_str()),
            &selection.arguments,
        );
        if wrong.is_some() {
            return wrong;
        }
        let below = match self.target(field) {
            Some(below) => below,
            None => {
                if selection.fields.len() > 0 {
                    return Some(ValidationError::UnexpectedSelection);
                } else {
                    return None;
                }
            },
        };
        if selection.fields.len() == 0 {
            return Some(ValidationError::EmptySelection);
        }
        let mut at: usize = 0;
        while at < selection.fields.len()
            invariant
                at <= selection.fields.len(),
                selection_error(owner, *selection) == selections_error(below, selection.fields@),
                forall|j: int|
                    0 <= j < at ==> selection_error(below, #[trigger] selection.fields@[j]) is None,
            decreases selection.fields.len() - at,
        {
            let finding = self.check_selection(below, &selection.fields[at]);
            if finding.is_some() {
                proof {
                    lemma_selections_error_after(below, selection.fields@, at as int);
                    assert(selection.fields@.skip(at as int)[0] == selection.fields@[at as int]);
                }
                return finding;
            }
            at += 1;
        }
        proof {
            lemma_selections_error_after(below, selection.fields@, at as int);
        }
        None
    }

    /// What one root field asks of storage; the first fault of the field
    /// where it does not fit the type graph.
    pub fn plan_root(&self, operation: Operation, selection: &Selection) -> (planned: Result<
        RootPlan,
        ValidationError,
    >)
        ensures
            match selection_error(root_type(operation), *selection) {
                Some(error) => planned == Err::<RootPlan, ValidationError>(error),
                None => planned == Ok::<RootPlan, ValidationError>(
                    root_plan(operation, *selection),
                ),
            },
    {
        if let Some(error) = self.check_selection(self.root(operation), selection) {
            return Err(error);
        }
        match operation {
            Operation::Query => {
                if same_text(selection.name.as_str(), "teams") {
                    Ok(RootPlan::Teams { loads: count_member_loads(&selection.fields) })
                } else {
                    Ok(RootPlan::Members)
                }
            },
            Operation::Mutation => {
                match read_new_member_argument(&selection.arguments) {
                    Some(data) => Ok(RootPlan::CreateMember { data }),
                    None => Err(ValidationError::InvalidInput),
                }
            },
        }
    }

    /// Validates a request against the type graph. A request that fits
    /// yields what each of its root fields asks of storage, in their order;
    /// one that does not yields its first fault, and no plan.
    pub fn validate(&self, request: &Request) -> (checked: Result<Vec<RootPlan>, ValidationError>)
        ensures
            match request_error(*request) {
                Some(error) => checked == Err::<Vec<RootPlan>, ValidationError>(error),
                None => checked matches Ok(plan) && plan@ == plan_of(*request),
            },
    {
        if request.fields.len() == 0 {
            return Err(ValidationError::EmptySelection);
        }
        let ghost owner = root_type(request.operation);
        let mut plan: Vec<RootPlan> = Vec::new();
        let mut at: usize = 0;
        while at < request.fields.len()
            invariant
                at <= request.fields.len(),
                request.fields@.len() > 0,
                owner == root_type(request.operation),
                forall|j: int|
                    0 <= j < at ==> selection_error(owner, #[trigger] request.fields@[j]) is None,
                plan@.len() == at,
                forall|j: int|
                    0 <= j < at ==> plan@[j] == root_plan(request.operation, request.fields@[j]),
            decreases request.fields.len() - at,
        {
            match self.plan_root(request.operation, &request.fields[at]) {
                Ok(root) => {
                    plan.push(root);
                },
                Err(error) => {
                    proof {
                        lemma_selections_error_after(owner, request.fields@, at as int);
                        assert(request.fields@.skip(at as int)[0] == request.fields@[at as int]);
                    }
                    return Err(error);
                },
            }
            at += 1;
        }
        proof {
            lemma_selections_error_after(owner, request.fields@, at as int);
            assert(plan@ =~= plan_of(*request));
        }
        Ok(plan)
    }
}

} // verus!
