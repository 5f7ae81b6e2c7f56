use team_graph::entity::NewMember;
use team_graph::request::{
    Argument, InputField, InputScalar, InputValue, Request, RootPlan, Selection, ValidationError,
};
use team_graph::resolver::{MutationRoot, QueryRoot};
use team_graph::schema::{create_schema, FieldType, Operation, Schema, TypeName};
use team_graph::validate::{read_new_member, read_new_member_argument};

fn leaf(name: &str) -> Selection {
    Selection { name: name.to_string(), arguments: Vec::new(), fields: Vec::new() }
}

fn node(name: &str, fields: Vec<Selection>) -> Selection {
    Selection { name: name.to_string(), arguments: Vec::new(), fields }
}

fn query(fields: Vec<Selection>) -> Request {
    Request { operation: Operation::Query, fields }
}

fn mutation(fields: Vec<Selection>) -> Request {
    Request { operation: Operation::Mutation, fields }
}

fn whole(name: &str, value: i32) -> InputField {
    InputField { name: name.to_string(), value: InputScalar::Int(value) }
}

fn words(name: &str, value: &str) -> InputField {
    InputField { name: name.to_string(), value: InputScalar::Text(value.to_string()) }
}

fn m1_fields() -> Vec<InputField> {
    vec![words("name", "m1"), whole("knockouts", 0), whole("teamId", 5)]
}

fn data(fields: Vec<InputField>) -> Argument {
    Argument { name: "data".to_string(), value: InputValue::Object(fields) }
}

fn create(arguments: Vec<Argument>, fields: Vec<Selection>) -> Selection {
    Selection { name: "createMember".to_string(), arguments, fields }
}

fn validate(request: Request) -> Result<Vec<RootPlan>, ValidationError> {
    create_schema().validate(&request)
}

#[test]
fn schema_binds_both_roots() {
    let schema = create_schema();
    assert_eq!(schema.root(Operation::Query), TypeName::Query);
    assert_eq!(schema.root(Operation::Mutation), TypeName::Mutation);
    assert_eq!(schema, Schema { query: QueryRoot {}, mutation: MutationRoot });
}

#[test]
fn query_root_declares_members_and_teams() {
    let schema = create_schema();
    assert_eq!(schema.field(TypeName::Query, "members"), Some(FieldType::MemberList));
    assert_eq!(schema.field(TypeName::Query, "teams"), Some(FieldType::TeamList));
    assert_eq!(schema.field(TypeName::Query, "createMember"), None);
    assert_eq!(schema.field(TypeName::Query, "id"), None);
    assert_eq!(schema.field(TypeName::Query, ""), None);
}

#[test]
fn mutation_root_declares_create_member() {
    let schema = create_schema();
    assert_eq!(schema.field(TypeName::Mutation, "createMember"), Some(FieldType::Member));
    assert_eq!(schema.field(TypeName::Mutation, "create_member"), None);
    assert_eq!(schema.field(TypeName::Mutation, "members"), None);
}

#[test]
fn team_declares_id_name_and_members() {
    let schema = create_schema();
    assert_eq!(schema.field(TypeName::Team, "id"), Some(FieldType::Int));
    assert_eq!(schema.field(TypeName::Team, "name"), Some(FieldType::Text));
    assert_eq!(schema.field(TypeName::Team, "members"), Some(FieldType::MemberList));
    assert_eq!(schema.field(TypeName::Team, "knockouts"), None);
    assert_eq!(schema.field(TypeName::Team, "teams"), None);
}

#[test]
fn member_declares_its_four_columns() {
    let schema = create_schema();
    assert_eq!(schema.field(TypeName::Member, "id"), Some(FieldType::Int));
    assert_eq!(schema.field(TypeName::Member, "name"), Some(FieldType::Text));
    assert_eq!(schema.field(TypeName::Member, "knockouts"), Some(FieldType::Int));
    assert_eq!(schema.field(TypeName::Member, "teamId"), Some(FieldType::Int));
    assert_eq!(schema.field(TypeName::Member, "team_id"), None);
    assert_eq!(schema.field(TypeName::Member, "members"), None);
    assert_eq!(schema.field(TypeName::Member, "Name"), None);
    assert_eq!(schema.field(TypeName::Member, "nam"), None);
    assert_eq!(schema.field(TypeName::Member, "names"), None);
}

#[test]
fn fields_lead_to_the_type_below_them() {
    let schema = create_schema();
    assert_eq!(schema.target(FieldType::Int), None);
    assert_eq!(schema.target(FieldType::Text), None);
    assert_eq!(schema.target(FieldType::Member), Some(TypeName::Member));
    assert_eq!(schema.target(FieldType::MemberList), Some(TypeName::Member));
    assert_eq!(schema.target(FieldType::TeamList), Some(TypeName::Team));
}

#[test]
fn only_create_member_takes_input() {
    let schema = create_schema();
    assert!(schema.takes_input(TypeName::Mutation, "createMember"));
    assert!(!schema.takes_input(TypeName::Query, "createMember"));
    assert!(!schema.takes_input(TypeName::Query, "members"));
    assert!(!schema.takes_input(TypeName::Team, "members"));
    assert!(!schema.takes_input(TypeName::Mutation, "members"));
}

#[test]
fn members_query_is_planned_as_one_load() {
    let request = query(vec![node(
        "members",
        vec![leaf("id"), leaf("name"), leaf("knockouts"), leaf("teamId")],
    )]);
    assert_eq!(validate(request), Ok(vec![RootPlan::Members]));
}

#[test]
fn teams_query_without_members_needs_no_member_loads() {
    let request = query(vec![node("teams", vec![leaf("id"), leaf("name")])]);
    assert_eq!(validate(request), Ok(vec![RootPlan::Teams { loads: 0 }]));
}

#[test]
fn teams_query_with_members_needs_one_load_for_each_team() {
    let request =
        query(vec![node("teams", vec![leaf("name"), node("members", vec![leaf("name")])])]);
    assert_eq!(validate(request), Ok(vec![RootPlan::Teams { loads: 1 }]));
}

#[test]
fn members_named_twice_below_teams_are_loaded_twice() {
    let request = query(vec![node(
        "teams",
        vec![node("members", vec![leaf("id")]), leaf("id"), node("members", vec![leaf("name")])],
    )]);
    assert_eq!(validate(request), Ok(vec![RootPlan::Teams { loads: 2 }]));
}

#[test]
fn root_fields_are_planned_in_their_order() {
    let request = query(vec![
        node("members", vec![leaf("id")]),
        node("teams", vec![node("members", vec![leaf("id")])]),
        node("members", vec![leaf("name")]),
    ]);
    assert_eq!(
        validate(request),
        Ok(vec![RootPlan::Members, RootPlan::Teams { loads: 1 }, RootPlan::Members])
    );
}

#[test]
fn create_member_is_planned_with_its_input() {
    let request = mutation(vec![create(vec![data(m1_fields())], vec![leaf("id")])]);
    assert_eq!(
        validate(request),
        Ok(vec![RootPlan::CreateMember {
            data: NewMember { name: "m1".to_string(), knockouts: 0, team_id: 5 }
        }])
    );
}

#[test]
fn input_fields_may_come_in_any_order() {
    let fields = vec![whole("teamId", -2), whole("knockouts", -7), words("name", "")];
    assert_eq!(
        read_new_member(&fields),
        Some(NewMember { name: String::new(), knockouts: -7, team_id: -2 })
    );
}

#[test]
fn request_without_fields_is_rejected() {
    assert_eq!(validate(query(Vec::new())), Err(ValidationError::EmptySelection));
    assert_eq!(validate(mutation(Vec::new())), Err(ValidationError::EmptySelection));
}

#[test]
fn undeclared_field_is_rejected() {
    assert_eq!(validate(query(vec![leaf("players")])), Err(ValidationError::UnknownField));
    assert_eq!(
        validate(query(vec![node("teams", vec![leaf("knockouts")])])),
        Err(ValidationError::UnknownField)
    );
    assert_eq!(
        validate(query(vec![node("members", vec![leaf("id"), leaf("age")])])),
        Err(ValidationError::UnknownField)
    );
    assert_eq!(
        validate(query(vec![node("teams", vec![node("members", vec![leaf("members")])])])),
        Err(ValidationError::UnknownField)
    );
}

#[test]
fn root_fields_belong_to_their_own_operation() {
    assert_eq!(
        validate(query(vec![create(vec![data(m1_fields())], vec![leaf("id")])])),
        Err(ValidationError::UnknownField)
    );
    assert_eq!(
        validate(mutation(vec![node("members", vec![leaf("id")])])),
        Err(ValidationError::UnknownField)
    );
}

#[test]
fn object_field_without_selection_is_rejected() {
    assert_eq!(validate(query(vec![leaf("teams")])), Err(ValidationError::EmptySelection));
    assert_eq!(validate(query(vec![leaf("members")])), Err(ValidationError::EmptySelection));
    assert_eq!(
        validate(query(vec![node("teams", vec![leaf("members")])])),
        Err(ValidationError::EmptySelection)
    );
    assert_eq!(
        validate(mutation(vec![create(vec![data(m1_fields())], Vec::new())])),
        Err(ValidationError::EmptySelection)
    );
}

#[test]
fn selection_below_a_scalar_is_rejected() {
    assert_eq!(
        validate(query(vec![node("teams", vec![node("id", vec![leaf("id")])])])),
        Err(ValidationError::UnexpectedSelection)
    );
    assert_eq!(
        validate(query(vec![node("members", vec![node("name", vec![leaf("length")])])])),
        Err(ValidationError::UnexpectedSelection)
    );
}

#[test]
fn argument_on_a_field_that_takes_none_is_rejected() {
    let mut teams = node("teams", vec![leaf("id")]);
    teams.arguments.push(data(m1_fields()));
    assert_eq!(validate(query(vec![teams])), Err(ValidationError::UnknownArgument));
    let mut id = leaf("id");
    id.arguments.push(Argument {
        name: "first".to_string(),
        value: InputValue::Scalar(InputScalar::Int(1)),
    });
    assert_eq!(
        validate(query(vec![node("members", vec![id])])),
        Err(ValidationError::UnknownArgument)
    );
}

#[test]
fn create_member_with_another_argument_is_rejected() {
    let other = Argument { name: "input".to_string(), value: InputValue::Object(m1_fields()) };
    assert_eq!(
        validate(mutation(vec![create(vec![other], vec![leaf("id")])])),
        Err(ValidationError::UnknownArgument)
    );
    assert_eq!(
        validate(mutation(vec![create(
            vec![data(m1_fields()), data(m1_fields())],
            vec![leaf("id")]
        )])),
        Err(ValidationError::UnknownArgument)
    );
}

#[test]
fn create_member_without_argument_is_rejected() {
    assert_eq!(
        validate(mutation(vec![create(Vec::new(), vec![leaf("id")])])),
        Err(ValidationError::MissingArgument)
    );
}

#[test]
fn input_without_a_required_field_is_rejected() {
    for missing in 0..3 {
        let mut fields = m1_fields();
        fields.remove(missing);
        assert_eq!(read_new_member(&fields), None);
        assert_eq!(
            validate(mutation(vec![create(vec![data(fields)], vec![leaf("id")])])),
            Err(ValidationError::InvalidInput)
        );
    }
    assert_eq!(read_new_member(&Vec::new()), None);
}

#[test]
fn input_with_a_field_of_another_type_is_rejected() {
    let wrong = vec![
        vec![whole("name", 1), whole("knockouts", 0), whole("teamId", 5)],
        vec![words("name", "m1"), words("knockouts", "0"), whole("teamId", 5)],
        vec![words("name", "m1"), whole("knockouts", 0), words("teamId", "5")],
        vec![
            words("name", "m1"),
            InputField { name: "knockouts".to_string(), value: InputScalar::Other },
            whole("teamId", 5),
        ],
    ];
    for fields in wrong {
        assert_eq!(read_new_member(&fields), None);
        assert_eq!(
            validate(mutation(vec![create(vec![data(fields)], vec![leaf("id")])])),
            Err(ValidationError::InvalidInput)
        );
    }
}

#[test]
fn input_with_an_undeclared_or_repeated_field_is_rejected() {
    let mut extra = m1_fields();
    extra.push(whole("id", 9));
    assert_eq!(read_new_member(&extra), None);
    let repeated = vec![words("name", "m1"), words("name", "m2"), whole("knockouts", 0)];
    assert_eq!(read_new_member(&repeated), None);
    let renamed = vec![words("name", "m1"), whole("knockouts", 0), whole("team_id", 5)];
    assert_eq!(read_new_member(&renamed), None);
}

#[test]
fn input_that_is_no_object_is_rejected() {
    let scalar = Argument {
        name: "data".to_string(),
        value: InputValue::Scalar(InputScalar::Text("m1".to_string())),
    };
    assert_eq!(read_new_member_argument(&vec![scalar]), None);
    let scalar = Argument {
        name: "data".to_string(),
        value: InputValue::Scalar(InputScalar::Int(1)),
    };
    assert_eq!(
        validate(mutation(vec![create(vec![scalar], vec![leaf("id")])])),
        Err(ValidationError::InvalidInput)
    );
}

#[test]
fn new_member_argument_is_the_one_named_data() {
    assert_eq!(
        read_new_member_argument(&vec![data(m1_fields())]),
        Some(NewMember { name: "m1".to_string(), knockouts: 0, team_id: 5 })
    );
    assert_eq!(read_new_member_argument(&Vec::new()), None);
    let other = Argument { name: "Data".to_string(), value: InputValue::Object(m1_fields()) };
    assert_eq!(read_new_member_argument(&vec![other]), None);
    assert_eq!(read_new_member_argument(&vec![data(m1_fields()), data(m1_fields())]), None);
}

#[test]
fn the_first_fault_is_reported() {
    let request = query(vec![
        node("teams", vec![node("id", vec![leaf("x")]), leaf("age")]),
        leaf("players"),
    ]);
    assert_eq!(validate(request), Err(ValidationError::UnexpectedSelection));
    let request = query(vec![node("teams", vec![leaf("age"), node("id", vec![leaf("x")])])]);
    assert_eq!(validate(request), Err(ValidationError::UnknownField));
    let request = query(vec![node("members", vec![leaf("id")]), leaf("teams"), leaf("players")]);
    assert_eq!(validate(request), Err(ValidationError::EmptySelection));
    let mut members = leaf("members");
    members.arguments.push(data(m1_fields()));
    assert_eq!(validate(query(vec![members])), Err(ValidationError::UnknownArgument));
}

#[test]
fn check_selection_reports_the_fault_of_one_field() {
    let schema = create_schema();
    assert_eq!(schema.check_selection(TypeName::Member, &leaf("teamId")), None);
    assert_eq!(
        schema.check_selection(TypeName::Team, &leaf("teamId")),
        Some(ValidationError::UnknownField)
    );
    assert_eq!(
        schema.check_selection(TypeName::Team, &node("members", vec![leaf("knockouts")])),
        None
    );
}

#[test]
fn plan_root_plans_one_root_field() {
    let schema = create_schema();
    assert_eq!(
        schema.plan_root(Operation::Query, &node("members", vec![leaf("id")])),
        Ok(RootPlan::Members)
    );
    assert_eq!(
        schema.plan_root(Operation::Query, &leaf("id")),
        Err(ValidationError::UnknownField)
    );
}
