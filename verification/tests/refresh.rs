use databend_ops::physical_plan::{PhysicalPlan, TableScan};
use databend_ops::refresh::{RefreshAction, RefreshEvent, RefreshIndexInterpreter};
use databend_ops::refresh_plan::{
    BindContext, ColumnBinding, ErrorCode, EvalScalar, Plan, QueryTypes, RefreshIndexPlan,
    RelOperator, SExpr, ScalarItem,
};
use databend_ops::schema::{DataField, DataSchema};
use std::sync::Arc;

struct Engine;

impl QueryTypes for Engine {
    type Context = u8;
    type Metadata = &'static str;
    type Expr = &'static str;
    type Scalar = &'static str;
    type DataType = &'static str;
    type Plan = &'static str;
    type DataSource = u32;
    type FunctionContext = u16;
    type TableSchema = Vec<String>;
    type TableInfo = &'static str;
    type DataOperator = char;
    type WriteSettings = i8;
    type Error = String;
}

type Event = RefreshEvent<Engine>;
type Failure = ErrorCode<String>;

fn query(items: &[(&'static str, usize)], columns: &[(&str, usize)]) -> Plan<Engine> {
    Plan::Query {
        s_expr: SExpr {
            plan: RelOperator::EvalScalar(EvalScalar {
                items: items
                    .iter()
                    .map(|(scalar, index)| ScalarItem { scalar: *scalar, index: *index })
                    .collect(),
            }),
            expr: "expr",
        },
        metadata: "metadata",
        bind_context: BindContext {
            columns: columns
                .iter()
                .map(|(name, index)| ColumnBinding {
                    column_name: name.to_string(),
                    index: *index,
                })
                .collect(),
        },
    }
}

fn interpreter(query_plan: Plan<Engine>, user_defined: bool) -> RefreshIndexInterpreter<Engine> {
    let plan = RefreshIndexPlan {
        index_id: 77,
        query_plan,
        table_info: "table",
        user_defined_block_name: user_defined,
    };
    match RefreshIndexInterpreter::try_create(Arc::new(5), plan) {
        Ok(interpreter) => interpreter,
        Err(_) => panic!("an interpreter is always made"),
    }
}

fn ordinary(user_defined: bool) -> RefreshIndexInterpreter<Engine> {
    interpreter(
        query(
            &[("a", 3), ("block", 12), ("sum", 4)],
            &[("x", 3), ("_Block_Name", 12), ("_block_name", 4)],
        ),
        user_defined,
    )
}

fn scan(source: u32) -> PhysicalPlan<u32> {
    PhysicalPlan::TableScan(TableScan { source })
}

fn schema(names: &[&str]) -> DataSchema<&'static str> {
    DataSchema {
        fields: names
            .iter()
            .map(|name| DataField { name: name.to_string(), data_type: "ty" })
            .collect(),
    }
}

fn good_events(user_defined: bool) -> Vec<Event> {
    let mut events = vec![
        RefreshEvent::DataType(Ok("int")),
        RefreshEvent::DataType(Ok("string")),
        RefreshEvent::DataType(Ok("float")),
        RefreshEvent::PhysicalPlan(Ok(("built", PhysicalPlan::Operator(vec![scan(9)])))),
        RefreshEvent::ReadSourceReplaced(Ok("replaced")),
        RefreshEvent::PipelineBuilt(Ok(())),
        RefreshEvent::OutputSchema(Ok(schema(&["4", "0", "3", "12", "5"]))),
        RefreshEvent::FunctionContext(Ok(600)),
        RefreshEvent::TransformAdded(Ok(())),
        RefreshEvent::TableSchema(Ok(vec!["3".into(), "12".into(), "4".into()])),
    ];
    if !user_defined {
        events.push(RefreshEvent::ColumnDropped(Ok(vec!["3".into(), "4".into()])));
    }
    events.push(RefreshEvent::DataOperator(Ok('d')));
    events.push(RefreshEvent::WriteSettings(Ok(-1)));
    events.push(RefreshEvent::Resized(Ok(())));
    events.push(RefreshEvent::SinkAdded(Ok(())));
    events
}

fn describe(action: RefreshAction<Engine>) -> String {
    match action {
        RefreshAction::DataType { scalar } => format!("type of {}", scalar),
        RefreshAction::BuildPhysicalPlan { metadata, ctx, dry_run, expr } => {
            format!("build {} {} {} {}", metadata, ctx, dry_run, expr)
        }
        RefreshAction::ReplaceReadSource { query_plan, source } => {
            format!("replace {} {}", query_plan, source)
        }
        RefreshAction::BuildPipeline { ctx, query_plan, enable_profiling } => {
            format!("pipeline {} {} {}", ctx, query_plan, enable_profiling)
        }
        RefreshAction::OutputSchema { query_plan } => format!("schema of {}", query_plan),
        RefreshAction::FunctionContext { ctx } => format!("functions {}", ctx),
        RefreshAction::AddTransform { num_input_columns, func_ctx, projection } => {
            format!("project {} {} {:?}", num_input_columns, func_ctx, projection)
        }
        RefreshAction::InferTableSchema { output_schema } => {
            let fields: Vec<String> = output_schema
                .fields
                .iter()
                .map(|field| format!("{}:{}", field.name, field.data_type))
                .collect();
            format!("infer {}", fields.join(","))
        }
        RefreshAction::DropColumn { table_schema, column } => {
            format!("drop {} of {:?}", column, table_schema)
        }
        RefreshAction::DataOperator { ctx } => format!("operator {}", ctx),
        RefreshAction::FuseTable { table_info } => format!("open {}", table_info),
        RefreshAction::Resize { width } => format!("resize {}", width),
        RefreshAction::AddSink {
            data_operator,
            index_id,
            write_settings,
            sink_schema,
            block_name_offset,
            user_defined_block_name,
        } => format!(
            "sink {} {} {} {:?} {} {}",
            data_operator,
            index_id,
            write_settings,
            sink_schema,
            block_name_offset,
            user_defined_block_name
        ),
        RefreshAction::Finish => "finish".to_string(),
    }
}

/// Runs a refresh and notes its actions; ends at the first error.
fn run(
    interpreter: &RefreshIndexInterpreter<Engine>,
    events: Vec<Event>,
) -> (Vec<String>, Result<(), Failure>) {
    let mut actions = Vec::new();
    let mut refresh = match interpreter.execute2() {
        Ok(refresh) => refresh,
        Err(error) => return (actions, Err(error)),
    };
    for event in events {
        actions.push(describe(refresh.action()));
        refresh = match refresh.step(event) {
            Ok(refresh) => refresh,
            Err(error) => return (actions, Err(error)),
        };
    }
    actions.push(describe(refresh.action()));
    (actions, Ok(()))
}

fn failure(result: Result<(), Failure>) -> String {
    match result {
        Ok(_) => panic!("the refresh should have failed"),
        Err(ErrorCode::Internal(message)) => format!("internal: {}", message),
        Err(ErrorCode::SemanticError(message)) => format!("semantic: {}", message),
        Err(ErrorCode::FieldNotFound(name)) => format!("no field {}", name),
        Err(ErrorCode::Engine(error)) => format!("engine: {}", error),
        Err(ErrorCode::UnexpectedEvent) => "unexpected".to_string(),
    }
}

#[test]
fn interpreter_has_its_name() {
    let interpreter = ordinary(false);
    assert_eq!(interpreter.name(), "RefreshIndexInterpreter");
    assert_eq!(*interpreter.ctx, 5);
    assert_eq!(interpreter.plan.index_id, 77);
}

#[test]
fn refresh_drops_the_block_name() {
    let (actions, result) = run(&ordinary(false), good_events(false));
    assert!(result.is_ok());
    assert_eq!(
        actions,
        vec![
            "type of a",
            "type of block",
            "type of sum",
            "build metadata 5 false expr",
            "replace built 9",
            "pipeline 5 replaced false",
            "schema of replaced",
            "functions 5",
            "project 5 600 [2, 3, 0]",
            "infer 3:int,12:string,4:float",
            "drop 12 of [\"3\", \"12\", \"4\"]",
            "operator 5",
            "open table",
            "resize 1",
            "sink d 77 -1 [\"3\", \"4\"] 1 false",
            "finish",
        ]
    );
}

#[test]
fn refresh_keeps_a_user_defined_block_name() {
    let (actions, result) = run(&ordinary(true), good_events(true));
    assert!(result.is_ok());
    assert_eq!(actions.len(), 15);
    assert_eq!(actions[10], "operator 5");
    assert_eq!(actions[13], "sink d 77 -1 [\"3\", \"12\", \"4\"] 1 true");
    assert_eq!(actions[14], "finish");
}

#[test]
fn user_defined_block_name_changes_only_the_sink_schema() {
    let (dropped, _) = run(&ordinary(false), good_events(false));
    let (kept, _) = run(&ordinary(true), good_events(true));
    assert_eq!(dropped[..10], kept[..10]);
    assert_eq!(dropped[10], "drop 12 of [\"3\", \"12\", \"4\"]");
    assert_eq!(dropped[11..14], kept[10..13]);
    assert_eq!(dropped[14], "sink d 77 -1 [\"3\", \"4\"] 1 false");
    assert_eq!(kept[13], "sink d 77 -1 [\"3\", \"12\", \"4\"] 1 true");
}

#[test]
fn output_has_the_types_that_were_answered() {
    let mut events = good_events(false);
    events[0] = RefreshEvent::DataType(Ok("date"));
    events[2] = RefreshEvent::DataType(Ok("bool"));
    let (actions, result) = run(&ordinary(false), events);
    assert!(result.is_ok());
    assert_eq!(actions[8], "project 5 600 [2, 3, 0]");
    assert_eq!(actions[9], "infer 3:date,12:string,4:bool");
}

#[test]
fn statement_that_is_no_query_is_refused() {
    let (actions, result) = run(&interpreter(Plan::Other, false), vec![]);
    assert!(actions.is_empty());
    assert_eq!(
        failure(result),
        "semantic: Refresh aggregating index encounter Non-Query Plan"
    );
}

#[test]
fn query_must_end_in_scalars() {
    let plan = Plan::Query {
        s_expr: SExpr { plan: RelOperator::Other, expr: "expr" },
        metadata: "metadata",
        bind_context: BindContext { columns: vec![] },
    };
    let (actions, result) = run(&interpreter(plan, true), vec![]);
    assert!(actions.is_empty());
    assert_eq!(
        failure(result),
        "semantic: The last operator of the plan of aggregate index query should be EvalScalar"
    );
}

#[test]
fn one_table_scan_is_read() {
    let interpreter = ordinary(false);
    let nested = PhysicalPlan::Operator(vec![
        PhysicalPlan::Operator(vec![]),
        PhysicalPlan::Operator(vec![scan(31)]),
    ]);
    assert!(matches!(interpreter.get_read_source(nested), Ok(31)));
    assert!(matches!(interpreter.get_read_source(scan(8)), Ok(8)));
}

#[test]
fn other_numbers_of_table_scans_are_refused() {
    let message =
        "internal: Invalid source with multiple table scan when do refresh aggregating index";
    for shape in [
        PhysicalPlan::Operator(vec![]),
        PhysicalPlan::Operator(vec![scan(1), scan(1)]),
        PhysicalPlan::Operator(vec![scan(1), PhysicalPlan::Operator(vec![scan(2)])]),
    ] {
        let mut events = good_events(false);
        events.truncate(3);
        events.push(RefreshEvent::PhysicalPlan(Ok(("built", shape))));
        let (actions, result) = run(&ordinary(false), events);
        assert_eq!(actions.len(), 4);
        assert_eq!(failure(result), message);
    }
}

#[test]
fn input_must_have_every_item() {
    let mut events = good_events(false);
    events.truncate(6);
    events.push(RefreshEvent::OutputSchema(Ok(schema(&["3"]))));
    let (actions, result) = run(&ordinary(false), events);
    assert_eq!(actions.len(), 7);
    assert_eq!(failure(result), "no field 12");
}

#[test]
fn block_name_must_be_selected() {
    let interpreter = interpreter(query(&[("a", 3)], &[("x", 3), ("block_name", 4)]), false);
    let events = vec![
        RefreshEvent::DataType(Ok("int")),
        RefreshEvent::PhysicalPlan(Ok(("built", scan(1)))),
        RefreshEvent::ReadSourceReplaced(Ok("replaced")),
        RefreshEvent::PipelineBuilt(Ok(())),
        RefreshEvent::OutputSchema(Ok(schema(&["3"]))),
        RefreshEvent::FunctionContext(Ok(0)),
        RefreshEvent::TransformAdded(Ok(())),
    ];
    let (actions, result) = run(&interpreter, events);
    assert_eq!(actions.len(), 7);
    assert_eq!(
        failure(result),
        "internal: _block_name should contained in the input of refresh processor"
    );
}

#[test]
fn block_name_must_be_computed() {
    let interpreter = interpreter(query(&[], &[("_block_name", 40)]), false);
    let events = vec![
        RefreshEvent::PhysicalPlan(Ok(("built", scan(1)))),
        RefreshEvent::ReadSourceReplaced(Ok("replaced")),
        RefreshEvent::PipelineBuilt(Ok(())),
        RefreshEvent::OutputSchema(Ok(schema(&["3"]))),
        RefreshEvent::FunctionContext(Ok(0)),
        RefreshEvent::TransformAdded(Ok(())),
    ];
    let (actions, result) = run(&interpreter, events);
    assert_eq!(actions[0], "build metadata 5 false expr");
    assert_eq!(actions[5], "project 1 0 []");
    assert_eq!(failure(result), "no field 40");
}

#[test]
fn first_block_name_column_counts() {
    assert_eq!(ordinary(false).plan.query_plan.find_block_name(), Some(12));
    assert_eq!(query(&[], &[("a", 1)]).find_block_name(), None);
    assert_eq!(Plan::<Engine>::Other.find_block_name(), None);
}

#[test]
fn engine_errors_come_back_unchanged() {
    let count = good_events(false).len();
    for at in 0..count {
        let mut events: Vec<Event> = good_events(false);
        let error = format!("error {}", at);
        let failed = match events.remove(at) {
            RefreshEvent::DataType(_) => RefreshEvent::DataType(Err(error.clone())),
            RefreshEvent::PhysicalPlan(_) => RefreshEvent::PhysicalPlan(Err(error.clone())),
            RefreshEvent::ReadSourceReplaced(_) => {
                RefreshEvent::ReadSourceReplaced(Err(error.clone()))
            }
            RefreshEvent::PipelineBuilt(_) => RefreshEvent::PipelineBuilt(Err(error.clone())),
            RefreshEvent::OutputSchema(_) => RefreshEvent::OutputSchema(Err(error.clone())),
            RefreshEvent::FunctionContext(_) => RefreshEvent::FunctionContext(Err(error.clone())),
            RefreshEvent::TransformAdded(_) => RefreshEvent::TransformAdded(Err(error.clone())),
            RefreshEvent::TableSchema(_) => RefreshEvent::TableSchema(Err(error.clone())),
            RefreshEvent::ColumnDropped(_) => RefreshEvent::ColumnDropped(Err(error.clone())),
            RefreshEvent::DataOperator(_) => RefreshEvent::DataOperator(Err(error.clone())),
            RefreshEvent::WriteSettings(_) => RefreshEvent::WriteSettings(Err(error.clone())),
            RefreshEvent::Resized(_) => RefreshEvent::Resized(Err(error.clone())),
            RefreshEvent::SinkAdded(_) => RefreshEvent::SinkAdded(Err(error.clone())),
        };
        events.insert(at, failed);
        let (actions, result) = run(&ordinary(false), events);
        assert_eq!(actions.len(), at + 1);
        assert_eq!(failure(result), format!("engine: {}", error));
    }
}

#[test]
fn answers_must_be_asked_for() {
    let (_, result) = run(&ordinary(false), vec![RefreshEvent::Resized(Ok(()))]);
    assert_eq!(failure(result), "unexpected");
    let mut events = good_events(true);
    events.push(RefreshEvent::SinkAdded(Ok(())));
    let (_, result) = run(&ordinary(true), events);
    assert_eq!(failure(result), "unexpected");
}

#[test]
fn offset_finds_the_block_name_after_the_projection() {
    let (actions, _) = run(&ordinary(false), good_events(false));
    let input = ["4", "0", "3", "12", "5"];
    assert_eq!(actions[8], "project 5 600 [2, 3, 0]");
    assert_eq!(actions[14], "sink d 77 -1 [\"3\", \"4\"] 1 false");
    assert_eq!(input[[2, 3, 0][1]], "12");
}
