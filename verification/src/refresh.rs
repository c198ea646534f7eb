//! The interpreter that refreshes an aggregating index.
//!
//! A refresh alternates calls into the query engine with decisions. The decisions are made here:
//! `execute2` opens a run, `action` names the engine call that comes next, and `step` takes what
//! the call gave back and moves on.
use crate::physical_plan::{read_sources, PhysicalPlan};
use crate::refresh_plan::{
    block_name_index, ErrorCode, ErrorModel, Plan, QueryTypes, RefreshIndexPlan, RelOperator,
    ScalarItem,
};
use crate::schema::{
    index_of_field, is_index_of, lemma_index_found, projection_of, DataField, DataSchema, FieldModel,
};
use crate::text::{decimal, decimal_text, lemma_decimal_text_injective};
use std::sync::Arc;
use vstd::prelude::*;

verus! {

/// The interpreter of one refresh request.
pub struct RefreshIndexInterpreter<Q: QueryTypes> {
    pub ctx: Arc<Q::Context>,
    pub plan: RefreshIndexPlan<Q>,
}

/// How far a refresh has come: each state waits for the answer to its engine call.
enum RefreshState<Q: QueryTypes> {
    /// The types of the first `fields.len()` scalar items are known.
    DataType { fields: Vec<DataField<Q::DataType>> },
    BuildPhysicalPlan { output_schema: DataSchema<Q::DataType> },
    ReplaceReadSource {
        output_schema: DataSchema<Q::DataType>,
        query_plan: Q::Plan,
        source: Q::DataSource,
    },
    BuildPipeline { output_schema: DataSchema<Q::DataType>, query_plan: Q::Plan },
    OutputSchema { output_schema: DataSchema<Q::DataType>, query_plan: Q::Plan },
    FunctionContext {
        output_schema: DataSchema<Q::DataType>,
        num_input_columns: usize,
        projection: Vec<usize>,
    },
    AddTransform {
        output_schema: DataSchema<Q::DataType>,
        num_input_columns: usize,
        projection: Vec<usize>,
        func_ctx: Q::FunctionContext,
    },
    InferTableSchema {
        output_schema: DataSchema<Q::DataType>,
        block_name_column: String,
        block_name_offset: usize,
    },
    DropColumn {
        table_schema: Q::TableSchema,
        block_name_column: String,
        block_name_offset: usize,
    },
    DataOperator { sink_schema: Q::TableSchema, block_name_offset: usize },
    FuseTable {
        sink_schema: Q::TableSchema,
        block_name_offset: usize,
        data_operator: Q::DataOperator,
    },
    Resize {
        sink_schema: Q::TableSchema,
        block_name_offset: usize,
        data_operator: Q::DataOperator,
        write_settings: Q::WriteSettings,
    },
    AddSink {
        sink_schema: Q::TableSchema,
        block_name_offset: usize,
        data_operator: Q::DataOperator,
        write_settings: Q::WriteSettings,
    },
    /// The pipeline is complete.
    Done,
}

/// How far a refresh has come: each state waits for the answer to its engine call.
pub enum StateModel<Q: QueryTypes> {
    DataType { fields: Seq<FieldModel<Q::DataType>> },
    BuildPhysicalPlan { output: Seq<FieldModel<Q::DataType>> },
    ReplaceReadSource {
        output: Seq<FieldModel<Q::DataType>>,
        query_plan: Q::Plan,
        source: Q::DataSource,
    },
    BuildPipeline { output: Seq<FieldModel<Q::DataType>>, query_plan: Q::Plan },
    OutputSchema { output: Seq<FieldModel<Q::DataType>>, query_plan: Q::Plan },
    FunctionContext {
        output: Seq<FieldModel<Q::DataType>>,
        num_input_columns: usize,
        projection: Seq<usize>,
    },
    AddTransform {
        output: Seq<FieldModel<Q::DataType>>,
        num_input_columns: usize,
        projection: Seq<usize>,
        func_ctx: Q::FunctionContext,
    },
    InferTableSchema { output: Seq<FieldModel<Q::DataType>>, column: Seq<char>, offset: usize },
    DropColumn { table_schema: Q::TableSchema, column: Seq<char>, offset: usize },
    DataOperator { sink_schema: Q::TableSchema, offset: usize },
    FuseTable { sink_schema: Q::TableSchema, offset: usize, data_operator: Q::DataOperator },
    Resize {
        sink_schema: Q::TableSchema,
        offset: usize,
        data_operator: Q::DataOperator,
        write_settings: Q::WriteSettings,
    },
    AddSink {
        sink_schema: Q::TableSchema,
        offset: usize,
        data_operator: Q::DataOperator,
        write_settings: Q::WriteSettings,
    },
    Done,
}

impl<Q: QueryTypes> RefreshState<Q> {
    /// The state, with sequences in place of vectors and strings.
    spec fn view(&self) -> StateModel<Q> {
        match *self {
            RefreshState::DataType { fields } => StateModel::DataType {
                fields: fields@.map_values(|field: DataField<Q::DataType>| field@),
            },
            RefreshState::BuildPhysicalPlan { output_schema } => StateModel::BuildPhysicalPlan {
                output: output_schema@,
            },
            RefreshState::ReplaceReadSource { output_schema, query_plan, source } =>
                StateModel::ReplaceReadSource { output: output_schema@, query_plan, source },
            RefreshState::BuildPipeline { output_schema, query_plan } =>
                StateModel::BuildPipeline { output: output_schema@, query_plan },
            RefreshState::OutputSchema { output_schema, query_plan } =>
                StateModel::OutputSchema { output: output_schema@, query_plan },
            RefreshState::FunctionContext { output_schema, num_input_columns, projection } =>
                StateModel::FunctionContext {
                    output: output_schema@,
                    num_input_columns,
                    projection: projection@,
                },
            RefreshState::AddTransform {
                output_schema,
                num_input_columns,
                projection,
                func_ctx,
            } => StateModel::AddTransform {
                output: output_schema@,
                num_input_columns,
                projection: projection@,
                func_ctx,
            },
            RefreshState::InferTableSchema {
                output_schema,
                block_name_column,
                block_name_offset,
            } => StateModel::InferTableSchema {
                output: output_schema@,
                column: block_name_column@,
                offset: block_name_offset,
            },
            RefreshState::DropColumn { table_schema, block_name_column, block_name_offset } =>
                StateModel::DropColumn {
                    table_schema,
                    column: block_name_column@,
                    offset: block_name_offset,
                },
            RefreshState::DataOperator { sink_schema, block_name_offset } =>
                StateModel::DataOperator { sink_schema, offset: block_name_offset },
            RefreshState::FuseTable { sink_schema, block_name_offset, data_operator } =>
                StateModel::FuseTable { sink_schema, offset: block_name_offset, data_operator },
            RefreshState::Resize {
                sink_schema,
                block_name_offset,
                data_operator,
                write_settings,
            } => StateModel::Resize {
                sink_schema,
                offset: block_name_offset,
                data_operator,
                write_settings,
            },
            RefreshState::AddSink {
                sink_schema,
                block_name_offset,
                data_operator,
                write_settings,
            } => StateModel::AddSink {
                sink_schema,
                offset: block_name_offset,
                data_operator,
                write_settings,
            },
            RefreshState::Done => StateModel::Done,
        }
    }
}

/// A refresh under way: the request and how far it has come, which always fit together.
pub struct RefreshRun<'a, Q: QueryTypes> {
    interpreter: &'a RefreshIndexInterpreter<Q>,
    state: RefreshState<Q>,
}

impl<'a, Q: QueryTypes> RefreshRun<'a, Q> {
    /// The interpreter that the run belongs to.
    pub closed spec fn interpreter(self) -> RefreshIndexInterpreter<Q> {
        *self.interpreter
    }

    #[verifier::type_invariant]
    spec fn state_fits_plan(self) -> bool {
        consistent(self.interpreter.plan, self.state@)
    }
}

impl<'a, Q: QueryTypes> View for RefreshRun<'a, Q> {
    type V = StateModel<Q>;

    closed spec fn view(&self) -> StateModel<Q> {
        self.state@
    }
}

/// The engine call that a refresh waits for, with everything that the call is given.
pub enum RefreshAction<'a, Q: QueryTypes> {
    /// Find the type of a scalar expression.
    DataType { scalar: &'a Q::Scalar },
    /// Build the physical plan of the query.
    BuildPhysicalPlan {
        metadata: &'a Q::Metadata,
        ctx: &'a Arc<Q::Context>,
        dry_run: bool,
        expr: &'a Q::Expr,
    },
    /// Let every table scan of the plan read from `source`.
    ReplaceReadSource { query_plan: &'a Q::Plan, source: &'a Q::DataSource },
    /// Build the pipeline of the plan, without rendering its result.
    BuildPipeline { ctx: &'a Arc<Q::Context>, query_plan: &'a Q::Plan, enable_profiling: bool },
    /// Find the schema of the blocks that the plan puts out.
    OutputSchema { query_plan: &'a Q::Plan },
    /// Get the function context of the query.
    FunctionContext { ctx: &'a Arc<Q::Context> },
    /// Add a transform to the pipeline that keeps the columns of `projection`.
    AddTransform {
        num_input_columns: usize,
        func_ctx: &'a Q::FunctionContext,
        projection: &'a Vec<usize>,
    },
    /// Find the table schema of blocks of this schema.
    InferTableSchema { output_schema: &'a DataSchema<Q::DataType> },
    /// Take a column out of a table schema.
    DropColumn { table_schema: &'a Q::TableSchema, column: &'a String },
    /// Get the data operator of the query.
    DataOperator { ctx: &'a Arc<Q::Context> },
    /// Open the table, for its write settings.
    FuseTable { table_info: &'a Q::TableInfo },
    /// Resize the pipeline to that many lanes.
    Resize { width: usize },
    /// Add the sink that writes the index.
    AddSink {
        data_operator: &'a Q::DataOperator,
        index_id: u64,
        write_settings: &'a Q::WriteSettings,
        sink_schema: &'a Q::TableSchema,
        block_name_offset: usize,
        user_defined_block_name: bool,
    },
    /// Nothing is left to do.
    Finish,
}

/// What a `RefreshAction` is, with sequences in place of vectors and strings.
pub enum ActionModel<Q: QueryTypes> {
    DataType { scalar: Q::Scalar },
    BuildPhysicalPlan {
        metadata: Q::Metadata,
        ctx: Arc<Q::Context>,
        dry_run: bool,
        expr: Q::Expr,
    },
    ReplaceReadSource { query_plan: Q::Plan, source: Q::DataSource },
    BuildPipeline { ctx: Arc<Q::Context>, query_plan: Q::Plan, enable_profiling: bool },
    OutputSchema { query_plan: Q::Plan },
    FunctionContext { ctx: Arc<Q::Context> },
    AddTransform {
        num_input_columns: usize,
        func_ctx: Q::FunctionContext,
        projection: Seq<usize>,
    },
    InferTableSchema { output: Seq<FieldModel<Q::DataType>> },
    DropColumn { table_schema: Q::TableSchema, column: Seq<char> },
    DataOperator { ctx: Arc<Q::Context> },
    FuseTable { table_info: Q::TableInfo },
    Resize { width: usize },
    AddSink {
        data_operator: Q::DataOperator,
        index_id: u64,
        write_settings: Q::WriteSettings,
        sink_schema: Q::TableSchema,
        offset: usize,
        user_defined_block_name: bool,
    },
    Finish,
}

impl<'a, Q: QueryTypes> View for RefreshAction<'a, Q> {
    type V = ActionModel<Q>;

    open spec fn view(&self) -> ActionModel<Q> {
        match *self {
            RefreshAction::DataType { scalar } => ActionModel::DataType { scalar: *scalar },
            RefreshAction::BuildPhysicalPlan { metadata, ctx, dry_run, expr } =>
                ActionModel::BuildPhysicalPlan {
                    metadata: *metadata,
                    ctx: *ctx,
                    dry_run,
                    expr: *expr,
                },
            RefreshAction::ReplaceReadSource { query_plan, source } =>
                ActionModel::ReplaceReadSource { query_plan: *query_plan, source: *source },
            RefreshAction::BuildPipeline { ctx, query_plan, enable_profiling } =>
                ActionModel::BuildPipeline {
                    ctx: *ctx,
                    query_plan: *query_plan,
                    enable_profiling,
                },
            RefreshAction::OutputSchema { query_plan } => ActionModel::OutputSchema {
                query_plan: *query_plan,
            },
            RefreshAction::FunctionContext { ctx } => ActionModel::FunctionContext { ctx: *ctx },
            RefreshAction::AddTransform { num_input_columns, func_ctx, projection } =>
                ActionModel::AddTransform {
                    num_input_columns,
                    func_ctx: *func_ctx,
                    projection: projection@,
                },
            RefreshAction::InferTableSchema { output_schema } => ActionModel::InferTableSchema {
                output: output_schema@,
            },
            RefreshAction::DropColumn { table_schema, column } => ActionModel::DropColumn {
                table_schema: *table_schema,
                column: column@,
            },
            RefreshAction::DataOperator { ctx } => ActionModel::DataOperator { ctx: *ctx },
            RefreshAction::FuseTable { table_info } => ActionModel::FuseTable {
                table_info: *table_info,
            },
            RefreshAction::Resize { width } => ActionModel::Resize { width },
            RefreshAction::AddSink {
                data_operator,
                index_id,
                write_settings,
                sink_schema,
                block_name_offset,
                user_defined_block_name,
            } => ActionModel::AddSink {
                data_operator: *data_operator,
                index_id,
                write_settings: *write_settings,
                sink_schema: *sink_schema,
                offset: block_name_offset,
                user_defined_block_name,
            },
            RefreshAction::Finish => ActionModel::Finish,
        }
    }
}

/// The answer to an engine call.
pub enum RefreshEvent<Q: QueryTypes> {
    DataType(Result<Q::DataType, Q::Error>),
    /// The physical plan, and the shape of it.
    PhysicalPlan(Result<(Q::Plan, PhysicalPlan<Q::DataSource>), Q::Error>),
    ReadSourceReplaced(Result<Q::Plan, Q::Error>),
    PipelineBuilt(Result<(), Q::Error>),
    OutputSchema(Result<DataSchema<Q::DataType>, Q::Error>),
    FunctionContext(Result<Q::FunctionContext, Q::Error>),
    TransformAdded(Result<(), Q::Error>),
    TableSchema(Result<Q::TableSchema, Q::Error>),
    ColumnDropped(Result<Q::TableSchema, Q::Error>),
    DataOperator(Result<Q::DataOperator, Q::Error>),
    WriteSettings(Result<Q::WriteSettings, Q::Error>),
    Resized(Result<(), Q::Error>),
    SinkAdded(Result<(), Q::Error>),
}

/// What a step gives: the next state, or the error that ends the refresh.
type Outcome<Q> = Result<RefreshState<Q>, ErrorCode<<Q as QueryTypes>::Error>>;

/// What a step gives: the next state, or the error that ends the refresh.
pub type OutcomeModel<Q> = Result<StateModel<Q>, ErrorModel<<Q as QueryTypes>::Error>>;

/// The model of an outcome.
spec fn outcome_model<Q: QueryTypes>(outcome: Outcome<Q>) -> OutcomeModel<Q> {
    match outcome {
        Ok(state) => Ok(state@),
        Err(error) => Err(error@),
    }
}

/// A run of `interpreter`, or its error, is what `outcome` says.
pub open spec fn run_is<'a, Q: QueryTypes>(
    run: Result<RefreshRun<'a, Q>, ErrorCode<Q::Error>>,
    interpreter: RefreshIndexInterpreter<Q>,
    outcome: OutcomeModel<Q>,
) -> bool {
    match run {
        Ok(run) => {
            &&& run.interpreter() == interpreter
            &&& outcome == Ok::<StateModel<Q>, ErrorModel<Q::Error>>(run@)
            &&& consistent(interpreter.plan, run@)
        },
        Err(error) => outcome == Err::<StateModel<Q>, ErrorModel<Q::Error>>(error@),
    }
}

/// The state in which the types of the first `fields.len()` items are known.
pub open spec fn with_fields<Q: QueryTypes>(
    plan: RefreshIndexPlan<Q>,
    fields: Seq<FieldModel<Q::DataType>>,
) -> StateModel<Q> {
    if fields.len() == plan.query_plan.items().len() {
        StateModel::BuildPhysicalPlan { output: fields }
    } else {
        StateModel::DataType { fields }
    }
}

/// How a refresh opens.
pub open spec fn opening<Q: QueryTypes>(plan: RefreshIndexPlan<Q>) -> OutcomeModel<Q> {
    if plan.query_plan is Other {
        Err(ErrorModel::SemanticError("Refresh aggregating index encounter Non-Query Plan"@))
    } else if !plan.query_plan.evaluates_scalars() {
        Err(
            ErrorModel::SemanticError(
                "The last operator of the plan of aggregate index query should be EvalScalar"@,
            ),
        )
    } else {
        Ok(with_fields(plan, Seq::empty()))
    }
}

/// The one source that the plan reads, or the error for none or several.
pub open spec fn read_source<S, E>(plan: PhysicalPlan<S>) -> Result<S, ErrorModel<E>> {
    if read_sources(plan).len() == 1 {
        Ok(read_sources(plan)[0])
    } else {
        Err(
            ErrorModel::Internal(
                "Invalid source with multiple table scan when do refresh aggregating index"@,
            ),
        )
    }
}

/// Where the block name column stands in the output.
pub open spec fn block_name_location<Q: QueryTypes>(
    plan: RefreshIndexPlan<Q>,
    output: Seq<FieldModel<Q::DataType>>,
) -> OutcomeModel<Q> {
    match block_name_index(plan.query_plan.select_columns()) {
        None => Err(
            ErrorModel::Internal("_block_name should contained in the input of refresh processor"@),
        ),
        Some(index) => {
            let column = decimal_text(index as nat);
            match index_of_field(output, column) {
                None => Err(ErrorModel::FieldNotFound(column)),
                Some(offset) => Ok(
                    StateModel::InferTableSchema { output, column, offset: offset as usize },
                ),
            }
        },
    }
}

/// What a refresh in `state` does on `event`.
pub open spec fn next<Q: QueryTypes>(
    plan: RefreshIndexPlan<Q>,
    state: StateModel<Q>,
    event: RefreshEvent<Q>,
) -> OutcomeModel<Q> {
    match state {
        StateModel::DataType { fields } => match event {
            RefreshEvent::DataType(Ok(data_type)) => {
                let index = plan.query_plan.items()[fields.len() as int].index;
                let field = FieldModel { name: decimal_text(index as nat), data_type };
                Ok(with_fields(plan, fields.push(field)))
            },
            RefreshEvent::DataType(Err(error)) => Err(ErrorModel::Engine(error)),
            _ => Err(ErrorModel::UnexpectedEvent),
        },
        StateModel::BuildPhysicalPlan { output } => match event {
            RefreshEvent::PhysicalPlan(Ok(built)) => match read_source(built.1) {
                Ok(source) => Ok(
                    StateModel::ReplaceReadSource { output, query_plan: built.0, source },
                ),
                Err(error) => Err(error),
            },
            RefreshEvent::PhysicalPlan(Err(error)) => Err(ErrorModel::Engine(error)),
            _ => Err(ErrorModel::UnexpectedEvent),
        },
        StateModel::ReplaceReadSource { output, .. } => match event {
            RefreshEvent::ReadSourceReplaced(Ok(query_plan)) => Ok(
                StateModel::BuildPipeline { output, query_plan },
            ),
            RefreshEvent::ReadSourceReplaced(Err(error)) => Err(ErrorModel::Engine(error)),
            _ => Err(ErrorModel::UnexpectedEvent),
        },
        StateModel::BuildPipeline { output, query_plan } => match event {
            RefreshEvent::PipelineBuilt(Ok(_)) => Ok(
                StateModel::OutputSchema { output, query_plan },
            ),
            RefreshEvent::PipelineBuilt(Err(error)) => Err(ErrorModel::Engine(error)),
            _ => Err(ErrorModel::UnexpectedEvent),
        },
        StateModel::OutputSchema { output, .. } => match event {
            RefreshEvent::OutputSchema(Ok(input_schema)) => match projection_of(
                output,
                input_schema@,
            ) {
                Ok(projection) => Ok(
                    StateModel::FunctionContext {
                        output,
                        num_input_columns: input_schema@.len() as usize,
                        projection,
                    },
                ),
                Err(name) => Err(ErrorModel::FieldNotFound(name)),
            },
            RefreshEvent::OutputSchema(Err(error)) => Err(ErrorModel::Engine(error)),
            _ => Err(ErrorModel::UnexpectedEvent),
        },
        StateModel::FunctionContext { output, num_input_columns, projection } => match event {
            RefreshEvent::FunctionContext(Ok(func_ctx)) => Ok(
                StateModel::AddTransform { output, num_input_columns, projection, func_ctx },
            ),
            RefreshEvent::FunctionContext(Err(error)) => Err(ErrorModel::Engine(error)),
            _ => Err(ErrorModel::UnexpectedEvent),
        },
        StateModel::AddTransform { output, .. } => match event {
            RefreshEvent::TransformAdded(Ok(_)) => block_name_location(plan, output),
            RefreshEvent::TransformAdded(Err(error)) => Err(ErrorModel::Engine(error)),
            _ => Err(ErrorModel::UnexpectedEvent),
        },
        StateModel::InferTableSchema { column, offset, .. } => match event {
            RefreshEvent::TableSchema(Ok(table_schema)) => if plan.user_defined_block_name {
                Ok(StateModel::DataOperator { sink_schema: table_schema, offset })
            } else {
                Ok(StateModel::DropColumn { table_schema, column, offset })
            },
            RefreshEvent::TableSchema(Err(error)) => Err(ErrorModel::Engine(error)),
            _ => Err(ErrorModel::UnexpectedEvent),
        },
        StateModel::DropColumn { offset, .. } => match event {
            RefreshEvent::ColumnDropped(Ok(sink_schema)) => Ok(
                StateModel::DataOperator { sink_schema, offset },
            ),
            RefreshEvent::ColumnDropped(Err(error)) => Err(ErrorModel::Engine(error)),
            _ => Err(ErrorModel::UnexpectedEvent),
        },
        StateModel::DataOperator { sink_schema, offset } => match event {
            RefreshEvent::DataOperator(Ok(data_operator)) => Ok(
                StateModel::FuseTable { sink_schema, offset, data_operator },
            ),
            RefreshEvent::DataOperator(Err(error)) => Err(ErrorModel::Engine(error)),
            _ => Err(ErrorModel::UnexpectedEvent),
        },
        StateModel::FuseTable { sink_schema, offset, data_operator } => match event {
            RefreshEvent::WriteSettings(Ok(write_settings)) => Ok(
                StateModel::Resize { sink_schema, offset, data_operator, write_settings },
            ),
            RefreshEvent::WriteSettings(Err(error)) => Err(ErrorModel::Engine(error)),
            _ => Err(ErrorModel::UnexpectedEvent),
        },
        StateModel::Resize { sink_schema, offset, data_operator, write_settings } => match event {
            RefreshEvent::Resized(Ok(_)) => Ok(
                StateModel::AddSink { sink_schema, offset, data_operator, write_settings },
            ),
            RefreshEvent::Resized(Err(error)) => Err(ErrorModel::Engine(error)),
            _ => Err(ErrorModel::UnexpectedEvent),
        },
        StateModel::AddSink { .. } => match event {
            RefreshEvent::SinkAdded(Ok(_)) => Ok(StateModel::Done),
            RefreshEvent::SinkAdded(Err(error)) => Err(ErrorModel::Engine(error)),
            _ => Err(ErrorModel::UnexpectedEvent),
        },
        StateModel::Done => Err(ErrorModel::UnexpectedEvent),
    }
}

/// The fields are named after the numbers of the items, in order.
pub open spec fn named_by<Q: QueryTypes>(
    fields: Seq<FieldModel<Q::DataType>>,
    items: Seq<ScalarItem<Q>>,
) -> bool {
    &&& fields.len() <= items.len()
    &&& forall|k: int|
        0 <= k < fields.len() ==> (#[trigger] fields[k]).name == decimal_text(
            items[k].index as nat,
        )
}

/// The output of the query has one field for each item, named after its number.
pub open spec fn is_output<Q: QueryTypes>(
    plan: RefreshIndexPlan<Q>,
    output: Seq<FieldModel<Q::DataType>>,
) -> bool {
    &&& plan.query_plan.evaluates_scalars()
    &&& output.len() == plan.query_plan.items().len()
    &&& named_by(output, plan.query_plan.items())
}

/// Each column of the projection is a column of the input.
pub open spec fn projects(projection: Seq<usize>, len: nat, num_input_columns: usize) -> bool {
    &&& projection.len() == len
    &&& forall|k: int| 0 <= k < len ==> #[trigger] projection[k] < num_input_columns
}

/// The first item that computes the block name column is the one at `offset`.
pub open spec fn locates_block_name<Q: QueryTypes>(
    plan: RefreshIndexPlan<Q>,
    offset: usize,
) -> bool {
    let items = plan.query_plan.items();
    let index = block_name_index(plan.query_plan.select_columns());
    &&& plan.query_plan.evaluates_scalars()
    &&& index is Some
    &&& offset < items.len()
    &&& items[offset as int].index == index->0
    &&& forall|j: int| 0 <= j < offset ==> (#[trigger] items[j]).index != index->0
}

/// The block name column goes by the numeral of its number.
pub open spec fn names_block_name<Q: QueryTypes>(
    plan: RefreshIndexPlan<Q>,
    column: Seq<char>,
) -> bool {
    &&& block_name_index(plan.query_plan.select_columns()) is Some
    &&& column == decimal_text(
        block_name_index(plan.query_plan.select_columns())->0 as nat,
    )
}

/// What holds of every state that a refresh of `plan` goes through.
pub open spec fn consistent<Q: QueryTypes>(
    plan: RefreshIndexPlan<Q>,
    state: StateModel<Q>,
) -> bool {
    match state {
        StateModel::DataType { fields } => {
            &&& plan.query_plan.evaluates_scalars()
            &&& fields.len() < plan.query_plan.items().len()
            &&& named_by(fields, plan.query_plan.items())
        },
        StateModel::BuildPhysicalPlan { output } => is_output(plan, output),
        StateModel::ReplaceReadSource { output, .. } => is_output(plan, output),
        StateModel::BuildPipeline { output, .. } => is_output(plan, output),
        StateModel::OutputSchema { output, .. } => is_output(plan, output),
        StateModel::FunctionContext { output, num_input_columns, projection } => {
            &&& is_output(plan, output)
            &&& projects(projection, output.len(), num_input_columns)
        },
        StateModel::AddTransform { output, num_input_columns, projection, .. } => {
            &&& is_output(plan, output)
            &&& projects(projection, output.len(), num_input_columns)
        },
        StateModel::InferTableSchema { output, column, offset } => {
            &&& is_output(plan, output)
            &&& names_block_name(plan, column)
            &&& locates_block_name(plan, offset)
        },
        StateModel::DropColumn { column, offset, .. } => {
            &&& !plan.user_defined_block_name
            &&& names_block_name(plan, column)
            &&& locates_block_name(plan, offset)
        },
        StateModel::DataOperator { offset, .. } => locates_block_name(plan, offset),
        StateModel::FuseTable { offset, .. } => locates_block_name(plan, offset),
        StateModel::Resize { offset, .. } => locates_block_name(plan, offset),
        StateModel::AddSink { offset, .. } => locates_block_name(plan, offset),
        StateModel::Done => plan.query_plan.evaluates_scalars(),
    }
}

/// The engine call that a refresh in `state` waits for.
pub open spec fn action_of<Q: QueryTypes>(
    interpreter: RefreshIndexInterpreter<Q>,
    state: StateModel<Q>,
) -> ActionModel<Q> {
    let ctx = interpreter.ctx;
    let plan = interpreter.plan;
    match state {
        StateModel::DataType { fields } => ActionModel::DataType {
            scalar: plan.query_plan.items()[fields.len() as int].scalar,
        },
        StateModel::BuildPhysicalPlan { .. } => ActionModel::BuildPhysicalPlan {
            metadata: plan.query_plan->metadata,
            ctx,
            dry_run: false,
            expr: plan.query_plan->s_expr.expr,
        },
        StateModel::ReplaceReadSource { query_plan, source, .. } =>
            ActionModel::ReplaceReadSource { query_plan, source },
        StateModel::BuildPipeline { query_plan, .. } => ActionModel::BuildPipeline {
            ctx,
            query_plan,
            enable_profiling: false,
        },
        StateModel::OutputSchema { query_plan, .. } => ActionModel::OutputSchema { query_plan },
        StateModel::FunctionContext { .. } => ActionModel::FunctionContext { ctx },
        StateModel::AddTransform { num_input_columns, projection, func_ctx, .. } =>
            ActionModel::AddTransform { num_input_columns, func_ctx, projection },
        StateModel::InferTableSchema { output, .. } => ActionModel::InferTableSchema { output },
        StateModel::DropColumn { table_schema, column, .. } => ActionModel::DropColumn {
            table_schema,
            column,
        },
        StateModel::DataOperator { .. } => ActionModel::DataOperator { ctx },
        StateModel::FuseTable { .. } => ActionModel::FuseTable { table_info: plan.table_info },
        StateModel::Resize { .. } => ActionModel::Resize { width: 1 },
        StateModel::AddSink { sink_schema, offset, data_operator, write_settings } =>
            ActionModel::AddSink {
                data_operator,
                index_id: plan.index_id,
                write_settings,
                sink_schema,
                offset,
                user_defined_block_name: plan.user_defined_block_name,
            },
        StateModel::Done => ActionModel::Finish,
    }
}

/// The model of a field list, one field longer.
proof fn lemma_fields_push<D>(fields: Seq<DataField<D>>, field: DataField<D>)
    ensures
        fields.push(field).map_values(|f: DataField<D>| f@) == fields.map_values(
            |f: DataField<D>| f@,
        ).push(field@),
{
    assert(fields.push(field).map_values(|f: DataField<D>| f@) =~= fields.map_values(
        |f: DataField<D>| f@,
    ).push(field@));
}

/// A field of the output that goes by the name of the block name column comes from the first item
/// that computes that column.
proof fn lemma_block_name_located<Q: QueryTypes>(
    plan: RefreshIndexPlan<Q>,
    output: Seq<FieldModel<Q::DataType>>,
    offset: int,
)
    requires
        is_output(plan, output),
        block_name_index(plan.query_plan.select_columns()) is Some,
        is_index_of(
            output,
            decimal_text(block_name_index(plan.query_plan.select_columns())->0 as nat),
            offset,
        ),
        offset <= usize::MAX,
    ensures
        locates_block_name(plan, offset as usize),
{
    let items = plan.query_plan.items();
    let index = block_name_index(plan.query_plan.select_columns())->0;
    assert(output[offset].name == decimal_text(items[offset].index as nat));
    lemma_decimal_text_injective(items[offset].index as nat, index as nat);
    assert forall|j: int| 0 <= j < offset implies (#[trigger] items[j]).index != index by {
        assert(output[j].name == decimal_text(items[j].index as nat));
    }
}

/// Every state that a refresh opens with or steps to is consistent: the output fields are the
/// items in order, a projection stays within the input, and the block name offset is the position
/// of the item that computes the block name column.
pub proof fn lemma_states_consistent<Q: QueryTypes>(
    plan: RefreshIndexPlan<Q>,
    state: StateModel<Q>,
    event: RefreshEvent<Q>,
)
    ensures
        opening(plan) matches Ok(first) ==> consistent(plan, first),
        consistent(plan, state) && next(plan, state, event) is Ok ==> consistent(
            plan,
            next(plan, state, event)->Ok_0,
        ),
{
    if consistent(plan, state) && next(plan, state, event) is Ok {
        match state {
            StateModel::DataType { fields } => {
                let index = plan.query_plan.items()[fields.len() as int].index;
                let field = FieldModel {
                    name: decimal_text(index as nat),
                    data_type: event->DataType_0->Ok_0,
                };
                assert(named_by(fields.push(field), plan.query_plan.items()));
            },
            StateModel::OutputSchema { output, .. } => {
                let schema = event->OutputSchema_0->Ok_0;
                let input = schema@;
                let projection = projection_of(output, input)->Ok_0;
                assert forall|k: int| 0 <= k < output.len() implies #[trigger] projection[k]
                    < input.len() as usize by {
                    lemma_index_found(input, output[k].name);
                    assert(input.len() == schema.fields.len());
                }
            },
            StateModel::AddTransform { output, .. } => {
                let index = block_name_index(plan.query_plan.select_columns())->0;
                let column = decimal_text(index as nat);
                lemma_index_found(output, column);
                let offset = index_of_field(output, column)->0;
                if let Plan::Query { s_expr, .. } = plan.query_plan {
                    if let RelOperator::EvalScalar(eval) = s_expr.plan {
                        assert(eval.items.len() == output.len());
                    }
                }
                lemma_block_name_located(plan, output, offset);
            },
            _ => {},
        }
    }
}

impl<Q: QueryTypes> RefreshIndexInterpreter<Q> {
    /// Makes the interpreter of a refresh request.
    pub fn try_create(ctx: Arc<Q::Context>, plan: RefreshIndexPlan<Q>) -> (res: Result<
        Self,
        ErrorCode<Q::Error>,
    >)
        ensures
            res == Ok::<Self, ErrorCode<Q::Error>>(RefreshIndexInterpreter { ctx, plan }),
    {
        Ok(RefreshIndexInterpreter { ctx, plan })
    }

    /// The name of the interpreter.
    pub fn name(&self) -> (res: &str)
        ensures
            res@ == "RefreshIndexInterpreter"@,
    {
        "RefreshIndexInterpreter"
    }

    /// The one source that the plan reads. A plan with no table scan, or with several, is refused.
    pub fn get_read_source(&self, query_plan: PhysicalPlan<Q::DataSource>) -> (res: Result<
        Q::DataSource,
        ErrorCode<Q::Error>,
    >)
        ensures
            match res {
                Ok(source) => read_source::<Q::DataSource, Q::Error>(query_plan) == Ok::<
                    Q::DataSource,
                    ErrorModel<Q::Error>,
                >(source),
                Err(error) => read_source::<Q::DataSource, Q::Error>(query_plan) == Err::<
                    Q::DataSource,
                    ErrorModel<Q::Error>,
                >(error@),
            },
            res matches Ok(source) ==> read_sources(query_plan) == seq![source],
            res matches Err(error) ==> {
                &&& read_sources(query_plan).len() != 1
                &&& error matches ErrorCode::Internal(message)
                &&& message@
                    == "Invalid source with multiple table scan when do refresh aggregating index"@
            },
    {
        let mut source: Vec<Q::DataSource> = Vec::new();
        query_plan.collect_read_sources(&mut source);
        assert(source@ =~= read_sources(query_plan));
        if source.len() != 1 {
            Err(
                ErrorCode::Internal(
                    "Invalid source with multiple table scan when do refresh aggregating index".to_string(),
                ),
            )
        } else {
            Ok(source.remove(0))
        }
    }

    /// Goes on from the fields whose types are known.
    fn with_fields(&self, fields: Vec<DataField<Q::DataType>>) -> (res: RefreshState<Q>)
        requires
            self.plan.query_plan.evaluates_scalars(),
        ensures
            res@ == with_fields(
                self.plan,
                fields@.map_values(|field: DataField<Q::DataType>| field@),
            ),
    {
        if fields.len() == self.items().len() {
            RefreshState::BuildPhysicalPlan { output_schema: DataSchema { fields } }
        } else {
            RefreshState::DataType { fields }
        }
    }

    /// The scalar items that the query evaluates.
    fn items(&self) -> (res: &Vec<ScalarItem<Q>>)
        requires
            self.plan.query_plan.evaluates_scalars(),
        ensures
            res@ == self.plan.query_plan.items(),
    {
        match &self.plan.query_plan {
            Plan::Query { s_expr, .. } => match &s_expr.plan {
                RelOperator::EvalScalar(eval) => &eval.items,
                RelOperator::Other => {
                    vstd::pervasive::unreached()
                },
            },
            Plan::Other => {
                vstd::pervasive::unreached()
            },
        }
    }

    /// Opens the refresh. A plan that is no query, or a query that does not end in evaluating
    /// scalars, is refused before the engine is called.
    pub fn execute2(&self) -> (res: Result<RefreshRun<'_, Q>, ErrorCode<Q::Error>>)
        ensures
            run_is(res, *self, opening(self.plan)),
            match res {
                Ok(run) => {
                    &&& run.interpreter() == *self
                    &&& opening(self.plan) == Ok::<StateModel<Q>, ErrorModel<Q::Error>>(run@)
                },
                Err(error) => opening(self.plan) == Err::<StateModel<Q>, ErrorModel<Q::Error>>(
                    error@,
                ),
            },
    {
        match self.open() {
            Ok(state) => Ok(RefreshRun { interpreter: self, state }),
            Err(error) => Err(error),
        }
    }

    /// The first state of the refresh.
    fn open(&self) -> (res: Outcome<Q>)
        ensures
            outcome_model(res) == opening(self.plan),
            res matches Ok(state) ==> consistent(self.plan, state@),
    {
        match &self.plan.query_plan {
            Plan::Query { s_expr, .. } => match &s_expr.plan {
                RelOperator::EvalScalar(_) => {
                    let fields: Vec<DataField<Q::DataType>> = Vec::new();
                    assert(fields@.map_values(|field: DataField<Q::DataType>| field@)
                        =~= Seq::empty());
                    Ok(self.with_fields(fields))
                },
                RelOperator::Other => Err(
                    ErrorCode::SemanticError(
                        "The last operator of the plan of aggregate index query should be EvalScalar".to_string(),
                    ),
                ),
            },
            Plan::Other => Err(
                ErrorCode::SemanticError(
                    "Refresh aggregating index encounter Non-Query Plan".to_string(),
                ),
            ),
        }
    }

    /// Finds the block name column in the output.
    fn locate_block_name(&self, output_schema: DataSchema<Q::DataType>) -> (res: Outcome<Q>)
        ensures
            outcome_model(res) == block_name_location(self.plan, output_schema@),
    {
        match self.plan.query_plan.find_block_name() {
            None => Err(
                ErrorCode::Internal(
                    "_block_name should contained in the input of refresh processor".to_string(),
                ),
            ),
            Some(index) => {
                let column = decimal(index);
                match output_schema.index_of(&column) {
                    None => Err(ErrorCode::FieldNotFound(column)),
                    Some(offset) => Ok(
                        RefreshState::InferTableSchema {
                            output_schema,
                            block_name_column: column,
                            block_name_offset: offset,
                        },
                    ),
                }
            },
        }
    }

    /// The engine call that a refresh in `state` waits for.
    fn action_in<'a>(&'a self, state: &'a RefreshState<Q>) -> (res: RefreshAction<'a, Q>)
        requires
            consistent(self.plan, state@),
        ensures
            res@ == action_of(*self, state@),
    {
        match state {
            RefreshState::DataType { fields } => RefreshAction::DataType {
                scalar: &self.items()[fields.len()].scalar,
            },
            RefreshState::BuildPhysicalPlan { .. } => match &self.plan.query_plan {
                Plan::Query { s_expr, metadata, .. } => RefreshAction::BuildPhysicalPlan {
                    metadata,
                    ctx: &self.ctx,
                    dry_run: false,
                    expr: &s_expr.expr,
                },
                Plan::Other => vstd::pervasive::unreached(),
            },
            RefreshState::ReplaceReadSource { query_plan, source, .. } =>
                RefreshAction::ReplaceReadSource { query_plan, source },
            RefreshState::BuildPipeline { query_plan, .. } => RefreshAction::BuildPipeline {
                ctx: &self.ctx,
                query_plan,
                enable_profiling: false,
            },
            RefreshState::OutputSchema { query_plan, .. } => RefreshAction::OutputSchema {
                query_plan,
            },
            RefreshState::FunctionContext { .. } => RefreshAction::FunctionContext {
                ctx: &self.ctx,
            },
            RefreshState::AddTransform { num_input_columns, projection, func_ctx, .. } =>
                RefreshAction::AddTransform {
                    num_input_columns: *num_input_columns,
                    func_ctx,
                    projection,
                },
            RefreshState::InferTableSchema { output_schema, .. } =>
                RefreshAction::InferTableSchema { output_schema },
            RefreshState::DropColumn { table_schema, block_name_column, .. } =>
                RefreshAction::DropColumn { table_schema, column: block_name_column },
            RefreshState::DataOperator { .. } => RefreshAction::DataOperator { ctx: &self.ctx },
            RefreshState::FuseTable { .. } => RefreshAction::FuseTable {
                table_info: &self.plan.table_info,
            },
            RefreshState::Resize { .. } => RefreshAction::Resize { width: 1 },
            RefreshState::AddSink {
                sink_schema,
                block_name_offset,
                data_operator,
                write_settings,
            } => RefreshAction::AddSink {
                data_operator,
                index_id: self.plan.index_id,
                write_settings,
                sink_schema,
                block_name_offset: *block_name_offset,
                user_defined_block_name: self.plan.user_defined_block_name,
            },
            RefreshState::Done => RefreshAction::Finish,
        }
    }

    /// Takes the answer to the engine call of `state` and moves on.
    fn step_from(&self, state: RefreshState<Q>, event: RefreshEvent<Q>) -> (res: Outcome<Q>)
        requires
            consistent(self.plan, state@),
        ensures
            outcome_model(res) == next(self.plan, state@, event),
            res matches Ok(after) ==> consistent(self.plan, after@),
    {
        proof {
            lemma_states_consistent(self.plan, state@, event);
        }
        match state {
            RefreshState::DataType { fields } => match event {
                RefreshEvent::DataType(Ok(data_type)) => {
                    let mut fields = fields;
                    let name = decimal(self.items()[fields.len()].index);
                    let field = DataField { name, data_type };
                    proof {
                        lemma_fields_push(fields@, field);
                    }
                    fields.push(field);
                    Ok(self.with_fields(fields))
                },
                RefreshEvent::DataType(Err(error)) => Err(ErrorCode::Engine(error)),
                _ => Err(ErrorCode::UnexpectedEvent),
            },
            RefreshState::BuildPhysicalPlan { output_schema } => match event {
                RefreshEvent::PhysicalPlan(Ok(built)) => {
                    let (query_plan, shape) = built;
                    match self.get_read_source(shape) {
                        Ok(source) => Ok(
                            RefreshState::ReplaceReadSource { output_schema, query_plan, source },
                        ),
                        Err(error) => Err(error),
                    }
                },
                RefreshEvent::PhysicalPlan(Err(error)) => Err(ErrorCode::Engine(error)),
                _ => Err(ErrorCode::UnexpectedEvent),
            },
            RefreshState::ReplaceReadSource { output_schema, .. } => match event {
                RefreshEvent::ReadSourceReplaced(Ok(query_plan)) => Ok(
                    RefreshState::BuildPipeline { output_schema, query_plan },
                ),
                RefreshEvent::ReadSourceReplaced(Err(error)) => Err(ErrorCode::Engine(error)),
                _ => Err(ErrorCode::UnexpectedEvent),
            },
            RefreshState::BuildPipeline { output_schema, query_plan } => match event {
                RefreshEvent::PipelineBuilt(Ok(_)) => Ok(
                    RefreshState::OutputSchema { output_schema, query_plan },
                ),
                RefreshEvent::PipelineBuilt(Err(error)) => Err(ErrorCode::Engine(error)),
                _ => Err(ErrorCode::UnexpectedEvent),
            },
            RefreshState::OutputSchema { output_schema, .. } => match event {
                RefreshEvent::OutputSchema(Ok(input_schema)) => {
                    match output_schema.projection_from(&input_schema) {
                        Ok(projection) => Ok(
                            RefreshState::FunctionContext {
                                num_input_columns: input_schema.num_fields(),
                                output_schema,
                                projection,
                            },
                        ),
                        Err(name) => Err(ErrorCode::FieldNotFound(name)),
                    }
                },
                RefreshEvent::OutputSchema(Err(error)) => Err(ErrorCode::Engine(error)),
                _ => Err(ErrorCode::UnexpectedEvent),
            },
            RefreshState::FunctionContext { output_schema, num_input_columns, projection } =>
            match event {
                RefreshEvent::FunctionContext(Ok(func_ctx)) => Ok(
                    RefreshState::AddTransform {
                        output_schema,
                        num_input_columns,
                        projection,
                        func_ctx,
                    },
                ),
                RefreshEvent::FunctionContext(Err(error)) => Err(ErrorCode::Engine(error)),
                _ => Err(ErrorCode::UnexpectedEvent),
            },
            RefreshState::AddTransform { output_schema, .. } => match event {
                RefreshEvent::TransformAdded(Ok(_)) => self.locate_block_name(output_schema),
                RefreshEvent::TransformAdded(Err(error)) => Err(ErrorCode::Engine(error)),
                _ => Err(ErrorCode::UnexpectedEvent),
            },
            RefreshState::InferTableSchema { block_name_column, block_name_offset, .. } =>
            match event {
                RefreshEvent::TableSchema(Ok(table_schema)) => {
                    if self.plan.user_defined_block_name {
                        Ok(
                            RefreshState::DataOperator {
                                sink_schema: table_schema,
                                block_name_offset,
                            },
                        )
                    } else {
                        Ok(
                            RefreshState::DropColumn {
                                table_schema,
                                block_name_column,
                                block_name_offset,
                            },
                        )
                    }
                },
                RefreshEvent::TableSchema(Err(error)) => Err(ErrorCode::Engine(error)),
                _ => Err(ErrorCode::UnexpectedEvent),
            },
            RefreshState::DropColumn { block_name_offset, .. } => match event {
                RefreshEvent::ColumnDropped(Ok(sink_schema)) => Ok(
                    RefreshState::DataOperator { sink_schema, block_name_offset },
                ),
                RefreshEvent::ColumnDropped(Err(error)) => Err(ErrorCode::Engine(error)),
                _ => Err(ErrorCode::UnexpectedEvent),
            },
            RefreshState::DataOperator { sink_schema, block_name_offset } => match event {
                RefreshEvent::DataOperator(Ok(data_operator)) => Ok(
                    RefreshState::FuseTable { sink_schema, block_name_offset, data_operator },
                ),
                RefreshEvent::DataOperator(Err(error)) => Err(ErrorCode::Engine(error)),
                _ => Err(ErrorCode::UnexpectedEvent),
            },
            RefreshState::FuseTable { sink_schema, block_name_offset, data_operator } =>
            match event {
                RefreshEvent::WriteSettings(Ok(write_settings)) => Ok(
                    RefreshState::Resize {
                        sink_schema,
                        block_name_offset,
                        data_operator,
                        write_settings,
                    },
                ),
                RefreshEvent::WriteSettings(Err(error)) => Err(ErrorCode::Engine(error)),
                _ => Err(ErrorCode::UnexpectedEvent),
            },
            RefreshState::Resize {
                sink_schema,
                block_name_offset,
                data_operator,
                write_settings,
            } => match event {
                RefreshEvent::Resized(Ok(_)) => Ok(
                    RefreshState::AddSink {
                        sink_schema,
                        block_name_offset,
                        data_operator,
                        write_settings,
                    },
                ),
                RefreshEvent::Resized(Err(error)) => Err(ErrorCode::Engine(error)),
                _ => Err(ErrorCode::UnexpectedEvent),
            },
            RefreshState::AddSink { .. } => match event {
                RefreshEvent::SinkAdded(Ok(_)) => Ok(RefreshState::Done),
                RefreshEvent::SinkAdded(Err(error)) => Err(ErrorCode::Engine(error)),
                _ => Err(ErrorCode::UnexpectedEvent),
            },
            RefreshState::Done => Err(ErrorCode::UnexpectedEvent),
        }
    }
}

impl<'a, Q: QueryTypes> RefreshRun<'a, Q> {
    /// The engine call that the refresh waits for.
    pub fn action(&self) -> (res: RefreshAction<'_, Q>)
        ensures
            res@ == action_of(self.interpreter(), self@),
            res matches RefreshAction::DataType { scalar } ==> {
                &&& self@ matches StateModel::DataType { fields }
                &&& fields.len() < self.interpreter().plan.query_plan.items().len()
                &&& *scalar
                    == self.interpreter().plan.query_plan.items()[fields.len() as int].scalar
            },
            res matches RefreshAction::AddSink {
                data_operator,
                index_id,
                write_settings,
                sink_schema,
                block_name_offset,
                user_defined_block_name,
            } ==> {
                &&& index_id == self.interpreter().plan.index_id
                &&& user_defined_block_name == self.interpreter().plan.user_defined_block_name
                &&& self@ == (StateModel::<Q>::AddSink {
                    sink_schema: *sink_schema,
                    offset: block_name_offset,
                    data_operator: *data_operator,
                    write_settings: *write_settings,
                })
            },
    {
        proof {
            use_type_invariant(self);
        }
        self.interpreter.action_in(&self.state)
    }

    /// Takes the answer to the engine call that the refresh waits for, and moves on.
    pub fn step(self, event: RefreshEvent<Q>) -> (res: Result<
        RefreshRun<'a, Q>,
        ErrorCode<Q::Error>,
    >)
        ensures
            run_is(res, self.interpreter(), next(self.interpreter().plan, self@, event)),
            match res {
                Ok(run) => {
                    &&& run.interpreter() == self.interpreter()
                    &&& next(self.interpreter().plan, self@, event) == Ok::<
                        StateModel<Q>,
                        ErrorModel<Q::Error>,
                    >(run@)
                },
                Err(error) => next(self.interpreter().plan, self@, event) == Err::<
                    StateModel<Q>,
                    ErrorModel<Q::Error>,
                >(error@),
            },
    {
        proof {
            use_type_invariant(&self);
        }
        let interpreter = self.interpreter;
        match interpreter.step_from(self.state, event) {
            Ok(state) => Ok(RefreshRun { interpreter, state }),
            Err(error) => Err(error),
        }
    }
}

} // verus!
