//! What holds of a refresh as a whole.
use crate::physical_plan::read_sources;
use crate::refresh::{
    action_of, block_name_location, consistent, is_output, lemma_states_consistent,
    locates_block_name, next, opening, with_fields, ActionModel, OutcomeModel, RefreshAction,
    RefreshEvent, RefreshIndexInterpreter, StateModel,
};
use crate::refresh_plan::{
    block_name_index, ErrorModel, Plan, QueryTypes, RefreshIndexPlan, RelOperator,
};
use crate::schema::{
    all_found, has_field, index_of_field, lemma_index_found, lemma_projection, lemma_schema_model,
    projection_of, DataSchema, FieldModel,
};
use crate::text::{decimal_text, lemma_decimal_text_injective};
use vstd::prelude::*;

verus! {

/// `event` is an answer to the engine call that `state` waits for.
pub open spec fn awaits<Q: QueryTypes>(state: StateModel<Q>, event: RefreshEvent<Q>) -> bool {
    match state {
        StateModel::DataType { .. } => event is DataType,
        StateModel::BuildPhysicalPlan { .. } => event is PhysicalPlan,
        StateModel::ReplaceReadSource { .. } => event is ReadSourceReplaced,
        StateModel::BuildPipeline { .. } => event is PipelineBuilt,
        StateModel::OutputSchema { .. } => event is OutputSchema,
        StateModel::FunctionContext { .. } => event is FunctionContext,
        StateModel::AddTransform { .. } => event is TransformAdded,
        StateModel::InferTableSchema { .. } => event is TableSchema,
        StateModel::DropColumn { .. } => event is ColumnDropped,
        StateModel::DataOperator { .. } => event is DataOperator,
        StateModel::FuseTable { .. } => event is WriteSettings,
        StateModel::Resize { .. } => event is Resized,
        StateModel::AddSink { .. } => event is SinkAdded,
        StateModel::Done => false,
    }
}

/// The error that a failed engine call gave.
pub open spec fn error_of<Q: QueryTypes>(event: RefreshEvent<Q>) -> Option<Q::Error> {
    match event {
        RefreshEvent::DataType(Err(error)) => Some(error),
        RefreshEvent::PhysicalPlan(Err(error)) => Some(error),
        RefreshEvent::ReadSourceReplaced(Err(error)) => Some(error),
        RefreshEvent::PipelineBuilt(Err(error)) => Some(error),
        RefreshEvent::OutputSchema(Err(error)) => Some(error),
        RefreshEvent::FunctionContext(Err(error)) => Some(error),
        RefreshEvent::TransformAdded(Err(error)) => Some(error),
        RefreshEvent::TableSchema(Err(error)) => Some(error),
        RefreshEvent::ColumnDropped(Err(error)) => Some(error),
        RefreshEvent::DataOperator(Err(error)) => Some(error),
        RefreshEvent::WriteSettings(Err(error)) => Some(error),
        RefreshEvent::Resized(Err(error)) => Some(error),
        RefreshEvent::SinkAdded(Err(error)) => Some(error),
        _ => None,
    }
}

/// The error of a failed engine call ends the refresh, whichever call it is, and comes back
/// unchanged; an engine error comes back for no other reason.
pub proof fn lemma_engine_error_passes_through<Q: QueryTypes>(
    plan: RefreshIndexPlan<Q>,
    state: StateModel<Q>,
    event: RefreshEvent<Q>,
    error: Q::Error,
)
    ensures
        next(plan, state, event) == Err::<StateModel<Q>, ErrorModel<Q::Error>>(
            ErrorModel::Engine(error),
        ) <==> awaits(state, event) && error_of(event) == Some(error),
{
}

/// An answer that was not asked for is refused, and nothing else is refused as such.
pub proof fn lemma_unexpected_event<Q: QueryTypes>(
    plan: RefreshIndexPlan<Q>,
    state: StateModel<Q>,
    event: RefreshEvent<Q>,
)
    ensures
        next(plan, state, event) == Err::<StateModel<Q>, ErrorModel<Q::Error>>(
            ErrorModel::UnexpectedEvent,
        ) <==> !awaits(state, event),
{
}

/// The number of engine calls from the table schema on.
pub open spec fn sink_calls<Q: QueryTypes>(plan: RefreshIndexPlan<Q>) -> int {
    if plan.user_defined_block_name {
        5
    } else {
        6
    }
}

/// The number of engine calls that a complete refresh makes.
pub open spec fn total_calls<Q: QueryTypes>(plan: RefreshIndexPlan<Q>) -> int {
    plan.query_plan.items().len() + 6 + sink_calls(plan)
}

/// The number of engine calls that are still to come.
pub open spec fn calls_left<Q: QueryTypes>(plan: RefreshIndexPlan<Q>, state: StateModel<Q>) -> int {
    match state {
        StateModel::DataType { fields } => total_calls(plan) - fields.len(),
        StateModel::BuildPhysicalPlan { .. } => sink_calls(plan) + 6,
        StateModel::ReplaceReadSource { .. } => sink_calls(plan) + 5,
        StateModel::BuildPipeline { .. } => sink_calls(plan) + 4,
        StateModel::OutputSchema { .. } => sink_calls(plan) + 3,
        StateModel::FunctionContext { .. } => sink_calls(plan) + 2,
        StateModel::AddTransform { .. } => sink_calls(plan) + 1,
        StateModel::InferTableSchema { .. } => sink_calls(plan),
        StateModel::DropColumn { .. } => 5,
        StateModel::DataOperator { .. } => 4,
        StateModel::FuseTable { .. } => 3,
        StateModel::Resize { .. } => 2,
        StateModel::AddSink { .. } => 1,
        StateModel::Done => 0,
    }
}

/// Each step that is not refused brings the refresh one engine call closer to its end, and only
/// the end has no call left.
pub proof fn lemma_step_makes_progress<Q: QueryTypes>(
    plan: RefreshIndexPlan<Q>,
    state: StateModel<Q>,
    event: RefreshEvent<Q>,
)
    requires
        consistent(plan, state),
    ensures
        opening(plan) matches Ok(first) ==> calls_left(plan, first) == total_calls(plan),
        calls_left(plan, state) >= 0,
        calls_left(plan, state) == 0 <==> state is Done,
        next(plan, state, event) matches Ok(after) ==> calls_left(plan, after) == calls_left(
            plan,
            state,
        ) - 1,
{
}

/// Where a refresh in `state` ends up on the answers `events`, one after the other.
pub open spec fn run<Q: QueryTypes>(
    plan: RefreshIndexPlan<Q>,
    state: StateModel<Q>,
    events: Seq<RefreshEvent<Q>>,
) -> OutcomeModel<Q>
    decreases events.len(),
{
    if events.len() == 0 {
        Ok(state)
    } else {
        match next(plan, state, events[0]) {
            Ok(after) => run(plan, after, events.drop_first()),
            Err(error) => Err(error),
        }
    }
}

/// Where a refresh of `plan` ends up on the answers `events`.
pub open spec fn refresh<Q: QueryTypes>(
    plan: RefreshIndexPlan<Q>,
    events: Seq<RefreshEvent<Q>>,
) -> OutcomeModel<Q> {
    match opening(plan) {
        Ok(first) => run(plan, first, events),
        Err(error) => Err(error),
    }
}

/// The first `n` answers give the types of the first `n` items.
pub open spec fn types_known<Q: QueryTypes>(events: Seq<RefreshEvent<Q>>, n: int) -> bool {
    forall|k: int|
        0 <= k < n ==> #[trigger] events[k] is DataType && events[k]->DataType_0 is Ok
}

/// The answers from `at` on are those of engine calls that succeed, in the order of the calls from
/// the physical plan to the sink.
pub open spec fn calls_succeed<Q: QueryTypes>(
    plan: RefreshIndexPlan<Q>,
    events: Seq<RefreshEvent<Q>>,
    at: int,
) -> bool {
    &&& events[at] is PhysicalPlan && events[at]->PhysicalPlan_0 is Ok
    &&& events[at + 1] is ReadSourceReplaced && events[at + 1]->ReadSourceReplaced_0 is Ok
    &&& events[at + 2] is PipelineBuilt && events[at + 2]->PipelineBuilt_0 is Ok
    &&& events[at + 3] is OutputSchema && events[at + 3]->OutputSchema_0 is Ok
    &&& events[at + 4] is FunctionContext && events[at + 4]->FunctionContext_0 is Ok
    &&& events[at + 5] is TransformAdded && events[at + 5]->TransformAdded_0 is Ok
    &&& events[at + 6] is TableSchema && events[at + 6]->TableSchema_0 is Ok
    &&& if plan.user_defined_block_name {
        sink_succeeds(events, at + 7)
    } else {
        &&& events[at + 7] is ColumnDropped
        &&& events[at + 7]->ColumnDropped_0 is Ok
        &&& sink_succeeds(events, at + 8)
    }
}

/// The answers from `at` on are those of engine calls that succeed, from the data operator to the
/// sink.
pub open spec fn sink_succeeds<Q: QueryTypes>(events: Seq<RefreshEvent<Q>>, at: int) -> bool {
    &&& events[at] is DataOperator && events[at]->DataOperator_0 is Ok
    &&& events[at + 1] is WriteSettings && events[at + 1]->WriteSettings_0 is Ok
    &&& events[at + 2] is Resized && events[at + 2]->Resized_0 is Ok
    &&& events[at + 3] is SinkAdded && events[at + 3]->SinkAdded_0 is Ok
}

/// Every item of the query is a column of the input, under its number.
pub open spec fn items_found<Q: QueryTypes>(
    plan: RefreshIndexPlan<Q>,
    input: Seq<FieldModel<Q::DataType>>,
) -> bool {
    forall|k: int|
        0 <= k < plan.query_plan.items().len() ==> has_field(
            input,
            decimal_text((#[trigger] plan.query_plan.items()[k]).index as nat),
        )
}

/// The query selects the block name column, and one of its items computes that column.
pub open spec fn computes_block_name<Q: QueryTypes>(plan: RefreshIndexPlan<Q>) -> bool {
    let index = block_name_index(plan.query_plan.select_columns());
    &&& index is Some
    &&& exists|k: int|
        0 <= k < plan.query_plan.items().len() && (#[trigger] plan.query_plan.items()[k]).index
            == index->0
}

/// What it takes for a refresh of `plan` to complete on the answers `events`.
pub open spec fn can_complete<Q: QueryTypes>(
    plan: RefreshIndexPlan<Q>,
    events: Seq<RefreshEvent<Q>>,
) -> bool {
    let n = plan.query_plan.items().len() as int;
    &&& plan.query_plan.evaluates_scalars()
    &&& computes_block_name(plan)
    &&& events.len() == total_calls(plan)
    &&& types_known(events, n)
    &&& calls_succeed(plan, events, n)
    &&& read_sources(events[n]->PhysicalPlan_0->Ok_0.1).len() == 1
    &&& items_found(plan, events[n + 3]->OutputSchema_0->Ok_0@)
}

proof fn lemma_run_types<Q: QueryTypes>(
    plan: RefreshIndexPlan<Q>,
    fields: Seq<FieldModel<Q::DataType>>,
    events: Seq<RefreshEvent<Q>>,
)
    requires
        consistent(plan, StateModel::DataType { fields }),
    ensures
        run(plan, StateModel::DataType { fields }, events) matches Ok(after) && after !is DataType
            ==> {
            let n = plan.query_plan.items().len() - fields.len();
            &&& events.len() >= n
            &&& types_known(events, n)
        },
        ({
            let n = plan.query_plan.items().len() - fields.len();
            events.len() >= n && types_known(events, n) ==> exists|
                output: Seq<FieldModel<Q::DataType>>,
            |
                is_output(plan, output) && run(plan, StateModel::DataType { fields }, events)
                    == #[trigger] run(
                    plan,
                    StateModel::BuildPhysicalPlan { output },
                    events.skip(n),
                )
        }),
    decreases plan.query_plan.items().len() - fields.len(),
{
    let state = StateModel::<Q>::DataType { fields };
    let n = plan.query_plan.items().len() - fields.len();
    if events.len() > 0 {
        lemma_states_consistent(plan, state, events[0]);
        let rest = events.drop_first();
        if next(plan, state, events[0]) is Ok {
            let after = next(plan, state, events[0])->Ok_0;
            match after {
                StateModel::DataType { fields: longer } => {
                    lemma_run_types(plan, longer, rest);
                    if events.len() >= n {
                        assert(rest.skip(n - 1) =~= events.skip(n));
                    }
                    if rest.len() >= n - 1 && types_known(rest, n - 1) {
                        assert forall|k: int| 0 <= k < n implies #[trigger] events[k] is DataType
                            && events[k]->DataType_0 is Ok by {
                            if k > 0 {
                                assert(events[k] == rest[k - 1]);
                            }
                        }
                    }
                    if events.len() >= n && types_known(events, n) {
                        assert forall|k: int| 0 <= k < n - 1 implies #[trigger] rest[k] is DataType
                            && rest[k]->DataType_0 is Ok by {
                            assert(rest[k] == events[k + 1]);
                        }
                    }
                },
                StateModel::BuildPhysicalPlan { output } => {
                    assert(n == 1);
                    assert(events.skip(1) =~= rest);
                    assert(is_output(plan, output));
                    assert(run(plan, state, events) == run(
                        plan,
                        StateModel::BuildPhysicalPlan { output },
                        events.skip(n),
                    ));
                },
                _ => {},
            }
        } else {
            assert(!(events[0] is DataType && events[0]->DataType_0 is Ok));
        }
    }
}

/// A run takes one answer for each call that it makes.
proof fn lemma_run_length<Q: QueryTypes>(
    plan: RefreshIndexPlan<Q>,
    state: StateModel<Q>,
    events: Seq<RefreshEvent<Q>>,
)
    requires
        consistent(plan, state),
    ensures
        run(plan, state, events) matches Ok(after) ==> {
            &&& consistent(plan, after)
            &&& events.len() == calls_left(plan, state) - calls_left(plan, after)
        },
    decreases events.len(),
{
    if events.len() > 0 {
        lemma_states_consistent(plan, state, events[0]);
        lemma_step_makes_progress(plan, state, events[0]);
        if let Ok(after) = next(plan, state, events[0]) {
            lemma_run_length(plan, after, events.drop_first());
        }
    }
}

/// One step of a run that has taken `i` answers.
proof fn lemma_run_step<Q: QueryTypes>(
    plan: RefreshIndexPlan<Q>,
    state: StateModel<Q>,
    events: Seq<RefreshEvent<Q>>,
    i: int,
)
    requires
        0 <= i < events.len(),
    ensures
        run(plan, state, events.skip(i)) == match next(plan, state, events[i]) {
            Ok(after) => run(plan, after, events.skip(i + 1)),
            Err(error) => Err(error),
        },
{
    assert(events.skip(i)[0] == events[i]);
    assert(events.skip(i).drop_first() =~= events.skip(i + 1));
}

/// A run from the data operator on completes if and only if its calls succeed.
proof fn lemma_run_sink<Q: QueryTypes>(
    plan: RefreshIndexPlan<Q>,
    sink_schema: Q::TableSchema,
    offset: usize,
    events: Seq<RefreshEvent<Q>>,
    at: int,
)
    requires
        0 <= at,
        events.len() == at + 4,
    ensures
        run(plan, StateModel::DataOperator { sink_schema, offset }, events.skip(at)) == Ok::<
            StateModel<Q>,
            ErrorModel<Q::Error>,
        >(StateModel::Done) <==> sink_succeeds(events, at),
{
    let state = StateModel::<Q>::DataOperator { sink_schema, offset };
    lemma_run_step(plan, state, events, at);
    if let Ok(fuse_table) = next(plan, state, events[at]) {
        lemma_run_step(plan, fuse_table, events, at + 1);
        if let Ok(resize) = next(plan, fuse_table, events[at + 1]) {
            lemma_run_step(plan, resize, events, at + 2);
            if let Ok(add_sink) = next(plan, resize, events[at + 2]) {
                lemma_run_step(plan, add_sink, events, at + 3);
                assert(events.skip(at + 4).len() == 0);
            }
        }
    }
}

/// A run from the table schema on completes if and only if its calls succeed.
proof fn lemma_run_table_schema<Q: QueryTypes>(
    plan: RefreshIndexPlan<Q>,
    state: StateModel<Q>,
    events: Seq<RefreshEvent<Q>>,
    at: int,
)
    requires
        0 <= at,
        state is InferTableSchema,
        events.len() == at + sink_calls(plan),
    ensures
        run(plan, state, events.skip(at)) == Ok::<StateModel<Q>, ErrorModel<Q::Error>>(
            StateModel::Done,
        ) <==> {
            &&& events[at] is TableSchema && events[at]->TableSchema_0 is Ok
            &&& if plan.user_defined_block_name {
                sink_succeeds(events, at + 1)
            } else {
                &&& events[at + 1] is ColumnDropped
                &&& events[at + 1]->ColumnDropped_0 is Ok
                &&& sink_succeeds(events, at + 2)
            }
        },
{
    lemma_run_step(plan, state, events, at);
    match next(plan, state, events[at]) {
        Ok(StateModel::DataOperator { sink_schema, offset }) => {
            lemma_run_sink(plan, sink_schema, offset, events, at + 1);
        },
        Ok(StateModel::DropColumn { table_schema, column, offset }) => {
            let drop = StateModel::<Q>::DropColumn { table_schema, column, offset };
            lemma_run_step(plan, drop, events, at + 1);
            if let Ok(StateModel::DataOperator { sink_schema, offset }) = next(
                plan,
                drop,
                events[at + 1],
            ) {
                lemma_run_sink(plan, sink_schema, offset, events, at + 2);
            }
        },
        _ => {},
    }
}

/// The block name column is located in the output exactly when the query computes it.
proof fn lemma_block_name_computed<Q: QueryTypes>(
    plan: RefreshIndexPlan<Q>,
    output: Seq<FieldModel<Q::DataType>>,
)
    requires
        is_output(plan, output),
    ensures
        block_name_location(plan, output) is Ok <==> computes_block_name(plan),
        block_name_location(plan, output) matches Ok(state) ==> state is InferTableSchema,
{
    let items = plan.query_plan.items();
    if let Some(index) = block_name_index(plan.query_plan.select_columns()) {
        let column = decimal_text(index as nat);
        if has_field(output, column) {
            let k = choose|k: int| 0 <= k < output.len() && (#[trigger] output[k]).name == column;
            assert(output[k].name == decimal_text(items[k].index as nat));
            lemma_decimal_text_injective(items[k].index as nat, index as nat);
            assert(items[k].index == index);
        }
        if computes_block_name(plan) {
            let k = choose|k: int| 0 <= k < items.len() && (#[trigger] items[k]).index == index;
            assert(output[k].name == column);
        }
    }
}

/// The output can be projected from the input exactly when the input has all items.
proof fn lemma_projection_found<Q: QueryTypes>(
    plan: RefreshIndexPlan<Q>,
    output: Seq<FieldModel<Q::DataType>>,
    input: Seq<FieldModel<Q::DataType>>,
)
    requires
        is_output(plan, output),
    ensures
        projection_of(output, input) is Ok <==> items_found(plan, input),
{
    let items = plan.query_plan.items();
    if all_found(output, input) {
        assert forall|k: int| 0 <= k < items.len() implies has_field(
            input,
            decimal_text((#[trigger] items[k]).index as nat),
        ) by {
            assert(output[k].name == decimal_text(items[k].index as nat));
        }
    }
    if items_found(plan, input) {
        assert forall|k: int| 0 <= k < output.len() implies has_field(
            input,
            (#[trigger] output[k]).name,
        ) by {
            assert(output[k].name == decimal_text(items[k].index as nat));
        }
    }
}

/// A run from the physical plan on completes if and only if its calls succeed, the plan reads one
/// source, the input has all items and the block name is computed.
proof fn lemma_run_plan<Q: QueryTypes>(
    plan: RefreshIndexPlan<Q>,
    output: Seq<FieldModel<Q::DataType>>,
    events: Seq<RefreshEvent<Q>>,
    at: int,
)
    requires
        0 <= at,
        is_output(plan, output),
        events.len() == at + 6 + sink_calls(plan),
    ensures
        run(plan, StateModel::BuildPhysicalPlan { output }, events.skip(at)) == Ok::<
            StateModel<Q>,
            ErrorModel<Q::Error>,
        >(StateModel::Done) <==> {
            &&& computes_block_name(plan)
            &&& calls_succeed(plan, events, at)
            &&& read_sources(events[at]->PhysicalPlan_0->Ok_0.1).len() == 1
            &&& items_found(plan, events[at + 3]->OutputSchema_0->Ok_0@)
        },
{
    let s0 = StateModel::<Q>::BuildPhysicalPlan { output };
    lemma_run_step(plan, s0, events, at);
    if let Ok(s1) = next(plan, s0, events[at]) {
        lemma_run_step(plan, s1, events, at + 1);
        if let Ok(s2) = next(plan, s1, events[at + 1]) {
            lemma_run_step(plan, s2, events, at + 2);
            if let Ok(s3) = next(plan, s2, events[at + 2]) {
                lemma_run_step(plan, s3, events, at + 3);
                lemma_projection_found(plan, output, events[at + 3]->OutputSchema_0->Ok_0@);
                if let Ok(s4) = next(plan, s3, events[at + 3]) {
                    lemma_run_step(plan, s4, events, at + 4);
                    if let Ok(s5) = next(plan, s4, events[at + 4]) {
                        lemma_run_step(plan, s5, events, at + 5);
                        lemma_block_name_computed(plan, output);
                        if let Ok(s6) = next(plan, s5, events[at + 5]) {
                            lemma_run_table_schema(plan, s6, events, at + 6);
                        }
                    }
                }
            }
        }
    }
}

/// A refresh completes on the answers `events` if and only if the plan is a query that evaluates
/// scalars, the block name column is selected and computed, every engine call succeeds in its
/// turn, the physical plan has exactly one table scan, and its output has every item.
pub proof fn lemma_refresh_completes<Q: QueryTypes>(
    plan: RefreshIndexPlan<Q>,
    events: Seq<RefreshEvent<Q>>,
)
    ensures
        refresh(plan, events) == Ok::<StateModel<Q>, ErrorModel<Q::Error>>(StateModel::Done)
            <==> can_complete(plan, events),
{
    if plan.query_plan.evaluates_scalars() {
        let n = plan.query_plan.items().len() as int;
        let first = opening(plan)->Ok_0;
        if events.len() > 0 {
            lemma_states_consistent(plan, first, events[0]);
            lemma_step_makes_progress(plan, first, events[0]);
        }
        lemma_run_length(plan, first, events);
        if events.len() == total_calls(plan) {
            if n > 0 {
                lemma_run_types(plan, Seq::empty(), events);
                if types_known(events, n) {
                    let output = choose|output: Seq<FieldModel<Q::DataType>>|
                        is_output(plan, output) && run(plan, first, events) == #[trigger] run(
                            plan,
                            StateModel::BuildPhysicalPlan { output },
                            events.skip(n),
                        );
                    lemma_run_plan(plan, output, events, n);
                }
            } else {
                assert(events.skip(0) =~= events);
                lemma_run_plan(plan, Seq::empty(), events, 0);
            }
        }
    }
}

/// The sink finds the block name where the offset says: in a block that went through the
/// projection, the column at the offset is the input column that goes by the number of the block
/// name column.
pub proof fn lemma_offset_finds_block_name<Q: QueryTypes>(
    plan: RefreshIndexPlan<Q>,
    output: Seq<FieldModel<Q::DataType>>,
    input: Seq<FieldModel<Q::DataType>>,
    projection: Seq<usize>,
    column: Seq<char>,
    offset: usize,
)
    requires
        output.len() <= usize::MAX,
        input.len() <= usize::MAX,
        projection_of(output, input) == Ok::<Seq<usize>, Seq<char>>(projection),
        block_name_location(plan, output) == Ok::<StateModel<Q>, ErrorModel<Q::Error>>(
            StateModel::InferTableSchema { output, column, offset },
        ),
    ensures
        offset < projection.len(),
        projection[offset as int] < input.len(),
        input[projection[offset as int] as int].name == column,
        column == decimal_text(
            block_name_index(plan.query_plan.select_columns())->0 as nat,
        ),
{
    lemma_index_found(output, column);
    assert(has_field(input, output[offset as int].name));
    lemma_index_found(input, output[offset as int].name);
    assert(index_of_field(input, column)->0 == projection[offset as int]);
}

/// The answer that gives the schema of the sink: the inferred table schema as it is where the
/// block name is user-defined, and the one without the block name column elsewhere.
pub open spec fn sink_schema_answer<Q: QueryTypes>(
    plan: RefreshIndexPlan<Q>,
    events: Seq<RefreshEvent<Q>>,
) -> Result<Q::TableSchema, Q::Error> {
    let n = plan.query_plan.items().len() as int;
    if plan.user_defined_block_name {
        events[n + 6]->TableSchema_0
    } else {
        events[n + 7]->ColumnDropped_0
    }
}

/// What a run from the data operator on hands to the sink.
proof fn lemma_sink_from_operator<Q: QueryTypes>(
    plan: RefreshIndexPlan<Q>,
    state: StateModel<Q>,
    events: Seq<RefreshEvent<Q>>,
    at: int,
)
    requires
        0 <= at,
        events.len() == at + 3,
        state is DataOperator,
        run(plan, state, events.skip(at)) is Ok,
    ensures
        events[at] is DataOperator && events[at]->DataOperator_0 is Ok,
        events[at + 1] is WriteSettings && events[at + 1]->WriteSettings_0 is Ok,
        run(plan, state, events.skip(at))->Ok_0 == (StateModel::<Q>::AddSink {
            sink_schema: state->DataOperator_sink_schema,
            offset: state->DataOperator_offset,
            data_operator: events[at]->DataOperator_0->Ok_0,
            write_settings: events[at + 1]->WriteSettings_0->Ok_0,
        }),
{
    lemma_run_step(plan, state, events, at);
    let fuse_table = next(plan, state, events[at])->Ok_0;
    lemma_run_step(plan, fuse_table, events, at + 1);
    let resize = next(plan, fuse_table, events[at + 1])->Ok_0;
    lemma_run_step(plan, resize, events, at + 2);
    assert(events.skip(at + 3).len() == 0);
}

/// What a run from the table schema on hands to the sink.
proof fn lemma_sink_from_table_schema<Q: QueryTypes>(
    plan: RefreshIndexPlan<Q>,
    state: StateModel<Q>,
    events: Seq<RefreshEvent<Q>>,
    at: int,
    sink: StateModel<Q>,
)
    requires
        0 <= at,
        events.len() == at + sink_calls(plan) - 1,
        state is InferTableSchema,
        run(plan, state, events.skip(at)) == Ok::<StateModel<Q>, ErrorModel<Q::Error>>(sink),
    ensures
        events[at] is TableSchema && events[at]->TableSchema_0 is Ok,
        !plan.user_defined_block_name ==> events[at + 1] is ColumnDropped
            && events[at + 1]->ColumnDropped_0 is Ok,
        sink is AddSink,
        sink->AddSink_sink_schema == if plan.user_defined_block_name {
            events[at]->TableSchema_0->Ok_0
        } else {
            events[at + 1]->ColumnDropped_0->Ok_0
        },
        events[events.len() - 3] == RefreshEvent::<Q>::DataOperator(
            Ok(sink->AddSink_data_operator),
        ),
        events[events.len() - 2] == RefreshEvent::<Q>::WriteSettings(
            Ok(sink->AddSink_write_settings),
        ),
{
    lemma_run_step(plan, state, events, at);
    let after = next(plan, state, events[at])->Ok_0;
    if plan.user_defined_block_name {
        lemma_sink_from_operator(plan, after, events, at + 1);
    } else {
        lemma_run_step(plan, after, events, at + 1);
        let dropped = next(plan, after, events[at + 1])->Ok_0;
        lemma_sink_from_operator(plan, dropped, events, at + 2);
    }
}

/// The sink is added last, and it is given what the engine answered on the way: the inferred
/// schema, without the block name column unless the block name is user-defined, the data operator
/// and the write settings; and the position of the item that computes the block name column.
pub proof fn lemma_sink_inputs<Q: QueryTypes>(
    plan: RefreshIndexPlan<Q>,
    events: Seq<RefreshEvent<Q>>,
    sink_schema: Q::TableSchema,
    offset: usize,
    data_operator: Q::DataOperator,
    write_settings: Q::WriteSettings,
)
    requires
        refresh(plan, events) == Ok::<StateModel<Q>, ErrorModel<Q::Error>>(
            StateModel::AddSink { sink_schema, offset, data_operator, write_settings },
        ),
    ensures
        events.len() == total_calls(plan) - 1,
        sink_schema_answer(plan, events) == Ok::<Q::TableSchema, Q::Error>(sink_schema),
        events[events.len() - 3] == RefreshEvent::<Q>::DataOperator(Ok(data_operator)),
        events[events.len() - 2] == RefreshEvent::<Q>::WriteSettings(Ok(write_settings)),
        locates_block_name(plan, offset),
{
    let n = plan.query_plan.items().len() as int;
    let first = opening(plan)->Ok_0;
    lemma_states_consistent(plan, first, events[0]);
    lemma_step_makes_progress(plan, first, events[0]);
    lemma_run_length(plan, first, events);
    let output = if n > 0 {
        lemma_run_types(plan, Seq::empty(), events);
        choose|output: Seq<FieldModel<Q::DataType>>|
            is_output(plan, output) && run(plan, first, events) == #[trigger] run(
                plan,
                StateModel::BuildPhysicalPlan { output },
                events.skip(n),
            )
    } else {
        assert(events.skip(0) =~= events);
        Seq::empty()
    };
    let s0 = StateModel::<Q>::BuildPhysicalPlan { output };
    lemma_run_step(plan, s0, events, n);
    let s1 = next(plan, s0, events[n])->Ok_0;
    lemma_run_step(plan, s1, events, n + 1);
    let s2 = next(plan, s1, events[n + 1])->Ok_0;
    lemma_run_step(plan, s2, events, n + 2);
    let s3 = next(plan, s2, events[n + 2])->Ok_0;
    lemma_run_step(plan, s3, events, n + 3);
    let s4 = next(plan, s3, events[n + 3])->Ok_0;
    lemma_run_step(plan, s4, events, n + 4);
    let s5 = next(plan, s4, events[n + 4])->Ok_0;
    lemma_run_step(plan, s5, events, n + 5);
    lemma_block_name_computed(plan, output);
    let s6 = next(plan, s5, events[n + 5])->Ok_0;
    lemma_sink_from_table_schema(
        plan,
        s6,
        events,
        n + 6,
        StateModel::AddSink { sink_schema, offset, data_operator, write_settings },
    );
}

/// One more answer is one more step.
proof fn lemma_run_push<Q: QueryTypes>(
    plan: RefreshIndexPlan<Q>,
    state: StateModel<Q>,
    events: Seq<RefreshEvent<Q>>,
    i: int,
)
    requires
        0 <= i < events.len(),
    ensures
        run(plan, state, events.take(i + 1)) == match run(plan, state, events.take(i)) {
            Ok(after) => next(plan, after, events[i]),
            Err(error) => Err(error),
        },
    decreases i,
{
    let rest = events.drop_first();
    assert(events.take(i + 1)[0] == events[0]);
    assert(events.take(i + 1).drop_first() =~= rest.take(i));
    if i == 0 {
        reveal_with_fuel(run, 2);
    } else {
        assert(events.take(i)[0] == events[0]);
        assert(events.take(i).drop_first() =~= rest.take(i - 1));
        if let Ok(after) = next(plan, state, events[0]) {
            lemma_run_push(plan, after, rest, i - 1);
        }
    }
}

/// The output of a query whose types the first answers give: its fields are the items in order,
/// each named by its number and of the type that was answered for it.
pub open spec fn output_of<Q: QueryTypes>(
    plan: RefreshIndexPlan<Q>,
    events: Seq<RefreshEvent<Q>>,
) -> Seq<FieldModel<Q::DataType>> {
    let items = plan.query_plan.items();
    Seq::new(
        items.len(),
        |k: int|
            FieldModel {
                name: decimal_text(items[k].index as nat),
                data_type: events[k]->DataType_0->Ok_0,
            },
    )
}

/// The fields that are known after the first `k` answers.
proof fn lemma_output_grows<Q: QueryTypes>(
    plan: RefreshIndexPlan<Q>,
    events: Seq<RefreshEvent<Q>>,
    k: int,
)
    requires
        plan.query_plan.evaluates_scalars(),
        0 <= k <= plan.query_plan.items().len() <= events.len(),
        types_known(events, k),
    ensures
        refresh(plan, events.take(k)) == Ok::<StateModel<Q>, ErrorModel<Q::Error>>(
            with_fields(plan, output_of(plan, events).take(k)),
        ),
    decreases k,
{
    let output = output_of(plan, events);
    if k == 0 {
        assert(output.take(0) =~= Seq::empty());
        assert(events.take(0).len() == 0);
    } else {
        lemma_output_grows(plan, events, k - 1);
        lemma_run_push(plan, opening(plan)->Ok_0, events, k - 1);
        assert(events[k - 1] is DataType && events[k - 1]->DataType_0 is Ok);
        assert(output.take(k) =~= output.take(k - 1).push(output[k - 1]));
    }
}

/// A query has no more items, and a schema no more fields, than a machine word counts.
proof fn lemma_sizes_fit<Q: QueryTypes>(
    plan: RefreshIndexPlan<Q>,
    schema: DataSchema<Q::DataType>,
)
    requires
        plan.query_plan.evaluates_scalars(),
    ensures
        plan.query_plan.items().len() <= usize::MAX,
        schema@.len() <= usize::MAX,
{
    assert(schema@.len() == schema.fields.len());
    if let Plan::Query { s_expr, .. } = plan.query_plan {
        if let RelOperator::EvalScalar(eval) = s_expr.plan {
            assert(eval.items.len() == plan.query_plan.items().len());
        }
    }
}

/// What a refresh that completes does on the way. The types of the items are asked for one by one
/// and make up the output. Everything after is about that same output: the plan is made to read
/// its one source, the projection finds each field of the output in what the plan puts out, and
/// the table schema is inferred from the output.
pub proof fn lemma_states_on_the_way<Q: QueryTypes>(
    plan: RefreshIndexPlan<Q>,
    events: Seq<RefreshEvent<Q>>,
    k: int,
)
    requires
        refresh(plan, events) == Ok::<StateModel<Q>, ErrorModel<Q::Error>>(StateModel::Done),
        0 <= k <= plan.query_plan.items().len(),
    ensures
        refresh(plan, events.take(k)) == Ok::<StateModel<Q>, ErrorModel<Q::Error>>(
            with_fields(plan, output_of(plan, events).take(k)),
        ),
        ({
            let n = plan.query_plan.items().len() as int;
            let output = output_of(plan, events);
            let built = events[n]->PhysicalPlan_0->Ok_0;
            let query_plan = events[n + 1]->ReadSourceReplaced_0->Ok_0;
            let input = events[n + 3]->OutputSchema_0->Ok_0@;
            let num_input_columns = input.len() as usize;
            let func_ctx = events[n + 4]->FunctionContext_0->Ok_0;
            let projection = projection_of(output, input)->Ok_0;
            let index = block_name_index(plan.query_plan.select_columns())->0;
            let column = decimal_text(index as nat);
            let offset = index_of_field(output, column)->0 as usize;
            &&& refresh(plan, events.take(n)) == Ok::<StateModel<Q>, ErrorModel<Q::Error>>(
                StateModel::BuildPhysicalPlan { output },
            )
            &&& refresh(plan, events.take(n + 1)) == Ok::<StateModel<Q>, ErrorModel<Q::Error>>(
                StateModel::ReplaceReadSource {
                    output,
                    query_plan: built.0,
                    source: read_sources(built.1)[0],
                },
            )
            &&& refresh(plan, events.take(n + 2)) == Ok::<StateModel<Q>, ErrorModel<Q::Error>>(
                StateModel::BuildPipeline { output, query_plan },
            )
            &&& refresh(plan, events.take(n + 3)) == Ok::<StateModel<Q>, ErrorModel<Q::Error>>(
                StateModel::OutputSchema { output, query_plan },
            )
            &&& projection_of(output, input) is Ok
            &&& num_input_columns == input.len()
            &&& refresh(plan, events.take(n + 4)) == Ok::<StateModel<Q>, ErrorModel<Q::Error>>(
                StateModel::FunctionContext { output, num_input_columns, projection },
            )
            &&& refresh(plan, events.take(n + 5)) == Ok::<StateModel<Q>, ErrorModel<Q::Error>>(
                StateModel::AddTransform { output, num_input_columns, projection, func_ctx },
            )
            &&& block_name_index(plan.query_plan.select_columns()) is Some
            &&& index_of_field(output, column) == Some(offset as int)
            &&& refresh(plan, events.take(n + 6)) == Ok::<StateModel<Q>, ErrorModel<Q::Error>>(
                StateModel::InferTableSchema { output, column, offset },
            )
        }),
{
    let n = plan.query_plan.items().len() as int;
    let output = output_of(plan, events);
    let first = opening(plan)->Ok_0;
    lemma_refresh_completes(plan, events);
    assert(types_known(events, k));
    lemma_output_grows(plan, events, k);
    lemma_output_grows(plan, events, n);
    assert(output.take(n) =~= output);
    assert(is_output(plan, output));
    lemma_run_push(plan, first, events, n);
    lemma_run_push(plan, first, events, n + 1);
    lemma_run_push(plan, first, events, n + 2);
    lemma_run_push(plan, first, events, n + 3);
    lemma_projection_found(plan, output, events[n + 3]->OutputSchema_0->Ok_0@);
    lemma_run_push(plan, first, events, n + 4);
    lemma_run_push(plan, first, events, n + 5);
    lemma_block_name_computed(plan, output);
    lemma_sizes_fit(plan, events[n + 3]->OutputSchema_0->Ok_0);
    lemma_index_found(
        output,
        decimal_text(block_name_index(plan.query_plan.select_columns())->0 as nat),
    );
}

/// The plan with the block name user-defined or not.
pub open spec fn with_block_name<Q: QueryTypes>(
    plan: RefreshIndexPlan<Q>,
    user_defined: bool,
) -> RefreshIndexPlan<Q> {
    RefreshIndexPlan { user_defined_block_name: user_defined, ..plan }
}

/// The state with another schema for the sink, where it has one.
pub open spec fn with_sink_schema<Q: QueryTypes>(
    state: StateModel<Q>,
    sink_schema: Q::TableSchema,
) -> StateModel<Q> {
    match state {
        StateModel::DataOperator { offset, .. } => StateModel::DataOperator { sink_schema, offset },
        StateModel::FuseTable { offset, data_operator, .. } => StateModel::FuseTable {
            sink_schema,
            offset,
            data_operator,
        },
        StateModel::Resize { offset, data_operator, write_settings, .. } => StateModel::Resize {
            sink_schema,
            offset,
            data_operator,
            write_settings,
        },
        StateModel::AddSink { offset, data_operator, write_settings, .. } => StateModel::AddSink {
            sink_schema,
            offset,
            data_operator,
            write_settings,
        },
        _ => state,
    }
}

/// The two outcomes are the same error, or the same state but for the schema of the sink.
pub open spec fn same_but_sink_schema<Q: QueryTypes>(
    kept: OutcomeModel<Q>,
    dropped: OutcomeModel<Q>,
    sink_schema: Q::TableSchema,
) -> bool {
    match (kept, dropped) {
        (Ok(kept), Ok(dropped)) => dropped == with_sink_schema(kept, sink_schema),
        _ => kept == dropped,
    }
}

/// Up to the table schema, it makes no difference whether the block name is user-defined.
proof fn lemma_run_before_schema<Q: QueryTypes>(
    plan: RefreshIndexPlan<Q>,
    state: StateModel<Q>,
    events: Seq<RefreshEvent<Q>>,
)
    requires
        consistent(with_block_name(plan, true), state),
        events.len() <= calls_left(with_block_name(plan, true), state) - 5,
    ensures
        run(with_block_name(plan, true), state, events) == run(
            with_block_name(plan, false),
            state,
            events,
        ),
    decreases events.len(),
{
    let kept = with_block_name(plan, true);
    if events.len() > 0 {
        lemma_states_consistent(kept, state, events[0]);
        lemma_step_makes_progress(kept, state, events[0]);
        if let Ok(after) = next(kept, state, events[0]) {
            lemma_run_before_schema(plan, after, events.drop_first());
        }
    }
}

/// From the data operator on, the schema of the sink is only handed on.
proof fn lemma_run_with_sink_schema<Q: QueryTypes>(
    plan: RefreshIndexPlan<Q>,
    state: StateModel<Q>,
    events: Seq<RefreshEvent<Q>>,
    sink_schema: Q::TableSchema,
)
    requires
        state is DataOperator || state is FuseTable || state is Resize || state is AddSink
            || state is Done,
    ensures
        same_but_sink_schema(
            run(with_block_name(plan, true), state, events),
            run(with_block_name(plan, false), with_sink_schema(state, sink_schema), events),
            sink_schema,
        ),
    decreases events.len(),
{
    if events.len() > 0 {
        if let Ok(after) = next(with_block_name(plan, true), state, events[0]) {
            lemma_run_with_sink_schema(plan, after, events.drop_first(), sink_schema);
        }
    }
}

/// From a state before the table schema on, the column that is dropped is the one difference.
proof fn lemma_run_through_schema<Q: QueryTypes>(
    plan: RefreshIndexPlan<Q>,
    state: StateModel<Q>,
    events: Seq<RefreshEvent<Q>>,
    sink_schema: Q::TableSchema,
)
    requires
        consistent(with_block_name(plan, true), state),
        5 <= calls_left(with_block_name(plan, true), state) <= events.len() + 4,
    ensures
        same_but_sink_schema(
            run(with_block_name(plan, true), state, events),
            run(
                with_block_name(plan, false),
                state,
                events.insert(
                    calls_left(with_block_name(plan, true), state) - 4,
                    RefreshEvent::ColumnDropped(Ok(sink_schema)),
                ),
            ),
            sink_schema,
        ),
    decreases events.len(),
{
    let kept = with_block_name(plan, true);
    let dropped = with_block_name(plan, false);
    let answer = RefreshEvent::<Q>::ColumnDropped(Ok(sink_schema));
    let at = calls_left(kept, state) - 4;
    let rest = events.drop_first();
    let longer = events.insert(at, answer);
    assert(longer[0] == events[0]);
    assert(longer.drop_first() =~= rest.insert(at - 1, answer));
    lemma_states_consistent(kept, state, events[0]);
    lemma_step_makes_progress(kept, state, events[0]);
    if let Ok(after) = next(kept, state, events[0]) {
        if state is InferTableSchema {
            reveal_with_fuel(run, 2);
            assert(rest.insert(0, answer).drop_first() =~= rest);
            lemma_run_with_sink_schema(plan, after, rest, sink_schema);
        } else {
            lemma_run_through_schema(plan, after, rest, sink_schema);
        }
    }
}

/// Two refreshes that differ only in whether the block name is user-defined go the same way. Up to
/// the table schema they pass through the same states, so they read the same source, project the
/// same columns and find the block name at the same offset. After it the one whose block name is
/// not user-defined has a column dropped, and on the same answers otherwise both fail alike, or
/// reach states that are the same but for the schema of the sink.
pub proof fn lemma_block_name_flag<Q: QueryTypes>(
    plan: RefreshIndexPlan<Q>,
    events: Seq<RefreshEvent<Q>>,
    sink_schema: Q::TableSchema,
)
    ensures
        ({
            let kept = with_block_name(plan, true);
            let dropped = with_block_name(plan, false);
            let n = plan.query_plan.items().len() as int;
            &&& events.len() <= n + 6 ==> refresh(kept, events) == refresh(dropped, events)
            &&& events.len() > n + 6 ==> same_but_sink_schema(
                refresh(kept, events),
                refresh(
                    dropped,
                    events.insert(n + 7, RefreshEvent::ColumnDropped(Ok(sink_schema))),
                ),
                sink_schema,
            )
        }),
{
    let kept = with_block_name(plan, true);
    let n = plan.query_plan.items().len() as int;
    if let Ok(first) = opening(kept) {
        if events.len() > 0 {
            lemma_states_consistent(kept, first, events[0]);
            lemma_step_makes_progress(kept, first, events[0]);
        }
        if events.len() <= n + 6 {
            lemma_run_before_schema(plan, first, events);
        } else {
            lemma_run_through_schema(plan, first, events, sink_schema);
        }
    }
}

/// The engine calls of two refreshes that differ only in whether the block name is user-defined are
/// the same but for the sink, and the sink is the same but for its schema and the flag itself: it
/// gets the same data operator, index, write settings and offset.
pub proof fn lemma_block_name_flag_in_actions<Q: QueryTypes>(
    interpreter: RefreshIndexInterpreter<Q>,
    state: StateModel<Q>,
    sink_schema: Q::TableSchema,
)
    ensures
        ({
            let kept = RefreshIndexInterpreter {
                plan: with_block_name(interpreter.plan, true),
                ..interpreter
            };
            let dropped = RefreshIndexInterpreter {
                plan: with_block_name(interpreter.plan, false),
                ..interpreter
            };
            let action = action_of(kept, state);
            action_of(dropped, with_sink_schema(state, sink_schema)) == match action {
                ActionModel::AddSink { data_operator, index_id, write_settings, offset, .. } =>
                    ActionModel::AddSink {
                        data_operator,
                        index_id,
                        write_settings,
                        sink_schema,
                        offset,
                        user_defined_block_name: false,
                    },
                _ => action,
            }
        }),
{
}

/// A refresh opens exactly on a query whose root evaluates scalars, with no type known yet. A
/// statement that is no query, and a query with another root, are each refused in their own words.
pub proof fn lemma_opening<Q: QueryTypes>(plan: RefreshIndexPlan<Q>)
    ensures
        match plan.query_plan {
            Plan::Other => opening(plan) == Err::<StateModel<Q>, ErrorModel<Q::Error>>(
                ErrorModel::SemanticError("Refresh aggregating index encounter Non-Query Plan"@),
            ),
            Plan::Query { s_expr, .. } => match s_expr.plan {
                RelOperator::Other => opening(plan) == Err::<StateModel<Q>, ErrorModel<Q::Error>>(
                    ErrorModel::SemanticError(
                        "The last operator of the plan of aggregate index query should be EvalScalar"@,
                    ),
                ),
                RelOperator::EvalScalar(eval) => if eval.items@.len() == 0 {
                    &&& opening(plan) matches Ok(StateModel::BuildPhysicalPlan { output })
                    &&& output.len() == 0
                } else {
                    &&& opening(plan) matches Ok(StateModel::DataType { fields })
                    &&& fields.len() == 0
                },
            },
        },
{
}

/// A step is refused without fault of the engine in four cases: the physical plan does not have
/// exactly one table scan, its output lacks an item, no selected column is the block name, or no
/// item computes it. Each case has its own error, and none of these errors comes otherwise.
pub proof fn lemma_refused_step<Q: QueryTypes>(
    plan: RefreshIndexPlan<Q>,
    state: StateModel<Q>,
    event: RefreshEvent<Q>,
    text: Seq<char>,
)
    ensures
        next(plan, state, event) == Err::<StateModel<Q>, ErrorModel<Q::Error>>(
            ErrorModel::Internal(text),
        ) <==> {
            ||| {
                &&& state is BuildPhysicalPlan
                &&& event matches RefreshEvent::PhysicalPlan(Ok(built))
                &&& read_sources(built.1).len() != 1
                &&& text
                    == "Invalid source with multiple table scan when do refresh aggregating index"@
            }
            ||| {
                &&& state is AddTransform
                &&& event matches RefreshEvent::TransformAdded(Ok(_))
                &&& block_name_index(plan.query_plan.select_columns()) is None
                &&& text == "_block_name should contained in the input of refresh processor"@
            }
        },
        next(plan, state, event) == Err::<StateModel<Q>, ErrorModel<Q::Error>>(
            ErrorModel::FieldNotFound(text),
        ) <==> {
            ||| {
                &&& state matches StateModel::OutputSchema { output, .. }
                &&& event matches RefreshEvent::OutputSchema(Ok(input))
                &&& projection_of(output, input@) == Err::<Seq<usize>, Seq<char>>(text)
            }
            ||| {
                &&& state matches StateModel::AddTransform { output, .. }
                &&& event matches RefreshEvent::TransformAdded(Ok(_))
                &&& block_name_index(plan.query_plan.select_columns()) matches Some(index)
                &&& text == decimal_text(index as nat)
                &&& index_of_field(output, text) is None
            }
        },
        next(plan, state, event) != Err::<StateModel<Q>, ErrorModel<Q::Error>>(
            ErrorModel::SemanticError(text),
        ),
{
}

/// The fields are the first items in order: each is named by the number of its item, and has the
/// type that was answered in the place of its item.
pub open spec fn typed_by<Q: QueryTypes>(
    fields: Seq<FieldModel<Q::DataType>>,
    plan: RefreshIndexPlan<Q>,
    events: Seq<RefreshEvent<Q>>,
) -> bool {
    &&& fields.len() <= plan.query_plan.items().len()
    &&& fields.len() <= events.len()
    &&& forall|k: int|
        0 <= k < fields.len() ==> {
            &&& (#[trigger] fields[k]).name == decimal_text(
                plan.query_plan.items()[k].index as nat,
            )
            &&& events[k] == RefreshEvent::<Q>::DataType(Ok(fields[k].data_type))
        }
}

/// The item at `offset` is the first that computes the selected block name column, which goes by
/// the name `column`.
pub open spec fn finds_block_name<Q: QueryTypes>(
    plan: RefreshIndexPlan<Q>,
    column: Seq<char>,
    offset: usize,
) -> bool {
    let items = plan.query_plan.items();
    &&& block_name_index(plan.query_plan.select_columns()) matches Some(index)
    &&& column == decimal_text(index as nat)
    &&& offset < items.len()
    &&& items[offset as int].index == index
    &&& forall|j: int| 0 <= j < offset ==> (#[trigger] items[j]).index != index
}

proof fn lemma_refresh_push<Q: QueryTypes>(
    plan: RefreshIndexPlan<Q>,
    events: Seq<RefreshEvent<Q>>,
)
    requires
        events.len() > 0,
        refresh(plan, events) is Ok,
    ensures
        refresh(plan, events.drop_last()) is Ok,
        next(plan, refresh(plan, events.drop_last())->Ok_0, events.last()) == refresh(
            plan,
            events,
        ),
{
    let first = opening(plan)->Ok_0;
    let last = events.len() - 1;
    assert(events.take(last + 1) =~= events);
    assert(events.take(last) =~= events.drop_last());
    lemma_run_push(plan, first, events, last);
}

/// Where a refresh stands after any number of answers, as long as it was not refused. With `n`
/// items, the first `n` answers are the types of the items, one for each and in order. Each state
/// after that holds what the engine answered, in the place where it belongs, and nothing else.
pub proof fn lemma_state_reached<Q: QueryTypes>(
    plan: RefreshIndexPlan<Q>,
    events: Seq<RefreshEvent<Q>>,
    state: StateModel<Q>,
)
    requires
        refresh(plan, events) == Ok::<StateModel<Q>, ErrorModel<Q::Error>>(state),
    ensures
        ({
            let n = plan.query_plan.items().len() as int;
            let m = events.len() as int;
            let sink = if plan.user_defined_block_name {
                n + 7
            } else {
                n + 8
            };
            &&& m <= sink + 4
            &&& m < n ==> {
                &&& state matches StateModel::DataType { fields }
                &&& fields.len() == m
                &&& typed_by(fields, plan, events)
            }
            &&& m == n ==> {
                &&& state matches StateModel::BuildPhysicalPlan { output }
                &&& output.len() == n
                &&& typed_by(output, plan, events)
            }
            &&& m == n + 1 ==> {
                &&& state matches StateModel::ReplaceReadSource { output, query_plan, source }
                &&& output.len() == n
                &&& typed_by(output, plan, events)
                &&& events[n] matches RefreshEvent::PhysicalPlan(Ok(built))
                &&& query_plan == built.0
                &&& read_sources(built.1) == seq![source]
            }
            &&& m == n + 2 ==> {
                &&& state matches StateModel::BuildPipeline { output, query_plan }
                &&& output.len() == n
                &&& typed_by(output, plan, events)
                &&& events[n + 1] == RefreshEvent::<Q>::ReadSourceReplaced(Ok(query_plan))
            }
            &&& m == n + 3 ==> {
                &&& state matches StateModel::OutputSchema { output, query_plan }
                &&& output.len() == n
                &&& typed_by(output, plan, events)
                &&& events[n + 1] == RefreshEvent::<Q>::ReadSourceReplaced(Ok(query_plan))
            }
            &&& m == n + 4 ==> {
                &&& state matches StateModel::FunctionContext {
                    output,
                    num_input_columns,
                    projection,
                }
                &&& output.len() == n
                &&& typed_by(output, plan, events)
                &&& events[n + 3] matches RefreshEvent::OutputSchema(Ok(input))
                &&& num_input_columns == input.fields@.len()
                &&& projection_of(output, input@) == Ok::<Seq<usize>, Seq<char>>(projection)
            }
            &&& m == n + 5 ==> {
                &&& state matches StateModel::AddTransform {
                    output,
                    num_input_columns,
                    projection,
                    func_ctx,
                }
                &&& output.len() == n
                &&& typed_by(output, plan, events)
                &&& events[n + 3] matches RefreshEvent::OutputSchema(Ok(input))
                &&& num_input_columns == input.fields@.len()
                &&& projection_of(output, input@) == Ok::<Seq<usize>, Seq<char>>(projection)
                &&& events[n + 4] == RefreshEvent::<Q>::FunctionContext(Ok(func_ctx))
            }
            &&& m == n + 6 ==> {
                &&& state matches StateModel::InferTableSchema { output, column, offset }
                &&& output.len() == n
                &&& typed_by(output, plan, events)
                &&& finds_block_name(plan, column, offset)
            }
            &&& m == n + 7 && !plan.user_defined_block_name ==> {
                &&& state matches StateModel::DropColumn { table_schema, column, offset }
                &&& events[n + 6] == RefreshEvent::<Q>::TableSchema(Ok(table_schema))
                &&& finds_block_name(plan, column, offset)
            }
            &&& m == sink ==> {
                &&& state matches StateModel::DataOperator { sink_schema, offset }
                &&& sink_schema_answer(plan, events) == Ok::<Q::TableSchema, Q::Error>(sink_schema)
                &&& locates_block_name(plan, offset)
            }
            &&& m == sink + 1 ==> {
                &&& state matches StateModel::FuseTable { sink_schema, offset, data_operator }
                &&& sink_schema_answer(plan, events) == Ok::<Q::TableSchema, Q::Error>(sink_schema)
                &&& locates_block_name(plan, offset)
                &&& events[sink] == RefreshEvent::<Q>::DataOperator(Ok(data_operator))
            }
            &&& m == sink + 2 ==> {
                &&& state matches StateModel::Resize {
                    sink_schema,
                    offset,
                    data_operator,
                    write_settings,
                }
                &&& sink_schema_answer(plan, events) == Ok::<Q::TableSchema, Q::Error>(sink_schema)
                &&& locates_block_name(plan, offset)
                &&& events[sink] == RefreshEvent::<Q>::DataOperator(Ok(data_operator))
                &&& events[sink + 1] == RefreshEvent::<Q>::WriteSettings(Ok(write_settings))
            }
            &&& m == sink + 3 ==> {
                &&& state matches StateModel::AddSink {
                    sink_schema,
                    offset,
                    data_operator,
                    write_settings,
                }
                &&& sink_schema_answer(plan, events) == Ok::<Q::TableSchema, Q::Error>(sink_schema)
                &&& locates_block_name(plan, offset)
                &&& events[sink] == RefreshEvent::<Q>::DataOperator(Ok(data_operator))
                &&& events[sink + 1] == RefreshEvent::<Q>::WriteSettings(Ok(write_settings))
            }
            &&& m == sink + 4 ==> state is Done
        }),
    decreases events.len(),
{
    let n = plan.query_plan.items().len() as int;
    let m = events.len() as int;
    let first = opening(plan)->Ok_0;
    if m > 0 {
        let before = events.drop_last();
        lemma_refresh_push(plan, events);
        let from = refresh(plan, before)->Ok_0;
        lemma_state_reached(plan, before, from);
        assert(forall|k: int| 0 <= k < m - 1 ==> #[trigger] events[k] == before[k]);
        lemma_states_consistent(plan, first, events[0]);
        lemma_run_length(plan, first, events);
        lemma_run_length(plan, first, before);
        if m == n + 4 {
            lemma_sizes_fit(plan, events[n + 3]->OutputSchema_0->Ok_0);
        }
    }
}

/// The call that a refresh makes after any number of answers, as long as it was not refused, and
/// everything that the call is given. With `n` items, the first `n` calls ask for the types of the
/// items, each for the scalar of its own item. The last call adds the sink, for the index, the
/// table and the flag of the plan.
pub proof fn lemma_call_made<Q: QueryTypes>(
    interpreter: RefreshIndexInterpreter<Q>,
    events: Seq<RefreshEvent<Q>>,
    state: StateModel<Q>,
)
    requires
        refresh(interpreter.plan, events) == Ok::<StateModel<Q>, ErrorModel<Q::Error>>(state),
    ensures
        ({
            let plan = interpreter.plan;
            let ctx = interpreter.ctx;
            let action = action_of(interpreter, state);
            let n = plan.query_plan.items().len() as int;
            let m = events.len() as int;
            let sink = if plan.user_defined_block_name {
                n + 7
            } else {
                n + 8
            };
            &&& m < n ==> action == ActionModel::<Q>::DataType {
                scalar: plan.query_plan.items()[m].scalar,
            }
            &&& m == n ==> {
                &&& plan.query_plan matches Plan::Query { s_expr, metadata, .. }
                &&& action == ActionModel::<Q>::BuildPhysicalPlan {
                    metadata,
                    ctx,
                    dry_run: false,
                    expr: s_expr.expr,
                }
            }
            &&& m == n + 1 ==> {
                &&& events[n] matches RefreshEvent::PhysicalPlan(Ok(built))
                &&& action matches ActionModel::ReplaceReadSource { query_plan, source }
                &&& query_plan == built.0
                &&& read_sources(built.1) == seq![source]
            }
            &&& m == n + 2 ==> {
                &&& events[n + 1] matches RefreshEvent::ReadSourceReplaced(Ok(query_plan))
                &&& action == ActionModel::<Q>::BuildPipeline {
                    ctx,
                    query_plan,
                    enable_profiling: false,
                }
            }
            &&& m == n + 3 ==> {
                &&& events[n + 1] matches RefreshEvent::ReadSourceReplaced(Ok(query_plan))
                &&& action == ActionModel::<Q>::OutputSchema { query_plan }
            }
            &&& m == n + 4 ==> action == ActionModel::<Q>::FunctionContext { ctx }
            &&& m == n + 5 ==> {
                &&& events[n + 3] matches RefreshEvent::OutputSchema(Ok(input))
                &&& events[n + 4] matches RefreshEvent::FunctionContext(Ok(answered))
                &&& action matches ActionModel::AddTransform {
                    num_input_columns,
                    func_ctx,
                    projection,
                }
                &&& func_ctx == answered
                &&& num_input_columns == input.fields@.len()
                &&& projection.len() == n
                &&& forall|k: int|
                    0 <= k < n ==> {
                        &&& (#[trigger] projection[k]) < input.fields@.len()
                        &&& input.fields@[projection[k] as int].name@ == decimal_text(
                            plan.query_plan.items()[k].index as nat,
                        )
                    }
            }
            &&& m == n + 6 ==> {
                &&& action matches ActionModel::InferTableSchema { output }
                &&& output.len() == n
                &&& typed_by(output, plan, events)
            }
            &&& m == n + 7 && !plan.user_defined_block_name ==> {
                &&& action matches ActionModel::DropColumn { table_schema, column }
                &&& events[n + 6] == RefreshEvent::<Q>::TableSchema(Ok(table_schema))
                &&& block_name_index(plan.query_plan.select_columns()) matches Some(index)
                &&& column == decimal_text(index as nat)
            }
            &&& m == sink ==> action == ActionModel::<Q>::DataOperator { ctx }
            &&& m == sink + 1 ==> action == ActionModel::<Q>::FuseTable {
                table_info: plan.table_info,
            }
            &&& m == sink + 2 ==> action == ActionModel::<Q>::Resize { width: 1 }
            &&& m == sink + 3 ==> {
                let items = plan.query_plan.items();
                &&& action matches ActionModel::AddSink {
                    data_operator,
                    index_id,
                    write_settings,
                    sink_schema,
                    offset,
                    user_defined_block_name,
                }
                &&& index_id == plan.index_id
                &&& user_defined_block_name == plan.user_defined_block_name
                &&& events[sink] == RefreshEvent::<Q>::DataOperator(Ok(data_operator))
                &&& events[sink + 1] == RefreshEvent::<Q>::WriteSettings(Ok(write_settings))
                &&& events[sink - 1] == if plan.user_defined_block_name {
                    RefreshEvent::<Q>::TableSchema(Ok(sink_schema))
                } else {
                    RefreshEvent::<Q>::ColumnDropped(Ok(sink_schema))
                }
                &&& block_name_index(plan.query_plan.select_columns()) matches Some(index)
                &&& offset < n
                &&& items[offset as int].index == index
                &&& forall|j: int| 0 <= j < offset ==> (#[trigger] items[j]).index != index
            }
            &&& m == sink + 4 ==> action == ActionModel::<Q>::Finish
        }),
{
    let plan = interpreter.plan;
    let n = plan.query_plan.items().len() as int;
    let m = events.len() as int;
    let first = opening(plan)->Ok_0;
    lemma_state_reached(plan, events, state);
    if m > 0 {
        lemma_states_consistent(plan, first, events[0]);
        lemma_run_length(plan, first, events);
    }
    if m == n + 5 {
        let schema = events[n + 3]->OutputSchema_0->Ok_0;
        lemma_sizes_fit(plan, schema);
        lemma_schema_model(schema);
        let output = state->AddTransform_output;
        let projection = state->AddTransform_projection;
        lemma_projection(output, schema@);
        assert forall|k: int| 0 <= k < n implies {
            &&& (#[trigger] projection[k]) < schema.fields@.len()
            &&& schema.fields@[projection[k] as int].name@ == decimal_text(
                plan.query_plan.items()[k].index as nat,
            )
        } by {
            assert(schema@[projection[k] as int].name == output[k].name);
        }
    }
    if m > n + 6 {
        lemma_sink_answered(plan, events, state);
    }
}

/// The answer that gives the schema of the sink is of the kind that belongs in its place.
proof fn lemma_sink_answered<Q: QueryTypes>(
    plan: RefreshIndexPlan<Q>,
    events: Seq<RefreshEvent<Q>>,
    state: StateModel<Q>,
)
    requires
        refresh(plan, events) == Ok::<StateModel<Q>, ErrorModel<Q::Error>>(state),
        events.len() > plan.query_plan.items().len() + 6,
    ensures
        ({
            let n = plan.query_plan.items().len() as int;
            &&& events[n + 6] is TableSchema
            &&& !plan.user_defined_block_name && events.len() > n + 7 ==> events[n + 7]
                is ColumnDropped
        }),
    decreases events.len(),
{
    let n = plan.query_plan.items().len() as int;
    let m = events.len() as int;
    let before = events.drop_last();
    lemma_refresh_push(plan, events);
    let from = refresh(plan, before)->Ok_0;
    lemma_state_reached(plan, before, from);
    if m > n + 7 {
        lemma_sink_answered(plan, before, from);
        assert(before[n + 6] == events[n + 6]);
        if m > n + 8 {
            assert(before[n + 7] == events[n + 7]);
        }
    }
}

/// Two refreshes that differ only in the index make the same decisions and the same calls, up to
/// the sink. Each sink is given its own index, and is otherwise the same.
pub proof fn lemma_index_id<Q: QueryTypes>(
    interpreter: RefreshIndexInterpreter<Q>,
    index_id: u64,
    state: StateModel<Q>,
    event: RefreshEvent<Q>,
)
    ensures
        ({
            let plan = RefreshIndexPlan { index_id, ..interpreter.plan };
            let other = RefreshIndexInterpreter { plan, ..interpreter };
            &&& opening(plan) == opening(interpreter.plan)
            &&& next(plan, state, event) == next(interpreter.plan, state, event)
            &&& match (action_of(other, state), action_of(interpreter, state)) {
                (
                    ActionModel::AddSink {
                        data_operator: data_operator_a,
                        index_id: index_id_a,
                        write_settings: write_settings_a,
                        sink_schema: sink_schema_a,
                        offset: offset_a,
                        user_defined_block_name: flag_a,
                    },
                    ActionModel::AddSink {
                        data_operator: data_operator_b,
                        index_id: index_id_b,
                        write_settings: write_settings_b,
                        sink_schema: sink_schema_b,
                        offset: offset_b,
                        user_defined_block_name: flag_b,
                    },
                ) => {
                    &&& index_id_a == index_id
                    &&& index_id_b == interpreter.plan.index_id
                    &&& data_operator_a == data_operator_b
                    &&& write_settings_a == write_settings_b
                    &&& sink_schema_a == sink_schema_b
                    &&& offset_a == offset_b
                    &&& flag_a == flag_b
                },
                (a, b) => a == b,
            }
        }),
{
}

/// The model of an action is the action with everything that the call is given.
pub proof fn lemma_action_model<'a, Q: QueryTypes>(action: RefreshAction<'a, Q>)
    ensures
        ({
            match action {
                RefreshAction::DataType { scalar } => action@ == ActionModel::<Q>::DataType {
                    scalar: *scalar,
                },
                RefreshAction::BuildPhysicalPlan { metadata, ctx, dry_run, expr } => action@
                    == ActionModel::<Q>::BuildPhysicalPlan {
                    metadata: *metadata,
                    ctx: *ctx,
                    dry_run,
                    expr: *expr,
                },
                RefreshAction::ReplaceReadSource { query_plan, source } => action@
                    == ActionModel::<Q>::ReplaceReadSource {
                    query_plan: *query_plan,
                    source: *source,
                },
                RefreshAction::BuildPipeline { ctx, query_plan, enable_profiling } => action@
                    == ActionModel::<Q>::BuildPipeline {
                    ctx: *ctx,
                    query_plan: *query_plan,
                    enable_profiling,
                },
                RefreshAction::OutputSchema { query_plan } => action@
                    == ActionModel::<Q>::OutputSchema { query_plan: *query_plan },
                RefreshAction::FunctionContext { ctx } => action@
                    == ActionModel::<Q>::FunctionContext { ctx: *ctx },
                RefreshAction::AddTransform { num_input_columns, func_ctx, projection } => action@
                    == ActionModel::<Q>::AddTransform {
                    num_input_columns,
                    func_ctx: *func_ctx,
                    projection: projection@,
                },
                RefreshAction::InferTableSchema { output_schema } => action@
                    == ActionModel::<Q>::InferTableSchema { output: output_schema@ },
                RefreshAction::DropColumn { table_schema, column } => action@
                    == ActionModel::<Q>::DropColumn {
                    table_schema: *table_schema,
                    column: column@,
                },
                RefreshAction::DataOperator { ctx } => action@ == ActionModel::<Q>::DataOperator {
                    ctx: *ctx,
                },
                RefreshAction::FuseTable { table_info } => action@ == ActionModel::<Q>::FuseTable {
                    table_info: *table_info,
                },
                RefreshAction::Resize { width } => action@ == ActionModel::<Q>::Resize { width },
                RefreshAction::AddSink {
                    data_operator,
                    index_id,
                    write_settings,
                    sink_schema,
                    block_name_offset,
                    user_defined_block_name,
                } => action@ == ActionModel::<Q>::AddSink {
                    data_operator: *data_operator,
                    index_id,
                    write_settings: *write_settings,
                    sink_schema: *sink_schema,
                    offset: block_name_offset,
                    user_defined_block_name,
                },
                RefreshAction::Finish => action@ == ActionModel::<Q>::Finish,
            }
        }),
{
}

} // verus!
