//! What a refresh of an aggregating index is given, and what it answers when it fails.
use crate::text::{lemma_same_ignoring_ascii_case, same_ignoring_ascii_case, same_letter};
use vstd::prelude::*;

verus! {

/// The name of the internal column that holds the name of the block that a row came from.
pub const BLOCK_NAME_COL_NAME: &'static str = "_block_name";

/// The types of the query engine whose values a refresh hands on from one engine call to the
/// next without looking inside.
pub trait QueryTypes: Sized {
    /// The context of the query.
    type Context;

    /// The metadata that a query plan refers to.
    type Metadata;

    /// A relational expression.
    type Expr;

    /// A scalar expression.
    type Scalar;

    /// The type of a column of a data block.
    type DataType;

    /// A physical plan, as the engine holds it.
    type Plan;

    /// What a table scan reads.
    type DataSource;

    /// What evaluating functions needs to know.
    type FunctionContext;

    /// The schema of a table.
    type TableSchema;

    /// The description of a table.
    type TableInfo;

    /// The access to the data storage.
    type DataOperator;

    /// How blocks are written to a table.
    type WriteSettings;

    /// The error of a failed engine call.
    type Error;
}

/// A scalar expression that computes the column numbered `index`.
pub struct ScalarItem<Q: QueryTypes> {
    pub scalar: Q::Scalar,
    pub index: usize,
}

/// The operator that evaluates scalar expressions.
pub struct EvalScalar<Q: QueryTypes> {
    pub items: Vec<ScalarItem<Q>>,
}

/// The operator at the root of a relational expression.
pub enum RelOperator<Q: QueryTypes> {
    EvalScalar(EvalScalar<Q>),
    Other,
}

/// A relational expression with its root operator.
pub struct SExpr<Q: QueryTypes> {
    pub plan: RelOperator<Q>,
    pub expr: Q::Expr,
}

/// A column of the result of a query: its name in the query and its number in the metadata.
pub struct ColumnBinding {
    pub column_name: String,
    pub index: usize,
}

/// The columns that a query selects.
pub struct BindContext {
    pub columns: Vec<ColumnBinding>,
}

/// A logical plan: a query, or a statement of another kind.
pub enum Plan<Q: QueryTypes> {
    Query { s_expr: SExpr<Q>, metadata: Q::Metadata, bind_context: BindContext },
    Other,
}

/// A request to refresh an aggregating index.
pub struct RefreshIndexPlan<Q: QueryTypes> {
    pub index_id: u64,
    pub query_plan: Plan<Q>,
    pub table_info: Q::TableInfo,
    pub user_defined_block_name: bool,
}

/// Why a refresh failed.
pub enum ErrorCode<E> {
    /// An internal error, with its message.
    Internal(String),
    /// The query means something that a refresh cannot do, with the message that says so.
    SemanticError(String),
    /// A schema has no field of this name.
    FieldNotFound(String),
    /// An engine call failed.
    Engine(E),
    /// The answer belongs to another action than the one that was asked for.
    UnexpectedEvent,
}

/// What an `ErrorCode` is.
pub enum ErrorModel<E> {
    Internal(Seq<char>),
    SemanticError(Seq<char>),
    FieldNotFound(Seq<char>),
    Engine(E),
    UnexpectedEvent,
}

impl<E> View for ErrorCode<E> {
    type V = ErrorModel<E>;

    open spec fn view(&self) -> ErrorModel<E> {
        match *self {
            ErrorCode::Internal(message) => ErrorModel::Internal(message@),
            ErrorCode::SemanticError(message) => ErrorModel::SemanticError(message@),
            ErrorCode::FieldNotFound(name) => ErrorModel::FieldNotFound(name@),
            ErrorCode::Engine(error) => ErrorModel::Engine(error),
            ErrorCode::UnexpectedEvent => ErrorModel::UnexpectedEvent,
        }
    }
}

/// The column goes by the name of the block name column, in whatever case.
pub open spec fn is_block_name(column: ColumnBinding) -> bool {
    same_ignoring_ascii_case(column.column_name@, BLOCK_NAME_COL_NAME@)
}

/// The first block name column among `columns` is the one at `i`.
pub open spec fn is_first_block_name(columns: Seq<ColumnBinding>, i: int) -> bool {
    &&& 0 <= i < columns.len()
    &&& is_block_name(columns[i])
    &&& forall|j: int| 0 <= j < i ==> !is_block_name(#[trigger] columns[j])
}

/// The number of the first block name column among `columns`, where there is one.
pub open spec fn block_name_index(columns: Seq<ColumnBinding>) -> Option<usize> {
    if exists|i: int| 0 <= i < columns.len() && is_block_name(#[trigger] columns[i]) {
        Some(columns[choose|i: int| is_first_block_name(columns, i)].index)
    } else {
        None
    }
}

/// The text reads `_block_name`, with its letters in either case.
pub open spec fn spells_block_name(name: Seq<char>) -> bool {
    &&& name.len() == "_block_name"@.len()
    &&& forall|k: int| 0 <= k < name.len() ==> same_letter(#[trigger] name[k], "_block_name"@[k])
}

proof fn lemma_block_name_spelled(column: ColumnBinding)
    ensures
        is_block_name(column) <==> spells_block_name(column.column_name@),
{
    lemma_same_ignoring_ascii_case(column.column_name@, "_block_name"@);
}

/// The block name column is the first selected column that reads `_block_name`, wherever it stands
/// among the columns, and its number is the one that is found.
pub proof fn lemma_block_name_found(columns: Seq<ColumnBinding>, i: int)
    requires
        0 <= i < columns.len(),
        spells_block_name(columns[i].column_name@),
        forall|j: int| 0 <= j < i ==> !spells_block_name((#[trigger] columns[j]).column_name@),
    ensures
        block_name_index(columns) == Some(columns[i].index),
{
    lemma_block_name_spelled(columns[i]);
    assert forall|j: int| 0 <= j < i implies !is_block_name(#[trigger] columns[j]) by {
        lemma_block_name_spelled(columns[j]);
    }
    assert(is_first_block_name(columns, i));
    let found = choose|k: int| is_first_block_name(columns, k);
    assert(is_first_block_name(columns, found));
    if i < found {
        assert(!is_block_name(columns[i]));
    }
}

/// The block name column is missing exactly when no selected column reads `_block_name`, and a
/// number that is found is the number of a column that does.
pub proof fn lemma_block_name_missing(columns: Seq<ColumnBinding>)
    ensures
        match block_name_index(columns) {
            Some(index) => exists|i: int|
                {
                    &&& 0 <= i < columns.len()
                    &&& spells_block_name((#[trigger] columns[i]).column_name@)
                    &&& columns[i].index == index
                },
            None => forall|i: int|
                0 <= i < columns.len() ==> !spells_block_name((#[trigger] columns[i]).column_name@),
        },
{
    if exists|i: int|
        0 <= i < columns.len() && spells_block_name((#[trigger] columns[i]).column_name@) {
        let some = choose|i: int|
            0 <= i < columns.len() && spells_block_name((#[trigger] columns[i]).column_name@);
        let first = lemma_first_spelled(columns, some);
        lemma_block_name_found(columns, first);
    } else {
        assert forall|i: int| 0 <= i < columns.len() implies !is_block_name(
            #[trigger] columns[i],
        ) by {
            lemma_block_name_spelled(columns[i]);
        }
    }
}

proof fn lemma_first_spelled(columns: Seq<ColumnBinding>, i: int) -> (first: int)
    requires
        0 <= i < columns.len(),
        spells_block_name(columns[i].column_name@),
    ensures
        0 <= first <= i,
        spells_block_name(columns[first].column_name@),
        forall|j: int| 0 <= j < first ==> !spells_block_name((#[trigger] columns[j]).column_name@),
    decreases i,
{
    if exists|j: int| 0 <= j < i && spells_block_name((#[trigger] columns[j]).column_name@) {
        let j = choose|j: int|
            0 <= j < i && spells_block_name((#[trigger] columns[j]).column_name@);
        lemma_first_spelled(columns, j)
    } else {
        i
    }
}

/// Columns after the block name column do not matter, and neither do columns before it that go by
/// other names: the number that is found is that of the part that has the block name column.
pub proof fn lemma_block_name_in_joined_columns(
    left: Seq<ColumnBinding>,
    right: Seq<ColumnBinding>,
)
    ensures
        block_name_index(left + right) == match block_name_index(left) {
            Some(index) => Some(index),
            None => block_name_index(right),
        },
{
    let joined = left + right;
    lemma_block_name_missing(left);
    lemma_block_name_missing(right);
    lemma_block_name_missing(joined);
    if block_name_index(left) is Some {
        let some = choose|i: int|
            0 <= i < left.len() && spells_block_name((#[trigger] left[i]).column_name@);
        let first = lemma_first_spelled(left, some);
        lemma_block_name_found(left, first);
        assert forall|j: int| 0 <= j < first implies !spells_block_name(
            (#[trigger] joined[j]).column_name@,
        ) by {
            assert(joined[j] == left[j]);
        }
        lemma_block_name_found(joined, first);
    } else if block_name_index(right) is Some {
        let some = choose|i: int|
            0 <= i < right.len() && spells_block_name((#[trigger] right[i]).column_name@);
        let first = lemma_first_spelled(right, some);
        lemma_block_name_found(right, first);
        assert forall|j: int| 0 <= j < left.len() + first implies !spells_block_name(
            (#[trigger] joined[j]).column_name@,
        ) by {
            if j < left.len() {
                assert(joined[j] == left[j]);
            } else {
                assert(joined[j] == right[j - left.len()]);
            }
        }
        assert(joined[left.len() + first] == right[first]);
        lemma_block_name_found(joined, left.len() + first);
    } else {
        assert forall|j: int| 0 <= j < joined.len() implies !spells_block_name(
            (#[trigger] joined[j]).column_name@,
        ) by {
            if j < left.len() {
                assert(joined[j] == left[j]);
            } else {
                assert(joined[j] == right[j - left.len()]);
            }
        }
    }
}

/// A query selects the columns that it binds, all of them and in order, and evaluates the items of
/// the operator at its root; no other plan selects or evaluates anything.
pub proof fn lemma_parts_of_plan<Q: QueryTypes>(
    expr: Q::Expr,
    metadata: Q::Metadata,
    bind_context: BindContext,
    eval: EvalScalar<Q>,
)
    ensures
        ({
            let root = RelOperator::EvalScalar(eval);
            let query = Plan::<Q>::Query {
                s_expr: SExpr { plan: root, expr },
                metadata,
                bind_context,
            };
            let bare = Plan::<Q>::Query {
                s_expr: SExpr { plan: RelOperator::Other, expr },
                metadata,
                bind_context,
            };
            &&& query.select_columns() == bind_context.columns@
            &&& query.evaluates_scalars()
            &&& query.items() == eval.items@
            &&& bare.select_columns() == bind_context.columns@
            &&& !bare.evaluates_scalars()
        }),
        !Plan::<Q>::Other.evaluates_scalars(),
        Plan::<Q>::Other.select_columns().len() == 0,
{
}

/// What an error says is what its model says.
pub proof fn lemma_error_model<E>(text: String, error: E)
    ensures
        ErrorCode::<E>::Internal(text)@ == ErrorModel::<E>::Internal(text@),
        ErrorCode::<E>::SemanticError(text)@ == ErrorModel::<E>::SemanticError(text@),
        ErrorCode::<E>::FieldNotFound(text)@ == ErrorModel::<E>::FieldNotFound(text@),
        ErrorCode::<E>::Engine(error)@ == ErrorModel::<E>::Engine(error),
        ErrorCode::<E>::UnexpectedEvent@ == ErrorModel::<E>::UnexpectedEvent,
{
}

impl<Q: QueryTypes> Plan<Q> {
    /// The columns that the plan selects: none, unless it is a query.
    pub open spec fn select_columns(self) -> Seq<ColumnBinding> {
        match self {
            Plan::Query { bind_context, .. } => bind_context.columns@,
            Plan::Other => Seq::empty(),
        }
    }

    /// The plan is a query whose last operator evaluates scalar expressions.
    pub open spec fn evaluates_scalars(self) -> bool {
        self matches Plan::Query { s_expr, .. } && s_expr.plan is EvalScalar
    }

    /// The scalar expressions that the last operator of the query evaluates.
    pub open spec fn items(self) -> Seq<ScalarItem<Q>> {
        match self {
            Plan::Query { s_expr, .. } => match s_expr.plan {
                RelOperator::EvalScalar(eval) => eval.items@,
                RelOperator::Other => Seq::empty(),
            },
            Plan::Other => Seq::empty(),
        }
    }

    /// The number of the first selected column that is the block name column.
    pub fn find_block_name(&self) -> (res: Option<usize>)
        ensures
            res == block_name_index(self.select_columns()),
            self matches Plan::Query { bind_context, .. } ==> match res {
                Some(index) => exists|i: int|
                    {
                        &&& 0 <= i < bind_context.columns@.len()
                        &&& spells_block_name((#[trigger] bind_context.columns@[i]).column_name@)
                        &&& bind_context.columns@[i].index == index
                        &&& forall|j: int|
                            0 <= j < i ==> !spells_block_name(
                                (#[trigger] bind_context.columns@[j]).column_name@,
                            )
                    },
                None => forall|i: int|
                    0 <= i < bind_context.columns@.len() ==> !spells_block_name(
                        (#[trigger] bind_context.columns@[i]).column_name@,
                    ),
            },
            self is Other ==> res is None,
    {
        match self {
            Plan::Query { bind_context, .. } => {
                let columns = &bind_context.columns;
                let mut i: usize = 0;
                while i < columns.len()
                    invariant
                        i <= columns.len(),
                        columns@ == self.select_columns(),
                        forall|j: int| 0 <= j < i ==> !is_block_name(#[trigger] columns@[j]),
                        forall|j: int|
                            0 <= j < i ==> !spells_block_name(
                                (#[trigger] columns@[j]).column_name@,
                            ),
                    decreases columns.len() - i,
                {
                    proof {
                        lemma_block_name_spelled(columns@[i as int]);
                    }
                    if crate::text::eq_ignore_ascii_case(
                        columns[i].column_name.as_str(),
                        BLOCK_NAME_COL_NAME,
                    ) {
                        proof {
                            assert(is_block_name(columns@[i as int]));
                            assert(is_first_block_name(columns@, i as int));
                            let found = choose|k: int| is_first_block_name(columns@, k);
                            assert(is_first_block_name(columns@, found));
                            if i < found {
                                assert(!is_block_name(columns@[i as int]));
                            }
                        }
                        return Some(columns[i].index);
                    }
                    i = i + 1;
                }
                None
            },
            Plan::Other => None,
        }
    }
}

} // verus!
