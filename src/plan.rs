use crate::expr::Expr;
use crate::schema::{FieldView, Schema};
use std::sync::Arc;
use vstd::prelude::*;

verus! {

/// An immutable tree of relational operators. Inputs are shared, never
/// mutated, so a plan is a pure value. Every node that has an input holds the
/// schema that was derived for it when the node was built.
#[derive(Debug, Clone)]
pub enum LogicalPlan {
    /// No rows, with a fixed schema.
    EmptyRelation { schema: Schema },
    /// Batches already in memory, held by the caller under `source`.
    MemoryScan { source: usize, schema: Schema },
    /// A file, its full schema, an optional projection by position, and the
    /// schema that results.
    FileScan {
        path: String,
        file_type: String,
        schema: Schema,
        projected_schema: Schema,
        projection: Option<Vec<usize>>,
    },
    /// Output expressions over the input.
    Projection { expr: Vec<Expr>, input: Arc<LogicalPlan>, schema: Schema },
    /// A boolean filter over the input; its schema is the input's.
    Selection { expr: Expr, input: Arc<LogicalPlan>, schema: Schema },
    /// At most a literal number of rows of the input; its schema is the input's.
    Limit { expr: Expr, input: Arc<LogicalPlan>, schema: Schema },
    /// Group-by and aggregate expressions over the input.
    Aggregate {
        input: Arc<LogicalPlan>,
        group_expr: Vec<Expr>,
        aggr_expr: Vec<Expr>,
        schema: Schema,
    },
}

/// The output schema of a plan node.
pub open spec fn plan_schema(p: LogicalPlan) -> Seq<FieldView> {
    match p {
        LogicalPlan::EmptyRelation { schema } => schema@,
        LogicalPlan::MemoryScan { schema, .. } => schema@,
        LogicalPlan::FileScan { projected_schema, .. } => projected_schema@,
        LogicalPlan::Projection { schema, .. } => schema@,
        LogicalPlan::Selection { schema, .. } => schema@,
        LogicalPlan::Limit { schema, .. } => schema@,
        LogicalPlan::Aggregate { schema, .. } => schema@,
    }
}

impl LogicalPlan {
    /// The output schema of this node, as it was derived when the node was built.
    pub fn schema(&self) -> (r: &Schema)
        ensures
            r@ == plan_schema(*self),
    {
        match self {
            LogicalPlan::EmptyRelation { schema } => schema,
            LogicalPlan::MemoryScan { schema, .. } => schema,
            LogicalPlan::FileScan { projected_schema, .. } => projected_schema,
            LogicalPlan::Projection { schema, .. } => schema,
            LogicalPlan::Selection { schema, .. } => schema,
            LogicalPlan::Limit { schema, .. } => schema,
            LogicalPlan::Aggregate { schema, .. } => schema,
        }
    }
}

} // verus!
