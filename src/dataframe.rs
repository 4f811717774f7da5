use crate::config::{
    copy_settings, lookup, lookup_setting, settings_view, Configs, SettingsView, CSV_BATCH_SIZE,
};
use crate::error::BallistaError;
use crate::expr::{exprlist_to_fields, exprs_valid, field_of, fields_of, Expr, ScalarValue};
use crate::plan::{plan_schema, LogicalPlan};
use crate::schema::{fields_view, projected, projection_in_range, Schema};
use crate::text::{digits_value, parse_decimal, parse_usize};
use std::sync::Arc;
use vstd::prelude::*;

verus! {

/// The execution target of a context, fixed when the context is made.
#[derive(Debug, Clone)]
pub enum ContextState {
    /// The in-process engine.
    Local { settings: Vec<(String, String)> },
    /// An executor reached over the network.
    Remote { host: String, port: usize, settings: Vec<(String, String)> },
    /// An executor found through a cluster manager's settings.
    Spark { master: String, spark_settings: Vec<(String, String)> },
}

/// Borrowed settings as text.
pub open spec fn str_settings_view(s: Seq<(&str, &str)>) -> SettingsView {
    s.map_values(|p: (&str, &str)| (p.0@, p.1@))
}

/// Owned copies of the given settings, in the same order.
pub fn parse_settings(settings: Vec<(&str, &str)>) -> (r: Vec<(String, String)>)
    ensures
        settings_view(r@) == str_settings_view(settings@),
{
    let mut s: Vec<(String, String)> = Vec::new();
    let mut i: usize = 0;
    while i < settings.len()
        invariant
            i <= settings@.len(),
            s@.len() == i,
            forall|j: int|
                0 <= j < i ==> (#[trigger] s@[j]).0@ == settings@[j].0@ && s@[j].1@
                    == settings@[j].1@,
        decreases settings@.len() - i,
    {
        let (k, v) = settings[i];
        s.push((k.to_owned(), v.to_owned()));
        i += 1;
    }
    assert(settings_view(s@) =~= str_settings_view(settings@));
    s
}

/// A handle on an execution target, from which plans are started.
pub struct Context {
    state: Arc<ContextState>,
}

impl Context {
    /// The execution target of this context.
    pub closed spec fn spec_state(&self) -> ContextState {
        *self.state
    }

    /// A context for a Spark executor whose host and port are in `settings`.
    pub fn spark(master: &str, settings: Vec<(&str, &str)>) -> (r: Self)
        ensures
            r.spec_state() matches ContextState::Spark { master: m, spark_settings }
                && m@ == master@ && settings_view(spark_settings@) == str_settings_view(
                settings@,
            ),
    {
        Context {
            state: Arc::new(
                ContextState::Spark {
                    master: master.to_owned(),
                    spark_settings: parse_settings(settings),
                },
            ),
        }
    }

    /// A context for the in-process engine.
    pub fn local(settings: Vec<(&str, &str)>) -> (r: Self)
        ensures
            r.spec_state() matches ContextState::Local { settings: s } && settings_view(s@)
                == str_settings_view(settings@),
    {
        Context { state: Arc::new(ContextState::Local { settings: parse_settings(settings) }) }
    }

    /// A context for an executor at `host` and `port`.
    pub fn remote(host: &str, port: usize, settings: Vec<(&str, &str)>) -> (r: Self)
        ensures
            r.spec_state() matches ContextState::Remote { host: h, port: p, settings: s }
                && h@ == host@ && p == port && settings_view(s@) == str_settings_view(
                settings@,
            ),
    {
        Context {
            state: Arc::new(
                ContextState::Remote {
                    host: host.to_owned(),
                    port,
                    settings: parse_settings(settings),
                },
            ),
        }
    }

    pub fn from(state: Arc<ContextState>) -> (r: Self)
        ensures
            r.spec_state() == *state,
    {
        Context { state }
    }

    /// The execution target of this context.
    pub fn state(&self) -> (r: &ContextState)
        ensures
            *r == self.spec_state(),
    {
        &self.state
    }

    /// A plan over batches in memory that the caller holds under `source`,
    /// whose schema is `schema`.
    pub fn create_dataframe(&self, source: usize, schema: Schema) -> (r: Result<
        DataFrame,
        BallistaError,
    >)
        ensures
            r matches Ok(df) && df.spec_state() == self.spec_state() && df.spec_plan()
                == (LogicalPlan::MemoryScan { source, schema }),
    {
        Ok(DataFrame::from(self.state.clone(), LogicalPlan::MemoryScan { source, schema }))
    }

    /// A plan that reads the CSV file at `path`, whose schema must be given.
    pub fn read_csv(
        &self,
        path: &str,
        schema: Option<Schema>,
        projection: Option<Vec<usize>>,
        _has_header: bool,
    ) -> (r: Result<DataFrame, BallistaError>)
        ensures
            r.is_ok() == (schema matches Some(s) && projection_in_range(
                s@.len(),
                index_view(projection),
            )),
            r matches Err(e) ==> e is SchemaError,
            r matches Ok(df) ==> df.spec_state() == self.spec_state() && file_scan_of(
                df.spec_plan(),
                path@,
                "csv"@,
                schema->Some_0@,
                projection,
            ),
    {
        match schema {
            Some(s) => DataFrame::scan_csv(self.state.clone(), path, &s, projection),
            None => Err(
                BallistaError::SchemaError("reading a CSV file needs its schema".to_owned()),
            ),
        }
    }

    /// A plan that reads the Parquet file at `path`, whose schema, as the file
    /// declares it, is `schema`.
    pub fn read_parquet(&self, path: &str, schema: &Schema, projection: Option<Vec<usize>>) -> (r:
        Result<DataFrame, BallistaError>)
        ensures
            r.is_ok() == projection_in_range(schema@.len(), index_view(projection)),
            r matches Err(e) ==> e is SchemaError,
            r matches Ok(df) ==> df.spec_state() == self.spec_state() && file_scan_of(
                df.spec_plan(),
                path@,
                "parquet"@,
                schema@,
                projection,
            ),
    {
        DataFrame::scan_parquet(self.state.clone(), path, schema, projection)
    }
}

pub open spec fn index_view(p: Option<Vec<usize>>) -> Option<Seq<usize>> {
    match p {
        Some(v) => Some(v@),
        None => None,
    }
}

/// `p` scans the file at `path` of type `file_type`, whose schema is `schema`,
/// with `projection`, and yields the projected fields.
pub open spec fn file_scan_of(
    p: LogicalPlan,
    path: Seq<char>,
    file_type: Seq<char>,
    schema: Seq<crate::schema::FieldView>,
    projection: Option<Vec<usize>>,
) -> bool {
    p matches LogicalPlan::FileScan {
        path: pa,
        file_type: ft,
        schema: s,
        projected_schema: ps,
        projection: pr,
    } && pa@ == path && ft@ == file_type && s@ == schema && ps@ == projected(
        schema,
        index_view(projection),
    ) && pr == projection
}

/// `p` keeps the rows of `input` for which `expr` holds, with its schema.
pub open spec fn selection_of(p: LogicalPlan, expr: Expr, input: LogicalPlan) -> bool {
    p matches LogicalPlan::Selection { expr: e, input: i, schema } && e == expr && *i == input
        && schema@ == plan_schema(input)
}

/// `p` keeps at most `n` rows of `input`, with its schema.
pub open spec fn limit_of(p: LogicalPlan, n: usize, input: LogicalPlan) -> bool {
    p matches LogicalPlan::Limit { expr, input: i, schema } && expr == Expr::Literal(
        ScalarValue::UInt64(n as u64),
    ) && *i == input && schema@ == plan_schema(input)
}

/// A logical plan under construction, bound to an execution target. Every
/// operation returns a new builder and leaves this one as it was.
pub struct DataFrame {
    ctx_state: Arc<ContextState>,
    plan: Arc<LogicalPlan>,
}

impl DataFrame {
    /// The plan built so far.
    pub closed spec fn spec_plan(&self) -> LogicalPlan {
        *self.plan
    }

    /// The execution target this builder is bound to.
    pub closed spec fn spec_state(&self) -> ContextState {
        *self.ctx_state
    }

    /// A builder of `plan`, bound to `ctx`.
    pub fn from(ctx: Arc<ContextState>, plan: LogicalPlan) -> (r: Self)
        ensures
            r.spec_state() == *ctx,
            r.spec_plan() == plan,
    {
        DataFrame { ctx_state: ctx, plan: Arc::new(plan) }
    }

    /// A relation with no rows and no fields.
    pub fn empty(ctx: Arc<ContextState>) -> (r: Self)
        ensures
            r.spec_state() == *ctx,
            r.spec_plan() is EmptyRelation,
            plan_schema(r.spec_plan()) == Seq::<crate::schema::FieldView>::empty(),
    {
        Self::from(ctx, LogicalPlan::EmptyRelation { schema: Schema::empty() })
    }

    fn scan_file(
        ctx: Arc<ContextState>,
        path: &str,
        file_type: &str,
        schema: &Schema,
        projection: Option<Vec<usize>>,
    ) -> (r: Result<Self, BallistaError>)
        ensures
            r.is_ok() == projection_in_range(schema@.len(), index_view(projection)),
            r matches Err(e) ==> e is SchemaError,
            r matches Ok(df) ==> df.spec_state() == *ctx && file_scan_of(
                df.spec_plan(),
                path@,
                file_type@,
                schema@,
                projection,
            ),
    {
        let projected_schema = match &projection {
            None => schema.duplicate(),
            Some(p) => match schema.select(p) {
                Some(s) => s,
                None => {
                    return Err(
                        BallistaError::SchemaError(
                            "projection refers to a field past the last".to_owned(),
                        ),
                    );
                },
            },
        };
        Ok(
            Self::from(
                ctx,
                LogicalPlan::FileScan {
                    path: path.to_owned(),
                    file_type: file_type.to_owned(),
                    schema: schema.duplicate(),
                    projected_schema,
                    projection,
                },
            ),
        )
    }

    /// A scan of the CSV file at `path`, whose schema is `schema`, narrowed to
    /// the fields at the positions in `projection` where there is one.
    pub fn scan_csv(
        ctx: Arc<ContextState>,
        path: &str,
        schema: &Schema,
        projection: Option<Vec<usize>>,
    ) -> (r: Result<Self, BallistaError>)
        ensures
            r.is_ok() == projection_in_range(schema@.len(), index_view(projection)),
            r matches Err(e) ==> e is SchemaError,
            r matches Ok(df) ==> df.spec_state() == *ctx && file_scan_of(
                df.spec_plan(),
                path@,
                "csv"@,
                schema@,
                projection,
            ),
    {
        Self::scan_file(ctx, path, "csv", schema, projection)
    }

    /// A scan of the Parquet file at `path`, whose declared schema is `schema`,
    /// narrowed to the fields at the positions in `projection` where there is one.
    pub fn scan_parquet(
        ctx: Arc<ContextState>,
        path: &str,
        schema: &Schema,
        projection: Option<Vec<usize>>,
    ) -> (r: Result<Self, BallistaError>)
        ensures
            r.is_ok() == projection_in_range(schema@.len(), index_view(projection)),
            r matches Err(e) ==> e is SchemaError,
            r matches Ok(df) ==> df.spec_state() == *ctx && file_scan_of(
                df.spec_plan(),
                path@,
                "parquet"@,
                schema@,
                projection,
            ),
    {
        Self::scan_file(ctx, path, "parquet", schema, projection)
    }

    /// The rows of this plan for which `expr` holds.
    pub fn filter(&self, expr: Expr) -> (r: Result<DataFrame, BallistaError>)
        ensures
            r matches Ok(df) && df.spec_state() == self.spec_state() && selection_of(
                df.spec_plan(),
                expr,
                self.spec_plan(),
            ),
    {
        Ok(
            Self::from(
                self.ctx_state.clone(),
                LogicalPlan::Selection {
                    expr,
                    input: self.plan.clone(),
                    schema: self.plan.schema().duplicate(),
                },
            ),
        )
    }

    /// At most `n` rows of this plan.
    pub fn limit(&self, n: usize) -> (r: Result<DataFrame, BallistaError>)
        ensures
            r matches Ok(df) && df.spec_state() == self.spec_state() && limit_of(
                df.spec_plan(),
                n,
                self.spec_plan(),
            ),
    {
        Ok(
            Self::from(
                self.ctx_state.clone(),
                LogicalPlan::Limit {
                    expr: Expr::Literal(ScalarValue::UInt64(n as u64)),
                    input: self.plan.clone(),
                    schema: self.plan.schema().duplicate(),
                },
            ),
        )
    }

    /// The plan built so far.
    pub fn plan(&self) -> (r: &LogicalPlan)
        ensures
            *r == self.spec_plan(),
    {
        &self.plan
    }

    /// The plan built so far, shared with this builder.
    pub fn shared_plan(&self) -> (r: Arc<LogicalPlan>)
        ensures
            *r == self.spec_plan(),
    {
        self.plan.clone()
    }

    /// The execution target this builder is bound to.
    pub fn state(&self) -> (r: &ContextState)
        ensures
            *r == self.spec_state(),
    {
        &self.ctx_state
    }

    /// The output schema of the plan built so far.
    pub fn schema(&self) -> (r: &Schema)
        ensures
            r@ == plan_schema(self.spec_plan()),
    {
        self.plan.schema()
    }

    fn target_name(&self) -> &'static str {
        match &*self.ctx_state {
            ContextState::Local { .. } => "Local",
            ContextState::Remote { .. } => "Remote",
            ContextState::Spark { .. } => "Spark",
        }
    }

    /// Writing CSV files is supported by no execution target.
    pub fn write_csv(&self, _path: &str) -> (r: Result<(), BallistaError>)
        ensures
            r matches Err(BallistaError::NotImplemented(_)),
    {
        let mut m = "write_csv() is not implemented for ".to_owned();
        m.append(self.target_name());
        m.append(" yet");
        Err(BallistaError::NotImplemented(m))
    }

    /// Writing Parquet files is supported by no execution target.
    pub fn write_parquet(&self, _path: &str) -> (r: Result<(), BallistaError>)
        ensures
            r matches Err(BallistaError::NotImplemented(_)),
    {
        let mut m = "write_parquet() is not implemented for ".to_owned();
        m.append(self.target_name());
        m.append(" yet");
        Err(BallistaError::NotImplemented(m))
    }
}

} // verus!

verus! {

/// One column reference for each of the `n` input fields, in order.
pub open spec fn columns(n: nat) -> Seq<Expr> {
    Seq::new(n, |i: int| Expr::Column(i as usize))
}

/// `exprs` with each wildcard replaced, in place, by one column reference
/// for each of the `n` input fields.
pub open spec fn expand_wildcards(exprs: Seq<Expr>, n: nat) -> Seq<Expr>
    decreases exprs.len(),
{
    if exprs.len() == 0 {
        Seq::empty()
    } else {
        expand_wildcards(exprs.drop_last(), n) + if exprs.last() is Wildcard {
            columns(n)
        } else {
            seq![exprs.last()]
        }
    }
}

pub open spec fn has_no_wildcard(exprs: Seq<Expr>) -> bool {
    forall|i: int| 0 <= i < exprs.len() ==> !(#[trigger] exprs[i] is Wildcard)
}

/// A list without wildcards is its own expansion.
pub proof fn lemma_expand_without_wildcards(exprs: Seq<Expr>, n: nat)
    requires
        has_no_wildcard(exprs),
    ensures
        expand_wildcards(exprs, n) == exprs,
    decreases exprs.len(),
{
    if exprs.len() > 0 {
        assert(!(exprs[exprs.len() - 1] is Wildcard));
        lemma_expand_without_wildcards(exprs.drop_last(), n);
        assert(exprs.drop_last() + seq![exprs.last()] =~= exprs);
    }
}

/// `p` projects `input` onto `exprs`, whose fields make up its schema.
pub open spec fn projection_of(p: LogicalPlan, exprs: Seq<Expr>, input: LogicalPlan) -> bool {
    p matches LogicalPlan::Projection { expr, input: i, schema } && expr@ == exprs && *i == input
        && schema@ == fields_of(exprs, plan_schema(input))
}

/// `p` groups `input` by `group` and computes `aggr`; its schema is the
/// fields of `group` followed by those of `aggr`.
pub open spec fn aggregate_of(
    p: LogicalPlan,
    group: Seq<Expr>,
    aggr: Seq<Expr>,
    input: LogicalPlan,
) -> bool {
    p matches LogicalPlan::Aggregate { input: i, group_expr, aggr_expr, schema } && *i == input
        && group_expr@ == group && aggr_expr@ == aggr && schema@ == fields_of(
        group,
        plan_schema(input),
    ) + fields_of(aggr, plan_schema(input))
}

/// An aggregate's schema holds one field for each group expression, then one
/// for each aggregate expression, each derived over the input's schema.
pub proof fn lemma_aggregate_schema(
    p: LogicalPlan,
    group: Seq<Expr>,
    aggr: Seq<Expr>,
    input: LogicalPlan,
)
    requires
        aggregate_of(p, group, aggr, input),
    ensures
        plan_schema(p).len() == group.len() + aggr.len(),
        forall|i: int|
            0 <= i < group.len() ==> plan_schema(p)[i] == field_of(
                #[trigger] group[i],
                plan_schema(input),
            ),
        forall|j: int|
            0 <= j < aggr.len() ==> plan_schema(p)[group.len() + j] == field_of(
                #[trigger] aggr[j],
                plan_schema(input),
            ),
{
    let g = fields_of(group, plan_schema(input));
    let a = fields_of(aggr, plan_schema(input));
    assert(plan_schema(p) == g + a);
    assert forall|j: int| 0 <= j < aggr.len() implies plan_schema(p)[group.len() + j] == field_of(
        #[trigger] aggr[j],
        plan_schema(input),
    ) by {
        assert((g + a)[group.len() + j] == a[j]);
    }
}

/// Where a plan is executed, as its context decides.
#[derive(Debug, Clone, PartialEq, Eq)]
pub enum Execution {
    /// The in-process engine, reading `batch_size` rows at a time.
    Local { batch_size: usize },
    /// The network client, sending one collect request to `host` and `port`.
    Network { host: String, port: usize },
}

/// The key under which a Spark context's settings hold the executor's host.
pub const SPARK_HOST: &'static str = "spark.ballista.host";

/// The key under which a Spark context's settings hold the executor's port.
pub const SPARK_PORT: &'static str = "spark.ballista.port";

/// The batch size of a local context with these settings: the override of the
/// batch-size key, else its default "1024", read as an unsigned integer.
pub open spec fn local_batch_size(settings: SettingsView) -> Option<nat> {
    parse_decimal(
        match lookup(settings, CSV_BATCH_SIZE@) {
            Some(v) => v,
            None => "1024"@,
        },
    )
}

/// What collecting a plan does in state `st`: where it is sent, or `None`
/// where the settings that it needs are missing or not numbers.
pub open spec fn execution_of(st: ContextState) -> Option<(Option<Seq<char>>, nat)> {
    match st {
        ContextState::Local { settings } => match local_batch_size(settings_view(settings@)) {
            Some(n) => Some((None, n)),
            None => None,
        },
        ContextState::Remote { host, port, .. } => Some((Some(host@), port as nat)),
        ContextState::Spark { spark_settings, .. } => {
            let s = settings_view(spark_settings@);
            match (lookup(s, SPARK_HOST@), lookup(s, SPARK_PORT@)) {
                (Some(h), Some(p)) => match parse_decimal(p) {
                    Some(n) => Some((Some(h), n)),
                    None => None,
                },
                _ => None,
            }
        },
    }
}

pub open spec fn execution_view(e: Execution) -> (Option<Seq<char>>, nat) {
    match e {
        Execution::Local { batch_size } => (None, batch_size as nat),
        Execution::Network { host, port } => (Some(host@), port as nat),
    }
}

impl DataFrame {
    /// Projects this plan onto `expr`, each wildcard in it replaced by one
    /// column reference for each input field. Fails where an expression refers
    /// to a field that the input does not have.
    pub fn project(&self, expr: Vec<Expr>) -> (r: Result<DataFrame, BallistaError>)
        ensures
            r.is_ok() == exprs_valid(
                expand_wildcards(expr@, plan_schema(self.spec_plan()).len()),
                plan_schema(self.spec_plan()).len(),
            ),
            r matches Err(e) ==> e is SchemaError,
            r matches Ok(df) ==> df.spec_state() == self.spec_state() && projection_of(
                df.spec_plan(),
                expand_wildcards(expr@, plan_schema(self.spec_plan()).len()),
                self.spec_plan(),
            ),
            r matches Ok(df) ==> has_no_wildcard(expr@) ==> plan_schema(df.spec_plan()) == fields_of(
                expr@,
                plan_schema(self.spec_plan()),
            ),
    {
        let input_schema = self.plan.schema();
        let n = input_schema.fields.len();
        let ghost width = plan_schema(self.spec_plan()).len();
        assert(width == n);
        let ghost orig = expr@;
        let total = expr.len();
        assert(orig.len() == total);
        let mut rest = expr;
        let mut projected: Vec<Expr> = Vec::new();
        let mut k: usize = 0;
        while rest.len() > 0
            invariant
                k <= orig.len(),
                orig.len() <= usize::MAX,
                n == width,
                rest@ == orig.subrange(k as int, orig.len() as int),
                projected@ == expand_wildcards(orig.subrange(0, k as int), width),
            decreases rest@.len(),
        {
            let e = rest.remove(0);
            assert(orig.subrange(0, k + 1).drop_last() =~= orig.subrange(0, k as int));
            assert(orig.subrange(0, k + 1).last() == e);
            let ghost before = projected@;
            match e {
                Expr::Wildcard => {
                    let mut j: usize = 0;
                    while j < n
                        invariant
                            j <= n,
                            n == width,
                            projected@ == before + columns(width).subrange(0, j as int),
                        decreases n - j,
                    {
                        projected.push(Expr::Column(j));
                        j += 1;
                        assert(projected@ =~= before + columns(width).subrange(0, j as int));
                    }
                    assert(columns(width).subrange(0, n as int) =~= columns(width));
                },
                other => {
                    projected.push(other);
                },
            }
            k += 1;
            assert(rest@ =~= orig.subrange(k as int, orig.len() as int));
        }
        assert(orig.subrange(0, k as int) =~= orig);
        let fields = exprlist_to_fields(&projected, input_schema)?;
        let schema = Schema::new(fields);
        proof {
            if has_no_wildcard(orig) {
                lemma_expand_without_wildcards(orig, width);
            }
        }
        Ok(
            Self::from(
                self.ctx_state.clone(),
                LogicalPlan::Projection { expr: projected, input: self.plan.clone(), schema },
            ),
        )
    }

    /// Groups this plan by `group_expr` and computes `aggr_expr`. Fails where
    /// an expression refers to a field that the input does not have.
    pub fn aggregate(&self, group_expr: Vec<Expr>, aggr_expr: Vec<Expr>) -> (r: Result<
        DataFrame,
        BallistaError,
    >)
        ensures
            r.is_ok() == (exprs_valid(group_expr@, plan_schema(self.spec_plan()).len())
                && exprs_valid(aggr_expr@, plan_schema(self.spec_plan()).len())),
            r matches Err(e) ==> e is SchemaError,
            r matches Ok(df) ==> df.spec_state() == self.spec_state() && aggregate_of(
                df.spec_plan(),
                group_expr@,
                aggr_expr@,
                self.spec_plan(),
            ),
    {
        let input_schema = self.plan.schema();
        let mut fields = exprlist_to_fields(&group_expr, input_schema)?;
        let mut aggr_fields = exprlist_to_fields(&aggr_expr, input_schema)?;
        let ghost g = fields@;
        let ghost a = aggr_fields@;
        fields.append(&mut aggr_fields);
        assert(fields_view(fields@) =~= fields_view(g) + fields_view(a));
        Ok(
            Self::from(
                self.ctx_state.clone(),
                LogicalPlan::Aggregate {
                    input: self.plan.clone(),
                    group_expr,
                    aggr_expr,
                    schema: Schema::new(fields),
                },
            ),
        )
    }

    /// Decides where collecting this plan runs: the in-process engine with
    /// the configured batch size, or the network client at the context's host
    /// and port. Fails, before anything is sent, where a setting that this
    /// needs is missing or is not an unsigned integer.
    pub fn execution(&self) -> (r: Result<Execution, BallistaError>)
        ensures
            match execution_of(self.spec_state()) {
                Some(x) => r matches Ok(e) && execution_view(e) == x && (e is Local
                    <==> self.spec_state() is Local),
                None => r matches Err(BallistaError::ConfigurationError(_)),
            },
    {
        match &*self.ctx_state {
            ContextState::Local { settings } => {
                let configs = Configs::new(copy_settings(settings));
                let size = match configs.csv_batch_size() {
                    Some(v) => v,
                    None => {
                        return Err(
                            BallistaError::ConfigurationError("no batch size".to_owned()),
                        );
                    },
                };
                match parse_usize(size.as_str()) {
                    Some(n) => Ok(Execution::Local { batch_size: n }),
                    None => Err(
                        BallistaError::ConfigurationError(
                            "the batch size is not an unsigned integer".to_owned(),
                        ),
                    ),
                }
            },
            ContextState::Remote { host, port, .. } => Ok(
                Execution::Network { host: host.clone(), port: *port },
            ),
            ContextState::Spark { spark_settings, .. } => {
                let host = match lookup_setting(spark_settings, SPARK_HOST) {
                    Some(h) => h,
                    None => {
                        return Err(
                            BallistaError::ConfigurationError(
                                "the settings hold no spark.ballista.host".to_owned(),
                            ),
                        );
                    },
                };
                let port = match lookup_setting(spark_settings, SPARK_PORT) {
                    Some(p) => p,
                    None => {
                        return Err(
                            BallistaError::ConfigurationError(
                                "the settings hold no spark.ballista.port".to_owned(),
                            ),
                        );
                    },
                };
                match parse_usize(port.as_str()) {
                    Some(p) => Ok(Execution::Network { host, port: p }),
                    None => Err(
                        BallistaError::ConfigurationError(
                            "spark.ballista.port is not an unsigned integer".to_owned(),
                        ),
                    ),
                }
            },
        }
    }
}

/// With no override of the batch size, a local context reads 1024 rows at a time.
pub proof fn lemma_local_default_batch_size(settings: SettingsView)
    requires
        lookup(settings, CSV_BATCH_SIZE@).is_none(),
    ensures
        local_batch_size(settings) == Some(1024nat),
{
    reveal_strlit("1024");
    let s = "1024"@;
    assert(s.drop_last().drop_last().drop_last().drop_last().len() == 0);
    reveal_with_fuel(digits_value, 5);
    assert(digits_value(s) == 1024);
}

} // verus!
