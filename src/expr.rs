use crate::error::BallistaError;
use crate::schema::{DataType, Field, FieldView, Schema};
use crate::text::{decimal, push_decimal};
use vstd::prelude::*;

verus! {

/// A typed constant.
#[derive(Debug, Clone, PartialEq, Eq)]
pub enum ScalarValue {
    Boolean(bool),
    UInt64(u64),
    Utf8(String),
}

/// A value or computation that a plan node refers to.
#[derive(Debug, PartialEq, Eq)]
pub enum Expr {
    /// The field at this position of the input schema.
    Column(usize),
    /// A constant.
    Literal(ScalarValue),
    /// All fields of the input, in order; meaningful in a projection only.
    Wildcard,
    /// A named aggregate call with a declared return type.
    AggregateFunction { name: String, args: Vec<Expr>, return_type: DataType },
}

impl Expr {
    /// A copy of this expression; an aggregate call's arguments are copied
    /// one by one.
    pub fn duplicate(&self) -> (r: Expr)
        ensures
            match *self {
                Expr::AggregateFunction { name, args, return_type } => r matches Expr::AggregateFunction {
                    name: n,
                    args: a,
                    return_type: t,
                } && n == name && a@.len() == args@.len() && t == return_type,
                _ => r == *self,
            },
        decreases self,
    {
        match self {
            Expr::Column(i) => Expr::Column(*i),
            Expr::Literal(v) => Expr::Literal(v.duplicate()),
            Expr::Wildcard => Expr::Wildcard,
            Expr::AggregateFunction { name, args, return_type } => {
                let mut copied: Vec<Expr> = Vec::new();
                let mut i: usize = 0;
                while i < args.len()
                    invariant
                        i <= args@.len(),
                        copied@.len() == i,
                        *self is AggregateFunction,
                        self->AggregateFunction_args == *args,
                    decreases args@.len() - i,
                {
                    proof {
                        vstd::std_specs::vec::axiom_vec_index_decreases(*args, i as int);
                        assert(decreases_to!(*self => self->AggregateFunction_args));
                    }
                    copied.push(args[i].duplicate());
                    i += 1;
                }
                Expr::AggregateFunction {
                    name: name.clone(),
                    args: copied,
                    return_type: return_type.duplicate(),
                }
            },
        }
    }
}

impl Clone for Expr {
    fn clone(&self) -> Self {
        self.duplicate()
    }
}

impl ScalarValue {
    /// A constant equal to this one.
    pub fn duplicate(&self) -> (r: ScalarValue)
        ensures
            r == *self,
    {
        match self {
            ScalarValue::Boolean(b) => ScalarValue::Boolean(*b),
            ScalarValue::UInt64(n) => ScalarValue::UInt64(*n),
            ScalarValue::Utf8(s) => ScalarValue::Utf8(s.clone()),
        }
    }
}

/// The type of a constant.
pub open spec fn scalar_type(v: ScalarValue) -> DataType {
    match v {
        ScalarValue::Boolean(_) => DataType::Boolean,
        ScalarValue::UInt64(_) => DataType::UInt64,
        ScalarValue::Utf8(_) => DataType::Utf8,
    }
}

/// The name of the field that a constant yields: its rendering as text.
pub open spec fn scalar_name(v: ScalarValue) -> Seq<char> {
    match v {
        ScalarValue::Boolean(b) => if b {
            "true"@
        } else {
            "false"@
        },
        ScalarValue::UInt64(n) => decimal(n as nat),
        ScalarValue::Utf8(s) => s@,
    }
}

/// An expression from which a field can be derived over an input of `len`
/// fields: a column in range, a constant or an aggregate call.
pub open spec fn expr_valid(e: Expr, len: nat) -> bool {
    match e {
        Expr::Column(i) => i < len,
        Expr::Wildcard => false,
        _ => true,
    }
}

/// The field that an expression yields over the input schema `input`.
pub open spec fn field_of(e: Expr, input: Seq<FieldView>) -> FieldView {
    match e {
        Expr::Column(i) => input[i as int],
        Expr::Literal(v) => (scalar_name(v), scalar_type(v)),
        Expr::AggregateFunction { name, return_type, .. } => (name@, return_type),
        Expr::Wildcard => (Seq::empty(), DataType::Boolean),
    }
}

pub open spec fn exprs_valid(exprs: Seq<Expr>, len: nat) -> bool {
    forall|i: int| 0 <= i < exprs.len() ==> expr_valid(#[trigger] exprs[i], len)
}

/// The fields that an expression list yields, one for each expression.
pub open spec fn fields_of(exprs: Seq<Expr>, input: Seq<FieldView>) -> Seq<FieldView> {
    exprs.map_values(|e: Expr| field_of(e, input))
}

fn scalar_field(v: &ScalarValue) -> (r: Field)
    ensures
        r@ == (scalar_name(*v), scalar_type(*v)),
{
    match v {
        ScalarValue::Boolean(b) => {
            let name = if *b {
                "true".to_owned()
            } else {
                "false".to_owned()
            };
            Field { name, data_type: DataType::Boolean }
        },
        ScalarValue::UInt64(n) => {
            let mut name = String::new();
            push_decimal(&mut name, *n);
            assert(name@ =~= decimal(*n as nat));
            Field { name, data_type: DataType::UInt64 }
        },
        ScalarValue::Utf8(s) => Field { name: s.clone(), data_type: DataType::Utf8 },
    }
}

/// Derives the field of one expression over `input`.
pub fn expr_to_field(e: &Expr, input: &Schema) -> (r: Result<Field, BallistaError>)
    ensures
        r.is_ok() == expr_valid(*e, input@.len()),
        r matches Ok(f) ==> f@ == field_of(*e, input@),
        r matches Err(err) ==> err is SchemaError,
{
    match e {
        Expr::Column(i) => {
            if *i < input.fields.len() {
                Ok(input.field(*i).duplicate())
            } else {
                Err(BallistaError::SchemaError("column index is past the last field".to_owned()))
            }
        },
        Expr::Literal(v) => Ok(scalar_field(v)),
        Expr::Wildcard => Err(
            BallistaError::SchemaError("a wildcard has no field of its own".to_owned()),
        ),
        Expr::AggregateFunction { name, return_type, .. } => Ok(
            Field { name: name.clone(), data_type: return_type.duplicate() },
        ),
    }
}

/// Derives the fields of an expression list over `input`, in order.
pub fn exprlist_to_fields(exprs: &Vec<Expr>, input: &Schema) -> (r: Result<
    Vec<Field>,
    BallistaError,
>)
    ensures
        r.is_ok() == exprs_valid(exprs@, input@.len()),
        r matches Ok(fs) ==> crate::schema::fields_view(fs@) == fields_of(exprs@, input@),
        r matches Err(err) ==> err is SchemaError,
{
    let mut fields: Vec<Field> = Vec::new();
    let mut i: usize = 0;
    while i < exprs.len()
        invariant
            i <= exprs@.len(),
            fields@.len() == i,
            forall|j: int| 0 <= j < i ==> expr_valid(#[trigger] exprs@[j], input@.len()),
            forall|j: int| 0 <= j < i ==> (#[trigger] fields@[j])@ == field_of(exprs@[j], input@),
        decreases exprs@.len() - i,
    {
        match expr_to_field(&exprs[i], input) {
            Ok(f) => {
                fields.push(f);
            },
            Err(e) => {
                assert(!expr_valid(exprs@[i as int], input@.len()));
                return Err(e);
            },
        }
        i += 1;
    }
    assert(crate::schema::fields_view(fields@) =~= fields_of(exprs@, input@));
    Ok(fields)
}

/// A call of the aggregate function `name` on `expr`. Its declared return type
/// is always `Float64`, whatever the argument's type.
pub fn aggregate_expr(name: &str, expr: Expr) -> (r: Expr)
    ensures
        r matches Expr::AggregateFunction { name: n, args, return_type } && n@ == name@
            && args@ == seq![expr] && return_type == DataType::Float64,
{
    Expr::AggregateFunction { name: name.to_owned(), args: vec![expr], return_type: DataType::Float64 }
}

/// The minimum of `expr` over a group.
pub fn min(expr: Expr) -> (r: Expr)
    ensures
        r matches Expr::AggregateFunction { name, args, return_type } && name@ == "MIN"@
            && args@ == seq![expr] && return_type == DataType::Float64,
{
    aggregate_expr("MIN", expr)
}

/// The maximum of `expr` over a group.
pub fn max(expr: Expr) -> (r: Expr)
    ensures
        r matches Expr::AggregateFunction { name, args, return_type } && name@ == "MAX"@
            && args@ == seq![expr] && return_type == DataType::Float64,
{
    aggregate_expr("MAX", expr)
}

/// The sum of `expr` over a group.
pub fn sum(expr: Expr) -> (r: Expr)
    ensures
        r matches Expr::AggregateFunction { name, args, return_type } && name@ == "SUM"@
            && args@ == seq![expr] && return_type == DataType::Float64,
{
    aggregate_expr("SUM", expr)
}

} // verus!
