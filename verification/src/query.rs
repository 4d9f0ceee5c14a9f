use vstd::prelude::*;

use crate::datetime::KLineDateTime;
use crate::decimal::DecimalValue;

verus! {

/// A value bound to a `?` placeholder of a statement, with the SQL type that
/// the variant names.
#[derive(Clone, Debug, PartialEq)]
pub enum SqlArg {
    Text(String),
    DateTime(KLineDateTime),
    I32(i32),
    U16(u16),
    I64(i64),
    Decimal(DecimalValue),
}

/// The mathematical value of a bound argument.
pub enum ArgValue {
    Text(Seq<char>),
    DateTime(KLineDateTime),
    I32(i32),
    U16(u16),
    I64(i64),
    Decimal(DecimalValue),
}

impl View for SqlArg {
    type V = ArgValue;

    open spec fn view(&self) -> ArgValue {
        match self {
            SqlArg::Text(s) => ArgValue::Text(s@),
            SqlArg::DateTime(d) => ArgValue::DateTime(*d),
            SqlArg::I32(v) => ArgValue::I32(*v),
            SqlArg::U16(v) => ArgValue::U16(*v),
            SqlArg::I64(v) => ArgValue::I64(*v),
            SqlArg::Decimal(d) => ArgValue::Decimal(*d),
        }
    }
}

/// The values of a list of bound arguments, in order.
pub open spec fn args_view(args: Seq<SqlArg>) -> Seq<ArgValue> {
    args.map_values(|a: SqlArg| a@)
}

/// A statement and the values bound to its placeholders, in order.
#[derive(Clone, Debug)]
pub struct SqlQuery {
    pub sql: String,
    pub args: Vec<SqlArg>,
}

/// A keyed statement for a batch of writes: the key groups statements, the
/// statement and its bound values follow.
#[derive(Clone, Debug)]
pub struct SqlEntity {
    pub key: String,
    pub sql: String,
    pub args: Vec<SqlArg>,
}

} // verus!
