//! The balance bookkeeping shapes and the condition language of the
//! persistence boundary. The store itself is an external collaborator;
//! only the shapes and the operator rendering live here.
use vstd::prelude::*;

verus! {

/// A token's balance row.
#[derive(Debug, Clone)]
pub struct Balance {
    pub token: String,
    pub invoice: String,
    pub balance_msat: i64,
    pub created_at: i64,
    pub updated_at: i64,
}

/// The fields a new balance row is created from.
pub struct BalanceForCreate {
    pub token: String,
    pub invoice: String,
    pub balance_msat: i64,
}

/// The fields an update may change.
pub struct BalanceForUpdate {
    pub token: Option<String>,
    pub balance_msat: Option<i64>,
}

/// The balance model controller; its store operations live with the store.
pub struct BalanceBmc;

/// A comparison operator of the condition language.
#[derive(Debug, Clone)]
pub enum Op {
    Eq,
    Ne,
    Gt,
    Ge,
    Lt,
    Le,
}

impl Op {
    /// The SQL rendering of the operator.
    pub fn as_str(&self) -> (r: &'static str)
        ensures
            r@ == match self {
                Op::Eq => "="@,
                Op::Ne => "!="@,
                Op::Gt => ">"@,
                Op::Ge => ">="@,
                Op::Lt => "<"@,
                Op::Le => "<="@,
            },
    {
        match self {
            Op::Eq => "=",
            Op::Ne => "!=",
            Op::Gt => ">",
            Op::Ge => ">=",
            Op::Lt => "<",
            Op::Le => "<=",
        }
    }
}

/// One comparison of a column against a value.
#[derive(Clone)]
pub struct Condition {
    pub name: String,
    pub op: Op,
    pub val: String,
}

} // verus!
