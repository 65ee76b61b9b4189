//! Which queries an export run asks of the books.

use vstd::prelude::*;
use crate::text::same_text;

verus! {

/// The kinds of query that fetch vouchers.
#[derive(Clone, Copy, Debug, PartialEq, Eq, Structural)]
pub enum QueryKind {
    /// The vouchers of a collection, each with its legs.
    Plain,
    /// Sales to a registered party or through a bank or a receivable
    /// account, each with its legs.
    CreditSales,
    /// All other sales, summed up into one voucher for each day.
    CashSales,
}

/// The query for `collection`. Only sales tell cash from credit; for every
/// other collection `cash` changes nothing.
pub open spec fn query_for(collection: Seq<char>, cash: Option<bool>) -> QueryKind {
    if collection == "sales"@ {
        if cash == Some(true) {
            QueryKind::CashSales
        } else {
            QueryKind::CreditSales
        }
    } else {
        QueryKind::Plain
    }
}

/// The queries for `collection`, in the order in which their vouchers are
/// exported: for sales the cash sales, then the credit sales.
pub open spec fn plan_for(collection: Seq<char>) -> Seq<QueryKind> {
    if collection == "sales"@ {
        seq![QueryKind::CashSales, QueryKind::CreditSales]
    } else {
        seq![QueryKind::Plain]
    }
}

/// Chooses the query for `collection`. A missing `cash` means no.
pub fn get_query(collection: &str, cash: Option<bool>) -> (out: QueryKind)
    ensures
        out == query_for(collection@, cash),
{
    if same_text(collection, "sales") {
        match cash {
            Some(true) => QueryKind::CashSales,
            _ => QueryKind::CreditSales,
        }
    } else {
        QueryKind::Plain
    }
}

/// The queries to run for `collection`, in order.
pub fn queries_for(collection: &str) -> (out: Vec<QueryKind>)
    ensures
        out@ == plan_for(collection@),
{
    let mut plan: Vec<QueryKind> = Vec::new();
    if same_text(collection, "sales") {
        plan.push(get_query(collection, Some(true)));
    }
    plan.push(get_query(collection, None));
    assert(plan@ =~= plan_for(collection@));
    plan
}

} // verus!
