//! The queries that list bills, a payer's identities and payments.

use vstd::prelude::*;
use vstd::string::*;
use crate::nonzero::NonZeroU64;
use crate::sql::{SqlArg, SqlArgView, args_view};

verus! {

/// Lists every bill.
#[derive(Clone, Copy, Debug)]
pub struct GetAllBills;

impl GetAllBills {
    /// The text of the query.
    pub fn sql(&self) -> (r: String)
        ensures
            r@ == "SELECT * FROM bills"@,
    {
        "SELECT * FROM bills".to_owned()
    }

    /// The arguments of the query: none.
    pub fn args(&self) -> (r: Vec<SqlArg>)
        ensures
            r@.len() == 0,
    {
        Vec::new()
    }
}

/// Lists the identities of one payer: their names and game account ids.
#[derive(Clone, Copy, Debug)]
pub struct GetAllIdentities {
    pub payer_id: NonZeroU64,
}

impl GetAllIdentities {
    /// The text of the query.
    pub fn sql(&self) -> (r: String)
        ensures
            r@ == "SELECT name, uuid FROM identities "@ + "WHERE payer_id = $1"@,
    {
        let mut r = "SELECT name, uuid FROM identities ".to_owned();
        r.append("WHERE payer_id = $1");
        r
    }

    /// The arguments of the query: the payer's id.
    pub fn args(&self) -> (r: Vec<SqlArg>)
        ensures
            args_view(r@) == seq![SqlArgView::Snowflake(self.payer_id.value())],
    {
        let mut r: Vec<SqlArg> = Vec::new();
        r.push(SqlArg::Snowflake(self.payer_id.get()));
        assert(args_view(r@) =~= seq![SqlArgView::Snowflake(self.payer_id.value())]);
        r
    }
}

/// Lists payments, perhaps only those of one bill or of one payer.
#[derive(Clone, Copy, Debug)]
pub struct GetAllPayments {
    bill_id: Option<i64>,
    payer_id: Option<NonZeroU64>,
}

/// The filters of a payment listing. Each one starts with ` WHERE `,
/// also the second when both are set.
pub open spec fn payment_filters(bill: bool, payer: bool) -> Seq<char> {
    let a = if bill { " WHERE "@ + "bill_id = $1"@ } else { Seq::empty() };
    if payer {
        if bill { a + " WHERE "@ + "payer_id = $2"@ } else { a + " WHERE "@ + "payer_id = $1"@ }
    } else {
        a
    }
}

impl GetAllPayments {
    pub closed spec fn spec_bill_id(&self) -> Option<i64> {
        self.bill_id
    }

    pub closed spec fn spec_payer_id(&self) -> Option<u64> {
        match self.payer_id {
            Some(p) => Some(p.value()),
            None => None,
        }
    }

    /// The text of the query.
    pub open spec fn spec_sql(&self) -> Seq<char> {
        "SELECT * FROM payments"@ + payment_filters(self.spec_bill_id() is Some, self.spec_payer_id() is Some)
    }

    /// The arguments of the query: the bill's id, then the payer's, each
    /// when it filters.
    pub open spec fn spec_args(&self) -> Seq<SqlArgView> {
        let a = if self.spec_bill_id() is Some { seq![SqlArgView::I64(self.spec_bill_id()->0)] } else { Seq::empty() };
        if self.spec_payer_id() is Some { a.push(SqlArgView::Snowflake(self.spec_payer_id()->0)) } else { a }
    }

    /// All payments.
    pub fn new() -> (q: GetAllPayments)
        ensures
            q.spec_bill_id() is None,
            q.spec_payer_id() is None,
    {
        GetAllPayments { bill_id: None, payer_id: None }
    }

    /// Only the payments of bill `id`, or of any bill when `None`.
    pub fn bill_id(self, id: Option<i64>) -> (q: GetAllPayments)
        ensures
            q.spec_bill_id() == id,
            q.spec_payer_id() == self.spec_payer_id(),
    {
        GetAllPayments { bill_id: id, ..self }
    }

    /// Only the payments of payer `id`, or of any payer when `None`.
    pub fn payer_id(self, id: Option<NonZeroU64>) -> (q: GetAllPayments)
        ensures
            q.spec_payer_id() == (match id {
                Some(p) => Some(p.value()),
                None => None,
            }),
            q.spec_bill_id() == self.spec_bill_id(),
    {
        GetAllPayments { payer_id: id, ..self }
    }

    /// The text of the query.
    pub fn sql(&self) -> (r: String)
        ensures
            r@ == self.spec_sql(),
    {
        let mut r = "SELECT * FROM payments".to_owned();
        let mut count: u8 = 0;
        if self.bill_id.is_some() {
            count = count + 1;
            r.append(" WHERE ");
            r.append("bill_id = $1");
        }
        if self.payer_id.is_some() {
            count = count + 1;
            r.append(" WHERE ");
            if count == 1 {
                r.append("payer_id = $1");
            } else {
                r.append("payer_id = $2");
            }
        }
        r
    }

    /// The arguments of the query, in the order of their numbers.
    pub fn args(&self) -> (r: Vec<SqlArg>)
        ensures
            args_view(r@) == self.spec_args(),
    {
        let mut r: Vec<SqlArg> = Vec::new();
        if let Some(bill_id) = self.bill_id {
            r.push(SqlArg::I64(bill_id));
        }
        if let Some(payer_id) = self.payer_id {
            r.push(SqlArg::Snowflake(payer_id.get()));
        }
        assert(args_view(r@) =~= self.spec_args());
        r
    }
}

/// Each filter of a payment listing binds exactly one argument.
pub proof fn law_payment_listing_binds_each_filter(q: GetAllPayments)
    ensures
        q.spec_args().len() == (if q.spec_bill_id() is Some { 1int } else { 0int }) + (if q.spec_payer_id() is Some { 1int } else { 0int }),
{
}

} // verus!
