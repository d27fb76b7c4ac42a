use vstd::prelude::*;

verus! {

/// A user-facing error text in both languages the service speaks.
#[derive(Debug, PartialEq)]
pub struct ShowMessage {
    pub en: String,
    pub es: String,
}

/// The envelope the remote service wraps around every response payload.
#[derive(Debug)]
pub struct CustomResponse<T> {
    pub data: Option<T>,
    pub result: bool,
    pub message: Option<String>,
    pub show_message: Option<ShowMessage>,
}

/// The locally stored configuration: the service's base address and, when a
/// session was already established, its token.
#[derive(Debug)]
pub struct Config {
    pub session_id: Option<String>,
    pub url: String,
}

/// The body of a login call.
pub struct LoginRequest {
    pub email: String,
    pub password: String,
}

/// What a successful login returns: the user and a session token.
pub struct LoginResponse {
    pub user: crate::models::UserModel,
    pub token: String,
}

/// The body of a user-creation call.
pub struct CreateUserRequest {
    pub email: String,
    pub first_name: String,
    pub last_name: String,
    pub password: String,
}

/// Per-currency totals of one category for the shown month.  Amounts are in
/// hundredths of the currency unit.
#[derive(Debug, PartialEq, Clone, Copy)]
pub struct TransactionTotal {
    pub total: i64,
    pub uyu: i64,
    pub usd: i64,
    pub eur: i64,
}

/// The balance summary of the shown month, one total block per category.
#[derive(Debug, PartialEq, Clone, Copy)]
pub struct TransactionBalances {
    pub incomes: TransactionTotal,
    pub expenses: TransactionTotal,
    pub savings: TransactionTotal,
}

/// The all-time savings total, rounded to whole currency units.
#[derive(Debug, PartialEq, Clone, Copy)]
pub struct GetTotalSaving {
    pub total_savings: i64,
}

/// One year of the picker hierarchy: the year's label and the ordered month
/// labels under it.
#[derive(Debug, PartialEq)]
pub struct MonthByYear {
    pub year: String,
    pub months: Vec<String>,
}

impl Clone for MonthByYear {
    fn clone(&self) -> (r: Self)
        ensures
            r.year@ == self.year@,
            r.months.deep_view() == self.months.deep_view(),
            r.months@.len() == self.months@.len(),
    {
        let mut months: Vec<String> = Vec::new();
        let mut i: usize = 0;
        while i < self.months.len()
            invariant
                i <= self.months.len(),
                months@.len() == i as int,
                forall|j: int| 0 <= j < i ==> months@[j]@ == self.months@[j]@,
            decreases self.months.len() - i,
        {
            months.push(self.months[i].clone());
            i += 1;
        }
        proof {
            assert(months.deep_view() =~= self.months.deep_view());
        }
        MonthByYear { year: self.year.clone(), months }
    }
}

} // verus!
