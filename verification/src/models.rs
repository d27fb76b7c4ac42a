use vstd::prelude::*;

use crate::enums::{CurrencyEnum, MonthEnum, TransactionType};
use crate::types::ShowMessage;

verus! {

/// A registered user, as the service returns it.
#[derive(Debug, PartialEq)]
pub struct UserModel {
    pub user_id: String,
    pub email: String,
    pub first_name: String,
    pub last_name: String,
    pub password: String,
}

impl Clone for UserModel {
    fn clone(&self) -> (r: Self)
        ensures
            r == *self,
    {
        UserModel {
            user_id: self.user_id.clone(),
            email: self.email.clone(),
            first_name: self.first_name.clone(),
            last_name: self.last_name.clone(),
            password: self.password.clone(),
        }
    }
}

/// A spending category, as the service returns it.
#[derive(Debug, PartialEq)]
pub struct CategoryModel {
    pub category_id: String,
    pub kind: TransactionType,
    pub name: String,
    pub note: Option<String>,
    pub user_id: String,
    pub user: Option<UserModel>,
}

impl Clone for CategoryModel {
    fn clone(&self) -> (r: Self)
        ensures
            r == *self,
    {
        CategoryModel {
            category_id: self.category_id.clone(),
            kind: self.kind,
            name: self.name.clone(),
            note: match &self.note {
                Some(n) => Some(n.clone()),
                None => None,
            },
            user_id: self.user_id.clone(),
            user: match &self.user {
                Some(u) => Some(u.clone()),
                None => None,
            },
        }
    }
}

/// One transaction record.  The amount is carried as the text the service's
/// number is rendered with, alongside its currency; the calendar day is
/// optional, as some records carry none.
#[derive(Debug, PartialEq)]
pub struct TransactionModel {
    pub transaction_id: String,
    pub kind: TransactionType,
    pub amount_label: String,
    pub currency: CurrencyEnum,
    pub note: Option<String>,
    pub day: Option<u8>,
    pub month: MonthEnum,
    pub year: u16,
    pub exchange_rate_label: Option<String>,
    pub user_id: String,
    pub user: Option<UserModel>,
    pub category_id: String,
    pub category: Option<CategoryModel>,
}

impl Clone for TransactionModel {
    fn clone(&self) -> (r: Self)
        ensures
            r == *self,
    {
        TransactionModel {
            transaction_id: self.transaction_id.clone(),
            kind: self.kind,
            amount_label: self.amount_label.clone(),
            currency: self.currency,
            note: match &self.note {
                Some(n) => Some(n.clone()),
                None => None,
            },
            day: self.day,
            month: self.month,
            year: self.year,
            exchange_rate_label: match &self.exchange_rate_label {
                Some(x) => Some(x.clone()),
                None => None,
            },
            user_id: self.user_id.clone(),
            user: match &self.user {
                Some(u) => Some(u.clone()),
                None => None,
            },
            category_id: self.category_id.clone(),
            category: match &self.category {
                Some(c) => Some(c.clone()),
                None => None,
            },
        }
    }
}

/// What a failed remote call carries: the envelope's payload, its machine
/// message, and its user-facing bilingual message, each optional.
#[derive(Debug)]
pub struct CustomError<T> {
    pub data: Option<T>,
    pub message: Option<String>,
    pub show_message: Option<ShowMessage>,
}

impl<T> CustomError<T> {
    pub fn new(data: Option<T>, message: Option<String>, show_message: Option<ShowMessage>) -> (r:
        CustomError<T>)
        ensures
            r.data == data,
            r.message == message,
            r.show_message == show_message,
    {
        CustomError { data, message, show_message }
    }

    /// The text shown for this error: the English user-facing message when one
    /// came, else the machine message, else a generic fallback.
    pub fn message_text(&self) -> (r: String)
        ensures
            match self.show_message {
                Some(ref sm) => r@ == sm.en@,
                None => match self.message {
                    Some(ref m) => r@ == m@,
                    None => r@ == "Generic error"@,
                },
            },
    {
        match &self.show_message {
            Some(sm) => sm.en.clone(),
            None => match &self.message {
                Some(m) => m.clone(),
                None => "Generic error".to_owned(),
            },
        }
    }
}

} // verus!
