//! What is given to insert or change a record.
//!
//! Discord ids are the non-zero numbers that Discord hands out; calendar
//! days are counted from January 1 of year 1.

use vstd::prelude::*;
use crate::nonzero::NonZeroU64;

verus! {

/// A new admin: their Discord id, and perhaps a name.
#[derive(Clone, Copy, Debug)]
pub struct InsertAdminForm<'a> {
    pub id: NonZeroU64,
    pub name: Option<&'a str>,
}

/// An admin's new name.
#[derive(Clone, Copy, Debug)]
pub struct UpdateAdminForm<'a> {
    pub name: &'a str,
}

/// A new bill: who made it, its currency, the day it is due and its price.
#[derive(Clone, Debug)]
pub struct InsertBillForm<'a> {
    pub created_by: NonZeroU64,
    pub currency: &'a str,
    pub deadline: i32,
    pub price: rust_decimal::Decimal,
}

/// Changes to a bill; what is `None` stays as it is.
#[derive(Clone, Debug)]
pub struct UpdateBillForm<'a> {
    pub currency: Option<&'a str>,
    pub deadline: Option<i32>,
    pub price: Option<rust_decimal::Decimal>,
}

impl<'a> Default for UpdateBillForm<'a> {
    /// No change at all.
    fn default() -> (f: UpdateBillForm<'a>)
        ensures
            f.currency is None,
            f.deadline is None,
            f.price is None,
    {
        UpdateBillForm { currency: None, deadline: None, price: None }
    }
}

/// A new identity of a payer: a game account's name or id, or neither.
#[derive(Clone, Debug)]
pub struct InsertIdentityForm<'a> {
    pub payer_id: NonZeroU64,
    pub name: Option<&'a str>,
    pub uuid: Option<uuid::Uuid>,
}

/// A new payer, with the Java edition account they play as and perhaps
/// their Bedrock edition one.
#[derive(Clone, Copy, Debug)]
pub struct InsertPayerForm<'a> {
    pub id: NonZeroU64,
    pub name: &'a str,
    /// Every payer has at least this identity.
    pub java_username: &'a str,
    pub bedrock_username: Option<&'a str>,
}

/// A payer's new name.
#[derive(Clone, Copy, Debug)]
pub struct UpdatePayerForm<'a> {
    pub name: &'a str,
}

/// An application to become a payer.
#[derive(Clone, Copy, Debug)]
pub struct InsertPayerApplicationForm<'a> {
    pub user_id: NonZeroU64,
    pub name: &'a str,
    pub java_username: &'a str,
    pub bedrock_username: Option<&'a str>,
    pub answer: &'a str,
    pub icon_url: Option<&'a str>,
}

/// The verdict on an application, and why it was denied if it was.
#[derive(Clone, Copy, Debug)]
pub struct UpdatePayerApplicationForm<'a> {
    pub accepted: bool,
    pub deny_reason: &'a str,
}

/// Changes to a user's preferences; `None` keeps the stored value.
#[derive(Clone, Copy, Debug)]
pub struct UpdateUserForm {
    pub developer_mode: Option<bool>,
}

} // verus!
