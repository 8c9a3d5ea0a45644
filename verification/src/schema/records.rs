//! Stored records of users, identities and payer applications. Points in
//! time are microseconds since the epoch; Discord ids are never zero.

use vstd::prelude::*;
use crate::nonzero::NonZeroU64;

verus! {

/// A Discord user known to the bot.
#[derive(Clone, Copy, Debug)]
pub struct User {
    pub id: NonZeroU64,
    pub created_at: i64,
    pub updated_at: Option<i64>,
    pub developer_mode: bool,
}

/// A game account of a payer.
#[derive(Clone, Debug)]
pub struct Identity {
    pub id: i64,
    pub payer_id: NonZeroU64,
    pub created_at: i64,
    pub name: Option<String>,
    pub uuid: Option<uuid::Uuid>,
}

/// The name and account id of an identity.
#[derive(Clone, Debug)]
pub struct IdentityView {
    pub name: Option<String>,
    pub uuid: Option<uuid::Uuid>,
}

/// An application to become a payer, and its verdict once given.
#[derive(Clone, Debug)]
pub struct PayerApplication {
    pub id: uuid::Uuid,
    pub created_at: i64,
    pub updated_at: Option<i64>,
    pub name: String,
    pub user_id: NonZeroU64,
    pub java_username: String,
    pub bedrock_username: Option<String>,
    /// `None` while the application waits for a verdict.
    pub accepted: Option<bool>,
    pub answer: String,
    pub deny_reason: Option<String>,
    pub icon_url: Option<String>,
}

impl PayerApplication {
    /// Whether the application still waits for a verdict.
    pub fn is_pending(&self) -> (r: bool)
        ensures
            r == (self.accepted is None),
    {
        self.accepted.is_none()
    }
}

impl Identity {
    /// The name and account id of the identity.
    pub fn as_view(&self) -> (v: IdentityView)
        ensures
            v.name == self.name,
            v.uuid == self.uuid,
    {
        IdentityView { name: self.name.clone(), uuid: self.uuid }
    }
}

} // verus!
