//! What is recorded of a payment: how it was made and where it stands.

use vstd::prelude::*;
use crate::schema::phone::PHPhoneNumber;
use crate::text::{decimal, decimal_text, push_decimal};

verus! {

/// The layout of stored payment data. Only one exists so far.
#[derive(Clone, Copy, Debug, PartialEq, Eq, Structural)]
pub struct PaymentDataVersion;

impl PaymentDataVersion {
    /// The number that stored payment data carries for this layout.
    pub const CURRENT_VERSION: u64 = 1u64;

    /// The layout numbered `value`, which must be the current one.
    pub fn from_number(value: u64) -> (r: Result<PaymentDataVersion, UnknownPaymentDataVersion>)
        ensures
            r is Ok <==> value == Self::CURRENT_VERSION,
            r matches Err(e) ==> e.found == value,
    {
        if value != Self::CURRENT_VERSION {
            Err(UnknownPaymentDataVersion { found: value })
        } else {
            Ok(PaymentDataVersion)
        }
    }

    /// The layout's number as text.
    pub fn display(&self) -> (r: String)
        ensures
            r@ == decimal_text(Self::CURRENT_VERSION as nat),
    {
        decimal(Self::CURRENT_VERSION)
    }

    /// The number stored for this layout.
    pub fn number(&self) -> (r: u64)
        ensures
            r == Self::CURRENT_VERSION,
    {
        Self::CURRENT_VERSION
    }
}

impl Default for PaymentDataVersion {
    fn default() -> (v: PaymentDataVersion) {
        PaymentDataVersion
    }
}

/// Stored payment data carried a layout number that is not the current one.
#[derive(Clone, Copy, Debug, PartialEq, Eq, Structural)]
pub struct UnknownPaymentDataVersion {
    pub found: u64,
}

impl UnknownPaymentDataVersion {
    /// The error in words, with the number found.
    pub fn message(&self) -> (r: String)
        ensures
            r@ == "payment data is far ahead from the current version ("@ + decimal_text(self.found as nat)
                + " >= "@ + decimal_text(PaymentDataVersion::CURRENT_VERSION as nat) + ")"@,
    {
        let mut r = "payment data is far ahead from the current version (".to_owned();
        push_decimal(&mut r, self.found);
        r.append(" >= ");
        push_decimal(&mut r, PaymentDataVersion::CURRENT_VERSION);
        r.append(")");
        r
    }
}

/// How a payment was made.
#[derive(Clone, Debug)]
pub enum PaymentMethod {
    /// Through one of the popular e-wallets of the Philippines.
    Mynt {
        name: Option<String>,
        phone_number: Option<PHPhoneNumber>,
        proof_image_url: Option<String>,
        reference_number: Option<String>,
    },
    PayPal {
        name: Option<String>,
        proof_image_url: Option<String>,
        transaction_id: Option<String>,
    },
}

/// Where a payment stands.
#[derive(Clone, Debug)]
pub enum PaymentStatus {
    Success,
    Pending,
    Failed { reason: String },
    Refunded { reason: String },
    /// The payer could not pay in time for a good reason; the next payment
    /// is due on `next_payment`, counted in days from January 1 of year 1.
    Void { next_payment: i32, reason: String },
}

impl Default for PaymentStatus {
    /// A payment is pending until it is settled.
    fn default() -> (s: PaymentStatus)
        ensures
            s is Pending,
    {
        PaymentStatus::Pending
    }
}

/// A payment's method and status, in the current layout.
#[derive(Clone, Debug)]
pub struct PaymentData {
    pub version: PaymentDataVersion,
    pub method: PaymentMethod,
    pub status: PaymentStatus,
}

impl PaymentData {
    /// A pending payment made by `method`.
    pub fn new(method: PaymentMethod) -> (d: PaymentData)
        ensures
            d.method == method,
            d.status is Pending,
    {
        PaymentData { version: PaymentDataVersion, method, status: PaymentStatus::Pending }
    }

    /// A payment made by `method` that stands at `status`.
    pub fn with_status(method: PaymentMethod, status: PaymentStatus) -> (d: PaymentData)
        ensures
            d.method == method,
            d.status == status,
    {
        PaymentData { version: PaymentDataVersion, method, status }
    }
}

} // verus!
