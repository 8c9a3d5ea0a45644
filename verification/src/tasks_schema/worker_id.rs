//! Identity of one queue worker among all of them.

use vstd::prelude::*;
use vstd::std_specs::cmp::PartialOrdSpecImpl;
use crate::nonzero::NonZeroU32;
use crate::text::{decimal_text, push_decimal};
use core::cmp::Ordering;

verus! {

/// Which worker this is (`assigned`, from 1) out of `total` workers.
///
/// Tasks are spread over workers by their number, so that no two workers
/// run the same task.
#[derive(Clone, Copy, Debug, PartialEq, Eq)]
pub struct WorkerId {
    assigned: NonZeroU32,
    total: NonZeroU32,
}

impl WorkerId {
    /// The worker's number.
    pub closed spec fn spec_assigned(self) -> u32 {
        self.assigned.value()
    }

    /// The number of workers.
    pub closed spec fn spec_total(self) -> u32 {
        self.total.value()
    }

    /// Worker 1 out of 1.
    pub fn one() -> (w: WorkerId)
        ensures
            w.spec_assigned() == 1,
            w.spec_total() == 1,
    {
        WorkerId::new(1, 1)
    }

    /// Worker `assigned` out of `total`; both must be at least 1 and
    /// `assigned` at most `total`.
    pub fn new(assigned: u32, total: u32) -> (w: WorkerId)
        requires
            0 < assigned <= total,
        ensures
            w.spec_assigned() == assigned,
            w.spec_total() == total,
    {
        let assigned = NonZeroU32::new(assigned).unwrap();
        let total = NonZeroU32::new(total).unwrap();
        WorkerId { assigned, total }
    }

    /// Worker `assigned` out of `total`, when neither is zero. Unlike `new`,
    /// it does not compare the two.
    pub fn new_checked(assigned: u32, total: u32) -> (w: Option<WorkerId>)
        ensures
            w is Some <==> assigned > 0 && total > 0,
            w matches Some(w) ==> w.spec_assigned() == assigned && w.spec_total() == total,
    {
        let assigned = match NonZeroU32::new(assigned) {
            Some(n) => n,
            None => return None,
        };
        let total = match NonZeroU32::new(total) {
            Some(n) => n,
            None => return None,
        };
        Some(WorkerId { assigned, total })
    }

    /// Builds a worker id from its two numbers.
    pub fn from_parts(assigned: NonZeroU32, total: NonZeroU32) -> (w: WorkerId)
        ensures
            w.spec_assigned() == assigned.value(),
            w.spec_total() == total.value(),
    {
        WorkerId { assigned, total }
    }

    /// The worker's number, at least 1.
    pub fn assigned(self) -> (r: u32)
        ensures
            r == self.spec_assigned(),
            r > 0,
    {
        self.assigned.get()
    }

    /// The number of workers, at least 1.
    pub fn total(self) -> (r: u32)
        ensures
            r == self.spec_total(),
            r > 0,
    {
        self.total.get()
    }

    /// The worker's number as the database stores it.
    pub fn assigned_sql(self) -> (r: i64)
        ensures
            r == self.spec_assigned(),
    {
        self.assigned.get() as i64
    }

    /// The number of workers as the database stores it.
    pub fn total_sql(self) -> (r: i64)
        ensures
            r == self.spec_total(),
    {
        self.total.get() as i64
    }

    /// The id as text: `(assigned, total)`.
    pub fn display(self) -> (r: String)
        ensures
            r@ == "("@ + decimal_text(self.spec_assigned() as nat) + ", "@ + decimal_text(self.spec_total() as nat) + ")"@,
    {
        let mut r = "(".to_owned();
        push_decimal(&mut r, self.assigned.get() as u64);
        r.append(", ");
        push_decimal(&mut r, self.total.get() as u64);
        r.append(")");
        r
    }

    /// The two numbers, `(assigned, total)`.
    pub fn into_pair(self) -> (r: (u32, u32))
        ensures
            r == (self.spec_assigned(), self.spec_total()),
    {
        (self.assigned.get(), self.total.get())
    }
}

impl Default for WorkerId {
    fn default() -> (w: WorkerId)
        ensures
            w.spec_assigned() == 1,
            w.spec_total() == 1,
    {
        WorkerId::one()
    }
}

/// A key of a worker id written as a map: `assigned` (or its alias `id`),
/// `total`, or any other key, which is skipped.
#[derive(Clone, Copy, Debug, PartialEq, Eq)]
pub enum WorkerIdKey {
    Assigned,
    Id,
    Total,
    Ignore,
}

/// Why a written worker id is refused.
#[derive(Clone, Copy, Debug, PartialEq, Eq)]
pub enum WorkerIdError {
    /// The key appeared twice; the field name reported for it.
    DuplicateField(WorkerIdKey),
    /// Both `assigned` and `id` were given.
    AssignedAndId,
    /// Neither `assigned` nor `id` was given.
    MissingAssigned,
    /// `total` was not given.
    MissingTotal,
    /// A sequence had fewer than two numbers.
    MissingElement,
    /// The worker's number is above the number of workers.
    AssignedAboveTotal,
}

impl WorkerIdError {
    /// The text of the error, as the deserializer reports it.
    pub fn message(&self) -> (r: &'static str)
        ensures
            r@ == (match *self {
                WorkerIdError::DuplicateField(WorkerIdKey::Assigned) => "duplicate field `type`"@,
                WorkerIdError::DuplicateField(WorkerIdKey::Id) => "duplicate field `id`"@,
                WorkerIdError::DuplicateField(WorkerIdKey::Total) => "duplicate field `total`"@,
                WorkerIdError::DuplicateField(WorkerIdKey::Ignore) => "duplicate field"@,
                WorkerIdError::AssignedAndId => "'assigned' and 'id' cannot be used at the same time"@,
                WorkerIdError::MissingAssigned => "missing field `assigned`"@,
                WorkerIdError::MissingTotal => "missing field `total`"@,
                WorkerIdError::MissingElement => "invalid length 0, expected worker id with 2 elements"@,
                WorkerIdError::AssignedAboveTotal => "assigned must be less than or equal total"@,
            }),
    {
        match self {
            WorkerIdError::DuplicateField(WorkerIdKey::Assigned) => "duplicate field `type`",
            WorkerIdError::DuplicateField(WorkerIdKey::Id) => "duplicate field `id`",
            WorkerIdError::DuplicateField(WorkerIdKey::Total) => "duplicate field `total`",
            WorkerIdError::DuplicateField(WorkerIdKey::Ignore) => "duplicate field",
            WorkerIdError::AssignedAndId => "'assigned' and 'id' cannot be used at the same time",
            WorkerIdError::MissingAssigned => "missing field `assigned`",
            WorkerIdError::MissingTotal => "missing field `total`",
            WorkerIdError::MissingElement => "invalid length 0, expected worker id with 2 elements",
            WorkerIdError::AssignedAboveTotal => "assigned must be less than or equal total",
        }
    }
}

/// The fields of a worker id read so far from a map.
#[derive(Clone, Copy, Debug)]
pub struct WorkerIdFields {
    pub assigned: Option<NonZeroU32>,
    pub id: Option<NonZeroU32>,
    pub total: Option<NonZeroU32>,
}

/// The field that `key` fills, if any.
pub open spec fn field_of(f: WorkerIdFields, key: WorkerIdKey) -> Option<NonZeroU32> {
    match key {
        WorkerIdKey::Assigned => f.assigned,
        WorkerIdKey::Id => f.id,
        WorkerIdKey::Total => f.total,
        WorkerIdKey::Ignore => None,
    }
}

/// What the fields read from a map give: `assigned` and `id` are
/// exclusive; one of them and `total` are needed; the number must not
/// be above the total.
pub open spec fn spec_finish(f: WorkerIdFields) -> Result<(u32, u32), WorkerIdError> {
    if f.assigned is Some && f.id is Some {
        Err(WorkerIdError::AssignedAndId)
    } else if f.assigned is None && f.id is None {
        Err(WorkerIdError::MissingAssigned)
    } else if f.total is None {
        Err(WorkerIdError::MissingTotal)
    } else {
        let a = if f.assigned is Some { f.assigned->0.value() } else { f.id->0.value() };
        let t = f.total->0.value();
        if a > t {
            Err(WorkerIdError::AssignedAboveTotal)
        } else {
            Ok((a, t))
        }
    }
}

impl WorkerIdFields {
    /// No field read yet.
    pub fn new() -> (f: WorkerIdFields)
        ensures
            f.assigned is None && f.id is None && f.total is None,
    {
        WorkerIdFields { assigned: None, id: None, total: None }
    }

    /// Refuses a key whose field was already read.
    pub fn check_key(&self, key: WorkerIdKey) -> (r: Result<(), WorkerIdError>)
        ensures
            r == (if field_of(*self, key) is Some {
                Err(WorkerIdError::DuplicateField(key))
            } else {
                Ok::<(), WorkerIdError>(())
            }),
    {
        let taken: bool = match key {
            WorkerIdKey::Assigned => self.assigned.is_some(),
            WorkerIdKey::Id => self.id.is_some(),
            WorkerIdKey::Total => self.total.is_some(),
            WorkerIdKey::Ignore => false,
        };
        if taken {
            Err(WorkerIdError::DuplicateField(key))
        } else {
            Ok(())
        }
    }

    /// Records the number read for `key`; other keys are skipped.
    pub fn put(&mut self, key: WorkerIdKey, value: NonZeroU32)
        ensures
            field_of(*final(self), key) == (if key == WorkerIdKey::Ignore { None } else { Some(value) }),
            forall|k: WorkerIdKey| k != key ==> field_of(*final(self), k) == field_of(*old(self), k),
    {
        match key {
            WorkerIdKey::Assigned => self.assigned = Some(value),
            WorkerIdKey::Id => self.id = Some(value),
            WorkerIdKey::Total => self.total = Some(value),
            WorkerIdKey::Ignore => {},
        }
    }

    /// The worker id that the fields read give.
    pub fn finish(&self) -> (r: Result<WorkerId, WorkerIdError>)
        ensures
            match r {
                Ok(w) => spec_finish(*self) == Ok::<(u32, u32), WorkerIdError>((w.spec_assigned(), w.spec_total())),
                Err(e) => spec_finish(*self) == Err::<(u32, u32), WorkerIdError>(e),
            },
            r matches Ok(w) ==> w.spec_assigned() <= w.spec_total(),
    {
        if self.assigned.is_some() && self.id.is_some() {
            return Err(WorkerIdError::AssignedAndId);
        }
        let assigned = match self.assigned {
            Some(a) => a,
            None => match self.id {
                Some(a) => a,
                None => return Err(WorkerIdError::MissingAssigned),
            },
        };
        let total = match self.total {
            Some(t) => t,
            None => return Err(WorkerIdError::MissingTotal),
        };
        if assigned.get() > total.get() {
            return Err(WorkerIdError::AssignedAboveTotal);
        }
        Ok(WorkerId { assigned, total })
    }
}

impl WorkerId {
    /// The worker id written as the sequence `[assigned, total]`.
    pub fn from_sequence(first: Option<NonZeroU32>, second: Option<NonZeroU32>) -> (r: Result<WorkerId, WorkerIdError>)
        ensures
            first is None || second is None ==> r == Err::<WorkerId, WorkerIdError>(WorkerIdError::MissingElement),
            (first is Some && second is Some) ==> {
                let a = first->0;
                let t = second->0;
                if a.value() > t.value() {
                    r == Err::<WorkerId, WorkerIdError>(WorkerIdError::AssignedAboveTotal)
                } else {
                    r matches Ok(w) && w.spec_assigned() == a.value() && w.spec_total() == t.value()
                }
            },
    {
        let assigned = match first {
            Some(a) => a,
            None => return Err(WorkerIdError::MissingElement),
        };
        let total = match second {
            Some(t) => t,
            None => return Err(WorkerIdError::MissingElement),
        };
        if assigned.get() > total.get() {
            return Err(WorkerIdError::AssignedAboveTotal);
        }
        Ok(WorkerId { assigned, total })
    }
}

/// How two worker ids compare: only ids out of the same total compare,
/// by their numbers.
pub open spec fn worker_id_order(a: WorkerId, b: WorkerId) -> Option<Ordering> {
    if a.spec_total() != b.spec_total() {
        None
    } else if a.spec_assigned() < b.spec_assigned() {
        Some(Ordering::Less)
    } else if a.spec_assigned() == b.spec_assigned() {
        Some(Ordering::Equal)
    } else {
        Some(Ordering::Greater)
    }
}

impl PartialOrd for WorkerId {
    fn partial_cmp(&self, other: &WorkerId) -> (r: Option<Ordering>) {
        let a: u32 = self.assigned.get();
        let b: u32 = other.assigned.get();
        if self.total.get() != other.total.get() {
            None
        } else if a < b {
            Some(Ordering::Less)
        } else if a == b {
            Some(Ordering::Equal)
        } else {
            Some(Ordering::Greater)
        }
    }
}

impl PartialOrdSpecImpl for WorkerId {
    open spec fn obeys_partial_cmp_spec() -> bool {
        true
    }

    open spec fn partial_cmp_spec(&self, other: &WorkerId) -> Option<Ordering> {
        worker_id_order(*self, *other)
    }
}

/// A worker id read from a map is made of the numbers read: its number is
/// the one read for `assigned` (or for `id`), its total the one read for
/// `total`. It is read exactly when one of `assigned` and `id` is given,
/// `total` is given, and the number is not above the total.
pub proof fn law_finish_keeps_the_numbers_read(f: WorkerIdFields)
    ensures
        spec_finish(f) is Ok <==> {
            &&& (f.assigned is Some) != (f.id is Some)
            &&& f.total is Some
            &&& (if f.assigned is Some { f.assigned->0.value() } else { f.id->0.value() }) <= f.total->0.value()
        },
        f.assigned is Some && f.id is None && f.total is Some && f.assigned->0.value() <= f.total->0.value()
            ==> spec_finish(f) == Ok::<(u32, u32), WorkerIdError>((f.assigned->0.value(), f.total->0.value())),
        f.id is Some && f.assigned is None && f.total is Some && f.id->0.value() <= f.total->0.value()
            ==> spec_finish(f) == Ok::<(u32, u32), WorkerIdError>((f.id->0.value(), f.total->0.value())),
{
}

/// Why a map gives no worker id: both `assigned` and `id` given; neither
/// given; no `total`; or the number above the total, checked in that order.
pub proof fn law_finish_errors(f: WorkerIdFields)
    ensures
        f.assigned is Some && f.id is Some ==> spec_finish(f) == Err::<(u32, u32), WorkerIdError>(WorkerIdError::AssignedAndId),
        f.assigned is None && f.id is None ==> spec_finish(f) == Err::<(u32, u32), WorkerIdError>(WorkerIdError::MissingAssigned),
        (f.assigned is Some) != (f.id is Some) && f.total is None
            ==> spec_finish(f) == Err::<(u32, u32), WorkerIdError>(WorkerIdError::MissingTotal),
        (f.assigned is Some) != (f.id is Some) && f.total is Some
            && (if f.assigned is Some { f.assigned->0.value() } else { f.id->0.value() }) > f.total->0.value()
            ==> spec_finish(f) == Err::<(u32, u32), WorkerIdError>(WorkerIdError::AssignedAboveTotal),
{
}

} // verus!
