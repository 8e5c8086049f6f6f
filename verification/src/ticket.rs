//! The ticket data model: identifiers, statuses, tickets, and the error taxonomy.

use vstd::prelude::*;

verus! {

/// Opaque guest-facing handle of a ticket, held as the 128-bit value of a
/// version-4 UUID. It is assigned once at creation and is not derivable from
/// the ticket number.
#[derive(Clone, Copy, PartialEq, Eq, Structural, Debug)]
pub struct TicketId {
    pub value: u128,
}

/// The closed set of ticket statuses. Staff drive every transition; `Completed`
/// is terminal only in the sense that completed tickets leave the active list.
#[derive(Clone, Copy, PartialEq, Eq, Structural, Debug)]
pub enum Status {
    Waiting,
    Called,
    Completed,
}

/// The sole persistent entity: one numbered ticket for one waiting group.
#[derive(Clone, Copy, PartialEq, Eq, Structural, Debug)]
pub struct Ticket {
    pub id: TicketId,
    pub number: u32,
    pub group_size: u32,
    pub status: Status,
}

/// What can go wrong in the core: an unknown ticket id, a rejected input
/// (non-positive group size, unrecognized status), a store-level failure
/// (a freshly drawn id colliding with a stored one), or a guest URL too long
/// to fit in a scannable code.
#[derive(Clone, Copy, PartialEq, Eq, Structural, Debug)]
pub enum Error {
    NotFound,
    InvalidInput,
    StoreFailure,
    TooLong,
}

impl Status {
    /// The label under which this status travels over the HTTP surface
    /// and sits in the store's rows.
    pub fn label(&self) -> (r: &'static str)
        ensures
            r@ == self.label_spec(),
    {
        match self {
            Status::Waiting => "waiting",
            Status::Called => "called",
            Status::Completed => "completed",
        }
    }

    pub open spec fn label_spec(self) -> Seq<char> {
        match self {
            Status::Waiting => "waiting"@,
            Status::Called => "called"@,
            Status::Completed => "completed"@,
        }
    }

    /// Which status a label denotes; `None` for an unrecognized label.
    pub open spec fn of_label(s: Seq<char>) -> Option<Status> {
        if s == "waiting"@ {
            Some(Status::Waiting)
        } else if s == "called"@ {
            Some(Status::Called)
        } else if s == "completed"@ {
            Some(Status::Completed)
        } else {
            None
        }
    }

    /// Reads a status label from the HTTP surface; an unrecognized value is
    /// rejected at construction time as `InvalidInput`.
    pub fn parse(label: &str) -> (r: Result<Status, Error>)
        ensures
            match r {
                Ok(st) => Status::of_label(label@) == Some(st),
                Err(e) => e == Error::InvalidInput && Status::of_label(label@) is None,
            },
    {
        if crate::text::str_eq(label, "waiting") {
            Ok(Status::Waiting)
        } else if crate::text::str_eq(label, "called") {
            Ok(Status::Called)
        } else if crate::text::str_eq(label, "completed") {
            Ok(Status::Completed)
        } else {
            Err(Error::InvalidInput)
        }
    }
}

} // verus!
