//! The Ticket Lifecycle Engine: issuing tickets, advancing status, computing
//! the guest's queue-position signal, and the administrative reset, together
//! with guest-URL construction.

use vstd::prelude::*;
use vstd::string::StringExecFns;

use crate::store::active_of;
use crate::store::contains_id;
use crate::store::count_waiting_below;
use crate::store::next_number_of;
use crate::store::sorted_by_number;
use crate::store::TicketStore;
use crate::text::hex_digits;
use crate::text::hex_u128;
use crate::ticket::Error;
use crate::ticket::Status;
use crate::ticket::Ticket;
use crate::ticket::TicketId;

verus! {

/// The hyphenated lower-case text of a ticket id: five groups of
/// fixed-width hexadecimal digits, 8-4-4-4-12, most significant first.
pub open spec fn id_text(v: u128) -> Seq<char> {
    hex_digits((v as nat) / 0x1000000000000000000000000, 8) + "-"@ + hex_digits(
        ((v as nat) / 0x100000000000000000000) % 0x10000,
        4,
    ) + "-"@ + hex_digits(((v as nat) / 0x10000000000000000) % 0x10000, 4) + "-"@ + hex_digits(
        ((v as nat) / 0x1000000000000) % 0x10000,
        4,
    ) + "-"@ + hex_digits((v as nat) % 0x1000000000000, 12)
}

/// The personal link a guest polls: `{base_url}/guest/{id}`.
pub open spec fn guest_url_of(base: Seq<char>, id: TicketId) -> Seq<char> {
    base + "/guest/"@ + id_text(id.value)
}

/// Renders a ticket id in its hyphenated form.
pub fn id_string(id: TicketId) -> (r: String)
    ensures
        r@ == id_text(id.value),
{
    let v = id.value;
    let mut s = hex_u128(v / 0x1000000000000000000000000, 8);
    s.append("-");
    let g = hex_u128((v / 0x100000000000000000000) % 0x10000, 4);
    s.append(g.as_str());
    s.append("-");
    let g = hex_u128((v / 0x10000000000000000) % 0x10000, 4);
    s.append(g.as_str());
    s.append("-");
    let g = hex_u128((v / 0x1000000000000) % 0x10000, 4);
    s.append(g.as_str());
    s.append("-");
    let g = hex_u128(v % 0x1000000000000, 12);
    s.append(g.as_str());
    s
}

/// Builds the guest URL for a ticket.
pub fn guest_url(base_url: &str, id: TicketId) -> (r: String)
    ensures
        r@ == guest_url_of(base_url@, id),
{
    let mut s = base_url.to_owned();
    s.append("/guest/");
    let ids = id_string(id);
    s.append(ids.as_str());
    s
}

/// Relies on uuid::Uuid::new_v4 (via as_u128): a freshly drawn random
/// version-4 UUID. Nothing is assumed of the drawn value.
#[verifier::external_body]
fn fresh_id() -> TicketId {
    TicketId { value: uuid::Uuid::new_v4().as_u128() }
}

impl TicketStore {
    /// Issues a ticket under a caller-chosen id: the deterministic core of
    /// `issue`. Succeeds exactly when the group size is positive and the id
    /// is not already on file.
    pub fn issue_with_id(&mut self, id: TicketId, group_size: u32) -> (r: Result<Ticket, Error>)
        requires
            old(self).wf(),
        ensures
            final(self).wf(),
            match r {
                Ok(t) => {
                    &&& group_size >= 1
                    &&& !contains_id(old(self)@, id)
                    &&& t.id == id
                    &&& t.group_size == group_size
                    &&& t.status == Status::Waiting
                    &&& t.number as nat == next_number_of(old(self)@)
                    &&& final(self)@ == old(self)@.push(t)
                },
                Err(e) => {
                    &&& final(self)@ == old(self)@
                    &&& (e == Error::InvalidInput <==> group_size == 0)
                    &&& (e == Error::StoreFailure <==> group_size >= 1 && contains_id(
                        old(self)@,
                        id,
                    ))
                    &&& (e == Error::InvalidInput || e == Error::StoreFailure)
                },
            },
    {
        if group_size == 0 {
            return Err(Error::InvalidInput);
        }
        if let Ok(_) = self.get(id) {
            return Err(Error::StoreFailure);
        }
        let number = self.next_number();
        let t = self.insert(id, number, group_size);
        Ok(t)
    }

    /// Issues a ticket for a group of the given size: draws a fresh random id,
    /// assigns the next number (wrapping past the maximum), stores the ticket
    /// `Waiting`, and builds its guest URL. Rejects a zero group size; a
    /// drawn id colliding with a stored one is a store failure, which an
    /// empty store — right after a reset — can never suffer.
    pub fn issue(&mut self, group_size: u32, base_url: &str) -> (r: Result<
        (Ticket, String),
        Error,
    >)
        requires
            old(self).wf(),
        ensures
            final(self).wf(),
            match r {
                Ok(p) => {
                    &&& group_size >= 1
                    &&& !contains_id(old(self)@, p.0.id)
                    &&& p.0.group_size == group_size
                    &&& p.0.status == Status::Waiting
                    &&& p.0.number as nat == next_number_of(old(self)@)
                    &&& final(self)@ == old(self)@.push(p.0)
                    &&& p.1@ == guest_url_of(base_url@, p.0.id)
                },
                Err(e) => {
                    &&& final(self)@ == old(self)@
                    &&& (e == Error::InvalidInput <==> group_size == 0)
                    &&& (e == Error::InvalidInput || e == Error::StoreFailure)
                    &&& (e == Error::StoreFailure ==> old(self)@.len() > 0)
                },
            },
    {
        let id = fresh_id();
        match self.issue_with_id(id, group_size) {
            Ok(t) => {
                let url = guest_url(base_url, t.id);
                Ok((t, url))
            },
            Err(e) => Err(e),
        }
    }

    /// Applies a staff-driven status change given the status label from the
    /// request: an unrecognized label is `InvalidInput`, an unknown id
    /// `NotFound`; otherwise the refreshed ticket is returned.
    pub fn set_status(&mut self, id: TicketId, label: &str) -> (r: Result<Ticket, Error>)
        requires
            old(self).wf(),
        ensures
            final(self).wf(),
            match r {
                Ok(t) => {
                    &&& Status::of_label(label@) == Some(t.status)
                    &&& contains_id(old(self)@, id)
                    &&& t.id == id
                    &&& forall|i: int|
                        0 <= i < old(self)@.len() && (#[trigger] old(self)@[i]).id == id ==> t
                            == (Ticket {
                            id: old(self)@[i].id,
                            number: old(self)@[i].number,
                            group_size: old(self)@[i].group_size,
                            status: t.status,
                        }) && final(self)@ == old(self)@.update(i, t)
                },
                Err(e) => {
                    &&& final(self)@ == old(self)@
                    &&& (e == Error::InvalidInput <==> Status::of_label(label@) is None)
                    &&& (e == Error::NotFound <==> Status::of_label(label@) is Some
                        && !contains_id(old(self)@, id))
                    &&& (e == Error::InvalidInput || e == Error::NotFound)
                },
            },
    {
        let status = match Status::parse(label) {
            Ok(s) => s,
            Err(e) => {
                return Err(e);
            },
        };
        self.update_status(id, status)
    }

    /// The guest view: the ticket carrying `id` and how many tickets are
    /// still waiting with a strictly smaller number; `NotFound` for an
    /// unknown id, never a crash.
    pub fn view_for(&self, id: TicketId) -> (r: Result<(Ticket, usize), Error>)
        requires
            self.wf(),
        ensures
            match r {
                Ok(p) => {
                    &&& contains_id(self@, id)
                    &&& p.0.id == id
                    &&& forall|i: int|
                        0 <= i < self@.len() && (#[trigger] self@[i]).id == id ==> self@[i] == p.0
                    &&& p.1 as nat == count_waiting_below(self@, p.0.number)
                },
                Err(e) => e == Error::NotFound && !contains_id(self@, id),
            },
    {
        match self.get(id) {
            Ok(t) => {
                let w = self.count_waiting_before(t.number);
                Ok((t, w))
            },
            Err(e) => Err(e),
        }
    }

    /// Empties the store to start a new day or event; `active_list` is then
    /// empty and the next issued ticket receives number 1. Must be reached
    /// only through the Access Guard.
    pub fn reset(&mut self)
        ensures
            final(self)@ == Seq::<Ticket>::empty(),
            final(self).wf(),
    {
        self.clear();
    }
}

} // verus!
