//! The Ticket Store: the table of tickets, owning uniqueness and ordering of
//! ticket numbers. Numbers are assigned from `max(existing) + 1`, wrapping
//! past `MAX_NUMBER` back to 1; queue positions are always recomputed from
//! current contents, never stored.

use vstd::multiset::Multiset;
use vstd::prelude::*;

use crate::ticket::Error;
use crate::ticket::Status;
use crate::ticket::Ticket;
use crate::ticket::TicketId;
use crate::MAX_NUMBER;

verus! {

/// A stored table is well formed when every number lies in `[1, MAX_NUMBER]`,
/// every group size is positive, and no two rows share an id.
pub open spec fn wf_seq(s: Seq<Ticket>) -> bool {
    &&& forall|i: int| 0 <= i < s.len() ==> 1 <= (#[trigger] s[i]).number <= MAX_NUMBER
    &&& forall|i: int| 0 <= i < s.len() ==> (#[trigger] s[i]).group_size >= 1
    &&& forall|i: int, j: int|
        #![trigger s[i].id, s[j].id]
        0 <= i < s.len() && 0 <= j < s.len() && i != j ==> s[i].id != s[j].id
}

/// The largest ticket number on file, 0 for an empty table.
pub open spec fn max_number_of(s: Seq<Ticket>) -> nat
    decreases s.len(),
{
    if s.len() == 0 {
        0
    } else {
        let rest = max_number_of(s.drop_last());
        if s.last().number as nat > rest {
            s.last().number as nat
        } else {
            rest
        }
    }
}

/// The number the next issued ticket receives: one past the current maximum,
/// wrapping to 1 once that would exceed `MAX_NUMBER`.
pub open spec fn next_number_of(s: Seq<Ticket>) -> nat {
    if max_number_of(s) + 1 > MAX_NUMBER { 1 } else { max_number_of(s) + 1 }
}

/// How many tickets are still `Waiting` with a number strictly below `k`:
/// the queue-position signal shown to a guest holding number `k`.
pub open spec fn count_waiting_below(s: Seq<Ticket>, k: u32) -> nat
    decreases s.len(),
{
    if s.len() == 0 {
        0
    } else {
        count_waiting_below(s.drop_last(), k) + if s.last().status == Status::Waiting
            && s.last().number < k {
            1nat
        } else {
            0nat
        }
    }
}

/// The not-yet-completed tickets, in table order.
pub open spec fn active_of(s: Seq<Ticket>) -> Seq<Ticket> {
    s.filter(|t: Ticket| t.status != Status::Completed)
}

/// Whether some row carries the given id.
pub open spec fn contains_id(s: Seq<Ticket>, id: TicketId) -> bool {
    exists|i: int| 0 <= i < s.len() && (#[trigger] s[i]).id == id
}

/// Ascending by ticket number.
pub open spec fn sorted_by_number(s: Seq<Ticket>) -> bool {
    forall|i: int, j: int|
        #![trigger s[i].number, s[j].number]
        0 <= i < j < s.len() ==> s[i].number <= s[j].number
}

/// The table of tickets. Viewed as the sequence of its rows in insertion order.
pub struct TicketStore {
    tickets: Vec<Ticket>,
}

impl View for TicketStore {
    type V = Seq<Ticket>;

    closed spec fn view(&self) -> Seq<Ticket> {
        self.tickets@
    }
}

impl TicketStore {
    pub open spec fn wf(self) -> bool {
        wf_seq(self@)
    }

    /// An empty table.
    pub fn new() -> (r: TicketStore)
        ensures
            r@ == Seq::<Ticket>::empty(),
            r.wf(),
    {
        TicketStore { tickets: Vec::new() }
    }

    /// The number the next inserted ticket must receive: `max + 1`,
    /// wrapped to 1 past `MAX_NUMBER`.
    pub fn next_number(&self) -> (r: u32)
        requires
            self.wf(),
        ensures
            r as nat == next_number_of(self@),
            1 <= r <= MAX_NUMBER,
    {
        let mut max: u32 = 0;
        let n = self.tickets.len();
        for i in 0..n
            invariant
                n == self@.len(),
                self.wf(),
                max as nat == max_number_of(self@.take(i as int)),
                max <= MAX_NUMBER,
        {
            proof {
                assert(self@.take(i + 1).drop_last() =~= self@.take(i as int));
                assert(self@.take(i + 1).last() == self@[i as int]);
            }
            if self.tickets[i].number > max {
                max = self.tickets[i].number;
            }
        }
        proof {
            assert(self@.take(n as int) =~= self@);
        }
        if max >= MAX_NUMBER {
            1
        } else {
            max + 1
        }
    }

    /// Appends a fresh `Waiting` ticket under the given id and number.
    pub fn insert(&mut self, id: TicketId, number: u32, group_size: u32) -> (t: Ticket)
        requires
            old(self).wf(),
            !contains_id(old(self)@, id),
            1 <= number <= MAX_NUMBER,
            group_size >= 1,
        ensures
            final(self).wf(),
            t == (Ticket { id, number, group_size, status: Status::Waiting }),
            final(self)@ == old(self)@.push(t),
    {
        let t = Ticket { id, number, group_size, status: Status::Waiting };
        self.tickets.push(t);
        t
    }

    /// Fetches the ticket carrying `id`; `NotFound` when no row does.
    pub fn get(&self, id: TicketId) -> (r: Result<Ticket, Error>)
        requires
            self.wf(),
        ensures
            match r {
                Ok(t) => contains_id(self@, id) && t.id == id && forall|i: int|
                    0 <= i < self@.len() && (#[trigger] self@[i]).id == id ==> self@[i] == t,
                Err(e) => e == Error::NotFound && !contains_id(self@, id),
            },
    {
        let n = self.tickets.len();
        for i in 0..n
            invariant
                n == self@.len(),
                self.wf(),
                forall|j: int| 0 <= j < i ==> (#[trigger] self@[j]).id != id,
        {
            if self.tickets[i].id == id {
                return Ok(self.tickets[i]);
            }
        }
        Err(Error::NotFound)
    }

    /// Rewrites the status of the ticket carrying `id`, returning the
    /// refreshed row; `NotFound` (and no change) when no row carries it.
    pub fn update_status(&mut self, id: TicketId, status: Status) -> (r: Result<Ticket, Error>)
        requires
            old(self).wf(),
        ensures
            final(self).wf(),
            match r {
                Ok(t) => {
                    &&& contains_id(old(self)@, id)
                    &&& t.id == id
                    &&& t.status == status
                    &&& forall|i: int|
                        0 <= i < old(self)@.len() && (#[trigger] old(self)@[i]).id == id ==> t
                            == (Ticket {
                            id: old(self)@[i].id,
                            number: old(self)@[i].number,
                            group_size: old(self)@[i].group_size,
                            status,
                        }) && final(self)@ == old(self)@.update(i, t)
                },
                Err(e) => e == Error::NotFound && !contains_id(old(self)@, id) && final(self)@
                    == old(self)@,
            },
    {
        let n = self.tickets.len();
        for i in 0..n
            invariant
                n == self@.len(),
                self.wf(),
                self@ == old(self)@,
                forall|j: int| 0 <= j < i ==> (#[trigger] self@[j]).id != id,
        {
            if self.tickets[i].id == id {
                let mut t = self.tickets[i];
                t.status = status;
                self.tickets[i] = t;
                return Ok(t);
            }
        }
        Err(Error::NotFound)
    }

    /// How many tickets are still `Waiting` with a number strictly below `k`.
    pub fn count_waiting_before(&self, k: u32) -> (r: usize)
        requires
            self.wf(),
        ensures
            r as nat == count_waiting_below(self@, k),
    {
        let mut count: usize = 0;
        let n = self.tickets.len();
        for i in 0..n
            invariant
                n == self@.len(),
                self.wf(),
                count as nat == count_waiting_below(self@.take(i as int), k),
                count <= i,
        {
            proof {
                assert(self@.take(i + 1).drop_last() =~= self@.take(i as int));
                assert(self@.take(i + 1).last() == self@[i as int]);
            }
            let t = &self.tickets[i];
            if t.status == Status::Waiting && t.number < k {
                count = count + 1;
            }
        }
        proof {
            assert(self@.take(n as int) =~= self@);
        }
        count
    }

    /// Empties the table. Irreversible; meant for the gated administrative reset.
    pub fn clear(&mut self)
        ensures
            final(self)@ == Seq::<Ticket>::empty(),
            final(self).wf(),
    {
        self.tickets.clear();
    }

    /// Every not-yet-completed ticket, ascending by number.
    pub fn active_list(&self) -> (r: Vec<Ticket>)
        requires
            self.wf(),
        ensures
            r@.to_multiset() == active_of(self@).to_multiset(),
            forall|t: Ticket| r@.contains(t) <==> active_of(self@).contains(t),
            sorted_by_number(r@),
    {
        let n = self.tickets.len();
        let mut picked: Vec<Ticket> = Vec::new();
        for i in 0..n
            invariant
                n == self@.len(),
                self.wf(),
                picked@ == active_of(self@.take(i as int)),
        {
            proof {
                reveal(vstd::seq::Seq::filter);
                assert(self@.take(i + 1).drop_last() =~= self@.take(i as int));
                assert(self@.take(i + 1).last() == self@[i as int]);
            }
            let t = self.tickets[i];
            if t.status != Status::Completed {
                picked.push(t);
            }
        }
        proof {
            assert(self@.take(n as int) =~= self@);
        }
        let sorted = sort_by_number(picked);
        proof {
            broadcast use vstd::seq_lib::group_to_multiset_ensures;

            assert forall|t: Ticket|
                sorted@.contains(t) <==> active_of(self@).contains(t) by {
                assert(sorted@.to_multiset().count(t) == active_of(self@).to_multiset().count(t));
            }
        }
        sorted
    }
}

/// Selection sort on ticket number: the output is the same multiset of rows,
/// ascending by number.
fn sort_by_number(input: Vec<Ticket>) -> (r: Vec<Ticket>)
    ensures
        r@.to_multiset() == input@.to_multiset(),
        sorted_by_number(r@),
{
    broadcast use vstd::seq_lib::group_to_multiset_ensures;

    let ghost orig = input@;
    let mut rest = input;
    let mut out: Vec<Ticket> = Vec::new();
    while rest.len() > 0
        invariant
            out@.to_multiset().add(rest@.to_multiset()) == orig.to_multiset(),
            sorted_by_number(out@),
            forall|a: int, b: int|
                #![trigger out@[a].number, rest@[b].number]
                0 <= a < out@.len() && 0 <= b < rest@.len() ==> out@[a].number <= rest@[b].number,
        decreases rest@.len(),
    {
        let mut min_idx: usize = 0;
        let m = rest.len();
        for j in 1..m
            invariant
                m == rest@.len(),
                m >= 1,
                min_idx < m,
                forall|q: int|
                    0 <= q < j ==> rest@[min_idx as int].number <= (#[trigger] rest@[q]).number,
        {
            if rest[j].number < rest[min_idx].number {
                min_idx = j;
            }
        }
        let ghost old_out = out@;
        let ghost old_rest = rest@;
        let picked = rest.remove(min_idx);
        out.push(picked);
        proof {
            old_rest.remove_ensures(min_idx as int);
            old_out.to_multiset_ensures();
            old_rest.to_multiset_ensures();
            assert(old_rest.contains(old_rest[min_idx as int]));
            assert(out@ == old_out.push(picked));
            assert(old_out.push(picked).to_multiset() =~= old_out.to_multiset().insert(picked));
            assert(rest@ == old_rest.remove(min_idx as int));
            assert(old_rest.remove(min_idx as int).to_multiset() =~= old_rest.to_multiset().remove(
                picked,
            ));
            assert(out@.to_multiset().add(rest@.to_multiset()) =~= orig.to_multiset());
            assert(forall|b: int|
                0 <= b < rest@.len() ==> picked.number <= (#[trigger] rest@[b]).number);
            assert(forall|a: int| 0 <= a < old_out.len() ==> out@[a] == old_out[a]);
        }
    }
    proof {
        assert(rest@ =~= Seq::<Ticket>::empty());
        assert(rest@.to_multiset() =~= Multiset::<Ticket>::empty());
        assert(out@.to_multiset() =~= orig.to_multiset());
    }
    out
}

} // verus!
