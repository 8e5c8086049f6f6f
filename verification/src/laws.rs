//! Queue-wide laws, stated and proved over the store's model: how numbering
//! advances and wraps, what the waiting count counts, what a status change
//! does to the active set, and what a reset restarts.

use vstd::prelude::*;

use crate::store::active_of;
use crate::store::count_waiting_below;
use crate::store::max_number_of;
use crate::store::next_number_of;
use crate::store::wf_seq;
use crate::ticket::Status;
use crate::ticket::Ticket;
use crate::MAX_NUMBER;

verus! {

/// Every number on file is bounded by the table's maximum.
pub proof fn lemma_max_is_bound(s: Seq<Ticket>)
    ensures
        forall|i: int| 0 <= i < s.len() ==> (#[trigger] s[i]).number as nat <= max_number_of(s),
    decreases s.len(),
{
    if s.len() > 0 {
        lemma_max_is_bound(s.drop_last());
        assert(forall|i: int| 0 <= i < s.len() - 1 ==> #[trigger] s[i] == s.drop_last()[i]);
    }
}

/// Numbering below the wrap point: a ticket issued into a table whose
/// maximum is below `MAX_NUMBER` takes one past that maximum — strictly
/// greater than every number already on file — and itself becomes the new
/// maximum, so tickets issued in sequence carry strictly increasing numbers.
pub proof fn lemma_numbering_increases(s: Seq<Ticket>, t: Ticket)
    requires
        max_number_of(s) < MAX_NUMBER,
        t.number as nat == next_number_of(s),
    ensures
        t.number as nat == max_number_of(s) + 1,
        forall|i: int| 0 <= i < s.len() ==> (#[trigger] s[i]).number < t.number,
        max_number_of(s.push(t)) == t.number as nat,
{
    lemma_max_is_bound(s);
    assert(s.push(t).drop_last() =~= s);
    assert(s.push(t).last() == t);
}

/// Numbering at the wrap point: once the maximum number is on file, the
/// next issued ticket receives number 1 again.
pub proof fn lemma_numbering_wraps(s: Seq<Ticket>)
    requires
        max_number_of(s) == MAX_NUMBER,
    ensures
        next_number_of(s) == 1,
{
}

/// The waiting count counts exactly the tickets that are still `Waiting`
/// with a number strictly below `k`.
pub proof fn lemma_waiting_count_is_filter(s: Seq<Ticket>, k: u32)
    ensures
        count_waiting_below(s, k) == s.filter(
            |t: Ticket| t.status == Status::Waiting && t.number < k,
        ).len(),
    decreases s.len(),
{
    reveal(vstd::seq::Seq::filter);
    if s.len() > 0 {
        lemma_waiting_count_is_filter(s.drop_last(), k);
    }
}

/// A staff-driven status change never re-numbers and never removes a row:
/// changed to anything but `Completed`, the ticket is still in the active
/// set; changed to `Completed`, no active ticket carries its id any more.
pub proof fn lemma_status_transition(s: Seq<Ticket>, i: int, st: Status)
    requires
        wf_seq(s),
        0 <= i < s.len(),
    ensures
        ({
            let t = Ticket {
                id: s[i].id,
                number: s[i].number,
                group_size: s[i].group_size,
                status: st,
            };
            let s2 = s.update(i, t);
            &&& (st != Status::Completed ==> active_of(s2).contains(t))
            &&& (st == Status::Completed ==> forall|u: Ticket|
                active_of(s2).contains(u) ==> u.id != s[i].id)
        }),
{
    let t = Ticket { id: s[i].id, number: s[i].number, group_size: s[i].group_size, status: st };
    let s2 = s.update(i, t);
    let pred = |u: Ticket| u.status != Status::Completed;
    if st != Status::Completed {
        assert(s2[i] == t && pred(s2[i]));
        s2.lemma_filter_contains(pred, i);
    } else {
        assert forall|u: Ticket| active_of(s2).contains(u) implies u.id != s[i].id by {
            s2.lemma_filter_contains_rev(pred, u);
            assert(pred(u)) by {
                let j = choose|j: int| 0 <= j < s2.filter(pred).len() && s2.filter(pred)[j] == u;
                s2.lemma_filter_pred(pred, j);
            }
            let j = choose|j: int| 0 <= j < s2.len() && s2[j] == u;
            if u.id == s[i].id {
                if j == i {
                    assert(u == t && !pred(u));
                } else {
                    assert(s2[j] == s[j] && s[j].id == s[i].id);
                }
            }
        }
    }
}

/// After a reset the table is empty: the active list is empty and the next
/// issued ticket receives number 1.
pub proof fn lemma_reset_restarts()
    ensures
        active_of(Seq::<Ticket>::empty()) == Seq::<Ticket>::empty(),
        next_number_of(Seq::<Ticket>::empty()) == 1,
{
    reveal(vstd::seq::Seq::filter);
}

} // verus!
