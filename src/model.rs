//! The in-memory ticket store that the ticket routes work on.
use vstd::prelude::*;
use crate::error::InternalError;

verus! {

/// A ticket, as stored and as returned to clients.
#[derive(Debug, Clone, PartialEq, Eq)]
pub struct Ticket {
    pub id: u64,
    pub title: String,
}

/// What a client sends to create a ticket.
#[derive(Debug, Clone, PartialEq, Eq)]
pub struct TicketForCreate {
    pub title: String,
}

impl Ticket {
    /// A copy of this ticket.
    pub fn duplicate(&self) -> (r: Ticket)
        ensures
            r == *self,
    {
        Ticket { id: self.id, title: self.title.clone() }
    }
}

/// The tickets still present in a store's slots, in slot order.
pub open spec fn live_tickets(slots: Seq<Option<Ticket>>) -> Seq<Ticket>
    decreases slots.len(),
{
    if slots.len() == 0 {
        Seq::empty()
    } else {
        let rest = live_tickets(slots.drop_last());
        match slots.last() {
            Some(t) => rest.push(t),
            None => rest,
        }
    }
}

/// The ticket store. Slot `i` holds the ticket with id `i`, or `None` once
/// that ticket was deleted; ids are never reused.
pub struct ModelController {
    tickets_store: Vec<Option<Ticket>>,
}

impl View for ModelController {
    type V = Seq<Option<Ticket>>;

    closed spec fn view(&self) -> Seq<Option<Ticket>> {
        self.tickets_store@
    }
}

impl ModelController {
    /// Every slot holds either nothing or the ticket whose id is the slot's index.
    pub open spec fn wf(&self) -> bool {
        forall|i: int|
            0 <= i < self@.len() && (#[trigger] self@[i]) is Some ==> self@[i]->Some_0.id == i
    }

    /// An empty store.
    pub fn new() -> (r: ModelController)
        ensures
            r@ == Seq::<Option<Ticket>>::empty(),
            r.wf(),
    {
        ModelController { tickets_store: Vec::new() }
    }

    /// The number of ids handed out so far.
    pub fn slot_count(&self) -> (r: usize)
        ensures
            r == self@.len(),
    {
        self.tickets_store.len()
    }

    /// Stores a new ticket under the next unused id and returns it.
    pub fn create_ticket(&mut self, ticket_fc: TicketForCreate) -> (r: Ticket)
        requires
            old(self).wf(),
            old(self)@.len() < u64::MAX,
        ensures
            r == (Ticket { id: old(self)@.len() as u64, title: ticket_fc.title }),
            final(self)@ == old(self)@.push(Some(r)),
            final(self).wf(),
    {
        let id: u64 = self.tickets_store.len() as u64;
        let ticket = Ticket { id, title: ticket_fc.title };
        self.tickets_store.push(Some(ticket.duplicate()));
        ticket
    }

    /// The tickets present, in the order of their ids.
    pub fn list_tickets(&self) -> (r: Vec<Ticket>)
        ensures
            r@ == live_tickets(self@),
    {
        let mut out: Vec<Ticket> = Vec::new();
        let mut i: usize = 0;
        while i < self.tickets_store.len()
            invariant
                i <= self.tickets_store@.len(),
                out@ == live_tickets(self.tickets_store@.subrange(0, i as int)),
            decreases self.tickets_store@.len() - i,
        {
            assert(self.tickets_store@.subrange(0, i + 1).drop_last() =~= self.tickets_store@.subrange(0, i as int));
            match &self.tickets_store[i] {
                Some(t) => out.push(t.duplicate()),
                None => {},
            }
            i = i + 1;
        }
        assert(self.tickets_store@.subrange(0, i as int) =~= self.tickets_store@);
        out
    }

    /// Removes the ticket with the given id and returns it, or fails when no
    /// such ticket is present.
    pub fn delete_ticket(&mut self, id: u64) -> (r: Result<Ticket, InternalError>)
        requires
            old(self).wf(),
        ensures
            final(self).wf(),
            match r {
                Ok(t) => id < old(self)@.len() && old(self)@[id as int] == Some(t)
                    && final(self)@ == old(self)@.update(id as int, None),
                Err(e) => e == InternalError::TicketDeleteFailIdNotFound { id }
                    && final(self)@ == old(self)@
                    && !(id < old(self)@.len() && old(self)@[id as int] is Some),
            },
    {
        if id < self.tickets_store.len() as u64 {
            let i: usize = id as usize;
            let slot = self.tickets_store[i].take();
            match slot {
                Some(t) => Ok(t),
                None => Err(InternalError::TicketDeleteFailIdNotFound { id }),
            }
        } else {
            Err(InternalError::TicketDeleteFailIdNotFound { id })
        }
    }
}

} // verus!
