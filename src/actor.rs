use vstd::prelude::*;
use std::collections::VecDeque;
use crate::device::{Device, DeviceError};
use crate::operation::{answers, Operation, Outcome};

verus! {

/// Whether the actor still accepts submissions.
#[derive(Clone, Copy, Debug, PartialEq, Eq, Structural)]
pub enum ActorState {
    Running,
    Stopped,
}

/// A submission was refused: the actor has stopped, or it has handed out
/// every ticket it can number.
#[derive(Clone, Copy, Debug, PartialEq, Eq, Structural)]
pub struct DispatchError;

/// An in-flight call: the operation, the ticket that names it, and the
/// single-use slot its reply goes to.
pub struct PendingCall<S> {
    pub ticket: u64,
    pub op: Operation,
    pub slot: S,
}

/// The answer to one call, handed back together with that call's own slot.
pub struct Reply<S> {
    pub ticket: u64,
    pub slot: S,
    pub result: Result<Outcome, DeviceError>,
}

/// The sole owner of the virtual device. Calls are queued in arrival order
/// and executed one at a time; each reply carries the slot of the call that
/// caused it, so no reply can reach another caller.
pub struct DeviceActor<S> {
    device: Device,
    queue: VecDeque<PendingCall<S>>,
    next_ticket: u64,
    state: ActorState,
    /// Every operation accepted so far, in arrival order.
    arrivals: Ghost<Seq<Operation>>,
    /// Every operation executed on the device so far, in execution order.
    executed: Ghost<Seq<Operation>>,
}

/// The operations of a sequence of calls, in order.
pub open spec fn ops_of<S>(calls: Seq<PendingCall<S>>) -> Seq<Operation> {
    calls.map_values(|c: PendingCall<S>| c.op)
}

impl<S> DeviceActor<S> {
    /// Calls accepted and not yet answered, oldest first.
    pub closed spec fn pending(&self) -> Seq<PendingCall<S>> {
        self.queue@
    }

    /// Every operation accepted so far, in arrival order.
    pub closed spec fn arrivals(&self) -> Seq<Operation> {
        self.arrivals@
    }

    /// Every operation executed on the device so far, in execution order.
    pub closed spec fn executed(&self) -> Seq<Operation> {
        self.executed@
    }

    /// How many calls have been answered.
    pub open spec fn served_count(&self) -> nat {
        self.executed().len()
    }

    pub closed spec fn running(&self) -> bool {
        self.state == ActorState::Running
    }

    /// Tickets run consecutively: the answered calls hold tickets below
    /// `served_count`, the pending ones the next tickets in queue order, and
    /// the device has executed exactly the oldest arrivals.
    pub closed spec fn wf(&self) -> bool {
        &&& forall|i: int| 0 <= i < self.queue@.len() ==>
                (#[trigger] self.queue@[i]).ticket == self.executed@.len() + i
        &&& self.next_ticket == self.executed@.len() + self.queue@.len()
        &&& self.arrivals@ == self.executed@ + ops_of(self.queue@)
    }

    /// Takes ownership of the device; the actor starts running with nothing
    /// pending.
    pub fn new(device: Device) -> (r: Self)
        ensures
            r.wf(),
            r.running(),
            r.pending() == Seq::<PendingCall<S>>::empty(),
            r.arrivals() == Seq::<Operation>::empty(),
            r.executed() == Seq::<Operation>::empty(),
    {
        let r = DeviceActor {
            device,
            queue: VecDeque::new(),
            next_ticket: 0,
            state: ActorState::Running,
            arrivals: Ghost(Seq::empty()),
            executed: Ghost(Seq::empty()),
        };
        assert(r.arrivals@ =~= r.executed@ + ops_of(r.queue@));
        r
    }

    pub fn is_running(&self) -> (r: bool)
        ensures
            r == self.running(),
    {
        self.state == ActorState::Running
    }

    /// How many calls wait for their reply.
    pub fn pending_count(&self) -> (r: usize)
        ensures
            r == self.pending().len(),
    {
        self.queue.len()
    }

    /// The submission side has closed: no new call is accepted, those
    /// already queued are still served.
    pub fn stop(&mut self)
        requires
            old(self).wf(),
        ensures
            final(self).wf(),
            !final(self).running(),
            final(self).pending() == old(self).pending(),
            final(self).arrivals() == old(self).arrivals(),
            final(self).executed() == old(self).executed(),
    {
        self.state = ActorState::Stopped;
    }

    /// Queues `op` with its reply slot behind every call accepted before it,
    /// and returns the call's ticket.
    pub fn submit(&mut self, op: Operation, slot: S) -> (r: Result<u64, DispatchError>)
        requires
            old(self).wf(),
        ensures
            final(self).wf(),
            final(self).running() == old(self).running(),
            final(self).executed() == old(self).executed(),
            r is Ok <==> old(self).running()
                && old(self).served_count() + old(self).pending().len() < u64::MAX,
            r matches Ok(t) ==> {
                &&& t == old(self).served_count() + old(self).pending().len()
                &&& final(self).pending() == old(self).pending().push(PendingCall { ticket: t, op, slot })
                &&& final(self).arrivals() == old(self).arrivals().push(op)
            },
            r is Err ==> final(self).pending() == old(self).pending()
                && final(self).arrivals() == old(self).arrivals(),
    {
        if self.state != ActorState::Running || self.next_ticket == u64::MAX {
            return Err(DispatchError);
        }
        let ticket = self.next_ticket;
        let ghost old_queue = self.queue@;
        self.arrivals = Ghost(self.arrivals@.push(op));
        self.queue.push_back(PendingCall { ticket, op, slot });
        self.next_ticket = ticket + 1;
        assert(ops_of(self.queue@) =~= ops_of(old_queue).push(op));
        assert(self.arrivals@ =~= self.executed@ + ops_of(self.queue@));
        Ok(ticket)
    }

    /// Executes the oldest pending call on the device and answers it into
    /// that call's own slot. A device fault is answered like any outcome and
    /// leaves the actor serving. The slot is never inspected, so a call
    /// whose caller has gone away is served and passed like any other.
    pub fn serve_next(&mut self) -> (r: Option<Reply<S>>)
        requires
            old(self).wf(),
        ensures
            final(self).wf(),
            final(self).running() == old(self).running(),
            final(self).arrivals() == old(self).arrivals(),
            r is None <==> old(self).pending().len() == 0,
            r is None ==> final(self).pending() == old(self).pending()
                && final(self).executed() == old(self).executed(),
            r matches Some(rep) ==> {
                let call = old(self).pending()[0];
                &&& rep.ticket == call.ticket
                &&& rep.ticket == old(self).served_count()
                &&& rep.slot == call.slot
                &&& (rep.result matches Ok(o) ==> answers(call.op, o))
                &&& final(self).pending() == old(self).pending().drop_first()
                &&& final(self).executed() == old(self).executed().push(call.op)
            },
    {
        let ghost old_queue = self.queue@;
        match self.queue.pop_front() {
            None => None,
            Some(call) => {
                let PendingCall { ticket, op, slot } = call;
                self.executed = Ghost(self.executed@.push(op));
                assert(old_queue[0].ticket == self.executed@.len() - 1);
                assert forall|i: int| 0 <= i < self.queue@.len() implies
                    (#[trigger] self.queue@[i]).ticket == self.executed@.len() + i by {
                    assert(self.queue@[i] == old_queue[i + 1]);
                }
                assert(ops_of(old_queue) =~= seq![op] + ops_of(self.queue@));
                assert(self.arrivals@ =~= self.executed@ + ops_of(self.queue@));
                let result = self.device.execute(op);
                Some(Reply { ticket, slot, result })
            },
        }
    }
}

/// The device's history is serial and in arrival order: what it has
/// executed is exactly the oldest accepted operations, each whole, and the
/// rest still waits in the same order.
pub proof fn lemma_serial_history<S>(a: &DeviceActor<S>)
    requires
        a.wf(),
    ensures
        a.executed() + ops_of(a.pending()) == a.arrivals(),
        a.served_count() <= a.arrivals().len(),
        a.executed() == a.arrivals().subrange(0, a.served_count() as int),
{
    assert(a.arrivals().subrange(0, a.served_count() as int) =~= a.executed());
}

/// Every reply slot is answered exactly once: answered calls hold the
/// tickets below `served_count`, each pending call a distinct ticket above
/// them, and the call at position `i` is the one the `i + 1`-th next
/// `serve_next` answers (each answers ticket `served_count` and raises it).
pub proof fn lemma_reply_once<S>(a: &DeviceActor<S>)
    requires
        a.wf(),
    ensures
        forall|i: int| 0 <= i < a.pending().len() ==>
            (#[trigger] a.pending()[i]).ticket == a.served_count() + i,
        forall|i: int, j: int| 0 <= i < a.pending().len() && 0 <= j < a.pending().len() && i != j ==>
            (#[trigger] a.pending()[i]).ticket != (#[trigger] a.pending()[j]).ticket,
{
}

} // verus!
