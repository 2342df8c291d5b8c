//! The descriptor limiter: a counting admission gate bounding how many file
//! descriptors the read side holds open at once.
//!
//! The limiter itself is the synchronous state machine of the protocol: a
//! request is granted at once when capacity is free and otherwise joins the
//! waiters; a waiter is woken when a permit is returned, or abandons its
//! wait (a cancelled or timed-out acquisition). The suspension between those
//! steps is the caller's affair — an async runtime parks a refused caller
//! and retries on wake — so every transition of the permit accounting is
//! verified here.

use vstd::prelude::*;

verus! {

/// One unit of admission. A permit is minted only by a successful
/// acquisition and is surrendered back to the limiter when the handle it
/// authorised is closed; it cannot be constructed otherwise.
pub struct Permit {
    marker: (),
}

/// The admission gate. `outstanding` counts issued, unreleased permits and
/// never exceeds `capacity`; `waiting` counts callers suspended until a
/// permit frees up, with no bound of its own beyond the machine's.
pub struct DescriptorLimiter {
    pub capacity: usize,
    pub outstanding: usize,
    pub waiting: usize,
}

/// One step of the admission protocol, as the limiter's state sees it.
pub enum LimiterEvent {
    /// A caller asks for a permit: granted at once when capacity is free,
    /// otherwise the caller joins the waiters.
    Request,
    /// A suspended waiter is woken and granted a freed permit.
    Wake,
    /// A permit holder closes its handle and returns the permit.
    Release,
    /// A suspended waiter abandons its wait, for example on a timeout.
    CancelWait,
}

impl DescriptorLimiter {
    /// The limiter's invariant: outstanding permits never exceed capacity.
    pub open spec fn wf(self) -> bool {
        self.outstanding <= self.capacity
    }

    /// A fresh limiter: no permits issued, nobody waiting.
    pub open spec fn spec_new(capacity: usize) -> DescriptorLimiter {
        DescriptorLimiter { capacity, outstanding: 0, waiting: 0 }
    }

    /// The state after one protocol event. Events that do not apply (a
    /// release with nothing outstanding, a wake with nobody waiting) leave
    /// the state unchanged.
    pub open spec fn step(self, e: LimiterEvent) -> DescriptorLimiter {
        match e {
            LimiterEvent::Request => if self.outstanding < self.capacity {
                DescriptorLimiter { outstanding: (self.outstanding + 1) as usize, ..self }
            } else if self.waiting < usize::MAX {
                DescriptorLimiter { waiting: (self.waiting + 1) as usize, ..self }
            } else {
                self
            },
            LimiterEvent::Wake => if self.waiting > 0 && self.outstanding < self.capacity {
                DescriptorLimiter {
                    outstanding: (self.outstanding + 1) as usize,
                    waiting: (self.waiting - 1) as usize,
                    ..self
                }
            } else {
                self
            },
            LimiterEvent::Release => if self.outstanding > 0 {
                DescriptorLimiter { outstanding: (self.outstanding - 1) as usize, ..self }
            } else {
                self
            },
            LimiterEvent::CancelWait => if self.waiting > 0 {
                DescriptorLimiter { waiting: (self.waiting - 1) as usize, ..self }
            } else {
                self
            },
        }
    }

    /// The state after a whole history of protocol events.
    pub open spec fn run(self, events: Seq<LimiterEvent>) -> DescriptorLimiter
        decreases events.len(),
    {
        if events.len() == 0 {
            self
        } else {
            self.run(events.drop_last()).step(events.last())
        }
    }

    /// Creates a limiter with the given fixed capacity, chosen by the
    /// caller conservatively below the platform's descriptor ceiling.
    pub fn new(capacity: usize) -> (r: DescriptorLimiter)
        ensures
            r == DescriptorLimiter::spec_new(capacity),
            r.wf(),
    {
        DescriptorLimiter { capacity, outstanding: 0, waiting: 0 }
    }

    /// A caller asks for a permit. Granted exactly when the outstanding
    /// count is below capacity; otherwise the caller is recorded as a
    /// waiter and must suspend until woken.
    pub fn acquire_request(&mut self) -> (r: Option<Permit>)
        requires
            old(self).wf(),
        ensures
            *final(self) == old(self).step(LimiterEvent::Request),
            r is Some <==> old(self).outstanding < old(self).capacity,
            final(self).wf(),
    {
        if self.outstanding < self.capacity {
            self.outstanding = self.outstanding + 1;
            Some(Permit { marker: () })
        } else {
            if self.waiting < usize::MAX {
                self.waiting = self.waiting + 1;
            }
            None
        }
    }

    /// A woken waiter claims a freed permit. Granted exactly when a waiter
    /// is recorded and capacity is free; otherwise (the permit was claimed
    /// first by another caller) the waiter suspends again.
    pub fn wake_waiter(&mut self) -> (r: Option<Permit>)
        requires
            old(self).wf(),
        ensures
            *final(self) == old(self).step(LimiterEvent::Wake),
            r is Some <==> old(self).waiting > 0 && old(self).outstanding < old(self).capacity,
            final(self).wf(),
    {
        if self.waiting > 0 && self.outstanding < self.capacity {
            self.waiting = self.waiting - 1;
            self.outstanding = self.outstanding + 1;
            Some(Permit { marker: () })
        } else {
            None
        }
    }

    /// A permit holder returns its permit; the permit is consumed and one
    /// unit of capacity frees up.
    pub fn release(&mut self, permit: Permit) -> (r: ())
        requires
            old(self).wf(),
            old(self).outstanding > 0,
        ensures
            *final(self) == old(self).step(LimiterEvent::Release),
            final(self).outstanding == old(self).outstanding - 1,
            final(self).wf(),
    {
        let _ = permit;
        self.outstanding = self.outstanding - 1;
    }

    /// A waiter abandons its wait. Only the waiter count moves; the permit
    /// count is untouched on this path.
    pub fn cancel_wait(&mut self) -> (r: ())
        requires
            old(self).wf(),
        ensures
            *final(self) == old(self).step(LimiterEvent::CancelWait),
            final(self).outstanding == old(self).outstanding,
            final(self).wf(),
    {
        if self.waiting > 0 {
            self.waiting = self.waiting - 1;
        }
    }
}

/// Law: every protocol event preserves the permit bound, and none changes
/// the configured capacity.
pub proof fn lemma_step_preserves_bound(s: DescriptorLimiter, e: LimiterEvent)
    requires
        s.wf(),
    ensures
        s.step(e).wf(),
        s.step(e).capacity == s.capacity,
{
}

/// Law: under an arbitrary history of concurrent requests, grants, releases
/// and cancellations, the count of outstanding permits never exceeds the
/// configured capacity.
pub proof fn lemma_outstanding_never_exceeds_capacity(
    capacity: usize,
    events: Seq<LimiterEvent>,
)
    ensures
        DescriptorLimiter::spec_new(capacity).run(events).capacity == capacity,
        DescriptorLimiter::spec_new(capacity).run(events).outstanding <= capacity,
    decreases events.len(),
{
    if events.len() > 0 {
        lemma_outstanding_never_exceeds_capacity(capacity, events.drop_last());
        lemma_step_preserves_bound(
            DescriptorLimiter::spec_new(capacity).run(events.drop_last()),
            events.last(),
        );
    }
}

/// Law: cancelling a pending acquisition leaves the permit count unchanged
/// from before the attempt. A request that found the limiter at capacity
/// queued its caller without consuming a permit, and cancelling that wait
/// restores the exact state before the request.
pub proof fn lemma_cancelled_wait_restores_state(s: DescriptorLimiter)
    requires
        s.outstanding >= s.capacity,
        s.waiting < usize::MAX,
    ensures
        s.step(LimiterEvent::Request).step(LimiterEvent::CancelWait) == s,
        s.step(LimiterEvent::Request).outstanding == s.outstanding,
{
}

/// Law: cancellation never moves the permit count, whatever the state.
pub proof fn lemma_cancel_keeps_outstanding(s: DescriptorLimiter)
    ensures
        s.step(LimiterEvent::CancelWait).outstanding == s.outstanding,
        s.step(LimiterEvent::CancelWait).capacity == s.capacity,
{
}

} // verus!
