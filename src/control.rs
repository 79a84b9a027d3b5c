use vstd::prelude::*;

verus! {

/// The state after a stop request on a control in state `c`, and what the
/// request hands back for cancellation: the running task, if any.
pub open spec fn stop_outcome<H>(c: Option<H>) -> (Option<H>, Option<H>) {
    (None, c)
}

/// Start/stop bookkeeping for one engine run: the handle of the task that
/// runs the engine while it is in flight.
pub struct PortalControl<H> {
    task: Option<H>,
}

impl<H> View for PortalControl<H> {
    type V = Option<H>;

    closed spec fn view(&self) -> Option<H> {
        self.task
    }
}

impl<H> PortalControl<H> {
    /// A control with nothing running.
    pub fn new() -> (r: Self)
        ensures
            r@ == None::<H>,
    {
        PortalControl { task: None }
    }

    /// Whether an engine run is in flight.
    pub fn is_running(&self) -> (r: bool)
        ensures
            r == self@.is_some(),
    {
        self.task.is_some()
    }

    /// The task of the run in flight, if any.
    pub fn task(&self) -> (r: Option<&H>)
        ensures
            r.is_some() == self@.is_some(),
            r.is_some() ==> *r.unwrap() == self@.unwrap(),
    {
        self.task.as_ref()
    }

    /// Records `task` as the running engine. A control that already has a run
    /// in flight is left as it is, and `task` is handed back.
    pub fn launch(&mut self, task: H) -> (r: Result<(), H>)
        ensures
            old(self)@.is_some() ==> r == Err::<(), H>(task) && final(self)@ == old(self)@,
            old(self)@.is_none() ==> r == Ok::<(), H>(()) && final(self)@ == Some(task),
    {
        if self.task.is_some() {
            Err(task)
        } else {
            self.task = Some(task);
            Ok(())
        }
    }

    /// Takes note of whether the running task has finished on its own, and
    /// returns whether a run is still in flight.
    pub fn refresh(&mut self, finished: bool) -> (r: bool)
        ensures
            final(self)@ == (if finished {
                None
            } else {
                old(self)@
            }),
            r == final(self)@.is_some(),
    {
        if finished {
            self.task = None;
        }
        self.task.is_some()
    }

    /// Requests shutdown: hands back the running task for cancellation and
    /// leaves nothing running. With nothing running it does nothing.
    pub fn stop(&mut self) -> (r: Option<H>)
        ensures
            (final(self)@, r) == stop_outcome(old(self)@),
    {
        self.task.take()
    }
}

/// Stopping leaves nothing running, and a second stop is a no-op: it hands
/// nothing back and leaves the state as it was.
pub proof fn lemma_stop_idempotent<H>(c: Option<H>)
    ensures
        stop_outcome(c).0 == None::<H>,
        stop_outcome(c).1 == c,
        stop_outcome(stop_outcome(c).0) == (None::<H>, None::<H>),
{
}

} // verus!
