use vstd::prelude::*;

verus! {

/// Abstract state of a one-shot countdown timer, in nanoseconds.
pub struct TimerView {
    pub elapsed: nat,
    pub duration: nat,
    pub finished: bool,
}

impl TimerView {
    pub open spec fn wf(self) -> bool {
        &&& self.elapsed <= self.duration
        &&& self.finished ==> self.elapsed == self.duration
    }

    /// A timer that was just started (or reset): nothing elapsed, not finished.
    pub open spec fn fresh(duration: nat) -> TimerView {
        TimerView { elapsed: 0, duration, finished: false }
    }

    /// Advancing a one-shot timer: a finished timer stays as it is; otherwise the
    /// elapsed time grows by `delta`, stops at the duration, and the timer is
    /// finished once the duration is reached.
    pub open spec fn advanced(self, delta: nat) -> TimerView {
        if self.finished {
            self
        } else if self.elapsed + delta >= self.duration {
            TimerView { elapsed: self.duration, duration: self.duration, finished: true }
        } else {
            TimerView { elapsed: self.elapsed + delta, duration: self.duration, finished: false }
        }
    }
}

/// A one-shot timer over nanosecond counts. Once finished it stays finished
/// until it is reset.
#[derive(Clone, Copy, Debug, PartialEq, Eq)]
pub struct OnceTimer {
    elapsed_ns: u64,
    duration_ns: u64,
    finished: bool,
}

impl View for OnceTimer {
    type V = TimerView;

    closed spec fn view(&self) -> TimerView {
        TimerView {
            elapsed: self.elapsed_ns as nat,
            duration: self.duration_ns as nat,
            finished: self.finished,
        }
    }
}

impl OnceTimer {
    pub fn new(duration_ns: u64) -> (t: OnceTimer)
        ensures
            t@ == TimerView::fresh(duration_ns as nat),
    {
        OnceTimer { elapsed_ns: 0, duration_ns, finished: false }
    }

    pub fn tick(&mut self, delta_ns: u64)
        requires
            old(self)@.wf(),
        ensures
            final(self)@ == old(self)@.advanced(delta_ns as nat),
            final(self)@.wf(),
    {
        if self.finished {
            return;
        }
        if delta_ns >= self.duration_ns - self.elapsed_ns {
            self.elapsed_ns = self.duration_ns;
            self.finished = true;
        } else {
            self.elapsed_ns = self.elapsed_ns + delta_ns;
        }
    }

    pub fn finished(&self) -> (r: bool)
        ensures
            r == self@.finished,
    {
        self.finished
    }

    pub fn reset(&mut self)
        ensures
            final(self)@ == TimerView::fresh(old(self)@.duration),
    {
        self.elapsed_ns = 0;
        self.finished = false;
    }

    pub fn elapsed_ns(&self) -> (r: u64)
        ensures
            r == self@.elapsed,
    {
        self.elapsed_ns
    }

    pub fn duration_ns(&self) -> (r: u64)
        ensures
            r == self@.duration,
    {
        self.duration_ns
    }
}

} // verus!
