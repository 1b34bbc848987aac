use vstd::prelude::*;

verus! {

/// Nanoseconds in one second.
pub const NANOS_PER_SEC: u128 = 1_000_000_000;

/// Whether an event at `now` is accepted after the last accepted trigger at
/// `last`, with a window of `delay` (all in the same unit): only when strictly
/// more than `delay` has passed.
pub open spec fn accepts(now: int, last: int, delay: int) -> bool {
    now - last > delay
}

/// The time of the last accepted trigger after an event at `now`.
pub open spec fn next_last(now: int, last: int, delay: int) -> int {
    if accepts(now, last, delay) {
        now
    } else {
        last
    }
}

/// How many of the events at `times`, taken in order, trigger, starting from
/// a last trigger at `last`.
pub open spec fn count_triggers(last: int, delay: int, times: Seq<int>) -> nat
    decreases times.len(),
{
    if times.len() == 0 {
        0
    } else {
        let t = times[0];
        let rest = count_triggers(next_last(t, last, delay), delay, times.drop_first());
        if accepts(t, last, delay) {
            rest + 1
        } else {
            rest
        }
    }
}

/// Whether an event at `now_ns` triggers when the last trigger was at
/// `last_ns` and the window is `window_ns` (all in nanoseconds).
pub fn should_trigger(now_ns: u64, last_ns: u64, window_ns: u128) -> (r: bool)
    ensures
        r == accepts(now_ns as int, last_ns as int, window_ns as int),
{
    now_ns > last_ns && (now_ns - last_ns) as u128 > window_ns
}

/// Collapses bursts of change events: a trigger is accepted only when more
/// than the window has passed since the last accepted one, and accepting
/// records the event's time in the same step.
pub struct Debouncer {
    last_trigger_ns: u64,
    window_ns: u128,
}

impl Debouncer {
    /// Time of the last accepted trigger, in nanoseconds.
    pub closed spec fn last(&self) -> int {
        self.last_trigger_ns as int
    }

    /// Length of the window, in nanoseconds.
    pub closed spec fn window(&self) -> int {
        self.window_ns as int
    }

    /// A debouncer whose window is `delay_secs` seconds, counting the start
    /// at `start_ns` as the last trigger.
    pub fn new(start_ns: u64, delay_secs: u64) -> (r: Debouncer)
        ensures
            r.last() == start_ns as int,
            r.window() == delay_secs as int * NANOS_PER_SEC as int,
    {
        assert(delay_secs as u128 * NANOS_PER_SEC <= u64::MAX as u128 * 1_000_000_000u128)
            by (nonlinear_arith);
        Debouncer { last_trigger_ns: start_ns, window_ns: delay_secs as u128 * NANOS_PER_SEC }
    }

    /// Decides whether an event at `now_ns` triggers, and records it as the
    /// last trigger when it does; a rejected event changes nothing.
    pub fn try_trigger(&mut self, now_ns: u64) -> (r: bool)
        ensures
            r == accepts(now_ns as int, old(self).last(), old(self).window()),
            final(self).last() == next_last(now_ns as int, old(self).last(), old(self).window()),
            final(self).window() == old(self).window(),
    {
        let accepted = should_trigger(now_ns, self.last_trigger_ns, self.window_ns);
        if accepted {
            self.last_trigger_ns = now_ns;
        }
        accepted
    }
}

/// An event exactly one window after the last trigger is rejected; one any
/// amount later than that is accepted.
pub proof fn debounce_boundary(t0: int, delay: int, eps: int)
    requires
        delay >= 0,
        eps > 0,
    ensures
        !accepts(t0 + delay, t0, delay),
        next_last(t0 + delay, t0, delay) == t0,
        accepts(t0 + delay + eps, t0, delay),
{
}

/// Events that all fall within a span no longer than the window trigger at
/// most once, whatever their order.
pub proof fn burst_collapses(last: int, delay: int, times: Seq<int>, lo: int, hi: int)
    requires
        delay >= 0,
        hi - lo <= delay,
        forall|i: int| 0 <= i < times.len() ==> lo <= #[trigger] times[i] <= hi,
    ensures
        count_triggers(last, delay, times) <= 1,
    decreases times.len(),
{
    if times.len() > 0 {
        let t = times[0];
        let rest = times.drop_first();
        assert forall|i: int| 0 <= i < rest.len() implies lo <= #[trigger] rest[i] <= hi by {
            assert(rest[i] == times[i + 1]);
        }
        if accepts(t, last, delay) {
            none_after_trigger(t, delay, rest, lo, hi);
        } else {
            burst_collapses(last, delay, rest, lo, hi);
        }
    }
}

/// After a trigger at a time no earlier than `lo`, no event up to `hi` within
/// one window triggers again.
proof fn none_after_trigger(last: int, delay: int, times: Seq<int>, lo: int, hi: int)
    requires
        lo <= last,
        hi - lo <= delay,
        forall|i: int| 0 <= i < times.len() ==> lo <= #[trigger] times[i] <= hi,
    ensures
        count_triggers(last, delay, times) == 0,
    decreases times.len(),
{
    if times.len() > 0 {
        let rest = times.drop_first();
        assert(!accepts(times[0], last, delay));
        assert forall|i: int| 0 <= i < rest.len() implies lo <= #[trigger] rest[i] <= hi by {
            assert(rest[i] == times[i + 1]);
        }
        none_after_trigger(last, delay, rest, lo, hi);
    }
}

} // verus!
