use vstd::prelude::*;
use crate::command::{ConfigFile, texts};
use crate::debounce::{Debouncer, NANOS_PER_SEC, accepts};
use crate::filter::{ignored, should_ignore_path};

verus! {

/// What a filesystem change did.
#[derive(Clone, Copy, Debug, PartialEq, Eq, Structural)]
pub enum ChangeKind {
    Create,
    Modify,
    Remove,
    /// Anything else, such as an access or a metadata change.
    Other,
}

/// What the watch loop does with one change event.
#[derive(Clone, Copy, Debug, PartialEq, Eq, Structural)]
pub enum LoopAction {
    /// The event names no path: skip it.
    NoPath,
    /// The event's first path matches the ignore pattern: skip it.
    Ignored,
    /// The kind of change does not call for a restart: skip it.
    Unrelated,
    /// Too soon after the last restart: drop it.
    Debounced,
    /// Settle for the configured delay, then restart the script.
    Restart,
}

/// Whether a change of this kind can call for a restart.
pub open spec fn relevant(kind: ChangeKind) -> bool {
    kind != ChangeKind::Other
}

/// The action for a change of `kind` to `paths` at time `now`, under the
/// ignore pattern `pattern`, with the last restart at `last` and a debounce
/// window of `window`.
pub open spec fn loop_action(
    pattern: Option<Seq<char>>,
    last: int,
    window: int,
    kind: ChangeKind,
    paths: Seq<Seq<char>>,
    now: int,
) -> LoopAction {
    if paths.len() == 0 {
        LoopAction::NoPath
    } else if ignored(pattern, paths[0]) {
        LoopAction::Ignored
    } else if !relevant(kind) {
        LoopAction::Unrelated
    } else if accepts(now, last, window) {
        LoopAction::Restart
    } else {
        LoopAction::Debounced
    }
}

/// One change event as the loop sees it: kind, paths, and time.
pub type ChangeEvent = (ChangeKind, Seq<Seq<char>>, int);

/// Running the loop over `events` in order, starting with the last restart
/// at `start`: how many of them make it restart, and the time of the last
/// restart afterwards.
pub open spec fn run_events(
    pattern: Option<Seq<char>>,
    start: int,
    window: int,
    events: Seq<ChangeEvent>,
) -> (nat, int)
    decreases events.len(),
{
    if events.len() == 0 {
        (0, start)
    } else {
        let (count, last) = run_events(pattern, start, window, events.drop_last());
        let (kind, paths, now) = events.last();
        if loop_action(pattern, last, window, kind, paths, now) == LoopAction::Restart {
            (count + 1, now)
        } else {
            (count, last)
        }
    }
}

/// Whether every event of `events` happens between `lo` and `hi`.
pub open spec fn all_between(events: Seq<ChangeEvent>, lo: int, hi: int) -> bool {
    forall|i: int| 0 <= i < events.len() ==> lo <= (#[trigger] events[i]).2 <= hi
}

/// Change events that all fall within a span no longer than the debounce
/// window make the loop restart at most once, whatever their kinds, paths
/// and order, and from whatever state it starts.
pub proof fn burst_restarts_at_most_once(
    pattern: Option<Seq<char>>,
    start: int,
    window: int,
    events: Seq<ChangeEvent>,
    lo: int,
    hi: int,
)
    requires
        hi - lo <= window,
        all_between(events, lo, hi),
    ensures
        run_events(pattern, start, window, events).0 <= 1,
        run_events(pattern, start, window, events).0 == 1 ==> lo <= run_events(
            pattern,
            start,
            window,
            events,
        ).1,
    decreases events.len(),
{
    if events.len() > 0 {
        let prev = events.drop_last();
        assert forall|i: int| 0 <= i < prev.len() implies lo <= (#[trigger] prev[i]).2 <= hi by {
            assert(prev[i] == events[i]);
        }
        assert(lo <= events[events.len() - 1].2 <= hi);
        burst_restarts_at_most_once(pattern, start, window, prev, lo, hi);
    }
}

/// The view of an optional string.
pub open spec fn opt_text(s: Option<String>) -> Option<Seq<char>> {
    match s {
        Some(t) => Some(t@),
        None => None,
    }
}

/// The decisions of the watch loop: which change events lead to a restart.
/// The check against the debounce window and the recording of an accepted
/// event happen in one step.
pub struct EventLoop {
    debouncer: Debouncer,
    ignore_pattern: Option<String>,
    start: Ghost<int>,
    seen: Ghost<Seq<ChangeEvent>>,
    restarts: Ghost<nat>,
}

impl EventLoop {
    /// Time of the last restart (or of the start), in nanoseconds.
    pub closed spec fn last(&self) -> int {
        self.debouncer.last()
    }

    /// Debounce window, in nanoseconds.
    pub closed spec fn window(&self) -> int {
        self.debouncer.window()
    }

    /// The ignore pattern's text, if one is set.
    pub closed spec fn pattern(&self) -> Option<Seq<char>> {
        opt_text(self.ignore_pattern)
    }

    /// The time the loop started at, in nanoseconds.
    pub closed spec fn start(&self) -> int {
        self.start@
    }

    /// The change events handed to the loop so far, in order.
    pub closed spec fn seen(&self) -> Seq<ChangeEvent> {
        self.seen@
    }

    /// How many of those events made the loop restart.
    pub closed spec fn restarts(&self) -> nat {
        self.restarts@
    }

    /// The restarts so far and the last restart's time are what running the
    /// loop over the events seen gives.
    pub open spec fn wf(&self) -> bool {
        (self.restarts(), self.last()) == run_events(
            self.pattern(),
            self.start(),
            self.window(),
            self.seen(),
        )
    }

    /// The loop for `config`, started at `start_ns`.
    pub fn new(config: &ConfigFile, start_ns: u64) -> (r: EventLoop)
        ensures
            r.last() == start_ns as int,
            r.window() == config.delay as int * NANOS_PER_SEC as int,
            r.pattern() == opt_text(config.ignore_pattern),
            r.start() == start_ns as int,
            r.seen() == Seq::<ChangeEvent>::empty(),
            r.restarts() == 0,
            r.wf(),
    {
        let ignore_pattern = match &config.ignore_pattern {
            Some(p) => Some(p.clone()),
            None => None,
        };
        EventLoop {
            debouncer: Debouncer::new(start_ns, config.delay),
            ignore_pattern,
            start: Ghost(start_ns as int),
            seen: Ghost(Seq::empty()),
            restarts: Ghost(0),
        }
    }

    /// Decides what to do with a change of `kind` to `paths` seen at `now_ns`.
    /// Only the first path counts. A restart is recorded as the last one.
    pub fn on_change(&mut self, kind: ChangeKind, paths: &Vec<String>, now_ns: u64) -> (r:
        LoopAction)
        requires
            old(self).wf(),
        ensures
            final(self).seen() == old(self).seen().push((kind, texts(paths@), now_ns as int)),
            final(self).restarts() == old(self).restarts() + (if r == LoopAction::Restart {
                1nat
            } else {
                0nat
            }),
            final(self).start() == old(self).start(),
            final(self).wf(),
            r == loop_action(
                old(self).pattern(),
                old(self).last(),
                old(self).window(),
                kind,
                texts(paths@),
                now_ns as int,
            ),
            final(self).last() == (if r == LoopAction::Restart {
                now_ns as int
            } else {
                old(self).last()
            }),
            final(self).window() == old(self).window(),
            final(self).pattern() == old(self).pattern(),
    {
        let ghost event: ChangeEvent = (kind, texts(paths@), now_ns as int);
        proof {
            assert(self.seen@.push(event).drop_last() =~= self.seen@);
        }
        let r = self.decide(kind, paths, now_ns);
        self.seen = Ghost(self.seen@.push(event));
        if r == LoopAction::Restart {
            self.restarts = Ghost(self.restarts@ + 1);
        }
        r
    }

    /// The decision of `on_change`, without its bookkeeping.
    fn decide(&mut self, kind: ChangeKind, paths: &Vec<String>, now_ns: u64) -> (r: LoopAction)
        ensures
            r == loop_action(
                old(self).pattern(),
                old(self).last(),
                old(self).window(),
                kind,
                texts(paths@),
                now_ns as int,
            ),
            final(self).last() == (if r == LoopAction::Restart {
                now_ns as int
            } else {
                old(self).last()
            }),
            final(self).window() == old(self).window(),
            final(self).pattern() == old(self).pattern(),
            final(self).start() == old(self).start(),
            final(self).seen() == old(self).seen(),
            final(self).restarts() == old(self).restarts(),
    {
        if paths.len() == 0 {
            return LoopAction::NoPath;
        }
        let first = paths[0].as_str();
        let pattern = match &self.ignore_pattern {
            Some(p) => Some(p.as_str()),
            None => None,
        };
        if should_ignore_path(first, pattern) {
            return LoopAction::Ignored;
        }
        match kind {
            ChangeKind::Other => LoopAction::Unrelated,
            _ => {
                if self.debouncer.try_trigger(now_ns) {
                    LoopAction::Restart
                } else {
                    LoopAction::Debounced
                }
            },
        }
    }
}

/// Of a loop driven only through its methods: when all the events it was
/// handed fall within a span no longer than its window, it restarted at most
/// once.
pub proof fn loop_burst_restarts_at_most_once(l: &EventLoop, lo: int, hi: int)
    requires
        l.wf(),
        hi - lo <= l.window(),
        all_between(l.seen(), lo, hi),
    ensures
        l.restarts() <= 1,
{
    burst_restarts_at_most_once(l.pattern(), l.start(), l.window(), l.seen(), lo, hi);
}

} // verus!
