use vstd::prelude::*;
use crate::command::{ConfigFile, LaunchCommand, RestartError, command_for, launch_agrees, launch_command};

verus! {

/// One operation on the supervisor, as its driver issues them.
pub enum SupervisorOp<H> {
    /// Stop the running child, if any.
    Stop,
    /// Begin a restart: the running child, if any, is handed back.
    Restart,
    /// A child was spawned and is now the managed one.
    Started(H),
}

/// The managed handle after `op`, and the handle `op` hands back for
/// termination, if any.
pub open spec fn op_step<H>(held: Option<H>, op: SupervisorOp<H>) -> (Option<H>, Option<H>) {
    match op {
        SupervisorOp::Stop => (None, held),
        SupervisorOp::Restart => (None, held),
        SupervisorOp::Started(h) => (Some(h), held),
    }
}

/// The sequence as a list (empty or one element).
pub open spec fn opt_seq<H>(o: Option<H>) -> Seq<H> {
    match o {
        Some(h) => seq![h],
        None => seq![],
    }
}

/// Running `ops` from a stopped supervisor: the handle it then manages, the
/// handles it handed back for termination, and the handles it was given, in
/// order.
pub open spec fn run_ops<H>(ops: Seq<SupervisorOp<H>>) -> (Option<H>, Seq<H>, Seq<H>)
    decreases ops.len(),
{
    if ops.len() == 0 {
        (None, seq![], seq![])
    } else {
        let (held, released, started) = run_ops(ops.drop_last());
        let op = ops.last();
        let (next, out) = op_step(held, op);
        let started2 = match op {
            SupervisorOp::Started(h) => started.push(h),
            _ => started,
        };
        (next, released + opt_seq(out), started2)
    }
}

/// Owns the handle of the single managed child process. Starting a new child
/// always goes through handing back the old one, so that the driver kills and
/// reaps it first. The operations made so far are kept as ghost state.
pub struct ScriptProcess<H> {
    child: Option<H>,
    ops: Ghost<Seq<SupervisorOp<H>>>,
}

/// `run_ops` on one more operation takes one more step.
proof fn run_ops_push<H>(ops: Seq<SupervisorOp<H>>, op: SupervisorOp<H>)
    ensures
        run_ops(ops.push(op)).0 == op_step(run_ops(ops).0, op).0,
{
    assert(ops.push(op).drop_last() =~= ops);
}

impl<H> ScriptProcess<H> {
    /// The handle of the running child, if one runs.
    pub closed spec fn handle(&self) -> Option<H> {
        self.child
    }

    /// The operations made on this supervisor since it was created.
    pub closed spec fn history(&self) -> Seq<SupervisorOp<H>> {
        self.ops@
    }

    /// The managed handle is the one that running the history gives.
    pub open spec fn wf(&self) -> bool {
        self.handle() == run_ops(self.history()).0
    }

    /// A supervisor with no child.
    pub fn new() -> (r: ScriptProcess<H>)
        ensures
            r.handle() is None,
            r.history() == Seq::<SupervisorOp<H>>::empty(),
            r.wf(),
    {
        ScriptProcess { child: None, ops: Ghost(Seq::empty()) }
    }

    /// Whether a child is running.
    pub fn is_running(&self) -> (r: bool)
        ensures
            r == self.handle() is Some,
    {
        self.child.is_some()
    }

    /// Stops supervising: hands back the running child's handle, to be
    /// terminated and reaped, and leaves the supervisor stopped. On a stopped
    /// supervisor it does nothing and hands back nothing.
    pub fn stop(&mut self) -> (r: Option<H>)
        requires
            old(self).wf(),
        ensures
            (final(self).handle(), r) == op_step(old(self).handle(), SupervisorOp::Stop),
            r == old(self).handle(),
            final(self).handle() is None,
            final(self).history() == old(self).history().push(SupervisorOp::Stop),
            final(self).wf(),
    {
        proof {
            run_ops_push(self.ops@, SupervisorOp::Stop);
        }
        self.ops = Ghost(self.ops@.push(SupervisorOp::Stop));
        self.child.take()
    }

    /// Begins a restart under `config`: hands back the running child's handle,
    /// to be terminated and reaped before anything else, leaves the supervisor
    /// stopped, and says what to launch next, or why nothing can be launched.
    pub fn restart(&mut self, config: &ConfigFile) -> (r: (Option<H>, Result<LaunchCommand, RestartError>))
        requires
            old(self).wf(),
        ensures
            (final(self).handle(), r.0) == op_step(old(self).handle(), SupervisorOp::Restart),
            r.0 == old(self).handle(),
            final(self).handle() is None,
            launch_agrees(config, r.1),
            final(self).history() == old(self).history().push(SupervisorOp::Restart),
            final(self).wf(),
    {
        proof {
            run_ops_push(self.ops@, SupervisorOp::Restart);
        }
        self.ops = Ghost(self.ops@.push(SupervisorOp::Restart));
        let old_child = self.child.take();
        (old_child, launch_command(config))
    }

    /// Records a freshly spawned child as the managed one, handing back the
    /// handle it replaces, if any (none after `stop` or `restart`).
    pub fn started(&mut self, child: H) -> (r: Option<H>)
        requires
            old(self).wf(),
        ensures
            (final(self).handle(), r) == op_step(old(self).handle(), SupervisorOp::Started(child)),
            final(self).handle() == Some(child),
            r == old(self).handle(),
            final(self).history() == old(self).history().push(SupervisorOp::Started(child)),
            final(self).wf(),
    {
        let ghost op = SupervisorOp::Started(child);
        proof {
            run_ops_push(self.ops@, op);
        }
        self.ops = Ghost(self.ops@.push(op));
        let previous = self.child.take();
        self.child = Some(child);
        previous
    }
}

/// Whatever operations run, every child the supervisor was given is either
/// still managed or was handed back for termination: the handles given equal
/// those handed back plus the one managed, so at most one child is live, and
/// the managed one is the last started.
pub proof fn at_most_one_live_child<H>(ops: Seq<SupervisorOp<H>>)
    ensures
        ({
            let (held, released, started) = run_ops(ops);
            &&& started.len() == released.len() + opt_seq(held).len()
            &&& opt_seq(held).len() <= 1
            &&& (held matches Some(h) ==> started.len() > 0 && h == started.last())
        }),
    decreases ops.len(),
{
    if ops.len() > 0 {
        at_most_one_live_child(ops.drop_last());
    }
}

/// Of a supervisor driven only through its methods: every child it was given
/// is either the one it manages or was handed back for termination, so at
/// most one is live, and the one it manages is the last it was given.
pub proof fn supervisor_holds_last_started<H>(p: &ScriptProcess<H>)
    requires
        p.wf(),
    ensures
        ({
            let (held, released, started) = run_ops(p.history());
            &&& p.handle() == held
            &&& started.len() == released.len() + opt_seq(held).len()
            &&& opt_seq(p.handle()).len() <= 1
            &&& (p.handle() matches Some(h) ==> started.len() > 0 && h == started.last())
        }),
{
    at_most_one_live_child(p.history());
}

/// Stopping twice in a row: the second stop hands back nothing and leaves
/// the supervisor as the first left it.
pub proof fn second_stop_is_noop<H>(held: Option<H>)
    ensures
        op_step(op_step(held, SupervisorOp::Stop).0, SupervisorOp::Stop) == (
            None::<H>,
            None::<H>,
        ),
        op_step(held, SupervisorOp::Stop).0 is None,
{
}

/// A restart under a configuration whose script type has no known command
/// fails, and its error names that type.
pub proof fn unknown_type_fails(config: &ConfigFile, r: Result<LaunchCommand, RestartError>)
    requires
        config.script_type matches Some(t) && command_for(t@) is None,
        launch_agrees(config, r),
    ensures
        r matches Err(RestartError::UnsupportedScriptType(s)) && s@ == config.script_type->0@,
{
}

} // verus!
