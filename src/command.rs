//! A queue of commands bound to one target, with a cursor that steps
//! forward (execute) and backward (undo).

use vstd::prelude::*;

pub mod actor;
pub mod document;
pub mod receiver;

verus! {

/// An operation that can be applied to a target and reversed.
///
/// Its effect is described by spec functions: from a command state and a
/// target state, `executed` gives the command state and the target state after
/// `execute`, and `undone` those after `undo`. A command may record what it
/// needs for `undo` in its own state (a snapshot) or derive the reverse from
/// its identity alone.
pub trait Command<Target>: Sized {
    /// The target states from which `execute` may run.
    spec fn can_execute(&self, target: Target) -> bool;

    /// The command and target after `execute`.
    spec fn executed(&self, target: Target) -> (Self, Target);

    /// The target states from which `undo` may run.
    spec fn can_undo(&self, target: Target) -> bool;

    /// The command and target after `undo`.
    spec fn undone(&self, target: Target) -> (Self, Target);

    fn execute(&mut self, target: &mut Target)
        requires
            old(self).can_execute(*old(target)),
        ensures
            (*final(self), *final(target)) == old(self).executed(*old(target)),
    ;

    fn undo(&mut self, target: &mut Target)
        requires
            old(self).can_undo(*old(target)),
        ensures
            (*final(self), *final(target)) == old(self).undone(*old(target)),
    ;
}

/// `execute` was called with the cursor at the end of the queue.
#[derive(Debug, PartialEq, Eq)]
pub struct QueueExhausted;

/// `undo` was called with the cursor at the start of the queue.
#[derive(Debug, PartialEq, Eq)]
pub struct NothingToUndo;

/// The abstract state of a queue: its commands, the cursor, and the target.
pub struct QueueState<Target, Cmd> {
    pub commands: Seq<Cmd>,
    pub cursor: nat,
    pub target: Target,
}

impl<Target, Cmd> QueueState<Target, Cmd> {
    /// The cursor never passes the end of the queue.
    pub open spec fn inv(self) -> bool {
        self.cursor <= self.commands.len()
    }

    /// `cmd` added at the tail; cursor and target unchanged.
    pub open spec fn appended(self, cmd: Cmd) -> Self {
        QueueState { commands: self.commands.push(cmd), ..self }
    }

    /// No commands, cursor at zero, target unchanged.
    pub open spec fn cleared(self) -> Self {
        QueueState { commands: Seq::empty(), cursor: 0, target: self.target }
    }

    /// How many commands are left to execute.
    pub open spec fn remaining(self) -> nat {
        (self.commands.len() - self.cursor) as nat
    }
}

impl<Target, Cmd: Command<Target>> QueueState<Target, Cmd> {
    /// The command under the cursor exists and may run on the target.
    pub open spec fn can_step(self) -> bool {
        &&& self.cursor < self.commands.len()
        &&& self.commands[self.cursor as int].can_execute(self.target)
    }

    /// The command under the cursor executed, cursor moved one forward.
    pub open spec fn step(self) -> Self {
        let (cmd, target) = self.commands[self.cursor as int].executed(self.target);
        QueueState {
            commands: self.commands.update(self.cursor as int, cmd),
            cursor: self.cursor + 1,
            target,
        }
    }

    /// The command before the cursor exists and may be undone on the target.
    pub open spec fn can_step_back(self) -> bool {
        &&& 0 < self.cursor <= self.commands.len()
        &&& self.commands[self.cursor - 1].can_undo(self.target)
    }

    /// Cursor moved one back, then the command under it undone.
    pub open spec fn step_back(self) -> Self {
        let i: int = self.cursor - 1;
        let (cmd, target) = self.commands[i].undone(self.target);
        QueueState { commands: self.commands.update(i, cmd), cursor: i as nat, target }
    }

    /// The state after `n` forward steps.
    pub open spec fn run(self, n: nat) -> Self
        decreases n,
    {
        if n == 0 {
            self
        } else {
            self.step().run((n - 1) as nat)
        }
    }

    /// Each of the next `n` forward steps may run.
    pub open spec fn can_run(self, n: nat) -> bool
        decreases n,
    {
        n == 0 || (self.can_step() && self.step().can_run((n - 1) as nat))
    }

    /// The state after `n` backward steps.
    pub open spec fn run_back(self, n: nat) -> Self
        decreases n,
    {
        if n == 0 {
            self
        } else {
            self.step_back().run_back((n - 1) as nat)
        }
    }

    /// Each of the next `n` backward steps may run.
    pub open spec fn can_run_back(self, n: nat) -> bool
        decreases n,
    {
        n == 0 || (self.can_step_back() && self.step_back().can_run_back((n - 1) as nat))
    }
}

/// `undo` right after `execute` restores the target, from every state in
/// which both may run.
pub open spec fn reverses<Target, Cmd: Command<Target>>(cmd: Cmd) -> bool {
    forall|t: Target| #[trigger]
        cmd.can_execute(t) ==> {
            let (c, u) = cmd.executed(t);
            c.can_undo(u) ==> c.undone(u).1 == t
        }
}

/// Running forward moves the cursor by the number of steps and keeps the
/// length of the queue.
pub proof fn lemma_run_moves_cursor<Target, Cmd: Command<Target>>(s: QueueState<Target, Cmd>, n: nat)
    requires
        s.can_run(n),
    ensures
        s.run(n).cursor == s.cursor + n,
        s.run(n).commands.len() == s.commands.len(),
    decreases n,
{
    if n > 0 {
        lemma_run_moves_cursor(s.step(), (n - 1) as nat);
    }
}

/// A backward run of `n + 1` steps is a run of `n` steps followed by one more.
proof fn lemma_run_back_last<Target, Cmd: Command<Target>>(s: QueueState<Target, Cmd>, n: nat)
    ensures
        s.run_back(n + 1) == s.run_back(n).step_back(),
        s.can_run_back(n + 1) == (s.can_run_back(n) && s.run_back(n).can_step_back()),
    decreases n,
{
    assert(s.run_back(n + 1) == s.step_back().run_back(n));
    if n > 0 {
        lemma_run_back_last(s.step_back(), (n - 1) as nat);
    } else {
        assert(s.step_back().run_back(0) == s.step_back());
        assert(s.step_back().can_run_back(0));
    }
}

/// Executing `n` commands whose `undo` reverses their `execute`, then undoing
/// `n` times, returns the target and the cursor to where they were; the
/// commands before the cursor are untouched. (Each of the steps must be able
/// to run, as the contracts of `execute` and `undo` ask.)
pub proof fn lemma_round_trip<Target, Cmd: Command<Target>>(s: QueueState<Target, Cmd>, n: nat)
    requires
        s.cursor + n <= s.commands.len(),
        s.can_run(n),
        forall|i: int| s.cursor <= i < s.cursor + n ==> reverses(#[trigger] s.commands[i]),
        s.run(n).can_run_back(n),
    ensures
        s.run(n).run_back(n).target == s.target,
        s.run(n).run_back(n).cursor == s.cursor,
        s.run(n).run_back(n).commands.len() == s.commands.len(),
        forall|i: int| 0 <= i < s.cursor ==> s.run(n).run_back(n).commands[i] == s.commands[i],
    decreases n,
{
    if n > 0 {
        let s1 = s.step();
        let m: nat = (n - 1) as nat;
        assert forall|i: int| s1.cursor <= i < s1.cursor + m implies reverses(#[trigger] s1.commands[i]) by {
            assert(s1.commands[i] == s.commands[i]);
        }
        let r = s.run(n);
        assert(r == s1.run(m));
        lemma_run_back_last(r, m);
        lemma_round_trip(s1, m);
        let b = r.run_back(m);
        let cmd = s.commands[s.cursor as int];
        assert(reverses(cmd));
        assert(cmd.can_execute(s.target));
        assert(b.commands[s.cursor as int] == s1.commands[s.cursor as int]);
        assert forall|i: int| 0 <= i < s.cursor implies b.step_back().commands[i] == s.commands[i] by {
            assert(b.commands[i] == s1.commands[i]);
        }
    }
}

/// Draining a queue leaves its cursor at the end, so draining it again
/// changes nothing.
pub proof fn lemma_drain_twice<Target, Cmd: Command<Target>>(s: QueueState<Target, Cmd>)
    requires
        s.inv(),
        s.can_run(s.remaining()),
    ensures
        s.run(s.remaining()).remaining() == 0,
        s.run(s.remaining()).run(s.run(s.remaining()).remaining()) == s.run(s.remaining()),
{
    lemma_run_moves_cursor(s, s.remaining());
}

/// An ordered queue of commands with exclusive access to one target.
pub struct CommandManager<'a, Target, Cmd> {
    queue_stack: Vec<Cmd>,
    target: &'a mut Target,
    index: usize,
}

impl<'a, Target, Cmd> View for CommandManager<'a, Target, Cmd> {
    type V = QueueState<Target, Cmd>;

    closed spec fn view(&self) -> QueueState<Target, Cmd> {
        QueueState { commands: self.queue_stack@, cursor: self.index as nat, target: *self.target }
    }
}

impl<'a, Target, Cmd> CommandManager<'a, Target, Cmd> {
    /// An empty queue bound to `target`, cursor at zero.
    pub fn new(target: &'a mut Target) -> (r: Self)
        ensures
            r@ == (QueueState { commands: Seq::<Cmd>::empty(), cursor: 0, target: *old(target) }),
    {
        CommandManager { queue_stack: Vec::new(), target, index: 0 }
    }

    /// The target's current state.
    pub fn target(&self) -> (r: &Target)
        ensures
            *r == self@.target,
    {
        &*self.target
    }

    /// Adds `command` at the tail. The cursor does not move, so after an
    /// `undo` the new command comes after those not yet executed again.
    pub fn append(&mut self, command: Cmd)
        requires
            old(self)@.inv(),
        ensures
            final(self)@ == old(self)@.appended(command),
            final(self)@.inv(),
    {
        self.queue_stack.push(command);
    }

    /// Removes every command and resets the cursor. What was executed stays
    /// in effect on the target.
    pub fn clear(&mut self)
        ensures
            final(self)@ == old(self)@.cleared(),
            final(self)@.inv(),
    {
        self.queue_stack.clear();
        self.index = 0;
    }
}

impl<'a, Target, Cmd: Command<Target>> CommandManager<'a, Target, Cmd> {
    /// Executes the command under the cursor and moves the cursor forward;
    /// fails, changing nothing, when the cursor is at the end.
    pub fn execute(&mut self) -> (r: Result<(), QueueExhausted>)
        requires
            old(self)@.inv(),
            old(self)@.cursor < old(self)@.commands.len() ==> old(self)@.can_step(),
        ensures
            final(self)@.inv(),
            r is Err <==> old(self)@.cursor == old(self)@.commands.len(),
            r is Err ==> final(self)@ == old(self)@,
            r is Ok ==> final(self)@ == old(self)@.step(),
    {
        if self.queue_stack.len() <= self.index {
            Err(QueueExhausted)
        } else {
            let i: usize = self.index;
            self.queue_stack[i].execute(self.target);
            self.index = i + 1;
            Ok(())
        }
    }

    /// Executes every command from the cursor to the end.
    pub fn execute_all(&mut self)
        requires
            old(self)@.inv(),
            old(self)@.can_run(old(self)@.remaining()),
        ensures
            final(self)@ == old(self)@.run(old(self)@.remaining()),
            final(self)@.cursor == final(self)@.commands.len(),
            final(self)@.inv(),
    {
        loop
            invariant
                self@.inv(),
                self@.can_run(self@.remaining()),
                self@.run(self@.remaining()) == old(self)@.run(old(self)@.remaining()),
            ensures
                self@.remaining() == 0,
            decreases self@.remaining(),
        {
            if let Err(_) = self.execute() {
                break;
            }
        }
    }

    /// Moves the cursor back and undoes the command under it; fails,
    /// changing nothing, when the cursor is at the start.
    pub fn undo(&mut self) -> (r: Result<(), NothingToUndo>)
        requires
            old(self)@.inv(),
            old(self)@.cursor > 0 ==> old(self)@.can_step_back(),
        ensures
            final(self)@.inv(),
            r is Err <==> old(self)@.cursor == 0,
            r is Err ==> final(self)@ == old(self)@,
            r is Ok ==> final(self)@ == old(self)@.step_back(),
    {
        if 0 == self.index {
            Err(NothingToUndo)
        } else {
            self.index = self.index - 1;
            let i: usize = self.index;
            self.queue_stack[i].undo(self.target);
            Ok(())
        }
    }
}

} // verus!
