//! A queue over a fixed set of robot moves, whose reverses are composed
//! from the moves themselves.

use vstd::prelude::*;

pub use crate::command::Command;
use crate::command::{reverses, CommandManager, NothingToUndo, QueueExhausted, QueueState};

verus! {

/// A queue of commands of one type bound to a receiver.
pub struct Controller<'a, Cmd, Receiver> {
    manager: CommandManager<'a, Receiver, Cmd>,
}

impl<'a, Cmd, Receiver> View for Controller<'a, Cmd, Receiver> {
    type V = QueueState<Receiver, Cmd>;

    closed spec fn view(&self) -> QueueState<Receiver, Cmd> {
        self.manager@
    }
}

impl<'a, Cmd, Receiver> Controller<'a, Cmd, Receiver> {
    /// An empty queue bound to `receiver`, cursor at zero.
    pub fn new(receiver: &'a mut Receiver) -> (r: Self)
        ensures
            r@ == (QueueState { commands: Seq::<Cmd>::empty(), cursor: 0, target: *old(receiver) }),
    {
        Controller { manager: CommandManager::new(receiver) }
    }

    /// The receiver's current state.
    pub fn receiver(&self) -> (r: &Receiver)
        ensures
            *r == self@.target,
    {
        self.manager.target()
    }

    /// Adds `command` at the tail; the cursor does not move.
    pub fn append(&mut self, command: Cmd)
        requires
            old(self)@.inv(),
        ensures
            final(self)@ == old(self)@.appended(command),
            final(self)@.inv(),
    {
        self.manager.append(command);
    }

    /// Removes every command and resets the cursor; the receiver keeps its state.
    pub fn clear(&mut self)
        ensures
            final(self)@ == old(self)@.cleared(),
            final(self)@.inv(),
    {
        self.manager.clear();
    }
}

impl<'a, Cmd, Receiver> Controller<'a, Cmd, Receiver> where Cmd: Command<Receiver> {
    /// Executes the command under the cursor and moves the cursor forward.
    pub fn execute(&mut self) -> (r: Result<(), QueueExhausted>)
        requires
            old(self)@.inv(),
            old(self)@.cursor < old(self)@.commands.len() ==> old(self)@.can_step(),
        ensures
            final(self)@.inv(),
            r is Err <==> old(self)@.cursor == old(self)@.commands.len(),
            r is Err ==> final(self)@ == old(self)@,
            r is Ok ==> final(self)@ == old(self)@.step(),
    {
        self.manager.execute()
    }

    /// Executes every command from the cursor to the end.
    pub fn execute_all(&mut self)
        requires
            old(self)@.inv(),
            old(self)@.can_run(old(self)@.remaining()),
        ensures
            final(self)@ == old(self)@.run(old(self)@.remaining()),
            final(self)@.cursor == final(self)@.commands.len(),
            final(self)@.inv(),
    {
        self.manager.execute_all();
    }

    /// Moves the cursor back and undoes the command under it.
    pub fn undo(&mut self) -> (r: Result<(), NothingToUndo>)
        requires
            old(self)@.inv(),
            old(self)@.cursor > 0 ==> old(self)@.can_step_back(),
        ensures
            final(self)@.inv(),
            r is Err <==> old(self)@.cursor == 0,
            r is Err ==> final(self)@ == old(self)@,
            r is Ok ==> final(self)@ == old(self)@.step_back(),
    {
        self.manager.undo()
    }
}

/// A robot on the integer grid, with a position and a velocity.
#[derive(Debug, PartialEq, Eq)]
pub struct Robot {
    pub x: i64,
    pub y: i64,
    pub dx: i64,
    pub dy: i64,
}

impl Robot {
    /// Position advanced by the velocity.
    pub open spec fn moved(self) -> Robot {
        Robot { x: (self.x + self.dx) as i64, y: (self.y + self.dy) as i64, ..self }
    }

    /// Velocity rotated a quarter turn clockwise: (dx, dy) becomes (dy, -dx).
    pub open spec fn turned_right(self) -> Robot {
        Robot { dx: self.dy, dy: (-self.dx) as i64, ..self }
    }

    /// Velocity rotated a quarter turn anticlockwise: (dx, dy) becomes (-dy, dx).
    pub open spec fn turned_left(self) -> Robot {
        Robot { dx: (-self.dy) as i64, dy: self.dx, ..self }
    }

    /// The move stays within the range of `i64`.
    pub open spec fn can_move(self) -> bool {
        &&& i64::MIN <= self.x + self.dx <= i64::MAX
        &&& i64::MIN <= self.y + self.dy <= i64::MAX
    }

    /// The right turn stays within the range of `i64`.
    pub open spec fn can_turn_right(self) -> bool {
        self.dx != i64::MIN
    }

    /// The left turn stays within the range of `i64`.
    pub open spec fn can_turn_left(self) -> bool {
        self.dy != i64::MIN
    }

    /// At the origin, facing up.
    pub fn new() -> (r: Self)
        ensures
            r == (Robot { x: 0, y: 0, dx: 0, dy: 1 }),
    {
        Robot { x: 0, y: 0, dx: 0, dy: 1 }
    }

    pub fn go_forward(&mut self)
        requires
            old(self).can_move(),
        ensures
            *final(self) == old(self).moved(),
    {
        self.x += self.dx;
        self.y += self.dy;
    }

    pub fn turn_right(&mut self)
        requires
            old(self).can_turn_right(),
        ensures
            *final(self) == old(self).turned_right(),
    {
        let (dx, dy) = (self.dx, self.dy);
        self.dx = dy;
        self.dy = -dx;
    }

    pub fn turn_left(&mut self)
        requires
            old(self).can_turn_left(),
        ensures
            *final(self) == old(self).turned_left(),
    {
        let (dx, dy) = (self.dx, self.dy);
        self.dx = -dy;
        self.dy = dx;
    }
}

/// The moves of a robot.
pub enum ControllerCommand {
    GoForward,
    TurnRight,
    TurnLeft,
}

impl Command<Robot> for ControllerCommand {
    open spec fn can_execute(&self, target: Robot) -> bool {
        match self {
            ControllerCommand::GoForward => target.can_move(),
            ControllerCommand::TurnRight => target.can_turn_right(),
            ControllerCommand::TurnLeft => target.can_turn_left(),
        }
    }

    open spec fn executed(&self, target: Robot) -> (ControllerCommand, Robot) {
        (*self, match self {
            ControllerCommand::GoForward => target.moved(),
            ControllerCommand::TurnRight => target.turned_right(),
            ControllerCommand::TurnLeft => target.turned_left(),
        })
    }

    /// Backing up is turning round, moving, and turning round again.
    open spec fn can_undo(&self, target: Robot) -> bool {
        match self {
            ControllerCommand::GoForward => {
                &&& target.can_turn_right()
                &&& target.turned_right().can_turn_right()
                &&& target.turned_right().turned_right().can_move()
                &&& target.turned_right().turned_right().moved().can_turn_right()
                &&& target.turned_right().turned_right().moved().turned_right().can_turn_right()
            },
            ControllerCommand::TurnRight => target.can_turn_left(),
            ControllerCommand::TurnLeft => target.can_turn_right(),
        }
    }

    open spec fn undone(&self, target: Robot) -> (ControllerCommand, Robot) {
        (*self, match self {
            ControllerCommand::GoForward => target.turned_right().turned_right().moved().turned_right().turned_right(),
            ControllerCommand::TurnRight => target.turned_left(),
            ControllerCommand::TurnLeft => target.turned_right(),
        })
    }

    fn execute(&mut self, receiver: &mut Robot) {
        match self {
            ControllerCommand::GoForward => receiver.go_forward(),
            ControllerCommand::TurnRight => receiver.turn_right(),
            ControllerCommand::TurnLeft => receiver.turn_left(),
        }
    }

    fn undo(&mut self, receiver: &mut Robot) {
        match self {
            ControllerCommand::GoForward => {
                receiver.turn_right();
                receiver.turn_right();
                receiver.go_forward();
                receiver.turn_right();
                receiver.turn_right();
            },
            ControllerCommand::TurnRight => receiver.turn_left(),
            ControllerCommand::TurnLeft => receiver.turn_right(),
        }
    }
}

/// Each robot move is undone by its composed reverse.
pub proof fn lemma_controller_commands_reverse(cmd: ControllerCommand)
    ensures
        reverses::<Robot, ControllerCommand>(cmd),
{
}

} // verus!
