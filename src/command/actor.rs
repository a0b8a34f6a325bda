//! A named actor on the integer grid, with commands of both kinds: moves
//! whose reverse is composed from other moves, and a teleport and a rename
//! that record the state they replace.

use vstd::prelude::*;

use crate::command::{reverses, Command};

verus! {

/// A named actor with a position and a velocity.
#[derive(Debug, PartialEq, Eq)]
pub struct Actor {
    pub name: &'static str,
    pub x: i64,
    pub y: i64,
    pub dx: i64,
    pub dy: i64,
}

impl Actor {
    /// Position advanced by the velocity.
    pub open spec fn moved(self) -> Actor {
        Actor { x: (self.x + self.dx) as i64, y: (self.y + self.dy) as i64, ..self }
    }

    /// Velocity rotated a quarter turn clockwise: (dx, dy) becomes (dy, -dx).
    pub open spec fn turned_right(self) -> Actor {
        Actor { dx: self.dy, dy: (-self.dx) as i64, ..self }
    }

    /// Velocity rotated a quarter turn anticlockwise: (dx, dy) becomes (-dy, dx).
    pub open spec fn turned_left(self) -> Actor {
        Actor { dx: (-self.dy) as i64, dy: self.dx, ..self }
    }

    /// The move stays within the range of `i64`.
    pub open spec fn can_move(self) -> bool {
        &&& i64::MIN <= self.x + self.dx <= i64::MAX
        &&& i64::MIN <= self.y + self.dy <= i64::MAX
    }

    /// Unnamed, at the origin, facing right.
    pub fn new() -> (r: Self)
        ensures
            r == (Actor { name: "", x: 0, y: 0, dx: 1, dy: 0 }),
    {
        Actor { name: "", x: 0, y: 0, dx: 1, dy: 0 }
    }

    pub fn go_forward(&mut self)
        requires
            old(self).can_move(),
        ensures
            *final(self) == old(self).moved(),
    {
        self.x += self.dx;
        self.y += self.dy;
    }

    pub fn set_velocity(&mut self, v: (i64, i64))
        ensures
            *final(self) == (Actor { dx: v.0, dy: v.1, ..*old(self) }),
    {
        self.dx = v.0;
        self.dy = v.1;
    }

    pub fn get_velocity(&self) -> (r: (i64, i64))
        ensures
            r == (self.dx, self.dy),
    {
        (self.dx, self.dy)
    }
}

/// The commands on an actor. `Teleport` and `Rename` record, when executed,
/// the position or the name that they replace, and `undo` puts it back.
pub enum ActorCommand {
    GoForward,
    TurnRight,
    TurnLeft,
    Teleport { position: (i64, i64), prev_position: Option<(i64, i64)> },
    Rename { name: &'static str, prev_name: Option<&'static str> },
}

impl ActorCommand {
    /// A teleport to `position` that has not run yet.
    pub fn teleport(position: (i64, i64)) -> (r: Self)
        ensures
            r == (ActorCommand::Teleport { position, prev_position: None }),
    {
        ActorCommand::Teleport { position, prev_position: None }
    }

    /// A rename to `name` that has not run yet.
    pub fn rename(name: &'static str) -> (r: Self)
        ensures
            r == (ActorCommand::Rename { name, prev_name: None }),
    {
        ActorCommand::Rename { name, prev_name: None }
    }

    fn turn_right(target: &mut Actor)
        requires
            old(target).dx != i64::MIN,
        ensures
            *final(target) == old(target).turned_right(),
    {
        let (dx, dy) = target.get_velocity();
        target.set_velocity((dy, -dx));
    }

    fn turn_left(target: &mut Actor)
        requires
            old(target).dy != i64::MIN,
        ensures
            *final(target) == old(target).turned_left(),
    {
        let (dx, dy) = target.get_velocity();
        target.set_velocity((-dy, dx));
    }
}

impl Command<Actor> for ActorCommand {
    open spec fn can_execute(&self, target: Actor) -> bool {
        match self {
            ActorCommand::GoForward => target.can_move(),
            ActorCommand::TurnRight => target.dx != i64::MIN,
            ActorCommand::TurnLeft => target.dy != i64::MIN,
            _ => true,
        }
    }

    open spec fn executed(&self, target: Actor) -> (ActorCommand, Actor) {
        match self {
            ActorCommand::GoForward => (*self, target.moved()),
            ActorCommand::TurnRight => (*self, target.turned_right()),
            ActorCommand::TurnLeft => (*self, target.turned_left()),
            ActorCommand::Teleport { position, prev_position: _ } => (
                ActorCommand::Teleport { position: *position, prev_position: Some((target.x, target.y)) },
                Actor { x: position.0, y: position.1, ..target },
            ),
            ActorCommand::Rename { name, prev_name: _ } => (
                ActorCommand::Rename { name: *name, prev_name: Some(target.name) },
                Actor { name: *name, ..target },
            ),
        }
    }

    /// A teleport or a rename can be undone only once it has recorded what
    /// it replaced.
    open spec fn can_undo(&self, target: Actor) -> bool {
        match self {
            ActorCommand::GoForward => {
                &&& target.dx != i64::MIN
                &&& target.dy != i64::MIN
                &&& target.turned_right().turned_right().can_move()
            },
            ActorCommand::TurnRight => target.dy != i64::MIN,
            ActorCommand::TurnLeft => target.dx != i64::MIN,
            ActorCommand::Teleport { position: _, prev_position } => prev_position is Some,
            ActorCommand::Rename { name: _, prev_name } => prev_name is Some,
        }
    }

    open spec fn undone(&self, target: Actor) -> (ActorCommand, Actor) {
        (*self, match self {
            ActorCommand::GoForward => target.turned_right().turned_right().moved().turned_right().turned_right(),
            ActorCommand::TurnRight => target.turned_left(),
            ActorCommand::TurnLeft => target.turned_right(),
            ActorCommand::Teleport { position: _, prev_position: Some(p) } => Actor { x: p.0, y: p.1, ..target },
            ActorCommand::Rename { name: _, prev_name: Some(n) } => Actor { name: *n, ..target },
            _ => target,
        })
    }

    fn execute(&mut self, target: &mut Actor) {
        match self {
            ActorCommand::GoForward => target.go_forward(),
            ActorCommand::TurnRight => ActorCommand::turn_right(target),
            ActorCommand::TurnLeft => ActorCommand::turn_left(target),
            ActorCommand::Teleport { position, prev_position } => {
                *prev_position = Some((target.x, target.y));
                target.x = position.0;
                target.y = position.1;
            },
            ActorCommand::Rename { name, prev_name } => {
                *prev_name = Some(target.name);
                target.name = *name;
            },
        }
    }

    fn undo(&mut self, target: &mut Actor) {
        match self {
            ActorCommand::GoForward => {
                ActorCommand::turn_right(target);
                ActorCommand::turn_right(target);
                target.go_forward();
                ActorCommand::turn_right(target);
                ActorCommand::turn_right(target);
            },
            ActorCommand::TurnRight => ActorCommand::turn_left(target),
            ActorCommand::TurnLeft => ActorCommand::turn_right(target),
            ActorCommand::Teleport { position: _, prev_position } => {
                if let Some(p) = prev_position {
                    let mut back = ActorCommand::teleport(*p);
                    back.execute(target);
                }
            },
            ActorCommand::Rename { name: _, prev_name } => {
                if let Some(n) = prev_name {
                    let mut back = ActorCommand::rename(*n);
                    back.execute(target);
                }
            },
        }
    }
}

/// Each actor command is undone by its reverse.
pub proof fn lemma_actor_commands_reverse(cmd: ActorCommand)
    ensures
        reverses::<Actor, ActorCommand>(cmd),
{
}

} // verus!
