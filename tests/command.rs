use design_patterns::command::actor::{Actor, ActorCommand};
use design_patterns::command::document::{Document, DocumentCommand};
use design_patterns::command::receiver::{Controller, ControllerCommand, Robot};
use design_patterns::command::{CommandManager, NothingToUndo, QueueExhausted};

#[test]
fn mod_main() {
    let mut actor = Actor::new();
    let mut invoker = CommandManager::new(&mut actor);
    {
        invoker.append(ActorCommand::rename("Tom"));
        invoker.append(ActorCommand::GoForward);
        invoker.append(ActorCommand::teleport((10, 10)));
        invoker.append(ActorCommand::TurnRight);
        invoker.append(ActorCommand::GoForward);
    }
    invoker.execute().unwrap();
    assert_eq!(
        *invoker.target(),
        Actor {
            name: "Tom",
            x: 0,
            y: 0,
            dx: 1,
            dy: 0
        }
    );
    invoker.execute_all();
    assert_eq!(
        *invoker.target(),
        Actor {
            name: "Tom",
            x: 10,
            y: 9,
            dx: 0,
            dy: -1
        }
    );
    invoker.undo().unwrap();
    assert_eq!(
        *invoker.target(),
        Actor {
            name: "Tom",
            x: 10,
            y: 10,
            dx: 0,
            dy: -1
        }
    );
}

#[test]
fn test() {
    let mut my_robot = Robot::new();
    let mut my_controller = Controller::new(&mut my_robot);
    assert_eq!(
        Robot {
            x: 0,
            y: 0,
            dx: 0,
            dy: 1
        },
        *my_controller.receiver()
    );
    {
        my_controller.append(ControllerCommand::TurnRight);
        my_controller.append(ControllerCommand::GoForward);
        my_controller.append(ControllerCommand::TurnLeft);
        my_controller.append(ControllerCommand::GoForward);
        my_controller.append(ControllerCommand::GoForward);
    }
    my_controller.execute_all();
    assert_eq!(
        Robot {
            x: 1,
            y: 2,
            dx: 0,
            dy: 1
        },
        *my_controller.receiver()
    );
    my_controller.undo().unwrap();
    my_controller.undo().unwrap();
    assert_eq!(
        Robot {
            x: 1,
            y: 0,
            dx: 0,
            dy: 1
        },
        *my_controller.receiver()
    )
}

#[test]
fn rotation_reverse_scenario() {
    let mut actor = Actor::new();
    let mut queue = CommandManager::new(&mut actor);
    queue.append(ActorCommand::GoForward);
    queue.append(ActorCommand::TurnRight);
    queue.append(ActorCommand::GoForward);
    queue.execute().unwrap();
    assert_eq!(*queue.target(), Actor { name: "", x: 1, y: 0, dx: 1, dy: 0 });
    queue.execute_all();
    assert_eq!(*queue.target(), Actor { name: "", x: 1, y: -1, dx: 0, dy: -1 });
    queue.undo().unwrap();
    assert_eq!(*queue.target(), Actor { name: "", x: 1, y: 0, dx: 0, dy: -1 });
}

#[test]
fn snapshot_reverse_scenario() {
    let mut doc = Document::new();
    let mut queue = CommandManager::new(&mut doc);
    queue.append(DocumentCommand::rename("Tom"));
    queue.append(DocumentCommand::set_value(5));
    queue.execute_all();
    assert_eq!(*queue.target(), Document { name: "Tom", value: 5 });
    queue.undo().unwrap();
    assert_eq!(*queue.target(), Document { name: "Tom", value: 0 });
    queue.undo().unwrap();
    assert_eq!(*queue.target(), Document { name: "", value: 0 });
}

#[test]
fn execute_on_exhausted_queue_changes_nothing() {
    let mut doc = Document::new();
    let mut queue = CommandManager::new(&mut doc);
    assert_eq!(queue.execute(), Err(QueueExhausted));
    assert_eq!(*queue.target(), Document { name: "", value: 0 });
    queue.append(DocumentCommand::set_value(3));
    assert_eq!(queue.execute(), Ok(()));
    assert_eq!(queue.execute(), Err(QueueExhausted));
    assert_eq!(*queue.target(), Document { name: "", value: 3 });
}

#[test]
fn undo_at_start_changes_nothing() {
    let mut doc = Document::new();
    let mut queue = CommandManager::new(&mut doc);
    queue.append(DocumentCommand::set_value(3));
    assert_eq!(queue.undo(), Err(NothingToUndo));
    assert_eq!(*queue.target(), Document { name: "", value: 0 });
    queue.execute().unwrap();
    queue.undo().unwrap();
    assert_eq!(queue.undo(), Err(NothingToUndo));
    assert_eq!(*queue.target(), Document { name: "", value: 0 });
}

#[test]
fn draining_twice_changes_nothing() {
    let mut robot = Robot::new();
    let mut controller = Controller::new(&mut robot);
    controller.append(ControllerCommand::GoForward);
    controller.append(ControllerCommand::TurnLeft);
    controller.append(ControllerCommand::GoForward);
    controller.execute_all();
    assert_eq!(*controller.receiver(), Robot { x: -1, y: 1, dx: -1, dy: 0 });
    controller.execute_all();
    assert_eq!(*controller.receiver(), Robot { x: -1, y: 1, dx: -1, dy: 0 });
    assert_eq!(controller.execute(), Err(QueueExhausted));
}

#[test]
fn execute_then_undo_all_restores_target() {
    let mut actor = Actor::new();
    let mut queue = CommandManager::new(&mut actor);
    queue.append(ActorCommand::rename("Ann"));
    queue.append(ActorCommand::GoForward);
    queue.append(ActorCommand::TurnLeft);
    queue.append(ActorCommand::teleport((-4, 7)));
    queue.append(ActorCommand::GoForward);
    queue.append(ActorCommand::TurnRight);
    for _ in 0..6 {
        queue.execute().unwrap();
    }
    assert_eq!(*queue.target(), Actor { name: "Ann", x: -4, y: 8, dx: 1, dy: 0 });
    for _ in 0..6 {
        queue.undo().unwrap();
    }
    assert_eq!(*queue.target(), Actor { name: "", x: 0, y: 0, dx: 1, dy: 0 });
    assert_eq!(queue.undo(), Err(NothingToUndo));
}

#[test]
fn clear_keeps_target_and_resets_cursor() {
    let mut robot = Robot::new();
    let mut controller = Controller::new(&mut robot);
    controller.append(ControllerCommand::GoForward);
    controller.append(ControllerCommand::TurnRight);
    controller.execute_all();
    controller.clear();
    assert_eq!(*controller.receiver(), Robot { x: 0, y: 1, dx: 1, dy: 0 });
    assert_eq!(controller.undo(), Err(NothingToUndo));
    assert_eq!(controller.execute(), Err(QueueExhausted));
    controller.append(ControllerCommand::GoForward);
    controller.execute().unwrap();
    assert_eq!(*controller.receiver(), Robot { x: 1, y: 1, dx: 1, dy: 0 });
}

#[test]
fn append_after_undo_extends_the_tail() {
    let mut doc = Document::new();
    let mut queue = CommandManager::new(&mut doc);
    queue.append(DocumentCommand::set_value(1));
    queue.append(DocumentCommand::set_value(2));
    queue.execute_all();
    queue.undo().unwrap();
    queue.append(DocumentCommand::set_value(3));
    queue.execute().unwrap();
    assert_eq!(*queue.target(), Document { name: "", value: 2 });
    queue.execute().unwrap();
    assert_eq!(*queue.target(), Document { name: "", value: 3 });
}

#[test]
fn robot_moves_and_turns() {
    let mut robot = Robot::new();
    robot.turn_right();
    assert_eq!(robot, Robot { x: 0, y: 0, dx: 1, dy: 0 });
    robot.go_forward();
    robot.turn_left();
    robot.turn_left();
    assert_eq!(robot, Robot { x: 1, y: 0, dx: -1, dy: 0 });
}
