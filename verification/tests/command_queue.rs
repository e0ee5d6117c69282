use anthem::commands::command::Command;
use anthem::commands::project_commands::AddInstrumentCommand;
use anthem::model::command_queue::CommandQueue;

fn instrument(id: u64) -> Command {
    Command::AddInstrument(AddInstrumentCommand { id, name: format!("instrument {}", id) })
}

fn id_of(command: &Command) -> u64 {
    match command {
        Command::AddInstrument(c) => c.id,
        _ => panic!("not an instrument command"),
    }
}

fn ids_in(queue: &CommandQueue) -> Vec<u64> {
    queue.commands.iter().map(id_of).collect()
}

#[test]
fn new_queue_is_empty() {
    let queue = CommandQueue::default();
    assert!(queue.commands.is_empty());
    assert_eq!(queue.command_pointer, 0);
}

#[test]
fn undo_on_empty_queue_returns_nothing() {
    let mut queue = CommandQueue::default();
    assert!(queue.get_undo_and_bump_pointer().is_none());
    assert_eq!(queue.command_pointer, 0);
    assert!(queue.commands.is_empty());
}

#[test]
fn redo_on_empty_queue_returns_nothing() {
    let mut queue = CommandQueue::default();
    assert!(queue.get_redo_and_bump_pointer().is_none());
    assert_eq!(queue.command_pointer, 0);
}

#[test]
fn push_appends_and_advances_pointer() {
    let mut queue = CommandQueue::default();
    queue.push_command(instrument(1));
    assert_eq!(queue.command_pointer, 1);
    queue.push_command(instrument(2));
    assert_eq!(queue.command_pointer, 2);
    assert_eq!(ids_in(&queue), vec![1, 2]);
}

#[test]
fn undo_returns_last_applied_and_moves_pointer_back() {
    let mut queue = CommandQueue::default();
    queue.push_command(instrument(1));
    queue.push_command(instrument(2));
    assert_eq!(queue.get_undo_and_bump_pointer().map(id_of), Some(2));
    assert_eq!(queue.command_pointer, 1);
    assert_eq!(queue.get_undo_and_bump_pointer().map(id_of), Some(1));
    assert_eq!(queue.command_pointer, 0);
    assert!(queue.get_undo_and_bump_pointer().is_none());
    assert_eq!(queue.command_pointer, 0);
    assert_eq!(ids_in(&queue), vec![1, 2]);
}

#[test]
fn redo_returns_command_at_pointer_and_moves_pointer_on() {
    let mut queue = CommandQueue::default();
    queue.push_command(instrument(1));
    queue.push_command(instrument(2));
    queue.get_undo_and_bump_pointer();
    queue.get_undo_and_bump_pointer();
    assert_eq!(queue.get_redo_and_bump_pointer().map(id_of), Some(1));
    assert_eq!(queue.command_pointer, 1);
    assert_eq!(queue.get_redo_and_bump_pointer().map(id_of), Some(2));
    assert_eq!(queue.command_pointer, 2);
    assert!(queue.get_redo_and_bump_pointer().is_none());
    assert_eq!(queue.command_pointer, 2);
}

#[test]
fn push_after_undo_discards_redo_tail() {
    let mut queue = CommandQueue::default();
    queue.push_command(instrument(1));
    queue.push_command(instrument(2));
    assert_eq!(queue.get_undo_and_bump_pointer().map(id_of), Some(2));
    queue.push_command(instrument(3));
    assert!(queue.get_redo_and_bump_pointer().is_none());
    assert_eq!(ids_in(&queue), vec![1, 3]);
    assert_eq!(queue.command_pointer, 2);
}

#[test]
fn push_after_undoing_everything_leaves_only_the_new_command() {
    let mut queue = CommandQueue::default();
    queue.push_command(instrument(1));
    queue.push_command(instrument(2));
    queue.get_undo_and_bump_pointer();
    queue.get_undo_and_bump_pointer();
    queue.push_command(instrument(9));
    assert_eq!(ids_in(&queue), vec![9]);
    assert_eq!(queue.command_pointer, 1);
}
