//! The undo history of one project: the executed commands and a pointer
//! that stands one past the last command that is applied.

use crate::commands::command::command_views;
use crate::commands::command::Command;
use crate::commands::command::CommandView;
use vstd::prelude::*;

verus! {

#[derive(Debug, PartialEq, Eq)]
pub struct CommandQueue {
    pub commands: Vec<Command>,
    /// The index of the next command to redo, or the length of `commands`
    /// where there is nothing to redo.
    pub command_pointer: usize,
}

/// What a command queue is to the contracts.
pub ghost struct CommandQueueView {
    pub commands: Seq<CommandView>,
    pub pointer: int,
}

impl View for CommandQueue {
    type V = CommandQueueView;

    open spec fn view(&self) -> CommandQueueView {
        CommandQueueView {
            commands: command_views(self.commands@),
            pointer: self.command_pointer as int,
        }
    }
}

impl CommandQueueView {
    /// The queue that holds no command.
    pub open spec fn empty() -> CommandQueueView {
        CommandQueueView { commands: Seq::empty(), pointer: 0 }
    }

    /// The pointer stands in the queue or right behind it.
    pub open spec fn wf(self) -> bool {
        0 <= self.pointer <= self.commands.len()
    }

    /// The queue after a new command was pushed: the commands at and after
    /// the pointer are gone, the new one stands last, and the pointer stands
    /// behind it.
    pub open spec fn pushed(self, command: CommandView) -> CommandQueueView {
        CommandQueueView {
            commands: self.commands.subrange(0, self.pointer).push(command),
            pointer: self.pointer + 1,
        }
    }

    /// The command that an undo rolls back, if there is one.
    pub open spec fn undo_target(self) -> Option<CommandView> {
        if self.pointer == 0 {
            None
        } else {
            Some(self.commands[self.pointer - 1])
        }
    }

    /// The queue after an undo: the pointer one back, unless it stood at the
    /// start.
    pub open spec fn undone(self) -> CommandQueueView {
        if self.pointer == 0 {
            self
        } else {
            CommandQueueView { pointer: self.pointer - 1, ..self }
        }
    }

    /// The command that a redo executes again, if there is one.
    pub open spec fn redo_target(self) -> Option<CommandView> {
        if self.pointer == self.commands.len() {
            None
        } else {
            Some(self.commands[self.pointer])
        }
    }

    /// The queue after a redo: the pointer one on, unless it stood at the end.
    pub open spec fn redone(self) -> CommandQueueView {
        if self.pointer == self.commands.len() {
            self
        } else {
            CommandQueueView { pointer: self.pointer + 1, ..self }
        }
    }
}

impl Default for CommandQueue {
    fn default() -> (r: Self)
        ensures
            r@ == CommandQueueView::empty(),
            r@.wf(),
    {
        let r = CommandQueue { commands: Vec::new(), command_pointer: 0 };
        assert(r@.commands =~= Seq::<CommandView>::empty());
        r
    }
}

impl CommandQueue {
    /// Records a command that was just executed: drops what could have been
    /// redone, appends the command, and moves the pointer behind it.
    pub fn push_command(&mut self, command: Command)
        requires
            old(self)@.wf(),
        ensures
            final(self)@ == old(self)@.pushed(command@),
            final(self)@.wf(),
    {
        self.commands.truncate(self.command_pointer);
        self.commands.push(command);
        self.command_pointer = self.commands.len();
        assert(self@.commands =~= old(self)@.pushed(command@).commands) by {
            let kept = old(self)@.commands.subrange(0, old(self)@.pointer);
            assert(self.commands@.len() == kept.len() + 1);
            assert forall|i: int| 0 <= i < self.commands@.len() implies self@.commands[i]
                == kept.push(command@)[i] by {
                if i < kept.len() {
                    assert(self.commands@[i] == old(self).commands@[i]);
                }
            }
        }
    }

    /// The command to roll back for an undo, the pointer moved back to it; or
    /// nothing, the queue unchanged, where the pointer stands at the start.
    pub fn get_undo_and_bump_pointer(&mut self) -> (r: Option<&Command>)
        requires
            old(self)@.wf(),
        ensures
            final(self)@ == old(self)@.undone(),
            final(self)@.wf(),
            match r {
                Some(command) => old(self)@.undo_target() == Some(command@),
                None => old(self)@.undo_target().is_none(),
            },
    {
        if self.command_pointer == 0 {
            None
        } else {
            self.command_pointer = self.command_pointer - 1;
            Some(&self.commands[self.command_pointer])
        }
    }

    /// The command to execute again for a redo, the pointer moved behind it;
    /// or nothing, the queue unchanged, where the pointer stands at the end.
    pub fn get_redo_and_bump_pointer(&mut self) -> (r: Option<&Command>)
        requires
            old(self)@.wf(),
        ensures
            final(self)@ == old(self)@.redone(),
            final(self)@.wf(),
            match r {
                Some(command) => old(self)@.redo_target() == Some(command@),
                None => old(self)@.redo_target().is_none(),
            },
    {
        if self.command_pointer == self.commands.len() {
            None
        } else {
            self.command_pointer = self.command_pointer + 1;
            Some(&self.commands[self.command_pointer - 1])
        }
    }
}

/// A new edit discards the redo tail: after two pushes, an undo and a third
/// push, the second command has left the queue, the third stands in its
/// place, and there is nothing to redo.
pub proof fn lemma_push_discards_redo_tail(
    queue: CommandQueueView,
    a: CommandView,
    b: CommandView,
    c: CommandView,
)
    requires
        queue.wf(),
    ensures
        ({
            let kept = queue.commands.subrange(0, queue.pointer);
            let after = queue.pushed(a).pushed(b).undone().pushed(c);
            &&& after.wf()
            &&& after.redo_target().is_none()
            &&& after.redone() == after
            &&& after.commands == kept.push(a).push(c)
            &&& after.pointer == after.commands.len()
            &&& (b != a && b != c && !kept.contains(b) ==> !after.commands.contains(b))
        }),
{
    let kept = queue.commands.subrange(0, queue.pointer);
    let after = queue.pushed(a).pushed(b).undone().pushed(c);
    assert(after.commands =~= kept.push(a).push(c));
    if b != a && b != c && !kept.contains(b) && after.commands.contains(b) {
        let i = choose|i: int| 0 <= i < after.commands.len() && after.commands[i] == b;
        if i < kept.len() {
            assert(kept[i] == b);
        }
    }
}

/// An undo followed by a redo, and a redo followed by an undo, leave the
/// queue as it was and name the same command.
pub proof fn lemma_undo_redo_cancel(queue: CommandQueueView)
    requires
        queue.wf(),
    ensures
        queue.undone().wf(),
        queue.redone().wf(),
        queue.undo_target().is_some() ==> queue.undone().redone() == queue
            && queue.undone().redo_target() == queue.undo_target(),
        queue.redo_target().is_some() ==> queue.redone().undone() == queue
            && queue.redone().undo_target() == queue.redo_target(),
{
}

} // verus!
