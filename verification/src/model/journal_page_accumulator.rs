//! The journal of one project: while it is active, the commands executed on
//! the project are collected here, to become one entry of the undo history.

use crate::commands::command::command_views;
use crate::commands::command::Command;
use crate::commands::command::CommandView;
use crate::commands::command::JournalPageCommand;
use vstd::prelude::*;

verus! {

#[derive(Debug, PartialEq, Eq)]
pub struct JournalPageAccumulator {
    pub is_active: bool,
    pub command_list: Vec<Command>,
}

/// What a journal is to the contracts.
pub ghost struct JournalView {
    pub is_active: bool,
    pub commands: Seq<CommandView>,
}

impl View for JournalPageAccumulator {
    type V = JournalView;

    open spec fn view(&self) -> JournalView {
        JournalView { is_active: self.is_active, commands: command_views(self.command_list@) }
    }
}

impl JournalView {
    /// The journal that is not active and holds no command.
    pub open spec fn idle() -> JournalView {
        JournalView { is_active: false, commands: Seq::empty() }
    }

    /// The journal after a start: active and empty, whatever it held.
    pub open spec fn started(self) -> JournalView {
        JournalView { is_active: true, commands: Seq::empty() }
    }

    /// The journal after a command was recorded.
    pub open spec fn recorded(self, command: CommandView) -> JournalView {
        JournalView { commands: self.commands.push(command), ..self }
    }
}

impl Default for JournalPageAccumulator {
    fn default() -> (r: Self)
        ensures
            r@ == JournalView::idle(),
    {
        let r = JournalPageAccumulator { is_active: false, command_list: Vec::new() };
        assert(r@.commands =~= Seq::<CommandView>::empty());
        r
    }
}

impl JournalPageAccumulator {
    /// Opens a journal entry. What an entry that was still open had collected
    /// is dropped.
    pub fn start(&mut self)
        ensures
            final(self)@ == old(self)@.started(),
    {
        self.is_active = true;
        self.command_list = Vec::new();
        assert(self@.commands =~= Seq::<CommandView>::empty());
    }

    /// Records a command that was just executed.
    pub fn push_command(&mut self, command: Command)
        ensures
            final(self)@ == old(self)@.recorded(command@),
    {
        self.command_list.push(command);
        assert(self@.commands =~= old(self)@.commands.push(command@));
    }

    /// Closes the journal entry. Where it collected commands, they come back
    /// as one journal page, in the order in which they were recorded; where
    /// it collected none, nothing comes back.
    pub fn commit(&mut self) -> (r: Option<Command>)
        ensures
            final(self)@ == JournalView::idle(),
            old(self)@.commands.len() == 0 <==> r.is_none(),
            match r {
                Some(command) => command@ == CommandView::JournalPage(old(self)@.commands),
                None => true,
            },
    {
        self.is_active = false;
        if self.command_list.len() == 0 {
            assert(self@.commands =~= Seq::<CommandView>::empty());
            None
        } else {
            let mut commands: Vec<Command> = Vec::new();
            commands.append(&mut self.command_list);
            assert(commands@ =~= old(self).command_list@);
            assert(self@.commands =~= Seq::<CommandView>::empty());
            Some(Command::JournalPage(JournalPageCommand { commands }))
        }
    }
}

} // verus!
