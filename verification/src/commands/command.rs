//! The command: one reversible edit of a project, or a journal page of them.
//!
//! A command holds what it needs both to apply itself and to undo itself. It
//! touches nothing but the project it is handed.

use crate::commands::pattern_commands::AddNoteCommand;
use crate::commands::pattern_commands::AddPatternCommand;
use crate::commands::pattern_commands::DeleteNoteCommand;
use crate::commands::pattern_commands::DeletePatternCommand;
use crate::commands::pattern_commands::MoveNoteCommand;
use crate::commands::pattern_commands::ResizeNoteCommand;
use crate::commands::project_commands::AddControllerCommand;
use crate::commands::project_commands::AddInstrumentCommand;
use crate::model::note::has_note;
use crate::model::note::holds_only;
use crate::model::note::stands_alone_at;
use crate::model::note::note_position;
use crate::model::note::Note;
use crate::model::pattern::PatternView;
use crate::model::project::Project;
use crate::model::project::ProjectView;
use crate::model::reply::lemma_reply_views_add;
use crate::model::reply::note_reply_text;
use crate::model::reply::reply_views;
use crate::model::reply::Reply;
use crate::model::reply::ReplyView;
use vstd::prelude::*;

verus! {

broadcast use vstd::std_specs::hash::group_hash_axioms;

#[derive(Debug, PartialEq, Eq)]
pub enum Command {
    AddPattern(AddPatternCommand),
    DeletePattern(DeletePatternCommand),
    AddNote(AddNoteCommand),
    DeleteNote(DeleteNoteCommand),
    MoveNote(MoveNoteCommand),
    ResizeNote(ResizeNoteCommand),
    AddInstrument(AddInstrumentCommand),
    AddController(AddControllerCommand),
    JournalPage(JournalPageCommand),
}

/// The commands of one journal entry, in the order in which they were
/// executed. The page is executed first to last and rolled back last to first.
#[derive(Debug, PartialEq, Eq)]
pub struct JournalPageCommand {
    pub commands: Vec<Command>,
}

/// What a command is to the contracts: the command with each pattern and each
/// name it holds as its view.
pub ghost enum CommandView {
    AddPattern { project_id: u64, pattern: PatternView, index: int },
    DeletePattern { project_id: u64, pattern: PatternView, index: int },
    AddNote {
        project_id: u64,
        pattern_id: u64,
        generator_id: u64,
        note: Note,
        creates_list: bool,
    },
    DeleteNote { project_id: u64, pattern_id: u64, generator_id: u64, note: Note, index: int },
    MoveNote {
        project_id: u64,
        pattern_id: u64,
        generator_id: u64,
        note_id: u64,
        old_key: u8,
        new_key: u8,
        old_offset: u64,
        new_offset: u64,
    },
    ResizeNote {
        project_id: u64,
        pattern_id: u64,
        generator_id: u64,
        note_id: u64,
        old_length: u64,
        new_length: u64,
    },
    AddInstrument { id: u64, name: Seq<char> },
    AddController { id: u64, name: Seq<char> },
    JournalPage(Seq<CommandView>),
}

/// A list of commands, each as its view.
pub open spec fn command_views(commands: Seq<Command>) -> Seq<CommandView>
    decreases commands,
{
    Seq::new(
        commands.len(),
        |i: int|
            if 0 <= i < commands.len() {
                commands[i]@
            } else {
                arbitrary()
            },
    )
}

impl View for Command {
    type V = CommandView;

    open spec fn view(&self) -> CommandView
        decreases self,
    {
        match self {
            Command::AddPattern(c) => CommandView::AddPattern {
                project_id: c.project_id,
                pattern: c.pattern@,
                index: c.index as int,
            },
            Command::DeletePattern(c) => CommandView::DeletePattern {
                project_id: c.project_id,
                pattern: c.pattern@,
                index: c.index as int,
            },
            Command::AddNote(c) => CommandView::AddNote {
                project_id: c.project_id,
                pattern_id: c.pattern_id,
                generator_id: c.generator_id,
                note: c.note,
                creates_list: c.creates_list,
            },
            Command::DeleteNote(c) => CommandView::DeleteNote {
                project_id: c.project_id,
                pattern_id: c.pattern_id,
                generator_id: c.generator_id,
                note: c.note,
                index: c.index as int,
            },
            Command::MoveNote(c) => CommandView::MoveNote {
                project_id: c.project_id,
                pattern_id: c.pattern_id,
                generator_id: c.generator_id,
                note_id: c.note_id,
                old_key: c.old_key,
                new_key: c.new_key,
                old_offset: c.old_offset,
                new_offset: c.new_offset,
            },
            Command::ResizeNote(c) => CommandView::ResizeNote {
                project_id: c.project_id,
                pattern_id: c.pattern_id,
                generator_id: c.generator_id,
                note_id: c.note_id,
                old_length: c.old_length,
                new_length: c.new_length,
            },
            Command::AddInstrument(c) => CommandView::AddInstrument { id: c.id, name: c.name@ },
            Command::AddController(c) => CommandView::AddController { id: c.id, name: c.name@ },
            Command::JournalPage(page) => CommandView::JournalPage(command_views(page.commands@)),
        }
    }
}

/// The project after the commands were executed on `project`, first to last.
pub open spec fn executed_all(commands: Seq<CommandView>, project: ProjectView) -> ProjectView
    decreases commands,
{
    if commands.len() == 0 {
        project
    } else {
        commands.last().executed(executed_all(commands.drop_last(), project))
    }
}

/// The project after the commands were rolled back on `project`, last to first.
pub open spec fn rolled_back_all(commands: Seq<CommandView>, project: ProjectView) -> ProjectView
    decreases commands,
{
    if commands.len() == 0 {
        project
    } else {
        rolled_back_all(commands.drop_last(), commands.last().rolled_back(project))
    }
}

/// Whether each command can be executed on the project that those before it
/// leave.
pub open spec fn can_execute_all(commands: Seq<CommandView>, project: ProjectView) -> bool
    decreases commands,
{
    commands.len() == 0 || {
        &&& can_execute_all(commands.drop_last(), project)
        &&& commands.last().can_execute(executed_all(commands.drop_last(), project))
    }
}

/// Whether each command can be rolled back on the project that the rollback of
/// those after it leaves.
pub open spec fn can_rollback_all(commands: Seq<CommandView>, project: ProjectView) -> bool
    decreases commands,
{
    commands.len() == 0 || {
        &&& commands.last().can_rollback(project)
        &&& can_rollback_all(commands.drop_last(), commands.last().rolled_back(project))
    }
}

/// Whether each command executes cleanly on the project that those before it
/// leave.
pub open spec fn execute_cleanly_all(commands: Seq<CommandView>, project: ProjectView) -> bool
    decreases commands,
{
    commands.len() == 0 || {
        &&& execute_cleanly_all(commands.drop_last(), project)
        &&& commands.last().executes_cleanly(executed_all(commands.drop_last(), project))
    }
}

/// Whether each command rolls back cleanly on the project that the rollback of
/// those after it leaves.
pub open spec fn roll_back_cleanly_all(commands: Seq<CommandView>, project: ProjectView) -> bool
    decreases commands,
{
    commands.len() == 0 || {
        &&& commands.last().rolls_back_cleanly(project)
        &&& roll_back_cleanly_all(commands.drop_last(), commands.last().rolled_back(project))
    }
}

/// Whether each command is reversible on the project that those before it
/// leave.
pub open spec fn reversible_all(commands: Seq<CommandView>, project: ProjectView) -> bool
    decreases commands,
{
    commands.len() == 0 || {
        &&& reversible_all(commands.drop_last(), project)
        &&& commands.last().reversible_on(executed_all(commands.drop_last(), project))
    }
}

/// The replies of the commands when executed first to last.
pub open spec fn execute_replies_all(commands: Seq<CommandView>, request_id: u64) -> Seq<
    ReplyView,
>
    decreases commands,
{
    if commands.len() == 0 {
        Seq::empty()
    } else {
        execute_replies_all(commands.drop_last(), request_id) + commands.last().execute_replies(
            request_id,
        )
    }
}

/// The replies of the commands when rolled back last to first.
pub open spec fn rollback_replies_all(commands: Seq<CommandView>, request_id: u64) -> Seq<
    ReplyView,
>
    decreases commands,
{
    if commands.len() == 0 {
        Seq::empty()
    } else {
        commands.last().rollback_replies(request_id) + rollback_replies_all(
            commands.drop_last(),
            request_id,
        )
    }
}

impl CommandView {
    /// The project after the command was executed on `project`.
    pub open spec fn executed(self, project: ProjectView) -> ProjectView
        decreases self,
    {
        match self {
            CommandView::AddPattern { pattern, index, .. } => project.add_pattern(pattern, index),
            CommandView::DeletePattern { pattern, .. } => project.delete_pattern(pattern.id),
            CommandView::AddNote { pattern_id, generator_id, note, .. } => project.add_note(
                pattern_id,
                generator_id,
                note,
            ),
            CommandView::DeleteNote { pattern_id, generator_id, note, .. } => project.remove_note(
                pattern_id,
                generator_id,
                note.id,
            ),
            CommandView::MoveNote {
                pattern_id,
                generator_id,
                note_id,
                new_offset,
                ..
            } => project.move_note(pattern_id, generator_id, note_id, new_offset),
            CommandView::ResizeNote {
                pattern_id,
                generator_id,
                note_id,
                new_length,
                ..
            } => project.resize_note(pattern_id, generator_id, note_id, new_length),
            CommandView::AddInstrument { id, name } => project.add_instrument(id, name),
            CommandView::AddController { id, name } => project.add_controller(id, name),
            CommandView::JournalPage(commands) => executed_all(commands, project),
        }
    }

    /// The project after the command was rolled back on `project`.
    pub open spec fn rolled_back(self, project: ProjectView) -> ProjectView
        decreases self,
    {
        match self {
            CommandView::AddPattern { pattern, .. } => project.delete_pattern(pattern.id),
            CommandView::DeletePattern { pattern, index, .. } => project.add_pattern(
                pattern,
                index,
            ),
            CommandView::AddNote { pattern_id, generator_id, note, creates_list, .. } => {
                if creates_list {
                    project.without_note_list(pattern_id, generator_id)
                } else {
                    project.remove_note(pattern_id, generator_id, note.id)
                }
            },
            CommandView::DeleteNote {
                pattern_id,
                generator_id,
                note,
                index,
                ..
            } => project.insert_note(pattern_id, generator_id, index, note),
            CommandView::MoveNote {
                pattern_id,
                generator_id,
                note_id,
                old_offset,
                ..
            } => project.move_note(pattern_id, generator_id, note_id, old_offset),
            CommandView::ResizeNote {
                pattern_id,
                generator_id,
                note_id,
                old_length,
                ..
            } => project.resize_note(pattern_id, generator_id, note_id, old_length),
            CommandView::AddInstrument { id, .. } => project.remove_generator(id),
            CommandView::AddController { id, .. } => project.remove_generator(id),
            CommandView::JournalPage(commands) => rolled_back_all(commands, project),
        }
    }

    /// Whether the project holds what the command addresses when it is
    /// executed: the place in the display order, the pattern, the note list,
    /// the note.
    pub open spec fn can_execute(self, project: ProjectView) -> bool
        decreases self,
    {
        match self {
            CommandView::AddPattern { index, .. } => 0 <= index
                <= project.song.pattern_order.len(),
            CommandView::DeletePattern { .. } => true,
            CommandView::AddNote { pattern_id, .. } => project.has_pattern(pattern_id),
            CommandView::DeleteNote { pattern_id, generator_id, .. } => project.has_note_list(
                pattern_id,
                generator_id,
            ),
            CommandView::MoveNote { pattern_id, generator_id, note_id, .. } => {
                &&& project.has_note_list(pattern_id, generator_id)
                &&& has_note(project.notes(pattern_id, generator_id), note_id)
            },
            CommandView::ResizeNote { pattern_id, generator_id, note_id, .. } => {
                &&& project.has_note_list(pattern_id, generator_id)
                &&& has_note(project.notes(pattern_id, generator_id), note_id)
            },
            CommandView::AddInstrument { .. } => true,
            CommandView::AddController { .. } => true,
            CommandView::JournalPage(commands) => can_execute_all(commands, project),
        }
    }

    /// Whether the project holds what the command addresses when it is rolled
    /// back.
    pub open spec fn can_rollback(self, project: ProjectView) -> bool
        decreases self,
    {
        match self {
            CommandView::AddPattern { .. } => true,
            CommandView::DeletePattern { index, .. } => 0 <= index
                <= project.song.pattern_order.len(),
            CommandView::AddNote { pattern_id, generator_id, creates_list, .. } => {
                &&& project.has_pattern(pattern_id)
                &&& !creates_list ==> project.has_note_list(pattern_id, generator_id)
            },
            CommandView::DeleteNote { pattern_id, generator_id, index, .. } => {
                &&& project.has_pattern(pattern_id)
                &&& 0 <= index <= project.notes(pattern_id, generator_id).len()
            },
            CommandView::MoveNote { pattern_id, generator_id, note_id, .. } => {
                &&& project.has_note_list(pattern_id, generator_id)
                &&& has_note(project.notes(pattern_id, generator_id), note_id)
            },
            CommandView::ResizeNote { pattern_id, generator_id, note_id, .. } => {
                &&& project.has_note_list(pattern_id, generator_id)
                &&& has_note(project.notes(pattern_id, generator_id), note_id)
            },
            CommandView::AddInstrument { .. } => true,
            CommandView::AddController { .. } => true,
            CommandView::JournalPage(commands) => can_rollback_all(commands, project),
        }
    }

    /// Whether the command can be executed on the project and leaves it well
    /// formed: what it addresses is there, what it adds is not there yet, and
    /// the addition of a note makes a note list just where the command says
    /// so.
    pub open spec fn executes_cleanly(self, project: ProjectView) -> bool
        decreases self,
    {
        match self {
            CommandView::AddPattern { pattern, index, .. } => {
                &&& 0 <= index <= project.song.pattern_order.len()
                &&& !project.has_pattern(pattern.id)
            },
            CommandView::AddNote { pattern_id, generator_id, creates_list, .. } => {
                &&& project.has_pattern(pattern_id)
                &&& creates_list == !project.has_note_list(pattern_id, generator_id)
            },
            CommandView::AddInstrument { id, .. } => !project.has_generator(id),
            CommandView::AddController { id, .. } => !project.has_generator(id),
            CommandView::JournalPage(commands) => execute_cleanly_all(commands, project),
            _ => self.can_execute(project),
        }
    }

    /// Whether the command can be rolled back on the project and leaves it
    /// well formed, and the rollback of a note addition takes away a note
    /// list only where the list holds nothing but that note.
    pub open spec fn rolls_back_cleanly(self, project: ProjectView) -> bool
        decreases self,
    {
        match self {
            CommandView::DeletePattern { pattern, index, .. } => {
                &&& 0 <= index <= project.song.pattern_order.len()
                &&& !project.has_pattern(pattern.id)
            },
            CommandView::AddNote { pattern_id, generator_id, note, creates_list, .. } => {
                &&& project.has_note_list(pattern_id, generator_id)
                &&& creates_list ==> holds_only(project.notes(pattern_id, generator_id), note.id)
            },
            CommandView::JournalPage(commands) => roll_back_cleanly_all(commands, project),
            _ => self.can_rollback(project),
        }
    }

    /// Whether a rollback right after an execution on the well-formed
    /// `project` gives `project` back: what the command adds is new, and what
    /// it removes or changes is in the project as the command holds it, at
    /// the place that the command holds.
    pub open spec fn reversible_on(self, project: ProjectView) -> bool
        decreases self,
    {
        match self {
            CommandView::AddPattern { pattern, index, .. } => {
                &&& 0 <= index <= project.song.pattern_order.len()
                &&& !project.has_pattern(pattern.id)
            },
            CommandView::DeletePattern { pattern, index, .. } => {
                &&& project.has_pattern(pattern.id)
                &&& project.song.patterns[pattern.id] == pattern
                &&& 0 <= index < project.song.pattern_order.len()
                &&& project.song.pattern_order[index] == pattern.id
            },
            CommandView::AddNote { pattern_id, generator_id, note, creates_list, .. } => {
                &&& project.has_pattern(pattern_id)
                &&& creates_list == !project.has_note_list(pattern_id, generator_id)
                &&& !has_note(project.notes(pattern_id, generator_id), note.id)
            },
            CommandView::DeleteNote { pattern_id, generator_id, note, index, .. } => {
                &&& project.has_note_list(pattern_id, generator_id)
                &&& stands_alone_at(project.notes(pattern_id, generator_id), index, note)
            },
            CommandView::MoveNote { pattern_id, generator_id, note_id, old_offset, .. } => {
                let notes = project.notes(pattern_id, generator_id);
                &&& project.has_note_list(pattern_id, generator_id)
                &&& has_note(notes, note_id)
                &&& notes[note_position(notes, note_id)].offset == old_offset
            },
            CommandView::ResizeNote { pattern_id, generator_id, note_id, old_length, .. } => {
                let notes = project.notes(pattern_id, generator_id);
                &&& project.has_note_list(pattern_id, generator_id)
                &&& has_note(notes, note_id)
                &&& notes[note_position(notes, note_id)].length == old_length
            },
            CommandView::AddInstrument { id, .. } => !project.has_generator(id),
            CommandView::AddController { id, .. } => !project.has_generator(id),
            CommandView::JournalPage(commands) => reversible_all(commands, project),
        }
    }

    /// The replies that the execution of the command gives.
    pub open spec fn execute_replies(self, request_id: u64) -> Seq<ReplyView>
        decreases self,
    {
        match self {
            CommandView::AddPattern { .. } => seq![ReplyView::PatternAdded(request_id)],
            CommandView::DeletePattern { .. } => seq![ReplyView::PatternDeleted(request_id)],
            CommandView::AddNote { pattern_id, generator_id, .. } => seq![
                ReplyView::NoteAdded(request_id, note_reply_text(pattern_id, generator_id)),
            ],
            CommandView::DeleteNote { pattern_id, generator_id, .. } => seq![
                ReplyView::NoteDeleted(request_id, note_reply_text(pattern_id, generator_id)),
            ],
            CommandView::MoveNote { pattern_id, generator_id, .. } => seq![
                ReplyView::NoteMoved(request_id, note_reply_text(pattern_id, generator_id)),
            ],
            CommandView::ResizeNote { pattern_id, generator_id, .. } => seq![
                ReplyView::NoteResized(request_id, note_reply_text(pattern_id, generator_id)),
            ],
            CommandView::AddInstrument { .. } => seq![ReplyView::InstrumentAdded(request_id)],
            CommandView::AddController { .. } => seq![ReplyView::ControllerAdded(request_id)],
            CommandView::JournalPage(commands) => execute_replies_all(commands, request_id),
        }
    }

    /// The replies that the rollback of the command gives.
    pub open spec fn rollback_replies(self, request_id: u64) -> Seq<ReplyView>
        decreases self,
    {
        match self {
            CommandView::AddPattern { .. } => seq![ReplyView::PatternDeleted(request_id)],
            CommandView::DeletePattern { .. } => seq![ReplyView::PatternAdded(request_id)],
            CommandView::AddNote { pattern_id, generator_id, .. } => seq![
                ReplyView::NoteDeleted(request_id, note_reply_text(pattern_id, generator_id)),
            ],
            CommandView::DeleteNote { pattern_id, generator_id, .. } => seq![
                ReplyView::NoteAdded(request_id, note_reply_text(pattern_id, generator_id)),
            ],
            CommandView::MoveNote { pattern_id, generator_id, .. } => seq![
                ReplyView::NoteMoved(request_id, note_reply_text(pattern_id, generator_id)),
            ],
            CommandView::ResizeNote { pattern_id, generator_id, .. } => seq![
                ReplyView::NoteResized(request_id, note_reply_text(pattern_id, generator_id)),
            ],
            CommandView::AddInstrument { .. } => seq![ReplyView::GeneratorRemoved(request_id)],
            CommandView::AddController { .. } => seq![ReplyView::GeneratorRemoved(request_id)],
            CommandView::JournalPage(commands) => rollback_replies_all(commands, request_id),
        }
    }
}

impl Command {
    /// Applies the command to the project and gives the replies to send.
    pub fn execute(&self, project: &mut Project, request_id: u64) -> (replies: Vec<Reply>)
        requires
            self@.can_execute(old(project)@),
        ensures
            final(project)@ == self@.executed(old(project)@),
            reply_views(replies@) == self@.execute_replies(request_id),
        decreases self,
    {
        match self {
            Command::AddPattern(c) => c.execute(project, request_id),
            Command::DeletePattern(c) => c.execute(project, request_id),
            Command::AddNote(c) => c.execute(project, request_id),
            Command::DeleteNote(c) => c.execute(project, request_id),
            Command::MoveNote(c) => c.execute(project, request_id),
            Command::ResizeNote(c) => c.execute(project, request_id),
            Command::AddInstrument(c) => c.execute(project, request_id),
            Command::AddController(c) => c.execute(project, request_id),
            Command::JournalPage(page) => {
                let ghost views = command_views(page.commands@);
                let mut replies: Vec<Reply> = Vec::new();
                let mut i: usize = 0;
                assert(views.subrange(0, 0) =~= Seq::<CommandView>::empty());
                assert(reply_views(replies@) =~= Seq::<ReplyView>::empty());
                while i < page.commands.len()
                    invariant
                        i <= page.commands.len(),
                        *self == Command::JournalPage(*page),
                        views == command_views(page.commands@),
                        can_execute_all(views, old(project)@),
                        project@ == executed_all(
                            views.subrange(0, i as int),
                            old(project)@,
                        ),
                        reply_views(replies@) == execute_replies_all(
                            views.subrange(0, i as int),
                            request_id,
                        ),
                    decreases page.commands.len() - i,
                {
                    proof {
                        assert(self->JournalPage_0 == *page);
                        assert(decreases_to!(*self => self->JournalPage_0));
                        vstd::std_specs::vec::axiom_vec_index_decreases(page.commands, i as int);
                        lemma_can_execute_prefix(views, old(project)@, i as int);
                        assert(views.subrange(0, i + 1).drop_last()
                            =~= views.subrange(0, i as int));
                    }
                    let mut more = page.commands[i].execute(project, request_id);
                    proof {
                        lemma_reply_views_add(replies@, more@);
                    }
                    replies.append(&mut more);
                    i = i + 1;
                }
                assert(views.subrange(0, i as int) =~= views);
                replies
            },
        }
    }

    /// Undoes the command on the project and gives the replies to send.
    pub fn rollback(&self, project: &mut Project, request_id: u64) -> (replies: Vec<Reply>)
        requires
            self@.can_rollback(old(project)@),
        ensures
            final(project)@ == self@.rolled_back(old(project)@),
            reply_views(replies@) == self@.rollback_replies(request_id),
        decreases self,
    {
        match self {
            Command::AddPattern(c) => c.rollback(project, request_id),
            Command::DeletePattern(c) => c.rollback(project, request_id),
            Command::AddNote(c) => c.rollback(project, request_id),
            Command::DeleteNote(c) => c.rollback(project, request_id),
            Command::MoveNote(c) => c.rollback(project, request_id),
            Command::ResizeNote(c) => c.rollback(project, request_id),
            Command::AddInstrument(c) => c.rollback(project, request_id),
            Command::AddController(c) => c.rollback(project, request_id),
            Command::JournalPage(page) => {
                let ghost views = command_views(page.commands@);
                let mut replies: Vec<Reply> = Vec::new();
                let mut i: usize = page.commands.len();
                assert(views.subrange(0, i as int) =~= views);
                assert(reply_views(replies@) =~= Seq::<ReplyView>::empty());
                while i > 0
                    invariant
                        i <= page.commands.len(),
                        *self == Command::JournalPage(*page),
                        views == command_views(page.commands@),
                        can_rollback_all(views.subrange(0, i as int), project@),
                        rolled_back_all(views.subrange(0, i as int), project@)
                            == rolled_back_all(views, old(project)@),
                        reply_views(replies@) + rollback_replies_all(
                            views.subrange(0, i as int),
                            request_id,
                        ) == rollback_replies_all(views, request_id),
                    decreases i,
                {
                    proof {
                        assert(self->JournalPage_0 == *page);
                        assert(decreases_to!(*self => self->JournalPage_0));
                        vstd::std_specs::vec::axiom_vec_index_decreases(
                            page.commands,
                            i as int - 1,
                        );
                        assert(views.subrange(0, i as int).drop_last()
                            =~= views.subrange(0, i as int - 1));
                    }
                    i = i - 1;
                    let ghost before = replies@;
                    let mut more = page.commands[i].rollback(project, request_id);
                    proof {
                        lemma_reply_views_add(replies@, more@);
                        assert((reply_views(before) + reply_views(more@)) + rollback_replies_all(
                            views.subrange(0, i as int),
                            request_id,
                        ) =~= reply_views(before) + (reply_views(more@) + rollback_replies_all(
                            views.subrange(0, i as int),
                            request_id,
                        )));
                    }
                    replies.append(&mut more);
                }
                assert(views.subrange(0, 0) =~= Seq::<CommandView>::empty());
                assert(reply_views(replies@) + Seq::<ReplyView>::empty() =~= reply_views(
                    replies@,
                ));
                replies
            },
        }
    }
}

/// Where a list of commands can be executed, each of them can be executed on
/// the project that those before it leave.
pub proof fn lemma_can_execute_prefix(commands: Seq<CommandView>, project: ProjectView, index: int)
    requires
        can_execute_all(commands, project),
        0 <= index < commands.len(),
    ensures
        can_execute_all(commands.subrange(0, index), project),
        commands[index].can_execute(executed_all(commands.subrange(0, index), project)),
    decreases commands.len(),
{
    if index == commands.len() - 1 {
        assert(commands.subrange(0, index) =~= commands.drop_last());
    } else {
        lemma_can_execute_prefix(commands.drop_last(), project, index);
        assert(commands.drop_last().subrange(0, index) =~= commands.subrange(0, index));
    }
}

/// Where a list of commands executes cleanly, each of them executes cleanly on
/// the project that those before it leave.
pub proof fn lemma_execute_cleanly_prefix(commands: Seq<CommandView>, project: ProjectView, index: int)
    requires
        execute_cleanly_all(commands, project),
        0 <= index < commands.len(),
    ensures
        execute_cleanly_all(commands.subrange(0, index), project),
        commands[index].executes_cleanly(executed_all(commands.subrange(0, index), project)),
    decreases commands.len(),
{
    if index == commands.len() - 1 {
        assert(commands.subrange(0, index) =~= commands.drop_last());
    } else {
        lemma_execute_cleanly_prefix(commands.drop_last(), project, index);
        assert(commands.drop_last().subrange(0, index) =~= commands.subrange(0, index));
    }
}

impl Command {
    /// Whether a command that is no journal page executes cleanly on the
    /// project.
    fn check_execute(&self, project: &Project) -> (r: bool)
        requires
            !(self is JournalPage),
        ensures
            r == self@.executes_cleanly(project@),
    {
        match self {
            Command::AddPattern(c) => c.index <= project.song.pattern_order.len()
                && !project.has_pattern(c.pattern.id),
            Command::DeletePattern(_) => true,
            Command::AddNote(c) => project.has_pattern(c.pattern_id) && c.creates_list
                == !project.has_note_list(c.pattern_id, c.generator_id),
            Command::DeleteNote(c) => project.has_note_list(c.pattern_id, c.generator_id),
            Command::MoveNote(c) => project.find_note_index(
                c.pattern_id,
                c.generator_id,
                c.note_id,
            ).is_some(),
            Command::ResizeNote(c) => project.find_note_index(
                c.pattern_id,
                c.generator_id,
                c.note_id,
            ).is_some(),
            Command::AddInstrument(c) => !project.has_generator(c.id),
            Command::AddController(c) => !project.has_generator(c.id),
            Command::JournalPage(_) => false,
        }
    }

    /// Whether a command that is no journal page rolls back cleanly on the
    /// project.
    fn check_rollback(&self, project: &Project) -> (r: bool)
        requires
            !(self is JournalPage),
        ensures
            r == self@.rolls_back_cleanly(project@),
    {
        match self {
            Command::AddPattern(_) => true,
            Command::DeletePattern(c) => c.index <= project.song.pattern_order.len()
                && !project.has_pattern(c.pattern.id),
            Command::AddNote(c) => {
                if c.creates_list {
                    project.holds_only_note(c.pattern_id, c.generator_id, c.note.id)
                } else {
                    project.has_note_list(c.pattern_id, c.generator_id)
                }
            },
            Command::DeleteNote(c) => {
                if project.has_note_list(c.pattern_id, c.generator_id) {
                    c.index <= project.note_count(c.pattern_id, c.generator_id)
                } else {
                    project.has_pattern(c.pattern_id) && c.index == 0
                }
            },
            Command::MoveNote(c) => project.find_note_index(
                c.pattern_id,
                c.generator_id,
                c.note_id,
            ).is_some(),
            Command::ResizeNote(c) => project.find_note_index(
                c.pattern_id,
                c.generator_id,
                c.note_id,
            ).is_some(),
            Command::AddInstrument(_) => true,
            Command::AddController(_) => true,
            Command::JournalPage(_) => false,
        }
    }

    /// Executes the command if it executes cleanly on the project, and leaves
    /// the project as it is if it does not. A journal page is executed in
    /// full or not at all.
    pub fn try_execute(&self, project: &mut Project, request_id: u64) -> (r: Option<Vec<Reply>>)
        ensures
            r.is_some() <==> self@.executes_cleanly(old(project)@),
            match r {
                Some(replies) => {
                    &&& final(project)@ == self@.executed(old(project)@)
                    &&& reply_views(replies@) == self@.execute_replies(request_id)
                },
                None => final(project)@ == old(project)@,
            },
        decreases self,
    {
        match self {
            Command::JournalPage(page) => {
                let mut scratch = project.clone();
                let ghost views = command_views(page.commands@);
                let mut replies: Vec<Reply> = Vec::new();
                let mut i: usize = 0;
                assert(views.subrange(0, 0) =~= Seq::<CommandView>::empty());
                assert(reply_views(replies@) =~= Seq::<ReplyView>::empty());
                while i < page.commands.len()
                    invariant
                        i <= page.commands.len(),
                        *self == Command::JournalPage(*page),
                        views == command_views(page.commands@),
                        project@ == old(project)@,
                        execute_cleanly_all(views.subrange(0, i as int), old(project)@),
                        scratch@ == executed_all(
                            views.subrange(0, i as int),
                            old(project)@,
                        ),
                        reply_views(replies@) == execute_replies_all(
                            views.subrange(0, i as int),
                            request_id,
                        ),
                    decreases page.commands.len() - i,
                {
                    proof {
                        assert(self->JournalPage_0 == *page);
                        assert(decreases_to!(*self => self->JournalPage_0));
                        vstd::std_specs::vec::axiom_vec_index_decreases(page.commands, i as int);
                        assert(views.subrange(0, i + 1).drop_last()
                            =~= views.subrange(0, i as int));
                    }
                    match page.commands[i].try_execute(&mut scratch, request_id) {
                        Some(more) => {
                            let mut more = more;
                            proof {
                                lemma_reply_views_add(replies@, more@);
                            }
                            replies.append(&mut more);
                        },
                        None => {
                            proof {
                                if execute_cleanly_all(views, old(project)@) {
                                    lemma_execute_cleanly_prefix(
                                        views,
                                        old(project)@,
                                        i as int,
                                    );
                                }
                            }
                            return None;
                        },
                    }
                    i = i + 1;
                }
                assert(views.subrange(0, i as int) =~= views);
                *project = scratch;
                Some(replies)
            },
            _ => {
                if self.check_execute(project) {
                    Some(self.execute(project, request_id))
                } else {
                    None
                }
            },
        }
    }

    /// Rolls the command back if it rolls back cleanly on the project, and
    /// leaves the project as it is if it does not. A journal page is rolled
    /// back in full or not at all.
    pub fn try_rollback(&self, project: &mut Project, request_id: u64) -> (r: Option<Vec<Reply>>)
        ensures
            r.is_some() <==> self@.rolls_back_cleanly(old(project)@),
            match r {
                Some(replies) => {
                    &&& final(project)@ == self@.rolled_back(old(project)@)
                    &&& reply_views(replies@) == self@.rollback_replies(request_id)
                },
                None => final(project)@ == old(project)@,
            },
        decreases self,
    {
        match self {
            Command::JournalPage(page) => {
                let mut scratch = project.clone();
                let ghost views = command_views(page.commands@);
                let mut replies: Vec<Reply> = Vec::new();
                let mut i: usize = page.commands.len();
                assert(views.subrange(0, i as int) =~= views);
                assert(reply_views(replies@) =~= Seq::<ReplyView>::empty());
                while i > 0
                    invariant
                        i <= page.commands.len(),
                        *self == Command::JournalPage(*page),
                        views == command_views(page.commands@),
                        project@ == old(project)@,
                        roll_back_cleanly_all(views.subrange(0, i as int), scratch@)
                            == roll_back_cleanly_all(views, old(project)@),
                        rolled_back_all(views.subrange(0, i as int), scratch@)
                            == rolled_back_all(views, old(project)@),
                        reply_views(replies@) + rollback_replies_all(
                            views.subrange(0, i as int),
                            request_id,
                        ) == rollback_replies_all(views, request_id),
                    decreases i,
                {
                    proof {
                        assert(self->JournalPage_0 == *page);
                        assert(decreases_to!(*self => self->JournalPage_0));
                        vstd::std_specs::vec::axiom_vec_index_decreases(
                            page.commands,
                            i as int - 1,
                        );
                        assert(views.subrange(0, i as int).drop_last()
                            =~= views.subrange(0, i as int - 1));
                    }
                    i = i - 1;
                    let ghost before = replies@;
                    match page.commands[i].try_rollback(&mut scratch, request_id) {
                        Some(more) => {
                            let mut more = more;
                            proof {
                                lemma_reply_views_add(replies@, more@);
                                assert((reply_views(before) + reply_views(more@))
                                    + rollback_replies_all(
                                    views.subrange(0, i as int),
                                    request_id,
                                ) =~= reply_views(before) + (reply_views(more@)
                                    + rollback_replies_all(
                                    views.subrange(0, i as int),
                                    request_id,
                                )));
                            }
                            replies.append(&mut more);
                        },
                        None => {
                            return None;
                        },
                    }
                }
                assert(views.subrange(0, 0) =~= Seq::<CommandView>::empty());
                assert(reply_views(replies@) + Seq::<ReplyView>::empty() =~= reply_views(
                    replies@,
                ));
                *project = scratch;
                Some(replies)
            },
            _ => {
                if self.check_rollback(project) {
                    Some(self.rollback(project, request_id))
                } else {
                    None
                }
            },
        }
    }
}

} // verus!
