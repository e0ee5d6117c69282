//! What holds of every command: an execution or a rollback that is clean
//! leaves the project well formed, and a rollback right after an execution
//! gives the project back.

use crate::commands::command::execute_cleanly_all;
use crate::commands::command::executed_all;
use crate::commands::command::reversible_all;
use crate::commands::command::roll_back_cleanly_all;
use crate::commands::command::rolled_back_all;
use crate::commands::command::can_execute_all;
use crate::commands::command::can_rollback_all;
use crate::commands::command::CommandView;
use crate::model::note::has_note;
use crate::model::note::holds_only;
use crate::model::note::lemma_without_then_insert_note;
use crate::model::note::stands_alone_at;
use crate::model::note::lemma_note_position;
use crate::model::note::note_id_is_not;
use crate::model::note::note_ids;
use crate::model::note::note_position;
use crate::model::note::with_length;
use crate::model::note::with_offset;
use crate::model::note::without_note;
use crate::model::note::Note;
use crate::model::pattern::PatternView;
use crate::model::project::ProjectView;
use crate::util::id_list::lemma_filter_all;
use crate::util::id_list::lemma_filter_push;
use crate::util::id_list::lemma_insert_members;
use crate::util::id_list::lemma_insert_then_without;
use crate::util::id_list::lemma_push_members;
use crate::util::id_list::lemma_push_then_without;
use crate::util::id_list::lemma_without_members;
use crate::util::id_list::lemma_without_then_insert;
use vstd::prelude::*;

verus! {

/// Replacing a note list of an existing pattern keeps a project well formed.
pub proof fn lemma_with_notes_wf(
    project: ProjectView,
    pattern_id: u64,
    generator_id: u64,
    notes: Seq<Note>,
)
    requires
        project.wf(),
        project.has_pattern(pattern_id),
    ensures
        project.with_notes(pattern_id, generator_id, notes).wf(),
        project.with_notes(pattern_id, generator_id, notes).has_note_list(pattern_id, generator_id),
        project.with_notes(pattern_id, generator_id, notes).notes(pattern_id, generator_id)
            == notes,
{
    let after = project.with_notes(pattern_id, generator_id, notes);
    assert forall|id: u64|
        after.song.pattern_order.contains(id) <==> after.song.patterns.contains_key(id) by {
        assert(project.song.pattern_order.contains(id) <==> project.song.patterns.contains_key(id));
    }
}

/// Taking a note list out of an existing pattern keeps a project well formed.
pub proof fn lemma_without_note_list_wf(project: ProjectView, pattern_id: u64, generator_id: u64)
    requires
        project.wf(),
        project.has_pattern(pattern_id),
    ensures
        project.without_note_list(pattern_id, generator_id).wf(),
{
    let after = project.without_note_list(pattern_id, generator_id);
    assert forall|id: u64|
        after.song.pattern_order.contains(id) <==> after.song.patterns.contains_key(id) by {
        assert(project.song.pattern_order.contains(id) <==> project.song.patterns.contains_key(id));
    }
}

/// Putting back the note list that a generator has changes nothing.
pub proof fn lemma_with_same_notes(
    project: ProjectView,
    pattern_id: u64,
    generator_id: u64,
    other: Seq<Note>,
)
    requires
        project.has_note_list(pattern_id, generator_id),
    ensures
        project.with_notes(pattern_id, generator_id, other).with_notes(
            pattern_id,
            generator_id,
            project.notes(pattern_id, generator_id),
        ) == project,
{
    let pattern = project.song.patterns[pattern_id];
    let notes = project.notes(pattern_id, generator_id);
    let back = project.with_notes(pattern_id, generator_id, other).with_notes(
        pattern_id,
        generator_id,
        notes,
    );
    assert(pattern.generator_notes.insert(generator_id, other).insert(generator_id, notes)
        =~= pattern.generator_notes);
    assert(back.song.patterns[pattern_id] == pattern);
    assert(back.song.patterns =~= project.song.patterns);
}

/// Removing the notes of an identifier right after adding a note of that
/// identifier, where the list held none before, gives the list back.
pub proof fn lemma_push_then_without_note(notes: Seq<Note>, note: Note)
    requires
        !has_note(notes, note.id),
    ensures
        without_note(notes.push(note), note.id) == notes,
{
    lemma_note_position(notes, note.id);
    lemma_filter_push(notes, note, note_id_is_not(note.id));
    lemma_filter_all(notes, note_id_is_not(note.id));
}

/// Changing a note without changing its identifier leaves every note where it
/// is found.
pub proof fn lemma_update_keeps_positions(notes: Seq<Note>, index: int, note: Note, id: u64)
    requires
        0 <= index < notes.len(),
        note.id == notes[index].id,
    ensures
        note_position(notes.update(index, note), id) == note_position(notes, id),
        has_note(notes.update(index, note), id) == has_note(notes, id),
{
    assert(note_ids(notes.update(index, note)) =~= note_ids(notes));
}

/// Setting the offset of a note and then setting it back to what it was gives
/// the list back.
pub proof fn lemma_offset_there_and_back(notes: Seq<Note>, id: u64, old_offset: u64, offset: u64)
    requires
        has_note(notes, id),
        notes[note_position(notes, id)].offset == old_offset,
    ensures
        has_note(with_offset(notes, id, offset), id),
        with_offset(with_offset(notes, id, offset), id, old_offset) == notes,
{
    lemma_note_position(notes, id);
    let index = note_position(notes, id);
    lemma_update_keeps_positions(notes, index, Note { offset, ..notes[index] }, id);
    assert(with_offset(with_offset(notes, id, offset), id, old_offset) =~= notes);
}

/// Setting the length of a note and then setting it back to what it was gives
/// the list back.
pub proof fn lemma_length_there_and_back(notes: Seq<Note>, id: u64, old_length: u64, length: u64)
    requires
        has_note(notes, id),
        notes[note_position(notes, id)].length == old_length,
    ensures
        has_note(with_length(notes, id, length), id),
        with_length(with_length(notes, id, length), id, old_length) == notes,
{
    lemma_note_position(notes, id);
    let index = note_position(notes, id);
    lemma_update_keeps_positions(notes, index, Note { length, ..notes[index] }, id);
    assert(with_length(with_length(notes, id, length), id, old_length) =~= notes);
}

/// Adding a pattern that is new, at a place of the display order, keeps a
/// project well formed.
pub proof fn lemma_add_pattern_wf(project: ProjectView, pattern: PatternView, index: int)
    requires
        project.wf(),
        0 <= index <= project.song.pattern_order.len(),
        !project.has_pattern(pattern.id),
    ensures
        project.add_pattern(pattern, index).wf(),
{
    let after = project.add_pattern(pattern, index);
    assert(!project.song.pattern_order.contains(pattern.id));
    lemma_insert_members(project.song.pattern_order, index, pattern.id);
    assert forall|id: u64|
        after.song.pattern_order.contains(id) <==> after.song.patterns.contains_key(id) by {
        assert(project.song.pattern_order.contains(id) <==> project.song.patterns.contains_key(id));
    }
}

/// Deleting a pattern keeps a project well formed.
pub proof fn lemma_delete_pattern_wf(project: ProjectView, pattern_id: u64)
    requires
        project.wf(),
    ensures
        project.delete_pattern(pattern_id).wf(),
{
    let after = project.delete_pattern(pattern_id);
    lemma_without_members(project.song.pattern_order, pattern_id);
    assert forall|id: u64|
        after.song.pattern_order.contains(id) <==> after.song.patterns.contains_key(id) by {
        assert(project.song.pattern_order.contains(id) <==> project.song.patterns.contains_key(id));
    }
}

/// Adding a generator that is new keeps a project well formed.
pub proof fn lemma_add_generator_wf(project: ProjectView, id: u64, name: Seq<char>)
    requires
        project.wf(),
        !project.has_generator(id),
    ensures
        project.add_instrument(id, name).wf(),
        project.add_controller(id, name).wf(),
{
    let list = project.generator_list;
    assert(!list.contains(id));
    lemma_push_members(list, id);
    let first = project.add_instrument(id, name);
    assert forall|x: u64|
        first.generator_list.contains(x) <==> (first.instruments.contains_key(x)
            || first.controllers.contains_key(x)) by {
        assert(list.contains(x) <==> (project.instruments.contains_key(x)
            || project.controllers.contains_key(x)));
    }
    let second = project.add_controller(id, name);
    assert forall|x: u64|
        second.generator_list.contains(x) <==> (second.instruments.contains_key(x)
            || second.controllers.contains_key(x)) by {
        assert(list.contains(x) <==> (project.instruments.contains_key(x)
            || project.controllers.contains_key(x)));
    }
}

/// Removing a generator keeps a project well formed.
pub proof fn lemma_remove_generator_wf(project: ProjectView, id: u64)
    requires
        project.wf(),
    ensures
        project.remove_generator(id).wf(),
{
    let after = project.remove_generator(id);
    lemma_without_members(project.generator_list, id);
    assert forall|x: u64|
        after.generator_list.contains(x) <==> (after.instruments.contains_key(x)
            || after.controllers.contains_key(x)) by {
        assert(project.generator_list.contains(x) <==> (project.instruments.contains_key(x)
            || project.controllers.contains_key(x)));
    }
}

/// A command that executes cleanly on a well-formed project can be executed
/// on it and leaves it well formed.
pub proof fn lemma_execution_keeps_wf(command: CommandView, project: ProjectView)
    requires
        project.wf(),
        command.executes_cleanly(project),
    ensures
        command.can_execute(project),
        command.executed(project).wf(),
    decreases command,
{
    match command {
        CommandView::AddPattern { pattern, index, .. } => {
            lemma_add_pattern_wf(project, pattern, index);
        },
        CommandView::DeletePattern { pattern, index, .. } => {
            lemma_delete_pattern_wf(project, pattern.id);
        },
        CommandView::AddNote { pattern_id, generator_id, note, .. } => {
            lemma_with_notes_wf(
                project,
                pattern_id,
                generator_id,
                project.notes(pattern_id, generator_id).push(note),
            );
        },
        CommandView::DeleteNote { pattern_id, generator_id, note, .. } => {
            lemma_with_notes_wf(
                project,
                pattern_id,
                generator_id,
                without_note(project.notes(pattern_id, generator_id), note.id),
            );
        },
        CommandView::MoveNote {
            pattern_id,
            generator_id,
            note_id,
            old_offset,
            new_offset,
            ..
        } => {
            lemma_with_notes_wf(
                project,
                pattern_id,
                generator_id,
                with_offset(project.notes(pattern_id, generator_id), note_id, new_offset),
            );
        },
        CommandView::ResizeNote {
            pattern_id,
            generator_id,
            note_id,
            old_length,
            new_length,
            ..
        } => {
            lemma_with_notes_wf(
                project,
                pattern_id,
                generator_id,
                with_length(project.notes(pattern_id, generator_id), note_id, new_length),
            );
        },
        CommandView::AddInstrument { id, name } => {
            lemma_add_generator_wf(project, id, name);
        },
        CommandView::AddController { id, name } => {
            lemma_add_generator_wf(project, id, name);
        },
        CommandView::JournalPage(commands) => {
            lemma_execution_keeps_wf_all(commands, project);
        },
    }
}

/// Commands that execute cleanly one after the other on a well-formed project
/// can be executed on it and leave it well formed.
pub proof fn lemma_execution_keeps_wf_all(commands: Seq<CommandView>, project: ProjectView)
    requires
        project.wf(),
        execute_cleanly_all(commands, project),
    ensures
        can_execute_all(commands, project),
        executed_all(commands, project).wf(),
    decreases commands,
{
    if commands.len() > 0 {
        lemma_execution_keeps_wf_all(commands.drop_last(), project);
        lemma_execution_keeps_wf(commands.last(), executed_all(commands.drop_last(), project));
    }
}

/// A command that rolls back cleanly on a well-formed project can be rolled
/// back on it and leaves it well formed.
pub proof fn lemma_rollback_keeps_wf(command: CommandView, project: ProjectView)
    requires
        project.wf(),
        command.rolls_back_cleanly(project),
    ensures
        command.can_rollback(project),
        command.rolled_back(project).wf(),
    decreases command,
{
    match command {
        CommandView::AddPattern { pattern, index, .. } => {
            lemma_delete_pattern_wf(project, pattern.id);
        },
        CommandView::DeletePattern { pattern, index, .. } => {
            lemma_add_pattern_wf(project, pattern, index);
        },
        CommandView::AddNote { pattern_id, generator_id, note, creates_list, .. } => {
            if creates_list {
                lemma_without_note_list_wf(project, pattern_id, generator_id);
            } else {
                lemma_with_notes_wf(
                    project,
                    pattern_id,
                    generator_id,
                    without_note(project.notes(pattern_id, generator_id), note.id),
                );
            }
        },
        CommandView::DeleteNote { pattern_id, generator_id, note, index, .. } => {
            lemma_with_notes_wf(
                project,
                pattern_id,
                generator_id,
                project.notes(pattern_id, generator_id).insert(index, note),
            );
        },
        CommandView::MoveNote {
            pattern_id,
            generator_id,
            note_id,
            old_offset,
            new_offset,
            ..
        } => {
            lemma_with_notes_wf(
                project,
                pattern_id,
                generator_id,
                with_offset(project.notes(pattern_id, generator_id), note_id, old_offset),
            );
        },
        CommandView::ResizeNote {
            pattern_id,
            generator_id,
            note_id,
            old_length,
            new_length,
            ..
        } => {
            lemma_with_notes_wf(
                project,
                pattern_id,
                generator_id,
                with_length(project.notes(pattern_id, generator_id), note_id, old_length),
            );
        },
        CommandView::AddInstrument { id, name } => {
            lemma_remove_generator_wf(project, id);
        },
        CommandView::AddController { id, name } => {
            lemma_remove_generator_wf(project, id);
        },
        CommandView::JournalPage(commands) => {
            lemma_rollback_keeps_wf_all(commands, project);
        },
    }
}

/// Commands that roll back cleanly one after the other, last to first, on a
/// well-formed project can be rolled back on it and leave it well formed.
pub proof fn lemma_rollback_keeps_wf_all(commands: Seq<CommandView>, project: ProjectView)
    requires
        project.wf(),
        roll_back_cleanly_all(commands, project),
    ensures
        can_rollback_all(commands, project),
        rolled_back_all(commands, project).wf(),
    decreases commands,
{
    if commands.len() > 0 {
        lemma_rollback_keeps_wf(commands.last(), project);
        lemma_rollback_keeps_wf_all(commands.drop_last(), commands.last().rolled_back(project));
    }
}

/// Deleting a pattern right after adding it, where it was new, gives the
/// project back.
pub proof fn lemma_add_then_delete_pattern(project: ProjectView, pattern: PatternView, index: int)
    requires
        project.wf(),
        0 <= index <= project.song.pattern_order.len(),
        !project.has_pattern(pattern.id),
    ensures
        project.add_pattern(pattern, index).delete_pattern(pattern.id) == project,
{
    let back = project.add_pattern(pattern, index).delete_pattern(pattern.id);
    assert(!project.song.pattern_order.contains(pattern.id));
    lemma_insert_then_without(project.song.pattern_order, index, pattern.id);
    assert(back.song.patterns =~= project.song.patterns);
}

/// Adding a pattern back right after deleting it, as it was and where it
/// stood in the display order, gives the project back.
pub proof fn lemma_delete_then_add_pattern(project: ProjectView, pattern: PatternView, index: int)
    requires
        project.wf(),
        project.has_pattern(pattern.id),
        project.song.patterns[pattern.id] == pattern,
        0 <= index < project.song.pattern_order.len(),
        project.song.pattern_order[index] == pattern.id,
    ensures
        index <= project.delete_pattern(pattern.id).song.pattern_order.len(),
        !project.delete_pattern(pattern.id).has_pattern(pattern.id),
        project.delete_pattern(pattern.id).add_pattern(pattern, index) == project,
{
    let back = project.delete_pattern(pattern.id).add_pattern(pattern, index);
    lemma_without_then_insert(project.song.pattern_order, index, pattern.id);
    assert(back.song.patterns =~= project.song.patterns);
}

/// Removing the notes of an identifier right after adding a note of that
/// identifier to a list that held none gives the project back.
pub proof fn lemma_add_then_remove_note(
    project: ProjectView,
    pattern_id: u64,
    generator_id: u64,
    note: Note,
)
    requires
        project.wf(),
        project.has_note_list(pattern_id, generator_id),
        !has_note(project.notes(pattern_id, generator_id), note.id),
    ensures
        project.add_note(pattern_id, generator_id, note).has_note_list(pattern_id, generator_id),
        project.add_note(pattern_id, generator_id, note).remove_note(
            pattern_id,
            generator_id,
            note.id,
        ) == project,
{
    let notes = project.notes(pattern_id, generator_id);
    lemma_with_notes_wf(project, pattern_id, generator_id, notes.push(note));
    lemma_push_then_without_note(notes, note);
    lemma_with_same_notes(project, pattern_id, generator_id, notes.push(note));
}

/// Taking away the note list that the addition of a note made gives the
/// project back, where the generator had no list before.
pub proof fn lemma_add_note_then_remove_list(
    project: ProjectView,
    pattern_id: u64,
    generator_id: u64,
    note: Note,
)
    requires
        project.has_pattern(pattern_id),
        !project.has_note_list(pattern_id, generator_id),
    ensures
        project.add_note(pattern_id, generator_id, note).has_note_list(pattern_id, generator_id),
        holds_only(
            project.add_note(pattern_id, generator_id, note).notes(pattern_id, generator_id),
            note.id,
        ),
        project.add_note(pattern_id, generator_id, note).without_note_list(
            pattern_id,
            generator_id,
        ) == project,
{
    let pattern = project.song.patterns[pattern_id];
    let after = project.add_note(pattern_id, generator_id, note);
    let back = after.without_note_list(pattern_id, generator_id);
    assert(after.notes(pattern_id, generator_id) =~= seq![note]);
    assert(back.song.patterns[pattern_id].generator_notes =~= pattern.generator_notes);
    assert(back.song.patterns[pattern_id] == pattern);
    assert(back.song.patterns =~= project.song.patterns);
}

/// Putting a note back at its index right after removing the notes of its
/// identifier gives the project back, where the note stood at that index
/// alone with its identifier.
pub proof fn lemma_remove_then_insert_note(
    project: ProjectView,
    pattern_id: u64,
    generator_id: u64,
    note: Note,
    index: int,
)
    requires
        project.wf(),
        project.has_note_list(pattern_id, generator_id),
        stands_alone_at(project.notes(pattern_id, generator_id), index, note),
    ensures
        project.remove_note(pattern_id, generator_id, note.id).has_pattern(pattern_id),
        0 <= index <= project.remove_note(pattern_id, generator_id, note.id).notes(
            pattern_id,
            generator_id,
        ).len(),
        project.remove_note(pattern_id, generator_id, note.id).insert_note(
            pattern_id,
            generator_id,
            index,
            note,
        ) == project,
{
    let notes = project.notes(pattern_id, generator_id);
    lemma_with_notes_wf(project, pattern_id, generator_id, without_note(notes, note.id));
    lemma_without_then_insert_note(notes, index, note);
    lemma_with_same_notes(project, pattern_id, generator_id, without_note(notes, note.id));
}

/// Moving a note and then moving it back to the offset it had gives the
/// project back.
pub proof fn lemma_move_there_and_back(
    project: ProjectView,
    pattern_id: u64,
    generator_id: u64,
    note_id: u64,
    old_offset: u64,
    new_offset: u64,
)
    requires
        project.wf(),
        project.has_note_list(pattern_id, generator_id),
        has_note(project.notes(pattern_id, generator_id), note_id),
        project.notes(pattern_id, generator_id)[note_position(
            project.notes(pattern_id, generator_id),
            note_id,
        )].offset == old_offset,
    ensures
        project.move_note(pattern_id, generator_id, note_id, new_offset).has_note_list(
            pattern_id,
            generator_id,
        ),
        has_note(
            project.move_note(pattern_id, generator_id, note_id, new_offset).notes(
                pattern_id,
                generator_id,
            ),
            note_id,
        ),
        project.move_note(pattern_id, generator_id, note_id, new_offset).move_note(
            pattern_id,
            generator_id,
            note_id,
            old_offset,
        ) == project,
{
    let notes = project.notes(pattern_id, generator_id);
    let moved = with_offset(notes, note_id, new_offset);
    lemma_with_notes_wf(project, pattern_id, generator_id, moved);
    lemma_offset_there_and_back(notes, note_id, old_offset, new_offset);
    lemma_with_same_notes(project, pattern_id, generator_id, moved);
}

/// Resizing a note and then giving it back the length it had gives the
/// project back.
pub proof fn lemma_resize_there_and_back(
    project: ProjectView,
    pattern_id: u64,
    generator_id: u64,
    note_id: u64,
    old_length: u64,
    new_length: u64,
)
    requires
        project.wf(),
        project.has_note_list(pattern_id, generator_id),
        has_note(project.notes(pattern_id, generator_id), note_id),
        project.notes(pattern_id, generator_id)[note_position(
            project.notes(pattern_id, generator_id),
            note_id,
        )].length == old_length,
    ensures
        project.resize_note(pattern_id, generator_id, note_id, new_length).has_note_list(
            pattern_id,
            generator_id,
        ),
        has_note(
            project.resize_note(pattern_id, generator_id, note_id, new_length).notes(
                pattern_id,
                generator_id,
            ),
            note_id,
        ),
        project.resize_note(pattern_id, generator_id, note_id, new_length).resize_note(
            pattern_id,
            generator_id,
            note_id,
            old_length,
        ) == project,
{
    let notes = project.notes(pattern_id, generator_id);
    let resized = with_length(notes, note_id, new_length);
    lemma_with_notes_wf(project, pattern_id, generator_id, resized);
    lemma_length_there_and_back(notes, note_id, old_length, new_length);
    lemma_with_same_notes(project, pattern_id, generator_id, resized);
}

/// Removing an instrument right after adding it gives the project back,
/// where neither the generator list nor a registry held its identifier.
proof fn lemma_add_then_remove_instrument(project: ProjectView, id: u64, name: Seq<char>)
    requires
        !project.generator_list.contains(id),
        !project.instruments.contains_key(id),
        !project.controllers.contains_key(id),
    ensures
        project.add_instrument(id, name).remove_generator(id) == project,
{
    lemma_push_then_without(project.generator_list, id);
    let back = project.add_instrument(id, name).remove_generator(id);
    assert(back.instruments =~= project.instruments);
    assert(back.controllers =~= project.controllers);
}

/// Removing a controller right after adding it gives the project back,
/// where neither the generator list nor a registry held its identifier.
proof fn lemma_add_then_remove_controller(project: ProjectView, id: u64, name: Seq<char>)
    requires
        !project.generator_list.contains(id),
        !project.instruments.contains_key(id),
        !project.controllers.contains_key(id),
    ensures
        project.add_controller(id, name).remove_generator(id) == project,
{
    lemma_push_then_without(project.generator_list, id);
    let back = project.add_controller(id, name).remove_generator(id);
    assert(back.instruments =~= project.instruments);
    assert(back.controllers =~= project.controllers);
}

/// Removing a generator right after adding it, where it was new, gives the
/// project back.
pub proof fn lemma_add_then_remove_generator(project: ProjectView, id: u64, name: Seq<char>)
    requires
        project.wf(),
        !project.has_generator(id),
    ensures
        project.add_instrument(id, name).remove_generator(id) == project,
        project.add_controller(id, name).remove_generator(id) == project,
{
    assert(!project.generator_list.contains(id));
    lemma_add_then_remove_instrument(project, id, name);
    lemma_add_then_remove_controller(project, id, name);
}

/// The round trip of undo: on a well-formed project on which the command is
/// reversible, the command executes cleanly, it can then be rolled back
/// cleanly, and the rollback gives back the project as it was, field for
/// field and with every list in its order.
pub proof fn lemma_rollback_undoes_execute(command: CommandView, project: ProjectView)
    requires
        project.wf(),
        command.reversible_on(project),
    ensures
        command.executes_cleanly(project),
        command.rolls_back_cleanly(command.executed(project)),
        command.rolled_back(command.executed(project)) == project,
    decreases command,
{
    match command {
        CommandView::AddPattern { pattern, index, .. } => {
            lemma_add_then_delete_pattern(project, pattern, index);
        },
        CommandView::DeletePattern { pattern, index, .. } => {
            lemma_delete_then_add_pattern(project, pattern, index);
        },
        CommandView::AddNote { pattern_id, generator_id, note, creates_list, .. } => {
            if creates_list {
                lemma_add_note_then_remove_list(project, pattern_id, generator_id, note);
            } else {
                lemma_add_then_remove_note(project, pattern_id, generator_id, note);
            }
        },
        CommandView::DeleteNote { pattern_id, generator_id, note, index, .. } => {
            lemma_remove_then_insert_note(project, pattern_id, generator_id, note, index);
        },
        CommandView::MoveNote {
            pattern_id,
            generator_id,
            note_id,
            old_offset,
            new_offset,
            ..
        } => {
            lemma_move_there_and_back(
                project,
                pattern_id,
                generator_id,
                note_id,
                old_offset,
                new_offset,
            );
        },
        CommandView::ResizeNote {
            pattern_id,
            generator_id,
            note_id,
            old_length,
            new_length,
            ..
        } => {
            lemma_resize_there_and_back(
                project,
                pattern_id,
                generator_id,
                note_id,
                old_length,
                new_length,
            );
        },
        CommandView::AddInstrument { id, name } => {
            lemma_add_then_remove_generator(project, id, name);
        },
        CommandView::AddController { id, name } => {
            lemma_add_then_remove_generator(project, id, name);
        },
        CommandView::JournalPage(commands) => {
            lemma_rollback_undoes_execute_all(commands, project);
        },
    }
}

/// The round trip of undo for a journal page: its commands executed first to
/// last and then rolled back last to first give back the project as it was.
pub proof fn lemma_rollback_undoes_execute_all(commands: Seq<CommandView>, project: ProjectView)
    requires
        project.wf(),
        reversible_all(commands, project),
    ensures
        execute_cleanly_all(commands, project),
        roll_back_cleanly_all(commands, executed_all(commands, project)),
        rolled_back_all(commands, executed_all(commands, project)) == project,
    decreases commands,
{
    if commands.len() > 0 {
        let front = commands.drop_last();
        let middle = executed_all(front, project);
        lemma_rollback_undoes_execute_all(front, project);
        lemma_execution_keeps_wf_all(front, project);
        lemma_rollback_undoes_execute(commands.last(), middle);
    }
}

/// A list from which the notes of an identifier were removed holds no note of
/// that identifier.
pub proof fn lemma_without_note_has_none(notes: Seq<Note>, id: u64)
    ensures
        !has_note(without_note(notes, id), id),
{
    let kept = without_note(notes, id);
    crate::util::id_list::lemma_filter_contains(notes, note_id_is_not(id));
    lemma_note_position(kept, id);
    if has_note(kept, id) {
        let i = choose|i: int| 0 <= i < kept.len() && (#[trigger] kept[i]).id == id;
        assert(kept.contains(kept[i]));
    }
}

/// Where the addition of a note and its rollback give the project back, the
/// note was new in its list and the command was right about whether the
/// generator had a list.
proof fn lemma_note_round_trip_needs_new(
    project: ProjectView,
    pattern_id: u64,
    generator_id: u64,
    note: Note,
    creates_list: bool,
)
    requires
        project.wf(),
        project.has_pattern(pattern_id),
        project == if creates_list {
            project.add_note(pattern_id, generator_id, note).without_note_list(
                pattern_id,
                generator_id,
            )
        } else {
            project.add_note(pattern_id, generator_id, note).remove_note(
                pattern_id,
                generator_id,
                note.id,
            )
        },
    ensures
        creates_list == !project.has_note_list(pattern_id, generator_id),
        !has_note(project.notes(pattern_id, generator_id), note.id),
{
    let notes = project.notes(pattern_id, generator_id);
    let after = project.add_note(pattern_id, generator_id, note);
    lemma_with_notes_wf(project, pattern_id, generator_id, notes.push(note));
    if creates_list {
        let back = after.without_note_list(pattern_id, generator_id);
        assert(!back.song.patterns[pattern_id].generator_notes.contains_key(generator_id));
        lemma_note_position(notes, note.id);
    } else {
        let back = after.remove_note(pattern_id, generator_id, note.id);
        lemma_with_notes_wf(
            after,
            pattern_id,
            generator_id,
            without_note(notes.push(note), note.id),
        );
        assert(back.has_note_list(pattern_id, generator_id));
        assert(notes == without_note(notes.push(note), note.id));
        lemma_without_note_has_none(notes.push(note), note.id);
    }
}

/// Where the deletion of a note and its rollback give the project back, the
/// note stood at the index that the command holds, alone with its
/// identifier.
proof fn lemma_note_round_trip_needs_place(
    project: ProjectView,
    pattern_id: u64,
    generator_id: u64,
    note: Note,
    index: int,
)
    requires
        project.wf(),
        project.has_note_list(pattern_id, generator_id),
        0 <= index <= project.remove_note(pattern_id, generator_id, note.id).notes(
            pattern_id,
            generator_id,
        ).len(),
        project.remove_note(pattern_id, generator_id, note.id).insert_note(
            pattern_id,
            generator_id,
            index,
            note,
        ) == project,
    ensures
        stands_alone_at(project.notes(pattern_id, generator_id), index, note),
{
    let notes = project.notes(pattern_id, generator_id);
    let kept = without_note(notes, note.id);
    let after = project.remove_note(pattern_id, generator_id, note.id);
    lemma_with_notes_wf(project, pattern_id, generator_id, kept);
    lemma_with_notes_wf(after, pattern_id, generator_id, kept.insert(index, note));
    assert(notes == kept.insert(index, note));
    lemma_without_note_has_none(notes, note.id);
    lemma_note_position(kept, note.id);
    assert forall|i: int| 0 <= i < notes.len() && i != index implies (#[trigger] notes[i]).id
        != note.id by {
        if i < index {
            assert(notes[i] == kept[i]);
        } else {
            assert(notes[i] == kept[i - 1]);
        }
    }
}

/// The condition of the round trip leaves out no command that is not a
/// journal page: where such a command can be executed on a well-formed
/// project, can then be rolled back, and the rollback gives the project back,
/// the command is reversible on the project.
pub proof fn lemma_round_trip_needs_reversible(command: CommandView, project: ProjectView)
    requires
        project.wf(),
        !(command is JournalPage),
        command.can_execute(project),
        command.can_rollback(command.executed(project)),
        command.rolled_back(command.executed(project)) == project,
    ensures
        command.reversible_on(project),
{
    let after = command.executed(project);
    let back = command.rolled_back(after);
    match command {
        CommandView::AddPattern { pattern, index, .. } => {
            lemma_without_members(project.song.pattern_order.insert(index, pattern.id), pattern.id);
            assert(!back.song.pattern_order.contains(pattern.id));
        },
        CommandView::DeletePattern { pattern, index, .. } => {
            assert(back.song.pattern_order[index] == pattern.id);
            assert(back.song.patterns.contains_key(pattern.id));
            assert(back.song.patterns[pattern.id] == pattern);
        },
        CommandView::AddNote { pattern_id, generator_id, note, creates_list, .. } => {
            lemma_note_round_trip_needs_new(
                project,
                pattern_id,
                generator_id,
                note,
                creates_list,
            );
        },
        CommandView::DeleteNote { pattern_id, generator_id, note, index, .. } => {
            lemma_note_round_trip_needs_place(project, pattern_id, generator_id, note, index);
        },
        CommandView::MoveNote {
            pattern_id,
            generator_id,
            note_id,
            old_offset,
            new_offset,
            ..
        } => {
            let notes = project.notes(pattern_id, generator_id);
            let moved = with_offset(notes, note_id, new_offset);
            lemma_note_position(notes, note_id);
            let index = note_position(notes, note_id);
            lemma_update_keeps_positions(
                notes,
                index,
                Note { offset: new_offset, ..notes[index] },
                note_id,
            );
            lemma_with_notes_wf(project, pattern_id, generator_id, moved);
            lemma_with_notes_wf(
                after,
                pattern_id,
                generator_id,
                with_offset(moved, note_id, old_offset),
            );
            assert(with_offset(moved, note_id, old_offset) == notes);
            assert(with_offset(moved, note_id, old_offset)[index].offset == old_offset);
        },
        CommandView::ResizeNote {
            pattern_id,
            generator_id,
            note_id,
            old_length,
            new_length,
            ..
        } => {
            let notes = project.notes(pattern_id, generator_id);
            let resized = with_length(notes, note_id, new_length);
            lemma_note_position(notes, note_id);
            let index = note_position(notes, note_id);
            lemma_update_keeps_positions(
                notes,
                index,
                Note { length: new_length, ..notes[index] },
                note_id,
            );
            lemma_with_notes_wf(project, pattern_id, generator_id, resized);
            lemma_with_notes_wf(
                after,
                pattern_id,
                generator_id,
                with_length(resized, note_id, old_length),
            );
            assert(with_length(resized, note_id, old_length) == notes);
            assert(with_length(resized, note_id, old_length)[index].length == old_length);
        },
        CommandView::AddInstrument { id, .. } => {
            lemma_without_members(project.generator_list.push(id), id);
            assert(!back.generator_list.contains(id));
        },
        CommandView::AddController { id, .. } => {
            lemma_without_members(project.generator_list.push(id), id);
            assert(!back.generator_list.contains(id));
        },
        CommandView::JournalPage(_) => {},
    }
}

/// No command changes the identifier of the project.
pub proof fn lemma_executed_keeps_id(
    command: CommandView,
    project: ProjectView,
)
    ensures
        command.executed(project).id == project.id,
        command.rolled_back(project).id == project.id,
    decreases command,
{
    match command {
        CommandView::JournalPage(commands) => {
            lemma_executed_all_keeps_id(commands, project);
        },
        _ => {},
    }
}

/// No list of commands changes the identifier of the project.
pub proof fn lemma_executed_all_keeps_id(
    commands: Seq<CommandView>,
    project: ProjectView,
)
    ensures
        executed_all(commands, project).id == project.id,
        rolled_back_all(commands, project).id == project.id,
    decreases commands,
{
    if commands.len() > 0 {
        lemma_executed_all_keeps_id(commands.drop_last(), project);
        lemma_executed_keeps_id(
            commands.last(),
            executed_all(commands.drop_last(), project),
        );
        lemma_executed_keeps_id(commands.last(), project);
        lemma_executed_all_keeps_id(commands.drop_last(), commands.last().rolled_back(project));
    }
}

} // verus!
