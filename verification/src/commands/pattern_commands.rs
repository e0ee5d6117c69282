//! Commands on patterns and on the notes in them.

use crate::model::note::find_note;
use crate::model::note::has_note;
use crate::model::note::remove_note_by_id;
use crate::model::note::Note;
use crate::model::pattern::lemma_note_lists_insert;
use crate::model::pattern::note_lists;
use crate::model::pattern::GeneratorNotes;
use crate::model::pattern::Pattern;
use crate::model::project::Project;
use crate::model::project::ProjectView;
use crate::model::reply::get_note_reply;
use crate::model::reply::note_reply_text;
use crate::model::reply::reply_views;
use crate::model::reply::single_reply;
use crate::model::reply::Reply;
use crate::model::reply::ReplyView;
use crate::model::song::lemma_pattern_views_update;
use crate::util::id_list::remove_id;
use vstd::prelude::*;

verus! {

broadcast use vstd::std_specs::hash::group_hash_axioms;

/// Puts a copy of the pattern at `index` of the display order and files it
/// under its identifier.
pub fn add_pattern(project: &mut Project, pattern: &Pattern, index: usize)
    requires
        index <= old(project)@.song.pattern_order.len(),
    ensures
        final(project)@ == old(project)@.add_pattern(pattern@, index as int),
{
    let pattern = pattern.clone();
    proof {
        lemma_pattern_views_update(project.song.patterns@, pattern.id, pattern);
    }
    project.song.pattern_order.insert(index, pattern.id);
    project.song.patterns.insert(pattern.id, pattern);
}

/// Takes the pattern out of the display order and off file.
pub fn delete_pattern(project: &mut Project, pattern_id: u64)
    ensures
        final(project)@ == old(project)@.delete_pattern(pattern_id),
{
    proof {
        let pattern = arbitrary::<Pattern>();
        lemma_pattern_views_update(project.song.patterns@, pattern_id, pattern);
    }
    remove_id(&mut project.song.pattern_order, pattern_id);
    project.song.patterns.remove(&pattern_id);
}

/// Takes the notes of the generator out of the pattern, to be put back by
/// `put_notes`.
fn take_notes(project: &mut Project, pattern_id: u64, generator_id: u64) -> (notes: Vec<Note>)
    requires
        old(project)@.has_pattern(pattern_id),
    ensures
        notes@ == old(project)@.notes(pattern_id, generator_id),
        final(project)@ == old(project)@.without_note_list(pattern_id, generator_id),
{
    let found = project.song.patterns.remove(&pattern_id);
    let mut pattern = found.unwrap();
    let ghost lists = pattern.generator_notes@;
    let list = match pattern.generator_notes.remove(&generator_id) {
        Some(list) => list,
        None => GeneratorNotes::default(),
    };
    proof {
        assert(note_lists(lists.remove(generator_id)) =~= note_lists(lists).remove(generator_id));
        lemma_pattern_views_update(old(project).song.patterns@, pattern_id, pattern);
    }
    project.song.patterns.insert(pattern_id, pattern);
    list.notes
}

/// Makes `notes` the note list of the generator in the pattern.
fn put_notes(project: &mut Project, pattern_id: u64, generator_id: u64, notes: Vec<Note>)
    requires
        old(project)@.has_pattern(pattern_id),
    ensures
        final(project)@ == old(project)@.with_notes(pattern_id, generator_id, notes@),
{
    let found = project.song.patterns.remove(&pattern_id);
    let mut pattern = found.unwrap();
    let list = GeneratorNotes { notes };
    proof {
        lemma_note_lists_insert(pattern.generator_notes@, generator_id, list);
    }
    pattern.generator_notes.insert(generator_id, list);
    proof {
        lemma_pattern_views_update(old(project).song.patterns@, pattern_id, pattern);
    }
    project.song.patterns.insert(pattern_id, pattern);
}

/// Putting a note list where one was taken out is putting it where the old
/// one still stood.
proof fn lemma_take_then_put(
    project: ProjectView,
    pattern_id: u64,
    generator_id: u64,
    notes: Seq<Note>,
)
    requires
        project.has_pattern(pattern_id),
    ensures
        project.without_note_list(pattern_id, generator_id).has_pattern(pattern_id),
        project.without_note_list(pattern_id, generator_id).with_notes(
            pattern_id,
            generator_id,
            notes,
        ) == project.with_notes(pattern_id, generator_id, notes),
{
    let taken = project.without_note_list(pattern_id, generator_id);
    let lists = project.song.patterns[pattern_id].generator_notes;
    assert(lists.remove(generator_id).insert(generator_id, notes) =~= lists.insert(
        generator_id,
        notes,
    ));
    assert(taken.with_notes(pattern_id, generator_id, notes).song.patterns
        =~= project.with_notes(pattern_id, generator_id, notes).song.patterns);
}

/// Adds the note at the end of the generator's list in the pattern, and
/// creates the list where the generator has none yet. The list is not sorted.
pub fn add_note(project: &mut Project, pattern_id: u64, generator_id: u64, note: &Note)
    requires
        old(project)@.has_pattern(pattern_id),
    ensures
        final(project)@ == old(project)@.add_note(pattern_id, generator_id, *note),
{
    let mut notes = take_notes(project, pattern_id, generator_id);
    notes.push(*note);
    proof {
        lemma_take_then_put(old(project)@, pattern_id, generator_id, notes@);
    }
    put_notes(project, pattern_id, generator_id, notes);
}

/// Puts the note at `index` of the generator's list in the pattern, and
/// creates the list where the generator has none yet.
pub fn insert_note(
    project: &mut Project,
    pattern_id: u64,
    generator_id: u64,
    index: usize,
    note: &Note,
)
    requires
        old(project)@.has_pattern(pattern_id),
        index <= old(project)@.notes(pattern_id, generator_id).len(),
    ensures
        final(project)@ == old(project)@.insert_note(
            pattern_id,
            generator_id,
            index as int,
            *note,
        ),
{
    let mut notes = take_notes(project, pattern_id, generator_id);
    notes.insert(index, *note);
    proof {
        lemma_take_then_put(old(project)@, pattern_id, generator_id, notes@);
    }
    put_notes(project, pattern_id, generator_id, notes);
}

/// Takes the note list of the generator out of the pattern, notes and all.
pub fn remove_note_list(project: &mut Project, pattern_id: u64, generator_id: u64)
    requires
        old(project)@.has_pattern(pattern_id),
    ensures
        final(project)@ == old(project)@.without_note_list(pattern_id, generator_id),
{
    let _ = take_notes(project, pattern_id, generator_id);
}

/// Removes the notes of that identifier from the generator's list in the
/// pattern.
pub fn remove_note(project: &mut Project, pattern_id: u64, generator_id: u64, note_id: u64)
    requires
        old(project)@.has_note_list(pattern_id, generator_id),
    ensures
        final(project)@ == old(project)@.remove_note(pattern_id, generator_id, note_id),
{
    let mut notes = take_notes(project, pattern_id, generator_id);
    remove_note_by_id(&mut notes, note_id);
    proof {
        lemma_take_then_put(old(project)@, pattern_id, generator_id, notes@);
    }
    put_notes(project, pattern_id, generator_id, notes);
}

/// Moves the first note of that identifier in the generator's list to
/// `new_offset`.
pub fn move_note(
    project: &mut Project,
    pattern_id: u64,
    generator_id: u64,
    note_id: u64,
    new_offset: u64,
)
    requires
        old(project)@.has_note_list(pattern_id, generator_id),
        has_note(old(project)@.notes(pattern_id, generator_id), note_id),
    ensures
        final(project)@ == old(project)@.move_note(pattern_id, generator_id, note_id, new_offset),
{
    let mut notes = take_notes(project, pattern_id, generator_id);
    let index = find_note(&notes, note_id).unwrap();
    let moved = Note { offset: new_offset, ..notes[index] };
    notes[index] = moved;
    proof {
        lemma_take_then_put(old(project)@, pattern_id, generator_id, notes@);
    }
    put_notes(project, pattern_id, generator_id, notes);
}

/// Gives the first note of that identifier in the generator's list the length
/// `new_length`.
pub fn resize_note(
    project: &mut Project,
    pattern_id: u64,
    generator_id: u64,
    note_id: u64,
    new_length: u64,
)
    requires
        old(project)@.has_note_list(pattern_id, generator_id),
        has_note(old(project)@.notes(pattern_id, generator_id), note_id),
    ensures
        final(project)@ == old(project)@.resize_note(
            pattern_id,
            generator_id,
            note_id,
            new_length,
        ),
{
    let mut notes = take_notes(project, pattern_id, generator_id);
    let index = find_note(&notes, note_id).unwrap();
    let resized = Note { length: new_length, ..notes[index] };
    notes[index] = resized;
    proof {
        lemma_take_then_put(old(project)@, pattern_id, generator_id, notes@);
    }
    put_notes(project, pattern_id, generator_id, notes);
}

/// Adds a pattern to a project at a place of the display order.
#[derive(Clone, Debug, PartialEq, Eq)]
pub struct AddPatternCommand {
    pub project_id: u64,
    pub pattern: Pattern,
    pub index: usize,
}

impl AddPatternCommand {
    /// Puts the pattern at `index` of the display order and on file.
    pub fn execute(&self, project: &mut Project, request_id: u64) -> (replies: Vec<Reply>)
        requires
            self.index <= old(project)@.song.pattern_order.len(),
        ensures
            final(project)@ == old(project)@.add_pattern(self.pattern@, self.index as int),
            reply_views(replies@) == seq![ReplyView::PatternAdded(request_id)],
    {
        add_pattern(project, &self.pattern, self.index);
        single_reply(Reply::PatternAdded(request_id))
    }

    /// Takes the pattern out of the display order and off file.
    pub fn rollback(&self, project: &mut Project, request_id: u64) -> (replies: Vec<Reply>)
        ensures
            final(project)@ == old(project)@.delete_pattern(self.pattern.id),
            reply_views(replies@) == seq![ReplyView::PatternDeleted(request_id)],
    {
        delete_pattern(project, self.pattern.id);
        single_reply(Reply::PatternDeleted(request_id))
    }
}

/// Deletes a pattern from a project. The command holds the pattern as it was
/// and the place it had in the display order, both taken before the command
/// is executed, so that a rollback can put it back there.
#[derive(Clone, Debug, PartialEq, Eq)]
pub struct DeletePatternCommand {
    pub project_id: u64,
    pub pattern: Pattern,
    pub index: usize,
}

impl DeletePatternCommand {
    /// Takes the pattern out of the display order and off file.
    pub fn execute(&self, project: &mut Project, request_id: u64) -> (replies: Vec<Reply>)
        ensures
            final(project)@ == old(project)@.delete_pattern(self.pattern.id),
            reply_views(replies@) == seq![ReplyView::PatternDeleted(request_id)],
    {
        delete_pattern(project, self.pattern.id);
        single_reply(Reply::PatternDeleted(request_id))
    }

    /// Puts the pattern back at `index` of the display order and on file.
    pub fn rollback(&self, project: &mut Project, request_id: u64) -> (replies: Vec<Reply>)
        requires
            self.index <= old(project)@.song.pattern_order.len(),
        ensures
            final(project)@ == old(project)@.add_pattern(self.pattern@, self.index as int),
            reply_views(replies@) == seq![ReplyView::PatternAdded(request_id)],
    {
        add_pattern(project, &self.pattern, self.index);
        single_reply(Reply::PatternAdded(request_id))
    }
}

/// Adds a note to the list of a generator in a pattern. The command holds
/// whether the generator has no list yet, taken before the command is
/// executed, so that a rollback can take away the list that the execution
/// makes.
#[derive(Clone, Debug, PartialEq, Eq)]
pub struct AddNoteCommand {
    pub project_id: u64,
    pub pattern_id: u64,
    pub generator_id: u64,
    pub note: Note,
    /// Whether the execution makes the list of the generator.
    pub creates_list: bool,
}

impl AddNoteCommand {
    /// Adds the note at the end of the list, creating the list if need be.
    pub fn execute(&self, project: &mut Project, request_id: u64) -> (replies: Vec<Reply>)
        requires
            old(project)@.has_pattern(self.pattern_id),
        ensures
            final(project)@ == old(project)@.add_note(
                self.pattern_id,
                self.generator_id,
                self.note,
            ),
            reply_views(replies@) == seq![
                ReplyView::NoteAdded(
                    request_id,
                    note_reply_text(self.pattern_id, self.generator_id),
                ),
            ],
    {
        add_note(project, self.pattern_id, self.generator_id, &self.note);
        single_reply(Reply::NoteAdded(request_id, get_note_reply(self.pattern_id, self.generator_id)))
    }

    /// Takes the list away where the execution made it; else removes from it
    /// the notes that have the identifier of the note.
    pub fn rollback(&self, project: &mut Project, request_id: u64) -> (replies: Vec<Reply>)
        requires
            old(project)@.has_pattern(self.pattern_id),
            !self.creates_list ==> old(project)@.has_note_list(self.pattern_id, self.generator_id),
        ensures
            final(project)@ == if self.creates_list {
                old(project)@.without_note_list(self.pattern_id, self.generator_id)
            } else {
                old(project)@.remove_note(self.pattern_id, self.generator_id, self.note.id)
            },
            reply_views(replies@) == seq![
                ReplyView::NoteDeleted(
                    request_id,
                    note_reply_text(self.pattern_id, self.generator_id),
                ),
            ],
    {
        if self.creates_list {
            remove_note_list(project, self.pattern_id, self.generator_id);
        } else {
            remove_note(project, self.pattern_id, self.generator_id, self.note.id);
        }
        single_reply(
            Reply::NoteDeleted(request_id, get_note_reply(self.pattern_id, self.generator_id)),
        )
    }
}

/// Deletes a note from the list of a generator in a pattern. The command
/// holds the note as it was and the index it had in the list, both taken
/// before the command is executed, so that a rollback can put it back there.
#[derive(Clone, Debug, PartialEq, Eq)]
pub struct DeleteNoteCommand {
    pub project_id: u64,
    pub pattern_id: u64,
    pub generator_id: u64,
    pub note: Note,
    pub index: usize,
}

impl DeleteNoteCommand {
    /// Removes the notes that have the identifier of the note.
    pub fn execute(&self, project: &mut Project, request_id: u64) -> (replies: Vec<Reply>)
        requires
            old(project)@.has_note_list(self.pattern_id, self.generator_id),
        ensures
            final(project)@ == old(project)@.remove_note(
                self.pattern_id,
                self.generator_id,
                self.note.id,
            ),
            reply_views(replies@) == seq![
                ReplyView::NoteDeleted(
                    request_id,
                    note_reply_text(self.pattern_id, self.generator_id),
                ),
            ],
    {
        remove_note(project, self.pattern_id, self.generator_id, self.note.id);
        single_reply(
            Reply::NoteDeleted(request_id, get_note_reply(self.pattern_id, self.generator_id)),
        )
    }

    /// Puts the note back at `index` of the list.
    pub fn rollback(&self, project: &mut Project, request_id: u64) -> (replies: Vec<Reply>)
        requires
            old(project)@.has_pattern(self.pattern_id),
            self.index <= old(project)@.notes(self.pattern_id, self.generator_id).len(),
        ensures
            final(project)@ == old(project)@.insert_note(
                self.pattern_id,
                self.generator_id,
                self.index as int,
                self.note,
            ),
            reply_views(replies@) == seq![
                ReplyView::NoteAdded(
                    request_id,
                    note_reply_text(self.pattern_id, self.generator_id),
                ),
            ],
    {
        insert_note(project, self.pattern_id, self.generator_id, self.index, &self.note);
        single_reply(Reply::NoteAdded(request_id, get_note_reply(self.pattern_id, self.generator_id)))
    }
}

/// Moves a note in time. The command holds the offset before and after, and
/// the key before and after for the front end; only the offset is applied.
#[derive(Clone, Debug, PartialEq, Eq)]
pub struct MoveNoteCommand {
    pub project_id: u64,
    pub pattern_id: u64,
    pub generator_id: u64,
    pub note_id: u64,
    pub old_key: u8,
    pub new_key: u8,
    pub old_offset: u64,
    pub new_offset: u64,
}

impl MoveNoteCommand {
    /// Sets the offset of the note to `new_offset`.
    pub fn execute(&self, project: &mut Project, request_id: u64) -> (replies: Vec<Reply>)
        requires
            old(project)@.has_note_list(self.pattern_id, self.generator_id),
            has_note(old(project)@.notes(self.pattern_id, self.generator_id), self.note_id),
        ensures
            final(project)@ == old(project)@.move_note(
                self.pattern_id,
                self.generator_id,
                self.note_id,
                self.new_offset,
            ),
            reply_views(replies@) == seq![
                ReplyView::NoteMoved(
                    request_id,
                    note_reply_text(self.pattern_id, self.generator_id),
                ),
            ],
    {
        move_note(project, self.pattern_id, self.generator_id, self.note_id, self.new_offset);
        single_reply(Reply::NoteMoved(request_id, get_note_reply(self.pattern_id, self.generator_id)))
    }

    /// Sets the offset of the note back to `old_offset`.
    pub fn rollback(&self, project: &mut Project, request_id: u64) -> (replies: Vec<Reply>)
        requires
            old(project)@.has_note_list(self.pattern_id, self.generator_id),
            has_note(old(project)@.notes(self.pattern_id, self.generator_id), self.note_id),
        ensures
            final(project)@ == old(project)@.move_note(
                self.pattern_id,
                self.generator_id,
                self.note_id,
                self.old_offset,
            ),
            reply_views(replies@) == seq![
                ReplyView::NoteMoved(
                    request_id,
                    note_reply_text(self.pattern_id, self.generator_id),
                ),
            ],
    {
        move_note(project, self.pattern_id, self.generator_id, self.note_id, self.old_offset);
        single_reply(Reply::NoteMoved(request_id, get_note_reply(self.pattern_id, self.generator_id)))
    }
}

/// Changes the length of a note. The command holds the length before and
/// after.
#[derive(Clone, Debug, PartialEq, Eq)]
pub struct ResizeNoteCommand {
    pub project_id: u64,
    pub pattern_id: u64,
    pub generator_id: u64,
    pub note_id: u64,
    pub old_length: u64,
    pub new_length: u64,
}

impl ResizeNoteCommand {
    /// Sets the length of the note to `new_length`.
    pub fn execute(&self, project: &mut Project, request_id: u64) -> (replies: Vec<Reply>)
        requires
            old(project)@.has_note_list(self.pattern_id, self.generator_id),
            has_note(old(project)@.notes(self.pattern_id, self.generator_id), self.note_id),
        ensures
            final(project)@ == old(project)@.resize_note(
                self.pattern_id,
                self.generator_id,
                self.note_id,
                self.new_length,
            ),
            reply_views(replies@) == seq![
                ReplyView::NoteResized(
                    request_id,
                    note_reply_text(self.pattern_id, self.generator_id),
                ),
            ],
    {
        resize_note(project, self.pattern_id, self.generator_id, self.note_id, self.new_length);
        single_reply(
            Reply::NoteResized(request_id, get_note_reply(self.pattern_id, self.generator_id)),
        )
    }

    /// Sets the length of the note back to `old_length`.
    pub fn rollback(&self, project: &mut Project, request_id: u64) -> (replies: Vec<Reply>)
        requires
            old(project)@.has_note_list(self.pattern_id, self.generator_id),
            has_note(old(project)@.notes(self.pattern_id, self.generator_id), self.note_id),
        ensures
            final(project)@ == old(project)@.resize_note(
                self.pattern_id,
                self.generator_id,
                self.note_id,
                self.old_length,
            ),
            reply_views(replies@) == seq![
                ReplyView::NoteResized(
                    request_id,
                    note_reply_text(self.pattern_id, self.generator_id),
                ),
            ],
    {
        resize_note(project, self.pattern_id, self.generator_id, self.note_id, self.old_length);
        single_reply(
            Reply::NoteResized(request_id, get_note_reply(self.pattern_id, self.generator_id)),
        )
    }
}

} // verus!
