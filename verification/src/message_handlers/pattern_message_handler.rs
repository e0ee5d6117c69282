//! Requests on patterns and on the notes in them.

use crate::commands::command::Command;
use crate::commands::command::CommandView;
use crate::commands::pattern_commands::AddNoteCommand;
use crate::commands::pattern_commands::AddPatternCommand;
use crate::commands::pattern_commands::DeleteNoteCommand;
use crate::commands::pattern_commands::DeletePatternCommand;
use crate::commands::pattern_commands::MoveNoteCommand;
use crate::commands::pattern_commands::ResizeNoteCommand;
use crate::model::note::has_note;
use crate::model::note::note_position;
use crate::model::note::Note;
use crate::model::note_json::note_of_json;
use crate::model::note_json::parse_note;
use crate::model::pattern::Pattern;
use crate::model::pattern::PatternView;
use crate::model::reply::Reply;
use crate::model::store::result_view;
use crate::model::store::DispatchError;
use crate::model::store::FreshIds;
use crate::model::store::Msg;
use crate::model::store::Outcome;
use crate::model::store::Store;
use crate::model::store::StoreView;
use crate::util::execute_and_push::execute_and_push;
use crate::util::id_list::find_id;
use crate::util::id_list::position_of;
use vstd::prelude::*;

verus! {

broadcast use vstd::std_specs::hash::group_hash_axioms;

impl StoreView {
    /// Whether the project is open and holds such a note in the list of the
    /// generator in the pattern.
    pub open spec fn has_note(
        self,
        project_id: u64,
        pattern_id: u64,
        generator_id: u64,
        note_id: u64,
    ) -> bool {
        &&& self.has_project(project_id)
        &&& self.projects[project_id].has_note_list(pattern_id, generator_id)
        &&& has_note(self.projects[project_id].notes(pattern_id, generator_id), note_id)
    }

    /// The index of the first note of that identifier in the list of the
    /// generator in the pattern.
    pub open spec fn note_index(
        self,
        project_id: u64,
        pattern_id: u64,
        generator_id: u64,
        note_id: u64,
    ) -> int {
        note_position(self.projects[project_id].notes(pattern_id, generator_id), note_id)
    }

    /// The first note of that identifier in the list of the generator in the
    /// pattern.
    pub open spec fn note(
        self,
        project_id: u64,
        pattern_id: u64,
        generator_id: u64,
        note_id: u64,
    ) -> Note {
        let notes = self.projects[project_id].notes(pattern_id, generator_id);
        notes[note_position(notes, note_id)]
    }

    /// A new, empty pattern of the given name is added at the end of the
    /// display order of the project. A new identifier that is 0 or in use is
    /// turned down.
    pub open spec fn add_pattern(
        self,
        request_id: u64,
        project_id: u64,
        name: Seq<char>,
        fresh_id: u64,
    ) -> Outcome {
        if !self.has_project(project_id) {
            self.rejected(DispatchError::ReferentialIntegrityViolation)
        } else if fresh_id == 0 {
            self.rejected(DispatchError::ZeroId)
        } else if self.projects[project_id].has_pattern(fresh_id) {
            self.rejected(DispatchError::IdCollision)
        } else {
            self.execute_and_push(
                request_id,
                project_id,
                CommandView::AddPattern {
                    project_id,
                    pattern: PatternView::empty(fresh_id, name),
                    index: self.projects[project_id].song.pattern_order.len() as int,
                },
            )
        }
    }

    /// The pattern is deleted. The command holds the pattern as it is and its
    /// place in the display order.
    pub open spec fn delete_pattern(
        self,
        request_id: u64,
        project_id: u64,
        pattern_id: u64,
    ) -> Outcome {
        if !self.has_project(project_id) || !self.projects[project_id].has_pattern(pattern_id) {
            self.rejected(DispatchError::ReferentialIntegrityViolation)
        } else {
            self.execute_and_push(
                request_id,
                project_id,
                CommandView::DeletePattern {
                    project_id,
                    pattern: self.projects[project_id].song.patterns[pattern_id],
                    index: position_of(self.projects[project_id].song.pattern_order, pattern_id),
                },
            )
        }
    }

    /// The note that the request describes is added to the list of the
    /// generator in the pattern. A request that describes no note is turned
    /// down before anything else is looked at. The command holds whether the
    /// generator has no list yet.
    pub open spec fn add_note(
        self,
        request_id: u64,
        project_id: u64,
        pattern_id: u64,
        generator_id: u64,
        note: Option<Note>,
    ) -> Outcome {
        match note {
            None => self.rejected(DispatchError::MalformedNotePayload),
            Some(note) => {
                if !self.has_project(project_id) {
                    self.rejected(DispatchError::ReferentialIntegrityViolation)
                } else {
                    self.execute_and_push(
                        request_id,
                        project_id,
                        CommandView::AddNote {
                            project_id,
                            pattern_id,
                            generator_id,
                            note,
                            creates_list: !self.projects[project_id].has_note_list(
                                pattern_id,
                                generator_id,
                            ),
                        },
                    )
                }
            },
        }
    }

    /// The note is deleted. The command holds the note as it is and the index
    /// it has in its list.
    pub open spec fn delete_note(
        self,
        request_id: u64,
        project_id: u64,
        pattern_id: u64,
        generator_id: u64,
        note_id: u64,
    ) -> Outcome {
        if !self.has_note(project_id, pattern_id, generator_id, note_id) {
            self.rejected(DispatchError::ReferentialIntegrityViolation)
        } else {
            self.execute_and_push(
                request_id,
                project_id,
                CommandView::DeleteNote {
                    project_id,
                    pattern_id,
                    generator_id,
                    note: self.note(project_id, pattern_id, generator_id, note_id),
                    index: self.note_index(project_id, pattern_id, generator_id, note_id),
                },
            )
        }
    }

    /// The note is moved to a new offset. The command holds the key and the
    /// offset that the note has. A key that does not fit in eight bits is
    /// turned down before anything else is looked at.
    pub open spec fn move_note(
        self,
        request_id: u64,
        project_id: u64,
        pattern_id: u64,
        generator_id: u64,
        note_id: u64,
        new_key: u64,
        new_offset: u64,
    ) -> Outcome {
        if new_key > 255 {
            self.rejected(DispatchError::MalformedNotePayload)
        } else if !self.has_note(project_id, pattern_id, generator_id, note_id) {
            self.rejected(DispatchError::ReferentialIntegrityViolation)
        } else {
            let note = self.note(project_id, pattern_id, generator_id, note_id);
            self.execute_and_push(
                request_id,
                project_id,
                CommandView::MoveNote {
                    project_id,
                    pattern_id,
                    generator_id,
                    note_id,
                    old_key: note.key,
                    new_key: new_key as u8,
                    old_offset: note.offset,
                    new_offset,
                },
            )
        }
    }

    /// The note is given a new length. The command holds the length that the
    /// note has.
    pub open spec fn resize_note(
        self,
        request_id: u64,
        project_id: u64,
        pattern_id: u64,
        generator_id: u64,
        note_id: u64,
        new_length: u64,
    ) -> Outcome {
        if !self.has_note(project_id, pattern_id, generator_id, note_id) {
            self.rejected(DispatchError::ReferentialIntegrityViolation)
        } else {
            let note = self.note(project_id, pattern_id, generator_id, note_id);
            self.execute_and_push(
                request_id,
                project_id,
                CommandView::ResizeNote {
                    project_id,
                    pattern_id,
                    generator_id,
                    note_id,
                    old_length: note.length,
                    new_length,
                },
            )
        }
    }

    /// What a request on a pattern or a note does to the store and is answered
    /// with; nothing for a request of another kind.
    pub open spec fn pattern_message(self, request_id: u64, msg: Msg, ids: FreshIds) -> Option<
        Outcome,
    > {
        match msg {
            Msg::AddPattern(project_id, name) => Some(
                self.add_pattern(request_id, project_id, name@, ids.first),
            ),
            Msg::DeletePattern(project_id, pattern_id) => Some(
                self.delete_pattern(request_id, project_id, pattern_id),
            ),
            Msg::AddNote(project_id, pattern_id, generator_id, note_json) => Some(
                self.add_note(
                    request_id,
                    project_id,
                    pattern_id,
                    generator_id,
                    note_of_json(note_json@),
                ),
            ),
            Msg::DeleteNote(project_id, pattern_id, generator_id, note_id) => Some(
                self.delete_note(request_id, project_id, pattern_id, generator_id, note_id),
            ),
            Msg::MoveNote(project_id, pattern_id, generator_id, note_id, new_key, new_offset) => Some(
                self.move_note(
                    request_id,
                    project_id,
                    pattern_id,
                    generator_id,
                    note_id,
                    new_key,
                    new_offset,
                ),
            ),
            Msg::ResizeNote(project_id, pattern_id, generator_id, note_id, new_length) => Some(
                self.resize_note(
                    request_id,
                    project_id,
                    pattern_id,
                    generator_id,
                    note_id,
                    new_length,
                ),
            ),
            _ => None,
        }
    }
}

impl Store {
    /// The first note of that identifier in the list of the generator in the
    /// pattern of the project, with its index in the list, if all of them
    /// exist.
    pub fn find_note(
        &self,
        project_id: u64,
        pattern_id: u64,
        generator_id: u64,
        note_id: u64,
    ) -> (r: Option<(usize, Note)>)
        ensures
            r.is_some() == self@.has_note(project_id, pattern_id, generator_id, note_id),
            r.is_some() ==> r.unwrap().0 == self@.note_index(
                project_id,
                pattern_id,
                generator_id,
                note_id,
            ),
            r.is_some() ==> r.unwrap().1 == self@.note(
                project_id,
                pattern_id,
                generator_id,
                note_id,
            ),
    {
        match self.get_project(project_id) {
            Some(project) => match project.find_note_index(pattern_id, generator_id, note_id) {
                Some(index) => match project.find_note(pattern_id, generator_id, note_id) {
                    Some(note) => Some((index, note)),
                    None => None,
                },
                None => None,
            },
            None => None,
        }
    }
}

/// Handles a request on a pattern or a note: builds the command with what a
/// rollback will need, executes it on the project, and files it for undo.
/// Gives nothing back for a request of another kind.
pub fn pattern_message_handler(
    store: &mut Store,
    request_id: u64,
    msg: &Msg,
    ids: FreshIds,
) -> (r: Option<Result<Vec<Reply>, DispatchError>>)
    requires
        old(store)@.wf(),
    ensures
        final(store)@.wf(),
        match old(store)@.pattern_message(request_id, *msg, ids) {
            Some(outcome) => r.is_some() && outcome == (Outcome {
                store: final(store)@,
                result: result_view(r.unwrap()),
            }),
            None => r.is_none() && final(store)@ == old(store)@,
        },
{
    match msg {
        Msg::AddPattern(project_id, pattern_name) => {
            let index = match store.get_project(*project_id) {
                Some(project) => {
                    if ids.first == 0 {
                        return Some(Err(DispatchError::ZeroId));
                    }
                    if project.has_pattern(ids.first) {
                        return Some(Err(DispatchError::IdCollision));
                    }
                    project.song.pattern_order.len()
                },
                None => {
                    return Some(Err(DispatchError::ReferentialIntegrityViolation));
                },
            };
            let command = AddPatternCommand {
                project_id: *project_id,
                pattern: Pattern::with_id(ids.first, pattern_name.clone()),
                index,
            };
            Some(execute_and_push(store, request_id, *project_id, Command::AddPattern(command)))
        },
        Msg::DeletePattern(project_id, pattern_id) => {
            let command = match store.get_project(*project_id) {
                Some(project) => match project.song.patterns.get(pattern_id) {
                    Some(pattern) => {
                        let index = match find_id(&project.song.pattern_order, *pattern_id) {
                            Some(index) => index,
                            None => {
                                assert(project@.song.pattern_order.contains(*pattern_id));
                                return Some(Err(DispatchError::ReferentialIntegrityViolation));
                            },
                        };
                        DeletePatternCommand {
                            project_id: *project_id,
                            pattern: pattern.clone(),
                            index,
                        }
                    },
                    None => {
                        return Some(Err(DispatchError::ReferentialIntegrityViolation));
                    },
                },
                None => {
                    return Some(Err(DispatchError::ReferentialIntegrityViolation));
                },
            };
            Some(execute_and_push(store, request_id, *project_id, Command::DeletePattern(command)))
        },
        Msg::AddNote(project_id, pattern_id, instrument_id, note_json) => {
            let note = match parse_note(note_json.as_str()) {
                Some(note) => note,
                None => {
                    return Some(Err(DispatchError::MalformedNotePayload));
                },
            };
            let creates_list = match store.get_project(*project_id) {
                Some(project) => !project.has_note_list(*pattern_id, *instrument_id),
                None => {
                    return Some(Err(DispatchError::ReferentialIntegrityViolation));
                },
            };
            let command = AddNoteCommand {
                project_id: *project_id,
                pattern_id: *pattern_id,
                generator_id: *instrument_id,
                note,
                creates_list,
            };
            Some(execute_and_push(store, request_id, *project_id, Command::AddNote(command)))
        },
        Msg::DeleteNote(project_id, pattern_id, instrument_id, note_id) => {
            let (index, note) = match store.find_note(
                *project_id,
                *pattern_id,
                *instrument_id,
                *note_id,
            ) {
                Some(found) => found,
                None => {
                    return Some(Err(DispatchError::ReferentialIntegrityViolation));
                },
            };
            let command = DeleteNoteCommand {
                project_id: *project_id,
                pattern_id: *pattern_id,
                generator_id: *instrument_id,
                note,
                index,
            };
            Some(execute_and_push(store, request_id, *project_id, Command::DeleteNote(command)))
        },
        Msg::MoveNote(project_id, pattern_id, instrument_id, note_id, new_key, new_offset) => {
            if *new_key > 255 {
                return Some(Err(DispatchError::MalformedNotePayload));
            }
            let note = match store.find_note(*project_id, *pattern_id, *instrument_id, *note_id) {
                Some(found) => found.1,
                None => {
                    return Some(Err(DispatchError::ReferentialIntegrityViolation));
                },
            };
            let command = MoveNoteCommand {
                project_id: *project_id,
                pattern_id: *pattern_id,
                generator_id: *instrument_id,
                note_id: *note_id,
                old_key: note.key,
                new_key: *new_key as u8,
                old_offset: note.offset,
                new_offset: *new_offset,
            };
            Some(execute_and_push(store, request_id, *project_id, Command::MoveNote(command)))
        },
        Msg::ResizeNote(project_id, pattern_id, instrument_id, note_id, new_length) => {
            let note = match store.find_note(*project_id, *pattern_id, *instrument_id, *note_id) {
                Some(found) => found.1,
                None => {
                    return Some(Err(DispatchError::ReferentialIntegrityViolation));
                },
            };
            let command = ResizeNoteCommand {
                project_id: *project_id,
                pattern_id: *pattern_id,
                generator_id: *instrument_id,
                note_id: *note_id,
                old_length: note.length,
                new_length: *new_length,
            };
            Some(execute_and_push(store, request_id, *project_id, Command::ResizeNote(command)))
        },
        _ => None,
    }
}

} // verus!
