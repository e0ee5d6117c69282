use anthem::commands::command::Command;
use anthem::commands::command::JournalPageCommand;
use anthem::commands::pattern_commands::add_note;
use anthem::commands::pattern_commands::add_pattern;
use anthem::commands::pattern_commands::delete_pattern;
use anthem::commands::pattern_commands::insert_note;
use anthem::commands::pattern_commands::move_note;
use anthem::commands::pattern_commands::remove_note;
use anthem::commands::pattern_commands::remove_note_list;
use anthem::commands::pattern_commands::resize_note;
use anthem::commands::pattern_commands::AddNoteCommand;
use anthem::commands::pattern_commands::AddPatternCommand;
use anthem::commands::pattern_commands::DeleteNoteCommand;
use anthem::commands::pattern_commands::DeletePatternCommand;
use anthem::commands::pattern_commands::MoveNoteCommand;
use anthem::commands::pattern_commands::ResizeNoteCommand;
use anthem::commands::project_commands::remove_generator;
use anthem::commands::project_commands::AddControllerCommand;
use anthem::commands::project_commands::AddInstrumentCommand;
use anthem::model::note::Note;
use anthem::model::pattern::Pattern;
use anthem::model::project::Project;
use anthem::model::reply::Reply;

fn note(id: u64, offset: u64) -> Note {
    Note { id, key: 60, length: 96, offset, velocity: 100 }
}

fn note_text(pattern_id: u64, generator_id: u64) -> String {
    format!("{{ \"patternID\":{},\"generatorID\":{} }}", pattern_id, generator_id)
}

/// A project with the patterns 10, 20, 30 in that order, the instrument 5 and
/// the controller 6, and in pattern 10 the notes 1, 2, 3 of instrument 5.
fn sample_project() -> Project {
    let mut project = Project::with_ids(1, 2);
    add_pattern(&mut project, &Pattern::with_id(10, "Intro".to_string()), 0);
    add_pattern(&mut project, &Pattern::with_id(20, "Verse".to_string()), 1);
    add_pattern(&mut project, &Pattern::with_id(30, "Chorus".to_string()), 2);
    AddInstrumentCommand { id: 5, name: "Piano".to_string() }.execute(&mut project, 0);
    AddControllerCommand { id: 6, name: "Volume".to_string() }.execute(&mut project, 0);
    add_note(&mut project, 10, 5, &note(1, 0));
    add_note(&mut project, 10, 5, &note(2, 96));
    add_note(&mut project, 10, 5, &note(3, 192));
    project
}

fn notes_of(project: &Project, pattern_id: u64, generator_id: u64) -> Vec<Note> {
    project.song.patterns[&pattern_id].generator_notes[&generator_id].notes.clone()
}

#[test]
fn sample_project_is_well_formed() {
    assert!(sample_project().is_well_formed());
}

#[test]
fn add_pattern_inserts_at_index_and_files_the_pattern() {
    let mut project = sample_project();
    add_pattern(&mut project, &Pattern::with_id(15, "Bridge".to_string()), 1);
    assert_eq!(project.song.pattern_order, vec![10, 15, 20, 30]);
    assert_eq!(project.song.patterns[&15], Pattern::with_id(15, "Bridge".to_string()));
    assert!(project.is_well_formed());
}

#[test]
fn delete_pattern_removes_from_order_and_map() {
    let mut project = sample_project();
    delete_pattern(&mut project, 20);
    assert_eq!(project.song.pattern_order, vec![10, 30]);
    assert!(!project.song.patterns.contains_key(&20));
    assert!(project.is_well_formed());
}

#[test]
fn delete_pattern_of_unknown_id_changes_nothing() {
    let mut project = sample_project();
    delete_pattern(&mut project, 99);
    assert_eq!(project, sample_project());
}

#[test]
fn add_note_creates_the_list_lazily_and_appends() {
    let mut project = sample_project();
    assert!(!project.song.patterns[&20].generator_notes.contains_key(&5));
    add_note(&mut project, 20, 5, &note(7, 48));
    assert_eq!(notes_of(&project, 20, 5), vec![note(7, 48)]);
    add_note(&mut project, 20, 5, &note(8, 0));
    assert_eq!(notes_of(&project, 20, 5), vec![note(7, 48), note(8, 0)]);
}

#[test]
fn add_note_keeps_insertion_order_not_time_order() {
    let mut project = sample_project();
    add_note(&mut project, 10, 5, &note(4, 10));
    let offsets: Vec<u64> = notes_of(&project, 10, 5).iter().map(|n| n.offset).collect();
    assert_eq!(offsets, vec![0, 96, 192, 10]);
}

#[test]
fn remove_note_removes_every_note_of_that_id() {
    let mut project = sample_project();
    add_note(&mut project, 10, 5, &note(2, 500));
    remove_note(&mut project, 10, 5, 2);
    assert_eq!(notes_of(&project, 10, 5), vec![note(1, 0), note(3, 192)]);
}

#[test]
fn move_note_sets_the_offset_of_the_first_match_only() {
    let mut project = sample_project();
    add_note(&mut project, 10, 5, &note(2, 500));
    move_note(&mut project, 10, 5, 2, 7);
    assert_eq!(notes_of(&project, 10, 5), vec![note(1, 0), note(2, 7), note(3, 192), note(2, 500)]);
}

#[test]
fn resize_note_sets_the_length() {
    let mut project = sample_project();
    resize_note(&mut project, 10, 5, 3, 12);
    let expected = Note { id: 3, key: 60, length: 12, offset: 192, velocity: 100 };
    assert_eq!(notes_of(&project, 10, 5), vec![note(1, 0), note(2, 96), expected]);
}

#[test]
fn remove_generator_removes_from_list_and_both_registries() {
    let mut project = sample_project();
    remove_generator(&mut project, 5);
    assert_eq!(project.generator_list, vec![6]);
    assert!(!project.instruments.contains_key(&5));
    remove_generator(&mut project, 6);
    assert!(project.generator_list.is_empty());
    assert!(!project.controllers.contains_key(&6));
    assert!(project.is_well_formed());
}

#[test]
fn add_pattern_command_round_trip() {
    let mut project = sample_project();
    let command = Command::AddPattern(AddPatternCommand {
        project_id: 1,
        pattern: Pattern::with_id(40, "Outro".to_string()),
        index: 3,
    });
    let replies = command.execute(&mut project, 11);
    assert_eq!(replies, vec![Reply::PatternAdded(11)]);
    assert_eq!(project.song.pattern_order, vec![10, 20, 30, 40]);
    let replies = command.rollback(&mut project, 12);
    assert_eq!(replies, vec![Reply::PatternDeleted(12)]);
    assert_eq!(project, sample_project());
}

#[test]
fn delete_pattern_command_round_trip_restores_position_and_notes() {
    let mut project = sample_project();
    let command = Command::DeletePattern(DeletePatternCommand {
        project_id: 1,
        pattern: project.song.patterns[&10].clone(),
        index: 0,
    });
    let replies = command.execute(&mut project, 11);
    assert_eq!(replies, vec![Reply::PatternDeleted(11)]);
    assert_eq!(project.song.pattern_order, vec![20, 30]);
    let replies = command.rollback(&mut project, 12);
    assert_eq!(replies, vec![Reply::PatternAdded(12)]);
    assert_eq!(project, sample_project());
}

#[test]
fn add_note_command_round_trip_on_existing_list() {
    let mut project = sample_project();
    let command = Command::AddNote(AddNoteCommand {
        project_id: 1,
        pattern_id: 10,
        generator_id: 5,
        note: note(4, 300),
        creates_list: false,
    });
    let replies = command.execute(&mut project, 11);
    assert_eq!(replies, vec![Reply::NoteAdded(11, note_text(10, 5))]);
    assert_eq!(notes_of(&project, 10, 5).len(), 4);
    let replies = command.rollback(&mut project, 12);
    assert_eq!(replies, vec![Reply::NoteDeleted(12, note_text(10, 5))]);
    assert_eq!(project, sample_project());
}

#[test]
fn add_note_command_round_trip_where_it_creates_the_list() {
    let mut project = sample_project();
    let command = Command::AddNote(AddNoteCommand {
        project_id: 1,
        pattern_id: 20,
        generator_id: 5,
        note: note(4, 300),
        creates_list: true,
    });
    command.execute(&mut project, 11);
    assert_eq!(notes_of(&project, 20, 5), vec![note(4, 300)]);
    let replies = command.rollback(&mut project, 12);
    assert_eq!(replies, vec![Reply::NoteDeleted(12, note_text(20, 5))]);
    assert!(!project.song.patterns[&20].generator_notes.contains_key(&5));
    assert_eq!(project, sample_project());
}

#[test]
fn add_note_command_is_turned_down_where_it_is_wrong_about_the_list() {
    let mut project = sample_project();
    let makes_no_list = Command::AddNote(AddNoteCommand {
        project_id: 1,
        pattern_id: 20,
        generator_id: 5,
        note: note(4, 300),
        creates_list: false,
    });
    assert_eq!(makes_no_list.try_execute(&mut project, 11), None);
    let makes_a_list = Command::AddNote(AddNoteCommand {
        project_id: 1,
        pattern_id: 10,
        generator_id: 5,
        note: note(4, 300),
        creates_list: true,
    });
    assert_eq!(makes_a_list.try_execute(&mut project, 11), None);
    assert_eq!(makes_a_list.try_rollback(&mut project, 11), None);
    assert_eq!(project, sample_project());
}

#[test]
fn insert_note_and_remove_note_list() {
    let mut project = sample_project();
    insert_note(&mut project, 10, 5, 1, &note(9, 7));
    assert_eq!(notes_of(&project, 10, 5), vec![note(1, 0), note(9, 7), note(2, 96), note(3, 192)]);
    insert_note(&mut project, 10, 5, 4, &note(8, 7));
    assert_eq!(notes_of(&project, 10, 5).len(), 5);
    assert_eq!(notes_of(&project, 10, 5)[4], note(8, 7));
    insert_note(&mut project, 20, 6, 0, &note(7, 7));
    assert_eq!(notes_of(&project, 20, 6), vec![note(7, 7)]);
    remove_note_list(&mut project, 10, 5);
    assert!(!project.song.patterns[&10].generator_notes.contains_key(&5));
    remove_note_list(&mut project, 10, 5);
    assert!(!project.song.patterns[&10].generator_notes.contains_key(&5));
    assert!(project.is_well_formed());
}

#[test]
fn delete_note_command_round_trip_for_the_last_note() {
    let mut project = sample_project();
    let command = Command::DeleteNote(DeleteNoteCommand {
        project_id: 1,
        pattern_id: 10,
        generator_id: 5,
        note: note(3, 192),
        index: 2,
    });
    let replies = command.execute(&mut project, 11);
    assert_eq!(replies, vec![Reply::NoteDeleted(11, note_text(10, 5))]);
    assert_eq!(notes_of(&project, 10, 5), vec![note(1, 0), note(2, 96)]);
    let replies = command.rollback(&mut project, 12);
    assert_eq!(replies, vec![Reply::NoteAdded(12, note_text(10, 5))]);
    assert_eq!(project, sample_project());
}

#[test]
fn delete_note_command_rollback_puts_the_note_back_where_it_stood() {
    for (id, index, offset) in [(1u64, 0usize, 0u64), (2, 1, 96), (3, 2, 192)] {
        let mut project = sample_project();
        let command = Command::DeleteNote(DeleteNoteCommand {
            project_id: 1,
            pattern_id: 10,
            generator_id: 5,
            note: note(id, offset),
            index,
        });
        command.execute(&mut project, 11);
        assert_eq!(notes_of(&project, 10, 5).len(), 2);
        command.rollback(&mut project, 12);
        assert_eq!(notes_of(&project, 10, 5), vec![note(1, 0), note(2, 96), note(3, 192)]);
        assert_eq!(project, sample_project());
    }
}

#[test]
fn delete_note_command_round_trip_for_the_only_note() {
    let mut project = sample_project();
    add_note(&mut project, 20, 6, &note(7, 5));
    let before = project.clone();
    let command = Command::DeleteNote(DeleteNoteCommand {
        project_id: 1,
        pattern_id: 20,
        generator_id: 6,
        note: note(7, 5),
        index: 0,
    });
    command.execute(&mut project, 11);
    assert!(notes_of(&project, 20, 6).is_empty());
    command.rollback(&mut project, 12);
    assert_eq!(project, before);
}

#[test]
fn delete_note_command_rollback_needs_its_index_in_the_list() {
    let mut project = sample_project();
    let command = Command::DeleteNote(DeleteNoteCommand {
        project_id: 1,
        pattern_id: 10,
        generator_id: 5,
        note: note(9, 0),
        index: 4,
    });
    assert_eq!(command.try_rollback(&mut project, 12), None);
    assert_eq!(project, sample_project());
}

#[test]
fn move_note_command_round_trip_applies_offset_and_not_key() {
    let mut project = sample_project();
    let command = Command::MoveNote(MoveNoteCommand {
        project_id: 1,
        pattern_id: 10,
        generator_id: 5,
        note_id: 2,
        old_key: 60,
        new_key: 72,
        old_offset: 96,
        new_offset: 1000,
    });
    let replies = command.execute(&mut project, 11);
    assert_eq!(replies, vec![Reply::NoteMoved(11, note_text(10, 5))]);
    assert_eq!(notes_of(&project, 10, 5)[1], note(2, 1000));
    let replies = command.rollback(&mut project, 12);
    assert_eq!(replies, vec![Reply::NoteMoved(12, note_text(10, 5))]);
    assert_eq!(project, sample_project());
}

#[test]
fn resize_note_command_round_trip() {
    let mut project = sample_project();
    let command = Command::ResizeNote(ResizeNoteCommand {
        project_id: 1,
        pattern_id: 10,
        generator_id: 5,
        note_id: 2,
        old_length: 96,
        new_length: 24,
    });
    let replies = command.execute(&mut project, 11);
    assert_eq!(replies, vec![Reply::NoteResized(11, note_text(10, 5))]);
    assert_eq!(notes_of(&project, 10, 5)[1].length, 24);
    let replies = command.rollback(&mut project, 12);
    assert_eq!(replies, vec![Reply::NoteResized(12, note_text(10, 5))]);
    assert_eq!(project, sample_project());
}

#[test]
fn add_instrument_command_round_trip() {
    let mut project = sample_project();
    let command =
        Command::AddInstrument(AddInstrumentCommand { id: 7, name: "Bass".to_string() });
    let replies = command.execute(&mut project, 11);
    assert_eq!(replies, vec![Reply::InstrumentAdded(11)]);
    assert_eq!(project.generator_list, vec![5, 6, 7]);
    assert_eq!(project.instruments[&7].name, "Bass");
    assert_eq!(project.instruments[&7].id, 7);
    let replies = command.rollback(&mut project, 12);
    assert_eq!(replies, vec![Reply::GeneratorRemoved(12)]);
    assert_eq!(project, sample_project());
}

#[test]
fn add_controller_command_round_trip() {
    let mut project = sample_project();
    let command =
        Command::AddController(AddControllerCommand { id: 8, name: "Pan".to_string() });
    let replies = command.execute(&mut project, 11);
    assert_eq!(replies, vec![Reply::ControllerAdded(11)]);
    assert_eq!(project.generator_list, vec![5, 6, 8]);
    assert_eq!(project.controllers[&8].name, "Pan");
    let replies = command.rollback(&mut project, 12);
    assert_eq!(replies, vec![Reply::GeneratorRemoved(12)]);
    assert_eq!(project, sample_project());
}

fn sample_page() -> Command {
    Command::JournalPage(JournalPageCommand {
        commands: vec![
            Command::AddPattern(AddPatternCommand {
                project_id: 1,
                pattern: Pattern::with_id(40, "Outro".to_string()),
                index: 3,
            }),
            Command::AddNote(AddNoteCommand {
                project_id: 1,
                pattern_id: 10,
                generator_id: 5,
                note: note(4, 300),
                creates_list: false,
            }),
            Command::MoveNote(MoveNoteCommand {
                project_id: 1,
                pattern_id: 10,
                generator_id: 5,
                note_id: 4,
                old_key: 60,
                new_key: 60,
                old_offset: 300,
                new_offset: 400,
            }),
        ],
    })
}

#[test]
fn journal_page_executes_forward_and_rolls_back_in_reverse() {
    let mut project = sample_project();
    let page = sample_page();
    let replies = page.execute(&mut project, 11);
    assert_eq!(
        replies,
        vec![
            Reply::PatternAdded(11),
            Reply::NoteAdded(11, note_text(10, 5)),
            Reply::NoteMoved(11, note_text(10, 5)),
        ]
    );
    assert_eq!(project.song.pattern_order, vec![10, 20, 30, 40]);
    assert_eq!(notes_of(&project, 10, 5)[3], note(4, 400));
    let replies = page.rollback(&mut project, 12);
    assert_eq!(
        replies,
        vec![
            Reply::NoteMoved(12, note_text(10, 5)),
            Reply::NoteDeleted(12, note_text(10, 5)),
            Reply::PatternDeleted(12),
        ]
    );
    assert_eq!(project, sample_project());
}

#[test]
fn try_execute_gives_the_replies_of_execute() {
    let mut project = sample_project();
    let mut other = sample_project();
    let page = sample_page();
    let tried = page.try_execute(&mut project, 11);
    let executed = page.execute(&mut other, 11);
    assert_eq!(tried, Some(executed));
    assert_eq!(project, other);
    let tried = page.try_rollback(&mut project, 12);
    let rolled_back = page.rollback(&mut other, 12);
    assert_eq!(tried, Some(rolled_back));
    assert_eq!(project, sample_project());
}

#[test]
fn try_execute_of_a_page_is_all_or_nothing() {
    let mut project = sample_project();
    let page = Command::JournalPage(JournalPageCommand {
        commands: vec![
            Command::AddInstrument(AddInstrumentCommand { id: 7, name: "Bass".to_string() }),
            Command::AddNote(AddNoteCommand {
                project_id: 1,
                pattern_id: 99,
                generator_id: 5,
                note: note(4, 300),
                creates_list: false,
            }),
        ],
    });
    assert_eq!(page.try_execute(&mut project, 11), None);
    assert_eq!(project, sample_project());
}

#[test]
fn try_rollback_of_a_page_is_all_or_nothing() {
    let mut project = sample_project();
    let page = Command::JournalPage(JournalPageCommand {
        commands: vec![
            Command::AddNote(AddNoteCommand {
                project_id: 1,
                pattern_id: 99,
                generator_id: 5,
                note: note(4, 300),
                creates_list: false,
            }),
            Command::AddInstrument(AddInstrumentCommand { id: 5, name: "Piano".to_string() }),
        ],
    });
    assert_eq!(page.try_rollback(&mut project, 11), None);
    assert_eq!(project, sample_project());
}

#[test]
fn try_execute_turns_down_what_is_already_there() {
    let mut project = sample_project();
    let pattern = Command::AddPattern(AddPatternCommand {
        project_id: 1,
        pattern: Pattern::with_id(10, "Again".to_string()),
        index: 0,
    });
    assert_eq!(pattern.try_execute(&mut project, 1), None);
    let instrument =
        Command::AddInstrument(AddInstrumentCommand { id: 6, name: "Clash".to_string() });
    assert_eq!(instrument.try_execute(&mut project, 1), None);
    let controller =
        Command::AddController(AddControllerCommand { id: 5, name: "Clash".to_string() });
    assert_eq!(controller.try_execute(&mut project, 1), None);
    assert_eq!(project, sample_project());
}

#[test]
fn try_execute_turns_down_what_is_not_there() {
    let mut project = sample_project();
    let out_of_range = Command::AddPattern(AddPatternCommand {
        project_id: 1,
        pattern: Pattern::with_id(40, "Far".to_string()),
        index: 4,
    });
    assert_eq!(out_of_range.try_execute(&mut project, 1), None);
    let no_list = Command::DeleteNote(DeleteNoteCommand {
        project_id: 1,
        pattern_id: 20,
        generator_id: 5,
        note: note(1, 0),
        index: 0,
    });
    assert_eq!(no_list.try_execute(&mut project, 1), None);
    let no_note = Command::MoveNote(MoveNoteCommand {
        project_id: 1,
        pattern_id: 10,
        generator_id: 5,
        note_id: 77,
        old_key: 60,
        new_key: 60,
        old_offset: 0,
        new_offset: 1,
    });
    assert_eq!(no_note.try_execute(&mut project, 1), None);
    assert_eq!(no_note.try_rollback(&mut project, 1), None);
    let no_note = Command::ResizeNote(ResizeNoteCommand {
        project_id: 1,
        pattern_id: 10,
        generator_id: 5,
        note_id: 77,
        old_length: 0,
        new_length: 1,
    });
    assert_eq!(no_note.try_execute(&mut project, 1), None);
    assert_eq!(project, sample_project());
}

#[test]
fn try_rollback_of_delete_pattern_needs_a_free_identifier() {
    let mut project = sample_project();
    let command = Command::DeletePattern(DeletePatternCommand {
        project_id: 1,
        pattern: Pattern::with_id(10, "Intro".to_string()),
        index: 0,
    });
    assert_eq!(command.try_rollback(&mut project, 1), None);
    assert_eq!(project, sample_project());
}
