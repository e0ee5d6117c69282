use anthem::commands::command::Command;
use anthem::commands::project_commands::AddInstrumentCommand;
use anthem::model::command_queue::CommandQueue;
use anthem::model::generator::Controller;
use anthem::model::generator::Instrument;
use anthem::model::journal_page_accumulator::JournalPageAccumulator;
use anthem::model::note::find_note;
use anthem::model::note::holds_only_id;
use anthem::model::note::remove_note_by_id;
use anthem::model::note::Note;
use anthem::model::note_json::find_field;
use anthem::model::note_json::note_from_fields;
use anthem::model::note_json::parse_note;
use anthem::model::note_json::NumberField;
use anthem::model::pattern::GeneratorNotes;
use anthem::model::pattern::Pattern;
use anthem::model::project::Project;
use anthem::model::reply::single_reply;
use anthem::model::reply::Reply;
use anthem::model::song::Song;
use anthem::model::store::DispatchError;
use anthem::model::store::Store;
use anthem::model::time_signature::TimeSignature;
use anthem::util::execute_and_push::execute_and_push;

fn note(id: u64) -> Note {
    Note { id, key: 60, length: 96, offset: 0, velocity: 100 }
}

fn field(name: &str, value: u64) -> NumberField {
    NumberField { name: name.to_string(), value }
}

fn instrument(id: u64) -> Command {
    Command::AddInstrument(AddInstrumentCommand { id, name: "Piano".to_string() })
}

#[test]
fn pattern_starts_empty_in_four_four() {
    let pattern = Pattern::with_id(3, "Verse".to_string());
    assert_eq!(pattern.id, 3);
    assert_eq!(pattern.name, "Verse");
    assert!(pattern.generator_notes.is_empty());
    assert!(pattern.time_signature_changes.is_empty());
    assert_eq!(pattern.default_time_signature, TimeSignature { numerator: 4, denominator: 4 });
}

#[test]
fn pattern_new_keeps_the_name() {
    let pattern = Pattern::new("Verse".to_string()).expect("the system gives random bits");
    assert_eq!(pattern, Pattern::with_id(pattern.id, "Verse".to_string()));
}

#[test]
fn pattern_clone_is_equal() {
    let mut pattern = Pattern::with_id(3, "Verse".to_string());
    pattern.generator_notes.insert(5, GeneratorNotes { notes: vec![note(1), note(2)] });
    assert_eq!(pattern.clone(), pattern);
    assert_eq!(GeneratorNotes::default().notes, Vec::new());
}

#[test]
fn song_starts_empty_at_96_ticks() {
    let song = Song::with_id(9);
    assert_eq!(song.id, 9);
    assert_eq!(song.ticks_per_quarter, 96);
    assert!(song.patterns.is_empty());
    assert!(song.pattern_order.is_empty());
    assert_eq!((song.active_pattern_id, song.active_instrument_id, song.active_controller_id), (0, 0, 0));
    let drawn = Song::new().expect("the system gives random bits");
    assert_eq!(drawn, Song::with_id(drawn.id));
    assert_eq!(drawn.clone(), drawn);
}

#[test]
fn project_starts_empty_and_unsaved() {
    let project = Project::with_ids(1, 2);
    assert_eq!(project.id, 1);
    assert_eq!(project.song, Song::with_id(2));
    assert!(!project.is_saved);
    assert_eq!(project.file_path, "");
    assert!(project.instruments.is_empty());
    assert!(project.controllers.is_empty());
    assert!(project.generator_list.is_empty());
    let drawn = Project::new().expect("the system gives random bits");
    assert_eq!(drawn, Project::with_ids(drawn.id, drawn.song.id));
    assert_eq!(drawn.clone(), drawn);
}

#[test]
fn project_queries_find_what_is_there() {
    let mut project = Project::with_ids(1, 2);
    let mut pattern = Pattern::with_id(3, "Verse".to_string());
    pattern.generator_notes.insert(5, GeneratorNotes { notes: vec![note(1), note(2)] });
    project.song.patterns.insert(3, pattern);
    project.song.pattern_order.push(3);
    project.instruments.insert(5, Instrument { id: 5, name: "Piano".to_string() });
    project.generator_list.push(5);
    assert!(project.has_pattern(3));
    assert!(!project.has_pattern(4));
    assert!(project.has_note_list(3, 5));
    assert!(!project.has_note_list(3, 6));
    assert!(!project.has_note_list(4, 5));
    assert_eq!(project.find_note(3, 5, 2), Some(note(2)));
    assert_eq!(project.find_note_index(3, 5, 2), Some(1));
    assert_eq!(project.find_note_index(3, 5, 9), None);
    assert_eq!(project.find_note_index(4, 5, 2), None);
    assert_eq!(project.note_count(3, 5), 2);
    assert_eq!(project.note_count(3, 6), 0);
    assert_eq!(project.note_count(4, 5), 0);
    assert!(!project.holds_only_note(3, 5, 1));
    assert!(!project.holds_only_note(3, 6, 1));
    assert!(project.has_no_zero_id());
    assert_eq!(project.find_note(3, 5, 9), None);
    assert_eq!(project.find_note(3, 6, 2), None);
    assert_eq!(project.find_note(4, 5, 2), None);
    assert!(project.has_generator(5));
    assert!(!project.has_generator(6));
    assert!(project.is_well_formed());
}

#[test]
fn project_well_formedness_is_told() {
    let good = || {
        let mut project = Project::with_ids(1, 2);
        project.song.patterns.insert(3, Pattern::with_id(3, "Verse".to_string()));
        project.song.pattern_order.push(3);
        project.instruments.insert(5, Instrument { id: 5, name: "Piano".to_string() });
        project.controllers.insert(6, Controller { id: 6, name: "Volume".to_string() });
        project.generator_list.push(5);
        project.generator_list.push(6);
        project
    };
    assert!(good().is_well_formed());
    assert!(good().song.is_well_formed());

    let mut project = good();
    project.song.pattern_order.push(3);
    assert!(!project.is_well_formed());

    let mut project = good();
    project.song.pattern_order.push(4);
    assert!(!project.is_well_formed());

    let mut project = good();
    project.song.pattern_order.clear();
    assert!(!project.is_well_formed());

    let mut project = good();
    project.song.patterns.insert(3, Pattern::with_id(4, "Verse".to_string()));
    assert!(!project.is_well_formed());

    let mut project = good();
    project.generator_list.push(5);
    assert!(!project.is_well_formed());

    let mut project = good();
    project.generator_list.push(7);
    assert!(!project.is_well_formed());

    let mut project = good();
    project.generator_list.pop();
    assert!(!project.is_well_formed());

    let mut project = good();
    project.controllers.insert(5, Controller { id: 5, name: "Both".to_string() });
    assert!(!project.is_well_formed());

    let mut project = good();
    project.controllers.remove(&6);
    project.controllers.insert(5, Controller { id: 5, name: "Both".to_string() });
    assert!(!project.is_well_formed());

    let mut project = good();
    project.instruments.insert(5, Instrument { id: 8, name: "Piano".to_string() });
    assert!(!project.is_well_formed());

    let mut project = good();
    project.controllers.insert(6, Controller { id: 8, name: "Volume".to_string() });
    assert!(!project.is_well_formed());
}

#[test]
fn store_well_formedness_is_told() {
    let good = || Store::with_project(Project::with_ids(1, 2));
    assert!(good().is_well_formed());

    let mut store = good();
    store.project_order.push(1);
    assert!(!store.is_well_formed());

    let mut store = good();
    store.project_order.push(2);
    assert!(!store.is_well_formed());

    let mut store = good();
    store.command_queues.clear();
    assert!(!store.is_well_formed());

    let mut store = good();
    store.journal_page_accumulators.clear();
    assert!(!store.is_well_formed());

    let mut store = good();
    store.journal_page_accumulators.clear();
    store.journal_page_accumulators.insert(2, JournalPageAccumulator::default());
    assert!(!store.is_well_formed());

    let mut store = good();
    store.projects.insert(1, Project::with_ids(3, 2));
    assert!(!store.is_well_formed());

    let mut store = good();
    store.projects.get_mut(&1).unwrap().generator_list.push(9);
    assert!(!store.is_well_formed());

    let mut store = good();
    store.command_queues.get_mut(&1).unwrap().command_pointer = 1;
    assert!(!store.is_well_formed());

    let mut store = good();
    store.active_project_id = 77;
    assert!(store.is_well_formed());
}

#[test]
fn store_get_project_and_find_note() {
    let mut store = Store::with_project(Project::with_ids(1, 2));
    assert_eq!(store.get_project(1), Some(&Project::with_ids(1, 2)));
    assert_eq!(store.get_project(2), None);
    let mut pattern = Pattern::with_id(3, "Verse".to_string());
    pattern.generator_notes.insert(5, GeneratorNotes { notes: vec![note(1)] });
    let project = store.projects.get_mut(&1).unwrap();
    project.song.patterns.insert(3, pattern);
    project.song.pattern_order.push(3);
    assert_eq!(store.find_note(1, 3, 5, 1), Some((0, note(1))));
    assert_eq!(store.find_note(1, 3, 5, 2), None);
    assert_eq!(store.find_note(2, 3, 5, 1), None);
}

#[test]
fn store_push_command_files_in_the_history_even_while_journaling() {
    let mut store = Store::with_project(Project::with_ids(1, 2));
    store.journal_page_accumulators.get_mut(&1).unwrap().start();
    store.push_command(1, instrument(5));
    assert_eq!(store.command_queues[&1].commands, vec![instrument(5)]);
    assert_eq!(store.command_queues[&1].command_pointer, 1);
    assert!(store.journal_page_accumulators[&1].command_list.is_empty());
}

#[test]
fn execute_and_push_files_in_the_history_or_in_the_active_journal() {
    let mut store = Store::with_project(Project::with_ids(1, 2));
    assert_eq!(execute_and_push(&mut store, 4, 1, instrument(5)), Ok(vec![Reply::InstrumentAdded(4)]));
    assert_eq!(store.projects[&1].generator_list, vec![5]);
    assert_eq!(store.command_queues[&1].commands, vec![instrument(5)]);
    store.journal_page_accumulators.get_mut(&1).unwrap().start();
    assert_eq!(execute_and_push(&mut store, 5, 1, instrument(6)), Ok(vec![Reply::InstrumentAdded(5)]));
    assert_eq!(store.projects[&1].generator_list, vec![5, 6]);
    assert_eq!(store.command_queues[&1].commands, vec![instrument(5)]);
    assert_eq!(store.journal_page_accumulators[&1].command_list, vec![instrument(6)]);
}

#[test]
fn execute_and_push_turns_down_what_does_not_execute_cleanly() {
    let mut store = Store::with_project(Project::with_ids(1, 2));
    execute_and_push(&mut store, 4, 1, instrument(5)).unwrap();
    let before = Store::with_project(Project::with_ids(1, 2));
    assert_eq!(
        execute_and_push(&mut store, 5, 1, instrument(5)),
        Err(DispatchError::ReferentialIntegrityViolation)
    );
    assert_eq!(
        execute_and_push(&mut store, 5, 9, instrument(6)),
        Err(DispatchError::ReferentialIntegrityViolation)
    );
    assert_eq!(store.project_order, before.project_order);
    assert_eq!(store.projects[&1].generator_list, vec![5]);
    assert_eq!(store.command_queues[&1].commands.len(), 1);
}

#[test]
fn open_and_close_project() {
    let mut store = Store::with_project(Project::with_ids(1, 2));
    store.open_project(Project::with_ids(3, 4));
    assert_eq!(store.project_order, vec![1, 3]);
    assert_eq!(store.command_queues[&3], CommandQueue::default());
    assert_eq!(store.journal_page_accumulators[&3], JournalPageAccumulator::default());
    store.close_project(1);
    assert_eq!(store.project_order, vec![3]);
    assert!(store.is_well_formed());
    store.close_project(1);
    assert_eq!(store.project_order, vec![3]);
}

#[test]
fn journal_collects_and_commits_one_page() {
    let mut journal = JournalPageAccumulator::default();
    assert!(!journal.is_active);
    assert_eq!(journal.commit(), None);
    journal.start();
    assert!(journal.is_active);
    journal.push_command(instrument(1));
    journal.push_command(instrument(2));
    let page = journal.commit();
    assert!(!journal.is_active);
    assert!(journal.command_list.is_empty());
    match page {
        Some(Command::JournalPage(page)) => {
            assert_eq!(page.commands, vec![instrument(1), instrument(2)]);
        },
        _ => panic!("no journal page"),
    }
    assert_eq!(journal.commit(), None);
}

#[test]
fn journal_start_clears_what_was_collected() {
    let mut journal = JournalPageAccumulator::default();
    journal.start();
    journal.push_command(instrument(1));
    journal.start();
    assert!(journal.is_active);
    assert!(journal.command_list.is_empty());
}

#[test]
fn note_list_helpers() {
    let mut notes = vec![note(1), note(2), note(1), note(3)];
    assert_eq!(find_note(&notes, 1), Some(0));
    assert_eq!(find_note(&notes, 3), Some(3));
    assert_eq!(find_note(&notes, 4), None);
    remove_note_by_id(&mut notes, 1);
    assert_eq!(notes, vec![note(2), note(3)]);
    remove_note_by_id(&mut notes, 9);
    assert_eq!(notes, vec![note(2), note(3)]);
    assert!(!holds_only_id(&notes, 2));
    assert!(holds_only_id(&vec![note(2), note(2)], 2));
    assert!(holds_only_id(&Vec::new(), 2));
}

#[test]
fn find_field_gives_the_first_of_that_name() {
    let fields = vec![field("a", 1), field("b", 2), field("a", 3)];
    assert_eq!(find_field(&fields, "a"), Some(1));
    assert_eq!(find_field(&fields, "b"), Some(2));
    assert_eq!(find_field(&fields, "c"), None);
    assert_eq!(find_field(&Vec::new(), "a"), None);
}

#[test]
fn note_from_fields_needs_every_field_in_range() {
    let all = || {
        vec![field("id", 1), field("key", 255), field("length", 3), field("offset", 4), field("velocity", 0)]
    };
    assert_eq!(
        note_from_fields(&all()),
        Some(Note { id: 1, key: 255, length: 3, offset: 4, velocity: 0 })
    );
    for missing in 0..5 {
        let mut fields = all();
        fields.remove(missing);
        assert_eq!(note_from_fields(&fields), None);
    }
    let mut fields = all();
    fields[1].value = 256;
    assert_eq!(note_from_fields(&fields), None);
    let mut fields = all();
    fields[4].value = 256;
    assert_eq!(note_from_fields(&fields), None);
    let mut fields = all();
    fields[0].value = u64::MAX;
    fields[2].value = u64::MAX;
    assert_eq!(
        note_from_fields(&fields),
        Some(Note { id: u64::MAX, key: 255, length: u64::MAX, offset: 4, velocity: 0 })
    );
}

#[test]
fn parse_note_reads_json_objects_of_numbers() {
    assert_eq!(
        parse_note("{\"id\":7,\"key\":60,\"length\":96,\"offset\":0,\"velocity\":100}"),
        Some(Note { id: 7, key: 60, length: 96, offset: 0, velocity: 100 })
    );
    assert_eq!(
        parse_note(" { \"offset\" : 5 , \"id\" : 18446744073709551615 , \"velocity\":1,\"key\":2,\"length\":3 } "),
        Some(Note { id: u64::MAX, key: 2, length: 3, offset: 5, velocity: 1 })
    );
    assert_eq!(parse_note("{\"id\":7,\"key\":60,\"length\":96,\"offset\":0}"), None);
    assert_eq!(parse_note("{\"id\":7,\"key\":60,\"length\":96,\"offset\":0,\"velocity\":null}"), None);
    assert_eq!(parse_note("{\"id\":7,\"key\":60,\"length\":96,\"offset\":0,\"velocity\":100"), None);
    assert_eq!(parse_note("id=7"), None);
    assert_eq!(parse_note(""), None);
}

#[test]
fn single_reply_holds_the_reply() {
    assert_eq!(single_reply(Reply::NothingChanged(3)), vec![Reply::NothingChanged(3)]);
}
