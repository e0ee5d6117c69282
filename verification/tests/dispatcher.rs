use anthem::commands::command::Command;
use anthem::message_handlers::pattern_message_handler::pattern_message_handler;
use anthem::message_handlers::project_message_handler::project_message_handler;
use anthem::message_handlers::store_message_handler::store_message_handler;
use anthem::model::generator::Controller;
use anthem::model::generator::Instrument;
use anthem::model::note::Note;
use anthem::model::pattern::Pattern;
use anthem::model::project::Project;
use anthem::model::reply::Reply;
use anthem::model::store::DispatchError;
use anthem::model::store::FileOutcome;
use anthem::model::store::FreshIds;
use anthem::model::store::Msg;
use anthem::model::store::Store;

const PROJECT: u64 = 100;

fn new_store() -> Store {
    Store::with_project(Project::with_ids(PROJECT, 101))
}

fn ids(first: u64) -> FreshIds {
    FreshIds { first, second: first + 1 }
}

fn send(store: &mut Store, request_id: u64, msg: Msg, first: u64) -> Result<Vec<Reply>, DispatchError> {
    store.dispatch(request_id, &msg, ids(first), FileOutcome::NotRequested)
}

fn note_json(id: u64, key: u64, offset: u64, length: u64) -> String {
    format!(
        "{{\"id\":{},\"key\":{},\"offset\":{},\"length\":{},\"velocity\":100}}",
        id, key, offset, length
    )
}

fn note_text(pattern_id: u64, generator_id: u64) -> String {
    format!("{{ \"patternID\":{},\"generatorID\":{} }}", pattern_id, generator_id)
}

fn project(store: &Store) -> &Project {
    &store.projects[&PROJECT]
}

fn notes(store: &Store, pattern_id: u64, generator_id: u64) -> Vec<Note> {
    match project(store).song.patterns[&pattern_id].generator_notes.get(&generator_id) {
        Some(list) => list.notes.clone(),
        None => Vec::new(),
    }
}

fn has_list(store: &Store, pattern_id: u64, generator_id: u64) -> bool {
    project(store).song.patterns[&pattern_id].generator_notes.contains_key(&generator_id)
}

fn pointer(store: &Store) -> usize {
    store.command_queues[&PROJECT].command_pointer
}

fn history_len(store: &Store) -> usize {
    store.command_queues[&PROJECT].commands.len()
}

/// A store whose project holds the patterns 1 to 5 in that order.
fn store_with_five_patterns() -> Store {
    let mut store = new_store();
    for id in 1..=5 {
        let name = format!("Pattern {}", id);
        assert_eq!(
            send(&mut store, id, Msg::AddPattern(PROJECT, name), id),
            Ok(vec![Reply::PatternAdded(id)])
        );
    }
    store
}

#[test]
fn new_store_holds_one_active_project() {
    let store = new_store();
    assert!(store.is_well_formed());
    assert_eq!(store.project_order, vec![PROJECT]);
    assert_eq!(store.active_project_id, PROJECT);
    assert_eq!(pointer(&store), 0);
    assert!(!store.journal_page_accumulators[&PROJECT].is_active);
    assert_eq!(project(&store).song.ticks_per_quarter, 96);
    assert_eq!(project(&store).song.active_pattern_id, 0);
    assert!(!project(&store).is_saved);
    assert_eq!(project(&store).file_path, "");
}

#[test]
fn create_draws_identifiers_and_is_well_formed() {
    let store = Store::create().expect("the system gives random bits");
    assert!(store.is_well_formed());
    assert_eq!(store.project_order.len(), 1);
    assert_eq!(store.project_order[0], store.active_project_id);
    assert!(store.command_queues.contains_key(&store.active_project_id));
    assert!(store.journal_page_accumulators.contains_key(&store.active_project_id));
}

#[test]
fn update_draws_identifiers_for_what_it_creates() {
    let mut store = new_store();
    let replies = store.update(1, Msg::AddPattern(PROJECT, "Verse".to_string()), FileOutcome::NotRequested);
    assert_eq!(replies, Ok(vec![Reply::PatternAdded(1)]));
    assert_eq!(project(&store).song.pattern_order.len(), 1);
    let id = project(&store).song.pattern_order[0];
    assert_eq!(project(&store).song.patterns[&id].id, id);
    assert_eq!(project(&store).song.patterns[&id].name, "Verse");
    assert!(store.is_well_formed());
}

#[test]
fn add_pattern_add_note_undo_redo() {
    let mut store = new_store();
    assert_eq!(
        send(&mut store, 1, Msg::AddPattern(PROJECT, "Verse".to_string()), 7),
        Ok(vec![Reply::PatternAdded(1)])
    );
    assert_eq!(project(&store).song.pattern_order, vec![7]);
    assert_eq!(project(&store).song.patterns[&7].name, "Verse");
    assert_eq!(
        send(&mut store, 2, Msg::AddNote(PROJECT, 7, 5, note_json(1, 60, 0, 96)), 0),
        Ok(vec![Reply::NoteAdded(2, note_text(7, 5))])
    );
    let expected = Note { id: 1, key: 60, length: 96, offset: 0, velocity: 100 };
    assert_eq!(notes(&store, 7, 5), vec![expected]);
    assert_eq!(pointer(&store), 2);

    assert_eq!(
        send(&mut store, 3, Msg::Undo(PROJECT), 0),
        Ok(vec![Reply::NoteDeleted(3, note_text(7, 5))])
    );
    assert_eq!(pointer(&store), 1);
    assert!(notes(&store, 7, 5).is_empty());
    assert!(!has_list(&store, 7, 5));
    assert_eq!(project(&store).song.pattern_order, vec![7]);
    assert_eq!(project(&store).song.patterns[&7], Pattern::with_id(7, "Verse".to_string()));

    assert_eq!(
        send(&mut store, 4, Msg::Redo(PROJECT), 0),
        Ok(vec![Reply::NoteAdded(4, note_text(7, 5))])
    );
    assert_eq!(pointer(&store), 2);
    assert_eq!(notes(&store, 7, 5), vec![expected]);
    assert!(store.is_well_formed());
}

#[test]
fn delete_pattern_then_undo_reinserts_at_its_index() {
    let mut store = store_with_five_patterns();
    assert_eq!(project(&store).song.pattern_order, vec![1, 2, 3, 4, 5]);
    assert_eq!(
        send(&mut store, 10, Msg::DeletePattern(PROJECT, 3), 0),
        Ok(vec![Reply::PatternDeleted(10)])
    );
    assert_eq!(project(&store).song.pattern_order, vec![1, 2, 4, 5]);
    assert!(!project(&store).song.patterns.contains_key(&3));
    assert_eq!(
        send(&mut store, 11, Msg::Undo(PROJECT), 0),
        Ok(vec![Reply::PatternAdded(11)])
    );
    assert_eq!(project(&store).song.pattern_order, vec![1, 2, 3, 4, 5]);
    assert_eq!(project(&store).song.patterns[&3].name, "Pattern 3");
    assert!(store.is_well_formed());
}

#[test]
fn delete_pattern_then_undo_restores_its_notes() {
    let mut store = store_with_five_patterns();
    send(&mut store, 6, Msg::AddNote(PROJECT, 3, 5, note_json(1, 60, 0, 96)), 0).unwrap();
    send(&mut store, 7, Msg::DeletePattern(PROJECT, 3), 0).unwrap();
    send(&mut store, 8, Msg::Undo(PROJECT), 0).unwrap();
    assert_eq!(notes(&store, 3, 5).len(), 1);
    assert_eq!(notes(&store, 3, 5)[0].id, 1);
}

#[test]
fn undo_with_pointer_at_zero_changes_nothing() {
    let mut store = new_store();
    assert_eq!(send(&mut store, 9, Msg::Undo(PROJECT), 0), Ok(vec![Reply::NothingChanged(9)]));
    assert_eq!(store, new_store());
}

#[test]
fn undo_back_to_zero_then_once_more_changes_nothing() {
    let mut store = new_store();
    send(&mut store, 1, Msg::AddInstrument(PROJECT, "Piano".to_string()), 5).unwrap();
    send(&mut store, 2, Msg::Undo(PROJECT), 0).unwrap();
    assert_eq!(pointer(&store), 0);
    assert_eq!(history_len(&store), 1);
    assert_eq!(send(&mut store, 3, Msg::Undo(PROJECT), 0), Ok(vec![Reply::NothingChanged(3)]));
    assert_eq!(pointer(&store), 0);
    assert_eq!(history_len(&store), 1);
    assert_eq!(project(&store), &Project::with_ids(PROJECT, 101));
}

#[test]
fn redo_with_nothing_to_redo_changes_nothing() {
    let mut store = new_store();
    send(&mut store, 1, Msg::AddInstrument(PROJECT, "Piano".to_string()), 5).unwrap();
    assert_eq!(send(&mut store, 2, Msg::Redo(PROJECT), 0), Ok(vec![Reply::NothingChanged(2)]));
    assert_eq!(pointer(&store), 1);
    assert_eq!(project(&store).generator_list, vec![5]);
}

#[test]
fn new_edit_after_undo_discards_the_redo_tail() {
    let mut store = new_store();
    send(&mut store, 1, Msg::AddInstrument(PROJECT, "a".to_string()), 5).unwrap();
    send(&mut store, 2, Msg::AddInstrument(PROJECT, "b".to_string()), 6).unwrap();
    send(&mut store, 3, Msg::Undo(PROJECT), 0).unwrap();
    send(&mut store, 4, Msg::AddInstrument(PROJECT, "c".to_string()), 7).unwrap();
    assert_eq!(send(&mut store, 5, Msg::Redo(PROJECT), 0), Ok(vec![Reply::NothingChanged(5)]));
    assert_eq!(project(&store).generator_list, vec![5, 7]);
    assert_eq!(history_len(&store), 2);
    let names: Vec<String> = store.command_queues[&PROJECT]
        .commands
        .iter()
        .map(|command| match command {
            Command::AddInstrument(c) => c.name.clone(),
            _ => panic!("not an instrument command"),
        })
        .collect();
    assert_eq!(names, vec!["a", "c"]);
}

#[test]
fn journal_makes_three_commands_one_undo_unit() {
    let mut store = store_with_five_patterns();
    let before = store.projects[&PROJECT].clone();
    let history = history_len(&store);
    assert_eq!(
        send(&mut store, 20, Msg::JournalStartEntry(PROJECT), 0),
        Ok(vec![Reply::JournalEntryStarted(20)])
    );
    assert!(store.journal_page_accumulators[&PROJECT].is_active);
    send(&mut store, 21, Msg::AddInstrument(PROJECT, "Piano".to_string()), 50).unwrap();
    send(&mut store, 22, Msg::AddNote(PROJECT, 1, 50, note_json(1, 60, 0, 96)), 0).unwrap();
    send(&mut store, 23, Msg::AddNote(PROJECT, 1, 50, note_json(2, 62, 96, 96)), 0).unwrap();
    assert_eq!(history_len(&store), history);
    assert_eq!(store.journal_page_accumulators[&PROJECT].command_list.len(), 3);
    assert_eq!(
        send(&mut store, 24, Msg::JournalCommitEntry(PROJECT), 0),
        Ok(vec![Reply::JournalEntryCommitted(24)])
    );
    assert!(!store.journal_page_accumulators[&PROJECT].is_active);
    assert!(store.journal_page_accumulators[&PROJECT].command_list.is_empty());
    assert_eq!(history_len(&store), history + 1);
    assert_eq!(pointer(&store), history + 1);
    match &store.command_queues[&PROJECT].commands[history] {
        Command::JournalPage(page) => assert_eq!(page.commands.len(), 3),
        _ => panic!("the entry is no journal page"),
    }
    assert_eq!(notes(&store, 1, 50).len(), 2);

    assert_eq!(
        send(&mut store, 25, Msg::Undo(PROJECT), 0),
        Ok(vec![
            Reply::NoteDeleted(25, note_text(1, 50)),
            Reply::NoteDeleted(25, note_text(1, 50)),
            Reply::GeneratorRemoved(25),
        ])
    );
    assert_eq!(pointer(&store), history);
    assert_eq!(project(&store), &before);

    assert_eq!(
        send(&mut store, 26, Msg::Redo(PROJECT), 0),
        Ok(vec![
            Reply::InstrumentAdded(26),
            Reply::NoteAdded(26, note_text(1, 50)),
            Reply::NoteAdded(26, note_text(1, 50)),
        ])
    );
    assert_eq!(notes(&store, 1, 50).len(), 2);
    assert!(store.is_well_formed());
}

#[test]
fn journal_of_reversible_commands_undoes_to_the_project_before() {
    let mut store = store_with_five_patterns();
    send(&mut store, 6, Msg::AddInstrument(PROJECT, "Piano".to_string()), 50).unwrap();
    send(&mut store, 7, Msg::AddNote(PROJECT, 1, 50, note_json(1, 60, 0, 96)), 0).unwrap();
    let before = store.projects[&PROJECT].clone();
    send(&mut store, 20, Msg::JournalStartEntry(PROJECT), 0).unwrap();
    send(&mut store, 21, Msg::MoveNote(PROJECT, 1, 50, 1, 61, 10), 0).unwrap();
    send(&mut store, 22, Msg::ResizeNote(PROJECT, 1, 50, 1, 20), 0).unwrap();
    send(&mut store, 23, Msg::AddNote(PROJECT, 1, 50, note_json(2, 62, 96, 96)), 0).unwrap();
    send(&mut store, 24, Msg::JournalCommitEntry(PROJECT), 0).unwrap();
    assert_ne!(project(&store), &before);
    send(&mut store, 25, Msg::Undo(PROJECT), 0).unwrap();
    assert_eq!(project(&store), &before);
}

#[test]
fn empty_journal_commits_nothing() {
    let mut store = new_store();
    send(&mut store, 1, Msg::JournalStartEntry(PROJECT), 0).unwrap();
    assert_eq!(
        send(&mut store, 2, Msg::JournalCommitEntry(PROJECT), 0),
        Ok(vec![Reply::JournalEntryCommitted(2)])
    );
    assert_eq!(history_len(&store), 0);
    assert_eq!(pointer(&store), 0);
    assert!(!store.journal_page_accumulators[&PROJECT].is_active);
}

#[test]
fn restarting_a_journal_drops_what_it_had_collected() {
    let mut store = new_store();
    send(&mut store, 1, Msg::JournalStartEntry(PROJECT), 0).unwrap();
    send(&mut store, 2, Msg::AddInstrument(PROJECT, "Piano".to_string()), 5).unwrap();
    send(&mut store, 3, Msg::JournalStartEntry(PROJECT), 0).unwrap();
    assert!(store.journal_page_accumulators[&PROJECT].is_active);
    assert!(store.journal_page_accumulators[&PROJECT].command_list.is_empty());
    send(&mut store, 4, Msg::JournalCommitEntry(PROJECT), 0).unwrap();
    assert_eq!(history_len(&store), 0);
    assert_eq!(project(&store).generator_list, vec![5]);
}

#[test]
fn new_project_is_opened_last_with_its_own_history() {
    let mut store = new_store();
    assert_eq!(
        send(&mut store, 1, Msg::NewProject, 200),
        Ok(vec![Reply::NewProjectCreated(1, "200".to_string())])
    );
    assert_eq!(store.project_order, vec![PROJECT, 200]);
    assert_eq!(store.active_project_id, PROJECT);
    assert_eq!(store.projects[&200], Project::with_ids(200, 201));
    assert_eq!(store.command_queues[&200].command_pointer, 0);
    assert!(!store.journal_page_accumulators[&200].is_active);
    assert!(store.is_well_formed());
}

#[test]
fn new_project_reply_reads_the_identifier_as_signed() {
    let mut store = new_store();
    assert_eq!(
        send(&mut store, 1, Msg::NewProject, u64::MAX - 1),
        Ok(vec![Reply::NewProjectCreated(1, "-2".to_string())])
    );
}

#[test]
fn set_active_project_sets_it_whatever_the_identifier() {
    let mut store = new_store();
    assert_eq!(
        send(&mut store, 1, Msg::SetActiveProject(555), 0),
        Ok(vec![Reply::ActiveProjectChanged(1, "555".to_string())])
    );
    assert_eq!(store.active_project_id, 555);
    assert!(store.is_well_formed());
}

#[test]
fn close_project_drops_project_history_and_journal_together() {
    let mut store = new_store();
    send(&mut store, 1, Msg::NewProject, 200).unwrap();
    assert_eq!(send(&mut store, 2, Msg::CloseProject(PROJECT), 0), Ok(vec![Reply::ProjectClosed(2)]));
    assert_eq!(store.project_order, vec![200]);
    assert!(!store.projects.contains_key(&PROJECT));
    assert!(!store.command_queues.contains_key(&PROJECT));
    assert!(!store.journal_page_accumulators.contains_key(&PROJECT));
    assert!(store.is_well_formed());
    assert_eq!(send(&mut store, 3, Msg::CloseProject(PROJECT), 0), Ok(vec![Reply::ProjectClosed(3)]));
    assert_eq!(store.project_order, vec![200]);
}

#[test]
fn save_project_marks_the_project_saved_once_written() {
    let mut store = new_store();
    let msg = Msg::SaveProject(PROJECT, "song.anthem".to_string());
    assert_eq!(
        store.dispatch(1, &msg, ids(0), FileOutcome::Written),
        Ok(vec![Reply::ProjectSaved(1)])
    );
    assert!(project(&store).is_saved);
    assert_eq!(project(&store).file_path, "");
}

#[test]
fn save_project_reports_a_failed_write_and_changes_nothing() {
    let mut store = new_store();
    let msg = Msg::SaveProject(PROJECT, "song.anthem".to_string());
    assert_eq!(
        store.dispatch(1, &msg, ids(0), FileOutcome::Failed),
        Err(DispatchError::PersistenceFailure)
    );
    assert_eq!(
        store.dispatch(2, &msg, ids(0), FileOutcome::NotRequested),
        Err(DispatchError::PersistenceFailure)
    );
    assert_eq!(store, new_store());
}

#[test]
fn save_project_of_unknown_project_is_turned_down() {
    let mut store = new_store();
    let msg = Msg::SaveProject(404, "song.anthem".to_string());
    assert_eq!(
        store.dispatch(1, &msg, ids(0), FileOutcome::Written),
        Err(DispatchError::ReferentialIntegrityViolation)
    );
    assert_eq!(store, new_store());
}

#[test]
fn save_then_load_keeps_the_document() {
    let mut store = store_with_five_patterns();
    send(&mut store, 6, Msg::AddInstrument(PROJECT, "Piano".to_string()), 50).unwrap();
    send(&mut store, 7, Msg::AddController(PROJECT, "Volume".to_string()), 60).unwrap();
    send(&mut store, 8, Msg::AddNote(PROJECT, 1, 50, note_json(1, 60, 0, 96)), 0).unwrap();
    let path = "song.anthem".to_string();
    store.dispatch(9, &Msg::SaveProject(PROJECT, path.clone()), ids(0), FileOutcome::Written).unwrap();
    let on_file = store.projects[&PROJECT].clone();

    let mut other = Store::with_project(Project::with_ids(1, 2));
    assert_eq!(
        other.dispatch(10, &Msg::LoadProject(path.clone()), ids(0), FileOutcome::Loaded(on_file.clone())),
        Ok(vec![Reply::ProjectLoaded(10, "100".to_string())])
    );
    let loaded = &other.projects[&PROJECT];
    assert_eq!(loaded.song, project(&store).song);
    assert_eq!(loaded.instruments, project(&store).instruments);
    assert_eq!(loaded.controllers, project(&store).controllers);
    assert_eq!(loaded.generator_list, project(&store).generator_list);
    assert!(loaded.is_saved);
    assert_eq!(loaded.file_path, path);
    assert_eq!(other.project_order, vec![1, PROJECT]);
    assert_eq!(other.command_queues[&PROJECT].command_pointer, 0);
    assert!(other.is_well_formed());
}

#[test]
fn load_project_sets_saved_and_path_whatever_the_file_said() {
    let mut store = new_store();
    let mut on_file = Project::with_ids(7, 8);
    on_file.is_saved = false;
    on_file.file_path = "elsewhere".to_string();
    store
        .dispatch(1, &Msg::LoadProject("here".to_string()), ids(0), FileOutcome::Loaded(on_file))
        .unwrap();
    assert!(store.projects[&7].is_saved);
    assert_eq!(store.projects[&7].file_path, "here");
}

#[test]
fn load_project_reports_a_failed_read_and_changes_nothing() {
    let mut store = new_store();
    let msg = Msg::LoadProject("song.anthem".to_string());
    assert_eq!(
        store.dispatch(1, &msg, ids(0), FileOutcome::Failed),
        Err(DispatchError::PersistenceFailure)
    );
    assert_eq!(
        store.dispatch(2, &msg, ids(0), FileOutcome::Written),
        Err(DispatchError::PersistenceFailure)
    );
    assert_eq!(store, new_store());
}

#[test]
fn load_project_turns_down_a_malformed_project() {
    let mut store = new_store();
    let mut broken = Project::with_ids(7, 8);
    broken.song.pattern_order.push(3);
    let msg = Msg::LoadProject("song.anthem".to_string());
    assert_eq!(
        store.dispatch(1, &msg, ids(0), FileOutcome::Loaded(broken)),
        Err(DispatchError::PersistenceFailure)
    );
    assert_eq!(store, new_store());
}

#[test]
fn load_project_turns_down_an_identifier_in_use() {
    let mut store = new_store();
    let msg = Msg::LoadProject("song.anthem".to_string());
    assert_eq!(
        store.dispatch(1, &msg, ids(0), FileOutcome::Loaded(Project::with_ids(PROJECT, 9))),
        Err(DispatchError::IdCollision)
    );
    assert_eq!(store, new_store());
}

#[test]
fn fresh_identifier_in_use_is_turned_down() {
    let mut store = new_store();
    assert_eq!(send(&mut store, 1, Msg::NewProject, PROJECT), Err(DispatchError::IdCollision));
    send(&mut store, 2, Msg::AddPattern(PROJECT, "a".to_string()), 7).unwrap();
    send(&mut store, 3, Msg::AddInstrument(PROJECT, "b".to_string()), 8).unwrap();
    let before = store.projects[&PROJECT].clone();
    assert_eq!(
        send(&mut store, 4, Msg::AddPattern(PROJECT, "c".to_string()), 7),
        Err(DispatchError::IdCollision)
    );
    assert_eq!(
        send(&mut store, 5, Msg::AddInstrument(PROJECT, "d".to_string()), 8),
        Err(DispatchError::IdCollision)
    );
    assert_eq!(
        send(&mut store, 6, Msg::AddController(PROJECT, "e".to_string()), 8),
        Err(DispatchError::IdCollision)
    );
    assert_eq!(project(&store), &before);
    assert_eq!(history_len(&store), 2);
}

#[test]
fn fresh_identifier_zero_is_turned_down() {
    let mut store = new_store();
    assert_eq!(send(&mut store, 1, Msg::NewProject, 0), Err(DispatchError::ZeroId));
    assert_eq!(
        store.dispatch(
            1,
            &Msg::NewProject,
            FreshIds { first: 5, second: 0 },
            FileOutcome::NotRequested
        ),
        Err(DispatchError::ZeroId)
    );
    assert_eq!(
        send(&mut store, 2, Msg::AddPattern(PROJECT, "a".to_string()), 0),
        Err(DispatchError::ZeroId)
    );
    assert_eq!(
        send(&mut store, 3, Msg::AddInstrument(PROJECT, "b".to_string()), 0),
        Err(DispatchError::ZeroId)
    );
    assert_eq!(
        send(&mut store, 4, Msg::AddController(PROJECT, "c".to_string()), 0),
        Err(DispatchError::ZeroId)
    );
    assert_eq!(
        send(&mut store, 5, Msg::AddPattern(404, "a".to_string()), 0),
        Err(DispatchError::ReferentialIntegrityViolation)
    );
    assert_eq!(store, new_store());
}

#[test]
fn load_project_turns_down_a_zero_identifier() {
    let msg = Msg::LoadProject("song.anthem".to_string());
    let mut zero_project = Project::with_ids(0, 8);
    zero_project.is_saved = true;
    let zero_song = Project::with_ids(7, 0);
    let mut zero_pattern = Project::with_ids(7, 8);
    zero_pattern.song.patterns.insert(0, Pattern::with_id(0, "Zero".to_string()));
    zero_pattern.song.pattern_order.push(0);
    assert!(zero_pattern.is_well_formed());
    let mut zero_instrument = Project::with_ids(7, 8);
    zero_instrument.instruments.insert(0, Instrument { id: 0, name: "Zero".to_string() });
    zero_instrument.generator_list.push(0);
    let mut zero_controller = Project::with_ids(7, 8);
    zero_controller.controllers.insert(0, Controller { id: 0, name: "Zero".to_string() });
    zero_controller.generator_list.push(0);
    for on_file in [zero_project, zero_song, zero_pattern, zero_instrument, zero_controller] {
        let mut store = new_store();
        assert_eq!(
            store.dispatch(1, &msg, ids(0), FileOutcome::Loaded(on_file)),
            Err(DispatchError::PersistenceFailure)
        );
        assert_eq!(store, new_store());
    }
}

#[test]
fn update_needs_no_identifier_for_what_creates_nothing() {
    let mut store = new_store();
    assert_eq!(
        store.update(1, Msg::SetActiveProject(9), FileOutcome::NotRequested),
        Ok(vec![Reply::ActiveProjectChanged(1, "9".to_string())])
    );
    assert_eq!(
        store.update(2, Msg::Undo(PROJECT), FileOutcome::NotRequested),
        Ok(vec![Reply::NothingChanged(2)])
    );
    assert!(Msg::NewProject.needs_fresh_ids());
    assert!(Msg::AddPattern(1, "a".to_string()).needs_fresh_ids());
    assert!(Msg::AddInstrument(1, "a".to_string()).needs_fresh_ids());
    assert!(Msg::AddController(1, "a".to_string()).needs_fresh_ids());
    assert!(!Msg::Undo(1).needs_fresh_ids());
    assert!(!Msg::AddNote(1, 1, 1, "{}".to_string()).needs_fresh_ids());
    assert!(!Msg::LoadProject("p".to_string()).needs_fresh_ids());
}

#[test]
fn delete_note_then_undo_puts_the_note_back_where_it_stood() {
    let mut store = store_with_five_patterns();
    send(&mut store, 6, Msg::AddNote(PROJECT, 1, 50, note_json(1, 60, 0, 96)), 0).unwrap();
    send(&mut store, 7, Msg::AddNote(PROJECT, 1, 50, note_json(2, 62, 96, 96)), 0).unwrap();
    send(&mut store, 8, Msg::AddNote(PROJECT, 1, 50, note_json(3, 64, 192, 96)), 0).unwrap();
    let before = store.projects[&PROJECT].clone();
    send(&mut store, 9, Msg::DeleteNote(PROJECT, 1, 50, 2), 0).unwrap();
    let ids_left: Vec<u64> = notes(&store, 1, 50).iter().map(|n| n.id).collect();
    assert_eq!(ids_left, vec![1, 3]);
    match store.command_queues[&PROJECT].commands.last() {
        Some(Command::DeleteNote(c)) => assert_eq!((c.index, c.note.id), (1, 2)),
        _ => panic!("the entry is no deletion"),
    }
    send(&mut store, 10, Msg::Undo(PROJECT), 0).unwrap();
    let ids_back: Vec<u64> = notes(&store, 1, 50).iter().map(|n| n.id).collect();
    assert_eq!(ids_back, vec![1, 2, 3]);
    assert_eq!(project(&store), &before);
}

#[test]
fn add_note_holds_whether_it_creates_the_list() {
    let mut store = store_with_five_patterns();
    send(&mut store, 6, Msg::AddNote(PROJECT, 1, 50, note_json(1, 60, 0, 96)), 0).unwrap();
    send(&mut store, 7, Msg::AddNote(PROJECT, 1, 50, note_json(2, 62, 96, 96)), 0).unwrap();
    let flags: Vec<bool> = store.command_queues[&PROJECT].commands[5..]
        .iter()
        .map(|command| match command {
            Command::AddNote(c) => c.creates_list,
            _ => panic!("the entry is no addition"),
        })
        .collect();
    assert_eq!(flags, vec![true, false]);
    send(&mut store, 8, Msg::Undo(PROJECT), 0).unwrap();
    assert!(has_list(&store, 1, 50));
    send(&mut store, 9, Msg::Undo(PROJECT), 0).unwrap();
    assert!(!has_list(&store, 1, 50));
    send(&mut store, 10, Msg::Redo(PROJECT), 0).unwrap();
    send(&mut store, 11, Msg::Redo(PROJECT), 0).unwrap();
    assert_eq!(notes(&store, 1, 50).len(), 2);
}

#[test]
fn requests_on_an_unknown_project_are_turned_down() {
    let messages = vec![
        Msg::Undo(404),
        Msg::Redo(404),
        Msg::JournalStartEntry(404),
        Msg::JournalCommitEntry(404),
        Msg::AddInstrument(404, "x".to_string()),
        Msg::AddController(404, "x".to_string()),
        Msg::RemoveGenerator(404, 1),
        Msg::SetActivePattern(404, 1),
        Msg::SetActiveInstrument(404, 1),
        Msg::SetActiveController(404, 1),
        Msg::AddPattern(404, "x".to_string()),
        Msg::DeletePattern(404, 1),
        Msg::AddNote(404, 1, 1, note_json(1, 60, 0, 96)),
        Msg::DeleteNote(404, 1, 1, 1),
        Msg::MoveNote(404, 1, 1, 1, 60, 0),
        Msg::ResizeNote(404, 1, 1, 1, 10),
    ];
    for msg in messages {
        let mut store = new_store();
        assert_eq!(
            send(&mut store, 1, msg, 7),
            Err(DispatchError::ReferentialIntegrityViolation)
        );
        assert_eq!(store, new_store());
    }
}

#[test]
fn requests_on_unknown_patterns_and_notes_are_turned_down() {
    let mut store = store_with_five_patterns();
    send(&mut store, 6, Msg::AddNote(PROJECT, 1, 50, note_json(1, 60, 0, 96)), 0).unwrap();
    let before = store.projects[&PROJECT].clone();
    let history = history_len(&store);
    let messages = vec![
        Msg::DeletePattern(PROJECT, 99),
        Msg::AddNote(PROJECT, 99, 50, note_json(2, 60, 0, 96)),
        Msg::DeleteNote(PROJECT, 1, 50, 77),
        Msg::DeleteNote(PROJECT, 1, 51, 1),
        Msg::DeleteNote(PROJECT, 99, 50, 1),
        Msg::MoveNote(PROJECT, 1, 50, 77, 60, 0),
        Msg::ResizeNote(PROJECT, 1, 50, 77, 10),
        Msg::RemoveGenerator(PROJECT, 77),
    ];
    for msg in messages {
        assert_eq!(
            send(&mut store, 9, msg, 0),
            Err(DispatchError::ReferentialIntegrityViolation)
        );
    }
    assert_eq!(project(&store), &before);
    assert_eq!(history_len(&store), history);
}

#[test]
fn malformed_note_is_turned_down_before_anything_changes() {
    let mut store = store_with_five_patterns();
    let before = store.projects[&PROJECT].clone();
    let payloads = vec![
        "",
        "not json",
        "[1,2,3]",
        "{\"id\":1,\"key\":60,\"offset\":0,\"length\":96}",
        "{\"id\":1,\"key\":256,\"offset\":0,\"length\":96,\"velocity\":100}",
        "{\"id\":1,\"key\":60,\"offset\":0,\"length\":96,\"velocity\":300}",
        "{\"id\":1,\"key\":60,\"offset\":-1,\"length\":96,\"velocity\":100}",
        "{\"id\":1,\"key\":60,\"offset\":0.5,\"length\":96,\"velocity\":100}",
        "{\"id\":\"1\",\"key\":60,\"offset\":0,\"length\":96,\"velocity\":100}",
    ];
    for payload in payloads {
        assert_eq!(
            send(&mut store, 9, Msg::AddNote(PROJECT, 1, 50, payload.to_string()), 0),
            Err(DispatchError::MalformedNotePayload)
        );
    }
    assert_eq!(
        send(&mut store, 9, Msg::AddNote(404, 1, 50, "nothing".to_string()), 0),
        Err(DispatchError::MalformedNotePayload)
    );
    assert_eq!(
        send(&mut store, 9, Msg::MoveNote(PROJECT, 1, 50, 1, 256, 0), 0),
        Err(DispatchError::MalformedNotePayload)
    );
    assert_eq!(project(&store), &before);
    assert_eq!(history_len(&store), 5);
}

#[test]
fn add_note_reads_every_field_of_the_payload() {
    let mut store = store_with_five_patterns();
    let payload = "{\"velocity\":17,\"length\":4,\"offset\":3,\"key\":2,\"id\":1,\"extra\":9}";
    send(&mut store, 9, Msg::AddNote(PROJECT, 1, 50, payload.to_string()), 0).unwrap();
    assert_eq!(
        notes(&store, 1, 50),
        vec![Note { id: 1, key: 2, length: 4, offset: 3, velocity: 17 }]
    );
}

#[test]
fn delete_move_and_resize_note_through_the_dispatcher() {
    let mut store = store_with_five_patterns();
    send(&mut store, 6, Msg::AddNote(PROJECT, 1, 50, note_json(1, 60, 0, 96)), 0).unwrap();
    send(&mut store, 7, Msg::AddNote(PROJECT, 1, 50, note_json(2, 62, 96, 96)), 0).unwrap();
    assert_eq!(
        send(&mut store, 8, Msg::MoveNote(PROJECT, 1, 50, 1, 70, 48), 0),
        Ok(vec![Reply::NoteMoved(8, note_text(1, 50))])
    );
    assert_eq!(notes(&store, 1, 50)[0], Note { id: 1, key: 60, length: 96, offset: 48, velocity: 100 });
    match store.command_queues[&PROJECT].commands.last() {
        Some(Command::MoveNote(c)) => {
            assert_eq!((c.old_key, c.new_key, c.old_offset, c.new_offset), (60, 70, 0, 48));
        },
        _ => panic!("the entry is no move"),
    }
    assert_eq!(
        send(&mut store, 9, Msg::ResizeNote(PROJECT, 1, 50, 2, 12), 0),
        Ok(vec![Reply::NoteResized(9, note_text(1, 50))])
    );
    assert_eq!(notes(&store, 1, 50)[1].length, 12);
    assert_eq!(
        send(&mut store, 10, Msg::DeleteNote(PROJECT, 1, 50, 2), 0),
        Ok(vec![Reply::NoteDeleted(10, note_text(1, 50))])
    );
    assert_eq!(notes(&store, 1, 50).len(), 1);
    send(&mut store, 11, Msg::Undo(PROJECT), 0).unwrap();
    assert_eq!(notes(&store, 1, 50)[1], Note { id: 2, key: 62, length: 12, offset: 96, velocity: 100 });
    send(&mut store, 12, Msg::Undo(PROJECT), 0).unwrap();
    assert_eq!(notes(&store, 1, 50)[1].length, 96);
    send(&mut store, 13, Msg::Undo(PROJECT), 0).unwrap();
    assert_eq!(notes(&store, 1, 50)[0].offset, 0);
}

#[test]
fn generators_are_added_and_removed() {
    let mut store = new_store();
    assert_eq!(
        send(&mut store, 1, Msg::AddInstrument(PROJECT, "Piano".to_string()), 5),
        Ok(vec![Reply::InstrumentAdded(1)])
    );
    assert_eq!(
        send(&mut store, 2, Msg::AddController(PROJECT, "Volume".to_string()), 6),
        Ok(vec![Reply::ControllerAdded(2)])
    );
    assert_eq!(project(&store).generator_list, vec![5, 6]);
    assert_eq!(project(&store).instruments[&5].name, "Piano");
    assert_eq!(project(&store).controllers[&6].name, "Volume");
    assert_eq!(
        send(&mut store, 3, Msg::RemoveGenerator(PROJECT, 5), 0),
        Ok(vec![Reply::GeneratorRemoved(3)])
    );
    assert_eq!(project(&store).generator_list, vec![6]);
    assert!(project(&store).instruments.is_empty());
    assert_eq!(history_len(&store), 2);
    assert_eq!(pointer(&store), 2);
    assert!(store.is_well_formed());
}

#[test]
fn selections_are_set_without_history() {
    let mut store = new_store();
    assert_eq!(
        send(&mut store, 1, Msg::SetActivePattern(PROJECT, 3), 0),
        Ok(vec![Reply::ActivePatternSet(1)])
    );
    assert_eq!(
        send(&mut store, 2, Msg::SetActiveInstrument(PROJECT, 4), 0),
        Ok(vec![Reply::ActiveInstrumentSet(2)])
    );
    assert_eq!(
        send(&mut store, 3, Msg::SetActiveController(PROJECT, 5), 0),
        Ok(vec![Reply::ActiveControllerSet(3)])
    );
    let song = &project(&store).song;
    assert_eq!(
        (song.active_pattern_id, song.active_instrument_id, song.active_controller_id),
        (3, 4, 5)
    );
    send(&mut store, 4, Msg::SetActivePattern(PROJECT, 0), 0).unwrap();
    assert_eq!(project(&store).song.active_pattern_id, 0);
    assert_eq!(history_len(&store), 0);
}

#[test]
fn undo_that_no_longer_fits_is_turned_down_and_changes_nothing() {
    let mut store = store_with_five_patterns();
    send(&mut store, 6, Msg::AddNote(PROJECT, 1, 50, note_json(1, 60, 0, 96)), 0).unwrap();
    send(&mut store, 7, Msg::MoveNote(PROJECT, 1, 50, 1, 60, 10), 0).unwrap();
    store.projects.get_mut(&PROJECT).unwrap().song.patterns.get_mut(&1).unwrap().generator_notes.clear();
    let before = store.projects[&PROJECT].clone();
    let at = pointer(&store);
    assert_eq!(
        send(&mut store, 8, Msg::Undo(PROJECT), 0),
        Err(DispatchError::ReferentialIntegrityViolation)
    );
    assert_eq!(pointer(&store), at);
    assert_eq!(project(&store), &before);
}

#[test]
fn redo_that_no_longer_fits_is_turned_down_and_changes_nothing() {
    let mut store = new_store();
    send(&mut store, 1, Msg::AddInstrument(PROJECT, "Piano".to_string()), 5).unwrap();
    send(&mut store, 2, Msg::Undo(PROJECT), 0).unwrap();
    store.projects.get_mut(&PROJECT).unwrap().generator_list.push(5);
    store.projects.get_mut(&PROJECT).unwrap().controllers.insert(
        5,
        Controller { id: 5, name: "Taken".to_string() },
    );
    let before = store.projects[&PROJECT].clone();
    assert_eq!(
        send(&mut store, 3, Msg::Redo(PROJECT), 0),
        Err(DispatchError::ReferentialIntegrityViolation)
    );
    assert_eq!(pointer(&store), 0);
    assert_eq!(project(&store), &before);
}

#[test]
fn every_message_is_owned_by_exactly_one_handler() {
    let messages = vec![
        Msg::NewProject,
        Msg::SetActiveProject(1),
        Msg::CloseProject(1),
        Msg::SaveProject(1, "p".to_string()),
        Msg::LoadProject("p".to_string()),
        Msg::Undo(1),
        Msg::Redo(1),
        Msg::JournalStartEntry(1),
        Msg::JournalCommitEntry(1),
        Msg::AddInstrument(1, "x".to_string()),
        Msg::AddController(1, "x".to_string()),
        Msg::RemoveGenerator(1, 1),
        Msg::SetActivePattern(1, 1),
        Msg::SetActiveInstrument(1, 1),
        Msg::SetActiveController(1, 1),
        Msg::AddPattern(1, "x".to_string()),
        Msg::DeletePattern(1, 1),
        Msg::AddNote(1, 1, 1, "{}".to_string()),
        Msg::DeleteNote(1, 1, 1, 1),
        Msg::MoveNote(1, 1, 1, 1, 1, 1),
        Msg::ResizeNote(1, 1, 1, 1, 1),
    ];
    for msg in messages {
        let by_store =
            store_message_handler(&mut new_store(), 1, &msg, ids(7), FileOutcome::NotRequested)
                .is_some();
        let by_project = project_message_handler(&mut new_store(), 1, &msg, ids(7)).is_some();
        let by_pattern = pattern_message_handler(&mut new_store(), 1, &msg, ids(7)).is_some();
        let owners = [by_store, by_project, by_pattern].iter().filter(|owned| **owned).count();
        assert_eq!(owners, 1);
    }
}
