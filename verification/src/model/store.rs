//! The store: the open projects, their display order, and for each project
//! its undo history and its journal.

use crate::commands::command::Command;
use crate::commands::command::CommandView;
use crate::model::command_queue::CommandQueue;
use crate::model::command_queue::CommandQueueView;
use crate::model::journal_page_accumulator::JournalPageAccumulator;
use crate::model::journal_page_accumulator::JournalView;
use crate::model::project::Project;
use crate::model::project::ProjectView;
use crate::model::reply::reply_views;
use crate::model::reply::Reply;
use crate::model::reply::ReplyView;
use crate::util::id_list::has_no_duplicates;
use crate::util::id_list::lemma_list_covers_keys;
use crate::util::id_list::lemma_listed_keys_len;
use crate::util::id_list::without_id;
use std::collections::HashMap;
use vstd::prelude::*;

verus! {

broadcast use vstd::std_specs::hash::group_hash_axioms;

/// A request from the front end. Where a request addresses a project, its
/// first field is the identifier of the project.
#[derive(Clone, Debug, PartialEq, Eq)]
pub enum Msg {
    NewProject,
    SetActiveProject(u64),
    CloseProject(u64),
    /// The project and the path of the file to write.
    SaveProject(u64, String),
    /// The path of the file to read.
    LoadProject(String),
    Undo(u64),
    Redo(u64),
    /// The commands between the start and the commit of a journal entry
    /// become one entry of the undo history.
    JournalStartEntry(u64),
    JournalCommitEntry(u64),
    /// The project and the name of the instrument.
    AddInstrument(u64, String),
    /// The project and the name of the controller.
    AddController(u64, String),
    /// The project and the generator.
    RemoveGenerator(u64, u64),
    /// The project and the pattern; 0 selects none.
    SetActivePattern(u64, u64),
    /// The project and the instrument; 0 selects none.
    SetActiveInstrument(u64, u64),
    /// The project and the controller; 0 selects none.
    SetActiveController(u64, u64),
    /// The project and the name of the pattern.
    AddPattern(u64, String),
    /// The project and the pattern.
    DeletePattern(u64, u64),
    /// The project, the pattern, the generator, and the note as JSON.
    AddNote(u64, u64, u64, String),
    /// The project, the pattern, the generator and the note.
    DeleteNote(u64, u64, u64, u64),
    /// The project, the pattern, the generator, the note, its new key and its
    /// new offset.
    MoveNote(u64, u64, u64, u64, u64, u64),
    /// The project, the pattern, the generator, the note and its new length.
    ResizeNote(u64, u64, u64, u64, u64),
}

/// Why a request was turned down. A request that is turned down changes
/// nothing.
#[derive(Clone, Copy, Debug, PartialEq, Eq, Structural)]
pub enum DispatchError {
    /// The request addresses a project, a pattern, a generator or a note that
    /// is not there, or a command of the undo history no longer fits the
    /// project.
    ReferentialIntegrityViolation,
    /// The note sent with the request is no valid note.
    MalformedNotePayload,
    /// The file of a project could not be written or read, or what was read
    /// is no well-formed project.
    PersistenceFailure,
    /// An identifier that was to be new is in use.
    IdCollision,
    /// An identifier that was to be new is 0, which stands for nothing.
    ZeroId,
    /// No identifier could be drawn for what the request creates.
    IdSourceFailed,
}

/// What the file system did for a request to save or to load a project.
#[derive(Debug, PartialEq, Eq)]
pub enum FileOutcome {
    /// The request needed no file.
    NotRequested,
    /// The file of the project was written.
    Written,
    /// The file was read, and this is the project it holds.
    Loaded(Project),
    /// The file could not be written, or could not be read or understood.
    Failed,
}

/// The identifiers on hand for what a request creates.
#[derive(Clone, Copy, Debug, PartialEq, Eq, Structural)]
pub struct FreshIds {
    /// For the project, the pattern, the instrument or the controller.
    pub first: u64,
    /// For the song of a new project.
    pub second: u64,
}

impl FreshIds {
    /// What is handed to a request that creates nothing.
    pub open spec fn none() -> FreshIds {
        FreshIds { first: 0, second: 0 }
    }
}

impl Msg {
    /// Whether the request creates something that needs a new identifier: a
    /// project, an instrument, a controller or a pattern.
    pub open spec fn creates(self) -> bool {
        self is NewProject || self is AddInstrument || self is AddController || self is AddPattern
    }

    /// Whether the request creates something that needs a new identifier.
    pub fn needs_fresh_ids(&self) -> (r: bool)
        ensures
            r == self.creates(),
    {
        match self {
            Msg::NewProject => true,
            Msg::AddInstrument(_, _) => true,
            Msg::AddController(_, _) => true,
            Msg::AddPattern(_, _) => true,
            _ => false,
        }
    }
}

#[derive(Debug, PartialEq, Eq)]
pub struct Store {
    pub projects: HashMap<u64, Project>,
    pub project_order: Vec<u64>,
    pub active_project_id: u64,
    /// The undo history of each project.
    pub command_queues: HashMap<u64, CommandQueue>,
    /// The journal of each project.
    pub journal_page_accumulators: HashMap<u64, JournalPageAccumulator>,
}

/// What a store is to the contracts.
pub ghost struct StoreView {
    pub projects: Map<u64, ProjectView>,
    pub project_order: Seq<u64>,
    pub active_project_id: u64,
    pub command_queues: Map<u64, CommandQueueView>,
    pub journals: Map<u64, JournalView>,
}

/// The projects of a store, each as its view.
pub open spec fn project_views(projects: Map<u64, Project>) -> Map<u64, ProjectView> {
    projects.map_values(|project: Project| project@)
}

/// The undo histories of a store, each as its view.
pub open spec fn queue_views(queues: Map<u64, CommandQueue>) -> Map<u64, CommandQueueView> {
    queues.map_values(|queue: CommandQueue| queue@)
}

/// The journals of a store, each as its view.
pub open spec fn journal_views(journals: Map<u64, JournalPageAccumulator>) -> Map<
    u64,
    JournalView,
> {
    journals.map_values(|journal: JournalPageAccumulator| journal@)
}

impl View for Store {
    type V = StoreView;

    open spec fn view(&self) -> StoreView {
        StoreView {
            projects: project_views(self.projects@),
            project_order: self.project_order@,
            active_project_id: self.active_project_id,
            command_queues: queue_views(self.command_queues@),
            journals: journal_views(self.journal_page_accumulators@),
        }
    }
}

/// A store after a request, and what the request is answered with.
pub ghost struct Outcome {
    pub store: StoreView,
    pub result: Result<Seq<ReplyView>, DispatchError>,
}

/// The answer to a request as the contracts see it.
pub open spec fn result_view(result: Result<Vec<Reply>, DispatchError>) -> Result<
    Seq<ReplyView>,
    DispatchError,
> {
    match result {
        Ok(replies) => Ok(reply_views(replies@)),
        Err(error) => Err(error),
    }
}

impl StoreView {
    /// The display order names each open project once and nothing else; each
    /// project has an undo history and a journal, and nothing else has one;
    /// each project is well formed and filed under its own identifier; the
    /// pointer of each undo history stands in it or right behind it.
    pub open spec fn wf(self) -> bool {
        &&& self.project_order.no_duplicates()
        &&& forall|id: u64|
            #![trigger self.project_order.contains(id)]
            #![trigger self.projects.contains_key(id)]
            self.project_order.contains(id) <==> self.projects.contains_key(id)
        &&& forall|id: u64|
            #![trigger self.command_queues.contains_key(id)]
            #![trigger self.projects.contains_key(id)]
            self.command_queues.contains_key(id) <==> self.projects.contains_key(id)
        &&& forall|id: u64|
            #![trigger self.journals.contains_key(id)]
            #![trigger self.projects.contains_key(id)]
            self.journals.contains_key(id) <==> self.projects.contains_key(id)
        &&& forall|id: u64| #[trigger]
            self.projects.contains_key(id) ==> self.projects[id].wf() && self.projects[id].id
                == id
        &&& forall|id: u64| #[trigger]
            self.command_queues.contains_key(id) ==> self.command_queues[id].wf()
    }

    pub open spec fn has_project(self, id: u64) -> bool {
        self.projects.contains_key(id)
    }

    /// The store that holds the one project, active, with an empty undo
    /// history and an idle journal.
    pub open spec fn single(project: ProjectView) -> StoreView {
        StoreView {
            projects: Map::empty().insert(project.id, project),
            project_order: seq![project.id],
            active_project_id: project.id,
            command_queues: Map::empty().insert(project.id, CommandQueueView::empty()),
            journals: Map::empty().insert(project.id, JournalView::idle()),
        }
    }

    /// The store with the project opened: last in the display order, with an
    /// empty undo history and an idle journal.
    pub open spec fn opened(self, project: ProjectView) -> StoreView {
        StoreView {
            projects: self.projects.insert(project.id, project),
            project_order: self.project_order.push(project.id),
            command_queues: self.command_queues.insert(project.id, CommandQueueView::empty()),
            journals: self.journals.insert(project.id, JournalView::idle()),
            ..self
        }
    }

    /// The store with the project closed: the project, its undo history and
    /// its journal are gone together.
    pub open spec fn closed(self, id: u64) -> StoreView {
        StoreView {
            projects: self.projects.remove(id),
            project_order: without_id(self.project_order, id),
            command_queues: self.command_queues.remove(id),
            journals: self.journals.remove(id),
            ..self
        }
    }

    /// The store with the project of that identifier replaced.
    pub open spec fn with_project(self, id: u64, project: ProjectView) -> StoreView {
        StoreView { projects: self.projects.insert(id, project), ..self }
    }

    /// The store with the undo history of that project replaced.
    pub open spec fn with_queue(self, id: u64, queue: CommandQueueView) -> StoreView {
        StoreView { command_queues: self.command_queues.insert(id, queue), ..self }
    }

    /// The store with the journal of that project replaced.
    pub open spec fn with_journal(self, id: u64, journal: JournalView) -> StoreView {
        StoreView { journals: self.journals.insert(id, journal), ..self }
    }

    /// The store with a command filed that was just executed on a project: in
    /// the journal of the project where that is active, else at the end of
    /// its undo history.
    pub open spec fn filed(self, id: u64, command: CommandView) -> StoreView {
        if self.journals[id].is_active {
            self.with_journal(id, self.journals[id].recorded(command))
        } else {
            self.with_queue(id, self.command_queues[id].pushed(command))
        }
    }

    /// The request is turned down and the store stays as it is.
    pub open spec fn rejected(self, error: DispatchError) -> Outcome {
        Outcome { store: self, result: Err(error) }
    }

    /// The request is answered from the store as it now is.
    pub open spec fn answered(self, replies: Seq<ReplyView>) -> Outcome {
        Outcome { store: self, result: Ok(replies) }
    }
}

/// Putting a project into the map of a store puts its view into the view of
/// that map, and taking one out takes its view out.
pub proof fn lemma_project_views_update(projects: Map<u64, Project>, id: u64, project: Project)
    ensures
        project_views(projects.insert(id, project)) == project_views(projects).insert(id, project@),
        project_views(projects.remove(id)) == project_views(projects).remove(id),
        project_views(projects).dom() == projects.dom(),
{
    assert(project_views(projects.insert(id, project)) =~= project_views(projects).insert(
        id,
        project@,
    ));
    assert(project_views(projects.remove(id)) =~= project_views(projects).remove(id));
    assert(project_views(projects).dom() =~= projects.dom());
}

/// Putting an undo history into the map of a store puts its view into the
/// view of that map, and taking one out takes its view out.
pub proof fn lemma_queue_views_update(queues: Map<u64, CommandQueue>, id: u64, queue: CommandQueue)
    ensures
        queue_views(queues.insert(id, queue)) == queue_views(queues).insert(id, queue@),
        queue_views(queues.remove(id)) == queue_views(queues).remove(id),
        queue_views(queues).dom() == queues.dom(),
{
    assert(queue_views(queues.insert(id, queue)) =~= queue_views(queues).insert(id, queue@));
    assert(queue_views(queues.remove(id)) =~= queue_views(queues).remove(id));
    assert(queue_views(queues).dom() =~= queues.dom());
}

/// Putting a journal into the map of a store puts its view into the view of
/// that map, and taking one out takes its view out.
pub proof fn lemma_journal_views_update(
    journals: Map<u64, JournalPageAccumulator>,
    id: u64,
    journal: JournalPageAccumulator,
)
    ensures
        journal_views(journals.insert(id, journal)) == journal_views(journals).insert(
            id,
            journal@,
        ),
        journal_views(journals.remove(id)) == journal_views(journals).remove(id),
        journal_views(journals).dom() == journals.dom(),
{
    assert(journal_views(journals.insert(id, journal)) =~= journal_views(journals).insert(
        id,
        journal@,
    ));
    assert(journal_views(journals.remove(id)) =~= journal_views(journals).remove(id));
    assert(journal_views(journals).dom() =~= journals.dom());
}

impl Store {
    /// The store that holds the one, well-formed project.
    pub fn with_project(project: Project) -> (r: Self)
        requires
            project@.wf(),
        ensures
            r@ == StoreView::single(project@),
            r@.wf(),
    {
        let id = project.id;
        let ghost view = project@;
        let mut projects: HashMap<u64, Project> = HashMap::new();
        let mut command_queues: HashMap<u64, CommandQueue> = HashMap::new();
        let mut journal_page_accumulators: HashMap<u64, JournalPageAccumulator> = HashMap::new();
        let queue = CommandQueue::default();
        let journal = JournalPageAccumulator::default();
        proof {
            lemma_project_views_update(projects@, id, project);
            lemma_queue_views_update(command_queues@, id, queue);
            lemma_journal_views_update(journal_page_accumulators@, id, journal);
            assert(project_views(projects@) =~= Map::<u64, ProjectView>::empty());
            assert(queue_views(command_queues@) =~= Map::<u64, CommandQueueView>::empty());
            assert(journal_views(journal_page_accumulators@) =~= Map::<u64, JournalView>::empty());
        }
        projects.insert(id, project);
        command_queues.insert(id, queue);
        journal_page_accumulators.insert(id, journal);
        let mut project_order: Vec<u64> = Vec::new();
        project_order.push(id);
        assert(project_order@ =~= seq![id]);
        let r = Store {
            projects,
            project_order,
            active_project_id: id,
            command_queues,
            journal_page_accumulators,
        };
        assert forall|x: u64| r@.project_order.contains(x) <==> r@.projects.contains_key(x) by {
            if x == id {
                assert(r@.project_order[0] == x);
            }
        }
        r
    }

    /// The store that a session starts with: one empty, unsaved project with
    /// new identifiers, active, with an empty undo history. Nothing where no
    /// identifier can be drawn.
    pub fn create() -> (r: Option<Self>)
        ensures
            r.is_some() ==> {
                let store = r.unwrap()@;
                &&& store.wf()
                &&& store.project_order.len() == 1
                &&& store == StoreView::single(
                    ProjectView::empty(
                        store.active_project_id,
                        store.projects[store.active_project_id].song.id,
                    ),
                )
            },
    {
        match Project::new() {
            Some(project) => Some(Store::with_project(project)),
            None => None,
        }
    }

    /// The project of that identifier, if it is open.
    pub fn get_project(&self, id: u64) -> (r: Option<&Project>)
        ensures
            r.is_some() == self@.has_project(id),
            r.is_some() ==> r.unwrap()@ == self@.projects[id],
    {
        self.projects.get(&id)
    }

    /// Files a command at the end of the undo history of a project, whatever
    /// the journal of the project holds.
    pub fn push_command(&mut self, project_id: u64, command: Command)
        requires
            old(self)@.wf(),
            old(self)@.has_project(project_id),
        ensures
            final(self)@ == old(self)@.with_queue(
                project_id,
                old(self)@.command_queues[project_id].pushed(command@),
            ),
            final(self)@.wf(),
    {
        let found = self.command_queues.remove(&project_id);
        assert(old(self)@.command_queues.contains_key(project_id));
        let mut queue = found.unwrap();
        queue.push_command(command);
        proof {
            lemma_queue_views_update(old(self).command_queues@, project_id, queue);
            lemma_queue_views_update(
                old(self).command_queues@.remove(project_id),
                project_id,
                queue,
            );
            assert(old(self).command_queues@.remove(project_id).insert(project_id, queue)
                =~= old(self).command_queues@.insert(project_id, queue));
        }
        self.command_queues.insert(project_id, queue);
        proof {
            let after = self@;
            assert forall|id: u64|
                after.command_queues.contains_key(id) <==> after.projects.contains_key(id) by {
                assert(old(self)@.command_queues.contains_key(id) <==> old(
                    self,
                )@.projects.contains_key(id));
            }
        }
    }
}

impl Store {
    /// Takes the project of that identifier out of the store, to be put back
    /// by `put_project`.
    pub(crate) fn take_project(&mut self, id: u64) -> (r: Option<Project>)
        ensures
            r.is_some() == old(self)@.has_project(id),
            r.is_some() ==> r.unwrap()@ == old(self)@.projects[id],
            final(self)@ == (StoreView { projects: old(self)@.projects.remove(id), ..old(self)@ }),
    {
        proof {
            lemma_project_views_update(self.projects@, id, arbitrary());
        }
        self.projects.remove(&id)
    }

    /// Files a project under that identifier.
    pub(crate) fn put_project(&mut self, id: u64, project: Project)
        ensures
            final(self)@ == (StoreView {
                projects: old(self)@.projects.insert(id, project@),
                ..old(self)@
            }),
    {
        proof {
            lemma_project_views_update(self.projects@, id, project);
        }
        self.projects.insert(id, project);
    }

    /// Takes the undo history of that project out of the store, to be put
    /// back by `put_queue`.
    pub(crate) fn take_queue(&mut self, id: u64) -> (r: Option<CommandQueue>)
        ensures
            r.is_some() == old(self)@.command_queues.contains_key(id),
            r.is_some() ==> r.unwrap()@ == old(self)@.command_queues[id],
            final(self)@ == (StoreView {
                command_queues: old(self)@.command_queues.remove(id),
                ..old(self)@
            }),
    {
        proof {
            lemma_queue_views_update(self.command_queues@, id, arbitrary());
        }
        self.command_queues.remove(&id)
    }

    /// Files an undo history under the identifier of its project.
    pub(crate) fn put_queue(&mut self, id: u64, queue: CommandQueue)
        ensures
            final(self)@ == (StoreView {
                command_queues: old(self)@.command_queues.insert(id, queue@),
                ..old(self)@
            }),
    {
        proof {
            lemma_queue_views_update(self.command_queues@, id, queue);
        }
        self.command_queues.insert(id, queue);
    }

    /// Takes the journal of that project out of the store, to be put back by
    /// `put_journal`.
    pub(crate) fn take_journal(&mut self, id: u64) -> (r: Option<JournalPageAccumulator>)
        ensures
            r.is_some() == old(self)@.journals.contains_key(id),
            r.is_some() ==> r.unwrap()@ == old(self)@.journals[id],
            final(self)@ == (StoreView { journals: old(self)@.journals.remove(id), ..old(self)@ }),
    {
        proof {
            lemma_journal_views_update(self.journal_page_accumulators@, id, arbitrary());
        }
        self.journal_page_accumulators.remove(&id)
    }

    /// Files a journal under the identifier of its project.
    pub(crate) fn put_journal(&mut self, id: u64, journal: JournalPageAccumulator)
        ensures
            final(self)@ == (StoreView {
                journals: old(self)@.journals.insert(id, journal@),
                ..old(self)@
            }),
    {
        proof {
            lemma_journal_views_update(self.journal_page_accumulators@, id, journal);
        }
        self.journal_page_accumulators.insert(id, journal);
    }

    /// Files a command that was just executed on a project: in the journal of
    /// the project where that is active, else at the end of its undo history.
    pub(crate) fn file_command(&mut self, project_id: u64, command: Command)
        requires
            old(self)@.wf(),
            old(self)@.has_project(project_id),
        ensures
            final(self)@ == old(self)@.filed(project_id, command@),
            final(self)@.wf(),
    {
        let found = self.take_journal(project_id);
        let mut journal = found.unwrap();
        if journal.is_active {
            journal.push_command(command);
            self.put_journal(project_id, journal);
            proof {
                assert(self@.journals =~= old(self)@.journals.insert(project_id, journal@));
                lemma_refiled(old(self)@, self@, project_id);
            }
        } else {
            self.put_journal(project_id, journal);
            assert(self@.journals =~= old(self)@.journals);
            let found = self.take_queue(project_id);
            let mut queue = found.unwrap();
            queue.push_command(command);
            self.put_queue(project_id, queue);
            proof {
                assert(self@.command_queues =~= old(self)@.command_queues.insert(
                    project_id,
                    queue@,
                ));
                lemma_refiled(old(self)@, self@, project_id);
            }
        }
    }
}

/// A store stays well formed where the project, the undo history and the
/// journal of one open project are replaced by well-formed ones, the project
/// keeping its identifier, and all else stays.
pub proof fn lemma_refiled(before: StoreView, after: StoreView, id: u64)
    requires
        before.wf(),
        before.has_project(id),
        after.project_order == before.project_order,
        after.projects.dom() == before.projects.dom(),
        after.command_queues.dom() == before.command_queues.dom(),
        after.journals.dom() == before.journals.dom(),
        forall|x: u64| x != id && before.projects.contains_key(x) ==> after.projects[x] == before.projects[x],
        forall|x: u64| x != id && before.command_queues.contains_key(x) ==> after.command_queues[x] == before.command_queues[x],
        after.projects[id].wf(),
        after.projects[id].id == id,
        after.command_queues[id].wf(),
    ensures
        after.wf(),
{
    assert forall|x: u64| after.project_order.contains(x) <==> after.projects.contains_key(x) by {
        assert(before.project_order.contains(x) <==> before.projects.contains_key(x));
    }
    assert forall|x: u64| after.command_queues.contains_key(x) <==> after.projects.contains_key(x) by {
        assert(before.command_queues.contains_key(x) <==> before.projects.contains_key(x));
    }
    assert forall|x: u64| after.journals.contains_key(x) <==> after.projects.contains_key(x) by {
        assert(before.journals.contains_key(x) <==> before.projects.contains_key(x));
    }
    assert forall|x: u64| #[trigger] after.projects.contains_key(x) implies after.projects[x].wf()
        && after.projects[x].id == x by {
        assert(before.projects.contains_key(x));
    }
    assert forall|x: u64| #[trigger]
        after.command_queues.contains_key(x) implies after.command_queues[x].wf() by {
        assert(before.command_queues.contains_key(x));
    }
}

/// Opening a well-formed project whose identifier is not in use keeps a
/// store well formed.
pub proof fn lemma_opened_wf(store: StoreView, project: ProjectView)
    requires
        store.wf(),
        project.wf(),
        !store.has_project(project.id),
    ensures
        store.opened(project).wf(),
{
    let after = store.opened(project);
    assert(!store.project_order.contains(project.id));
    crate::util::id_list::lemma_push_members(store.project_order, project.id);
    assert forall|x: u64| after.project_order.contains(x) <==> after.projects.contains_key(x) by {
        assert(store.project_order.contains(x) <==> store.projects.contains_key(x));
    }
    assert forall|x: u64| after.command_queues.contains_key(x) <==> after.projects.contains_key(x) by {
        assert(store.command_queues.contains_key(x) <==> store.projects.contains_key(x));
    }
    assert forall|x: u64| after.journals.contains_key(x) <==> after.projects.contains_key(x) by {
        assert(store.journals.contains_key(x) <==> store.projects.contains_key(x));
    }
}

/// Closing a project keeps a store well formed.
pub proof fn lemma_closed_wf(store: StoreView, id: u64)
    requires
        store.wf(),
    ensures
        store.closed(id).wf(),
        !store.closed(id).has_project(id),
{
    let after = store.closed(id);
    crate::util::id_list::lemma_without_members(store.project_order, id);
    assert forall|x: u64| after.project_order.contains(x) <==> after.projects.contains_key(x) by {
        assert(store.project_order.contains(x) <==> store.projects.contains_key(x));
    }
    assert forall|x: u64| after.command_queues.contains_key(x) <==> after.projects.contains_key(x) by {
        assert(store.command_queues.contains_key(x) <==> store.projects.contains_key(x));
    }
    assert forall|x: u64| after.journals.contains_key(x) <==> after.projects.contains_key(x) by {
        assert(store.journals.contains_key(x) <==> store.projects.contains_key(x));
    }
}

impl Store {
    /// Opens a project: files it last in the display order, with an empty
    /// undo history and an idle journal.
    pub fn open_project(&mut self, project: Project)
        requires
            old(self)@.wf(),
            project@.wf(),
            !old(self)@.has_project(project.id),
        ensures
            final(self)@ == old(self)@.opened(project@),
            final(self)@.wf(),
    {
        let id = project.id;
        proof {
            lemma_opened_wf(self@, project@);
        }
        self.project_order.push(id);
        self.put_project(id, project);
        self.put_queue(id, CommandQueue::default());
        self.put_journal(id, JournalPageAccumulator::default());
    }

    /// Closes a project: takes it out of the display order and drops it with
    /// its undo history and its journal. Changes nothing where no such
    /// project is open.
    pub fn close_project(&mut self, id: u64)
        requires
            old(self)@.wf(),
        ensures
            final(self)@ == old(self)@.closed(id),
            final(self)@.wf(),
    {
        proof {
            lemma_closed_wf(self@, id);
        }
        crate::util::id_list::remove_id(&mut self.project_order, id);
        let _ = self.take_project(id);
        let _ = self.take_queue(id);
        let _ = self.take_journal(id);
    }
}

impl Store {
    /// Whether the store is well formed: the display order names each open
    /// project once and nothing else, each project is well formed and filed
    /// under its own identifier with an undo history and a journal, and the
    /// pointer of each undo history stands in it or right behind it.
    pub fn is_well_formed(&self) -> (r: bool)
        ensures
            r == self@.wf(),
    {
        let ghost projects = self.projects@.dom();
        let ghost queues = self.command_queues@.dom();
        let ghost journals = self.journal_page_accumulators@.dom();
        assert(projects =~= self@.projects.dom());
        assert(queues =~= self@.command_queues.dom());
        assert(journals =~= self@.journals.dom());
        if !has_no_duplicates(&self.project_order) {
            return false;
        }
        let total = self.project_order.len();
        if self.projects.len() != total || self.command_queues.len() != total
            || self.journal_page_accumulators.len() != total {
            proof {
                if self@.wf() {
                    lemma_listed_keys_len(self.project_order@, projects);
                    assert(queues =~= projects);
                    assert(journals =~= projects);
                }
            }
            return false;
        }
        let mut i: usize = 0;
        while i < self.project_order.len()
            invariant
                i <= self.project_order.len(),
                projects == self.projects@.dom(),
                queues == self.command_queues@.dom(),
                journals == self.journal_page_accumulators@.dom(),
                projects == self@.projects.dom(),
                queues == self@.command_queues.dom(),
                journals == self@.journals.dom(),
                forall|j: int|
                    #![trigger self.project_order@[j]]
                    0 <= j < i ==> {
                        let id = self.project_order@[j];
                        &&& projects.contains(id)
                        &&& queues.contains(id)
                        &&& journals.contains(id)
                        &&& self@.projects[id].wf()
                        &&& self@.projects[id].id == id
                        &&& self@.command_queues[id].wf()
                    },
            decreases self.project_order.len() - i,
        {
            let id = self.project_order[i];
            assert(self.project_order@.contains(id));
            match self.projects.get(&id) {
                Some(project) => {
                    if project.id != id || !project.is_well_formed() {
                        assert(self@.projects[id] == project@);
                        return false;
                    }
                },
                None => {
                    return false;
                },
            }
            match self.command_queues.get(&id) {
                Some(queue) => {
                    if queue.command_pointer > queue.commands.len() {
                        assert(self@.command_queues[id] == queue@);
                        return false;
                    }
                },
                None => {
                    return false;
                },
            }
            if !self.journal_page_accumulators.contains_key(&id) {
                return false;
            }
            i = i + 1;
        }
        proof {
            let order = self.project_order@;
            lemma_list_covers_keys(order, projects);
            lemma_list_covers_keys(order, queues);
            lemma_list_covers_keys(order, journals);
            assert forall|id: u64| #[trigger]
                self@.projects.contains_key(id) implies self@.projects[id].wf()
                && self@.projects[id].id == id by {
                assert(order.contains(id));
                let j = choose|j: int| 0 <= j < order.len() && order[j] == id;
                assert(projects.contains(order[j]));
            }
            assert forall|id: u64| #[trigger]
                self@.command_queues.contains_key(id) implies self@.command_queues[id].wf() by {
                assert(order.contains(id));
                let j = choose|j: int| 0 <= j < order.len() && order[j] == id;
                assert(projects.contains(order[j]));
            }
            assert forall|id: u64|
                self@.command_queues.contains_key(id) <==> self@.projects.contains_key(id) by {
                assert(order.contains(id) <==> queues.contains(id));
                assert(order.contains(id) <==> projects.contains(id));
            }
            assert forall|id: u64|
                self@.journals.contains_key(id) <==> self@.projects.contains_key(id) by {
                assert(order.contains(id) <==> journals.contains(id));
                assert(order.contains(id) <==> projects.contains(id));
            }
        }
        true
    }
}

} // verus!
