//! The lifecycle commands: they open, close, save and load projects and pick
//! the active one. They act on the store, not on one project, and are never
//! filed for undo.

use crate::model::project::Project;
use crate::model::project::ProjectView;
use crate::model::reply::single_reply;
use crate::model::reply::Reply;
use crate::model::reply::ReplyView;
use crate::model::store::lemma_refiled;
use crate::model::store::result_view;
use crate::model::store::DispatchError;
use crate::model::store::FileOutcome;
use crate::model::store::FreshIds;
use crate::model::store::Outcome;
use crate::model::store::Store;
use crate::model::store::StoreView;
use crate::util::decimal::signed_decimal;
use crate::util::decimal::signed_decimal_string;
use vstd::prelude::*;

verus! {

broadcast use vstd::std_specs::hash::group_hash_axioms;

impl ProjectView {
    /// The project as it is right after a load from `path`: saved, and filed
    /// at that path.
    pub open spec fn loaded_from(self, path: Seq<char>) -> ProjectView {
        ProjectView { is_saved: true, file_path: path, ..self }
    }

    /// The project marked as saved.
    pub open spec fn saved(self) -> ProjectView {
        ProjectView { is_saved: true, ..self }
    }
}

impl StoreView {
    /// A new, empty project is opened with the identifiers on hand: the first
    /// for the project, the second for its song. An identifier that is 0, or
    /// one for the project that is in use, is turned down.
    pub open spec fn new_project(self, request_id: u64, ids: FreshIds) -> Outcome {
        if ids.first == 0 || ids.second == 0 {
            self.rejected(DispatchError::ZeroId)
        } else if self.has_project(ids.first) {
            self.rejected(DispatchError::IdCollision)
        } else {
            self.opened(ProjectView::empty(ids.first, ids.second)).answered(
                seq![ReplyView::NewProjectCreated(request_id, signed_decimal(ids.first))],
            )
        }
    }

    /// The active project is set. Whether such a project is open is not
    /// looked at.
    pub open spec fn set_active_project(self, request_id: u64, project_id: u64) -> Outcome {
        (StoreView { active_project_id: project_id, ..self }).answered(
            seq![ReplyView::ActiveProjectChanged(request_id, signed_decimal(project_id))],
        )
    }

    /// The project is closed, with its undo history and its journal.
    pub open spec fn close_project(self, request_id: u64, project_id: u64) -> Outcome {
        self.closed(project_id).answered(seq![ReplyView::ProjectClosed(request_id)])
    }

    /// The project is marked as saved, where its file was written.
    pub open spec fn save_project(
        self,
        request_id: u64,
        project_id: u64,
        file: FileOutcome,
    ) -> Outcome {
        if !self.has_project(project_id) {
            self.rejected(DispatchError::ReferentialIntegrityViolation)
        } else if !(file is Written) {
            self.rejected(DispatchError::PersistenceFailure)
        } else {
            self.with_project(project_id, self.projects[project_id].saved()).answered(
                seq![ReplyView::ProjectSaved(request_id)],
            )
        }
    }

    /// The project that was read from the file is opened, where one was read,
    /// it is well formed and holds no identifier that is 0, and its
    /// identifier is not in use.
    pub open spec fn load_project(
        self,
        request_id: u64,
        path: Seq<char>,
        file: FileOutcome,
    ) -> Outcome {
        match file {
            FileOutcome::Loaded(project) => {
                if !project@.wf() || !project@.has_no_zero_id() {
                    self.rejected(DispatchError::PersistenceFailure)
                } else if self.has_project(project.id) {
                    self.rejected(DispatchError::IdCollision)
                } else {
                    self.opened(project@.loaded_from(path)).answered(
                        seq![ReplyView::ProjectLoaded(request_id, signed_decimal(project.id))],
                    )
                }
            },
            _ => self.rejected(DispatchError::PersistenceFailure),
        }
    }
}

/// Opens a new, empty project.
#[derive(Clone, Copy, Debug)]
pub struct NewProjectCommand;

impl NewProjectCommand {
    pub fn execute(&self, store: &mut Store, request_id: u64, ids: FreshIds) -> (r: Result<
        Vec<Reply>,
        DispatchError,
    >)
        requires
            old(store)@.wf(),
        ensures
            final(store)@.wf(),
            (Outcome { store: final(store)@, result: result_view(r) }) == old(store)@.new_project(
                request_id,
                ids,
            ),
    {
        if ids.first == 0 || ids.second == 0 {
            return Err(DispatchError::ZeroId);
        }
        if store.get_project(ids.first).is_some() {
            return Err(DispatchError::IdCollision);
        }
        store.open_project(Project::with_ids(ids.first, ids.second));
        Ok(single_reply(Reply::NewProjectCreated(request_id, signed_decimal_string(ids.first))))
    }
}

/// Makes a project the active one.
#[derive(Clone, Copy, Debug)]
pub struct SetActiveProjectCommand {
    pub project_id: u64,
}

impl SetActiveProjectCommand {
    pub fn execute(&self, store: &mut Store, request_id: u64) -> (r: Result<
        Vec<Reply>,
        DispatchError,
    >)
        requires
            old(store)@.wf(),
        ensures
            final(store)@.wf(),
            (Outcome { store: final(store)@, result: result_view(r) }) == old(
                store,
            )@.set_active_project(request_id, self.project_id),
    {
        store.active_project_id = self.project_id;
        Ok(
            single_reply(
                Reply::ActiveProjectChanged(request_id, signed_decimal_string(self.project_id)),
            ),
        )
    }
}

/// Closes a project.
#[derive(Clone, Copy, Debug)]
pub struct CloseProjectCommand {
    pub project_id: u64,
}

impl CloseProjectCommand {
    pub fn execute(&self, store: &mut Store, request_id: u64) -> (r: Result<
        Vec<Reply>,
        DispatchError,
    >)
        requires
            old(store)@.wf(),
        ensures
            final(store)@.wf(),
            (Outcome { store: final(store)@, result: result_view(r) }) == old(
                store,
            )@.close_project(request_id, self.project_id),
    {
        store.close_project(self.project_id);
        Ok(single_reply(Reply::ProjectClosed(request_id)))
    }
}

/// Records that a project was saved to a file. Writing the file is the
/// caller's part; the command is handed what came of it.
#[derive(Clone, Debug)]
pub struct SaveProjectCommand {
    pub project_id: u64,
    pub path: String,
}

impl SaveProjectCommand {
    pub fn execute(&self, store: &mut Store, request_id: u64, file: &FileOutcome) -> (r: Result<
        Vec<Reply>,
        DispatchError,
    >)
        requires
            old(store)@.wf(),
        ensures
            final(store)@.wf(),
            (Outcome { store: final(store)@, result: result_view(r) }) == old(store)@.save_project(
                request_id,
                self.project_id,
                *file,
            ),
    {
        match store.take_project(self.project_id) {
            None => {
                assert(store@.projects =~= old(store)@.projects);
                Err(DispatchError::ReferentialIntegrityViolation)
            },
            Some(project) => {
                let mut project = project;
                let written = match file {
                    FileOutcome::Written => true,
                    _ => false,
                };
                if !written {
                    store.put_project(self.project_id, project);
                    assert(store@.projects =~= old(store)@.projects);
                    return Err(DispatchError::PersistenceFailure);
                }
                project.is_saved = true;
                store.put_project(self.project_id, project);
                proof {
                    assert(store@.projects =~= old(store)@.projects.insert(
                        self.project_id,
                        project@,
                    ));
                    lemma_refiled(old(store)@, store@, self.project_id);
                }
                Ok(single_reply(Reply::ProjectSaved(request_id)))
            },
        }
    }
}

/// Opens a project that was read from a file. Reading the file is the
/// caller's part; the command is handed what came of it.
#[derive(Clone, Debug)]
pub struct LoadProjectCommand {
    pub path: String,
}

impl LoadProjectCommand {
    pub fn execute(&self, store: &mut Store, request_id: u64, file: FileOutcome) -> (r: Result<
        Vec<Reply>,
        DispatchError,
    >)
        requires
            old(store)@.wf(),
        ensures
            final(store)@.wf(),
            (Outcome { store: final(store)@, result: result_view(r) }) == old(store)@.load_project(
                request_id,
                self.path@,
                file,
            ),
    {
        match file {
            FileOutcome::Loaded(project) => {
                let mut project = project;
                if !project.is_well_formed() || !project.has_no_zero_id() {
                    return Err(DispatchError::PersistenceFailure);
                }
                if store.get_project(project.id).is_some() {
                    return Err(DispatchError::IdCollision);
                }
                let id = project.id;
                project.is_saved = true;
                project.file_path = self.path.clone();
                store.open_project(project);
                Ok(single_reply(Reply::ProjectLoaded(request_id, signed_decimal_string(id))))
            },
            _ => Err(DispatchError::PersistenceFailure),
        }
    }
}

/// A save changes nothing of the document: the project is the same but for
/// being marked as saved.
pub proof fn lemma_save_keeps_the_document(
    store: StoreView,
    request_id: u64,
    project_id: u64,
    file: FileOutcome,
)
    requires
        store.has_project(project_id),
    ensures
        store.save_project(request_id, project_id, file).store.projects[project_id].same_document(
            store.projects[project_id],
        ),
        store.save_project(request_id, project_id, file).result.is_ok() <==> file is Written,
        file is Written ==> store.save_project(
            request_id,
            project_id,
            file,
        ).store.projects[project_id].is_saved,
{
}

/// A load opens the document that the file holds: the project that is opened
/// is that of the file but for being marked as saved and filed at the path of
/// the load, and it starts with an empty undo history.
pub proof fn lemma_load_opens_the_document(
    store: StoreView,
    request_id: u64,
    path: Seq<char>,
    file: FileOutcome,
)
    requires
        store.wf(),
        file is Loaded,
        file->Loaded_0@.wf(),
        file->Loaded_0@.has_no_zero_id(),
        !store.has_project(file->Loaded_0.id),
    ensures
        ({
            let on_file = file->Loaded_0@;
            let after = store.load_project(request_id, path, file).store;
            &&& after.wf()
            &&& after.has_project(on_file.id)
            &&& after.projects[on_file.id].same_document(on_file)
            &&& after.projects[on_file.id].is_saved
            &&& after.projects[on_file.id].file_path == path
            &&& after.command_queues[on_file.id] == crate::model::command_queue::CommandQueueView::empty()
            &&& after.project_order == store.project_order.push(on_file.id)
        }),
{
    crate::model::store::lemma_opened_wf(store, file->Loaded_0@.loaded_from(path));
}

/// A project that is saved and then loaded is the same document, where the
/// file that is read holds the document that was written: song, instruments,
/// controllers and generator list are those of the project that was saved.
pub proof fn lemma_save_then_load(
    saving: StoreView,
    loading: StoreView,
    request_id: u64,
    project_id: u64,
    path: Seq<char>,
    written: FileOutcome,
    read: FileOutcome,
)
    requires
        saving.wf(),
        saving.has_project(project_id),
        written is Written,
        loading.wf(),
        !loading.has_project(project_id),
        read is Loaded,
        read->Loaded_0@.wf(),
        read->Loaded_0@.has_no_zero_id(),
        read->Loaded_0@.same_document(
            saving.save_project(request_id, project_id, written).store.projects[project_id],
        ),
    ensures
        loading.load_project(request_id, path, read).result.is_ok(),
        loading.load_project(request_id, path, read).store.projects[project_id].same_document(
            saving.projects[project_id],
        ),
{
}

} // verus!
