//! Requests on the store itself: the life of projects, undo and redo, and
//! the journal.

use crate::commands::command::CommandView;
use crate::commands::reversal::lemma_execution_keeps_wf;
use crate::commands::reversal::lemma_executed_keeps_id;
use crate::commands::reversal::lemma_rollback_keeps_wf;
use crate::commands::store_commands::CloseProjectCommand;
use crate::commands::store_commands::LoadProjectCommand;
use crate::commands::store_commands::NewProjectCommand;
use crate::commands::store_commands::SaveProjectCommand;
use crate::commands::store_commands::SetActiveProjectCommand;
use crate::model::journal_page_accumulator::JournalView;
use crate::model::reply::single_reply;
use crate::model::reply::Reply;
use crate::model::reply::ReplyView;
use crate::model::store::lemma_refiled;
use crate::model::store::result_view;
use crate::model::store::DispatchError;
use crate::model::store::FileOutcome;
use crate::model::store::FreshIds;
use crate::model::store::Msg;
use crate::model::store::Outcome;
use crate::model::store::Store;
use crate::model::store::StoreView;
use vstd::prelude::*;

verus! {

broadcast use vstd::std_specs::hash::group_hash_axioms;

impl StoreView {
    /// The last applied command of the project is rolled back and the pointer
    /// of its undo history moves back. Where nothing is there to undo, the
    /// answer says so and nothing changes. Where the command no longer rolls
    /// back cleanly on the project, the request is turned down.
    pub open spec fn undo(self, request_id: u64, project_id: u64) -> Outcome {
        if !self.has_project(project_id) {
            self.rejected(DispatchError::ReferentialIntegrityViolation)
        } else {
            match self.command_queues[project_id].undo_target() {
                None => self.answered(seq![ReplyView::NothingChanged(request_id)]),
                Some(command) => {
                    if !command.rolls_back_cleanly(self.projects[project_id]) {
                        self.rejected(DispatchError::ReferentialIntegrityViolation)
                    } else {
                        self.with_project(
                            project_id,
                            command.rolled_back(self.projects[project_id]),
                        ).with_queue(project_id, self.command_queues[project_id].undone()).answered(
                            command.rollback_replies(request_id),
                        )
                    }
                },
            }
        }
    }

    /// The command at the pointer of the undo history of the project is
    /// executed again and the pointer moves on. Where nothing is there to
    /// redo, the answer says so and nothing changes. Where the command no
    /// longer executes cleanly on the project, the request is turned down.
    pub open spec fn redo(self, request_id: u64, project_id: u64) -> Outcome {
        if !self.has_project(project_id) {
            self.rejected(DispatchError::ReferentialIntegrityViolation)
        } else {
            match self.command_queues[project_id].redo_target() {
                None => self.answered(seq![ReplyView::NothingChanged(request_id)]),
                Some(command) => {
                    if !command.executes_cleanly(self.projects[project_id]) {
                        self.rejected(DispatchError::ReferentialIntegrityViolation)
                    } else {
                        self.with_project(
                            project_id,
                            command.executed(self.projects[project_id]),
                        ).with_queue(project_id, self.command_queues[project_id].redone()).answered(
                            command.execute_replies(request_id),
                        )
                    }
                },
            }
        }
    }

    /// A journal entry is opened for the project.
    pub open spec fn journal_start(self, request_id: u64, project_id: u64) -> Outcome {
        if !self.has_project(project_id) {
            self.rejected(DispatchError::ReferentialIntegrityViolation)
        } else {
            self.with_journal(project_id, self.journals[project_id].started()).answered(
                seq![ReplyView::JournalEntryStarted(request_id)],
            )
        }
    }

    /// The journal entry of the project is closed. What it collected becomes
    /// one journal page at the end of the undo history; where it collected
    /// nothing, the undo history stays as it is.
    pub open spec fn journal_commit(self, request_id: u64, project_id: u64) -> Outcome {
        if !self.has_project(project_id) {
            self.rejected(DispatchError::ReferentialIntegrityViolation)
        } else {
            let collected = self.journals[project_id].commands;
            let idle = self.with_journal(project_id, JournalView::idle());
            let after = if collected.len() > 0 {
                idle.with_queue(
                    project_id,
                    self.command_queues[project_id].pushed(CommandView::JournalPage(collected)),
                )
            } else {
                idle
            };
            after.answered(seq![ReplyView::JournalEntryCommitted(request_id)])
        }
    }

    /// What a request on the store does to it and is answered with; nothing
    /// for a request of another kind.
    pub open spec fn store_message(
        self,
        request_id: u64,
        msg: Msg,
        ids: FreshIds,
        file: FileOutcome,
    ) -> Option<Outcome> {
        match msg {
            Msg::NewProject => Some(self.new_project(request_id, ids)),
            Msg::SetActiveProject(project_id) => Some(
                self.set_active_project(request_id, project_id),
            ),
            Msg::CloseProject(project_id) => Some(self.close_project(request_id, project_id)),
            Msg::SaveProject(project_id, path) => Some(
                self.save_project(request_id, project_id, file),
            ),
            Msg::LoadProject(path) => Some(self.load_project(request_id, path@, file)),
            Msg::Undo(project_id) => Some(self.undo(request_id, project_id)),
            Msg::Redo(project_id) => Some(self.redo(request_id, project_id)),
            Msg::JournalStartEntry(project_id) => Some(self.journal_start(request_id, project_id)),
            Msg::JournalCommitEntry(project_id) => Some(
                self.journal_commit(request_id, project_id),
            ),
            _ => None,
        }
    }
}

/// Rolls back the last applied command of a project.
pub fn undo(store: &mut Store, request_id: u64, project_id: u64) -> (r: Result<
    Vec<Reply>,
    DispatchError,
>)
    requires
        old(store)@.wf(),
    ensures
        final(store)@.wf(),
        (Outcome { store: final(store)@, result: result_view(r) }) == old(store)@.undo(
            request_id,
            project_id,
        ),
{
    let found = store.take_project(project_id);
    let mut project = match found {
        Some(project) => project,
        None => {
            assert(store@.projects =~= old(store)@.projects);
            return Err(DispatchError::ReferentialIntegrityViolation);
        },
    };
    let found = store.take_queue(project_id);
    assert(old(store)@.command_queues.contains_key(project_id));
    let mut queue = found.unwrap();
    let ghost before = queue@;
    let outcome = match queue.get_undo_and_bump_pointer() {
        None => None,
        Some(command) => Some(command.try_rollback(&mut project, request_id)),
    };
    let result = match outcome {
        None => Ok(single_reply(Reply::NothingChanged(request_id))),
        Some(Some(replies)) => {
            proof {
                let command = before.undo_target().unwrap();
                lemma_rollback_keeps_wf(command, old(store)@.projects[project_id]);
                lemma_executed_keeps_id(command, old(store)@.projects[project_id]);
            }
            Ok(replies)
        },
        Some(None) => {
            queue.command_pointer = queue.command_pointer + 1;
            assert(queue@ == before);
            Err(DispatchError::ReferentialIntegrityViolation)
        },
    };
    store.put_project(project_id, project);
    store.put_queue(project_id, queue);
    proof {
        assert(store@.projects =~= old(store)@.projects.insert(project_id, project@));
        assert(store@.command_queues =~= old(store)@.command_queues.insert(project_id, queue@));
        if result.is_err() || outcome.is_none() {
            assert(store@.projects =~= old(store)@.projects);
            assert(store@.command_queues =~= old(store)@.command_queues);
        }
        lemma_refiled(old(store)@, store@, project_id);
    }
    result
}

/// Executes again the command at the pointer of the undo history of a project.
pub fn redo(store: &mut Store, request_id: u64, project_id: u64) -> (r: Result<
    Vec<Reply>,
    DispatchError,
>)
    requires
        old(store)@.wf(),
    ensures
        final(store)@.wf(),
        (Outcome { store: final(store)@, result: result_view(r) }) == old(store)@.redo(
            request_id,
            project_id,
        ),
{
    let found = store.take_project(project_id);
    let mut project = match found {
        Some(project) => project,
        None => {
            assert(store@.projects =~= old(store)@.projects);
            return Err(DispatchError::ReferentialIntegrityViolation);
        },
    };
    let found = store.take_queue(project_id);
    assert(old(store)@.command_queues.contains_key(project_id));
    let mut queue = found.unwrap();
    let ghost before = queue@;
    let outcome = match queue.get_redo_and_bump_pointer() {
        None => None,
        Some(command) => Some(command.try_execute(&mut project, request_id)),
    };
    let result = match outcome {
        None => Ok(single_reply(Reply::NothingChanged(request_id))),
        Some(Some(replies)) => {
            proof {
                let command = before.redo_target().unwrap();
                lemma_execution_keeps_wf(command, old(store)@.projects[project_id]);
                lemma_executed_keeps_id(command, old(store)@.projects[project_id]);
            }
            Ok(replies)
        },
        Some(None) => {
            queue.command_pointer = queue.command_pointer - 1;
            assert(queue@ == before);
            Err(DispatchError::ReferentialIntegrityViolation)
        },
    };
    store.put_project(project_id, project);
    store.put_queue(project_id, queue);
    proof {
        assert(store@.projects =~= old(store)@.projects.insert(project_id, project@));
        assert(store@.command_queues =~= old(store)@.command_queues.insert(project_id, queue@));
        if result.is_err() || outcome.is_none() {
            assert(store@.projects =~= old(store)@.projects);
            assert(store@.command_queues =~= old(store)@.command_queues);
        }
        lemma_refiled(old(store)@, store@, project_id);
    }
    result
}

/// Opens a journal entry for a project.
pub fn journal_start(store: &mut Store, request_id: u64, project_id: u64) -> (r: Result<
    Vec<Reply>,
    DispatchError,
>)
    requires
        old(store)@.wf(),
    ensures
        final(store)@.wf(),
        (Outcome { store: final(store)@, result: result_view(r) }) == old(store)@.journal_start(
            request_id,
            project_id,
        ),
{
    match store.take_journal(project_id) {
        None => {
            assert(store@.journals =~= old(store)@.journals);
            assert(!old(store)@.has_project(project_id));
            Err(DispatchError::ReferentialIntegrityViolation)
        },
        Some(journal) => {
            let mut journal = journal;
            assert(old(store)@.has_project(project_id));
            journal.start();
            store.put_journal(project_id, journal);
            proof {
                assert(store@.journals =~= old(store)@.journals.insert(project_id, journal@));
                lemma_refiled(old(store)@, store@, project_id);
            }
            Ok(single_reply(Reply::JournalEntryStarted(request_id)))
        },
    }
}

/// Closes the journal entry of a project and files what it collected as one
/// entry of the undo history.
pub fn journal_commit(store: &mut Store, request_id: u64, project_id: u64) -> (r: Result<
    Vec<Reply>,
    DispatchError,
>)
    requires
        old(store)@.wf(),
    ensures
        final(store)@.wf(),
        (Outcome { store: final(store)@, result: result_view(r) }) == old(store)@.journal_commit(
            request_id,
            project_id,
        ),
{
    match store.take_journal(project_id) {
        None => {
            assert(store@.journals =~= old(store)@.journals);
            assert(!old(store)@.has_project(project_id));
            Err(DispatchError::ReferentialIntegrityViolation)
        },
        Some(journal) => {
            let mut journal = journal;
            assert(old(store)@.has_project(project_id));
            let page = journal.commit();
            store.put_journal(project_id, journal);
            proof {
                assert(store@.journals =~= old(store)@.journals.insert(project_id, journal@));
                lemma_refiled(old(store)@, store@, project_id);
            }
            match page {
                Some(page) => {
                    store.push_command(project_id, page);
                },
                None => {},
            }
            Ok(single_reply(Reply::JournalEntryCommitted(request_id)))
        },
    }
}

/// Handles a request on the store itself. Gives nothing back for a request of
/// another kind.
pub fn store_message_handler(
    store: &mut Store,
    request_id: u64,
    msg: &Msg,
    ids: FreshIds,
    file: FileOutcome,
) -> (r: Option<Result<Vec<Reply>, DispatchError>>)
    requires
        old(store)@.wf(),
    ensures
        final(store)@.wf(),
        match old(store)@.store_message(request_id, *msg, ids, file) {
            Some(outcome) => r.is_some() && outcome == (Outcome {
                store: final(store)@,
                result: result_view(r.unwrap()),
            }),
            None => r.is_none() && final(store)@ == old(store)@,
        },
{
    match msg {
        Msg::NewProject => Some(NewProjectCommand.execute(store, request_id, ids)),
        Msg::SetActiveProject(project_id) => {
            let command = SetActiveProjectCommand { project_id: *project_id };
            Some(command.execute(store, request_id))
        },
        Msg::CloseProject(project_id) => {
            let command = CloseProjectCommand { project_id: *project_id };
            Some(command.execute(store, request_id))
        },
        Msg::SaveProject(project_id, path) => {
            let command = SaveProjectCommand { project_id: *project_id, path: path.clone() };
            Some(command.execute(store, request_id, &file))
        },
        Msg::LoadProject(path) => {
            let command = LoadProjectCommand { path: path.clone() };
            Some(command.execute(store, request_id, file))
        },
        Msg::Undo(project_id) => Some(undo(store, request_id, *project_id)),
        Msg::Redo(project_id) => Some(redo(store, request_id, *project_id)),
        Msg::JournalStartEntry(project_id) => Some(journal_start(store, request_id, *project_id)),
        Msg::JournalCommitEntry(project_id) => Some(
            journal_commit(store, request_id, *project_id),
        ),
        _ => None,
    }
}

} // verus!
