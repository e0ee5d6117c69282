//! The path of every new edit: execute the command on its project, then file
//! it for undo.

use crate::commands::command::Command;
use crate::commands::command::CommandView;
use crate::commands::reversal::lemma_executed_keeps_id;
use crate::commands::reversal::lemma_execution_keeps_wf;
use crate::model::reply::Reply;
use crate::model::store::lemma_refiled;
use crate::model::store::result_view;
use crate::model::store::DispatchError;
use crate::model::store::Outcome;
use crate::model::store::Store;
use crate::model::store::StoreView;
use vstd::prelude::*;

verus! {

impl StoreView {
    /// A command is executed on a project and filed for undo, in the journal
    /// of the project where that is active, else in its undo history. Where
    /// the project is not open, or the command does not execute cleanly on
    /// it, the request is turned down.
    pub open spec fn execute_and_push(
        self,
        request_id: u64,
        project_id: u64,
        command: CommandView,
    ) -> Outcome {
        if !self.has_project(project_id) || !command.executes_cleanly(self.projects[project_id]) {
            self.rejected(DispatchError::ReferentialIntegrityViolation)
        } else {
            self.with_project(project_id, command.executed(self.projects[project_id])).filed(
                project_id,
                command,
            ).answered(command.execute_replies(request_id))
        }
    }
}

/// Executes a command on a project of the store and files it for undo. The
/// replies of the command come back; nothing changes where the request is
/// turned down.
pub fn execute_and_push(
    store: &mut Store,
    request_id: u64,
    project_id: u64,
    command: Command,
) -> (r: Result<Vec<Reply>, DispatchError>)
    requires
        old(store)@.wf(),
    ensures
        final(store)@.wf(),
        (Outcome { store: final(store)@, result: result_view(r) }) == old(store)@.execute_and_push(
            request_id,
            project_id,
            command@,
        ),
{
    match store.take_project(project_id) {
        None => {
            assert(store@.projects =~= old(store)@.projects);
            Err(DispatchError::ReferentialIntegrityViolation)
        },
        Some(project) => {
            let mut project = project;
            let outcome = command.try_execute(&mut project, request_id);
            store.put_project(project_id, project);
            match outcome {
                None => {
                    assert(store@.projects =~= old(store)@.projects);
                    Err(DispatchError::ReferentialIntegrityViolation)
                },
                Some(replies) => {
                    proof {
                        lemma_execution_keeps_wf(command@, old(store)@.projects[project_id]);
                        assert(store@.projects =~= old(store)@.projects.insert(
                            project_id,
                            project@,
                        ));
                        lemma_executed_keeps_id(command@, old(store)@.projects[project_id]);
                        lemma_refiled(old(store)@, store@, project_id);
                    }
                    store.file_command(project_id, command);
                    Ok(replies)
                },
            }
        },
    }
}

} // verus!
