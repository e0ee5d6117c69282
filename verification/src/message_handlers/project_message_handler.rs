//! Requests on the generators of a project and on what is selected in it.

use crate::commands::command::Command;
use crate::commands::command::CommandView;
use crate::commands::project_commands::remove_generator;
use crate::commands::project_commands::AddControllerCommand;
use crate::commands::project_commands::AddInstrumentCommand;
use crate::commands::reversal::lemma_remove_generator_wf;
use crate::model::project::ProjectView;
use crate::model::reply::single_reply;
use crate::model::reply::Reply;
use crate::model::reply::ReplyView;
use crate::model::song::SongView;
use crate::model::store::lemma_refiled;
use crate::model::store::result_view;
use crate::model::store::DispatchError;
use crate::model::store::FreshIds;
use crate::model::store::Msg;
use crate::model::store::Outcome;
use crate::model::store::Store;
use crate::model::store::StoreView;
use crate::util::execute_and_push::execute_and_push;
use vstd::prelude::*;

verus! {

broadcast use vstd::std_specs::hash::group_hash_axioms;

/// What of a song can be selected.
#[derive(Clone, Copy, Debug, PartialEq, Eq)]
pub enum Selection {
    Pattern,
    Instrument,
    Controller,
}

impl ProjectView {
    /// The project with the selection set to `id`; 0 selects nothing.
    pub open spec fn selecting(self, selection: Selection, id: u64) -> ProjectView {
        match selection {
            Selection::Pattern => ProjectView {
                song: SongView { active_pattern_id: id, ..self.song },
                ..self
            },
            Selection::Instrument => ProjectView {
                song: SongView { active_instrument_id: id, ..self.song },
                ..self
            },
            Selection::Controller => ProjectView {
                song: SongView { active_controller_id: id, ..self.song },
                ..self
            },
        }
    }
}

impl Selection {
    /// The reply that confirms a selection of this kind.
    pub open spec fn confirmation(self, request_id: u64) -> ReplyView {
        match self {
            Selection::Pattern => ReplyView::ActivePatternSet(request_id),
            Selection::Instrument => ReplyView::ActiveInstrumentSet(request_id),
            Selection::Controller => ReplyView::ActiveControllerSet(request_id),
        }
    }
}

impl StoreView {
    /// A new instrument of the given name is added to the project. A new
    /// identifier that is 0 or in use is turned down.
    pub open spec fn add_instrument(
        self,
        request_id: u64,
        project_id: u64,
        name: Seq<char>,
        fresh_id: u64,
    ) -> Outcome {
        if !self.has_project(project_id) {
            self.rejected(DispatchError::ReferentialIntegrityViolation)
        } else if fresh_id == 0 {
            self.rejected(DispatchError::ZeroId)
        } else if self.projects[project_id].has_generator(fresh_id) {
            self.rejected(DispatchError::IdCollision)
        } else {
            self.execute_and_push(
                request_id,
                project_id,
                CommandView::AddInstrument { id: fresh_id, name },
            )
        }
    }

    /// A new controller of the given name is added to the project. A new
    /// identifier that is 0 or in use is turned down.
    pub open spec fn add_controller(
        self,
        request_id: u64,
        project_id: u64,
        name: Seq<char>,
        fresh_id: u64,
    ) -> Outcome {
        if !self.has_project(project_id) {
            self.rejected(DispatchError::ReferentialIntegrityViolation)
        } else if fresh_id == 0 {
            self.rejected(DispatchError::ZeroId)
        } else if self.projects[project_id].has_generator(fresh_id) {
            self.rejected(DispatchError::IdCollision)
        } else {
            self.execute_and_push(
                request_id,
                project_id,
                CommandView::AddController { id: fresh_id, name },
            )
        }
    }

    /// The generator is removed from the project. The removal is no command:
    /// it is not filed for undo, and the undo history stays as it is.
    pub open spec fn remove_generator(
        self,
        request_id: u64,
        project_id: u64,
        generator_id: u64,
    ) -> Outcome {
        if !self.has_project(project_id) || !self.projects[project_id].has_generator(
            generator_id,
        ) {
            self.rejected(DispatchError::ReferentialIntegrityViolation)
        } else {
            self.with_project(
                project_id,
                self.projects[project_id].remove_generator(generator_id),
            ).answered(seq![ReplyView::GeneratorRemoved(request_id)])
        }
    }

    /// The selection of the project is set; 0 selects nothing. Whether the
    /// selected thing exists is not looked at, and nothing is filed for undo.
    pub open spec fn select(
        self,
        request_id: u64,
        project_id: u64,
        selection: Selection,
        id: u64,
    ) -> Outcome {
        if !self.has_project(project_id) {
            self.rejected(DispatchError::ReferentialIntegrityViolation)
        } else {
            self.with_project(
                project_id,
                self.projects[project_id].selecting(selection, id),
            ).answered(seq![selection.confirmation(request_id)])
        }
    }

    /// What a request on a project does to the store and is answered with;
    /// nothing for a request of another kind.
    pub open spec fn project_message(self, request_id: u64, msg: Msg, ids: FreshIds) -> Option<
        Outcome,
    > {
        match msg {
            Msg::AddInstrument(project_id, name) => Some(
                self.add_instrument(request_id, project_id, name@, ids.first),
            ),
            Msg::AddController(project_id, name) => Some(
                self.add_controller(request_id, project_id, name@, ids.first),
            ),
            Msg::RemoveGenerator(project_id, generator_id) => Some(
                self.remove_generator(request_id, project_id, generator_id),
            ),
            Msg::SetActivePattern(project_id, id) => Some(
                self.select(request_id, project_id, Selection::Pattern, id),
            ),
            Msg::SetActiveInstrument(project_id, id) => Some(
                self.select(request_id, project_id, Selection::Instrument, id),
            ),
            Msg::SetActiveController(project_id, id) => Some(
                self.select(request_id, project_id, Selection::Controller, id),
            ),
            _ => None,
        }
    }
}

/// Sets a selection of a project of the store.
fn select(store: &mut Store, request_id: u64, project_id: u64, selection: Selection, id: u64) -> (r:
    Result<Vec<Reply>, DispatchError>)
    requires
        old(store)@.wf(),
    ensures
        final(store)@.wf(),
        (Outcome { store: final(store)@, result: result_view(r) }) == old(store)@.select(
            request_id,
            project_id,
            selection,
            id,
        ),
{
    match store.take_project(project_id) {
        None => {
            assert(store@.projects =~= old(store)@.projects);
            Err(DispatchError::ReferentialIntegrityViolation)
        },
        Some(project) => {
            let mut project = project;
            let reply = match selection {
                Selection::Pattern => {
                    project.song.active_pattern_id = id;
                    Reply::ActivePatternSet(request_id)
                },
                Selection::Instrument => {
                    project.song.active_instrument_id = id;
                    Reply::ActiveInstrumentSet(request_id)
                },
                Selection::Controller => {
                    project.song.active_controller_id = id;
                    Reply::ActiveControllerSet(request_id)
                },
            };
            store.put_project(project_id, project);
            proof {
                assert(store@.projects =~= old(store)@.projects.insert(project_id, project@));
                lemma_refiled(old(store)@, store@, project_id);
            }
            Ok(single_reply(reply))
        },
    }
}

/// Handles a request on the generators or the selection of a project. Gives
/// nothing back for a request of another kind.
pub fn project_message_handler(
    store: &mut Store,
    request_id: u64,
    msg: &Msg,
    ids: FreshIds,
) -> (r: Option<Result<Vec<Reply>, DispatchError>>)
    requires
        old(store)@.wf(),
    ensures
        final(store)@.wf(),
        match old(store)@.project_message(request_id, *msg, ids) {
            Some(outcome) => r.is_some() && outcome == (Outcome {
                store: final(store)@,
                result: result_view(r.unwrap()),
            }),
            None => r.is_none() && final(store)@ == old(store)@,
        },
{
    match msg {
        Msg::AddInstrument(project_id, name) => {
            match store.get_project(*project_id) {
                Some(project) => {
                    if ids.first == 0 {
                        return Some(Err(DispatchError::ZeroId));
                    }
                    if project.has_generator(ids.first) {
                        return Some(Err(DispatchError::IdCollision));
                    }
                },
                None => {
                    return Some(Err(DispatchError::ReferentialIntegrityViolation));
                },
            }
            let command = AddInstrumentCommand { id: ids.first, name: name.clone() };
            Some(execute_and_push(store, request_id, *project_id, Command::AddInstrument(command)))
        },
        Msg::AddController(project_id, name) => {
            match store.get_project(*project_id) {
                Some(project) => {
                    if ids.first == 0 {
                        return Some(Err(DispatchError::ZeroId));
                    }
                    if project.has_generator(ids.first) {
                        return Some(Err(DispatchError::IdCollision));
                    }
                },
                None => {
                    return Some(Err(DispatchError::ReferentialIntegrityViolation));
                },
            }
            let command = AddControllerCommand { id: ids.first, name: name.clone() };
            Some(execute_and_push(store, request_id, *project_id, Command::AddController(command)))
        },
        Msg::RemoveGenerator(project_id, generator_id) => {
            match store.take_project(*project_id) {
                None => {
                    assert(store@.projects =~= old(store)@.projects);
                    Some(Err(DispatchError::ReferentialIntegrityViolation))
                },
                Some(project) => {
                    let mut project = project;
                    if !project.has_generator(*generator_id) {
                        store.put_project(*project_id, project);
                        assert(store@.projects =~= old(store)@.projects);
                        return Some(Err(DispatchError::ReferentialIntegrityViolation));
                    }
                    remove_generator(&mut project, *generator_id);
                    store.put_project(*project_id, project);
                    proof {
                        assert(store@.projects =~= old(store)@.projects.insert(
                            *project_id,
                            project@,
                        ));
                        lemma_remove_generator_wf(
                            old(store)@.projects[*project_id],
                            *generator_id,
                        );
                        lemma_refiled(old(store)@, store@, *project_id);
                    }
                    Some(Ok(single_reply(Reply::GeneratorRemoved(request_id))))
                },
            }
        },
        Msg::SetActivePattern(project_id, pattern_id) => Some(
            select(store, request_id, *project_id, Selection::Pattern, *pattern_id),
        ),
        Msg::SetActiveInstrument(project_id, instrument_id) => Some(
            select(store, request_id, *project_id, Selection::Instrument, *instrument_id),
        ),
        Msg::SetActiveController(project_id, controller_id) => Some(
            select(store, request_id, *project_id, Selection::Controller, *controller_id),
        ),
        _ => None,
    }
}

} // verus!
