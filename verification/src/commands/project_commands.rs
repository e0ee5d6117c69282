//! Commands on the generators of a project.

use crate::model::generator::Controller;
use crate::model::generator::Instrument;
use crate::model::project::lemma_controller_views_update;
use crate::model::project::lemma_instrument_views_update;
use crate::model::project::Project;
use crate::model::reply::single_reply;
use crate::model::reply::reply_views;
use crate::model::reply::Reply;
use crate::model::reply::ReplyView;
use crate::util::id_list::remove_id;
use vstd::prelude::*;

verus! {

broadcast use vstd::std_specs::hash::group_hash_axioms;

/// Takes the generator out of the generator list and out of both registries,
/// whichever of them holds it.
pub fn remove_generator(project: &mut Project, id: u64)
    ensures
        final(project)@ == old(project)@.remove_generator(id),
{
    proof {
        lemma_instrument_views_update(project.instruments@, id, arbitrary());
        lemma_controller_views_update(project.controllers@, id, arbitrary());
    }
    remove_id(&mut project.generator_list, id);
    project.instruments.remove(&id);
    project.controllers.remove(&id);
}

/// Adds an instrument of the given identifier and name to a project.
#[derive(Clone, Debug, PartialEq, Eq)]
pub struct AddInstrumentCommand {
    pub id: u64,
    pub name: String,
}

impl AddInstrumentCommand {
    /// Appends the identifier to the generator list and files the instrument.
    pub fn execute(&self, project: &mut Project, request_id: u64) -> (replies: Vec<Reply>)
        ensures
            final(project)@ == old(project)@.add_instrument(self.id, self.name@),
            reply_views(replies@) == seq![ReplyView::InstrumentAdded(request_id)],
    {
        let instrument = Instrument { id: self.id, name: self.name.clone() };
        proof {
            lemma_instrument_views_update(project.instruments@, self.id, instrument);
        }
        project.generator_list.push(self.id);
        project.instruments.insert(self.id, instrument);
        single_reply(Reply::InstrumentAdded(request_id))
    }

    /// Removes the generator of that identifier again.
    pub fn rollback(&self, project: &mut Project, request_id: u64) -> (replies: Vec<Reply>)
        ensures
            final(project)@ == old(project)@.remove_generator(self.id),
            reply_views(replies@) == seq![ReplyView::GeneratorRemoved(request_id)],
    {
        remove_generator(project, self.id);
        single_reply(Reply::GeneratorRemoved(request_id))
    }
}

/// Adds a controller of the given identifier and name to a project.
#[derive(Clone, Debug, PartialEq, Eq)]
pub struct AddControllerCommand {
    pub id: u64,
    pub name: String,
}

impl AddControllerCommand {
    /// Appends the identifier to the generator list and files the controller.
    pub fn execute(&self, project: &mut Project, request_id: u64) -> (replies: Vec<Reply>)
        ensures
            final(project)@ == old(project)@.add_controller(self.id, self.name@),
            reply_views(replies@) == seq![ReplyView::ControllerAdded(request_id)],
    {
        let controller = Controller { id: self.id, name: self.name.clone() };
        proof {
            lemma_controller_views_update(project.controllers@, self.id, controller);
        }
        project.generator_list.push(self.id);
        project.controllers.insert(self.id, controller);
        single_reply(Reply::ControllerAdded(request_id))
    }

    /// Removes the generator of that identifier again.
    pub fn rollback(&self, project: &mut Project, request_id: u64) -> (replies: Vec<Reply>)
        ensures
            final(project)@ == old(project)@.remove_generator(self.id),
            reply_views(replies@) == seq![ReplyView::GeneratorRemoved(request_id)],
    {
        remove_generator(project, self.id);
        single_reply(Reply::GeneratorRemoved(request_id))
    }
}

} // verus!
