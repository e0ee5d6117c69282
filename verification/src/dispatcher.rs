//! The dispatcher: one request in, the store changed by the handler that
//! owns the request, the replies out.

use crate::commands::command::execute_cleanly_all;
use crate::commands::command::executed_all;
use crate::commands::command::reversible_all;
use crate::commands::command::CommandView;
use crate::commands::reversal::lemma_rollback_undoes_execute;
use crate::message_handlers::pattern_message_handler::pattern_message_handler;
use crate::message_handlers::project_message_handler::project_message_handler;
use crate::message_handlers::store_message_handler::store_message_handler;
use crate::model::reply::Reply;
use crate::model::reply::ReplyView;
use crate::model::store::result_view;
use crate::model::store::DispatchError;
use crate::model::store::FileOutcome;
use crate::model::store::FreshIds;
use crate::model::store::Msg;
use crate::model::store::Outcome;
use crate::model::store::Store;
use crate::model::store::StoreView;
use crate::util::id::get_id;
use vstd::prelude::*;

verus! {

impl StoreView {
    /// What a request does to the store and is answered with. The handler of
    /// the store is asked first, then that of projects, then that of
    /// patterns; the first that knows the request owns it.
    pub open spec fn dispatched(
        self,
        request_id: u64,
        msg: Msg,
        ids: FreshIds,
        file: FileOutcome,
    ) -> Outcome {
        match self.store_message(request_id, msg, ids, file) {
            Some(outcome) => outcome,
            None => match self.project_message(request_id, msg, ids) {
                Some(outcome) => outcome,
                None => self.pattern_message(request_id, msg, ids).unwrap(),
            },
        }
    }
}

/// Every request is known to exactly one of the three handlers.
pub proof fn lemma_one_handler_owns(
    store: StoreView,
    request_id: u64,
    msg: Msg,
    ids: FreshIds,
    file: FileOutcome,
)
    ensures
        ({
            let by_store = store.store_message(request_id, msg, ids, file).is_some();
            let by_project = store.project_message(request_id, msg, ids).is_some();
            let by_pattern = store.pattern_message(request_id, msg, ids).is_some();
            &&& by_store || by_project || by_pattern
            &&& !(by_store && by_project)
            &&& !(by_store && by_pattern)
            &&& !(by_project && by_pattern)
        }),
{
}

impl Store {
    /// Handles one request with the identifiers and the file outcome on hand.
    /// A request that is turned down leaves the store as it was.
    pub fn dispatch(&mut self, request_id: u64, msg: &Msg, ids: FreshIds, file: FileOutcome) -> (r:
        Result<Vec<Reply>, DispatchError>)
        requires
            old(self)@.wf(),
        ensures
            final(self)@.wf(),
            (Outcome { store: final(self)@, result: result_view(r) }) == old(self)@.dispatched(
                request_id,
                *msg,
                ids,
                file,
            ),
            r.is_err() ==> final(self)@ == old(self)@,
    {
        proof {
            lemma_one_handler_owns(self@, request_id, *msg, ids, file);
            lemma_rejection_changes_nothing(self@, request_id, *msg, ids, file);
        }
        match store_message_handler(self, request_id, msg, ids, file) {
            Some(result) => result,
            None => match project_message_handler(self, request_id, msg, ids) {
                Some(result) => result,
                None => match pattern_message_handler(self, request_id, msg, ids) {
                    Some(result) => result,
                    None => vstd::pervasive::unreached(),
                },
            },
        }
    }

    /// Handles one request. Where the request creates something, its
    /// identifiers are drawn here, and the request is turned down where none
    /// can be drawn; `file` says what the file system did for a request to
    /// save or to load.
    pub fn update(&mut self, request_id: u64, msg: Msg, file: FileOutcome) -> (r: Result<
        Vec<Reply>,
        DispatchError,
    >)
        requires
            old(self)@.wf(),
        ensures
            final(self)@.wf(),
            r.is_err() ==> final(self)@ == old(self)@,
            !msg.creates() ==> (Outcome { store: final(self)@, result: result_view(r) }) == old(
                self,
            )@.dispatched(request_id, msg, FreshIds::none(), file),
            msg.creates() ==> {
                ||| r == Err::<Vec<Reply>, DispatchError>(DispatchError::IdSourceFailed)
                ||| exists|ids: FreshIds|
                    (Outcome { store: final(self)@, result: result_view(r) }) == old(
                        self,
                    )@.dispatched(request_id, msg, ids, file)
            },
    {
        if !msg.needs_fresh_ids() {
            return self.dispatch(request_id, &msg, FreshIds { first: 0, second: 0 }, file);
        }
        let first = match get_id() {
            Some(id) => id,
            None => {
                return Err(DispatchError::IdSourceFailed);
            },
        };
        let second = match get_id() {
            Some(id) => id,
            None => {
                return Err(DispatchError::IdSourceFailed);
            },
        };
        self.dispatch(request_id, &msg, FreshIds { first, second }, file)
    }
}

/// A request that is turned down leaves the store as it was.
pub proof fn lemma_rejection_changes_nothing(
    store: StoreView,
    request_id: u64,
    msg: Msg,
    ids: FreshIds,
    file: FileOutcome,
)
    ensures
        store.dispatched(request_id, msg, ids, file).result.is_err() ==> store.dispatched(
            request_id,
            msg,
            ids,
            file,
        ).store == store,
{
}

/// An undo where the pointer of the undo history stands at the start is no
/// error: the answer is that nothing changed, and the store stays as it was.
pub proof fn lemma_nothing_to_undo(store: StoreView, request_id: u64, project_id: u64)
    requires
        store.has_project(project_id),
        store.command_queues[project_id].pointer == 0,
    ensures
        store.undo(request_id, project_id) == store.answered(
            seq![ReplyView::NothingChanged(request_id)],
        ),
{
}

/// A redo where the pointer of the undo history stands at the end is no
/// error: the answer is that nothing changed, and the store stays as it was.
pub proof fn lemma_nothing_to_redo(store: StoreView, request_id: u64, project_id: u64)
    requires
        store.has_project(project_id),
        store.command_queues[project_id].pointer == store.command_queues[project_id].commands.len(),
    ensures
        store.redo(request_id, project_id) == store.answered(
            seq![ReplyView::NothingChanged(request_id)],
        ),
{
}

/// What three commands executed one after the other come to, written out.
pub proof fn lemma_three_commands(
    first: CommandView,
    second: CommandView,
    third: CommandView,
    project: crate::model::project::ProjectView,
)
    ensures
        executed_all(seq![first, second, third], project) == third.executed(
            second.executed(first.executed(project)),
        ),
        execute_cleanly_all(seq![first, second, third], project) <==> {
            &&& first.executes_cleanly(project)
            &&& second.executes_cleanly(first.executed(project))
            &&& third.executes_cleanly(second.executed(first.executed(project)))
        },
        reversible_all(seq![first, second, third], project) <==> {
            &&& first.reversible_on(project)
            &&& second.reversible_on(first.executed(project))
            &&& third.reversible_on(second.executed(first.executed(project)))
        },
{
    let all = seq![first, second, third];
    let two = seq![first, second];
    let one = seq![first];
    assert(all.drop_last() =~= two);
    assert(two.drop_last() =~= one);
    assert(one.drop_last() =~= Seq::<CommandView>::empty());
    assert(executed_all(one.drop_last(), project) == project);
    assert(executed_all(one, project) == first.executed(project));
    assert(executed_all(two, project) == second.executed(first.executed(project)));
    assert(execute_cleanly_all(one.drop_last(), project));
    assert(reversible_all(one.drop_last(), project));
    assert(execute_cleanly_all(one, project) <==> first.executes_cleanly(project));
    assert(reversible_all(one, project) <==> first.reversible_on(project));
    assert(one.last() == first && two.last() == second && all.last() == third);
    assert(execute_cleanly_all(two, project) <==> execute_cleanly_all(one, project)
        && second.executes_cleanly(executed_all(one, project)));
    assert(reversible_all(two, project) <==> reversible_all(one, project) && second.reversible_on(
        executed_all(one, project),
    ));
    assert(execute_cleanly_all(all, project) <==> execute_cleanly_all(two, project)
        && third.executes_cleanly(executed_all(two, project)));
    assert(reversible_all(all, project) <==> reversible_all(two, project) && third.reversible_on(
        executed_all(two, project),
    ));
}

/// A journal makes one undo unit of several commands. After a journal entry
/// is started, three commands are executed through the dispatcher and the
/// entry is committed, the undo history of the project has gained exactly one
/// entry, the journal page of the three; one undo rolls all three back, last
/// to first; and where the three are reversible, that undo gives back the
/// project as it was before the first of them.
pub proof fn lemma_journal_is_one_undo_unit(
    store: StoreView,
    request_id: u64,
    project_id: u64,
    first: CommandView,
    second: CommandView,
    third: CommandView,
)
    requires
        store.wf(),
        store.has_project(project_id),
        execute_cleanly_all(seq![first, second, third], store.projects[project_id]),
    ensures
        ({
            let project = store.projects[project_id];
            let page = CommandView::JournalPage(seq![first, second, third]);
            let started = store.journal_start(request_id, project_id).store;
            let one = started.execute_and_push(request_id, project_id, first).store;
            let two = one.execute_and_push(request_id, project_id, second).store;
            let three = two.execute_and_push(request_id, project_id, third).store;
            let committed = three.journal_commit(request_id, project_id).store;
            let undone = committed.undo(request_id, project_id);
            &&& three.command_queues[project_id] == store.command_queues[project_id]
            &&& committed.command_queues[project_id] == store.command_queues[project_id].pushed(
                page,
            )
            &&& committed.journals[project_id] == crate::model::journal_page_accumulator::JournalView::idle()
            &&& committed.projects[project_id] == page.executed(project)
            &&& page.rolls_back_cleanly(page.executed(project)) ==> {
                &&& undone.result == Ok::<Seq<ReplyView>, DispatchError>(
                    page.rollback_replies(request_id),
                )
                &&& undone.store.projects[project_id] == page.rolled_back(page.executed(project))
                &&& undone.store.command_queues[project_id] == committed.command_queues[project_id].undone()
            }
            &&& project.wf() && reversible_all(seq![first, second, third], project) ==> {
                &&& page.rolls_back_cleanly(page.executed(project))
                &&& undone.store.projects[project_id] == project
            }
        }),
{
    let project = store.projects[project_id];
    let page = CommandView::JournalPage(seq![first, second, third]);
    lemma_three_commands(first, second, third, project);
    let started = store.journal_start(request_id, project_id).store;
    let one = started.execute_and_push(request_id, project_id, first).store;
    let two = one.execute_and_push(request_id, project_id, second).store;
    let three = two.execute_and_push(request_id, project_id, third).store;
    assert(started.journals[project_id].commands =~= Seq::<CommandView>::empty());
    assert(one.journals[project_id].commands =~= seq![first]);
    assert(two.journals[project_id].commands =~= seq![first, second]);
    assert(three.journals[project_id].commands =~= seq![first, second, third]);
    assert(three.projects[project_id] == executed_all(seq![first, second, third], project));
    if project.wf() && reversible_all(seq![first, second, third], project) {
        lemma_rollback_undoes_execute(page, project);
    }
}

/// An edit, its undo and its redo. Where a command that is reversible on a
/// project is executed through the dispatcher while no journal entry is open,
/// an undo right after gives back the project as it was and moves the pointer
/// of the undo history back to where it stood, and a redo right after that
/// gives back the store as the edit left it.
pub proof fn lemma_edit_undo_redo(
    store: StoreView,
    request_id: u64,
    project_id: u64,
    command: CommandView,
)
    requires
        store.wf(),
        store.has_project(project_id),
        !store.journals[project_id].is_active,
        command.reversible_on(store.projects[project_id]),
    ensures
        ({
            let edited = store.execute_and_push(request_id, project_id, command);
            let undone = edited.store.undo(request_id, project_id);
            let redone = undone.store.redo(request_id, project_id);
            &&& edited.result == Ok::<Seq<ReplyView>, DispatchError>(
                command.execute_replies(request_id),
            )
            &&& edited.store.projects[project_id] == command.executed(store.projects[project_id])
            &&& undone.result == Ok::<Seq<ReplyView>, DispatchError>(
                command.rollback_replies(request_id),
            )
            &&& undone.store.projects[project_id] == store.projects[project_id]
            &&& undone.store.command_queues[project_id].pointer
                == store.command_queues[project_id].pointer
            &&& redone.result == Ok::<Seq<ReplyView>, DispatchError>(
                command.execute_replies(request_id),
            )
            &&& redone.store == edited.store
        }),
{
    let project = store.projects[project_id];
    lemma_rollback_undoes_execute(command, project);
    let edited = store.execute_and_push(request_id, project_id, command);
    let undone = edited.store.undo(request_id, project_id);
    let redone = undone.store.redo(request_id, project_id);
    assert(edited.store.command_queues[project_id] == store.command_queues[project_id].pushed(
        command,
    ));
    assert(undone.store.projects[project_id] == project);
    assert(redone.store.projects =~= edited.store.projects);
    assert(redone.store.command_queues[project_id].commands
        =~= edited.store.command_queues[project_id].commands);
    assert(redone.store.command_queues =~= edited.store.command_queues);
}

} // verus!
