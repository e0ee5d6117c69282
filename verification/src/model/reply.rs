//! The replies that the engine sends back to the front end.

use crate::util::decimal::push_signed_decimal;
use crate::util::decimal::signed_decimal;
use vstd::prelude::*;
use vstd::string::StringExecFns;

verus! {

/// A reply to one request. Its first field is the identifier of the request.
#[derive(Clone, Debug, PartialEq, Eq)]
pub enum Reply {
    /// Nothing was there to undo or to redo.
    NothingChanged(u64),
    /// Carries the identifier of the new project, as decimal text.
    NewProjectCreated(u64, String),
    /// Carries the identifier of the project that is now active, as decimal text.
    ActiveProjectChanged(u64, String),
    ProjectClosed(u64),
    ProjectSaved(u64),
    /// Carries the identifier of the loaded project, as decimal text.
    ProjectLoaded(u64, String),
    JournalEntryStarted(u64),
    JournalEntryCommitted(u64),
    InstrumentAdded(u64),
    ControllerAdded(u64),
    GeneratorRemoved(u64),
    ActivePatternSet(u64),
    ActiveInstrumentSet(u64),
    ActiveControllerSet(u64),
    PatternAdded(u64),
    PatternDeleted(u64),
    /// Carries the pattern and the generator of the note; see `note_reply_text`.
    NoteAdded(u64, String),
    /// Carries the pattern and the generator of the note; see `note_reply_text`.
    NoteDeleted(u64, String),
    /// Carries the pattern and the generator of the note; see `note_reply_text`.
    NoteMoved(u64, String),
    /// Carries the pattern and the generator of the note; see `note_reply_text`.
    NoteResized(u64, String),
}

/// What a reply is to the contracts: the reply with its text as a sequence of
/// characters.
pub ghost enum ReplyView {
    NothingChanged(u64),
    NewProjectCreated(u64, Seq<char>),
    ActiveProjectChanged(u64, Seq<char>),
    ProjectClosed(u64),
    ProjectSaved(u64),
    ProjectLoaded(u64, Seq<char>),
    JournalEntryStarted(u64),
    JournalEntryCommitted(u64),
    InstrumentAdded(u64),
    ControllerAdded(u64),
    GeneratorRemoved(u64),
    ActivePatternSet(u64),
    ActiveInstrumentSet(u64),
    ActiveControllerSet(u64),
    PatternAdded(u64),
    PatternDeleted(u64),
    NoteAdded(u64, Seq<char>),
    NoteDeleted(u64, Seq<char>),
    NoteMoved(u64, Seq<char>),
    NoteResized(u64, Seq<char>),
}

impl View for Reply {
    type V = ReplyView;

    open spec fn view(&self) -> ReplyView {
        match *self {
            Reply::NothingChanged(request_id) => ReplyView::NothingChanged(request_id),
            Reply::NewProjectCreated(request_id, text) => ReplyView::NewProjectCreated(
                request_id,
                text@,
            ),
            Reply::ActiveProjectChanged(request_id, text) => ReplyView::ActiveProjectChanged(
                request_id,
                text@,
            ),
            Reply::ProjectClosed(request_id) => ReplyView::ProjectClosed(request_id),
            Reply::ProjectSaved(request_id) => ReplyView::ProjectSaved(request_id),
            Reply::ProjectLoaded(request_id, text) => ReplyView::ProjectLoaded(request_id, text@),
            Reply::JournalEntryStarted(request_id) => ReplyView::JournalEntryStarted(request_id),
            Reply::JournalEntryCommitted(request_id) => ReplyView::JournalEntryCommitted(
                request_id,
            ),
            Reply::InstrumentAdded(request_id) => ReplyView::InstrumentAdded(request_id),
            Reply::ControllerAdded(request_id) => ReplyView::ControllerAdded(request_id),
            Reply::GeneratorRemoved(request_id) => ReplyView::GeneratorRemoved(request_id),
            Reply::ActivePatternSet(request_id) => ReplyView::ActivePatternSet(request_id),
            Reply::ActiveInstrumentSet(request_id) => ReplyView::ActiveInstrumentSet(request_id),
            Reply::ActiveControllerSet(request_id) => ReplyView::ActiveControllerSet(request_id),
            Reply::PatternAdded(request_id) => ReplyView::PatternAdded(request_id),
            Reply::PatternDeleted(request_id) => ReplyView::PatternDeleted(request_id),
            Reply::NoteAdded(request_id, text) => ReplyView::NoteAdded(request_id, text@),
            Reply::NoteDeleted(request_id, text) => ReplyView::NoteDeleted(request_id, text@),
            Reply::NoteMoved(request_id, text) => ReplyView::NoteMoved(request_id, text@),
            Reply::NoteResized(request_id, text) => ReplyView::NoteResized(request_id, text@),
        }
    }
}

/// A list of replies, each as its view.
pub open spec fn reply_views(replies: Seq<Reply>) -> Seq<ReplyView> {
    Seq::new(replies.len(), |i: int| replies[i]@)
}

/// The text that a reply about a note carries: the pattern and the generator
/// of the note, each identifier read as a signed 64-bit number.
pub open spec fn note_reply_text(pattern_id: u64, generator_id: u64) -> Seq<char> {
    "{ \"patternID\":"@ + signed_decimal(pattern_id) + ",\"generatorID\":"@ + signed_decimal(
        generator_id,
    ) + " }"@
}

/// The text that a reply about a note carries.
pub fn get_note_reply(pattern_id: u64, generator_id: u64) -> (r: String)
    ensures
        r@ == note_reply_text(pattern_id, generator_id),
{
    let mut text = String::from_str("{ \"patternID\":");
    push_signed_decimal(&mut text, pattern_id);
    text.append(",\"generatorID\":");
    push_signed_decimal(&mut text, generator_id);
    text.append(" }");
    text
}

/// The list that holds just `reply`.
pub fn single_reply(reply: Reply) -> (replies: Vec<Reply>)
    ensures
        replies@ == seq![reply],
        reply_views(replies@) == seq![reply@],
{
    let mut replies: Vec<Reply> = Vec::new();
    replies.push(reply);
    assert(replies@ =~= seq![reply]);
    assert(reply_views(replies@) =~= seq![reply@]);
    replies
}

/// The views of two lists of replies put together are the views of the first
/// followed by the views of the second.
pub proof fn lemma_reply_views_add(first: Seq<Reply>, second: Seq<Reply>)
    ensures
        reply_views(first + second) == reply_views(first) + reply_views(second),
{
    assert(reply_views(first + second) =~= reply_views(first) + reply_views(second));
}

} // verus!
