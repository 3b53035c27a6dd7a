//! Push and pull: the decisions that reconcile the local cache with the
//! remote collection of list documents.
//!
//! Neither talks to the remote store. Each is a step function: the caller
//! hands in the state and what the remote store answered to the last
//! request, and gets back the next state and what to ask next.
//!
//! A push overwrites the remote collection with the cache: the collection is
//! dropped, then one document is inserted for each list. Nothing makes the
//! two steps one: a failure on the way leaves the collection dropped or half
//! filled, and the cache stays marked as changed.
//!
//! A pull replaces the cache by what the remote collection holds. Lists that
//! only the cache had are gone afterwards. A failure leaves the cache as it
//! was.

use vstd::prelude::*;
use crate::db::{as_map, has_name, lemma_as_map, names_distinct, Database};
use crate::error::{ErrorView, TodoError};
use crate::models::{lists_view, ItemView, List, ListView};

verus! {

/// Where a push stands.
#[derive(Debug, PartialEq, Eq)]
pub enum PushState {
    /// Nothing has been asked yet.
    Start,
    /// The collection is being dropped; these documents wait.
    Dropping(Vec<List>),
    /// The document at the index is being inserted; those before it are in.
    Inserting(Vec<List>, usize),
    /// Every document is in and the cache is marked as synchronised.
    Finished,
    /// The remote store failed; the push was given up.
    Failed(TodoError),
}

/// What the caller of a push must do next.
#[derive(Debug, PartialEq, Eq)]
pub enum PushAction {
    /// Remove every document of the remote collection, then report.
    DropCollection,
    /// Insert this document into the remote collection, then report.
    InsertOne(List),
    /// Nothing: the push is done.
    Finished,
    /// Nothing: the push was given up for this reason.
    Abort(TodoError),
}

/// A push state as mathematical data.
pub enum PushStateView {
    Start,
    Dropping(Seq<ListView>),
    Inserting(Seq<ListView>, nat),
    Finished,
    Failed(ErrorView),
}

/// A push action as mathematical data.
pub enum PushActionView {
    DropCollection,
    InsertOne(ListView),
    Finished,
    Abort(ErrorView),
}

impl View for PushState {
    type V = PushStateView;

    open spec fn view(&self) -> PushStateView {
        match *self {
            PushState::Start => PushStateView::Start,
            PushState::Dropping(docs) => PushStateView::Dropping(lists_view(docs@)),
            PushState::Inserting(docs, sent) => PushStateView::Inserting(
                lists_view(docs@),
                sent as nat,
            ),
            PushState::Finished => PushStateView::Finished,
            PushState::Failed(e) => PushStateView::Failed(e@),
        }
    }
}

impl View for PushAction {
    type V = PushActionView;

    open spec fn view(&self) -> PushActionView {
        match *self {
            PushAction::DropCollection => PushActionView::DropCollection,
            PushAction::InsertOne(list) => PushActionView::InsertOne(list@),
            PushAction::Finished => PushActionView::Finished,
            PushAction::Abort(e) => PushActionView::Abort(e@),
        }
    }
}

/// The detail of a failure that the remote store reported, if it reported one.
pub open spec fn failure_of<T>(outcome: Result<T, String>) -> Option<Seq<char>> {
    match outcome {
        Ok(_) => None,
        Err(detail) => Some(detail@),
    }
}

/// The state that follows a state in which a request stood open, given how
/// the request went. A state in which the push has ended stays.
pub open spec fn push_next(state: PushStateView, failure: Option<Seq<char>>) -> PushStateView {
    match state {
        PushStateView::Dropping(docs) => match failure {
            Some(detail) => PushStateView::Failed(ErrorView::RemoteError(detail)),
            None => if docs.len() == 0 {
                PushStateView::Finished
            } else {
                PushStateView::Inserting(docs, 0)
            },
        },
        PushStateView::Inserting(docs, sent) => match failure {
            Some(detail) => PushStateView::Failed(ErrorView::RemoteError(detail)),
            None => if sent + 1 < docs.len() {
                PushStateView::Inserting(docs, sent + 1)
            } else {
                PushStateView::Finished
            },
        },
        other => other,
    }
}

/// What a state asks of the caller. At the start that is the first request
/// of every push.
pub open spec fn push_action(state: PushStateView) -> PushActionView {
    match state {
        PushStateView::Start => PushActionView::DropCollection,
        PushStateView::Dropping(_) => PushActionView::DropCollection,
        PushStateView::Inserting(docs, sent) => PushActionView::InsertOne(docs[sent as int]),
        PushStateView::Finished => PushActionView::Finished,
        PushStateView::Failed(e) => PushActionView::Abort(e),
    }
}

/// Whether a request stands open in a state.
pub open spec fn push_waits(state: PushStateView) -> bool {
    state is Dropping || state is Inserting
}

/// One step of a push.
///
/// At the start the cache is copied and the remote collection is to be
/// dropped; what `outcome` holds is of no account then. After that `outcome`
/// says how the last request went. A success moves on to the next document,
/// and after the last one the cache is marked as synchronised and the time
/// is recorded. A failure ends the push with the detail as a remote error;
/// the cache is then left as it was, still marked as changed. Until the push
/// ends with success the cache is not touched.
pub fn push(db: &mut Database, state: PushState, outcome: Result<(), String>) -> (r: (
    PushState,
    PushAction,
))
    ensures
        state@ is Start ==> (r.0@ matches PushStateView::Dropping(docs) && names_distinct(docs)
            && as_map(docs) == old(db)@),
        !(state@ is Start) ==> r.0@ == push_next(state@, failure_of(outcome)),
        r.1@ == push_action(r.0@),
        push_waits(state@) && r.0@ is Finished ==> !final(db).dirty() && final(db)@ == old(db)@,
        final(db).remote_uri() == old(db).remote_uri(),
        final(db).remote_name() == old(db).remote_name(),
        !(push_waits(state@) && r.0@ is Finished) ==> *final(db) == *old(db),
{
    match state {
        PushState::Start => {
            let docs = db.documents();
            (PushState::Dropping(docs), PushAction::DropCollection)
        },
        PushState::Dropping(docs) => match outcome {
            Err(detail) => push_given_up(TodoError::RemoteError(detail)),
            Ok(_) => if docs.len() == 0 {
                push_done(db)
            } else {
                let first = docs[0].clone();
                (PushState::Inserting(docs, 0), PushAction::InsertOne(first))
            },
        },
        PushState::Inserting(docs, sent) => match outcome {
            Err(detail) => push_given_up(TodoError::RemoteError(detail)),
            Ok(_) => if docs.len() > 0 && sent < docs.len() - 1 {
                let next = docs[sent + 1].clone();
                (PushState::Inserting(docs, sent + 1), PushAction::InsertOne(next))
            } else {
                push_done(db)
            },
        },
        PushState::Finished => (PushState::Finished, PushAction::Finished),
        PushState::Failed(e) => push_given_up(e),
    }
}

/// The end of a push that went well: the cache is marked as synchronised
/// and the time is recorded.
fn push_done(db: &mut Database) -> (r: (PushState, PushAction))
    ensures
        r.0@ is Finished,
        r.1@ is Finished,
        !final(db).dirty(),
        final(db)@ == old(db)@,
        final(db).remote_uri() == old(db).remote_uri(),
        final(db).remote_name() == old(db).remote_name(),
{
    db.set_dirty(false);
    db.update_last_modified();
    (PushState::Finished, PushAction::Finished)
}

/// The end of a push that failed, and every step after it.
fn push_given_up(e: TodoError) -> (r: (PushState, PushAction))
    ensures
        r.0@ == PushStateView::Failed(e@),
        r.1@ == PushActionView::Abort(e@),
{
    let reason = e.clone();
    (PushState::Failed(e), PushAction::Abort(reason))
}

/// Where a pull stands.
#[derive(Debug, PartialEq, Eq)]
pub enum PullState {
    /// Nothing has been asked yet.
    Start,
    /// The documents of the remote collection are being listed.
    Listing,
    /// The cache holds what the remote collection held.
    Finished,
    /// The remote store failed; the pull was given up.
    Failed(TodoError),
}

/// What the caller of a pull must do next.
#[derive(Debug, PartialEq, Eq)]
pub enum PullAction {
    /// List every document of the remote collection, then report them.
    FindAll,
    /// Nothing: the pull is done.
    Finished,
    /// Nothing: the pull was given up for this reason.
    Abort(TodoError),
}

/// A pull state as mathematical data.
pub enum PullStateView {
    Start,
    Listing,
    Finished,
    Failed(ErrorView),
}

/// A pull action as mathematical data.
pub enum PullActionView {
    FindAll,
    Finished,
    Abort(ErrorView),
}

impl View for PullState {
    type V = PullStateView;

    open spec fn view(&self) -> PullStateView {
        match *self {
            PullState::Start => PullStateView::Start,
            PullState::Listing => PullStateView::Listing,
            PullState::Finished => PullStateView::Finished,
            PullState::Failed(e) => PullStateView::Failed(e@),
        }
    }
}

impl View for PullAction {
    type V = PullActionView;

    open spec fn view(&self) -> PullActionView {
        match *self {
            PullAction::FindAll => PullActionView::FindAll,
            PullAction::Finished => PullActionView::Finished,
            PullAction::Abort(e) => PullActionView::Abort(e@),
        }
    }
}

/// The state that follows a pull state, given how the listing went. At the
/// start nothing has been asked, and the listing is what follows.
pub open spec fn pull_next(state: PullStateView, failure: Option<Seq<char>>) -> PullStateView {
    match state {
        PullStateView::Start => PullStateView::Listing,
        PullStateView::Listing => match failure {
            Some(detail) => PullStateView::Failed(ErrorView::RemoteError(detail)),
            None => PullStateView::Finished,
        },
        other => other,
    }
}

/// What a pull state asks of the caller.
pub open spec fn pull_action(state: PullStateView) -> PullActionView {
    match state {
        PullStateView::Start => PullActionView::FindAll,
        PullStateView::Listing => PullActionView::FindAll,
        PullStateView::Finished => PullActionView::Finished,
        PullStateView::Failed(e) => PullActionView::Abort(e),
    }
}

/// The cache that a pull leaves when the remote collection holds these
/// documents: each name with the items of the last document that bears it.
pub open spec fn pulled(remote: Seq<ListView>) -> Map<Seq<char>, Seq<ItemView>> {
    as_map(remote)
}

/// One step of a pull.
///
/// At the start the remote collection is to be listed; what `reply` holds is
/// of no account then. After that `reply` holds the documents that were
/// listed, or the detail of the failure. With the documents the whole cache
/// is replaced by them and marked as synchronised: a list that only the
/// cache had is gone. A failure ends the pull with the detail as a remote
/// error and leaves the cache as it was.
pub fn pull(db: &mut Database, state: PullState, reply: Result<Vec<List>, String>) -> (r: (
    PullState,
    PullAction,
))
    ensures
        r.0@ == pull_next(state@, failure_of(reply)),
        r.1@ == pull_action(r.0@),
        state@ is Listing && reply is Ok ==> final(db)@ == pulled(lists_view(reply->Ok_0@))
            && !final(db).dirty() && final(db).same_origin(old(db)),
        !(state@ is Listing && reply is Ok) ==> *final(db) == *old(db),
{
    match state {
        PullState::Start => (PullState::Listing, PullAction::FindAll),
        PullState::Listing => match reply {
            Err(detail) => pull_given_up(TodoError::RemoteError(detail)),
            Ok(documents) => {
                let _ = db.update_local_db(documents);
                db.set_dirty(false);
                (PullState::Finished, PullAction::Finished)
            },
        },
        PullState::Finished => (PullState::Finished, PullAction::Finished),
        PullState::Failed(e) => pull_given_up(e),
    }
}

/// The end of a pull that failed, and every step after it.
fn pull_given_up(e: TodoError) -> (r: (PullState, PullAction))
    ensures
        r.0@ == PullStateView::Failed(e@),
        r.1@ == PullActionView::Abort(e@),
{
    let reason = e.clone();
    (PullState::Failed(e), PullAction::Abort(reason))
}

/// A pull makes the cache the remote collection: the cache then has a list
/// exactly for each name that a remote document bears, whatever it had
/// before, and where the remote names are distinct each list has the items
/// of its document.
pub proof fn lemma_pull_is_the_remote(remote: Seq<ListView>)
    ensures
        forall|name: Seq<char>| #[trigger]
            pulled(remote).contains_key(name) <==> has_name(remote, name),
        names_distinct(remote) ==> forall|i: int|
            0 <= i < remote.len() ==> pulled(remote)[#[trigger] remote[i].name] == remote[i].items,
{
    lemma_as_map(remote);
}

/// What a remote collection holds once it has carried out a request of a
/// push: nothing after a drop, one document more after an insert.
pub open spec fn remote_after(remote: Seq<ListView>, action: PushActionView) -> Seq<ListView> {
    match action {
        PushActionView::DropCollection => Seq::empty(),
        PushActionView::InsertOne(doc) => remote.push(doc),
        _ => remote,
    }
}

/// How many requests a push still has to make from a state, at most.
pub open spec fn push_remaining(state: PushStateView) -> nat {
    match state {
        PushStateView::Dropping(docs) => docs.len() + 2,
        PushStateView::Inserting(docs, sent) => if sent < docs.len() {
            (docs.len() - sent + 1) as nat
        } else {
            1
        },
        _ => 0,
    }
}

/// The remote collection at the end of a push that goes on from a state
/// without a failure, when the collection carries out each request and
/// nobody else touches it.
pub open spec fn push_run(state: PushStateView, remote: Seq<ListView>) -> Seq<ListView>
    decreases push_remaining(state),
{
    if push_waits(state) {
        push_run(push_next(state, None), remote_after(remote, push_action(state)))
    } else {
        remote
    }
}

/// The state in which a push ends that goes on from a state without a failure.
pub open spec fn push_end(state: PushStateView) -> PushStateView
    decreases push_remaining(state),
{
    if push_waits(state) {
        push_end(push_next(state, None))
    } else {
        state
    }
}

/// While the documents are inserted, those not yet in are added behind what
/// the collection holds, in their order, and the push ends as finished.
pub proof fn lemma_push_inserts(docs: Seq<ListView>, sent: nat, remote: Seq<ListView>)
    requires
        sent < docs.len(),
    ensures
        push_run(PushStateView::Inserting(docs, sent), remote) == remote + docs.subrange(
            sent as int,
            docs.len() as int,
        ),
        push_end(PushStateView::Inserting(docs, sent)) == PushStateView::Finished,
    decreases docs.len() - sent,
{
    let state = PushStateView::Inserting(docs, sent);
    let after = remote.push(docs[sent as int]);
    assert(push_end(state) == push_end(push_next(state, None)));
    if sent + 1 < docs.len() {
        lemma_push_inserts(docs, sent + 1, after);
    } else {
        assert(push_run(PushStateView::Finished, after) == after);
    }
}

/// A push without a failure makes the remote collection hold exactly the
/// documents that were copied from the cache, whatever it held before.
pub proof fn lemma_push_overwrites(docs: Seq<ListView>, remote: Seq<ListView>)
    ensures
        push_run(PushStateView::Dropping(docs), remote) == docs,
        push_end(PushStateView::Dropping(docs)) == PushStateView::Finished,
{
    let state = PushStateView::Dropping(docs);
    let empty = Seq::<ListView>::empty();
    assert(push_end(state) == push_end(push_next(state, None)));
    if docs.len() == 0 {
        assert(push_run(PushStateView::Finished, empty) == empty);
    } else {
        lemma_push_inserts(docs, 0, empty);
    }
}

/// Push, then pull: when a push copies the cache, runs to its end without a
/// failure, and nobody else touches the remote collection, a pull that
/// follows gives back the cache as it was before the push.
pub proof fn lemma_push_then_pull(
    cache: Map<Seq<char>, Seq<ItemView>>,
    docs: Seq<ListView>,
    remote: Seq<ListView>,
)
    requires
        as_map(docs) == cache,
    ensures
        pulled(push_run(PushStateView::Dropping(docs), remote)) == cache,
{
    lemma_push_overwrites(docs, remote);
}

/// A push that fails stops: from the failure on, no request is made and the
/// remote collection stays as the failure left it.
pub proof fn lemma_push_failure_stops(
    state: PushStateView,
    detail: Seq<char>,
    remote: Seq<ListView>,
)
    requires
        push_waits(state),
    ensures
        push_next(state, Some(detail)) == PushStateView::Failed(ErrorView::RemoteError(detail)),
        push_run(push_next(state, Some(detail)), remote) == remote,
        push_action(push_next(state, Some(detail))) == PushActionView::Abort(
            ErrorView::RemoteError(detail),
        ),
{
}

} // verus!
