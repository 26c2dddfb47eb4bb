//! What holds of the repository whatever it contains: the order and the
//! content of its listings, and what creating and completing a command
//! change.

use vstd::prelude::*;
use crate::api::{
    completion, creation, BodyView, ReplyView, STATUS_BAD_REQUEST, STATUS_CREATED,
    STATUS_NOT_FOUND, STATUS_OK,
};
use crate::command::{
    request_of, CommandView, CreateCommandFieldsView, CreateCommandRequestView, Status,
    Timestamp,
};
use crate::ident::CommandId;
use crate::store::{in_creation_order, in_reverse_creation_order, pending_rows, StoreModel};

verus! {

/// The pending commands of a sequence are exactly its commands whose status
/// is pending, and they keep the order of creation.
pub proof fn lemma_pending_rows(rows: Seq<CommandView>)
    ensures
        forall|command: CommandView| #[trigger]
            pending_rows(rows).contains(command) <==> rows.contains(command) && command.status
                == Status::Pending,
        in_creation_order(rows) ==> in_creation_order(pending_rows(rows)),
    decreases rows.len(),
{
    let pending = |command: CommandView| command.status == Status::Pending;
    if rows.len() == 0 {
        reveal(Seq::filter);
    } else {
        let front = rows.drop_last();
        let last = rows.last();
        lemma_pending_rows(front);
        assert(rows =~= front.push(last));
        front.lemma_filter_push(last, pending);
        assert forall|command: CommandView| #[trigger]
            pending_rows(rows).contains(command) <==> rows.contains(command) && command.status
                == Status::Pending by {
            if pending_rows(rows).contains(command) {
                let k = choose|k: int|
                    0 <= k < pending_rows(rows).len() && pending_rows(rows)[k] == command;
                if k < pending_rows(front).len() {
                    assert(pending_rows(front).contains(command));
                    let m = choose|m: int| 0 <= m < front.len() && front[m] == command;
                    assert(rows[m] == command);
                } else {
                    assert(rows[rows.len() - 1] == command);
                }
            }
            if rows.contains(command) && command.status == Status::Pending {
                let m = choose|m: int| 0 <= m < rows.len() && rows[m] == command;
                if m < front.len() {
                    assert(front[m] == command);
                    assert(front.contains(command));
                    assert(pending_rows(front).contains(command));
                    let k = choose|k: int|
                        0 <= k < pending_rows(front).len() && pending_rows(front)[k] == command;
                    assert(pending_rows(rows)[k] == command);
                } else {
                    assert(pending_rows(rows)[pending_rows(rows).len() - 1] == command);
                }
            }
        }
        if in_creation_order(rows) {
            assert(in_creation_order(front)) by {
                assert forall|i: int, j: int| 0 <= i <= j < front.len() implies (
                #[trigger] front[i]).created_at.micros <= (#[trigger] front[j]).created_at.micros by {
                    assert(front[i] == rows[i] && front[j] == rows[j]);
                }
            }
            let listing = pending_rows(rows);
            assert forall|i: int, j: int| 0 <= i <= j < listing.len() implies (
            #[trigger] listing[i]).created_at.micros <= (#[trigger] listing[j]).created_at.micros by {
                if j < pending_rows(front).len() {
                    assert(listing[i] == pending_rows(front)[i]);
                    assert(listing[j] == pending_rows(front)[j]);
                } else if i < pending_rows(front).len() {
                    assert(listing[j] == last);
                    assert(pending_rows(front).contains(pending_rows(front)[i]));
                    let m = choose|m: int| 0 <= m < front.len() && front[m] == listing[i];
                    assert(rows[m] == listing[i]);
                    assert(rows[rows.len() - 1] == last);
                }
            }
        }
    }
}

/// The listing of the pending commands holds exactly the commands of the
/// repository whose status is pending, none that is completed, and it holds
/// them oldest first.
pub proof fn lemma_pending_listing(store: StoreModel)
    requires
        store.well_formed(),
    ensures
        forall|command: CommandView| #[trigger]
            store.pending_oldest_first().contains(command) <==> store.rows.contains(command)
                && command.status == Status::Pending,
        forall|i: int|
            0 <= i < store.pending_oldest_first().len() ==> (
            #[trigger] store.pending_oldest_first()[i]).status != Status::Completed,
        in_creation_order(store.pending_oldest_first()),
{
    lemma_pending_rows(store.rows);
    let listing = store.pending_oldest_first();
    assert forall|i: int| 0 <= i < listing.len() implies (#[trigger] listing[i]).status
        != Status::Completed by {
        assert(listing.contains(listing[i]));
    }
}

/// The listing of all commands holds every command of the repository once,
/// newest first: a command created later than another stands before it.
pub proof fn lemma_all_listing(store: StoreModel)
    requires
        store.well_formed(),
    ensures
        store.all_newest_first().len() == store.rows.len(),
        store.all_newest_first().to_multiset() == store.rows.to_multiset(),
        in_reverse_creation_order(store.all_newest_first()),
        forall|i: int, j: int|
            0 <= i < store.rows.len() && 0 <= j < store.rows.len() && (
            #[trigger] store.all_newest_first()[i]).created_at.micros > (
            #[trigger] store.all_newest_first()[j]).created_at.micros ==> i < j,
{
    let listing = store.all_newest_first();
    store.rows.lemma_reverse_to_multiset();
    assert forall|i: int, j: int| 0 <= i <= j < listing.len() implies (
    #[trigger] listing[i]).created_at.micros >= (#[trigger] listing[j]).created_at.micros by {
        assert(listing[i] == store.rows[store.rows.len() - 1 - i]);
        assert(listing[j] == store.rows[store.rows.len() - 1 - j]);
    }
}

/// Showing the clock a time changes no command and never turns the clock
/// back.
pub proof fn lemma_clock_moves_forward(store: StoreModel, reading: Timestamp)
    requires
        store.well_formed(),
    ensures
        store.advanced(reading).well_formed(),
        store.advanced(reading).rows == store.rows,
        store.now.micros <= store.advanced(reading).now.micros,
        reading.micros <= store.advanced(reading).now.micros,
{
}

/// A command created under a fresh identifier is pending, has no completion
/// time and carries what the request gave. It is the command that the
/// repository then holds under the identifier, it heads the listing of all
/// commands and is in the listing of the pending ones, and every earlier
/// command is still there.
pub proof fn lemma_created_is_listed(
    store: StoreModel,
    id: CommandId,
    request: CreateCommandRequestView,
)
    requires
        store.well_formed(),
        !store.holds(id),
    ensures
        ({
            let after = store.with_created(id, request);
            let command = CommandView::pending(id, request, store.now);
            &&& after.well_formed()
            &&& after.holds(id)
            &&& after.row(id) == command
            &&& command.status == Status::Pending
            &&& command.completed_at is None
            &&& command.tag_id == request.tag_id
            &&& command.robot_id == request.robot_id
            &&& command.floor == request.floor
            &&& after.all_newest_first().len() == store.rows.len() + 1
            &&& after.all_newest_first()[0] == command
            &&& after.pending_oldest_first().contains(command)
            &&& forall|i: int| 0 <= i < store.rows.len() ==> after.rows[i] == store.rows[i]
        }),
{
    let after = store.with_created(id, request);
    let command = CommandView::pending(id, request, store.now);
    let last = store.rows.len() as int;
    assert(after.rows[last] == command);
    assert forall|i: int, j: int| 0 <= i < j < after.rows.len() implies (
    #[trigger] after.rows[i]).id != (#[trigger] after.rows[j]).id by {
        if j == last {
            assert(store.rows[i].id != id);
        } else {
            assert(after.rows[i] == store.rows[i] && after.rows[j] == store.rows[j]);
        }
    }
    assert(after.well_formed()) by {
        assert forall|i: int, j: int| 0 <= i <= j < after.rows.len() implies (
        #[trigger] after.rows[i]).created_at.micros <= (
        #[trigger] after.rows[j]).created_at.micros by {
            if i < last {
                assert(after.rows[i] == store.rows[i]);
            }
            if j < last {
                assert(after.rows[j] == store.rows[j]);
            }
        }
    }
    after.lemma_row_at(last);
    assert(after.rows.contains(command));
    lemma_pending_rows(after.rows);
}

/// Completing a command sets its status to completed and its completion time
/// to the current time, which is not before its creation. The command is
/// then listed among all commands as completed, and the listing of the
/// pending commands holds no command with its identifier.
pub proof fn lemma_completion(store: StoreModel, id: CommandId)
    requires
        store.well_formed(),
        store.holds(id),
    ensures
        ({
            let after = store.with_completed(id);
            let command = after.row(id);
            &&& after.well_formed()
            &&& after.holds(id)
            &&& command == store.row(id).completed(store.now)
            &&& command.status == Status::Completed
            &&& command.completed_at == Some(store.now)
            &&& command.created_at.micros <= store.now.micros
            &&& after.all_newest_first().contains(command)
            &&& forall|listed: CommandView| #[trigger]
                after.pending_oldest_first().contains(listed) ==> listed.id != id
        }),
{
    let after = store.with_completed(id);
    let i = choose|i: int| 0 <= i < store.rows.len() && (#[trigger] store.rows[i]).id == id;
    store.lemma_row_at(i);
    lemma_completion_changes_status_and_time_only(store, id);
    assert(after.rows[i] == store.rows[i].completed(store.now));
    after.lemma_row_at(i);
    let listing = after.all_newest_first();
    assert(listing[store.rows.len() - 1 - i] == after.rows[i]);
    lemma_pending_rows(after.rows);
    assert forall|listed: CommandView| #[trigger]
        after.pending_oldest_first().contains(listed) implies listed.id != id by {
        let k = choose|k: int| 0 <= k < after.rows.len() && after.rows[k] == listed;
        assert(after.rows[k].status == Status::Pending);
    }
}

/// Completing a command that is completed already leaves it completed, and
/// its new completion time is not before the one it had.
pub proof fn lemma_recompletion(store: StoreModel, id: CommandId)
    requires
        store.well_formed(),
        store.holds(id),
        store.row(id).status == Status::Completed,
    ensures
        store.with_completed(id).row(id).status == Status::Completed,
        store.row(id).completed_at is Some,
        store.with_completed(id).row(id).completed_at is Some,
        store.row(id).completed_at->0.micros <= store.with_completed(id).row(
            id,
        ).completed_at->0.micros,
{
    let i = choose|i: int| 0 <= i < store.rows.len() && (#[trigger] store.rows[i]).id == id;
    store.lemma_row_at(i);
    lemma_completion(store, id);
}

/// Completing under an identifier that no command has changes nothing.
pub proof fn lemma_completion_of_unknown(store: StoreModel, id: CommandId)
    requires
        !store.holds(id),
    ensures
        store.with_completed(id) == store,
{
    assert(store.with_completed(id).rows =~= store.rows);
}

/// Completing a command changes its status and its completion time only: the
/// identifier, the tag, the robot, the floor and the creation time of every
/// command stay, the commands with another identifier stay as they are, and
/// no command is added or removed.
pub proof fn lemma_completion_changes_status_and_time_only(store: StoreModel, id: CommandId)
    requires
        store.well_formed(),
    ensures
        store.with_completed(id).well_formed(),
        store.with_completed(id).now == store.now,
        store.with_completed(id).rows.len() == store.rows.len(),
        forall|i: int|
            0 <= i < store.rows.len() ==> {
                let before = store.rows[i];
                let after = #[trigger] store.with_completed(id).rows[i];
                &&& after.id == before.id
                &&& after.tag_id == before.tag_id
                &&& after.robot_id == before.robot_id
                &&& after.floor == before.floor
                &&& after.created_at == before.created_at
                &&& before.id != id ==> after == before
            },
{
    let after = store.with_completed(id);
    assert forall|i: int, j: int| 0 <= i < j < after.rows.len() implies (
    #[trigger] after.rows[i]).id != (#[trigger] after.rows[j]).id by {
        assert(after.rows[i].id == store.rows[i].id);
        assert(after.rows[j].id == store.rows[j].id);
    }
    assert forall|i: int, j: int| 0 <= i <= j < after.rows.len() implies (
    #[trigger] after.rows[i]).created_at.micros <= (#[trigger] after.rows[j]).created_at.micros by {
        assert(after.rows[i].created_at == store.rows[i].created_at);
        assert(after.rows[j].created_at == store.rows[j].created_at);
    }
    assert forall|i: int| 0 <= i < after.rows.len() implies (
    #[trigger] after.rows[i]).well_formed() && after.rows[i].not_after(after.now) by {
        assert(store.rows[i].well_formed() && store.rows[i].not_after(store.now));
    }
}

/// A change that the repository goes through.
pub enum Change {
    /// The clock was shown a time.
    ClockShown(Timestamp),
    /// A command was created under an identifier.
    Created(CommandId, CreateCommandRequestView),
    /// The command with an identifier was marked complete.
    Completed(CommandId),
}

/// The repository after a change. Creating under an identifier that is taken
/// and completing under one that no command has change nothing.
pub open spec fn changed(store: StoreModel, change: Change) -> StoreModel {
    match change {
        Change::ClockShown(reading) => store.advanced(reading),
        Change::Created(id, request) => {
            if store.holds(id) {
                store
            } else {
                store.with_created(id, request)
            }
        },
        Change::Completed(id) => store.with_completed(id),
    }
}

/// Whatever changes, the repository stays well formed and keeps its history:
/// the clock does not run backwards; no command is removed or moved; the
/// identifier, the tag, the robot, the floor and the creation time of a
/// command never change; a completed command stays completed, and its
/// completion time never moves back.
pub proof fn lemma_change_keeps_history(store: StoreModel, change: Change)
    requires
        store.well_formed(),
    ensures
        changed(store, change).well_formed(),
        store.now.micros <= changed(store, change).now.micros,
        store.rows.len() <= changed(store, change).rows.len(),
        forall|i: int|
            0 <= i < store.rows.len() ==> {
                let before = store.rows[i];
                let after = #[trigger] changed(store, change).rows[i];
                &&& after.id == before.id
                &&& after.tag_id == before.tag_id
                &&& after.robot_id == before.robot_id
                &&& after.floor == before.floor
                &&& after.created_at == before.created_at
                &&& before.status == Status::Completed ==> after.status == Status::Completed
                &&& before.completed_at is Some ==> after.completed_at is Some
                    && before.completed_at->0.micros <= after.completed_at->0.micros
            },
{
    match change {
        Change::ClockShown(reading) => {
            lemma_clock_moves_forward(store, reading);
        },
        Change::Created(id, request) => {
            if !store.holds(id) {
                lemma_created_is_listed(store, id, request);
            }
        },
        Change::Completed(id) => {
            lemma_completion_changes_status_and_time_only(store, id);
            let after = store.with_completed(id);
            assert forall|i: int| 0 <= i < store.rows.len() implies {
                let before = store.rows[i];
                let then = #[trigger] after.rows[i];
                &&& before.status == Status::Completed ==> then.status == Status::Completed
                &&& before.completed_at is Some ==> then.completed_at is Some
                    && before.completed_at->0.micros <= then.completed_at->0.micros
            } by {
                assert(store.rows[i].well_formed() && store.rows[i].not_after(store.now));
            }
        },
    }
}

/// A creation request whose body lacks a field is answered with a bad
/// request, and the repository stays as it was.
pub proof fn lemma_incomplete_body_is_refused(
    store: StoreModel,
    id: CommandId,
    body: CreateCommandFieldsView,
)
    requires
        body.tag_id is None || body.robot_id is None || body.floor is None,
    ensures
        creation(store, id, body).0 == store,
        creation(store, id, body).1 == (ReplyView {
            status: STATUS_BAD_REQUEST,
            body: BodyView::Empty,
        }),
{
}

/// A creation request with all three fields and a fresh identifier is
/// answered with created and the pending command, which the next listing of
/// all commands and the next listing of the pending commands hold.
pub proof fn lemma_creation_round_trip(
    store: StoreModel,
    id: CommandId,
    body: CreateCommandFieldsView,
)
    requires
        store.well_formed(),
        !store.holds(id),
        body.tag_id is Some,
        body.robot_id is Some,
        body.floor is Some,
    ensures
        ({
            let (after, reply) = creation(store, id, body);
            let command = CommandView::pending(id, request_of(body), store.now);
            &&& reply == (ReplyView { status: STATUS_CREATED, body: BodyView::One(command) })
            &&& command.tag_id == body.tag_id->0
            &&& command.robot_id == body.robot_id->0
            &&& command.floor == body.floor->0
            &&& command.status == Status::Pending
            &&& command.completed_at is None
            &&& after.all_newest_first().contains(command)
            &&& after.pending_oldest_first().contains(command)
        }),
{
    lemma_created_is_listed(store, id, request_of(body));
    let after = store.with_created(id, request_of(body));
    assert(after.all_newest_first()[0] == CommandView::pending(
        id,
        request_of(body),
        store.now,
    ));
}

/// A completion request that names no command (its identifier is no UUID, or
/// no command has it) is answered with not found and an empty body, never
/// with ok, and the repository stays as it was.
pub proof fn lemma_unknown_completion_is_refused(store: StoreModel, id: Option<CommandId>)
    requires
        id matches Some(id) ==> !store.holds(id),
    ensures
        completion(store, id).0 == store,
        completion(store, id).1 == (ReplyView {
            status: STATUS_NOT_FOUND,
            body: BodyView::Empty,
        }),
        completion(store, id).1.status != STATUS_OK,
{
}

/// A completion request that names a command is answered with ok and the
/// command as completed at the current time, whatever its status was.
pub proof fn lemma_known_completion_succeeds(store: StoreModel, id: CommandId)
    requires
        store.well_formed(),
        store.holds(id),
    ensures
        completion(store, Some(id)).0 == store.with_completed(id),
        completion(store, Some(id)).1 == (ReplyView {
            status: STATUS_OK,
            body: BodyView::One(store.with_completed(id).row(id)),
        }),
{
    lemma_completion(store, id);
}

} // verus!
