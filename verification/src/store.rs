//! The command repository: every command ever created, in the order of
//! creation, and the clock that stamps them.
//!
//! The repository answers the four queries of the service: list all
//! commands, list the pending ones, insert a new command, and mark a command
//! complete. It assigns the creation and completion times from its own
//! clock, which never runs backwards.

use vstd::prelude::*;
use crate::command::{
    views, Command, CommandView, CreateCommandRequest, CreateCommandRequestView, Status,
    Timestamp,
};
use crate::ident::CommandId;

verus! {

/// Why the repository did not carry out an operation.
#[derive(Clone, Copy, Debug, PartialEq, Eq, Structural)]
pub enum StoreError {
    /// No command has the identifier.
    NotFound,
    /// A command with the identifier exists already.
    DuplicateId,
    /// The store behind the repository failed.
    Failed,
}

/// The pending commands of a sequence, in the same order.
pub open spec fn pending_rows(rows: Seq<CommandView>) -> Seq<CommandView> {
    rows.filter(|command: CommandView| command.status == Status::Pending)
}

/// Whether the commands stand in the order of their creation times, oldest
/// first.
pub open spec fn in_creation_order(rows: Seq<CommandView>) -> bool {
    forall|i: int, j: int|
        0 <= i <= j < rows.len() ==> (#[trigger] rows[i]).created_at.micros <= (
        #[trigger] rows[j]).created_at.micros
}

/// Whether the commands stand against the order of their creation times,
/// newest first.
pub open spec fn in_reverse_creation_order(rows: Seq<CommandView>) -> bool {
    forall|i: int, j: int|
        0 <= i <= j < rows.len() ==> (#[trigger] rows[i]).created_at.micros >= (
        #[trigger] rows[j]).created_at.micros
}

/// The repository as a mathematical value.
#[verifier::ext_equal]
pub struct StoreModel {
    /// The commands, oldest first.
    pub rows: Seq<CommandView>,
    /// The current time of the repository.
    pub now: Timestamp,
}

impl StoreModel {
    /// The invariant of the repository: every command is well formed and not
    /// later than the clock, no identifier occurs twice, and the commands
    /// stand in the order of their creation times.
    pub open spec fn well_formed(self) -> bool {
        &&& forall|i: int|
            0 <= i < self.rows.len() ==> (#[trigger] self.rows[i]).well_formed()
                && self.rows[i].not_after(self.now)
        &&& forall|i: int, j: int|
            0 <= i < j < self.rows.len() ==> (#[trigger] self.rows[i]).id != (
            #[trigger] self.rows[j]).id
        &&& in_creation_order(self.rows)
    }

    /// Whether a command has the identifier.
    pub open spec fn holds(self, id: CommandId) -> bool {
        exists|i: int| 0 <= i < self.rows.len() && (#[trigger] self.rows[i]).id == id
    }

    /// The command with the identifier, where one exists.
    pub open spec fn row(self, id: CommandId) -> CommandView {
        let i = choose|i: int| 0 <= i < self.rows.len() && (#[trigger] self.rows[i]).id == id;
        self.rows[i]
    }

    /// Every command, newest first.
    pub open spec fn all_newest_first(self) -> Seq<CommandView> {
        self.rows.reverse()
    }

    /// The pending commands, oldest first.
    pub open spec fn pending_oldest_first(self) -> Seq<CommandView> {
        pending_rows(self.rows)
    }

    /// The repository after the clock was shown the time `reading`: the clock
    /// moves forward to it, and stays where `reading` is not later.
    pub open spec fn advanced(self, reading: Timestamp) -> StoreModel {
        StoreModel {
            now: if self.now.micros < reading.micros {
                reading
            } else {
                self.now
            },
            ..self
        }
    }

    /// The repository after a pending command for `request` was added.
    pub open spec fn with_created(
        self,
        id: CommandId,
        request: CreateCommandRequestView,
    ) -> StoreModel {
        StoreModel { rows: self.rows.push(CommandView::pending(id, request, self.now)), ..self }
    }

    /// The repository after every command with the identifier was completed
    /// at the current time, the others left as they were.
    pub open spec fn with_completed(self, id: CommandId) -> StoreModel {
        StoreModel {
            rows: Seq::new(
                self.rows.len(),
                |i: int|
                    if self.rows[i].id == id {
                        self.rows[i].completed(self.now)
                    } else {
                        self.rows[i]
                    },
            ),
            ..self
        }
    }

    /// In a well-formed repository the command at a position is the command
    /// with its identifier.
    pub proof fn lemma_row_at(self, i: int)
        requires
            self.well_formed(),
            0 <= i < self.rows.len(),
        ensures
            self.holds(self.rows[i].id),
            self.row(self.rows[i].id) == self.rows[i],
    {
    }
}

/// The command repository.
pub struct CommandStore {
    rows: Vec<Command>,
    now: Timestamp,
}

impl View for CommandStore {
    type V = StoreModel;

    closed spec fn view(&self) -> StoreModel {
        StoreModel { rows: views(self.rows@), now: self.now }
    }
}

impl CommandStore {
    /// The invariant that every repository keeps: its value is well formed.
    #[verifier::type_invariant]
    pub open spec fn well_formed(&self) -> bool {
        self@.well_formed()
    }

    /// An empty repository whose clock shows `now`.
    pub fn new(now: Timestamp) -> (store: CommandStore)
        ensures
            store@ == (StoreModel { rows: Seq::empty(), now }),
            store@.well_formed(),
    {
        let store = CommandStore { rows: Vec::new(), now };
        assert(store@.rows =~= Seq::empty());
        store
    }

    /// The current time of the repository.
    pub fn now(&self) -> (now: Timestamp)
        ensures
            now == self@.now,
    {
        self.now
    }

    /// The number of commands.
    pub fn len(&self) -> (len: usize)
        ensures
            len == self@.rows.len(),
    {
        self.rows.len()
    }

    /// Shows the clock the time `reading`. The clock moves forward to it;
    /// a reading that is not later than the clock changes nothing.
    pub fn advance_clock(&mut self, reading: Timestamp)
        ensures
            final(self)@ == old(self)@.advanced(reading),
            final(self)@.well_formed(),
    {
        proof {
            use_type_invariant(&*self);
        }
        if self.now.micros < reading.micros {
            self.now = reading;
        }
    }

    /// The position of the command with the identifier.
    fn find(&self, id: CommandId) -> (found: Option<usize>)
        ensures
            self@.well_formed(),
            match found {
                Some(i) => i < self@.rows.len() && self@.rows[i as int].id == id && self@.holds(
                    id,
                ) && self@.row(id) == self@.rows[i as int],
                None => !self@.holds(id),
            },
    {
        proof {
            use_type_invariant(self);
        }
        let mut i: usize = 0;
        while i < self.rows.len()
            invariant
                i <= self.rows.len(),
                self@.rows.len() == self.rows.len(),
                self@.well_formed(),
                forall|k: int| 0 <= k < i ==> (#[trigger] self@.rows[k]).id != id,
            decreases self.rows.len() - i,
        {
            if self.rows[i].id == id {
                proof {
                    self@.lemma_row_at(i as int);
                }
                return Some(i);
            }
            i += 1;
        }
        None
    }

    /// Whether a command has the identifier.
    pub fn contains(&self, id: CommandId) -> (held: bool)
        ensures
            held == self@.holds(id),
    {
        self.find(id).is_some()
    }

    /// Every command, newest first.
    pub fn list_all(&self) -> (listing: Vec<Command>)
        ensures
            views(listing@) == self@.all_newest_first(),
    {
        let mut listing: Vec<Command> = Vec::new();
        let mut i: usize = self.rows.len();
        while i > 0
            invariant
                i <= self.rows.len(),
                listing@.len() == self.rows.len() - i,
                forall|k: int|
                    0 <= k < listing@.len() ==> listing@[k] == self.rows@[self.rows.len() - 1
                        - k],
            decreases i,
        {
            i -= 1;
            listing.push(self.rows[i].clone());
        }
        assert(views(listing@) =~= views(self.rows@).reverse());
        listing
    }

    /// The pending commands, oldest first.
    pub fn list_pending(&self) -> (listing: Vec<Command>)
        ensures
            views(listing@) == self@.pending_oldest_first(),
    {
        let ghost rows = views(self.rows@);
        let mut listing: Vec<Command> = Vec::new();
        let mut i: usize = 0;
        assert(views(listing@) =~= pending_rows(rows.take(0))) by {
            reveal(Seq::filter);
        }
        while i < self.rows.len()
            invariant
                i <= self.rows.len(),
                rows == views(self.rows@),
                views(listing@) == pending_rows(rows.take(i as int)),
            decreases self.rows.len() - i,
        {
            proof {
                let pending = |command: CommandView| command.status == Status::Pending;
                assert(rows.take(i + 1) =~= rows.take(i as int).push(rows[i as int]));
                rows.take(i as int).lemma_filter_push(rows[i as int], pending);
            }
            if self.rows[i].status == Status::Pending {
                let ghost before = listing@;
                listing.push(self.rows[i].clone());
                assert(views(listing@) =~= views(before).push(rows[i as int]));
            }
            i += 1;
        }
        assert(rows.take(i as int) =~= rows);
        listing
    }

    /// Adds a pending command for `request` under the identifier `id`, created
    /// at the current time, and returns it. Where a command has the
    /// identifier already, nothing is added.
    pub fn insert(&mut self, id: CommandId, request: CreateCommandRequest) -> (outcome: Result<
        Command,
        StoreError,
    >)
        ensures
            final(self)@.well_formed(),
            match outcome {
                Ok(command) => {
                    &&& !old(self)@.holds(id)
                    &&& final(self)@ == old(self)@.with_created(id, request@)
                    &&& command@ == CommandView::pending(id, request@, old(self)@.now)
                    &&& final(self)@.holds(id)
                    &&& final(self)@.row(id) == command@
                },
                Err(error) => {
                    &&& error == StoreError::DuplicateId
                    &&& old(self)@.holds(id)
                    &&& final(self)@ == old(self)@
                },
            },
    {
        if self.find(id).is_some() {
            return Err(StoreError::DuplicateId);
        }
        let command = Command::pending(id, request, self.now);
        let created = command.clone();
        let mut rows: Vec<Command> = Vec::new();
        assert(views(rows@) =~= Seq::empty());
        core::mem::swap(&mut self.rows, &mut rows);
        rows.push(command);
        assert(views(rows@) =~= old(self)@.rows.push(created@));
        core::mem::swap(&mut self.rows, &mut rows);
        proof {
            self@.lemma_row_at(self@.rows.len() - 1);
        }
        Ok(created)
    }

    /// Marks the command with the identifier complete: its status becomes
    /// completed and its completion time the current time, whatever they
    /// were. Returns the command as it then stands. Where no command has the
    /// identifier, nothing changes.
    pub fn complete(&mut self, id: CommandId) -> (outcome: Result<Command, StoreError>)
        ensures
            final(self)@.well_formed(),
            match outcome {
                Ok(command) => {
                    &&& old(self)@.holds(id)
                    &&& final(self)@ == old(self)@.with_completed(id)
                    &&& command@ == old(self)@.row(id).completed(old(self)@.now)
                    &&& final(self)@.holds(id)
                    &&& final(self)@.row(id) == command@
                },
                Err(error) => {
                    &&& error == StoreError::NotFound
                    &&& !old(self)@.holds(id)
                    &&& final(self)@ == old(self)@
                },
            },
    {
        let i = match self.find(id) {
            Some(i) => i,
            None => {
                return Err(StoreError::NotFound);
            },
        };
        let now = self.now;
        let mut command = self.rows[i].clone();
        command.complete(now);
        let completed = command.clone();
        let mut rows: Vec<Command> = Vec::new();
        assert(views(rows@) =~= Seq::empty());
        core::mem::swap(&mut self.rows, &mut rows);
        rows.set(i, command);
        assert(views(rows@) =~= old(self)@.with_completed(id).rows);
        core::mem::swap(&mut self.rows, &mut rows);
        proof {
            self@.lemma_row_at(i as int);
        }
        Ok(completed)
    }
}

} // verus!
