//! The command record and its lifecycle.
//!
//! A command is created pending, with no completion time. Completing it sets
//! its status to completed and records the time; nothing else about it ever
//! changes.

use vstd::prelude::*;
use crate::ident::CommandId;
use crate::text::text_eq;

verus! {

/// A point in time without a time zone, in microseconds since
/// 1970-01-01 00:00:00.
#[derive(Clone, Copy, Debug, PartialEq, Eq, Structural)]
pub struct Timestamp {
    pub micros: i64,
}

/// Where a command stands in its lifecycle.
#[derive(Clone, Copy, Debug, PartialEq, Eq, Structural)]
pub enum Status {
    Pending,
    Completed,
}

impl Status {
    /// The text that stands for the status on the wire and in the table.
    pub open spec fn text(self) -> Seq<char> {
        match self {
            Status::Pending => "pending"@,
            Status::Completed => "completed"@,
        }
    }

    /// The status that a text stands for, if any.
    pub open spec fn spec_parse(text: Seq<char>) -> Option<Status> {
        if text == "pending"@ {
            Some(Status::Pending)
        } else if text == "completed"@ {
            Some(Status::Completed)
        } else {
            None
        }
    }

    /// The text of the status: `pending` or `completed`.
    pub fn as_str(self) -> (text: &'static str)
        ensures
            text@ == self.text(),
    {
        match self {
            Status::Pending => "pending",
            Status::Completed => "completed",
        }
    }

    /// Reads a status from its text. Any text other than the two status
    /// texts gives `None`.
    pub fn parse(text: &str) -> (status: Option<Status>)
        ensures
            status == Status::spec_parse(text@),
    {
        if text_eq(text, "pending") {
            Some(Status::Pending)
        } else if text_eq(text, "completed") {
            Some(Status::Completed)
        } else {
            None
        }
    }

    /// Reading the text of a status gives the status back.
    pub proof fn lemma_parse_text(status: Status)
        ensures
            Status::spec_parse(status.text()) == Some(status),
    {
        reveal_strlit("pending");
        reveal_strlit("completed");
        assert("pending"@.len() != "completed"@.len());
    }
}

/// What a caller supplies to create a command.
#[derive(Debug, PartialEq, Eq)]
pub struct CreateCommandRequest {
    pub tag_id: String,
    pub robot_id: String,
    pub floor: i32,
}

/// A creation request as a mathematical value.
pub struct CreateCommandRequestView {
    pub tag_id: Seq<char>,
    pub robot_id: Seq<char>,
    pub floor: i32,
}

impl View for CreateCommandRequest {
    type V = CreateCommandRequestView;

    open spec fn view(&self) -> CreateCommandRequestView {
        CreateCommandRequestView {
            tag_id: self.tag_id@,
            robot_id: self.robot_id@,
            floor: self.floor,
        }
    }
}

/// The fields of the body of a creation request, as far as the body holds
/// them.
#[derive(Debug, PartialEq, Eq)]
pub struct CreateCommandFields {
    pub tag_id: Option<String>,
    pub robot_id: Option<String>,
    pub floor: Option<i32>,
}

/// The fields of a body as a mathematical value.
pub struct CreateCommandFieldsView {
    pub tag_id: Option<Seq<char>>,
    pub robot_id: Option<Seq<char>>,
    pub floor: Option<i32>,
}

impl View for CreateCommandFields {
    type V = CreateCommandFieldsView;

    open spec fn view(&self) -> CreateCommandFieldsView {
        CreateCommandFieldsView {
            tag_id: match self.tag_id {
                Some(text) => Some(text@),
                None => None,
            },
            robot_id: match self.robot_id {
                Some(text) => Some(text@),
                None => None,
            },
            floor: self.floor,
        }
    }
}

/// Why the body of a creation request is refused: a field that every request
/// must hold is not there.
#[derive(Clone, Copy, Debug, PartialEq, Eq, Structural)]
pub enum PayloadError {
    MissingTagId,
    MissingRobotId,
    MissingFloor,
}

/// The first field that a body lacks, in the order tag, robot, floor.
pub open spec fn payload_fault(fields: CreateCommandFieldsView) -> Option<PayloadError> {
    if fields.tag_id is None {
        Some(PayloadError::MissingTagId)
    } else if fields.robot_id is None {
        Some(PayloadError::MissingRobotId)
    } else if fields.floor is None {
        Some(PayloadError::MissingFloor)
    } else {
        None
    }
}

/// The request that a body with all three fields makes.
pub open spec fn request_of(fields: CreateCommandFieldsView) -> CreateCommandRequestView {
    CreateCommandRequestView {
        tag_id: fields.tag_id->0,
        robot_id: fields.robot_id->0,
        floor: fields.floor->0,
    }
}

impl CreateCommandRequest {
    /// Checks that a body holds all three fields. Nothing is asked of their
    /// values: any text and any floor is taken.
    pub fn from_fields(fields: CreateCommandFields) -> (request: Result<
        CreateCommandRequest,
        PayloadError,
    >)
        ensures
            match request {
                Ok(request) => payload_fault(fields@) is None && request@ == request_of(fields@),
                Err(fault) => payload_fault(fields@) == Some(fault),
            },
    {
        let tag_id = match fields.tag_id {
            Some(tag_id) => tag_id,
            None => {
                return Err(PayloadError::MissingTagId);
            },
        };
        let robot_id = match fields.robot_id {
            Some(robot_id) => robot_id,
            None => {
                return Err(PayloadError::MissingRobotId);
            },
        };
        let floor = match fields.floor {
            Some(floor) => floor,
            None => {
                return Err(PayloadError::MissingFloor);
            },
        };
        Ok(CreateCommandRequest { tag_id, robot_id, floor })
    }
}

/// An instruction to a robot to travel to a floor.
#[derive(Debug, PartialEq, Eq)]
pub struct Command {
    pub id: CommandId,
    pub tag_id: String,
    pub robot_id: String,
    pub floor: i32,
    pub created_at: Timestamp,
    pub completed_at: Option<Timestamp>,
    pub status: Status,
}

/// A command as a mathematical value.
pub struct CommandView {
    pub id: CommandId,
    pub tag_id: Seq<char>,
    pub robot_id: Seq<char>,
    pub floor: i32,
    pub created_at: Timestamp,
    pub completed_at: Option<Timestamp>,
    pub status: Status,
}

impl CommandView {
    /// The invariant of a command: it is completed exactly when it has a
    /// completion time, and that time is not before its creation.
    pub open spec fn well_formed(self) -> bool {
        &&& self.status == Status::Completed <==> self.completed_at is Some
        &&& self.completed_at matches Some(at) ==> self.created_at.micros <= at.micros
    }

    /// Whether no time of the command is later than `now`.
    pub open spec fn not_after(self, now: Timestamp) -> bool {
        &&& self.created_at.micros <= now.micros
        &&& self.completed_at matches Some(at) ==> at.micros <= now.micros
    }

    /// The command that a request creates at the time `now`.
    pub open spec fn pending(
        id: CommandId,
        request: CreateCommandRequestView,
        now: Timestamp,
    ) -> CommandView {
        CommandView {
            id,
            tag_id: request.tag_id,
            robot_id: request.robot_id,
            floor: request.floor,
            created_at: now,
            completed_at: None,
            status: Status::Pending,
        }
    }

    /// The command after it was completed at the time `now`.
    pub open spec fn completed(self, now: Timestamp) -> CommandView {
        CommandView { completed_at: Some(now), status: Status::Completed, ..self }
    }
}

impl View for Command {
    type V = CommandView;

    open spec fn view(&self) -> CommandView {
        CommandView {
            id: self.id,
            tag_id: self.tag_id@,
            robot_id: self.robot_id@,
            floor: self.floor,
            created_at: self.created_at,
            completed_at: self.completed_at,
            status: self.status,
        }
    }
}

impl Clone for Command {
    fn clone(&self) -> (copy: Self)
        ensures
            copy == *self,
    {
        Command {
            id: self.id,
            tag_id: self.tag_id.clone(),
            robot_id: self.robot_id.clone(),
            floor: self.floor,
            created_at: self.created_at,
            completed_at: self.completed_at,
            status: self.status,
        }
    }
}

/// The commands of a sequence as mathematical values, in the same order.
pub open spec fn views(commands: Seq<Command>) -> Seq<CommandView> {
    Seq::new(commands.len(), |i: int| commands[i]@)
}

/// Why the columns of a row are not a command.
#[derive(Clone, Copy, Debug, PartialEq, Eq, Structural)]
pub enum RowError {
    /// The status is neither `pending` nor `completed`.
    UnknownStatus,
    /// A completed row without a completion time, or a pending row with one.
    CompletionMismatch,
    /// The completion time is before the creation time.
    CompletedBeforeCreated,
}

/// What is wrong with the times and the status text of a row, if anything.
/// The status text is looked at first, then whether a completion time is
/// there, then its order with the creation time.
pub open spec fn row_fault(
    created_at: Timestamp,
    completed_at: Option<Timestamp>,
    status_text: Seq<char>,
) -> Option<RowError> {
    match Status::spec_parse(status_text) {
        None => Some(RowError::UnknownStatus),
        Some(status) => {
            if (status == Status::Completed) != (completed_at is Some) {
                Some(RowError::CompletionMismatch)
            } else if completed_at is Some && completed_at->0.micros < created_at.micros {
                Some(RowError::CompletedBeforeCreated)
            } else {
                None
            }
        },
    }
}

impl Command {
    /// A new pending command for `request`, created at `now`.
    pub fn pending(id: CommandId, request: CreateCommandRequest, now: Timestamp) -> (command:
        Command)
        ensures
            command@ == CommandView::pending(id, request@, now),
            command@.well_formed(),
    {
        Command {
            id,
            tag_id: request.tag_id,
            robot_id: request.robot_id,
            floor: request.floor,
            created_at: now,
            completed_at: None,
            status: Status::Pending,
        }
    }

    /// Completes the command at `now`: the status becomes completed and the
    /// completion time becomes `now`, whatever they were. The invariant is
    /// kept where `now` is not before the creation time.
    pub fn complete(&mut self, now: Timestamp)
        ensures
            final(self)@ == old(self)@.completed(now),
            old(self).created_at.micros <= now.micros ==> final(self)@.well_formed(),
    {
        self.completed_at = Some(now);
        self.status = Status::Completed;
    }

    /// Builds a command from the columns of a row. The row is refused where
    /// its status text is unknown or the command invariant fails.
    pub fn from_row(
        id: CommandId,
        tag_id: String,
        robot_id: String,
        floor: i32,
        created_at: Timestamp,
        completed_at: Option<Timestamp>,
        status_text: &str,
    ) -> (row: Result<Command, RowError>)
        ensures
            match row {
                Ok(command) => {
                    &&& row_fault(created_at, completed_at, status_text@) is None
                    &&& Status::spec_parse(status_text@) == Some(command.status)
                    &&& command@ == (CommandView {
                        id,
                        tag_id: tag_id@,
                        robot_id: robot_id@,
                        floor,
                        created_at,
                        completed_at,
                        status: command.status,
                    })
                    &&& command@.well_formed()
                },
                Err(fault) => row_fault(created_at, completed_at, status_text@) == Some(fault),
            },
    {
        let status = match Status::parse(status_text) {
            Some(status) => status,
            None => {
                return Err(RowError::UnknownStatus);
            },
        };
        let is_completed = match status {
            Status::Completed => true,
            Status::Pending => false,
        };
        if is_completed != completed_at.is_some() {
            return Err(RowError::CompletionMismatch);
        }
        match completed_at {
            Some(at) => {
                if at.micros < created_at.micros {
                    return Err(RowError::CompletedBeforeCreated);
                }
            },
            None => {},
        }
        Ok(Command { id, tag_id, robot_id, floor, created_at, completed_at, status })
    }
}

} // verus!
