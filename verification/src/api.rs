//! The HTTP interface: the four endpoints, the reply that each gives for
//! every outcome of the repository, and the handlers that run an endpoint on
//! a repository.

use vstd::prelude::*;
use crate::command::{
    payload_fault, request_of, views, Command, CommandView, CreateCommandFields,
    CreateCommandFieldsView, CreateCommandRequest,
};
use crate::ident::CommandId;
use crate::store::{CommandStore, StoreError, StoreModel};

verus! {

/// The status of a reply that carries what was asked for.
pub const STATUS_OK: u16 = 200;

/// The status of the reply to a creation.
pub const STATUS_CREATED: u16 = 201;

/// The status of the reply where the body of a request lacks a field.
pub const STATUS_BAD_REQUEST: u16 = 400;

/// The status of the reply where the path names no command: its identifier
/// is not the text of a UUID, or no command has it.
pub const STATUS_NOT_FOUND: u16 = 404;

/// The status of the reply where the repository failed.
pub const STATUS_INTERNAL_SERVER_ERROR: u16 = 500;

/// A request method.
#[derive(Clone, Copy, Debug, PartialEq, Eq, Structural)]
pub enum Method {
    Get,
    Post,
    Delete,
}

impl Method {
    /// The name of the method as it stands in a request.
    pub open spec fn name(self) -> Seq<char> {
        match self {
            Method::Get => "GET"@,
            Method::Post => "POST"@,
            Method::Delete => "DELETE"@,
        }
    }

    /// The name of the method as it stands in a request.
    pub fn as_str(self) -> (name: &'static str)
        ensures
            name@ == self.name(),
    {
        match self {
            Method::Get => "GET",
            Method::Post => "POST",
            Method::Delete => "DELETE",
        }
    }
}

/// An operation of the service.
#[derive(Clone, Copy, Debug, PartialEq, Eq, Structural)]
pub enum Endpoint {
    /// List all commands, newest first.
    ListCommands,
    /// List the pending commands, oldest first.
    ListPending,
    /// Create a command.
    CreateCommand,
    /// Mark a command complete.
    CompleteCommand,
}

impl Endpoint {
    /// The method of the requests that the endpoint takes.
    #[verifier::when_used_as_spec(spec_method)]
    pub fn method(self) -> (method: Method)
        ensures
            method == self.spec_method(),
    {
        match self {
            Endpoint::ListCommands => Method::Get,
            Endpoint::ListPending => Method::Get,
            Endpoint::CreateCommand => Method::Post,
            Endpoint::CompleteCommand => Method::Post,
        }
    }

    /// The method of the requests that the endpoint takes.
    pub open spec fn spec_method(self) -> Method {
        match self {
            Endpoint::ListCommands => Method::Get,
            Endpoint::ListPending => Method::Get,
            Endpoint::CreateCommand => Method::Post,
            Endpoint::CompleteCommand => Method::Post,
        }
    }

    /// The path of the endpoint; `{id}` stands for the identifier of a
    /// command.
    pub fn path(self) -> (path: &'static str)
        ensures
            path@ == self.spec_path(),
    {
        match self {
            Endpoint::ListCommands => "/commands",
            Endpoint::ListPending => "/commands/pending",
            Endpoint::CreateCommand => "/commands",
            Endpoint::CompleteCommand => "/commands/{id}/complete",
        }
    }

    /// The path of the endpoint.
    pub open spec fn spec_path(self) -> Seq<char> {
        match self {
            Endpoint::ListCommands => "/commands"@,
            Endpoint::ListPending => "/commands/pending"@,
            Endpoint::CreateCommand => "/commands"@,
            Endpoint::CompleteCommand => "/commands/{id}/complete"@,
        }
    }

    /// The status of the reply where the endpoint succeeds.
    #[verifier::when_used_as_spec(spec_success_status)]
    pub fn success_status(self) -> (status: u16)
        ensures
            status == self.spec_success_status(),
    {
        match self {
            Endpoint::CreateCommand => STATUS_CREATED,
            _ => STATUS_OK,
        }
    }

    /// The status of the reply where the endpoint succeeds: created for a
    /// creation, ok for the others.
    pub open spec fn spec_success_status(self) -> u16 {
        match self {
            Endpoint::CreateCommand => STATUS_CREATED,
            _ => STATUS_OK,
        }
    }
}

/// What a reply carries.
#[derive(Debug, PartialEq, Eq)]
pub enum Body {
    /// Nothing.
    Empty,
    /// One command.
    One(Command),
    /// A list of commands.
    Many(Vec<Command>),
}

/// The body of a reply as a mathematical value.
#[verifier::ext_equal]
pub enum BodyView {
    Empty,
    One(CommandView),
    Many(Seq<CommandView>),
}

impl View for Body {
    type V = BodyView;

    open spec fn view(&self) -> BodyView {
        match self {
            Body::Empty => BodyView::Empty,
            Body::One(command) => BodyView::One(command@),
            Body::Many(commands) => BodyView::Many(views(commands@)),
        }
    }
}

/// The reply to a request.
#[derive(Debug, PartialEq, Eq)]
pub struct Reply {
    pub status: u16,
    pub body: Body,
}

/// A reply as a mathematical value.
#[verifier::ext_equal]
pub struct ReplyView {
    pub status: u16,
    pub body: BodyView,
}

impl View for Reply {
    type V = ReplyView;

    open spec fn view(&self) -> ReplyView {
        ReplyView { status: self.status, body: self.body@ }
    }
}

/// The status of the reply where the repository refused or failed: not found
/// where no command has the identifier, a server error otherwise.
pub open spec fn failure_status(error: StoreError) -> u16 {
    match error {
        StoreError::NotFound => STATUS_NOT_FOUND,
        StoreError::DuplicateId => STATUS_INTERNAL_SERVER_ERROR,
        StoreError::Failed => STATUS_INTERNAL_SERVER_ERROR,
    }
}

/// The reply to a failure: its status, and nothing else.
pub open spec fn failure_reply_view(error: StoreError) -> ReplyView {
    ReplyView { status: failure_status(error), body: BodyView::Empty }
}

/// The reply where the body of a creation request lacks a field.
pub open spec fn malformed_body_reply_view() -> ReplyView {
    ReplyView { status: STATUS_BAD_REQUEST, body: BodyView::Empty }
}

/// The reply where the identifier in the path is not the text of a UUID.
pub open spec fn malformed_id_reply_view() -> ReplyView {
    ReplyView { status: STATUS_NOT_FOUND, body: BodyView::Empty }
}

/// The reply of an endpoint that lists commands, for an outcome of the
/// repository.
pub open spec fn listing_reply_view(outcome: Result<Seq<CommandView>, StoreError>) -> ReplyView {
    match outcome {
        Ok(commands) => ReplyView { status: STATUS_OK, body: BodyView::Many(commands) },
        Err(error) => failure_reply_view(error),
    }
}

/// The reply of an endpoint that returns one command, for an outcome of the
/// repository.
pub open spec fn command_reply_view(
    endpoint: Endpoint,
    outcome: Result<CommandView, StoreError>,
) -> ReplyView {
    match outcome {
        Ok(command) => ReplyView {
            status: endpoint.spec_success_status(),
            body: BodyView::One(command),
        },
        Err(error) => failure_reply_view(error),
    }
}

/// The reply to a failure of the repository.
pub fn failure_reply(error: StoreError) -> (reply: Reply)
    ensures
        reply@ == failure_reply_view(error),
{
    let status = match error {
        StoreError::NotFound => STATUS_NOT_FOUND,
        StoreError::DuplicateId => STATUS_INTERNAL_SERVER_ERROR,
        StoreError::Failed => STATUS_INTERNAL_SERVER_ERROR,
    };
    Reply { status, body: Body::Empty }
}

/// The reply where the body of a creation request lacks a field.
pub fn malformed_body_reply() -> (reply: Reply)
    ensures
        reply@ == malformed_body_reply_view(),
{
    Reply { status: STATUS_BAD_REQUEST, body: Body::Empty }
}

/// The reply where the identifier in the path is not the text of a UUID.
pub fn malformed_id_reply() -> (reply: Reply)
    ensures
        reply@ == malformed_id_reply_view(),
{
    Reply { status: STATUS_NOT_FOUND, body: Body::Empty }
}

/// The reply of an endpoint that lists commands: ok with the commands in the
/// order given, or the failure.
pub fn listing_reply(outcome: Result<Vec<Command>, StoreError>) -> (reply: Reply)
    ensures
        reply@ == listing_reply_view(
            match outcome {
                Ok(commands) => Ok(views(commands@)),
                Err(error) => Err(error),
            },
        ),
{
    match outcome {
        Ok(commands) => Reply { status: STATUS_OK, body: Body::Many(commands) },
        Err(error) => failure_reply(error),
    }
}

/// The reply of an endpoint that returns one command: the success status of
/// the endpoint with the command, or the failure.
pub fn command_reply(endpoint: Endpoint, outcome: Result<Command, StoreError>) -> (reply: Reply)
    ensures
        reply@ == command_reply_view(
            endpoint,
            match outcome {
                Ok(command) => Ok(command@),
                Err(error) => Err(error),
            },
        ),
{
    match outcome {
        Ok(command) => Reply { status: endpoint.success_status(), body: Body::One(command) },
        Err(error) => failure_reply(error),
    }
}

/// The repository after a creation request, and the reply to it. A body that
/// lacks a field changes nothing and is answered with a bad request. A body
/// with all fields adds the pending command under `id` and is answered with
/// it; where the identifier is taken, nothing changes and the answer is a
/// server error.
pub open spec fn creation(store: StoreModel, id: CommandId, body: CreateCommandFieldsView) -> (
    StoreModel,
    ReplyView,
) {
    if payload_fault(body) is Some {
        (store, malformed_body_reply_view())
    } else if store.holds(id) {
        (store, failure_reply_view(StoreError::DuplicateId))
    } else {
        (
            store.with_created(id, request_of(body)),
            command_reply_view(
                Endpoint::CreateCommand,
                Ok(CommandView::pending(id, request_of(body), store.now)),
            ),
        )
    }
}

/// The repository after a completion request, and the reply to it, where
/// `id` is what the path gave: the command with the identifier is completed
/// and returned; without an identifier, or where no command has it, nothing
/// changes and the reply is not found.
pub open spec fn completion(store: StoreModel, id: Option<CommandId>) -> (StoreModel, ReplyView) {
    match id {
        None => (store, malformed_id_reply_view()),
        Some(id) => {
            if store.holds(id) {
                (
                    store.with_completed(id),
                    command_reply_view(
                        Endpoint::CompleteCommand,
                        Ok(store.row(id).completed(store.now)),
                    ),
                )
            } else {
                (store, failure_reply_view(StoreError::NotFound))
            }
        },
    }
}

/// Lists all commands of the repository, newest first.
pub fn get_commands(store: &CommandStore) -> (reply: Reply)
    ensures
        reply@ == listing_reply_view(Ok(store@.all_newest_first())),
{
    listing_reply(Ok(store.list_all()))
}

/// Lists the pending commands of the repository, oldest first.
pub fn get_pending_commands(store: &CommandStore) -> (reply: Reply)
    ensures
        reply@ == listing_reply_view(Ok(store@.pending_oldest_first())),
{
    listing_reply(Ok(store.list_pending()))
}

/// Creates a pending command from the body of a request, under the
/// identifier `id` and at the current time of the repository, and replies
/// with it. A body that lacks a field is refused before the repository is
/// touched.
pub fn create_command(store: &mut CommandStore, id: CommandId, body: CreateCommandFields) -> (reply:
    Reply)
    ensures
        final(store)@.well_formed(),
        final(store)@ == creation(old(store)@, id, body@).0,
        reply@ == creation(old(store)@, id, body@).1,
{
    proof {
        use_type_invariant(&*store);
    }
    let request = match CreateCommandRequest::from_fields(body) {
        Ok(request) => request,
        Err(_) => {
            return malformed_body_reply();
        },
    };
    let outcome = store.insert(id, request);
    command_reply(Endpoint::CreateCommand, outcome)
}

/// Marks the command that `id` names complete and replies with it. `id` is
/// what the path of the request gave: `None` where its identifier is not the
/// text of a UUID.
pub fn complete_command(store: &mut CommandStore, id: Option<CommandId>) -> (reply: Reply)
    ensures
        final(store)@.well_formed(),
        final(store)@ == completion(old(store)@, id).0,
        reply@ == completion(old(store)@, id).1,
{
    match id {
        None => {
            proof {
                use_type_invariant(&*store);
            }
            malformed_id_reply()
        },
        Some(id) => {
            let outcome = store.complete(id);
            command_reply(Endpoint::CompleteCommand, outcome)
        },
    }
}

/// Marks the command complete whose identifier stands as `id_text` in the
/// path of the request, and replies with it.
pub fn mark_command_complete(store: &mut CommandStore, id_text: &str) -> (reply: Reply)
    ensures
        final(store)@.well_formed(),
        final(store)@ == completion(old(store)@, CommandId::spec_parse(id_text@)).0,
        reply@ == completion(old(store)@, CommandId::spec_parse(id_text@)).1,
{
    complete_command(store, CommandId::parse(id_text))
}

} // verus!
