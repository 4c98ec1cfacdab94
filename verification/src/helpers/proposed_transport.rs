//! Commands that helpers exchange to set up and run queries, and the errors of sending them.
use crate::helpers::network::MessageChunks;
use crate::helpers::{ByteArrStream, HelperIdentity, Role, RolesToHelpers};
use crate::protocol::context::ContextType;
use crate::protocol::QueryId;
use std::collections::HashMap;
use tokio::sync::oneshot;
use tokio_util::sync::PollSendError;
use vstd::prelude::*;
use vstd::std_specs::convert::FromSpecImpl;

verus! {

#[verifier::external_type_specification]
#[verifier::external_body]
#[verifier::reject_recursive_types(T)]
pub struct ExOneshotSender<T>(oneshot::Sender<T>);

#[verifier::external_type_specification]
#[verifier::external_body]
#[verifier::reject_recursive_types(T)]
pub struct ExPollSendError<T>(PollSendError<T>);

/// Calls `tokio::sync::oneshot::Sender::send`. It fails when the receiving half has already
/// been dropped, and then hands the value back: the contract claims only that an `Err` carries
/// the value that was given. Whether it fails depends on the other task and is not stated.
#[verifier::external_body]
fn oneshot_send<T>(sender: oneshot::Sender<T>, value: T) -> (r: Result<(), T>)
    ensures
        r matches Err(back) ==> back == value,
{
    sender.send(value)
}

/// The command that a failed send carried, as `PollSendError::into_inner` gives it back:
/// `None` when the failure happened before a command was handed over.
pub uninterp spec fn command_of_failed_send(error: PollSendError<TransportCommand>) -> Option<TransportCommand>;

/// Calls `tokio_util::sync::PollSendError::into_inner`, which returns the field the error
/// stores, so its result depends on the error alone; it is named `command_of_failed_send`.
#[verifier::external_body]
fn poll_send_error_into_inner(error: PollSendError<TransportCommand>) -> (r: Option<TransportCommand>)
    ensures
        r == command_of_failed_send(error),
{
    error.into_inner()
}

/// Errors of the transport between helpers.
#[allow(inconsistent_fields)]
#[derive(Debug)]
pub enum TransportError {
    /// The command was received, but whoever sent it stopped waiting for the response.
    CallbackFailed { command_name: &'static str, query_id: QueryId },
    /// The command could not be sent. What is known of it may be missing.
    SendFailed { command_name: Option<&'static str>, query_id: Option<QueryId> },
    /// Commands of this query already have a subscriber.
    PreviouslySubscribed { query_id: QueryId },
}

impl TransportError {
    /// The error reports a failed send of `command` (when known): it names the command's kind
    /// and the query it belongs to.
    pub open spec fn reports_failed_send(self, command: Option<TransportCommand>) -> bool {
        match self {
            TransportError::SendFailed { command_name, query_id } => match command {
                None => command_name is None && query_id is None,
                Some(c) => command_name matches Some(n) && n@ == c.spec_name()
                    && query_id == c.spec_query_id(),
            },
            _ => false,
        }
    }

    /// The error that reports a failed send of `command` (when known).
    pub open spec fn failed_send(command: Option<TransportCommand>) -> TransportError {
        match command {
            None => TransportError::SendFailed { command_name: None, query_id: None },
            Some(c) => TransportError::SendFailed {
                command_name: Some(c.spec_name_str()),
                query_id: c.spec_query_id(),
            },
        }
    }

    /// The error for a command that could not be sent; `command` is the command when it is
    /// known. Its name and, for every command but `CreateQuery`, its query id are kept.
    pub fn send_failed(command: Option<TransportCommand>) -> (r: TransportError)
        ensures
            r == TransportError::failed_send(command),
            r.reports_failed_send(command),
    {
        let (command_name, query_id) = match command {
            Some(TransportCommand::CreateQuery(_)) => (Some(CreateQueryData::name()), None),
            Some(TransportCommand::PrepareQuery(PrepareQueryData { query_id, .. })) => {
                (Some(PrepareQueryData::name()), Some(query_id))
            },
            Some(TransportCommand::StartMul(StartMulData { query_id, .. })) => {
                (Some(StartMulData::name()), Some(query_id))
            },
            Some(TransportCommand::Mul(MulData { query_id, .. })) => {
                (Some(MulData::name()), Some(query_id))
            },
            Some(TransportCommand::NetworkEvent(NetworkEventData { query_id, .. })) => {
                (Some(NetworkEventData::name()), Some(query_id))
            },
            None => (None, None),
        };
        TransportError::SendFailed { command_name, query_id }
    }

    /// The outcome of answering a command through its callback: success when the response
    /// was handed over, otherwise `CallbackFailed` naming the command and the query.
    pub fn from_callback<T>(sent: Result<(), T>, command_name: &'static str, query_id: QueryId) -> (r:
        Result<(), TransportError>)
        ensures
            sent is Ok ==> r is Ok,
            sent is Err ==> (r matches Err(TransportError::CallbackFailed { command_name: n, query_id: q })
                && n == command_name && q == query_id),
    {
        match sent {
            Ok(()) => Ok(()),
            Err(_) => Err(TransportError::CallbackFailed { command_name, query_id }),
        }
    }
}

/// A send that failed on a closed channel. The command it carried, when there was one, is
/// named in the error; see `TransportError::send_failed`.
impl From<PollSendError<TransportCommand>> for TransportError {
    fn from(source: PollSendError<TransportCommand>) -> (r: Self)
        ensures
            r == TransportError::failed_send(command_of_failed_send(source)),
            r.reports_failed_send(command_of_failed_send(source)),
    {
        TransportError::send_failed(poll_send_error_into_inner(source))
    }
}

impl FromSpecImpl<PollSendError<TransportCommand>> for TransportError {
    open spec fn obeys_from_spec() -> bool {
        true
    }

    open spec fn from_spec(v: PollSendError<TransportCommand>) -> Self {
        TransportError::failed_send(command_of_failed_send(v))
    }
}

/// The data of a command, which knows its own name and how to answer the command.
pub trait TransportCommandData: Sized {
    type RespData;

    spec fn spec_name() -> Seq<char>;

    fn name() -> (r: &'static str)
        ensures
            r@ == Self::spec_name(),
    ;

    /// Answers the command. On failure the error names this command and `query_id`.
    fn respond(self, query_id: QueryId, data: Self::RespData) -> (r: Result<(), TransportError>)
        ensures
            r matches Err(e) ==> (e matches TransportError::CallbackFailed { command_name, query_id: q }
                && command_name@ == Self::spec_name() && q == query_id),
    ;
}

/// Asks a helper to lead the setup of a new query.
#[derive(Debug)]
pub struct CreateQueryData {
    pub context_type: ContextType,
    pub field_type: String,
    pub helper_positions: [HelperIdentity; 3],
    callback: oneshot::Sender<(QueryId, HelperIdentity)>,
}

impl CreateQueryData {
    pub fn new(
        context_type: ContextType,
        field_type: String,
        helper_positions: [HelperIdentity; 3],
        callback: oneshot::Sender<(QueryId, HelperIdentity)>,
    ) -> (r: Self)
        ensures
            r.parts() == (context_type, field_type, helper_positions, callback),
    {
        CreateQueryData { context_type, field_type, helper_positions, callback }
    }

    /// The answer that the callback receives: the new query's id and the helper that should
    /// receive the input.
    fn answer(query_id: QueryId, data: HelperIdentity) -> (r: (QueryId, HelperIdentity))
        ensures
            r == (query_id, data),
    {
        (query_id, data)
    }

    /// Hands the callback the new query's id and the helper that should receive the input.
    /// When nobody waits for the answer any more, it comes back unchanged: the answer is
    /// exactly `(query_id, data)`.
    pub fn send_answer(self, query_id: QueryId, data: HelperIdentity) -> (r: Result<
        (),
        (QueryId, HelperIdentity),
    >)
        ensures
            r matches Err(back) ==> back == (query_id, data),
    {
        oneshot_send(self.callback, Self::answer(query_id, data))
    }

    /// The query's context type, field type, helper positions and the callback for the answer.
    pub closed spec fn parts(&self) -> (
        ContextType,
        String,
        [HelperIdentity; 3],
        oneshot::Sender<(QueryId, HelperIdentity)>,
    ) {
        (self.context_type, self.field_type, self.helper_positions, self.callback)
    }

    /// The security model the query runs under.
    pub fn context_type(&self) -> (r: ContextType)
        ensures
            r == self.parts().0,
    {
        self.context_type
    }

    /// The field the query computes in.
    pub fn field_type(&self) -> (r: &String)
        ensures
            *r == self.parts().1,
    {
        &self.field_type
    }

    /// The helpers of the query, in order.
    pub fn helper_positions(&self) -> (r: [HelperIdentity; 3])
        ensures
            r == self.parts().2,
    {
        self.helper_positions
    }
}

impl TransportCommandData for CreateQueryData {
    type RespData = HelperIdentity;

    open spec fn spec_name() -> Seq<char> {
        "CreateQuery"@
    }

    fn name() -> (r: &'static str)
        ensures
            r == "CreateQuery",
    {
        "CreateQuery"
    }

    /// Sends the new query's id and the helper that should receive the input.
    fn respond(self, query_id: QueryId, data: HelperIdentity) -> (r: Result<(), TransportError>) {
        let sent = self.send_answer(query_id, data);
        TransportError::from_callback(sent, Self::name(), query_id)
    }
}

/// Tells a follower helper about a query that the leader has set up.
#[derive(Debug)]
pub struct PrepareQueryData {
    pub query_id: QueryId,
    pub context_type: ContextType,
    pub field_type: String,
    pub helper_positions: [HelperIdentity; 3],
    pub helpers_to_roles: HashMap<HelperIdentity, Role>,
    callback: oneshot::Sender<()>,
}

impl PrepareQueryData {
    pub fn new(
        query_id: QueryId,
        context_type: ContextType,
        field_type: String,
        helper_positions: [HelperIdentity; 3],
        helpers_to_roles: HashMap<HelperIdentity, Role>,
        callback: oneshot::Sender<()>,
    ) -> (r: Self)
        ensures
            r.parts() == (
                query_id,
                context_type,
                field_type,
                helper_positions,
                helpers_to_roles,
                callback,
            ),
    {
        PrepareQueryData {
            query_id,
            context_type,
            field_type,
            helper_positions,
            helpers_to_roles,
            callback,
        }
    }

    /// The query id, context type, field type, helper positions, the roles of the helpers and
    /// the callback for the acknowledgement.
    pub closed spec fn parts(&self) -> (
        QueryId,
        ContextType,
        String,
        [HelperIdentity; 3],
        HashMap<HelperIdentity, Role>,
        oneshot::Sender<()>,
    ) {
        (
            self.query_id,
            self.context_type,
            self.field_type,
            self.helper_positions,
            self.helpers_to_roles,
            self.callback,
        )
    }

    /// The query being set up.
    pub fn query_id(&self) -> (r: QueryId)
        ensures
            r == self.parts().0,
    {
        self.query_id
    }

    /// The security model the query runs under.
    pub fn context_type(&self) -> (r: ContextType)
        ensures
            r == self.parts().1,
    {
        self.context_type
    }

    /// The field the query computes in.
    pub fn field_type(&self) -> (r: &String)
        ensures
            *r == self.parts().2,
    {
        &self.field_type
    }

    /// The helpers of the query, in order.
    pub fn helper_positions(&self) -> (r: [HelperIdentity; 3])
        ensures
            r == self.parts().3,
    {
        self.helper_positions
    }

    /// The role each helper plays in the query.
    pub fn helpers_to_roles(&self) -> (r: &HashMap<HelperIdentity, Role>)
        ensures
            *r == self.parts().4,
    {
        &self.helpers_to_roles
    }
}

impl TransportCommandData for PrepareQueryData {
    type RespData = ();

    open spec fn spec_name() -> Seq<char> {
        "PrepareQuery"@
    }

    fn name() -> (r: &'static str)
        ensures
            r == "PrepareQuery",
    {
        "PrepareQuery"
    }

    /// Acknowledges the setup.
    fn respond(self, query_id: QueryId, data: ()) -> (r: Result<(), TransportError>) {
        let sent = oneshot_send(self.callback, ());
        TransportError::from_callback(sent, Self::name(), query_id)
    }
}

/// Hands the input of a query to the helper that leads the multiplication.
#[derive(Debug)]
pub struct StartMulData {
    pub query_id: QueryId,
    pub data_stream: ByteArrStream,
    callback: oneshot::Sender<()>,
}

impl StartMulData {
    pub fn new(query_id: QueryId, data_stream: ByteArrStream, callback: oneshot::Sender<()>) -> (r:
        Self)
        ensures
            r.parts() == (query_id, data_stream, callback),
    {
        StartMulData { query_id, data_stream, callback }
    }

    /// The query id, the input and the callback for the acknowledgement.
    pub closed spec fn parts(&self) -> (QueryId, ByteArrStream, oneshot::Sender<()>) {
        (self.query_id, self.data_stream, self.callback)
    }

    /// The query to run.
    pub fn query_id(&self) -> (r: QueryId)
        ensures
            r == self.parts().0,
    {
        self.query_id
    }

    /// The input of the query.
    pub fn data_stream(&self) -> (r: &ByteArrStream)
        ensures
            *r == self.parts().1,
    {
        &self.data_stream
    }
}

impl TransportCommandData for StartMulData {
    type RespData = ();

    open spec fn spec_name() -> Seq<char> {
        "StartMul"@
    }

    fn name() -> (r: &'static str)
        ensures
            r == "StartMul",
    {
        "StartMul"
    }

    /// Acknowledges that the multiplication has started.
    fn respond(self, query_id: QueryId, data: ()) -> (r: Result<(), TransportError>) {
        let sent = oneshot_send(self.callback, ());
        TransportError::from_callback(sent, Self::name(), query_id)
    }
}

/// Hands a follower helper its part of the input of a multiplication.
#[derive(Debug)]
pub struct MulData {
    pub query_id: QueryId,
    pub field_type: String,
    pub destination: HelperIdentity,
    pub data: ByteArrStream,
}

impl MulData {
    pub fn new(query_id: QueryId, field_type: String, destination: HelperIdentity, data: ByteArrStream) -> (r:
        Self)
        ensures
            r.query_id == query_id,
            r.field_type == field_type,
            r.destination == destination,
            r.data == data,
    {
        Self { query_id, field_type, destination, data }
    }
}

impl TransportCommandData for MulData {
    type RespData = ();

    open spec fn spec_name() -> Seq<char> {
        "Mul"@
    }

    fn name() -> (r: &'static str)
        ensures
            r == "Mul",
    {
        "Mul"
    }

    /// Nobody waits for an answer to this command, so answering always succeeds.
    fn respond(self, query_id: QueryId, data: ()) -> (r: Result<(), TransportError>)
        ensures
            r is Ok,
    {
        Ok(())
    }
}

/// Carries the messages of a running query from one helper to another.
#[derive(Debug)]
pub struct NetworkEventData {
    pub query_id: QueryId,
    pub roles_to_helpers: RolesToHelpers,
    pub message_chunks: MessageChunks,
}

impl NetworkEventData {
    pub fn new(
        query_id: QueryId,
        roles_to_helpers: RolesToHelpers,
        message_chunks: MessageChunks,
    ) -> (r: Self)
        ensures
            r.query_id == query_id,
            r.roles_to_helpers == roles_to_helpers,
            r.message_chunks == message_chunks,
    {
        Self { query_id, roles_to_helpers, message_chunks }
    }
}

impl TransportCommandData for NetworkEventData {
    type RespData = ();

    open spec fn spec_name() -> Seq<char> {
        "NetworkEvent"@
    }

    fn name() -> (r: &'static str)
        ensures
            r == "NetworkEvent",
    {
        "NetworkEvent"
    }

    /// Nobody waits for an answer to this command, so answering always succeeds.
    fn respond(self, query_id: QueryId, data: ()) -> (r: Result<(), TransportError>)
        ensures
            r is Ok,
    {
        Ok(())
    }
}

/// A command for a helper.
#[derive(Debug)]
pub enum TransportCommand {
    /// The receiving helper leads the setup of the query: it generates the query id, assigns
    /// roles to the helpers, informs the others and answers with the query id and the helper
    /// that should receive the input.
    CreateQuery(CreateQueryData),
    /// The receiving helper follows the setup that the leader made, and acknowledges it.
    PrepareQuery(PrepareQueryData),
    /// The receiving helper leads the multiplication: it splits the input in three, sends two
    /// of the parts to the other helpers and runs the protocol on the third.
    StartMul(StartMulData),
    /// The receiving helper follows the multiplication, running the protocol on its part.
    Mul(MulData),
    /// Messages of a running query, delivered to whoever subscribed to the query.
    NetworkEvent(NetworkEventData),
}

impl TransportCommand {
    /// The name of the command's kind.
    pub open spec fn spec_name(&self) -> Seq<char> {
        match self {
            TransportCommand::CreateQuery(_) => CreateQueryData::spec_name(),
            TransportCommand::PrepareQuery(_) => PrepareQueryData::spec_name(),
            TransportCommand::StartMul(_) => StartMulData::spec_name(),
            TransportCommand::Mul(_) => MulData::spec_name(),
            TransportCommand::NetworkEvent(_) => NetworkEventData::spec_name(),
        }
    }

    /// The name of the command's kind, as `name` gives it.
    pub open spec fn spec_name_str(&self) -> &'static str {
        match self {
            TransportCommand::CreateQuery(_) => "CreateQuery",
            TransportCommand::PrepareQuery(_) => "PrepareQuery",
            TransportCommand::StartMul(_) => "StartMul",
            TransportCommand::Mul(_) => "Mul",
            TransportCommand::NetworkEvent(_) => "NetworkEvent",
        }
    }

    /// The query the command belongs to; a query that is still to be created has none.
    pub open spec fn spec_query_id(&self) -> Option<QueryId> {
        match self {
            TransportCommand::CreateQuery(_) => None,
            TransportCommand::PrepareQuery(d) => Some(d.parts().0),
            TransportCommand::StartMul(d) => Some(d.parts().0),
            TransportCommand::Mul(d) => Some(d.query_id),
            TransportCommand::NetworkEvent(d) => Some(d.query_id),
        }
    }
}

/// Users of a transport subscribe to one type of command.
#[derive(Debug)]
pub enum SubscriptionType {
    /// Commands for managing queries
    Administration,
    /// Commands intended for a running query
    Query(QueryId),
}

} // verus!
