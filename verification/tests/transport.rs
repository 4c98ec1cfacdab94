use raw_ipa::helpers::http::server::handlers::ReservedPermit;
use raw_ipa::helpers::network::{ChannelId, MessageEnvelope};
use raw_ipa::helpers::proposed_network::{message_chunks_of, network_event_for};
use raw_ipa::helpers::proposed_transport::{
    CreateQueryData, MulData, NetworkEventData, PrepareQueryData, StartMulData, SubscriptionType,
    TransportCommand, TransportCommandData, TransportError,
};
use raw_ipa::helpers::{ByteArrStream, HelperIdentity, Role};
use raw_ipa::protocol::context::ContextType;
use raw_ipa::protocol::{QueryId, RecordId, Step};
use std::collections::HashMap;
use tokio::sync::{mpsc, oneshot};
use tokio_util::sync::PollSender;

fn helpers() -> [HelperIdentity; 3] {
    [HelperIdentity::new(1), HelperIdentity::new(2), HelperIdentity::new(3)]
}

fn mul_command() -> TransportCommand {
    TransportCommand::Mul(MulData::new(
        QueryId,
        "fp31".to_string(),
        HelperIdentity::new(2),
        ByteArrStream::new(vec![vec![1, 2, 3]]),
    ))
}

#[test]
fn command_names() {
    assert_eq!(CreateQueryData::name(), "CreateQuery");
    assert_eq!(PrepareQueryData::name(), "PrepareQuery");
    assert_eq!(StartMulData::name(), "StartMul");
    assert_eq!(MulData::name(), "Mul");
    assert_eq!(NetworkEventData::name(), "NetworkEvent");
    assert_eq!(QueryId.as_ref(), "0");
}

#[test]
fn create_query_responds_through_callback() {
    let (tx, mut rx) = oneshot::channel();
    let data = CreateQueryData::new(ContextType::SemiHonest, "fp31".to_string(), helpers(), tx);
    assert!(data.respond(QueryId, HelperIdentity::new(3)).is_ok());
    assert_eq!(rx.try_recv().unwrap(), (QueryId, HelperIdentity::new(3)));
}

#[test]
fn response_fails_when_nobody_waits() {
    let (tx, rx) = oneshot::channel();
    drop(rx);
    let data = PrepareQueryData::new(
        QueryId,
        ContextType::Malicious,
        "fp32_bit_prime".to_string(),
        helpers(),
        HashMap::from([(HelperIdentity::new(1), Role::H1)]),
        tx,
    );
    match data.respond(QueryId, ()) {
        Err(TransportError::CallbackFailed { command_name, query_id }) => {
            assert_eq!(command_name, "PrepareQuery");
            assert_eq!(query_id, QueryId);
        }
        other => panic!("unexpected {other:?}"),
    }

    let (tx, rx) = oneshot::channel();
    drop(rx);
    let data = StartMulData::new(QueryId, ByteArrStream::new(vec![]), tx);
    assert!(matches!(
        data.respond(QueryId, ()),
        Err(TransportError::CallbackFailed { command_name: "StartMul", .. })
    ));
}

#[test]
fn commands_without_callback_always_respond() {
    let data = MulData::new(QueryId, "fp31".to_string(), HelperIdentity::new(1), ByteArrStream::new(vec![]));
    assert!(data.respond(QueryId, ()).is_ok());
    let chunks = (ChannelId::new(Role::H2, Step::root()), vec![9_u8]);
    let data = NetworkEventData::new(QueryId, HashMap::new(), chunks);
    assert!(data.respond(QueryId, ()).is_ok());
}

#[test]
fn send_failure_names_the_command() {
    match TransportError::send_failed(Some(mul_command())) {
        TransportError::SendFailed { command_name, query_id } => {
            assert_eq!(command_name, Some("Mul"));
            assert_eq!(query_id, Some(QueryId));
        }
        other => panic!("unexpected {other:?}"),
    }
    let (tx, _rx) = oneshot::channel();
    let create = TransportCommand::CreateQuery(CreateQueryData::new(
        ContextType::SemiHonest,
        "fp2".to_string(),
        helpers(),
        tx,
    ));
    assert!(matches!(
        TransportError::send_failed(Some(create)),
        TransportError::SendFailed { command_name: Some("CreateQuery"), query_id: None }
    ));
    assert!(matches!(
        TransportError::send_failed(None),
        TransportError::SendFailed { command_name: None, query_id: None }
    ));
}

#[test]
fn closed_channel_error_converts() {
    let (tx, _rx) = mpsc::channel::<TransportCommand>(1);
    let mut sender = PollSender::new(tx);
    sender.close();
    let error = sender.send_item(mul_command()).unwrap_err();
    assert!(matches!(
        TransportError::from(error),
        TransportError::SendFailed { command_name: Some("Mul"), query_id: Some(QueryId) }
    ));
}

#[test]
fn query_stream_takes_network_events_only() {
    let chunks = (ChannelId::new(Role::H3, Step::root().narrow("mul")), vec![1_u8, 2]);
    let event = TransportCommand::NetworkEvent(NetworkEventData::new(QueryId, HashMap::new(), chunks));
    let (channel, bytes) = message_chunks_of(event).unwrap();
    assert_eq!(channel.role, Role::H3);
    assert_eq!(channel.step.as_str(), "protocol/mul");
    assert_eq!(bytes, vec![1, 2]);
    assert!(matches!(message_chunks_of(mul_command()), Err(TransportCommand::Mul(_))));
}

#[test]
fn steps_narrow_into_paths() {
    let step = Step::root().narrow("a").narrow("b");
    assert_eq!(step.as_str(), "protocol/a/b");
    let channel = ChannelId::new(Role::H1, step.clone());
    assert_eq!(channel.clone(), channel);
    assert_eq!(channel.step, step);
    let envelope = MessageEnvelope { record_id: RecordId(4), payload: [0; 8] };
    assert_eq!(envelope.record_id, RecordId(4));
    assert!(matches!(SubscriptionType::Query(QueryId), SubscriptionType::Query(_)));
}

#[test]
fn reserved_permit_sends_once() {
    let (tx, mut rx) = mpsc::channel::<u32>(1);
    let permit = tx.try_reserve_owned().unwrap();
    let mut reserved = ReservedPermit::new(permit);
    reserved.send(17);
    assert_eq!(rx.try_recv().unwrap(), 17);
}

#[test]
fn used_permit_can_be_copied_empty() {
    let (tx, mut rx) = mpsc::channel::<u32>(1);
    let mut reserved = ReservedPermit::new(tx.try_reserve_owned().unwrap());
    reserved.send(3);
    let _copy = reserved.clone();
    assert_eq!(rx.try_recv().unwrap(), 3);
}

#[test]
fn network_event_goes_to_the_helper_of_the_role() {
    let roles = HashMap::from([
        (Role::H1.index(), HelperIdentity::new(7)),
        (Role::H2.index(), HelperIdentity::new(8)),
    ]);
    let chunks = (ChannelId::new(Role::H2, Step::root()), vec![5_u8]);
    let (destination, command) = network_event_for(QueryId, &roles, chunks).unwrap();
    assert_eq!(destination, HelperIdentity::new(8));
    match command {
        TransportCommand::NetworkEvent(data) => {
            assert_eq!(data.query_id, QueryId);
            assert_eq!(data.roles_to_helpers, roles);
            assert_eq!(data.message_chunks.0.role, Role::H2);
            assert_eq!(data.message_chunks.1, vec![5_u8]);
        }
        other => panic!("unexpected {other:?}"),
    }
    let chunks = (ChannelId::new(Role::H3, Step::root()), vec![]);
    assert!(network_event_for(QueryId, &roles, chunks).is_none());
}

#[test]
fn command_fields_can_be_read() {
    let (tx, _rx) = oneshot::channel();
    let data = PrepareQueryData::new(
        QueryId,
        ContextType::Malicious,
        "fp31".to_string(),
        helpers(),
        HashMap::from([(HelperIdentity::new(2), Role::H3)]),
        tx,
    );
    assert_eq!(data.query_id(), QueryId);
    assert_eq!(data.context_type(), ContextType::Malicious);
    assert_eq!(data.field_type(), "fp31");
    assert_eq!(data.helper_positions(), helpers());
    assert_eq!(data.helpers_to_roles().get(&HelperIdentity::new(2)), Some(&Role::H3));
    let (tx, _rx) = oneshot::channel();
    let create = CreateQueryData::new(ContextType::SemiHonest, "fp2".to_string(), helpers(), tx);
    assert_eq!(create.context_type(), ContextType::SemiHonest);
    assert_eq!(create.field_type(), "fp2");
    let (tx, _rx) = oneshot::channel();
    let start = StartMulData::new(QueryId, ByteArrStream::new(vec![vec![1]]), tx);
    assert_eq!(start.query_id(), QueryId);
}
