use facetime_ids_quic::bundle::{
    participant_id_alias_from_entry, participant_id_alias_from_text, FaceTimeParticipantMediaBundle,
    ParticipantAliasEntry,
};
use facetime_ids_quic::decimal::push_decimal;
use facetime_ids_quic::error::{FaceTimeIdsQuicError, NativeSignalError};
use facetime_ids_quic::identity::{
    face_time_ids_account_id, FaceTimeIdsQuicConfiguration, FaceTimeIdsQuicTlsConfiguration,
    Ipv6Address, SocketAddressV6,
};
use facetime_ids_quic::transport::{
    FTNativeSignalDirection, FaceTimeIdsQuicTransport, ReceiveAction, ReceiveEvent,
};
use plist::{Dictionary, Value};

fn binary_plist(value: &Value) -> Vec<u8> {
    let mut bytes = Vec::new();
    value.to_writer_binary(&mut bytes).unwrap();
    bytes
}

fn xml_plist(value: &Value) -> Vec<u8> {
    let mut bytes = Vec::new();
    value.to_writer_xml(&mut bytes).unwrap();
    bytes
}

fn alias_blob(alias: Value) -> Vec<u8> {
    let mut dictionary = Dictionary::new();
    dictionary.insert("participantIDAlias".into(), alias);
    binary_plist(&Value::Dictionary(dictionary))
}

fn configuration() -> FaceTimeIdsQuicConfiguration {
    FaceTimeIdsQuicConfiguration::assemble("call-guid".into(), 41, 73, vec![1, 2, 3, 4]).unwrap()
}

#[test]
fn decimal_text_of_numbers() {
    for (value, text) in [(0u64, "0"), (7, "7"), (10, "10"), (41, "41"), (1_000_000, "1000000")] {
        let mut out = String::from("n=");
        push_decimal(&mut out, value);
        assert_eq!(out, format!("n={text}"));
    }
    let mut out = String::new();
    push_decimal(&mut out, u64::MAX);
    assert_eq!(out, "18446744073709551615");
}

#[test]
fn account_id_of_small_participant() {
    assert_eq!(face_time_ids_account_id("", 0), "groupsession::ids:0:L");
    assert_eq!(face_time_ids_account_id("a:b", 105), "groupsession:a:b:ids:105:L");
}

#[test]
fn alias_text_is_read_in_base_ten() {
    assert_eq!(participant_id_alias_from_text("0"), Ok(0));
    assert_eq!(participant_id_alias_from_text("007"), Ok(7));
    assert_eq!(participant_id_alias_from_text("73"), Ok(73));
    assert_eq!(
        participant_id_alias_from_text("18446744073709551615"),
        Ok(u64::MAX)
    );
}

#[test]
fn alias_text_must_be_digits() {
    for text in ["", "+5", "-1", "12a", " 1", "1 ", "١٢"] {
        assert_eq!(
            participant_id_alias_from_text(text),
            Err(FaceTimeIdsQuicError::InvalidParticipantIdAlias),
            "{text:?}"
        );
    }
}

#[test]
fn alias_text_must_fit_in_u64() {
    assert_eq!(
        participant_id_alias_from_text("18446744073709551616"),
        Err(FaceTimeIdsQuicError::ParticipantIdAliasOutOfRange)
    );
    assert_eq!(
        participant_id_alias_from_text("99999999999999999999999"),
        Err(FaceTimeIdsQuicError::ParticipantIdAliasOutOfRange)
    );
}

#[test]
fn decimal_alias_round_trips() {
    for alias in [0u64, 9, 10, 73, u64::MAX] {
        let mut text = String::new();
        push_decimal(&mut text, alias);
        assert_eq!(participant_id_alias_from_text(&text), Ok(alias));
    }
}

#[test]
fn alias_entries_give_their_outcome() {
    assert_eq!(
        participant_id_alias_from_entry(&ParticipantAliasEntry::Unreadable),
        Err(FaceTimeIdsQuicError::MalformedParticipantData)
    );
    assert_eq!(
        participant_id_alias_from_entry(&ParticipantAliasEntry::Missing),
        Err(FaceTimeIdsQuicError::MissingParticipantIdAlias)
    );
    assert_eq!(
        participant_id_alias_from_entry(&ParticipantAliasEntry::NonText(Some(5))),
        Ok(5)
    );
    assert_eq!(
        participant_id_alias_from_entry(&ParticipantAliasEntry::NonText(None)),
        Err(FaceTimeIdsQuicError::InvalidParticipantIdAlias)
    );
    assert_eq!(
        participant_id_alias_from_entry(&ParticipantAliasEntry::Text("12".into())),
        Ok(12)
    );
}

#[test]
fn bundle_from_entry_keeps_raw_data() {
    let bundle =
        FaceTimeParticipantMediaBundle::from_alias_entry(&[9, 8, 7], &ParticipantAliasEntry::NonText(Some(3)))
            .unwrap();
    assert_eq!(bundle.participant_id_alias, 3);
    assert_eq!(bundle.raw_participant_data, vec![9, 8, 7]);
    assert!(matches!(
        FaceTimeParticipantMediaBundle::from_alias_entry(&[1], &ParticipantAliasEntry::Missing),
        Err(FaceTimeIdsQuicError::MissingParticipantIdAlias)
    ));
}

#[test]
fn decode_reads_integer_and_text_aliases() {
    let raw = alias_blob(Value::Integer(73u64.into()));
    assert_eq!(FaceTimeParticipantMediaBundle::decode(&raw).unwrap().participant_id_alias, 73);

    let raw = alias_blob(Value::Integer(0u64.into()));
    assert_eq!(FaceTimeParticipantMediaBundle::decode(&raw).unwrap().participant_id_alias, 0);

    let raw = alias_blob(Value::String("18446744073709551615".into()));
    let bundle = FaceTimeParticipantMediaBundle::decode(&raw).unwrap();
    assert_eq!(bundle.participant_id_alias, u64::MAX);
    assert_eq!(bundle.raw_participant_data, raw);

    let mut dictionary = Dictionary::new();
    dictionary.insert("participantIDAlias".into(), Value::String("41".into()));
    let raw = xml_plist(&Value::Dictionary(dictionary));
    assert_eq!(FaceTimeParticipantMediaBundle::decode(&raw).unwrap().participant_id_alias, 41);
}

#[test]
fn decode_rejects_other_alias_kinds() {
    for alias in [
        Value::Boolean(true),
        Value::Data(vec![1]),
        Value::Array(vec![]),
        Value::String(String::new()),
        Value::String("4x".into()),
        Value::Integer(i64::MIN.into()),
    ] {
        let raw = alias_blob(alias);
        assert!(matches!(
            FaceTimeParticipantMediaBundle::decode(&raw),
            Err(FaceTimeIdsQuicError::InvalidParticipantIdAlias)
        ));
    }
}

#[test]
fn decode_rejects_a_top_level_that_is_not_a_dictionary() {
    let raw = binary_plist(&Value::Array(vec![Value::Integer(1u64.into())]));
    assert!(matches!(
        FaceTimeParticipantMediaBundle::decode(&raw),
        Err(FaceTimeIdsQuicError::MalformedParticipantData)
    ));
    assert!(matches!(
        FaceTimeParticipantMediaBundle::decode(&[]),
        Err(FaceTimeIdsQuicError::MalformedParticipantData)
    ));
}

#[test]
fn decode_looks_only_at_the_alias_key() {
    let mut dictionary = Dictionary::new();
    dictionary.insert("participantIdAlias".into(), Value::Integer(5u64.into()));
    let raw = binary_plist(&Value::Dictionary(dictionary));
    assert!(matches!(
        FaceTimeParticipantMediaBundle::decode(&raw),
        Err(FaceTimeIdsQuicError::MissingParticipantIdAlias)
    ));
}

#[test]
fn bundle_text_hides_raw_data() {
    let bundle = FaceTimeParticipantMediaBundle::decode(&alias_blob(Value::Integer(73u64.into())))
        .unwrap();
    let text = bundle.debug_text();
    assert_eq!(
        text,
        format!(
            "FaceTimeParticipantMediaBundle {{ participant_id_alias: 73, raw_participant_data_length: {} }}",
            bundle.raw_participant_data.len()
        )
    );
}

#[test]
fn identity_text_hides_salt() {
    let configuration = configuration();
    assert_eq!(
        configuration.identity.debug_text(),
        "FaceTimeIdsQuicIdentity { session_id: \"call-guid\", participant_id: 41, participant_id_alias: 73, salt_length: 4, account_id: \"groupsession:call-guid:ids:41:L\" }"
    );
}

#[test]
fn identity_text_escapes_like_debug() {
    let mut configuration = configuration();
    configuration.identity.session_id = "a\"b\n".into();
    let text = configuration.identity.debug_text();
    assert!(text.starts_with("FaceTimeIdsQuicIdentity { session_id: \"a\\\"b\\n\", "));
}

#[test]
fn assemble_rejects_empty_inputs() {
    assert!(matches!(
        FaceTimeIdsQuicConfiguration::assemble(String::new(), 1, 2, vec![1]),
        Err(FaceTimeIdsQuicError::EmptySessionId)
    ));
    assert!(matches!(
        FaceTimeIdsQuicConfiguration::assemble(String::new(), 1, 2, vec![]),
        Err(FaceTimeIdsQuicError::EmptySessionId)
    ));
    assert!(matches!(
        FaceTimeIdsQuicConfiguration::assemble("s".into(), 1, 2, vec![]),
        Err(FaceTimeIdsQuicError::EmptySessionSalt)
    ));
    assert!(matches!(
        FaceTimeIdsQuicConfiguration::assemble_for_unicast_connector(String::new(), 1, 2),
        Err(FaceTimeIdsQuicError::EmptySessionId)
    ));
}

#[test]
fn assembled_local_address_is_unspecified() {
    let configuration = configuration();
    assert_eq!(
        configuration.local_address,
        SocketAddressV6::new(Ipv6Address::from_bits(0), 0, 0, 0)
    );
    assert_eq!(configuration.local_address.ip().to_bits(), 0);
    assert_eq!(configuration.local_address.flowinfo(), 0);
    assert_eq!(configuration.local_address.scope_id(), 0);
    assert_eq!(configuration.tls.pre_shared_key_identity(), None);
    assert_eq!(FaceTimeIdsQuicTlsConfiguration::no_psk().pre_shared_key_identity(), None);
}

#[test]
fn error_messages() {
    assert_eq!(
        FaceTimeIdsQuicError::MalformedParticipantData.message(),
        "command-207 participant data is not a property-list dictionary"
    );
    assert_eq!(
        FaceTimeIdsQuicError::MissingParticipantIdAlias.message(),
        "command-207 participant data has no participantIDAlias"
    );
    assert_eq!(
        FaceTimeIdsQuicError::InvalidParticipantIdAlias.message(),
        "command-207 participantIDAlias is not a non-negative integer"
    );
    assert_eq!(
        FaceTimeIdsQuicError::ParticipantIdAliasOutOfRange.message(),
        "command-207 participantIDAlias is outside the u64 range"
    );
    assert_eq!(
        FaceTimeIdsQuicError::EmptySessionId.message(),
        "FaceTime IDS QUIC session ID is empty"
    );
    assert_eq!(
        FaceTimeIdsQuicError::EmptySessionSalt.message(),
        "FaceTime IDS QUIC session salt is empty"
    );
    let inner = NativeSignalError { message: "bad SKE packet".into() };
    let error: FaceTimeIdsQuicError = inner.into();
    assert_eq!(error.message(), "bad SKE packet");
    assert!(matches!(error, FaceTimeIdsQuicError::NativeSignal(_)));
}

#[test]
fn transport_keeps_its_configuration() {
    let transport = FaceTimeIdsQuicTransport::new(configuration());
    assert_eq!(transport.configuration().identity.session_id, "call-guid");
    assert_eq!(transport.configuration().identity.participant_id, 41);
}

fn run_receive_loop(
    transport: &FaceTimeIdsQuicTransport,
    mut inbound: Vec<Result<Option<Vec<u8>>, FaceTimeIdsQuicError>>,
    mut accept: impl FnMut(&[u8]) -> Result<(), NativeSignalError>,
    handed: &mut Vec<(String, Option<u64>, Option<u64>, FTNativeSignalDirection, Vec<u8>)>,
) -> Result<usize, FaceTimeIdsQuicError> {
    inbound.reverse();
    let mut received = 0usize;
    let mut action = ReceiveAction::ReceiveNext;
    loop {
        let event = match action {
            ReceiveAction::ReceiveNext => match inbound.pop().unwrap_or(Ok(None)) {
                Ok(datagram) => ReceiveEvent::Received(datagram),
                Err(error) => ReceiveEvent::ReceiveFailed(error),
            },
            ReceiveAction::Deliver(delivery) => {
                let outcome = accept(&delivery.datagram);
                handed.push((
                    delivery.guid,
                    delivery.ns_since_epoch,
                    delivery.participant_id,
                    delivery.direction,
                    delivery.datagram,
                ));
                match outcome {
                    Ok(()) => ReceiveEvent::Delivered,
                    Err(error) => ReceiveEvent::DeliveryFailed(error),
                }
            }
            ReceiveAction::Finish(result) => return result,
        };
        let (next_received, next_action) = transport.receive_step(received, Some(900), event);
        received = next_received;
        action = next_action;
    }
}

#[test]
fn inbound_datagrams_reach_receiver_in_receive_order() {
    let transport = FaceTimeIdsQuicTransport::new(configuration());
    let mut handed = Vec::new();
    let result = run_receive_loop(
        &transport,
        vec![Ok(Some(vec![10, 0, 0xff])), Ok(Some(vec![11, 1, 0x80])), Ok(None)],
        |_| Ok(()),
        &mut handed,
    );
    assert_eq!(result, Ok(2));
    assert_eq!(handed.len(), 2);
    for (datagram, handed) in [vec![10, 0, 0xff], vec![11, 1, 0x80]].iter().zip(&handed) {
        assert_eq!(handed.0, "call-guid");
        assert_eq!(handed.1, Some(900));
        assert_eq!(handed.2, Some(41));
        assert_eq!(handed.3, FTNativeSignalDirection::Inbound);
        assert_eq!(&handed.4, datagram);
    }
}

#[test]
fn receive_loop_stops_at_the_first_failure() {
    let transport = FaceTimeIdsQuicTransport::new(configuration());
    let mut handed = Vec::new();
    let result = run_receive_loop(
        &transport,
        vec![Ok(Some(vec![1])), Ok(Some(vec![2])), Ok(Some(vec![3]))],
        |datagram| {
            if datagram == [2] {
                Err(NativeSignalError { message: "refused".into() })
            } else {
                Ok(())
            }
        },
        &mut handed,
    );
    assert_eq!(
        result,
        Err(FaceTimeIdsQuicError::NativeSignal(NativeSignalError { message: "refused".into() }))
    );
    assert_eq!(handed.len(), 2);

    let mut handed = Vec::new();
    let result = run_receive_loop(
        &transport,
        vec![Ok(Some(vec![1])), Err(FaceTimeIdsQuicError::MalformedParticipantData)],
        |_| Ok(()),
        &mut handed,
    );
    assert_eq!(result, Err(FaceTimeIdsQuicError::MalformedParticipantData));
    assert_eq!(handed.len(), 1);
}

#[test]
fn receive_loop_on_a_closed_connection_counts_nothing() {
    let transport = FaceTimeIdsQuicTransport::new(configuration());
    let mut handed = Vec::new();
    assert_eq!(run_receive_loop(&transport, vec![], |_| Ok(()), &mut handed), Ok(0));
    assert!(handed.is_empty());
}

#[test]
fn receive_count_saturates() {
    let transport = FaceTimeIdsQuicTransport::new(configuration());
    let (count, action) = transport.receive_step(usize::MAX, None, ReceiveEvent::Delivered);
    assert_eq!(count, usize::MAX);
    assert!(matches!(action, ReceiveAction::ReceiveNext));
    let (count, action) = transport.receive_step(usize::MAX, None, ReceiveEvent::Received(None));
    assert_eq!(count, usize::MAX);
    assert!(matches!(action, ReceiveAction::Finish(Ok(usize::MAX))));
}

#[test]
fn configuration_text_composes_its_parts() {
    let configuration = configuration();
    assert_eq!(
        configuration.debug_text("[::]:0"),
        "FaceTimeIdsQuicConfiguration { identity: FaceTimeIdsQuicIdentity { session_id: \"call-guid\", participant_id: 41, participant_id_alias: 73, salt_length: 4, account_id: \"groupsession:call-guid:ids:41:L\" }, local_address: [::]:0, datagrams_enabled: true, tls: FaceTimeIdsQuicTlsConfiguration { pre_shared_key_identity: None } }"
    );
    assert_eq!(configuration.tls.debug_text(), format!("{:?}", configuration.tls));
}

#[test]
fn transport_text_wraps_its_configuration() {
    let transport = FaceTimeIdsQuicTransport::new(configuration());
    let text = transport.debug_text("[::]:0");
    assert_eq!(
        text,
        format!(
            "FaceTimeIdsQuicTransport {{ configuration: {} }}",
            transport.configuration().debug_text("[::]:0")
        )
    );
    assert!(text.starts_with("FaceTimeIdsQuicTransport { configuration: FaceTimeIdsQuicConfiguration { identity: "));
}

#[test]
fn account_ids_of_different_inputs_differ() {
    assert_ne!(face_time_ids_account_id("a:ids:1", 2), face_time_ids_account_id("a", 12));
    assert_ne!(face_time_ids_account_id("a", 1), face_time_ids_account_id("a", 10));
}
