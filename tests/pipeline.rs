use ark_indexer::felt::Felt;
use ark_indexer::flow::{FlowAction, FlowEvent, Phase, ProcessError, TransferFlow};
use ark_indexer::metadata::JsonValue;
use ark_indexer::transfer::{decode_transfer, TransferEvent};

fn flow_for(from: Felt) -> TransferFlow {
    let ev = TransferEvent {
        block_number: 100,
        from_address: Felt::new(0, 0xc0),
        transaction_hash: Felt::new(0, 0xdead),
        data: vec![from, Felt::new(0, 0xabc), Felt::new(0, 1), Felt::zero()],
    };
    TransferFlow::new(decode_transfer(&ev).unwrap(), "ERC721".to_string())
}

fn expect_read(action: FlowAction, expected: &str, n_args: usize) {
    match action {
        FlowAction::ReadProperty { method, calldata } => {
            assert_eq!(method, expected);
            assert_eq!(calldata.len(), n_args);
        }
        other => panic!("unexpected action {:?}", other),
    }
}

/// Runs the flow up to the point where the transfer has been recorded.
fn run_common(flow: &mut TransferFlow, legacy: &str, current: Option<&str>) -> FlowAction {
    match flow.step(FlowEvent::Start) {
        FlowAction::FetchBlockTimestamp { block_number } => assert_eq!(block_number, 100),
        other => panic!("unexpected action {:?}", other),
    }
    match flow.step(FlowEvent::Timestamp(Some(1000))) {
        FlowAction::ReadProperty { method, calldata } => {
            assert_eq!(method, "tokenURI");
            assert_eq!(calldata, vec!["1".to_string(), "0".to_string()]);
        }
        other => panic!("unexpected action {:?}", other),
    }
    let mut action = flow.step(FlowEvent::Property(legacy.to_string()));
    if let Some(reply) = current {
        expect_read(action, "token_uri", 2);
        action = flow.step(FlowEvent::Property(reply.to_string()));
    }
    match action {
        FlowAction::CallOwnerOf { calldata } => assert_eq!(calldata.len(), 2),
        other => panic!("unexpected action {:?}", other),
    }
    let owner = vec!["\"0xabc\"".to_string()];
    expect_read(flow.step(FlowEvent::Owner(Some(owner))), "symbol", 0);
    expect_read(flow.step(FlowEvent::Property("FOO".to_string())), "name", 0);
    match flow.step(FlowEvent::Property("Foo".to_string())) {
        FlowAction::UpdateCollection { contract_type, name, symbol } => {
            assert_eq!(contract_type, "ERC721");
            assert_eq!(name, "Foo");
            assert_eq!(symbol, "FOO");
        }
        other => panic!("unexpected action {:?}", other),
    }
    match flow.step(FlowEvent::Written) {
        FlowAction::RecordTransfer { padded_token_id, timestamp } => {
            assert_eq!(padded_token_id, format!("{}1", "0".repeat(63)));
            assert_eq!(timestamp, 1000);
        }
        other => panic!("unexpected action {:?}", other),
    }
    flow.step(FlowEvent::Written)
}

#[test]
fn mint_with_metadata_creates_token_and_activity() {
    let mut flow = flow_for(Felt::zero());
    let action = run_common(&mut flow, "ipfs://Qm/1.json", None);
    assert!(matches!(action, FlowAction::GetCollection));
    match flow.step(FlowEvent::Collection(Some(None))) {
        FlowAction::WriteLatestMint { latest_mint } => assert_eq!(latest_mint, 1000),
        other => panic!("unexpected action {:?}", other),
    }
    match flow.step(FlowEvent::Written) {
        FlowAction::SanitizeUri { uri } => assert_eq!(uri, "ipfs://Qm/1.json"),
        other => panic!("unexpected action {:?}", other),
    }
    let sanitized = FlowEvent::Sanitized {
        metadata_uri: "https://gateway/Qm/1.json".to_string(),
        original_uri: "ipfs://Qm/1.json".to_string(),
    };
    match flow.step(sanitized) {
        FlowAction::FetchMetadata { uri } => assert_eq!(uri, "https://gateway/Qm/1.json"),
        other => panic!("unexpected action {:?}", other),
    }
    let doc = JsonValue::Object(vec![
        ("name".to_string(), JsonValue::Text("Foo".to_string())),
        ("image".to_string(), JsonValue::Text("ipfs://img".to_string())),
    ]);
    let raw = "{\"name\":\"Foo\",\"image\":\"ipfs://img\"}".to_string();
    match flow.step(FlowEvent::Metadata(Some((raw.clone(), doc)))) {
        FlowAction::WriteToken(rec) => {
            assert_eq!(rec.owner, "0xabc");
            assert_eq!(rec.collection_address, format!("0x{}c0", "0".repeat(62)));
            assert_eq!(rec.padded_token_id, format!("{}1", "0".repeat(63)));
            assert_eq!(rec.token_uri, "ipfs://Qm/1.json");
            assert_eq!(rec.block_number_minted, 100);
            assert_eq!(rec.mint_transaction_hash, format!("0x{}dead", "0".repeat(60)));
            assert_eq!(rec.raw, Some(raw));
            let m = rec.normalized.unwrap();
            assert_eq!(m.name, "Foo");
            assert_eq!(m.image, "ipfs://img");
            assert_eq!(m.description, "");
            assert_eq!(m.external_url, "ipfs://Qm/1.json");
            assert!(m.attributes.is_empty());
        }
        other => panic!("unexpected action {:?}", other),
    }
    match flow.step(FlowEvent::Written) {
        FlowAction::AppendActivity(a) => {
            assert_eq!(a.event_type, "mint");
            assert_eq!(a.timestamp, 1000);
            assert_eq!(a.to_address, format!("0x{}abc", "0".repeat(61)));
            assert_eq!(a.address, format!("0x{}c0", "0".repeat(62)));
            assert_eq!(a.block_number, 100);
            assert_eq!(a.from_address, format!("0x{}", "0".repeat(64)));
            assert_eq!(a.padded_token_id, format!("{}1", "0".repeat(63)));
            assert_eq!(a.token_uri, "ipfs://Qm/1.json");
            assert_eq!(a.transaction_hash, format!("0x{}dead", "0".repeat(60)));
            assert_eq!(a.token_type, "ERC721");
        }
        other => panic!("unexpected action {:?}", other),
    }
    assert!(matches!(flow.step(FlowEvent::Written), FlowAction::Done(Ok(()))));
    assert_eq!(flow.phase, Phase::Finished);
}

#[test]
fn unresolved_uri_still_creates_mint_record_without_fetch() {
    let mut flow = flow_for(Felt::zero());
    let action = run_common(&mut flow, "undefined", Some("undefined"));
    assert!(matches!(action, FlowAction::GetCollection));
    let stored = Some(Some("abc".to_string()));
    match flow.step(FlowEvent::Collection(stored)) {
        FlowAction::WriteToken(rec) => {
            assert_eq!(rec.token_uri, "undefined");
            assert_eq!(rec.owner, "0xabc");
            assert_eq!(rec.block_number_minted, 100);
            assert!(rec.normalized.is_none());
            assert!(rec.raw.is_none());
        }
        other => panic!("unexpected action {:?}", other),
    }
    assert!(matches!(flow.step(FlowEvent::Written), FlowAction::AppendActivity(_)));
    assert!(matches!(flow.step(FlowEvent::Written), FlowAction::Done(Ok(()))));
}

#[test]
fn non_mint_ends_after_recording_transfer() {
    let mut flow = flow_for(Felt::new(0, 0x55));
    let action = run_common(&mut flow, "", Some("ipfs://x"));
    assert!(matches!(action, FlowAction::Done(Ok(()))));
}

#[test]
fn missing_block_aborts_the_event() {
    let mut flow = flow_for(Felt::zero());
    assert!(matches!(flow.step(FlowEvent::Start), FlowAction::FetchBlockTimestamp { .. }));
    let action = flow.step(FlowEvent::Timestamp(None));
    assert!(matches!(action, FlowAction::Done(Err(ProcessError::BlockUnavailable))));
    let action = flow.step(FlowEvent::Written);
    assert!(matches!(action, FlowAction::Done(Err(ProcessError::UnexpectedEvent))));
}
