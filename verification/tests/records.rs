use authority_gossip::encoding::{from_hex_to_base58, match_base58_with_bytea, EncodingError};
use authority_gossip::genesis::Genesis;
use authority_gossip::node::{FullNodeReadApi, SuiFullNode, WriteApi};
use authority_gossip::response::{
    fast_path_store, Address, CheckpointTransactionResponse, FastPathTransactionResponse,
    InputObject,
    InputObjectKind, MoveCall, Owner, OwnedObjectRef, Recipient, ResponseError, SuiCommand,
    SuiTransaction, SuiTransactionData, SuiTransactionEffects, SuiTransactionEvents,
    SuiTransactionKind, SuiTransactionResponse, SuiTransactionResponseOptions,
    SuiTransactionResponseWithOptions, TemporaryTransactionResponseStore,
};

fn effects_with(owners: Vec<Owner>) -> SuiTransactionEffects {
    SuiTransactionEffects {
        created: owners.into_iter().map(|owner| OwnedObjectRef { owner }).collect(),
        mutated: Vec::new(),
        unwrapped: Vec::new(),
    }
}

fn full_response() -> SuiTransactionResponse {
    SuiTransactionResponse {
        digest: 42,
        transaction: Some(SuiTransaction {
            data: SuiTransactionData {
                sender: "alice".to_string(),
                kind: SuiTransactionKind::Other,
            },
        }),
        raw_transaction: vec![1, 2, 3],
        effects: Some(effects_with(vec![Owner::AddressOwner { address: "bob".to_string() }])),
        events: Some(SuiTransactionEvents { handle: 9 }),
        object_changes: Some(vec![100, 101]),
        balance_changes: Some(vec![200]),
        timestamp_ms: Some(1_700_000),
        confirmed_local_execution: Some(true),
        checkpoint: Some(77),
        errors: Vec::new(),
    }
}

#[test]
fn fast_path_accepts_a_full_response() {
    let f = FastPathTransactionResponse::try_from(full_response()).expect("complete response");
    assert_eq!(f.digest, 42);
    assert_eq!(f.raw_transaction, vec![1, 2, 3]);
    assert_eq!(f.object_changes, vec![100, 101]);
    assert_eq!(f.balance_changes, vec![200]);
    assert_eq!(f.confirmed_local_execution, Some(true));
}

#[test]
fn fast_path_reports_the_first_missing_part() {
    let mut r = full_response();
    r.transaction = None;
    assert_eq!(
        FastPathTransactionResponse::try_from(r).unwrap_err(),
        ResponseError::MissingTransaction
    );

    let mut r = full_response();
    r.effects = None;
    assert_eq!(
        FastPathTransactionResponse::try_from(r).unwrap_err(),
        ResponseError::MissingEffects
    );

    let mut r = full_response();
    r.events = None;
    assert_eq!(
        FastPathTransactionResponse::try_from(r).unwrap_err(),
        ResponseError::MissingEvents
    );

    let mut r = full_response();
    r.object_changes = None;
    assert_eq!(
        FastPathTransactionResponse::try_from(r).unwrap_err(),
        ResponseError::MissingObjectChanges
    );

    let mut r = full_response();
    r.balance_changes = None;
    assert_eq!(
        FastPathTransactionResponse::try_from(r).unwrap_err(),
        ResponseError::MissingBalanceChanges
    );

    let mut r = full_response();
    r.errors = vec!["boom".to_string()];
    assert_eq!(
        FastPathTransactionResponse::try_from(r).unwrap_err(),
        ResponseError::CarriesErrors
    );
}

#[test]
fn checkpoint_demands_checkpoint_parts() {
    let c = CheckpointTransactionResponse::try_from(full_response()).expect("complete response");
    assert_eq!(c.timestamp_ms, 1_700_000);
    assert_eq!(c.checkpoint, 77);

    let mut r = full_response();
    r.timestamp_ms = None;
    assert_eq!(
        CheckpointTransactionResponse::try_from(r).unwrap_err(),
        ResponseError::MissingTimestamp
    );

    let mut r = full_response();
    r.checkpoint = None;
    assert_eq!(
        CheckpointTransactionResponse::try_from(r).unwrap_err(),
        ResponseError::MissingCheckpoint
    );

    let mut r = full_response();
    r.raw_transaction = Vec::new();
    assert_eq!(
        CheckpointTransactionResponse::try_from(r).unwrap_err(),
        ResponseError::EmptyRawTransaction
    );

    // a checkpoint record does not need the changes
    let mut r = full_response();
    r.object_changes = None;
    r.balance_changes = None;
    assert!(CheckpointTransactionResponse::try_from(r).is_ok());
}

fn checkpointed() -> CheckpointTransactionResponse {
    CheckpointTransactionResponse::try_from(full_response()).unwrap()
}

#[test]
fn input_object_records_carry_the_transaction_stamp() {
    let c = checkpointed();
    let kinds = vec![
        InputObjectKind { object_id: "0xa".to_string(), object_version: Some(3) },
        InputObjectKind { object_id: "0xb".to_string(), object_version: None },
    ];
    let records = c.get_input_objects(5, &kinds);
    assert_eq!(
        records,
        vec![
            InputObject {
                transaction_digest: 42,
                checkpoint_sequence_number: 77,
                epoch: 5,
                object_id: "0xa".to_string(),
                object_version: Some(3),
            },
            InputObject {
                transaction_digest: 42,
                checkpoint_sequence_number: 77,
                epoch: 5,
                object_id: "0xb".to_string(),
                object_version: None,
            },
        ]
    );
}

#[test]
fn move_call_records_keep_only_move_calls() {
    let mut c = checkpointed();
    c.transaction.data.kind = SuiTransactionKind::ProgrammableTransaction {
        commands: vec![
            SuiCommand::Other,
            SuiCommand::MoveCall {
                package: "0xdead".to_string(),
                module: "market".to_string(),
                function: "list".to_string(),
            },
            SuiCommand::Other,
        ],
    };
    let calls = c.get_move_calls(5, 77);
    assert_eq!(
        calls,
        vec![MoveCall {
            transaction_digest: 42,
            checkpoint_sequence_number: 77,
            epoch: 5,
            sender: "alice".to_string(),
            move_package: "0xdead".to_string(),
            move_module: "market".to_string(),
            move_function: "list".to_string(),
        }]
    );

    let mut c = checkpointed();
    c.transaction.data.kind = SuiTransactionKind::Other;
    assert!(c.get_move_calls(5, 77).is_empty());
}

#[test]
fn recipient_records_keep_only_address_owners() {
    let mut c = checkpointed();
    c.effects = SuiTransactionEffects {
        created: vec![
            OwnedObjectRef { owner: Owner::AddressOwner { address: "bob".to_string() } },
            OwnedObjectRef { owner: Owner::Other },
        ],
        mutated: vec![OwnedObjectRef { owner: Owner::AddressOwner { address: "carol".to_string() } }],
        unwrapped: vec![OwnedObjectRef { owner: Owner::Other }],
    };
    let recipients = c.get_recipients(5, 77);
    assert_eq!(
        recipients,
        vec![
            Recipient {
                transaction_digest: 42,
                checkpoint_sequence_number: 77,
                epoch: 5,
                sender: "alice".to_string(),
                recipient: "bob".to_string(),
            },
            Recipient {
                transaction_digest: 42,
                checkpoint_sequence_number: 77,
                epoch: 5,
                sender: "alice".to_string(),
                recipient: "carol".to_string(),
            },
        ]
    );
}

#[test]
fn address_records_list_recipients_then_sender() {
    let c = checkpointed();
    let addresses = c.get_addresses(5, 77);
    assert_eq!(
        addresses,
        vec![
            Address {
                account_address: "bob".to_string(),
                first_appearance_tx: 42,
                first_appearance_time: 1_700_000,
            },
            Address {
                account_address: "alice".to_string(),
                first_appearance_tx: 42,
                first_appearance_time: 1_700_000,
            },
        ]
    );
}

#[test]
fn store_from_fast_path_has_no_checkpoint_data() {
    let f = FastPathTransactionResponse::try_from(full_response()).unwrap();
    let store = TemporaryTransactionResponseStore::from(f);
    assert_eq!(store.digest, 42);
    assert_eq!(store.object_changes, Some(vec![100, 101]));
    assert_eq!(store.balance_changes, Some(vec![200]));
    assert_eq!(store.timestamp_ms, None);
    assert_eq!(store.checkpoint, None);
}

#[test]
fn store_from_checkpoint_has_no_changes() {
    let c = checkpointed();
    let store = TemporaryTransactionResponseStore::from(c);
    assert_eq!(store.digest, 42);
    assert_eq!(store.object_changes, None);
    assert_eq!(store.balance_changes, None);
    assert_eq!(store.timestamp_ms, Some(1_700_000));
    assert_eq!(store.checkpoint, Some(77));
}

#[test]
fn options_mask_the_unrequested_parts() {
    let masked = SuiTransactionResponse::from(SuiTransactionResponseWithOptions {
        response: full_response(),
        options: SuiTransactionResponseOptions {
            show_input: false,
            show_raw_input: false,
            show_effects: true,
            show_events: false,
            show_object_changes: true,
            show_balance_changes: false,
        },
    });
    assert!(masked.transaction.is_none());
    assert!(masked.raw_transaction.is_empty());
    assert!(masked.effects.is_some());
    assert!(masked.events.is_none());
    assert_eq!(masked.object_changes, Some(vec![100, 101]));
    assert!(masked.balance_changes.is_none());
    assert_eq!(masked.timestamp_ms, Some(1_700_000));
    assert_eq!(masked.checkpoint, Some(77));
    assert!(masked.errors.is_empty());
}

#[test]
fn hex_to_base58_round_trips_known_values() {
    assert_eq!(from_hex_to_base58("").unwrap(), "");
    assert_eq!(from_hex_to_base58("00ff").unwrap(), "15Q");
    // either case decodes alike
    assert_eq!(from_hex_to_base58("00FF").unwrap(), "15Q");
}

#[test]
fn hex_to_base58_rejects_bad_hex() {
    assert_eq!(from_hex_to_base58("zz"), Err(EncodingError::InvalidHex));
    assert_eq!(from_hex_to_base58("abc"), Err(EncodingError::InvalidHex));
}

#[test]
fn base58_lookup_query_spells_the_bytes_in_hex() {
    let q = match_base58_with_bytea("15Q").unwrap();
    assert_eq!(
        q.as_str(),
        "SELECT * FROM your_table WHERE your_bytea_column = '\\x00ff'"
    );
    // '0' is not in the base58 alphabet
    assert_eq!(
        match_base58_with_bytea("0"),
        Err(EncodingError::InvalidBase58)
    );
}

#[test]
fn node_handles_keep_their_client() {
    let node = SuiFullNode::new(42u64);
    assert_eq!(node.client, 42);
    let api = FullNodeReadApi::new("endpoint".to_string());
    assert_eq!(api.client, "endpoint");
    let write = WriteApi::new(7u64, "fullnode".to_string());
    assert_eq!(write.state, 7);
    assert_eq!(write.fullnode, "fullnode");
}

#[test]
fn fast_path_store_lays_out_a_complete_response() {
    let store = fast_path_store(full_response()).expect("complete response");
    assert_eq!(store.digest, 42);
    assert_eq!(store.object_changes, Some(vec![100, 101]));
    assert_eq!(store.timestamp_ms, None);
    assert_eq!(store.checkpoint, None);

    let mut r = full_response();
    r.events = None;
    assert_eq!(fast_path_store(r).unwrap_err(), ResponseError::MissingEvents);
}

#[test]
fn genesis_hands_out_copies() {
    let g = Genesis::new(vec![1, 2], vec![vec![10], vec![20, 21]]);
    assert_eq!(g.clone_genesis_packages(), vec![1, 2]);
    assert_eq!(g.clone_genesis_compiled_modules(), vec![vec![10], vec![20, 21]]);
}
