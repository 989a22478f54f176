use borker_rs::parser::is_coinbase_input;
use borker_rs::{
    parse_tx, BorkTxData, BorkType, Network, NewUtxo, RawTransaction, TxInput, TxOutput, UtxoId,
};

const TIME: i64 = 1_560_000_000;

const KEY_HASH: [u8; 20] = [
    0x62, 0xe9, 0x07, 0xb1, 0x5c, 0xbf, 0x27, 0xd5, 0x42, 0x53, 0x99, 0xeb, 0xf6, 0xf0, 0xfb, 0x50,
    0xeb, 0xb8, 0x8f, 0x18,
];

fn id(fill: u8) -> [u8; 32] {
    [fill; 32]
}

fn key_output(value: u64) -> TxOutput {
    let mut script = vec![0x76, 0xa9, 0x14];
    script.extend_from_slice(&KEY_HASH);
    script.extend_from_slice(&[0x88, 0xac]);
    TxOutput { value, script }
}

fn script_output(value: u64) -> TxOutput {
    let mut script = vec![0xa9, 0x14];
    script.extend_from_slice(&KEY_HASH);
    script.push(0x87);
    TxOutput { value, script }
}

fn data_output(data: &[u8]) -> TxOutput {
    let mut script = vec![0x6a, data.len() as u8];
    script.extend_from_slice(data);
    TxOutput { value: 0, script }
}

fn coinbase_input() -> TxInput {
    TxInput { previous_txid: [0u8; 32], previous_index: u32::MAX }
}

fn hello() -> BorkTxData {
    BorkTxData {
        bork_type: BorkType::Bork,
        content: Some(String::from("hello")),
        nonce: Some(7),
        reference_id: None,
        index: None,
        timestamp: TIME,
    }
}

const HELLO_CHUNK: [u8; 9] = [0x0D, 0x06, 0x00, 0x07, b'h', b'e', b'l', b'l', b'o'];

#[test]
fn coinbase_input_is_the_null_outpoint() {
    assert!(is_coinbase_input(&coinbase_input()));
    assert!(!is_coinbase_input(&TxInput { previous_txid: [0u8; 32], previous_index: 0 }));
    assert!(!is_coinbase_input(&TxInput {
        previous_txid: [0u8; 32],
        previous_index: u32::MAX - 1
    }));
    assert!(!is_coinbase_input(&TxInput { previous_txid: id(1), previous_index: u32::MAX }));
    let mut last_byte = [0u8; 32];
    last_byte[31] = 1;
    assert!(!is_coinbase_input(&TxInput { previous_txid: last_byte, previous_index: u32::MAX }));
    let mut first_byte = [0u8; 32];
    first_byte[0] = 0x80;
    assert!(!is_coinbase_input(&TxInput { previous_txid: first_byte, previous_index: u32::MAX }));
}

#[test]
fn empty_transaction_changes_nothing() {
    let tx = RawTransaction { txid: id(9), inputs: vec![], outputs: vec![] };
    assert_eq!(parse_tx(&tx, TIME, Network::Dogecoin), (None, vec![], vec![]));
}

#[test]
fn coinbase_spends_nothing() {
    let tx = RawTransaction {
        txid: id(9),
        inputs: vec![coinbase_input()],
        outputs: vec![key_output(50)],
    };
    let (bork, spent, created) = parse_tx(&tx, TIME, Network::Bitcoin);
    assert_eq!(bork, None);
    assert_eq!(spent, vec![]);
    assert_eq!(
        created,
        vec![NewUtxo {
            transaction_id: id(9),
            output_index: 0,
            address: String::from("1A1zP1eP5QGefi2DMPTfTL5SLmv7DivfNa"),
            value: 50,
        }]
    );
}

#[test]
fn every_other_input_is_spent_in_order() {
    let tx = RawTransaction {
        txid: id(9),
        inputs: vec![
            TxInput { previous_txid: id(1), previous_index: 3 },
            coinbase_input(),
            TxInput { previous_txid: id(2), previous_index: 0 },
            TxInput { previous_txid: id(1), previous_index: 3 },
            TxInput { previous_txid: id(0), previous_index: u32::MAX - 1 },
        ],
        outputs: vec![],
    };
    let (bork, spent, created) = parse_tx(&tx, TIME, Network::Litecoin);
    assert_eq!(bork, None);
    assert_eq!(
        spent,
        vec![
            UtxoId { transaction_id: id(1), output_index: 3 },
            UtxoId { transaction_id: id(2), output_index: 0 },
            UtxoId { transaction_id: id(1), output_index: 3 },
            UtxoId { transaction_id: id(0), output_index: 4_294_967_294 },
        ]
    );
    assert_eq!(created, vec![]);
}

#[test]
fn payable_outputs_are_created_with_their_index() {
    let tx = RawTransaction {
        txid: id(0x33),
        inputs: vec![TxInput { previous_txid: id(1), previous_index: 0 }],
        outputs: vec![
            TxOutput { value: 1, script: vec![0x51] },
            key_output(10),
            data_output(&HELLO_CHUNK),
            script_output(20),
            TxOutput { value: 2, script: vec![] },
            key_output(30),
        ],
    };
    let (bork, spent, created) = parse_tx(&tx, TIME, Network::Dogecoin);
    assert_eq!(bork, Some(hello()));
    assert_eq!(spent, vec![UtxoId { transaction_id: id(1), output_index: 0 }]);
    assert_eq!(
        created,
        vec![
            NewUtxo {
                transaction_id: id(0x33),
                output_index: 1,
                address: String::from("DEA5vGb2NpAwCiCp5yTE16F3DueQUVivQp"),
                value: 10,
            },
            NewUtxo {
                transaction_id: id(0x33),
                output_index: 3,
                address: String::from("A1TG3QCihNTvfF67tcng864kBsarnaPyFm"),
                value: 20,
            },
            NewUtxo {
                transaction_id: id(0x33),
                output_index: 5,
                address: String::from("DEA5vGb2NpAwCiCp5yTE16F3DueQUVivQp"),
                value: 30,
            },
        ]
    );
}

#[test]
fn addresses_follow_the_chain() {
    let tx = RawTransaction { txid: id(1), inputs: vec![], outputs: vec![key_output(1)] };
    let (_, _, on_bitcoin) = parse_tx(&tx, TIME, Network::Bitcoin);
    let (_, _, on_litecoin) = parse_tx(&tx, TIME, Network::Litecoin);
    assert_eq!(on_bitcoin[0].address, "1A1zP1eP5QGefi2DMPTfTL5SLmv7DivfNa");
    assert_eq!(on_litecoin[0].address, "LUEweDxDA4WhvWiNXXSxjM9CYzHPJv4QQF");
}

#[test]
fn post_is_dated_by_the_block() {
    let tx =
        RawTransaction { txid: id(1), inputs: vec![], outputs: vec![data_output(&HELLO_CHUNK)] };
    let (bork, _, _) = parse_tx(&tx, 42, Network::Dogecoin);
    assert_eq!(bork.unwrap().timestamp, 42);
}

#[test]
fn post_in_a_pushdata1_carrier() {
    let mut chunk = vec![0x0D, 0x06, 0x00, 0x01];
    chunk.extend_from_slice(&[b'w'; 76]);
    let mut script = vec![0x6a, 0x4c, 80];
    script.extend_from_slice(&chunk);
    let tx = RawTransaction {
        txid: id(1),
        inputs: vec![],
        outputs: vec![TxOutput { value: 0, script }],
    };
    let (bork, _, created) = parse_tx(&tx, TIME, Network::Dogecoin);
    assert_eq!(bork.unwrap().content, Some("w".repeat(76)));
    assert_eq!(created, vec![]);
}

#[test]
fn wrong_magic_gives_no_post_but_keeps_the_outputs() {
    let tx = RawTransaction {
        txid: id(4),
        inputs: vec![TxInput { previous_txid: id(1), previous_index: 2 }],
        outputs: vec![
            data_output(&[0x0D, 0x07, 0x00, 0x07, b'h', b'e', b'l', b'l', b'o']),
            key_output(10),
        ],
    };
    let (bork, spent, created) = parse_tx(&tx, TIME, Network::Bitcoin);
    assert_eq!(bork, None);
    assert_eq!(spent, vec![UtxoId { transaction_id: id(1), output_index: 2 }]);
    assert_eq!(
        created,
        vec![NewUtxo {
            transaction_id: id(4),
            output_index: 1,
            address: String::from("1A1zP1eP5QGefi2DMPTfTL5SLmv7DivfNa"),
            value: 10,
        }]
    );
}

#[test]
fn malformed_payload_gives_no_post_but_keeps_the_outputs() {
    let payloads: [&[u8]; 5] = [
        &[0x0D, 0x06],
        &[0x0D, 0x06, 0x00],
        &[0x0D, 0x06, 0x77, 0x00, b'a'],
        &[0x0D, 0x06, 0x00, 0x00, 0xFF, 0xFE],
        &[0x0D, 0x06, 0x01, 0x00, b's', b'h', b'o', b'r', b't'],
    ];
    for payload in payloads {
        let tx = RawTransaction {
            txid: id(4),
            inputs: vec![TxInput { previous_txid: id(1), previous_index: 2 }],
            outputs: vec![key_output(10), data_output(payload), script_output(5)],
        };
        let (bork, spent, created) = parse_tx(&tx, TIME, Network::Bitcoin);
        assert_eq!(bork, None);
        assert_eq!(spent.len(), 1);
        assert_eq!(created.len(), 2);
        assert_eq!(created[1].output_index, 2);
    }
}

#[test]
fn carrier_of_another_shape_gives_no_post() {
    let mut two_pushes = vec![0x6a, 0x02, 0x0D, 0x06, 0x03, 0x00, 0x07, b'h'];
    let tx = RawTransaction {
        txid: id(4),
        inputs: vec![],
        outputs: vec![TxOutput { value: 0, script: two_pushes.clone() }],
    };
    assert_eq!(parse_tx(&tx, TIME, Network::Bitcoin).0, None);
    two_pushes.truncate(1);
    let bare = RawTransaction {
        txid: id(4),
        inputs: vec![],
        outputs: vec![TxOutput { value: 0, script: two_pushes }],
    };
    assert_eq!(parse_tx(&bare, TIME, Network::Bitcoin).0, None);
}

#[test]
fn only_the_first_carrier_is_read() {
    let unreadable_first = RawTransaction {
        txid: id(4),
        inputs: vec![],
        outputs: vec![data_output(b"other protocol"), data_output(&HELLO_CHUNK)],
    };
    assert_eq!(parse_tx(&unreadable_first, TIME, Network::Bitcoin).0, None);
    let readable_first = RawTransaction {
        txid: id(4),
        inputs: vec![],
        outputs: vec![
            key_output(1),
            data_output(&HELLO_CHUNK),
            data_output(&[0x0D, 0x06, 0x00, 0x08, b'x']),
        ],
    };
    assert_eq!(parse_tx(&readable_first, TIME, Network::Bitcoin).0, Some(hello()));
}

#[test]
fn comment_in_a_transaction() {
    let mut chunk = vec![0x0D, 0x06, 0x01, 0x05];
    chunk.extend_from_slice(&id(0xEE));
    chunk.extend_from_slice(b"agreed");
    let tx = RawTransaction { txid: id(4), inputs: vec![], outputs: vec![data_output(&chunk)] };
    assert_eq!(
        parse_tx(&tx, TIME, Network::Dogecoin).0,
        Some(BorkTxData {
            bork_type: BorkType::Comment,
            content: Some(String::from("agreed")),
            nonce: Some(5),
            reference_id: Some(id(0xEE)),
            index: None,
            timestamp: TIME,
        })
    );
}

#[test]
fn counts_match_inputs_and_outputs() {
    let mut inputs = vec![coinbase_input()];
    for i in 0..7u32 {
        inputs.push(TxInput { previous_txid: id(i as u8 + 1), previous_index: i });
    }
    let mut outputs = Vec::new();
    for i in 0..10u64 {
        outputs.push(if i % 3 == 0 { data_output(b"x") } else { key_output(i) });
    }
    let tx = RawTransaction { txid: id(4), inputs, outputs };
    let (_, spent, created) = parse_tx(&tx, TIME, Network::Dogecoin);
    assert_eq!(spent.len(), 7);
    assert_eq!(created.len(), 6);
    let indices: Vec<u64> = created.iter().map(|c| c.output_index).collect();
    assert_eq!(indices, vec![1, 2, 4, 5, 7, 8]);
}
