use bridge::commitment::CommitmentMessageId;
use bridge::events::PegOutEvent;
use bridge::graph::{Network, PegInReference, PegOutGraph};
use bridge::id::generate_id;
use bridge::status::Timelocks;
use bridge::transactions::{Input, OutPoint, TxOut, TxTemplate};
use sha2::Digest;

fn upper_hex(b: &[u8]) -> String {
    b.iter().map(|x| format!("{:02X}", x)).collect()
}

#[test]
fn graph_id_is_sha256_of_peg_in_id_and_key() {
    let key = vec![0x02, 0xab, 0x00, 0xff];
    let id = generate_id(&"abc".to_string(), &key);
    let digest = sha2::Sha256::digest(b"abc02ab00ff");
    assert_eq!(id, upper_hex(&digest));
    assert_eq!(id.len(), 64);
    assert_eq!(id, generate_id(&"abc".to_string(), &key));
    assert_ne!(id, generate_id(&"abd".to_string(), &key));
    assert_ne!(id, generate_id(&"abc".to_string(), &vec![0x02, 0xab, 0x00, 0xfe]));
}

#[test]
fn empty_inputs_give_digest_of_empty_string() {
    let id = generate_id(&String::new(), &Vec::new());
    assert_eq!(id, "E3B0C44298FC1C149AFBF4C8996FB92427AE41E4649B934CA495991B7852B855");
}

#[test]
fn commitment_plan_lists_fixed_then_intermediates() {
    let inter = vec![("F_1".to_string(), 36usize), ("scalar".to_string(), 20usize)];
    let plan = CommitmentMessageId::commitment_message_lengths(20, &inter);
    assert_eq!(plan.len(), 7);
    assert!(matches!(plan[0], (CommitmentMessageId::PegOutTxIdSourceNetwork, 32)));
    assert!(matches!(plan[1], (CommitmentMessageId::PegOutTxIdDestinationNetwork, 20)));
    assert!(matches!(plan[2], (CommitmentMessageId::StartTime, 4)));
    assert!(matches!(plan[3], (CommitmentMessageId::Superblock, 80)));
    assert!(matches!(plan[4], (CommitmentMessageId::SuperblockHash, 32)));
    match &plan[5] {
        (CommitmentMessageId::Groth16IntermediateValues((name, 36)), 36) => assert_eq!(name, "F_1"),
        other => panic!("unexpected {:?}", other),
    }
    assert_eq!(plan[6].0.message_length(20), 20);
    assert_eq!(CommitmentMessageId::Superblock.message_length(20), 80);
}

fn graph() -> PegOutGraph {
    let inputs = [1usize, 1, 1, 2, 1, 1, 1, 1, 1, 1, 3, 2, 1, 4, 4];
    let templates: Vec<TxTemplate> = (0..15)
        .map(|k| TxTemplate {
            version: 2,
            lock_time: 0,
            sequences: vec![0; inputs[k]],
            outputs: (0..3).map(|j| TxOut { value: 1000 + j, script_pubkey: vec![k as u8] }).collect(),
        })
        .collect();
    PegOutGraph::new(
        Network::Testnet,
        &vec![7u8; 33],
        &vec![vec![2u8; 33]],
        &PegInReference { id: "peg-in".to_string(), confirm_txid: [0x11; 32], confirm_amount: 1 },
        Input { outpoint: OutPoint { txid: [1; 32], vout: 0 }, amount: 5 },
        &templates,
        Timelocks {
            connector_1_leaf_0: 1,
            connector_1_leaf_1: 2,
            connector_1_leaf_2: 3,
            connector_3: 4,
            connector_4: 5,
            connector_b_1: 6,
        },
    )
    .unwrap()
}

fn event(txid: u8, key: u8, amount: u64) -> PegOutEvent {
    PegOutEvent {
        source_outpoint: OutPoint { txid: [txid; 32], vout: 0 },
        operator_public_key: vec![key; 33],
        withdrawer_chain_address: "0xabc".to_string(),
        amount,
        tx_hash: vec![9; 32],
        timestamp: 1_700_000_000,
    }
}

#[test]
fn no_matching_event() {
    let mut g = graph();
    let mut events = vec![event(0x12, 7, 1), event(0x11, 8, 2)];
    assert!(matches!(g.match_and_set_peg_out_event(&mut events), Ok(None)));
    assert_eq!(events.len(), 2);
    assert!(!g.is_peg_out_initiated());
}

#[test]
fn one_matching_event_is_taken() {
    let mut g = graph();
    let mut events = vec![event(0x12, 7, 1), event(0x11, 7, 2), event(0x11, 8, 3)];
    let got = g.match_and_set_peg_out_event(&mut events).unwrap().unwrap();
    assert_eq!(got.amount, 2);
    assert_eq!(events.iter().map(|e| e.amount).collect::<Vec<_>>(), vec![1, 3]);
    assert!(g.is_peg_out_initiated());
}

#[test]
fn duplicate_matching_events_are_refused() {
    let mut g = graph();
    let mut events = vec![event(0x11, 7, 1), event(0x12, 7, 2), event(0x11, 7, 3)];
    let r = g.match_and_set_peg_out_event(&mut events);
    assert_eq!(r.err(), Some("Event from L2 chain is not unique".to_string()));
    assert_eq!(events.iter().map(|e| e.amount).collect::<Vec<_>>(), vec![2]);
    assert!(!g.is_peg_out_initiated());
}

#[test]
fn network_and_presign_flag_of_a_new_graph() {
    let g = graph();
    assert_eq!(g.network(), Network::Testnet);
    assert!(!g.has_all_signatures(&vec![vec![2u8; 33]]));
    assert!(g.has_all_signatures(&Vec::new()));
}
