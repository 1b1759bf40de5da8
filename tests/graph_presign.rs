use bridge::graph::{Network, PegInReference, PegOutError, PegOutGraph};
use bridge::linkage::GraphTx;
use bridge::presign::{PresignedTx, SLOT_COUNT};
use bridge::status::{
    PegOutOperatorStatus, PegOutStatuses, PegOutVerifierStatus, Timelocks, TxObservation, TxStatus,
};
use bridge::transactions::{Input, OutPoint, TxOut, TxTemplate};

fn scalar(n: u32) -> Vec<u8> {
    let mut s = vec![0u8; 28];
    s.extend_from_slice(&n.to_be_bytes());
    s
}

fn secret_key(n: u8) -> Vec<u8> {
    scalar(1000 + n as u32)
}

fn signer(n: u8) -> Vec<u8> {
    musig2::secp::Scalar::from_slice(&secret_key(n)).unwrap().base_point_mul().serialize().to_vec()
}

/// A valid 97-byte musig2 secret nonce bound to the key of signer `v`.
fn secret_nonce(seed: u32, v: u8) -> Vec<u8> {
    let mut b = scalar(2 * seed + 1);
    b.extend(scalar(2 * seed + 2));
    b.extend(signer(v));
    b
}

fn secret_nonces(verifier: u32) -> Vec<Vec<u8>> {
    (0..SLOT_COUNT as u32).map(|k| secret_nonce(100 * verifier + k, verifier as u8)).collect()
}

/// One 32-byte signature hash per slot.
fn messages(tag: u8) -> Vec<Vec<u8>> {
    (0..SLOT_COUNT as u8)
        .map(|k| {
            let mut m = vec![0u8; 32];
            m[0] = tag;
            m[1] = k;
            m
        })
        .collect()
}

fn sign(g: &mut PegOutGraph, v: u8) -> Result<(), PegOutError> {
    g.verifier_sign(&signer(v), &secret_key(v), &secret_nonces(v as u32), &messages(1))
}

fn template(k: usize, inputs: usize, outputs: usize) -> TxTemplate {
    TxTemplate {
        version: 2,
        lock_time: 0,
        sequences: vec![0xffff_fffd; inputs],
        outputs: (0..outputs)
            .map(|j| TxOut {
                value: 10_000 * (k as u64 + 1) + j as u64,
                script_pubkey: vec![0x51, k as u8, j as u8],
            })
            .collect(),
    }
}

fn templates() -> Vec<TxTemplate> {
    let (n1, n2) = (2, 3);
    let inputs = [1, 1, 1, 2, 1, 1, 1, 1, n1, n2, 3, 2, 1, 4, 4];
    (0..15)
        .map(|k| template(k, inputs[k], if k == 7 { 1 + n1 + n2 } else { 3 }))
        .collect()
}

fn timelocks() -> Timelocks {
    Timelocks {
        connector_1_leaf_0: 6,
        connector_1_leaf_1: 12,
        connector_1_leaf_2: 3,
        connector_3: 20,
        connector_4: 30,
        connector_b_1: 8,
    }
}

fn peg_in() -> PegInReference {
    PegInReference { id: "PEGIN01".to_string(), confirm_txid: [0x11; 32], confirm_amount: 500_000 }
}

fn funding() -> Input {
    Input { outpoint: OutPoint { txid: [0x22; 32], vout: 1 }, amount: 900_000 }
}

fn signers() -> Vec<Vec<u8>> {
    vec![signer(1), signer(2), signer(3)]
}

fn graph() -> PegOutGraph {
    PegOutGraph::new(
        Network::Regtest,
        &vec![3u8; 33],
        &signers(),
        &peg_in(),
        funding(),
        &templates(),
        timelocks(),
    )
    .unwrap()
}

fn all_unconfirmed() -> PegOutStatuses {
    let u = TxObservation::Reported(TxStatus { confirmed: false, block_height: None });
    PegOutStatuses {
        assert_initial: u,
        assert_final: u,
        challenge: u,
        disprove_chain: u,
        disprove: u,
        peg_out_confirm: u,
        kick_off_1: u,
        kick_off_2: u,
        kick_off_timeout: u,
        peg_out: None,
        start_time_timeout: u,
        start_time: u,
        take_1: u,
        take_2: u,
        peg_in_confirm: u,
    }
}

#[test]
fn built_graph_validates_and_links_outputs() {
    let g = graph();
    assert!(g.validate(&templates()));
    let ko1 = g.txid(GraphTx::KickOff1);
    let start_time = g.transaction(GraphTx::StartTime);
    assert_eq!(start_time.inputs[0].outpoint.txid, ko1);
    assert_eq!(start_time.inputs[0].outpoint.vout, 2);
    assert_eq!(start_time.inputs[0].amount, 20_002);
    let take_1 = g.transaction(GraphTx::Take1);
    assert_eq!(take_1.inputs[0].outpoint.txid, [0x11; 32]);
    assert_eq!(take_1.inputs[0].amount, 500_000);
    let commit_2 = g.transaction(GraphTx::AssertCommit2);
    assert_eq!(commit_2.inputs.len(), 3);
    assert_eq!(commit_2.inputs[0].outpoint.vout, 3);
    assert_eq!(commit_2.inputs[2].outpoint.vout, 5);
    assert_eq!(commit_2.inputs[0].outpoint.txid, g.txid(GraphTx::AssertInitial));
    assert_eq!(g.transaction(GraphTx::PegOutConfirm).inputs[0].amount, 900_000);
    assert_ne!(g.txid(GraphTx::KickOff1), g.txid(GraphTx::KickOff2));
}

#[test]
fn txid_is_bitcoins() {
    let g = graph();
    let tx = g.transaction(GraphTx::KickOff1);
    let btc = bitcoin::Transaction {
        version: bitcoin::transaction::Version(2),
        lock_time: bitcoin::absolute::LockTime::from_consensus(0),
        input: vec![bitcoin::TxIn {
            previous_output: bitcoin::OutPoint::new(
                <bitcoin::Txid as bitcoin::hashes::Hash>::from_byte_array(tx.inputs[0].outpoint.txid),
                0,
            ),
            sequence: bitcoin::Sequence(0xffff_fffd),
            ..Default::default()
        }],
        output: (0..3)
            .map(|j| bitcoin::TxOut {
                value: bitcoin::Amount::from_sat(20_000 + j),
                script_pubkey: bitcoin::ScriptBuf::from_bytes(vec![0x51, 1, j as u8]),
            })
            .collect(),
    };
    let expected = <bitcoin::Txid as bitcoin::hashes::Hash>::to_byte_array(btc.compute_txid());
    assert_eq!(g.txid(GraphTx::KickOff1), expected);
}

#[test]
fn reconstruction_detects_a_changed_amount() {
    let mut g = graph();
    for v in 1..3u8 {
        g.push_verifier_nonces(&signer(v), &secret_nonces(v as u32)).unwrap();
    }
    g.push_verifier_nonces(&signer(3), &secret_nonces(3)).unwrap();
    for v in 1..=3u8 {
        sign(&mut g, v).unwrap();
    }
    let received = PegOutGraph::from_parts(g.to_parts()).unwrap();
    assert!(received.validate(&templates()));
    assert!(received.has_all_signatures(&signers()));
    let mut parts = g.to_parts();
    parts.transactions[13].template.outputs[0].value += 1;
    let tampered = PegOutGraph::from_parts(parts).unwrap();
    assert!(!tampered.validate(&templates()));
    let mut parts = g.to_parts();
    parts.transactions[1].template.outputs[2].value -= 1;
    let tampered = PegOutGraph::from_parts(parts).unwrap();
    assert!(!tampered.validate(&templates()));
}

#[test]
fn mismatched_templates_are_refused() {
    let mut t = templates();
    t[7].outputs.pop();
    let r = PegOutGraph::new(Network::Regtest, &vec![3u8; 33], &signers(), &peg_in(), funding(), &t, timelocks());
    assert_eq!(r.err(), Some(PegOutError::TemplatesMismatch));
    assert!(!graph().validate(&t));
    let mut t = templates();
    t[3].sequences.push(0);
    assert!(!graph().validate(&t));
}

#[test]
fn malformed_parts_are_refused() {
    let mut g = graph();
    g.push_verifier_nonces(&signer(1), &secret_nonces(1)).unwrap();
    let mut parts = g.to_parts();
    let dup = parts.nonces[0].copy();
    parts.nonces.push(dup);
    assert_eq!(PegOutGraph::from_parts(parts).err(), Some(PegOutError::MalformedGraph));
    let mut parts = g.to_parts();
    parts.transactions.pop();
    assert_eq!(PegOutGraph::from_parts(parts).err(), Some(PegOutError::MalformedGraph));
}

#[test]
fn merge_convergence_of_three_verifiers() {
    let base = graph();
    let mut copies = vec![graph(), graph(), graph()];
    for (i, g) in copies.iter_mut().enumerate() {
        let v = i as u8 + 1;
        g.push_verifier_nonces(&signer(v), &secret_nonces(v as u32)).unwrap();
    }
    // exchange nonces
    let snapshot: Vec<PegOutGraph> =
        copies.iter().map(|g| PegOutGraph::from_parts(g.to_parts()).unwrap()).collect();
    for g in copies.iter_mut() {
        for other in snapshot.iter() {
            g.merge(other).unwrap();
        }
        assert!(g.has_all_nonces(&signers()));
    }
    for (i, g) in copies.iter_mut().enumerate() {
        let v = i as u8 + 1;
        sign(g, v).unwrap();
        assert!(g.has_all_signatures_of(&signer(v)));
        assert!(!g.has_all_signatures(&signers()));
    }
    let (a, rest) = copies.split_at_mut(1);
    a[0].merge(&rest[0]).unwrap();
    a[0].merge(&rest[1]).unwrap();
    let merged = &a[0];
    assert!(merged.has_all_signatures(&signers()));
    let mut status = all_unconfirmed();
    status.peg_out = None;
    assert_eq!(merged.verifier_status(&status, 0), PegOutVerifierStatus::PegOutWait);
    assert_eq!(base.verifier_status(&status, 0), PegOutVerifierStatus::PegOutPresign);
}

#[test]
fn merge_with_itself_changes_nothing() {
    let mut g = graph();
    g.push_verifier_nonces(&signer(2), &secret_nonces(2)).unwrap();
    let copy = PegOutGraph::from_parts(g.to_parts()).unwrap();
    g.merge(&copy).unwrap();
    assert_eq!(g.to_parts().nonces.len(), SLOT_COUNT);
    assert!(g.has_all_nonces_of(&signer(2)));
    assert!(!g.has_all_nonces_of(&signer(1)));
}

#[test]
fn byzantine_merge_is_rejected() {
    let mut g1 = graph();
    let mut g2 = graph();
    for g in [&mut g1, &mut g2] {
        for v in 1..=3u8 {
            g.push_verifier_nonces(&signer(v), &secret_nonces(v as u32)).unwrap();
        }
    }
    sign(&mut g1, 1).unwrap();
    // The same signer signs other messages in the second copy.
    g2.verifier_sign(&signer(1), &secret_key(1), &secret_nonces(1), &messages(2)).unwrap();
    let before_1 = g1.to_parts();
    let before_2 = g2.to_parts();
    assert_eq!(g1.merge(&g2), Err(PegOutError::MergeConflict));
    assert_eq!(g1.to_parts().signatures[4].value, before_1.signatures[4].value);
    assert_eq!(g1.to_parts().signatures.len(), before_1.signatures.len());
    assert_eq!(g2.to_parts().signatures[4].value, before_2.signatures[4].value);
    assert_ne!(before_1.signatures[4].value, before_2.signatures[4].value);
}

#[test]
fn merge_of_another_graph_is_rejected() {
    let mut g = graph();
    let other = PegOutGraph::new(
        Network::Regtest,
        &vec![4u8; 33],
        &signers(),
        &peg_in(),
        funding(),
        &templates(),
        timelocks(),
    )
    .unwrap();
    assert_ne!(g.id(), other.id());
    assert_eq!(g.merge(&other), Err(PegOutError::GraphMismatch));
}

#[test]
fn signing_waits_for_all_nonces() {
    let mut g = graph();
    g.push_verifier_nonces(&signer(1), &secret_nonces(1)).unwrap();
    assert_eq!(sign(&mut g, 1), Err(PegOutError::NoncesMissing));
    assert_eq!(sign(&mut g, 9), Err(PegOutError::UnknownSigner));
    assert_eq!(g.push_verifier_nonces(&signer(9), &secret_nonces(9)), Err(PegOutError::UnknownSigner));
    g.push_verifier_nonces(&signer(2), &secret_nonces(2)).unwrap();
    g.push_verifier_nonces(&signer(3), &secret_nonces(3)).unwrap();
    let mut short = messages(1);
    short.pop();
    assert_eq!(
        g.verifier_sign(&signer(1), &secret_key(1), &secret_nonces(1), &short),
        Err(PegOutError::WrongContributionCount)
    );
    // A secret key that does not belong to the signer's nonces.
    assert_eq!(
        g.verifier_sign(&signer(1), &secret_key(2), &secret_nonces(1), &messages(1)),
        Err(PegOutError::SigningFailed)
    );
    assert!(!g.has_all_signatures_of(&signer(1)));
    sign(&mut g, 1).unwrap();
    sign(&mut g, 2).unwrap();
    assert!(!g.has_all_signatures(&signers()));
    sign(&mut g, 3).unwrap();
    assert!(g.has_all_signatures(&signers()));
    let mut s = all_unconfirmed();
    s.kick_off_1 = TxObservation::Reported(TxStatus { confirmed: true, block_height: Some(10) });
    s.start_time = s.kick_off_1;
    assert_eq!(g.verifier_status(&s, 30), PegOutVerifierStatus::PegOutChallengeAvailable);
}

#[test]
fn bad_secret_nonces_are_refused() {
    let mut g = graph();
    let mut bad = secret_nonces(1);
    bad[3].pop();
    assert_eq!(g.push_verifier_nonces(&signer(1), &bad), Err(PegOutError::InvalidSecretNonce));
    let mut zero = secret_nonces(1);
    zero[0] = vec![0u8; 97];
    assert_eq!(g.push_verifier_nonces(&signer(1), &zero), Err(PegOutError::InvalidSecretNonce));
    assert!(!g.has_all_nonces_of(&signer(1)));
    let mut short = secret_nonces(1);
    short.pop();
    assert_eq!(g.push_verifier_nonces(&signer(1), &short), Err(PegOutError::WrongContributionCount));
}

#[test]
fn public_nonces_and_their_sum_are_musig2s() {
    let mut g = graph();
    assert_eq!(g.aggregated_nonce(PresignedTx::Take1, 3), None);
    for v in 1..=3u8 {
        g.push_verifier_nonces(&signer(v), &secret_nonces(v as u32)).unwrap();
    }
    let parts = g.to_parts();
    let first = parts.nonces.iter().find(|e| e.signer == signer(1)).unwrap();
    let expected = musig2::SecNonce::from_bytes(&secret_nonce(100, 1)).unwrap().public_nonce();
    assert_eq!(first.value, expected.serialize().to_vec());
    // Take 1, input 3 is the ninth slot.
    let pubs: Vec<musig2::PubNonce> = (1..=3u32)
        .map(|v| musig2::SecNonce::from_bytes(&secret_nonce(100 * v + 8, v as u8)).unwrap().public_nonce())
        .collect();
    let sum = musig2::AggNonce::sum(&pubs).serialize().to_vec();
    assert_eq!(g.aggregated_nonce(PresignedTx::Take1, 3), Some(sum));
    assert_eq!(g.aggregated_nonce(PresignedTx::Take1, 1), None);
}

#[test]
fn happy_path_through_the_graph() {
    let two = vec![signer(1), signer(2)];
    let mut g = PegOutGraph::new(
        Network::Regtest,
        &vec![3u8; 33],
        &two,
        &peg_in(),
        funding(),
        &templates(),
        timelocks(),
    )
    .unwrap();
    for v in 1..=2u8 {
        g.push_verifier_nonces(&signer(v), &secret_nonces(v as u32)).unwrap();
    }
    for v in 1..=2u8 {
        sign(&mut g, v).unwrap();
    }
    assert!(g.has_all_signatures(&two));
    let mut events = vec![bridge::events::PegOutEvent {
        source_outpoint: OutPoint { txid: [0x11; 32], vout: 0 },
        operator_public_key: vec![3u8; 33],
        withdrawer_chain_address: "0xwithdrawer".to_string(),
        amount: 400_000,
        tx_hash: vec![5; 32],
        timestamp: 1,
    }];
    assert!(g.match_and_set_peg_out_event(&mut events).unwrap().is_some());
    let confirmed_at = |h: u32| TxObservation::Reported(TxStatus { confirmed: true, block_height: Some(h) });
    let t = timelocks();
    let mut s = all_unconfirmed();
    assert_eq!(g.operator_status(&s, 90), PegOutOperatorStatus::PegOutStartPegOut);
    s.peg_out = Some(confirmed_at(95));
    s.peg_out_confirm = confirmed_at(97);
    s.kick_off_1 = confirmed_at(100);
    s.start_time = confirmed_at(105);
    assert_eq!(g.operator_status(&s, 100 + t.connector_1_leaf_0 - 1), PegOutOperatorStatus::PegOutWait);
    assert_eq!(g.operator_status(&s, 105 + t.connector_1_leaf_0), PegOutOperatorStatus::PegOutKickOff2Available);
    s.kick_off_2 = confirmed_at(200);
    assert_eq!(g.operator_status(&s, 200 + t.connector_3), PegOutOperatorStatus::PegOutTake1Available);
    s.take_1 = confirmed_at(221);
    assert_eq!(g.operator_status(&s, 222), PegOutOperatorStatus::PegOutComplete);
    assert_eq!(g.verifier_status(&s, 222), PegOutVerifierStatus::PegOutComplete);
    assert_eq!(g.interpret_withdrawer_status(s.peg_out), bridge::status::PegOutWithdrawerStatus::PegOutComplete);
}

#[test]
fn empty_signer_set_is_refused() {
    let r = PegOutGraph::new(Network::Regtest, &vec![3u8; 33], &Vec::new(), &peg_in(), funding(), &templates(), timelocks());
    assert_eq!(r.err(), Some(PegOutError::NoSigners));
}

#[test]
fn other_versions_and_bad_nonces_are_refused() {
    let g = graph();
    let mut parts = g.to_parts();
    parts.version = "0.9".to_string();
    assert_eq!(PegOutGraph::from_parts(parts).err(), Some(PegOutError::VersionMismatch));
    let mut g = graph();
    g.push_verifier_nonces(&signer(1), &secret_nonces(1)).unwrap();
    assert!(g.validate(&templates()));
    let mut parts = g.to_parts();
    parts.nonces[3].value = vec![0u8; 66];
    let tampered = PegOutGraph::from_parts(parts).unwrap();
    assert!(!tampered.validate(&templates()));
}
