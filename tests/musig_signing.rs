use bridge::graph::{Network, PegInReference, PegOutGraph};
use bridge::presign::{PresignedTx, SLOT_COUNT};
use bridge::status::Timelocks;
use bridge::transactions::{Input, OutPoint, TxOut, TxTemplate};
use musig2::secp::{Point, Scalar};

const SLOTS: [(PresignedTx, u32); SLOT_COUNT] = [
    (PresignedTx::AssertInitial, 0),
    (PresignedTx::AssertFinal, 0),
    (PresignedTx::DisproveChain, 0),
    (PresignedTx::Disprove, 0),
    (PresignedTx::KickOffTimeout, 0),
    (PresignedTx::StartTimeTimeout, 0),
    (PresignedTx::StartTimeTimeout, 1),
    (PresignedTx::Take1, 0),
    (PresignedTx::Take1, 3),
    (PresignedTx::Take2, 0),
    (PresignedTx::Take2, 2),
];

fn scalar(n: u32) -> Scalar {
    let mut b = [0u8; 32];
    b[28..].copy_from_slice(&n.to_be_bytes());
    Scalar::from_slice(&b).unwrap()
}

fn templates() -> Vec<TxTemplate> {
    let inputs = [1usize, 1, 1, 2, 1, 1, 1, 1, 1, 1, 3, 2, 1, 4, 4];
    (0..15)
        .map(|k| TxTemplate {
            version: 2,
            lock_time: 0,
            sequences: vec![0; inputs[k]],
            outputs: (0..3).map(|j| TxOut { value: 700 + j, script_pubkey: vec![0x51, k as u8] }).collect(),
        })
        .collect()
}

fn message(slot: usize) -> Vec<u8> {
    vec![slot as u8 + 1; 32]
}

#[test]
fn presigned_graph_yields_verifying_aggregate_signatures() {
    let seckeys: Vec<Scalar> = (1..=3).map(|i| scalar(1000 + i)).collect();
    let points: Vec<Point> = seckeys.iter().map(|k| k.base_point_mul()).collect();
    let pubkeys: Vec<Vec<u8>> = points.iter().map(|p| p.serialize().to_vec()).collect();
    let mut g = PegOutGraph::new(
        Network::Regtest,
        &vec![3u8; 33],
        &pubkeys,
        &PegInReference { id: "peg-in".to_string(), confirm_txid: [0x11; 32], confirm_amount: 1 },
        Input { outpoint: OutPoint { txid: [1; 32], vout: 0 }, amount: 5 },
        &templates(),
        Timelocks {
            connector_1_leaf_0: 1,
            connector_1_leaf_1: 2,
            connector_1_leaf_2: 3,
            connector_3: 4,
            connector_4: 5,
            connector_b_1: 6,
        },
    )
    .unwrap();
    let secret_nonce = |signer: usize, slot: usize| -> Vec<u8> {
        let mut b = scalar(50 + 100 * signer as u32 + 2 * slot as u32).serialize().to_vec();
        b.extend(scalar(51 + 100 * signer as u32 + 2 * slot as u32).serialize());
        b.extend(pubkeys[signer].iter());
        b
    };
    for s in 0..3 {
        let nonces: Vec<Vec<u8>> = (0..SLOT_COUNT).map(|k| secret_nonce(s, k)).collect();
        g.push_verifier_nonces(&pubkeys[s], &nonces).unwrap();
    }
    let ctx = musig2::KeyAggContext::new(points.clone()).unwrap();
    let messages: Vec<Vec<u8>> = (0..SLOT_COUNT).map(message).collect();
    for s in 0..3 {
        assert_eq!(g.aggregated_signature(SLOTS[0].0, SLOTS[0].1, &message(0)), None);
        let nonces: Vec<Vec<u8>> = (0..SLOT_COUNT).map(|k| secret_nonce(s, k)).collect();
        g.verifier_sign(&pubkeys[s], &seckeys[s].serialize().to_vec(), &nonces, &messages).unwrap();
    }
    // The recorded partial signature is the one musig2 makes.
    let (tx, input) = SLOTS[8];
    let agg = musig2::AggNonce::from_bytes(&g.aggregated_nonce(tx, input).unwrap()).unwrap();
    let sec = musig2::SecNonce::from_bytes(&secret_nonce(2, 8)).unwrap();
    let expected: musig2::PartialSignature =
        musig2::sign_partial(&ctx, seckeys[2], sec, &agg, message(8)).unwrap();
    let parts = g.to_parts();
    let recorded = parts
        .signatures
        .iter()
        .find(|e| e.tx == tx && e.input == input && e.signer == pubkeys[2])
        .unwrap();
    assert_eq!(recorded.value, expected.serialize().to_vec());
    assert!(g.has_all_signatures(&pubkeys));
    let aggregated_key: Point = ctx.aggregated_pubkey();
    for k in 0..SLOT_COUNT {
        let (tx, input) = SLOTS[k];
        let sig = g.aggregated_signature(tx, input, &message(k)).unwrap();
        assert_eq!(sig.len(), 64);
        let lifted = musig2::LiftedSignature::from_bytes(&sig).unwrap();
        assert!(musig2::verify_single(aggregated_key, lifted, message(k)).is_ok());
        // The same partial signatures do not aggregate over another message.
        assert_eq!(g.aggregated_signature(tx, input, &vec![0xee; 32]), None);
    }
}
