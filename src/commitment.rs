use vstd::prelude::*;

verus! {

/// The messages that the operator commits to with Winternitz keys.
#[derive(Debug)]
pub enum CommitmentMessageId {
    PegOutTxIdSourceNetwork,
    PegOutTxIdDestinationNetwork,
    StartTime,
    Superblock,
    SuperblockHash,
    /// An intermediate value of the Groth16 verifier: its name and its
    /// length in bytes.
    Groth16IntermediateValues((String, usize)),
}

pub enum CommitmentMessageIdView {
    PegOutTxIdSourceNetwork,
    PegOutTxIdDestinationNetwork,
    StartTime,
    Superblock,
    SuperblockHash,
    Groth16IntermediateValues(Seq<char>, usize),
}

impl View for CommitmentMessageId {
    type V = CommitmentMessageIdView;

    open spec fn view(&self) -> CommitmentMessageIdView {
        match self {
            CommitmentMessageId::PegOutTxIdSourceNetwork => CommitmentMessageIdView::PegOutTxIdSourceNetwork,
            CommitmentMessageId::PegOutTxIdDestinationNetwork => CommitmentMessageIdView::PegOutTxIdDestinationNetwork,
            CommitmentMessageId::StartTime => CommitmentMessageIdView::StartTime,
            CommitmentMessageId::Superblock => CommitmentMessageIdView::Superblock,
            CommitmentMessageId::SuperblockHash => CommitmentMessageIdView::SuperblockHash,
            CommitmentMessageId::Groth16IntermediateValues((name, len)) => CommitmentMessageIdView::Groth16IntermediateValues(name@, *len),
        }
    }
}

/// Length in bytes of a source-network txid.
pub const SOURCE_NETWORK_TXID_LENGTH: usize = 32;
/// Length in bytes of a start time (a block height).
pub const START_TIME_MESSAGE_LENGTH: usize = 4;
/// Length in bytes of a block header.
pub const SUPERBLOCK_MESSAGE_LENGTH: usize = 80;
/// Length in bytes of a block hash.
pub const SUPERBLOCK_HASH_MESSAGE_LENGTH: usize = 32;

/// The length of the message committed to under `id`; destination-network
/// txids are `destination_txid_length` bytes long.
pub open spec fn spec_message_length(id: CommitmentMessageIdView, destination_txid_length: usize) -> usize {
    match id {
        CommitmentMessageIdView::PegOutTxIdSourceNetwork => SOURCE_NETWORK_TXID_LENGTH,
        CommitmentMessageIdView::PegOutTxIdDestinationNetwork => destination_txid_length,
        CommitmentMessageIdView::StartTime => START_TIME_MESSAGE_LENGTH,
        CommitmentMessageIdView::Superblock => SUPERBLOCK_MESSAGE_LENGTH,
        CommitmentMessageIdView::SuperblockHash => SUPERBLOCK_HASH_MESSAGE_LENGTH,
        CommitmentMessageIdView::Groth16IntermediateValues(_, len) => len,
    }
}

/// Every commitment of a graph with its message length: the five fixed
/// ones, then one per Groth16 intermediate value, in the order given.
pub open spec fn spec_commitment_plan(
    destination_txid_length: usize,
    intermediates: Seq<(Seq<char>, usize)>,
) -> Seq<(CommitmentMessageIdView, usize)> {
    seq![
        (CommitmentMessageIdView::PegOutTxIdSourceNetwork, SOURCE_NETWORK_TXID_LENGTH),
        (CommitmentMessageIdView::PegOutTxIdDestinationNetwork, destination_txid_length),
        (CommitmentMessageIdView::StartTime, START_TIME_MESSAGE_LENGTH),
        (CommitmentMessageIdView::Superblock, SUPERBLOCK_MESSAGE_LENGTH),
        (CommitmentMessageIdView::SuperblockHash, SUPERBLOCK_HASH_MESSAGE_LENGTH),
    ] + intermediates.map_values(
        |v: (Seq<char>, usize)| (CommitmentMessageIdView::Groth16IntermediateValues(v.0, v.1), v.1),
    )
}

pub open spec fn plan_views(s: Seq<(CommitmentMessageId, usize)>) -> Seq<(CommitmentMessageIdView, usize)> {
    s.map_values(|e: (CommitmentMessageId, usize)| (e.0@, e.1))
}

impl CommitmentMessageId {
    pub fn message_length(&self, destination_txid_length: usize) -> (r: usize)
        ensures
            r == spec_message_length(self@, destination_txid_length),
    {
        match self {
            CommitmentMessageId::PegOutTxIdSourceNetwork => SOURCE_NETWORK_TXID_LENGTH,
            CommitmentMessageId::PegOutTxIdDestinationNetwork => destination_txid_length,
            CommitmentMessageId::StartTime => START_TIME_MESSAGE_LENGTH,
            CommitmentMessageId::Superblock => SUPERBLOCK_MESSAGE_LENGTH,
            CommitmentMessageId::SuperblockHash => SUPERBLOCK_HASH_MESSAGE_LENGTH,
            CommitmentMessageId::Groth16IntermediateValues((_, len)) => *len,
        }
    }

    /// The commitments for which fresh Winternitz secrets are drawn, each
    /// with the length of its message: the five fixed ones, then one per
    /// intermediate value that the circuit enumerates.
    pub fn commitment_message_lengths(
        destination_txid_length: usize,
        intermediates: &Vec<(String, usize)>,
    ) -> (r: Vec<(CommitmentMessageId, usize)>)
        ensures
            plan_views(r@) == spec_commitment_plan(
                destination_txid_length,
                intermediates@.map_values(|v: (String, usize)| (v.0@, v.1)),
            ),
    {
        let mut r: Vec<(CommitmentMessageId, usize)> = vec![
            (CommitmentMessageId::PegOutTxIdSourceNetwork, SOURCE_NETWORK_TXID_LENGTH),
            (CommitmentMessageId::PegOutTxIdDestinationNetwork, destination_txid_length),
            (CommitmentMessageId::StartTime, START_TIME_MESSAGE_LENGTH),
            (CommitmentMessageId::Superblock, SUPERBLOCK_MESSAGE_LENGTH),
            (CommitmentMessageId::SuperblockHash, SUPERBLOCK_HASH_MESSAGE_LENGTH),
        ];
        let ghost iv = intermediates@.map_values(|v: (String, usize)| (v.0@, v.1));
        let ghost fixed = plan_views(r@);
        let mut i: usize = 0;
        while i < intermediates.len()
            invariant
                i <= intermediates@.len(),
                iv == intermediates@.map_values(|v: (String, usize)| (v.0@, v.1)),
                plan_views(r@) == fixed + iv.take(i as int).map_values(
                    |v: (Seq<char>, usize)| (CommitmentMessageIdView::Groth16IntermediateValues(v.0, v.1), v.1),
                ),
            decreases intermediates@.len() - i,
        {
            let name = intermediates[i].0.clone();
            let len = intermediates[i].1;
            assert(iv[i as int] == (name@, len));
            let ghost before = r@;
            r.push((CommitmentMessageId::Groth16IntermediateValues((name, len)), len));
            assert(plan_views(r@) =~= plan_views(before).push(
                (CommitmentMessageIdView::Groth16IntermediateValues(name@, len), len),
            ));
            assert(iv.take(i + 1) =~= iv.take(i as int).push(iv[i as int]));
            assert(plan_views(r@) =~= fixed + iv.take(i + 1).map_values(
                |v: (Seq<char>, usize)| (CommitmentMessageIdView::Groth16IntermediateValues(v.0, v.1), v.1),
            ));
            i += 1;
        }
        assert(iv.take(iv.len() as int) =~= iv);
        assert(fixed =~= seq![
            (CommitmentMessageIdView::PegOutTxIdSourceNetwork, SOURCE_NETWORK_TXID_LENGTH),
            (CommitmentMessageIdView::PegOutTxIdDestinationNetwork, destination_txid_length),
            (CommitmentMessageIdView::StartTime, START_TIME_MESSAGE_LENGTH),
            (CommitmentMessageIdView::Superblock, SUPERBLOCK_MESSAGE_LENGTH),
            (CommitmentMessageIdView::SuperblockHash, SUPERBLOCK_HASH_MESSAGE_LENGTH),
        ]);
        r
    }
}

} // verus!
