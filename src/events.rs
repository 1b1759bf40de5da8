use vstd::prelude::*;

use crate::transactions::OutPoint;

verus! {

/// A peg-out request seen on the destination chain.
#[derive(Debug)]
pub struct PegOutEvent {
    pub source_outpoint: OutPoint,
    pub operator_public_key: Vec<u8>,
    pub withdrawer_chain_address: String,
    pub amount: u64,
    pub tx_hash: Vec<u8>,
    pub timestamp: u32,
}

pub struct PegOutEventView {
    pub source_txid: Seq<u8>,
    pub source_vout: u32,
    pub operator_public_key: Seq<u8>,
    pub withdrawer_chain_address: Seq<char>,
    pub amount: u64,
    pub tx_hash: Seq<u8>,
    pub timestamp: u32,
}

impl View for PegOutEvent {
    type V = PegOutEventView;

    open spec fn view(&self) -> PegOutEventView {
        PegOutEventView {
            source_txid: self.source_outpoint.txid@,
            source_vout: self.source_outpoint.vout,
            operator_public_key: self.operator_public_key@,
            withdrawer_chain_address: self.withdrawer_chain_address@,
            amount: self.amount,
            tx_hash: self.tx_hash@,
            timestamp: self.timestamp,
        }
    }
}

pub open spec fn event_views(s: Seq<PegOutEvent>) -> Seq<PegOutEventView> {
    s.map_values(|e: PegOutEvent| e@)
}

impl PegOutEvent {
    pub fn copy(&self) -> (r: PegOutEvent)
        ensures
            r@ == self@,
    {
        let operator_public_key = self.operator_public_key.clone();
        let tx_hash = self.tx_hash.clone();
        assert(operator_public_key@ =~= self.operator_public_key@);
        assert(tx_hash@ =~= self.tx_hash@);
        PegOutEvent {
            source_outpoint: self.source_outpoint,
            operator_public_key,
            withdrawer_chain_address: self.withdrawer_chain_address.clone(),
            amount: self.amount,
            tx_hash,
            timestamp: self.timestamp,
        }
    }
}

} // verus!
