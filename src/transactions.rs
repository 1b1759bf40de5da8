use vstd::prelude::*;

use bitcoin::absolute::LockTime;
use bitcoin::hashes::Hash as HashBytes;
use bitcoin::transaction::Version;
use bitcoin::{Amount, ScriptBuf, Sequence, Txid};

use crate::bytes::same_bytes;

verus! {

/// A reference to one output of a transaction.
#[derive(Clone, Copy, Debug)]
pub struct OutPoint {
    pub txid: [u8; 32],
    pub vout: u32,
}

/// An input of a graph transaction: the output it spends and that output's
/// amount in satoshis.
#[derive(Clone, Copy, Debug)]
pub struct Input {
    pub outpoint: OutPoint,
    pub amount: u64,
}

/// An output: an amount in satoshis locked by a script.
#[derive(Debug)]
pub struct TxOut {
    pub value: u64,
    pub script_pubkey: Vec<u8>,
}

/// What the transaction factory fixes of one graph transaction besides its
/// inputs: version, lock time, one sequence number per input, and the
/// outputs (connector scripts and amounts).
#[derive(Debug)]
pub struct TxTemplate {
    pub version: i32,
    pub lock_time: u32,
    pub sequences: Vec<u32>,
    pub outputs: Vec<TxOut>,
}

/// A graph transaction: its template and the inputs that the linkage gives it.
#[derive(Debug)]
pub struct GraphTransaction {
    pub template: TxTemplate,
    pub inputs: Vec<Input>,
}

pub struct InputView {
    pub txid: Seq<u8>,
    pub vout: u32,
    pub amount: u64,
}

pub struct TxOutView {
    pub value: u64,
    pub script_pubkey: Seq<u8>,
}

pub struct TemplateView {
    pub version: i32,
    pub lock_time: u32,
    pub sequences: Seq<u32>,
    pub outputs: Seq<TxOutView>,
}

pub struct TransactionView {
    pub template: TemplateView,
    pub inputs: Seq<InputView>,
}

impl View for Input {
    type V = InputView;

    open spec fn view(&self) -> InputView {
        InputView { txid: self.outpoint.txid@, vout: self.outpoint.vout, amount: self.amount }
    }
}

impl View for TxOut {
    type V = TxOutView;

    open spec fn view(&self) -> TxOutView {
        TxOutView { value: self.value, script_pubkey: self.script_pubkey@ }
    }
}

impl View for TxTemplate {
    type V = TemplateView;

    open spec fn view(&self) -> TemplateView {
        TemplateView {
            version: self.version,
            lock_time: self.lock_time,
            sequences: self.sequences@,
            outputs: self.outputs@.map_values(|o: TxOut| o@),
        }
    }
}

impl View for GraphTransaction {
    type V = TransactionView;

    open spec fn view(&self) -> TransactionView {
        TransactionView {
            template: self.template@,
            inputs: self.inputs@.map_values(|i: Input| i@),
        }
    }
}

/// The txid that bitcoin computes for a transaction.
pub uninterp spec fn txid_of(tx: TransactionView) -> Seq<u8>;

/// Relies on bitcoin's `Transaction::compute_txid`: the double SHA-256 of the
/// transaction serialized without witnesses, a function of the version, lock
/// time, inputs' outpoints and sequences, and outputs alone.
#[verifier::external_body]
pub(crate) fn compute_txid(tx: &GraphTransaction) -> (r: [u8; 32])
    ensures
        r@ == txid_of(tx@),
{
    let input = tx.inputs.iter().zip(tx.template.sequences.iter()).map(|(i, s)| bitcoin::TxIn {
        previous_output: bitcoin::OutPoint::new(Txid::from_byte_array(i.outpoint.txid), i.outpoint.vout),
        sequence: Sequence(*s),
        ..Default::default()
    });
    let output = tx.template.outputs.iter().map(|o| bitcoin::TxOut {
        value: Amount::from_sat(o.value),
        script_pubkey: ScriptBuf::from_bytes(o.script_pubkey.clone()),
    });
    let version = Version(tx.template.version);
    let lock_time = LockTime::from_consensus(tx.template.lock_time);
    bitcoin::Transaction { version, lock_time, input: input.collect(), output: output.collect() }.compute_txid().to_byte_array()
}

impl TxOut {
    pub fn copy(&self) -> (r: TxOut)
        ensures
            r@ == self@,
    {
        let s = self.script_pubkey.clone();
        assert(s@ =~= self.script_pubkey@);
        TxOut { value: self.value, script_pubkey: s }
    }

    pub fn same(&self, other: &TxOut) -> (r: bool)
        ensures
            r == (self@ == other@),
    {
        self.value == other.value && same_bytes(&self.script_pubkey, &other.script_pubkey)
    }
}

impl TxTemplate {
    pub fn copy(&self) -> (r: TxTemplate)
        ensures
            r@ == self@,
    {
        let sequences = self.sequences.clone();
        assert(sequences@ =~= self.sequences@);
        let mut outputs: Vec<TxOut> = Vec::new();
        let mut i: usize = 0;
        while i < self.outputs.len()
            invariant
                i <= self.outputs@.len(),
                outputs@.len() == i,
                forall|j: int| 0 <= j < i ==> (#[trigger] outputs@[j])@ == self.outputs@[j]@,
            decreases self.outputs@.len() - i,
        {
            outputs.push(self.outputs[i].copy());
            i += 1;
        }
        let r = TxTemplate { version: self.version, lock_time: self.lock_time, sequences, outputs };
        assert(r@.outputs =~= self@.outputs);
        r
    }

    pub fn same(&self, other: &TxTemplate) -> (r: bool)
        ensures
            r == (self@ == other@),
    {
        if self.version != other.version || self.lock_time != other.lock_time
            || self.sequences.len() != other.sequences.len() || self.outputs.len()
            != other.outputs.len() {
            proof {
                if self@ == other@ {
                    assert(self@.outputs.len() == self.outputs@.len());
                    assert(other@.outputs.len() == other.outputs@.len());
                }
            }
            return false;
        }
        let mut i: usize = 0;
        while i < self.sequences.len()
            invariant
                i <= self.sequences@.len(),
                self.sequences@.len() == other.sequences@.len(),
                forall|j: int| 0 <= j < i ==> self.sequences@[j] == other.sequences@[j],
            decreases self.sequences@.len() - i,
        {
            if self.sequences[i] != other.sequences[i] {
                return false;
            }
            i += 1;
        }
        assert(self.sequences@ =~= other.sequences@);
        let mut i: usize = 0;
        while i < self.outputs.len()
            invariant
                i <= self.outputs@.len(),
                self.outputs@.len() == other.outputs@.len(),
                forall|j: int| 0 <= j < i ==> self.outputs@[j]@ == other.outputs@[j]@,
            decreases self.outputs@.len() - i,
        {
            if !self.outputs[i].same(&other.outputs[i]) {
                assert(self@.outputs[i as int] != other@.outputs[i as int]);
                return false;
            }
            i += 1;
        }
        assert(self@.outputs =~= other@.outputs);
        true
    }
}

pub fn same_txid(a: &[u8; 32], b: &[u8; 32]) -> (r: bool)
    ensures
        r == (a@ == b@),
{
    let mut i: usize = 0;
    while i < 32
        invariant
            i <= 32,
            a@.len() == 32,
            b@.len() == 32,
            forall|j: int| 0 <= j < i ==> a@[j] == b@[j],
        decreases 32 - i,
    {
        if a[i] != b[i] {
            return false;
        }
        i += 1;
    }
    assert(a@ =~= b@);
    true
}

impl Input {
    pub fn same(&self, other: &Input) -> (r: bool)
        ensures
            r == (self@ == other@),
    {
        same_txid(&self.outpoint.txid, &other.outpoint.txid) && self.outpoint.vout
            == other.outpoint.vout && self.amount == other.amount
    }
}

impl GraphTransaction {
    pub fn copy(&self) -> (r: GraphTransaction)
        ensures
            r@ == self@,
    {
        let mut inputs: Vec<Input> = Vec::new();
        let mut i: usize = 0;
        while i < self.inputs.len()
            invariant
                i <= self.inputs@.len(),
                inputs@.len() == i,
                forall|j: int| 0 <= j < i ==> (#[trigger] inputs@[j])@ == self.inputs@[j]@,
            decreases self.inputs@.len() - i,
        {
            inputs.push(self.inputs[i]);
            i += 1;
        }
        let r = GraphTransaction { template: self.template.copy(), inputs };
        assert(r@.inputs =~= self@.inputs);
        r
    }

    pub fn same(&self, other: &GraphTransaction) -> (r: bool)
        ensures
            r == (self@ == other@),
    {
        if !self.template.same(&other.template) || self.inputs.len() != other.inputs.len() {
            proof {
                if self@ == other@ {
                    assert(self@.inputs.len() == self.inputs@.len());
                    assert(other@.inputs.len() == other.inputs@.len());
                }
            }
            return false;
        }
        let mut i: usize = 0;
        while i < self.inputs.len()
            invariant
                i <= self.inputs@.len(),
                self.inputs@.len() == other.inputs@.len(),
                forall|j: int| 0 <= j < i ==> self.inputs@[j]@ == other.inputs@[j]@,
            decreases self.inputs@.len() - i,
        {
            if !self.inputs[i].same(&other.inputs[i]) {
                assert(self@.inputs[i as int] != other@.inputs[i as int]);
                return false;
            }
            i += 1;
        }
        assert(self@.inputs =~= other@.inputs);
        true
    }
}

} // verus!
