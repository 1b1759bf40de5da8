use vstd::prelude::*;

use crate::bytes::same_bytes;

verus! {

/// The transactions of the graph that spend n-of-n outputs and therefore
/// carry MuSig2 signatures made before the graph is used.
#[derive(Clone, Copy, Debug, PartialEq, Eq, Structural)]
pub enum PresignedTx {
    AssertInitial,
    AssertFinal,
    DisproveChain,
    Disprove,
    KickOffTimeout,
    StartTimeTimeout,
    Take1,
    Take2,
}

/// The pre-signed transactions in the graph's order.
pub open spec fn spec_all_presigned() -> Seq<PresignedTx> {
    seq![
        PresignedTx::AssertInitial,
        PresignedTx::AssertFinal,
        PresignedTx::DisproveChain,
        PresignedTx::Disprove,
        PresignedTx::KickOffTimeout,
        PresignedTx::StartTimeTimeout,
        PresignedTx::Take1,
        PresignedTx::Take2,
    ]
}

/// The inputs of each pre-signed transaction that spend an n-of-n output.
pub open spec fn spec_presigned_inputs(t: PresignedTx) -> Seq<u32> {
    match t {
        PresignedTx::AssertInitial => seq![0u32],
        PresignedTx::AssertFinal => seq![0u32],
        PresignedTx::DisproveChain => seq![0u32],
        PresignedTx::Disprove => seq![0u32],
        PresignedTx::KickOffTimeout => seq![0u32],
        PresignedTx::StartTimeTimeout => seq![0u32, 1u32],
        PresignedTx::Take1 => seq![0u32, 3u32],
        PresignedTx::Take2 => seq![0u32, 2u32],
    }
}

pub fn all_presigned() -> (r: Vec<PresignedTx>)
    ensures
        r@ == spec_all_presigned(),
{
    let r = vec![
        PresignedTx::AssertInitial,
        PresignedTx::AssertFinal,
        PresignedTx::DisproveChain,
        PresignedTx::Disprove,
        PresignedTx::KickOffTimeout,
        PresignedTx::StartTimeTimeout,
        PresignedTx::Take1,
        PresignedTx::Take2,
    ];
    assert(r@ =~= spec_all_presigned());
    r
}

pub fn presigned_inputs(t: PresignedTx) -> (r: Vec<u32>)
    ensures
        r@ == spec_presigned_inputs(t),
{
    let r = match t {
        PresignedTx::StartTimeTimeout => vec![0u32, 1u32],
        PresignedTx::Take1 => vec![0u32, 3u32],
        PresignedTx::Take2 => vec![0u32, 2u32],
        _ => vec![0u32],
    };
    assert(r@ =~= spec_presigned_inputs(t));
    r
}

/// Every n-of-n input of every pre-signed transaction, in the graph's order.
pub open spec fn spec_slots() -> Seq<(PresignedTx, u32)> {
    seq![
        (PresignedTx::AssertInitial, 0u32),
        (PresignedTx::AssertFinal, 0u32),
        (PresignedTx::DisproveChain, 0u32),
        (PresignedTx::Disprove, 0u32),
        (PresignedTx::KickOffTimeout, 0u32),
        (PresignedTx::StartTimeTimeout, 0u32),
        (PresignedTx::StartTimeTimeout, 1u32),
        (PresignedTx::Take1, 0u32),
        (PresignedTx::Take1, 3u32),
        (PresignedTx::Take2, 0u32),
        (PresignedTx::Take2, 2u32),
    ]
}

/// How many contributions one signer owes in each round.
pub const SLOT_COUNT: usize = 11;

pub fn all_slots() -> (r: Vec<(PresignedTx, u32)>)
    ensures
        r@ == spec_slots(),
        r@.len() == SLOT_COUNT,
{
    let r = vec![
        (PresignedTx::AssertInitial, 0u32),
        (PresignedTx::AssertFinal, 0u32),
        (PresignedTx::DisproveChain, 0u32),
        (PresignedTx::Disprove, 0u32),
        (PresignedTx::KickOffTimeout, 0u32),
        (PresignedTx::StartTimeTimeout, 0u32),
        (PresignedTx::StartTimeTimeout, 1u32),
        (PresignedTx::Take1, 0u32),
        (PresignedTx::Take1, 3u32),
        (PresignedTx::Take2, 0u32),
        (PresignedTx::Take2, 2u32),
    ];
    assert(r@ =~= spec_slots());
    r
}

/// `m` with the first `n` of `values` recorded for `signer`, one per slot
/// in the order of `spec_slots`.
pub open spec fn with_contributions(
    m: Map<SlotKey, Seq<u8>>,
    signer: Seq<u8>,
    values: Seq<Seq<u8>>,
    n: nat,
) -> Map<SlotKey, Seq<u8>>
    decreases n,
{
    if n == 0 {
        m
    } else {
        let slot = spec_slots()[n - 1];
        with_contributions(m, signer, values, (n - 1) as nat).insert(
            (slot.0, slot.1, signer),
            values[n - 1],
        )
    }
}

/// Where a nonce or a partial signature belongs: a transaction, one of its
/// inputs, and the signer's serialized public key.
pub type SlotKey = (PresignedTx, u32, Seq<u8>);

/// One signer's contribution (a public nonce or a partial signature, in its
/// serialized form) for one input of one pre-signed transaction.
#[derive(Debug)]
pub struct SignerEntry {
    pub tx: PresignedTx,
    pub input: u32,
    pub signer: Vec<u8>,
    pub value: Vec<u8>,
}

impl SignerEntry {
    pub open spec fn key(self) -> SlotKey {
        (self.tx, self.input, self.signer@)
    }

    pub fn copy(&self) -> (r: SignerEntry)
        ensures
            r.key() == self.key(),
            r.value@ == self.value@,
    {
        let signer = self.signer.clone();
        let value = self.value.clone();
        assert(signer@ =~= self.signer@);
        assert(value@ =~= self.value@);
        SignerEntry { tx: self.tx, input: self.input, signer, value }
    }
}

pub open spec fn entry_views(s: Seq<SignerEntry>) -> Seq<(SlotKey, Seq<u8>)> {
    s.map_values(|e: SignerEntry| (e.key(), e.value@))
}

pub open spec fn entries_map(s: Seq<SignerEntry>) -> Map<SlotKey, Seq<u8>>
    decreases s.len(),
{
    if s.len() == 0 {
        Map::empty()
    } else {
        entries_map(s.drop_last()).insert(s.last().key(), s.last().value@)
    }
}

pub open spec fn distinct_keys(s: Seq<SignerEntry>) -> bool {
    forall|i: int, j: int|
        0 <= i < s.len() && 0 <= j < s.len() && i != j ==> #[trigger] s[i].key() != #[trigger] s[j].key()
}

pub proof fn lemma_entries_map_index(s: Seq<SignerEntry>, i: int)
    requires
        distinct_keys(s),
        0 <= i < s.len(),
    ensures
        entries_map(s).contains_key(s[i].key()),
        entries_map(s)[s[i].key()] == s[i].value@,
    decreases s.len(),
{
    if i < s.len() - 1 {
        let t = s.drop_last();
        assert(distinct_keys(t)) by {
            assert forall|a: int, b: int|
                0 <= a < t.len() && 0 <= b < t.len() && a != b implies #[trigger] t[a].key()
                != #[trigger] t[b].key() by {
                assert(t[a] == s[a] && t[b] == s[b]);
            }
        }
        lemma_entries_map_index(t, i);
        assert(t[i] == s[i]);
        assert(s[i].key() != s[s.len() - 1].key());
    }
}

pub proof fn lemma_entries_map_key(s: Seq<SignerEntry>, k: SlotKey)
    requires
        entries_map(s).contains_key(k),
    ensures
        exists|i: int| 0 <= i < s.len() && #[trigger] s[i].key() == k,
    decreases s.len(),
{
    if s.last().key() != k {
        lemma_entries_map_key(s.drop_last(), k);
        let i = choose|i: int| 0 <= i < s.drop_last().len() && #[trigger] s.drop_last()[i].key() == k;
        assert(s[i] == s.drop_last()[i]);
    } else {
        assert(s[s.len() - 1].key() == k);
    }
}

proof fn lemma_entries_map_update(s: Seq<SignerEntry>, i: int, e: SignerEntry)
    requires
        distinct_keys(s),
        0 <= i < s.len(),
        e.key() == s[i].key(),
    ensures
        distinct_keys(s.update(i, e)),
        entries_map(s.update(i, e)) == entries_map(s).insert(e.key(), e.value@),
    decreases s.len(),
{
    let u = s.update(i, e);
    assert forall|a: int, b: int| 0 <= a < u.len() && 0 <= b < u.len() && a != b implies #[trigger] u[a].key()
        != #[trigger] u[b].key() by {
        assert(u[a].key() == s[a].key() && u[b].key() == s[b].key());
    }
    if i == s.len() - 1 {
        assert(u.drop_last() =~= s.drop_last());
        assert(entries_map(u) =~= entries_map(s).insert(e.key(), e.value@));
    } else {
        let t = s.drop_last();
        assert(distinct_keys(t)) by {
            assert forall|a: int, b: int|
                0 <= a < t.len() && 0 <= b < t.len() && a != b implies #[trigger] t[a].key()
                != #[trigger] t[b].key() by {
                assert(t[a] == s[a] && t[b] == s[b]);
            }
        }
        lemma_entries_map_update(t, i, e);
        assert(u.drop_last() =~= t.update(i, e));
        assert(s.last().key() != e.key()) by {
            assert(s[s.len() - 1].key() != s[i].key());
        }
        assert(entries_map(u) =~= entries_map(s).insert(e.key(), e.value@));
    }
}

proof fn lemma_same_entry_views(a: Seq<SignerEntry>, b: Seq<SignerEntry>)
    requires
        entry_views(a) == entry_views(b),
        distinct_keys(b),
    ensures
        distinct_keys(a),
        entries_map(a) == entries_map(b),
    decreases a.len(),
{
    assert(a.len() == entry_views(a).len());
    assert(b.len() == entry_views(b).len());
    assert forall|i: int| 0 <= i < a.len() implies #[trigger] a[i].key() == b[i].key() && a[i].value@ == b[i].value@ by {
        assert(entry_views(a)[i] == entry_views(b)[i]);
    }
    if a.len() > 0 {
        let ta = a.drop_last();
        let tb = b.drop_last();
        assert(entry_views(ta) =~= entry_views(tb)) by {
            assert forall|i: int| 0 <= i < ta.len() implies entry_views(ta)[i] == entry_views(tb)[i] by {
                assert(ta[i] == a[i] && tb[i] == b[i]);
            }
        }
        assert(distinct_keys(tb)) by {
            assert forall|x: int, y: int|
                0 <= x < tb.len() && 0 <= y < tb.len() && x != y implies #[trigger] tb[x].key()
                != #[trigger] tb[y].key() by {
                assert(tb[x] == b[x] && tb[y] == b[y]);
            }
        }
        lemma_same_entry_views(ta, tb);
    }
}

/// Both maps agree on every key that they share.
pub open spec fn consistent(a: Map<SlotKey, Seq<u8>>, b: Map<SlotKey, Seq<u8>>) -> bool {
    forall|k: SlotKey| a.contains_key(k) && b.contains_key(k) ==> a[k] == b[k]
}

/// The serialized keys of a list of signers.
pub open spec fn key_views(signers: Seq<Vec<u8>>) -> Seq<Seq<u8>> {
    signers.map_values(|k: Vec<u8>| k@)
}

/// Every signer of `signers` has an entry for every n-of-n input of `t`.
pub open spec fn spec_has_all_for(m: Map<SlotKey, Seq<u8>>, t: PresignedTx, signers: Seq<Seq<u8>>) -> bool {
    forall|i: int, j: int|
        0 <= i < spec_presigned_inputs(t).len() && 0 <= j < signers.len() ==> m.contains_key(
            (t, #[trigger] spec_presigned_inputs(t)[i], #[trigger] signers[j]),
        )
}

/// Every signer of `signers` has an entry for every n-of-n input of every
/// pre-signed transaction.
pub open spec fn spec_has_all(m: Map<SlotKey, Seq<u8>>, signers: Seq<Seq<u8>>) -> bool {
    forall|t: PresignedTx| #[trigger] spec_has_all_for(m, t, signers)
}

/// A set of per-signer contributions, keyed by transaction, input and signer.
#[derive(Debug)]
pub struct SignerRecords {
    entries: Vec<SignerEntry>,
}

impl View for SignerRecords {
    type V = Map<SlotKey, Seq<u8>>;

    closed spec fn view(&self) -> Map<SlotKey, Seq<u8>> {
        entries_map(self.entries@)
    }
}

impl SignerRecords {
    pub closed spec fn wf(&self) -> bool {
        distinct_keys(self.entries@)
    }

    pub fn new() -> (r: Self)
        ensures
            r.wf(),
            r@ == Map::<SlotKey, Seq<u8>>::empty(),
    {
        SignerRecords { entries: Vec::new() }
    }

    /// The entries, one per key, in the order they were recorded.
    pub fn entries(&self) -> (r: Vec<SignerEntry>)
        requires
            self.wf(),
        ensures
            distinct_keys(r@),
            entries_map(r@) == self@,
    {
        let mut r: Vec<SignerEntry> = Vec::new();
        let mut i: usize = 0;
        while i < self.entries.len()
            invariant
                i <= self.entries@.len(),
                entry_views(r@) == entry_views(self.entries@.take(i as int)),
            decreases self.entries@.len() - i,
        {
            let ghost before = r@;
            let e = self.entries[i].copy();
            r.push(e);
            assert(entry_views(r@) =~= entry_views(before).push((e.key(), e.value@)));
            assert(self.entries@.take(i + 1) =~= self.entries@.take(i as int).push(self.entries@[i as int]));
            assert(entry_views(r@) =~= entry_views(self.entries@.take(i + 1)));
            i += 1;
        }
        assert(self.entries@.take(self.entries@.len() as int) =~= self.entries@);
        proof {
            lemma_same_entry_views(r@, self.entries@);
        }
        r
    }

    /// The record set holding `entries`, or `None` where two of them share
    /// a key.
    pub fn from_entries(entries: Vec<SignerEntry>) -> (r: Option<SignerRecords>)
        ensures
            r is None <==> !distinct_keys(entries@),
            r is Some ==> r->Some_0.wf() && r->Some_0@ == entries_map(entries@),
    {
        let mut i: usize = 0;
        while i < entries.len()
            invariant
                i <= entries@.len(),
                forall|a: int, b: int|
                    0 <= a < i && 0 <= b < entries@.len() && a != b ==> #[trigger] entries@[a].key()
                        != #[trigger] entries@[b].key(),
            decreases entries@.len() - i,
        {
            let mut j: usize = 0;
            while j < entries.len()
                invariant
                    i < entries@.len(),
                    j <= entries@.len(),
                    forall|a: int, b: int|
                        0 <= a < i && 0 <= b < entries@.len() && a != b ==> #[trigger] entries@[a].key()
                            != #[trigger] entries@[b].key(),
                    forall|b: int| 0 <= b < j && b != i ==> entries@[i as int].key() != #[trigger] entries@[b].key(),
                decreases entries@.len() - j,
            {
                if j != i && entries[i].tx == entries[j].tx && entries[i].input == entries[j].input
                    && same_bytes(&entries[i].signer, &entries[j].signer) {
                    assert(entries@[i as int].key() == entries@[j as int].key());
                    return None;
                }
                j += 1;
            }
            i += 1;
        }
        Some(SignerRecords { entries })
    }

    fn find(&self, tx: PresignedTx, input: u32, signer: &Vec<u8>) -> (r: Option<usize>)
        requires
            self.wf(),
        ensures
            match r {
                Some(i) => i < self.entries@.len() && self.entries@[i as int].key() == (
                tx,
                input,
                signer@,
                ),
                None => !self@.contains_key((tx, input, signer@)),
            },
    {
        let mut i: usize = 0;
        while i < self.entries.len()
            invariant
                i <= self.entries@.len(),
                forall|j: int| 0 <= j < i ==> #[trigger] self.entries@[j].key() != (tx, input, signer@),
            decreases self.entries@.len() - i,
        {
            let e = &self.entries[i];
            if e.tx == tx && e.input == input && same_bytes(&e.signer, signer) {
                return Some(i);
            }
            i += 1;
        }
        proof {
            if self@.contains_key((tx, input, signer@)) {
                lemma_entries_map_key(self.entries@, (tx, input, signer@));
            }
        }
        None
    }

    /// The contribution of `signer` for input `input` of `tx`, if any.
    pub fn get(&self, tx: PresignedTx, input: u32, signer: &Vec<u8>) -> (r: Option<&Vec<u8>>)
        requires
            self.wf(),
        ensures
            match r {
                Some(v) => self@.contains_key((tx, input, signer@)) && self@[(tx, input, signer@)]
                    == v@,
                None => !self@.contains_key((tx, input, signer@)),
            },
    {
        match self.find(tx, input, signer) {
            Some(i) => {
                proof {
                    lemma_entries_map_index(self.entries@, i as int);
                }
                Some(&self.entries[i].value)
            },
            None => None,
        }
    }

    pub fn contains(&self, tx: PresignedTx, input: u32, signer: &Vec<u8>) -> (r: bool)
        requires
            self.wf(),
        ensures
            r == self@.contains_key((tx, input, signer@)),
    {
        match self.find(tx, input, signer) {
            Some(i) => {
                proof {
                    lemma_entries_map_index(self.entries@, i as int);
                }
                true
            },
            None => false,
        }
    }

    fn has_all_for(&self, t: PresignedTx, signers: &Vec<Vec<u8>>) -> (r: bool)
        requires
            self.wf(),
        ensures
            r == spec_has_all_for(self@, t, key_views(signers@)),
    {
        let inputs = presigned_inputs(t);
        let ghost ks = key_views(signers@);
        let mut i: usize = 0;
        while i < inputs.len()
            invariant
                self.wf(),
                inputs@ == spec_presigned_inputs(t),
                ks == key_views(signers@),
                i <= inputs@.len(),
                forall|a: int, b: int|
                    0 <= a < i && 0 <= b < ks.len() ==> self@.contains_key(
                        (t, #[trigger] inputs@[a], #[trigger] ks[b]),
                    ),
            decreases inputs@.len() - i,
        {
            let mut j: usize = 0;
            while j < signers.len()
                invariant
                    self.wf(),
                    inputs@ == spec_presigned_inputs(t),
                    ks == key_views(signers@),
                    i < inputs@.len(),
                    j <= signers@.len(),
                    forall|a: int, b: int|
                        0 <= a < i && 0 <= b < ks.len() ==> self@.contains_key(
                            (t, #[trigger] inputs@[a], #[trigger] ks[b]),
                        ),
                    forall|b: int| 0 <= b < j ==> self@.contains_key((t, inputs@[i as int], #[trigger] ks[b])),
                decreases signers@.len() - j,
            {
                if !self.contains(t, inputs[i], &signers[j]) {
                    assert(ks[j as int] == signers@[j as int]@);
                    return false;
                }
                j += 1;
            }
            i += 1;
        }
        true
    }

    /// Whether every signer of `signers` has an entry for every n-of-n input
    /// of every pre-signed transaction.
    pub fn has_all(&self, signers: &Vec<Vec<u8>>) -> (r: bool)
        requires
            self.wf(),
        ensures
            r == spec_has_all(self@, key_views(signers@)),
    {
        let txs = all_presigned();
        let mut k: usize = 0;
        while k < txs.len()
            invariant
                self.wf(),
                txs@ == spec_all_presigned(),
                k <= txs@.len(),
                forall|a: int| 0 <= a < k ==> spec_has_all_for(self@, #[trigger] txs@[a], key_views(signers@)),
            decreases txs@.len() - k,
        {
            if !self.has_all_for(txs[k], signers) {
                return false;
            }
            k += 1;
        }
        proof {
            assert forall|t: PresignedTx| #[trigger] spec_has_all_for(self@, t, key_views(signers@)) by {
                let i: int = match t {
                    PresignedTx::AssertInitial => 0,
                    PresignedTx::AssertFinal => 1,
                    PresignedTx::DisproveChain => 2,
                    PresignedTx::Disprove => 3,
                    PresignedTx::KickOffTimeout => 4,
                    PresignedTx::StartTimeTimeout => 5,
                    PresignedTx::Take1 => 6,
                    PresignedTx::Take2 => 7,
                };
                assert(txs@[i] == t);
            }
        }
        true
    }

    /// Records one contribution of `signer` for each slot, in the order of
    /// `spec_slots`.
    pub fn set_all(&mut self, signer: &Vec<u8>, values: Vec<Vec<u8>>)
        requires
            old(self).wf(),
            values@.len() == SLOT_COUNT,
        ensures
            final(self).wf(),
            final(self)@ == with_contributions(
                old(self)@,
                signer@,
                key_views(values@),
                SLOT_COUNT as nat,
            ),
    {
        let slots = all_slots();
        let ghost m0 = self@;
        let mut values = values;
        let ghost vs = key_views(values@);
        let mut k: usize = 0;
        while k < slots.len()
            invariant
                self.wf(),
                slots@ == spec_slots(),
                slots@.len() == SLOT_COUNT,
                values@.len() == SLOT_COUNT,
                key_views(values@) == vs,
                k <= SLOT_COUNT,
                self@ == with_contributions(m0, signer@, vs, k as nat),
            decreases SLOT_COUNT - k,
        {
            let v = values[k].clone();
            assert(v@ =~= vs[k as int]);
            let (t, i) = slots[k];
            self.set(t, i, signer, v);
            k += 1;
        }
    }

    /// Records `value` as the contribution of `signer` for input `input` of
    /// `tx`, replacing an earlier one.
    pub fn set(&mut self, tx: PresignedTx, input: u32, signer: &Vec<u8>, value: Vec<u8>)
        requires
            old(self).wf(),
        ensures
            final(self).wf(),
            final(self)@ == old(self)@.insert((tx, input, signer@), value@),
    {
        match self.find(tx, input, signer) {
            Some(i) => {
                let ghost s0 = self.entries@;
                let e = SignerEntry { tx, input, signer: self.entries[i].signer.clone(), value };
                assert(e.signer@ =~= signer@);
                self.entries.set(i, e);
                proof {
                    lemma_entries_map_update(s0, i as int, e);
                    assert(self.entries@ == s0.update(i as int, e));
                }
            },
            None => {
                let ghost s0 = self.entries@;
                let e = SignerEntry { tx, input, signer: signer.clone(), value };
                assert(e.signer@ =~= signer@);
                self.entries.push(e);
                proof {
                    assert(self.entries@.drop_last() =~= s0);
                    assert forall|a: int, b: int|
                        0 <= a < self.entries@.len() && 0 <= b < self.entries@.len() && a != b
                    implies #[trigger] self.entries@[a].key() != #[trigger] self.entries@[b].key() by {
                        if a == s0.len() {
                            lemma_entries_map_index(s0, b);
                        } else if b == s0.len() {
                            lemma_entries_map_index(s0, a);
                        }
                    }
                }
            },
        }
    }

    /// Whether the two record sets agree on every key that they share.
    pub fn consistent_with(&self, other: &SignerRecords) -> (r: bool)
        requires
            self.wf(),
            other.wf(),
        ensures
            r == consistent(self@, other@),
    {
        let mut i: usize = 0;
        while i < other.entries.len()
            invariant
                self.wf(),
                other.wf(),
                i <= other.entries@.len(),
                forall|j: int|
                    0 <= j < i ==> !self@.contains_key(#[trigger] other.entries@[j].key())
                        || self@[other.entries@[j].key()] == other.entries@[j].value@,
            decreases other.entries@.len() - i,
        {
            let e = &other.entries[i];
            match self.find(e.tx, e.input, &e.signer) {
                Some(j) => {
                    if !same_bytes(&self.entries[j].value, &e.value) {
                        proof {
                            lemma_entries_map_index(self.entries@, j as int);
                            lemma_entries_map_index(other.entries@, i as int);
                        }
                        return false;
                    }
                    proof {
                        lemma_entries_map_index(self.entries@, j as int);
                    }
                },
                None => {},
            }
            i += 1;
        }
        proof {
            assert forall|k: SlotKey| self@.contains_key(k) && other@.contains_key(k) implies self@[k]
                == other@[k] by {
                lemma_entries_map_key(other.entries@, k);
                let j = choose|j: int| 0 <= j < other.entries@.len() && #[trigger] other.entries@[j].key() == k;
                lemma_entries_map_index(other.entries@, j);
            }
        }
        true
    }

    /// Adds every entry of `other` that `self` lacks.
    pub fn absorb(&mut self, other: &SignerRecords)
        requires
            old(self).wf(),
            other.wf(),
            consistent(old(self)@, other@),
        ensures
            final(self).wf(),
            final(self)@ == old(self)@.union_prefer_right(other@),
    {
        let ghost s0 = self@;
        let mut i: usize = 0;
        while i < other.entries.len()
            invariant
                self.wf(),
                other.wf(),
                consistent(s0, other@),
                i <= other.entries@.len(),
                self@ == s0.union_prefer_right(entries_map(other.entries@.take(i as int))),
            decreases other.entries@.len() - i,
        {
            let e = &other.entries[i];
            proof {
                let t = other.entries@.take(i as int);
                assert(other.entries@.take(i + 1).drop_last() =~= t);
                lemma_entries_map_index(other.entries@, i as int);
                if entries_map(t).contains_key(e.key()) {
                    lemma_entries_map_key(t, e.key());
                    let j = choose|j: int| 0 <= j < t.len() && #[trigger] t[j].key() == e.key();
                    assert(other.entries@[j] == t[j]);
                    assert(false);
                }
            }
            let ghost before = self@;
            match self.find(e.tx, e.input, &e.signer) {
                Some(j) => {
                    proof {
                        lemma_entries_map_index(self.entries@, j as int);
                        assert(self@ =~= s0.union_prefer_right(
                            entries_map(other.entries@.take(i + 1)),
                        ));
                    }
                },
                None => {
                    let v = e.value.clone();
                    assert(v@ =~= e.value@);
                    self.set(e.tx, e.input, &e.signer, v);
                    proof {
                        assert(self@ =~= s0.union_prefer_right(
                            entries_map(other.entries@.take(i + 1)),
                        ));
                    }
                },
            }
            i += 1;
        }
        proof {
            assert(other.entries@.take(other.entries@.len() as int) =~= other.entries@);
        }
    }
}

} // verus!
