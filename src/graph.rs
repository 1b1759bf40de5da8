use vstd::prelude::*;

use crate::actions::{plan_action, spec_plan_action, ActionRefusal, ActionStep, PegOutAction};
use crate::bytes::{copy_all, same_bytes};
use crate::musig::{
    aggregate_signature_of, aggregate_signatures, check_public_nonce, derive_public_nonce,
    nonce_sum_of, opt_bytes, partial_signature_of, public_nonce_decodes, public_nonce_of,
    sign_partial, sum_public_nonces,
};
use crate::events::{event_views, PegOutEvent, PegOutEventView};
use crate::id::{generate_id, spec_generate_id};
use crate::presign::{
    consistent, distinct_keys, entries_map, key_views, spec_has_all, with_contributions,
    all_slots, lemma_entries_map_index, lemma_entries_map_key, spec_slots, PresignedTx, SignerEntry, SignerRecords, SlotKey, SLOT_COUNT,
};
use crate::linkage::{
    build_transactions, spec_build, spec_built, spec_templates_fit, templates_fit,
    template_views, transaction_views, GraphTx, LinkageContext, LinkageContextView, GRAPH_TX_COUNT,
};
use crate::transactions::{
    compute_txid, same_txid, txid_of, GraphTransaction, Input, TemplateView, TransactionView, TxTemplate,
};
use crate::status::{
    project_operator_status, project_verifier_status, project_withdrawer_status,
    spec_operator_status, spec_verifier_status, spec_withdrawer_status, PegOutOperatorStatus,
    PegOutStatuses, PegOutVerifierStatus, PegOutWithdrawerStatus, Timelocks, TxObservation,
};

verus! {

/// The Bitcoin network that a graph lives on.
#[derive(Clone, Copy, Debug, PartialEq, Eq, Structural)]
pub enum Network {
    Bitcoin,
    Testnet,
    Signet,
    Regtest,
}

/// Why an operation on a graph was refused.
#[derive(Clone, Copy, Debug, PartialEq, Eq, Structural)]
pub enum PegOutError {
    /// The two graphs hold different contributions under one key.
    MergeConflict,
    /// The two graphs are not the same logical graph.
    GraphMismatch,
    /// The signer is not one of the graph's n-of-n signers.
    UnknownSigner,
    /// Not every n-of-n signer has published its nonces yet.
    NoncesMissing,
    /// One contribution is owed for each n-of-n input of each pre-signed
    /// transaction.
    WrongContributionCount,
    /// A secret nonce that does not decode.
    InvalidSecretNonce,
    /// musig2 refused to make a partial signature (a secret key, nonce or
    /// aggregated nonce that does not decode or does not belong).
    SigningFailed,
    /// A graph needs at least one n-of-n signer.
    NoSigners,
    /// The stored parts carry another format version.
    VersionMismatch,
    /// The transaction templates do not fit the graph's linkage.
    TemplatesMismatch,
    /// Stored parts that no graph has: two contributions under one key, or
    /// a transaction count other than the graph's.
    MalformedGraph,
}

/// Everything a graph stores, as plain values: what is written when a graph
/// is sent to another participant, and read back on arrival.
pub struct PegOutGraphParts {
    pub version: String,
    pub network: Network,
    pub id: String,
    pub peg_in_graph_id: String,
    pub operator_public_key: Vec<u8>,
    pub n_of_n_signers: Vec<Vec<u8>>,
    pub timelocks: Timelocks,
    pub nonces: Vec<SignerEntry>,
    pub signatures: Vec<SignerEntry>,
    pub peg_out_chain_event: Option<PegOutEvent>,
    pub peg_in_confirm_txid: [u8; 32],
    pub peg_in_confirm_amount: u64,
    pub transactions: Vec<GraphTransaction>,
}

/// The view of an event that may be absent.
pub open spec fn optional_event_view(e: Option<PegOutEvent>) -> Option<PegOutEventView> {
    match e {
        Some(e) => Some(e@),
        None => None,
    }
}

/// The graph that parts describe, with `n_of_n_presigned` worked out from the
/// signatures rather than read.
pub open spec fn parts_view(p: PegOutGraphParts) -> PegOutGraphView {
    PegOutGraphView {
        version: p.version@,
        network: p.network,
        id: p.id@,
        peg_in_graph_id: p.peg_in_graph_id@,
        operator_public_key: p.operator_public_key@,
        n_of_n_signers: key_views(p.n_of_n_signers@),
        n_of_n_presigned: spec_has_all(entries_map(p.signatures@), key_views(p.n_of_n_signers@)),
        timelocks: p.timelocks,
        presign: PresignView { nonces: entries_map(p.nonces@), signatures: entries_map(p.signatures@) },
        peg_out_chain_event: optional_event_view(p.peg_out_chain_event),
        peg_in_confirm_txid: p.peg_in_confirm_txid@,
        peg_in_confirm_amount: p.peg_in_confirm_amount,
        transactions: transaction_views(p.transactions@),
    }
}

fn copy_event(e: &Option<PegOutEvent>) -> (r: Option<PegOutEvent>)
    ensures
        optional_event_view(r) == optional_event_view(*e),
{
    match e {
        Some(e) => Some(e.copy()),
        None => None,
    }
}

/// The format version of stored graphs; parts of another version are refused.
pub open spec fn spec_graph_version() -> Seq<char> {
    "1.0"@
}

pub fn graph_version() -> (r: String)
    ensures
        r@ == spec_graph_version(),
{
    "1.0".to_owned()
}

/// What a peg-out graph takes from its peg-in graph: the peg-in graph's id,
/// and the txid and first output amount of its confirm transaction.
pub struct PegInReference {
    pub id: String,
    pub confirm_txid: [u8; 32],
    pub confirm_amount: u64,
}

/// The public nonce of each secret nonce, or `None` where one does not
/// decode.
fn public_nonces_of(secret_nonces: &Vec<Vec<u8>>) -> (r: Option<Vec<Vec<u8>>>)
    ensures
        r is None <==> exists|k: int|
            0 <= k < secret_nonces@.len() && (#[trigger] public_nonce_of(secret_nonces@[k]@)) is None,
        r is Some ==> r->Some_0@.len() == secret_nonces@.len() && forall|k: int|
            0 <= k < secret_nonces@.len() ==> Some((#[trigger] r->Some_0@[k])@) == public_nonce_of(
                secret_nonces@[k]@,
            ),
{
    let mut public_nonces: Vec<Vec<u8>> = Vec::new();
    let mut k: usize = 0;
    while k < secret_nonces.len()
        invariant
            k <= secret_nonces@.len(),
            public_nonces@.len() == k,
            forall|j: int| 0 <= j < k ==> Some((#[trigger] public_nonces@[j])@) == public_nonce_of(secret_nonces@[j]@),
        decreases secret_nonces@.len() - k,
    {
        match derive_public_nonce(&secret_nonces[k]) {
            Some(n) => public_nonces.push(n),
            None => {
                return None;
            },
        }
        k += 1;
    }
    proof {
        assert forall|j: int| 0 <= j < secret_nonces@.len() implies (#[trigger] public_nonce_of(secret_nonces@[j]@)) is Some by {
            assert(Some(public_nonces@[j]@) == public_nonce_of(secret_nonces@[j]@));
        }
    }
    Some(public_nonces)
}

/// The aggregated nonce of input `input` of `tx`: the musig2 sum of the
/// n-of-n signers' public nonces in the order of the signer set, or `None`
/// while one is missing.
pub open spec fn spec_aggregated_nonce(g: PegOutGraphView, tx: PresignedTx, input: u32) -> Option<Seq<u8>> {
    if forall|j: int|
        0 <= j < g.n_of_n_signers.len() ==> g.presign.nonces.contains_key(
            (tx, input, #[trigger] g.n_of_n_signers[j]),
        ) {
        nonce_sum_of(
            Seq::new(
                g.n_of_n_signers.len(),
                |j: int| g.presign.nonces[(tx, input, g.n_of_n_signers[j])],
            ),
        )
    } else {
        None
    }
}

/// The aggregated signature of input `input` of `tx` over `message`, or
/// `None` while a nonce or partial signature is missing, for an empty signer
/// set, or where musig2 refuses.
pub open spec fn spec_aggregated_signature(
    g: PegOutGraphView,
    tx: PresignedTx,
    input: u32,
    message: Seq<u8>,
) -> Option<Seq<u8>> {
    if g.n_of_n_signers.len() == 0 {
        None
    } else {
        match spec_aggregated_nonce(g, tx, input) {
            None => None,
            Some(nonce) => if forall|j: int|
                0 <= j < g.n_of_n_signers.len() ==> g.presign.signatures.contains_key(
                    (tx, input, #[trigger] g.n_of_n_signers[j]),
                ) {
                aggregate_signature_of(
                    g.n_of_n_signers,
                    nonce,
                    Seq::new(
                        g.n_of_n_signers.len(),
                        |j: int| g.presign.signatures[(tx, input, g.n_of_n_signers[j])],
                    ),
                    message,
                )
            } else {
                None
            },
        }
    }
}

/// A signer's partial signature for slot `k` (in the order of `spec_slots`),
/// made with the slot's aggregated nonce, or `None` where there is none or
/// musig2 refuses.
pub open spec fn spec_slot_partial(
    g: PegOutGraphView,
    secret_key: Seq<u8>,
    secret_nonces: Seq<Seq<u8>>,
    messages: Seq<Seq<u8>>,
    k: int,
) -> Option<Seq<u8>> {
    match spec_aggregated_nonce(g, spec_slots()[k].0, spec_slots()[k].1) {
        Some(nonce) => partial_signature_of(
            g.n_of_n_signers,
            secret_key,
            secret_nonces[k],
            nonce,
            messages[k],
        ),
        None => None,
    }
}

/// The pre-signing state of a graph: public nonces and partial signatures.
pub struct PresignView {
    pub nonces: Map<SlotKey, Seq<u8>>,
    pub signatures: Map<SlotKey, Seq<u8>>,
}

/// Merging two pre-signing states: both record sets are united, or the merge
/// fails where either disagrees on a shared key.
pub open spec fn spec_merge_presign(a: PresignView, b: PresignView) -> Option<PresignView> {
    if consistent(a.nonces, b.nonces) && consistent(a.signatures, b.signatures) {
        Some(
            PresignView {
                nonces: a.nonces.union_prefer_right(b.nonces),
                signatures: a.signatures.union_prefer_right(b.signatures),
            },
        )
    } else {
        None
    }
}

/// Merging a pre-signing state into itself changes nothing.
pub proof fn lemma_merge_idempotent(a: PresignView)
    ensures
        spec_merge_presign(a, a) == Some(a),
{
    assert(a.nonces.union_prefer_right(a.nonces) =~= a.nonces);
    assert(a.signatures.union_prefer_right(a.signatures) =~= a.signatures);
}

/// Merging `b` into `a` gives what merging `a` into `b` gives, and one fails
/// exactly when the other does.
pub proof fn lemma_merge_commutative(a: PresignView, b: PresignView)
    ensures
        spec_merge_presign(a, b) == spec_merge_presign(b, a),
{
    if spec_merge_presign(a, b) is Some {
        assert(a.nonces.union_prefer_right(b.nonces) =~= b.nonces.union_prefer_right(a.nonces));
        assert(a.signatures.union_prefer_right(b.signatures) =~= b.signatures.union_prefer_right(
            a.signatures,
        ));
    }
}

proof fn lemma_union_associative(a: Map<SlotKey, Seq<u8>>, b: Map<SlotKey, Seq<u8>>, c: Map<SlotKey, Seq<u8>>)
    ensures
        (consistent(b, c) && consistent(a, b.union_prefer_right(c))) == (consistent(a, b)
            && consistent(a.union_prefer_right(b), c)),
        a.union_prefer_right(b.union_prefer_right(c)) =~= a.union_prefer_right(b).union_prefer_right(c),
{
    let bc = b.union_prefer_right(c);
    let ab = a.union_prefer_right(b);
    if consistent(b, c) && consistent(a, bc) {
        assert forall|k: SlotKey| a.contains_key(k) && b.contains_key(k) implies a[k] == b[k] by {
            assert(bc.contains_key(k));
        }
        assert forall|k: SlotKey| ab.contains_key(k) && c.contains_key(k) implies ab[k] == c[k] by {
            assert(bc.contains_key(k));
        }
    }
    if consistent(a, b) && consistent(ab, c) {
        assert forall|k: SlotKey| b.contains_key(k) && c.contains_key(k) implies b[k] == c[k] by {
            assert(ab.contains_key(k));
        }
        assert forall|k: SlotKey| a.contains_key(k) && bc.contains_key(k) implies a[k] == bc[k] by {
            assert(ab.contains_key(k));
        }
    }
}

/// Merging is associative: `a` merged with (`b` merged with `c`) equals
/// (`a` merged with `b`) merged with `c`, and one side fails exactly when
/// the other does.
pub proof fn lemma_merge_associative(a: PresignView, b: PresignView, c: PresignView)
    ensures
        (match spec_merge_presign(b, c) {
            Some(bc) => spec_merge_presign(a, bc),
            None => None,
        }) == (match spec_merge_presign(a, b) {
            Some(ab) => spec_merge_presign(ab, c),
            None => None,
        }),
{
    lemma_union_associative(a.nonces, b.nonces, c.nonces);
    lemma_union_associative(a.signatures, b.signatures, c.signatures);
}

/// The event requests this graph's peg-out: it spends the peg-in confirm
/// output and names this graph's operator.
pub open spec fn event_matches(g: PegOutGraphView, e: PegOutEventView) -> bool {
    e.source_txid == g.peg_in_confirm_txid && e.operator_public_key == g.operator_public_key
}

pub struct PegOutGraphView {
    pub version: Seq<char>,
    pub network: Network,
    pub id: Seq<char>,
    pub peg_in_graph_id: Seq<char>,
    pub operator_public_key: Seq<u8>,
    pub n_of_n_signers: Seq<Seq<u8>>,
    pub n_of_n_presigned: bool,
    pub timelocks: Timelocks,
    pub presign: PresignView,
    pub peg_out_chain_event: Option<PegOutEventView>,
    pub peg_in_confirm_txid: Seq<u8>,
    pub peg_in_confirm_amount: u64,
    pub transactions: Seq<TransactionView>,
}

/// The linkage context that a graph's own transactions carry: the funding
/// input is the one that its peg-out-confirm spends.
pub open spec fn context_of(g: PegOutGraphView) -> LinkageContextView {
    LinkageContextView {
        funding: g.transactions[0].inputs[0],
        peg_in_confirm_txid: g.peg_in_confirm_txid,
        peg_in_confirm_amount: g.peg_in_confirm_amount,
    }
}

/// Every stored public nonce decodes as a musig2 public nonce.
pub open spec fn spec_nonces_decode(g: PegOutGraphView) -> bool {
    forall|k: SlotKey| #[trigger] g.presign.nonces.contains_key(k) ==> public_nonce_decodes(g.presign.nonces[k])
}

/// The graph's transactions are exactly those that the templates and the
/// graph's own linkage context build.
pub open spec fn spec_validate(g: PegOutGraphView, templates: Seq<TemplateView>) -> bool {
    &&& spec_templates_fit(templates)
    &&& g.transactions.len() == GRAPH_TX_COUNT
    &&& g.transactions[0].inputs.len() == 1
    &&& g.transactions == spec_build(context_of(g), templates)
}

proof fn lemma_built_prefix(ctx: LinkageContextView, templates: Seq<TemplateView>, m: nat, n: nat, j: int)
    requires
        0 <= j < m <= n,
    ensures
        spec_built(ctx, templates, n).len() == n,
        spec_built(ctx, templates, n)[j] == spec_built(ctx, templates, m)[j],
    decreases n,
{
    if n > m {
        lemma_built_prefix(ctx, templates, m, (n - 1) as nat, j);
    } else {
        lemma_built_len(ctx, templates, n);
    }
}

proof fn lemma_built_len(ctx: LinkageContextView, templates: Seq<TemplateView>, n: nat)
    ensures
        spec_built(ctx, templates, n).len() == n,
    decreases n,
{
    if n > 0 {
        lemma_built_len(ctx, templates, (n - 1) as nat);
    }
}

/// A graph whose transactions were built from a context and templates that
/// fit passes validation against those templates.
pub proof fn lemma_built_graph_validates(
    g: PegOutGraphView,
    ctx: LinkageContextView,
    templates: Seq<TemplateView>,
)
    requires
        spec_templates_fit(templates),
        g.transactions == spec_build(ctx, templates),
        g.peg_in_confirm_txid == ctx.peg_in_confirm_txid,
        g.peg_in_confirm_amount == ctx.peg_in_confirm_amount,
    ensures
        spec_validate(g, templates),
        g.presign.nonces == Map::<SlotKey, Seq<u8>>::empty() ==> spec_nonces_decode(g),
{
    lemma_built_prefix(ctx, templates, 1, GRAPH_TX_COUNT as nat, 0);
    let first = spec_built(ctx, templates, 1)[0];
    assert(spec_built(ctx, templates, 0) =~= Seq::<TransactionView>::empty());
    assert(first.inputs.len() == 1);
    assert(first.inputs[0] == ctx.funding);
    assert(context_of(g) == ctx);
}

/// The peg-out graph: its identity, the n-of-n signer set, the connectors'
/// timelocks and the pre-signing state.
pub struct PegOutGraph {
    version: String,
    network: Network,
    id: String,
    peg_in_graph_id: String,
    operator_public_key: Vec<u8>,
    n_of_n_signers: Vec<Vec<u8>>,
    n_of_n_presigned: bool,
    timelocks: Timelocks,
    nonces: SignerRecords,
    signatures: SignerRecords,
    peg_out_chain_event: Option<PegOutEvent>,
    peg_in_confirm_txid: [u8; 32],
    peg_in_confirm_amount: u64,
    transactions: Vec<GraphTransaction>,
}

impl View for PegOutGraph {
    type V = PegOutGraphView;

    closed spec fn view(&self) -> PegOutGraphView {
        PegOutGraphView {
            version: self.version@,
            network: self.network,
            id: self.id@,
            peg_in_graph_id: self.peg_in_graph_id@,
            operator_public_key: self.operator_public_key@,
            n_of_n_signers: key_views(self.n_of_n_signers@),
            n_of_n_presigned: self.n_of_n_presigned,
            timelocks: self.timelocks,
            presign: PresignView { nonces: self.nonces@, signatures: self.signatures@ },
            peg_out_chain_event: optional_event_view(self.peg_out_chain_event),
            peg_in_confirm_txid: self.peg_in_confirm_txid@,
            peg_in_confirm_amount: self.peg_in_confirm_amount,
            transactions: transaction_views(self.transactions@),
        }
    }
}

impl PegOutGraph {
    /// The record sets are well formed and `n_of_n_presigned` says exactly
    /// whether every n-of-n signer has signed every n-of-n input.
    pub closed spec fn wf(&self) -> bool {
        &&& self.nonces.wf()
        &&& self.signatures.wf()
        &&& self.n_of_n_presigned == spec_has_all(
            self.signatures@,
            key_views(self.n_of_n_signers@),
        )
        &&& self.transactions@.len() == GRAPH_TX_COUNT
    }

    /// Builds the graph of an operator: its id from the peg-in graph's id and
    /// the operator's key, and its transactions from the linkage context and
    /// the factory's templates. Nothing is signed yet.
    pub fn new(
        network: Network,
        operator_public_key: &Vec<u8>,
        n_of_n_signers: &Vec<Vec<u8>>,
        peg_in: &PegInReference,
        peg_out_confirm_input: Input,
        templates: &Vec<TxTemplate>,
        timelocks: Timelocks,
    ) -> (r: Result<PegOutGraph, PegOutError>)
        ensures
            !spec_templates_fit(template_views(templates@)) ==> r == Err::<PegOutGraph, PegOutError>(PegOutError::TemplatesMismatch),
            spec_templates_fit(template_views(templates@)) && n_of_n_signers@.len() == 0 ==> r
                == Err::<PegOutGraph, PegOutError>(PegOutError::NoSigners),
            spec_templates_fit(template_views(templates@)) && n_of_n_signers@.len() > 0 ==> r is Ok,
            r is Ok ==> {
                let g = r->Ok_0;
                let ctx = LinkageContextView {
                    funding: peg_out_confirm_input@,
                    peg_in_confirm_txid: peg_in.confirm_txid@,
                    peg_in_confirm_amount: peg_in.confirm_amount,
                };
                &&& g.wf()
                &&& spec_templates_fit(template_views(templates@))
                &&& g@ == (PegOutGraphView {
                    version: spec_graph_version(),
                    network,
                    id: spec_generate_id(peg_in.id@, operator_public_key@),
                    peg_in_graph_id: peg_in.id@,
                    operator_public_key: operator_public_key@,
                    n_of_n_signers: key_views(n_of_n_signers@),
                    n_of_n_presigned: false,
                    timelocks,
                    presign: PresignView { nonces: Map::empty(), signatures: Map::empty() },
                    peg_out_chain_event: None,
                    peg_in_confirm_txid: peg_in.confirm_txid@,
                    peg_in_confirm_amount: peg_in.confirm_amount,
                    transactions: spec_build(ctx, template_views(templates@)),
                })
            },
    {
        if !templates_fit(templates) {
            return Err(PegOutError::TemplatesMismatch);
        }
        if n_of_n_signers.len() == 0 {
            return Err(PegOutError::NoSigners);
        }
        let ctx = LinkageContext {
            funding: peg_out_confirm_input,
            peg_in_confirm_txid: peg_in.confirm_txid,
            peg_in_confirm_amount: peg_in.confirm_amount,
        };
        let transactions = build_transactions(&ctx, templates);
        proof {
            lemma_built_len(ctx@, template_views(templates@), GRAPH_TX_COUNT as nat);
        }
        let signers = copy_all(n_of_n_signers);
        assert(key_views(signers@) =~= key_views(n_of_n_signers@));
        let signatures = SignerRecords::new();
        let presigned = signatures.has_all(&signers);
        proof {
            let nn = key_views(n_of_n_signers@);
            let m = Map::<SlotKey, Seq<u8>>::empty();
            assert(!crate::presign::spec_has_all_for(m, PresignedTx::AssertInitial, nn)) by {
                assert(!m.contains_key((PresignedTx::AssertInitial, crate::presign::spec_presigned_inputs(PresignedTx::AssertInitial)[0], nn[0])));
            }
        }
        let key = operator_public_key.clone();
        assert(key@ =~= operator_public_key@);
        let g = PegOutGraph {
            version: graph_version(),
            network,
            id: generate_id(&peg_in.id, operator_public_key),
            peg_in_graph_id: peg_in.id.clone(),
            operator_public_key: key,
            n_of_n_signers: signers,
            n_of_n_presigned: presigned,
            timelocks,
            nonces: SignerRecords::new(),
            signatures,
            peg_out_chain_event: None,
            peg_in_confirm_txid: peg_in.confirm_txid,
            peg_in_confirm_amount: peg_in.confirm_amount,
            transactions,
        };
        Ok(g)
    }

    /// Rebuilds a graph from its stored parts, as another participant sent
    /// them.
    pub fn from_parts(parts: PegOutGraphParts) -> (r: Result<PegOutGraph, PegOutError>)
        ensures
            parts.version@ != spec_graph_version() ==> r == Err::<PegOutGraph, PegOutError>(PegOutError::VersionMismatch),
            parts.version@ == spec_graph_version() && (!distinct_keys(parts.nonces@) || !distinct_keys(parts.signatures@)
                || parts.transactions@.len() != GRAPH_TX_COUNT) ==> r == Err::<PegOutGraph, PegOutError>(PegOutError::MalformedGraph),
            parts.version@ == spec_graph_version() && distinct_keys(parts.nonces@) && distinct_keys(parts.signatures@)
                && parts.transactions@.len() == GRAPH_TX_COUNT ==> r is Ok,
            r is Ok ==> r->Ok_0.wf() && r->Ok_0@ == parts_view(parts),
    {
        let ghost pv = parts_view(parts);
        let PegOutGraphParts {
            version,
            network,
            id,
            peg_in_graph_id,
            operator_public_key,
            n_of_n_signers,
            timelocks,
            nonces,
            signatures,
            peg_out_chain_event,
            peg_in_confirm_txid,
            peg_in_confirm_amount,
            transactions,
        } = parts;
        if version != graph_version() {
            return Err(PegOutError::VersionMismatch);
        }
        if transactions.len() != GRAPH_TX_COUNT {
            return Err(PegOutError::MalformedGraph);
        }
        let nonces = match SignerRecords::from_entries(nonces) {
            Some(n) => n,
            None => {
                return Err(PegOutError::MalformedGraph);
            },
        };
        let signatures = match SignerRecords::from_entries(signatures) {
            Some(s) => s,
            None => {
                return Err(PegOutError::MalformedGraph);
            },
        };
        let presigned = signatures.has_all(&n_of_n_signers);
        let g = PegOutGraph {
            version,
            network,
            id,
            peg_in_graph_id,
            operator_public_key,
            n_of_n_signers,
            n_of_n_presigned: presigned,
            timelocks,
            nonces,
            signatures,
            peg_out_chain_event,
            peg_in_confirm_txid,
            peg_in_confirm_amount,
            transactions,
        };
        assert(g@ == pv);
        Ok(g)
    }

    /// The graph's stored parts, to be sent to another participant.
    pub fn to_parts(&self) -> (r: PegOutGraphParts)
        requires
            self.wf(),
        ensures
            distinct_keys(r.nonces@),
            distinct_keys(r.signatures@),
            r.transactions@.len() == GRAPH_TX_COUNT,
            parts_view(r) == self@,
    {
        let mut transactions: Vec<GraphTransaction> = Vec::new();
        let mut k: usize = 0;
        while k < self.transactions.len()
            invariant
                k <= self.transactions@.len(),
                transactions@.len() == k,
                forall|j: int| 0 <= j < k ==> (#[trigger] transactions@[j])@ == self.transactions@[j]@,
            decreases self.transactions@.len() - k,
        {
            transactions.push(self.transactions[k].copy());
            k += 1;
        }
        let signers = copy_all(&self.n_of_n_signers);
        let key = self.operator_public_key.clone();
        assert(key@ =~= self.operator_public_key@);
        let r = PegOutGraphParts {
            version: self.version.clone(),
            network: self.network,
            id: self.id.clone(),
            peg_in_graph_id: self.peg_in_graph_id.clone(),
            operator_public_key: key,
            n_of_n_signers: signers,
            timelocks: self.timelocks,
            nonces: self.nonces.entries(),
            signatures: self.signatures.entries(),
            peg_out_chain_event: copy_event(&self.peg_out_chain_event),
            peg_in_confirm_txid: self.peg_in_confirm_txid,
            peg_in_confirm_amount: self.peg_in_confirm_amount,
            transactions,
        };
        assert(transaction_views(r.transactions@) =~= self@.transactions);
        assert(key_views(r.n_of_n_signers@) =~= self@.n_of_n_signers);
        r
    }

    /// The graph's transactions as the templates rebuild them from the
    /// graph's own linkage context (the funding input that its peg-out-confirm
    /// spends, and its peg-in confirm output), for comparison with what it
    /// holds. Fails where the templates do not fit the linkage or where
    /// peg-out-confirm does not spend exactly one input.
    pub fn new_for_validation(&self, templates: &Vec<TxTemplate>) -> (r: Result<Vec<GraphTransaction>, PegOutError>)
        requires
            self.wf(),
        ensures
            !spec_templates_fit(template_views(templates@)) ==> r == Err::<Vec<GraphTransaction>, PegOutError>(PegOutError::TemplatesMismatch),
            spec_templates_fit(template_views(templates@)) && self@.transactions[0].inputs.len() != 1
                ==> r == Err::<Vec<GraphTransaction>, PegOutError>(PegOutError::MalformedGraph),
            r is Ok <==> spec_templates_fit(template_views(templates@)) && self@.transactions[0].inputs.len() == 1,
            r is Ok ==> {
                &&& transaction_views(r->Ok_0@) == spec_build(context_of(self@), template_views(templates@))
            },
    {
        if !templates_fit(templates) {
            return Err(PegOutError::TemplatesMismatch);
        }
        assert(self@.transactions[0] == self.transactions@[0]@);
        if self.transactions[0].inputs.len() != 1 {
            return Err(PegOutError::MalformedGraph);
        }
        let ctx = LinkageContext {
            funding: self.transactions[0].inputs[0],
            peg_in_confirm_txid: self.peg_in_confirm_txid,
            peg_in_confirm_amount: self.peg_in_confirm_amount,
        };
        assert(ctx@ == context_of(self@));
        Ok(build_transactions(&ctx, templates))
    }

    /// In a well-formed graph, `n_of_n_presigned` says exactly whether every
    /// n-of-n signer has signed every n-of-n input.
    pub proof fn lemma_presigned_flag(&self)
        requires
            self.wf(),
        ensures
            self@.n_of_n_presigned == spec_has_all(self@.presign.signatures, self@.n_of_n_signers),
            self@.transactions.len() == GRAPH_TX_COUNT,
    {
    }

    /// Whether every stored public nonce decodes.
    fn stored_nonces_decode(&self) -> (r: bool)
        requires
            self.wf(),
        ensures
            r == spec_nonces_decode(self@),
    {
        let entries = self.nonces.entries();
        let mut i: usize = 0;
        while i < entries.len()
            invariant
                self.wf(),
                distinct_keys(entries@),
                entries_map(entries@) == self@.presign.nonces,
                i <= entries@.len(),
                forall|j: int| 0 <= j < i ==> public_nonce_decodes((#[trigger] entries@[j]).value@),
            decreases entries@.len() - i,
        {
            if !check_public_nonce(&entries[i].value) {
                proof {
                    lemma_entries_map_index(entries@, i as int);
                }
                return false;
            }
            i += 1;
        }
        proof {
            assert forall|k: SlotKey| #[trigger] self@.presign.nonces.contains_key(k) implies public_nonce_decodes(self@.presign.nonces[k]) by {
                lemma_entries_map_key(entries@, k);
                let j = choose|j: int| 0 <= j < entries@.len() && #[trigger] entries@[j].key() == k;
                lemma_entries_map_index(entries@, j);
            }
        }
        true
    }

    /// Checks the graph's transactions, byte for byte, against those that
    /// the templates build from the graph's own linkage context, and that
    /// every stored public nonce decodes.
    pub fn validate(&self, templates: &Vec<TxTemplate>) -> (r: bool)
        requires
            self.wf(),
        ensures
            r == (spec_validate(self@, template_views(templates@)) && spec_nonces_decode(self@)),
    {
        if !self.stored_nonces_decode() {
            return false;
        }
        let rebuilt = match self.new_for_validation(templates) {
            Ok(t) => t,
            Err(_) => {
                return false;
            },
        };
        proof {
            lemma_built_len(context_of(self@), template_views(templates@), GRAPH_TX_COUNT as nat);
            assert(rebuilt@.len() == transaction_views(rebuilt@).len());
        }
        let mut k: usize = 0;
        while k < GRAPH_TX_COUNT
            invariant
                self.wf(),
                rebuilt@.len() == GRAPH_TX_COUNT,
                transaction_views(rebuilt@) == spec_build(context_of(self@), template_views(templates@)),
                spec_templates_fit(template_views(templates@)),
                self@.transactions[0].inputs.len() == 1,
                k <= GRAPH_TX_COUNT,
                forall|j: int| 0 <= j < k ==> self.transactions@[j]@ == rebuilt@[j]@,
            decreases GRAPH_TX_COUNT - k,
        {
            if !self.transactions[k].same(&rebuilt[k]) {
                assert(self@.transactions[k as int] != transaction_views(rebuilt@)[k as int]);
                return false;
            }
            k += 1;
        }
        assert(self@.transactions =~= transaction_views(rebuilt@));
        true
    }

    /// The transaction `t` of the graph.
    pub fn transaction(&self, t: GraphTx) -> (r: &GraphTransaction)
        requires
            self.wf(),
        ensures
            r@ == self@.transactions[t.spec_index()],
    {
        &self.transactions[t.index()]
    }

    /// The txid of transaction `t`, under which the chain reports it.
    pub fn txid(&self, t: GraphTx) -> (r: [u8; 32])
        requires
            self.wf(),
        ensures
            r@ == txid_of(self@.transactions[t.spec_index()]),
    {
        compute_txid(&self.transactions[t.index()])
    }

    pub fn network(&self) -> (r: Network)
        ensures
            r == self@.network,
    {
        self.network
    }

    pub fn id(&self) -> (r: &String)
        ensures
            r@ == self@.id,
    {
        &self.id
    }

    pub fn is_peg_out_initiated(&self) -> (r: bool)
        ensures
            r == self@.peg_out_chain_event is Some,
    {
        self.peg_out_chain_event.is_some()
    }

    /// Picks, out of `all_events`, the events that request this graph's
    /// peg-out (same peg-in confirm txid, same operator key) and takes them
    /// out of the list, keeping the order of the rest. One match is stored on
    /// the graph and returned; several are refused.
    pub fn match_and_set_peg_out_event(&mut self, all_events: &mut Vec<PegOutEvent>) -> (r: Result<Option<PegOutEvent>, String>)
        ensures
            event_views(final(all_events)@) == event_views(old(all_events)@).filter(
                |e: PegOutEventView| !event_matches(old(self)@, e),
            ),
            ({
                let matched = event_views(old(all_events)@).filter(
                    |e: PegOutEventView| event_matches(old(self)@, e),
                );
                &&& matched.len() == 0 ==> (r matches Ok(None) && final(self)@ == old(self)@)
                &&& matched.len() == 1 ==> (r matches Ok(Some(e)) && e@ == matched[0]
                    && final(self)@ == (PegOutGraphView { peg_out_chain_event: Some(matched[0]), ..old(self)@ }))
                &&& matched.len() > 1 ==> (r matches Err(msg) && msg@ == "Event from L2 chain is not unique"@
                    && final(self)@ == old(self)@)
            }),
            final(self).wf() == old(self).wf(),
    {
        let ghost evs = event_views(all_events@);
        let ghost g = self@;
        let mut kept: Vec<PegOutEvent> = Vec::new();
        let mut matched: Vec<PegOutEvent> = Vec::new();
        let mut i: usize = 0;
        while i < all_events.len()
            invariant
                evs == event_views(all_events@),
                g == self@,
                i <= all_events@.len(),
                event_views(kept@) == evs.take(i as int).filter(|e: PegOutEventView| !event_matches(g, e)),
                event_views(matched@) == evs.take(i as int).filter(|e: PegOutEventView| event_matches(g, e)),
            decreases all_events@.len() - i,
        {
            let e = &all_events[i];
            proof {
                reveal(Seq::filter);
                assert(evs.take(i + 1).drop_last() =~= evs.take(i as int));
                assert(evs.take(i + 1).last() == e@);
            }
            if same_txid(&e.source_outpoint.txid, &self.peg_in_confirm_txid) && same_bytes(&e.operator_public_key, &self.operator_public_key) {
                matched.push(e.copy());
                assert(event_views(matched@) =~= evs.take(i + 1).filter(|e: PegOutEventView| event_matches(g, e)));
                assert(event_views(kept@) =~= evs.take(i + 1).filter(|e: PegOutEventView| !event_matches(g, e)));
            } else {
                kept.push(e.copy());
                assert(event_views(matched@) =~= evs.take(i + 1).filter(|e: PegOutEventView| event_matches(g, e)));
                assert(event_views(kept@) =~= evs.take(i + 1).filter(|e: PegOutEventView| !event_matches(g, e)));
            }
            i += 1;
        }
        assert(evs.take(evs.len() as int) =~= evs);
        *all_events = kept;
        if matched.len() == 0 {
            Ok(None)
        } else if matched.len() == 1 {
            assert(event_views(matched@)[0] == matched@[0]@);
            self.peg_out_chain_event = Some(matched[0].copy());
            Ok(Some(matched[0].copy()))
        } else {
            Err("Event from L2 chain is not unique".to_owned())
        }
    }

    pub fn verifier_status(&self, statuses: &PegOutStatuses, blockchain_height: u32) -> (r:
        PegOutVerifierStatus)
        ensures
            r == spec_verifier_status(
                self@.n_of_n_presigned,
                *statuses,
                blockchain_height,
                self@.timelocks,
            ),
    {
        project_verifier_status(self.n_of_n_presigned, statuses, blockchain_height, &self.timelocks)
    }

    pub fn operator_status(&self, statuses: &PegOutStatuses, blockchain_height: u32) -> (r:
        PegOutOperatorStatus)
        ensures
            r == spec_operator_status(
                self@.n_of_n_presigned,
                self@.peg_out_chain_event is Some,
                *statuses,
                blockchain_height,
                self@.timelocks,
            ),
    {
        project_operator_status(
            self.n_of_n_presigned,
            self.peg_out_chain_event.is_some(),
            statuses,
            blockchain_height,
            &self.timelocks,
        )
    }

    /// Decides `action` on one snapshot of the chain: nothing to do if its
    /// transaction is confirmed, else whether its preconditions hold.
    pub fn plan_action(&self, action: PegOutAction, statuses: &PegOutStatuses, blockchain_height: u32) -> (r: Result<ActionStep, ActionRefusal>)
        ensures
            r == spec_plan_action(
                action,
                self@.peg_out_chain_event is Some,
                *statuses,
                blockchain_height,
                self@.timelocks,
            ),
    {
        plan_action(action, self.peg_out_chain_event.is_some(), statuses, blockchain_height, &self.timelocks)
    }

    pub fn interpret_withdrawer_status(&self, peg_out_status: Option<TxObservation>) -> (r:
        PegOutWithdrawerStatus)
        ensures
            r == spec_withdrawer_status(peg_out_status),
    {
        project_withdrawer_status(&peg_out_status)
    }

    pub fn has_all_nonces(&self, verifier_pubkeys: &Vec<Vec<u8>>) -> (r: bool)
        requires
            self.wf(),
        ensures
            r == spec_has_all(self@.presign.nonces, key_views(verifier_pubkeys@)),
    {
        self.nonces.has_all(verifier_pubkeys)
    }

    pub fn has_all_signatures(&self, verifier_pubkeys: &Vec<Vec<u8>>) -> (r: bool)
        requires
            self.wf(),
        ensures
            r == spec_has_all(self@.presign.signatures, key_views(verifier_pubkeys@)),
    {
        self.signatures.has_all(verifier_pubkeys)
    }

    pub fn has_all_nonces_of(&self, verifier_pubkey: &Vec<u8>) -> (r: bool)
        requires
            self.wf(),
        ensures
            r == spec_has_all(self@.presign.nonces, seq![verifier_pubkey@]),
    {
        let v = vec![verifier_pubkey.clone()];
        assert(key_views(v@) =~= seq![verifier_pubkey@]);
        self.nonces.has_all(&v)
    }

    pub fn has_all_signatures_of(&self, verifier_pubkey: &Vec<u8>) -> (r: bool)
        requires
            self.wf(),
        ensures
            r == spec_has_all(self@.presign.signatures, seq![verifier_pubkey@]),
    {
        let v = vec![verifier_pubkey.clone()];
        assert(key_views(v@) =~= seq![verifier_pubkey@]);
        self.signatures.has_all(&v)
    }

    /// Once a set of signers that includes every n-of-n signer has signed
    /// every n-of-n input, the graph counts as pre-signed.
    pub proof fn lemma_all_signatures_presigned(&self, signers: Seq<Seq<u8>>)
        requires
            self.wf(),
            spec_has_all(self@.presign.signatures, signers),
            forall|i: int|
                0 <= i < self@.n_of_n_signers.len() ==> signers.contains(
                    #[trigger] self@.n_of_n_signers[i],
                ),
        ensures
            self@.n_of_n_presigned,
    {
        let nn = self@.n_of_n_signers;
        assert forall|t: PresignedTx| #[trigger] crate::presign::spec_has_all_for(self.signatures@, t, nn) by {
            assert forall|i: int, j: int|
                0 <= i < crate::presign::spec_presigned_inputs(t).len() && 0 <= j < nn.len() implies self.signatures@.contains_key(
                (t, #[trigger] crate::presign::spec_presigned_inputs(t)[i], #[trigger] nn[j]),
            ) by {
                assert(signers.contains(nn[j]));
                let m = choose|m: int| 0 <= m < signers.len() && signers[m] == nn[j];
                assert(crate::presign::spec_has_all_for(self.signatures@, t, signers));
                assert(self.signatures@.contains_key((t, crate::presign::spec_presigned_inputs(t)[i], signers[m])));
            }
        }
    }

    pub fn is_n_of_n_signer(&self, pubkey: &Vec<u8>) -> (r: bool)
        ensures
            r == self@.n_of_n_signers.contains(pubkey@),
    {
        let mut i: usize = 0;
        while i < self.n_of_n_signers.len()
            invariant
                i <= self.n_of_n_signers@.len(),
                forall|j: int| 0 <= j < i ==> #[trigger] self.n_of_n_signers@[j]@ != pubkey@,
            decreases self.n_of_n_signers@.len() - i,
        {
            if same_bytes(&self.n_of_n_signers[i], pubkey) {
                assert(self@.n_of_n_signers[i as int] == pubkey@);
                return true;
            }
            i += 1;
        }
        proof {
            if self@.n_of_n_signers.contains(pubkey@) {
                let j = choose|j: int| 0 <= j < self@.n_of_n_signers.len() && self@.n_of_n_signers[j] == pubkey@;
                assert(self.n_of_n_signers@[j]@ == pubkey@);
            }
        }
        false
    }

    /// First round of pre-signing: records, for each n-of-n input of each
    /// pre-signed transaction (in the order of `spec_slots`), the public
    /// nonce of the verifier's secret nonce. The secret nonces are drawn by
    /// the caller and stay with it for the second round.
    pub fn push_verifier_nonces(&mut self, verifier_pubkey: &Vec<u8>, secret_nonces: &Vec<Vec<u8>>) -> (r: Result<(), PegOutError>)
        requires
            old(self).wf(),
        ensures
            final(self).wf(),
            !old(self)@.n_of_n_signers.contains(verifier_pubkey@) ==> r == Err::<(), PegOutError>(PegOutError::UnknownSigner),
            old(self)@.n_of_n_signers.contains(verifier_pubkey@) && secret_nonces@.len() != SLOT_COUNT
                ==> r == Err::<(), PegOutError>(PegOutError::WrongContributionCount),
            old(self)@.n_of_n_signers.contains(verifier_pubkey@) && secret_nonces@.len() == SLOT_COUNT
                && (exists|k: int| 0 <= k < SLOT_COUNT && (#[trigger] public_nonce_of(secret_nonces@[k]@)) is None)
                ==> r == Err::<(), PegOutError>(PegOutError::InvalidSecretNonce),
            old(self)@.n_of_n_signers.contains(verifier_pubkey@) && secret_nonces@.len() == SLOT_COUNT
                && (forall|k: int| 0 <= k < SLOT_COUNT ==> (#[trigger] public_nonce_of(secret_nonces@[k]@)) is Some)
                ==> r is Ok,
            r is Err ==> final(self)@ == old(self)@,
            r is Ok ==> final(self)@ == (PegOutGraphView {
                presign: PresignView {
                    nonces: with_contributions(
                        old(self)@.presign.nonces,
                        verifier_pubkey@,
                        Seq::new(SLOT_COUNT as nat, |k: int| public_nonce_of(secret_nonces@[k]@)->Some_0),
                        SLOT_COUNT as nat,
                    ),
                    ..old(self)@.presign
                },
                ..old(self)@
            }),
    {
        if !self.is_n_of_n_signer(verifier_pubkey) {
            return Err(PegOutError::UnknownSigner);
        }
        if secret_nonces.len() != SLOT_COUNT {
            return Err(PegOutError::WrongContributionCount);
        }
        match public_nonces_of(secret_nonces) {
            Some(public_nonces) => {
                assert(key_views(public_nonces@) =~= Seq::new(SLOT_COUNT as nat, |k: int| public_nonce_of(secret_nonces@[k]@)->Some_0));
                self.nonces.set_all(verifier_pubkey, public_nonces);
                Ok(())
            },
            None => Err(PegOutError::InvalidSecretNonce),
        }
    }

    /// Second round of pre-signing: signs each n-of-n input of each
    /// pre-signed transaction (in the order of `spec_slots`) with musig2,
    /// using the verifier's secret key, its secret nonce of the first round
    /// and the input's signature hash (`messages`), and records the partial
    /// signatures. Refused until every n-of-n signer has published its
    /// nonces. The graph counts as pre-signed once every n-of-n signer has
    /// signed every such input.
    pub fn verifier_sign(
        &mut self,
        verifier_pubkey: &Vec<u8>,
        secret_key: &Vec<u8>,
        secret_nonces: &Vec<Vec<u8>>,
        messages: &Vec<Vec<u8>>,
    ) -> (r: Result<(), PegOutError>)
        requires
            old(self).wf(),
        ensures
            final(self).wf(),
            !old(self)@.n_of_n_signers.contains(verifier_pubkey@) ==> r == Err::<(), PegOutError>(PegOutError::UnknownSigner),
            old(self)@.n_of_n_signers.contains(verifier_pubkey@) && !spec_has_all(old(self)@.presign.nonces, old(self)@.n_of_n_signers)
                ==> r == Err::<(), PegOutError>(PegOutError::NoncesMissing),
            old(self)@.n_of_n_signers.contains(verifier_pubkey@) && spec_has_all(old(self)@.presign.nonces, old(self)@.n_of_n_signers)
                && (secret_nonces@.len() != SLOT_COUNT || messages@.len() != SLOT_COUNT)
                ==> r == Err::<(), PegOutError>(PegOutError::WrongContributionCount),
            old(self)@.n_of_n_signers.contains(verifier_pubkey@) && spec_has_all(old(self)@.presign.nonces, old(self)@.n_of_n_signers)
                && secret_nonces@.len() == SLOT_COUNT && messages@.len() == SLOT_COUNT
                && (exists|k: int| 0 <= k < SLOT_COUNT && (#[trigger] spec_slot_partial(old(self)@, secret_key@, key_views(secret_nonces@), key_views(messages@), k)) is None)
                ==> r == Err::<(), PegOutError>(PegOutError::SigningFailed),
            old(self)@.n_of_n_signers.contains(verifier_pubkey@) && spec_has_all(old(self)@.presign.nonces, old(self)@.n_of_n_signers)
                && secret_nonces@.len() == SLOT_COUNT && messages@.len() == SLOT_COUNT
                && (forall|k: int| 0 <= k < SLOT_COUNT ==> (#[trigger] spec_slot_partial(old(self)@, secret_key@, key_views(secret_nonces@), key_views(messages@), k)) is Some)
                ==> r is Ok,
            r is Err ==> final(self)@ == old(self)@,
            r is Ok ==> {
                let signatures = with_contributions(
                    old(self)@.presign.signatures,
                    verifier_pubkey@,
                    Seq::new(
                        SLOT_COUNT as nat,
                        |k: int| spec_slot_partial(old(self)@, secret_key@, key_views(secret_nonces@), key_views(messages@), k)->Some_0,
                    ),
                    SLOT_COUNT as nat,
                );
                final(self)@ == (PegOutGraphView {
                    presign: PresignView { signatures, ..old(self)@.presign },
                    n_of_n_presigned: spec_has_all(signatures, old(self)@.n_of_n_signers),
                    ..old(self)@
                })
            },
    {
        if !self.is_n_of_n_signer(verifier_pubkey) {
            return Err(PegOutError::UnknownSigner);
        }
        if !self.nonces.has_all(&self.n_of_n_signers) {
            return Err(PegOutError::NoncesMissing);
        }
        if secret_nonces.len() != SLOT_COUNT || messages.len() != SLOT_COUNT {
            return Err(PegOutError::WrongContributionCount);
        }
        let ghost g = self@;
        let ghost sn = key_views(secret_nonces@);
        let ghost ms = key_views(messages@);
        let slots = all_slots();
        let mut sigs: Vec<Vec<u8>> = Vec::new();
        let mut k: usize = 0;
        while k < SLOT_COUNT
            invariant
                self.wf(),
                self@ == g,
                g.n_of_n_signers.contains(verifier_pubkey@),
                spec_has_all(g.presign.nonces, g.n_of_n_signers),
                slots@ == spec_slots(),
                secret_nonces@.len() == SLOT_COUNT,
                messages@.len() == SLOT_COUNT,
                sn == key_views(secret_nonces@),
                ms == key_views(messages@),
                k <= SLOT_COUNT,
                sigs@.len() == k,
                forall|j: int| 0 <= j < k ==> Some((#[trigger] sigs@[j])@) == spec_slot_partial(g, secret_key@, sn, ms, j),
            decreases SLOT_COUNT - k,
        {
            let (t, i) = slots[k];
            let nonce = match self.aggregated_nonce(t, i) {
                Some(n) => n,
                None => {
                    assert(spec_slot_partial(g, secret_key@, sn, ms, k as int) is None);
                    return Err(PegOutError::SigningFailed);
                },
            };
            proof {
                assert(g.n_of_n_signers.len() > 0);
                assert(sn[k as int] == secret_nonces@[k as int]@);
                assert(ms[k as int] == messages@[k as int]@);
            }
            match sign_partial(&self.n_of_n_signers, secret_key, &secret_nonces[k], &nonce, &messages[k]) {
                Some(sig) => sigs.push(sig),
                None => {
                    assert(spec_slot_partial(g, secret_key@, sn, ms, k as int) is None);
                    return Err(PegOutError::SigningFailed);
                },
            }
            k += 1;
        }
        assert forall|j: int| 0 <= j < SLOT_COUNT implies (#[trigger] spec_slot_partial(g, secret_key@, sn, ms, j)) is Some by {
            assert(Some(sigs@[j]@) == spec_slot_partial(g, secret_key@, sn, ms, j));
        }
        assert(key_views(sigs@) =~= Seq::new(
            SLOT_COUNT as nat,
            |k: int| spec_slot_partial(g, secret_key@, sn, ms, k)->Some_0,
        ));
        self.signatures.set_all(verifier_pubkey, sigs);
        self.n_of_n_presigned = self.signatures.has_all(&self.n_of_n_signers);
        Ok(())
    }

    /// The contribution of every n-of-n signer, in the order of the signer
    /// set, for input `input` of `tx`; `None` while one is missing.
    fn contributions(&self, records: &SignerRecords, tx: PresignedTx, input: u32) -> (r: Option<Vec<Vec<u8>>>)
        requires
            records.wf(),
        ensures
            r is None <==> exists|j: int|
                0 <= j < self@.n_of_n_signers.len() && !records@.contains_key(
                    (tx, input, #[trigger] self@.n_of_n_signers[j]),
                ),
            r is Some ==> key_views(r->Some_0@) == Seq::new(
                self@.n_of_n_signers.len(),
                |j: int| records@[(tx, input, self@.n_of_n_signers[j])],
            ),
    {
        let ghost nn = self@.n_of_n_signers;
        let mut collected: Vec<Vec<u8>> = Vec::new();
        let mut j: usize = 0;
        while j < self.n_of_n_signers.len()
            invariant
                records.wf(),
                nn == self@.n_of_n_signers,
                j <= nn.len(),
                collected@.len() == j,
                forall|a: int| 0 <= a < j ==> records@.contains_key((tx, input, #[trigger] nn[a])),
                forall|a: int| 0 <= a < j ==> (#[trigger] collected@[a])@ == records@[(tx, input, nn[a])],
            decreases nn.len() - j,
        {
            assert(nn[j as int] == self.n_of_n_signers@[j as int]@);
            match records.get(tx, input, &self.n_of_n_signers[j]) {
                Some(n) => {
                    let c = n.clone();
                    assert(c@ =~= n@);
                    collected.push(c);
                },
                None => {
                    return None;
                },
            }
            j += 1;
        }
        assert(key_views(collected@) =~= Seq::new(
            nn.len(),
            |j: int| records@[(tx, input, nn[j])],
        ));
        Some(collected)
    }

    /// The sum of the n-of-n signers' public nonces (in the order of the
    /// signer set) for input `input` of `tx`, which every signer needs for its
    /// partial signature; `None` while a nonce is missing or where musig2
    /// refuses one.
    pub fn aggregated_nonce(&self, tx: PresignedTx, input: u32) -> (r: Option<Vec<u8>>)
        requires
            self.wf(),
        ensures
            opt_bytes(r) == spec_aggregated_nonce(self@, tx, input),
    {
        match self.contributions(&self.nonces, tx, input) {
            Some(nonces) => sum_public_nonces(&nonces),
            None => None,
        }
    }

    /// The final signature of input `input` of `tx` over `message` (the
    /// input's signature hash): the n-of-n signers' partial signatures
    /// aggregated with their summed nonces. `None` while a nonce or a partial
    /// signature is missing, or where musig2 refuses the aggregate.
    pub fn aggregated_signature(&self, tx: PresignedTx, input: u32, message: &Vec<u8>) -> (r: Option<Vec<u8>>)
        requires
            self.wf(),
        ensures
            opt_bytes(r) == spec_aggregated_signature(self@, tx, input, message@),
    {
        if self.n_of_n_signers.len() == 0 {
            return None;
        }
        let nonce = match self.aggregated_nonce(tx, input) {
            Some(n) => n,
            None => {
                return None;
            },
        };
        match self.contributions(&self.signatures, tx, input) {
            Some(sigs) => aggregate_signatures(&self.n_of_n_signers, &nonce, &sigs, message),
            None => None,
        }
    }

    /// Takes in the nonces and partial signatures of `source`, a copy of the
    /// same graph from another participant. Fails, changing nothing, where
    /// the two are different graphs or disagree on a contribution.
    pub fn merge(&mut self, source: &PegOutGraph) -> (r: Result<(), PegOutError>)
        requires
            old(self).wf(),
            source.wf(),
        ensures
            final(self).wf(),
            old(self)@.id != source@.id ==> r == Err::<(), PegOutError>(PegOutError::GraphMismatch),
            old(self)@.id == source@.id && spec_merge_presign(old(self)@.presign, source@.presign)
                is None ==> r == Err::<(), PegOutError>(PegOutError::MergeConflict),
            old(self)@.id == source@.id && spec_merge_presign(old(self)@.presign, source@.presign)
                is Some ==> r is Ok,
            r is Err ==> final(self)@ == old(self)@,
            r is Ok ==> {
                &&& old(self)@.id == source@.id
                &&& spec_merge_presign(old(self)@.presign, source@.presign) == Some(
                    final(self)@.presign,
                )
                &&& final(self)@ == (PegOutGraphView {
                    presign: final(self)@.presign,
                    n_of_n_presigned: spec_has_all(final(self)@.presign.signatures, old(self)@.n_of_n_signers),
                    ..old(self)@
                })
            },
    {
        if self.id != source.id {
            return Err(PegOutError::GraphMismatch);
        }
        if !self.nonces.consistent_with(&source.nonces) || !self.signatures.consistent_with(
            &source.signatures,
        ) {
            return Err(PegOutError::MergeConflict);
        }
        self.nonces.absorb(&source.nonces);
        self.signatures.absorb(&source.signatures);
        self.n_of_n_presigned = self.signatures.has_all(&self.n_of_n_signers);
        Ok(())
    }
}

} // verus!
