use vstd::prelude::*;

use crate::presign::PresignedTx;
use crate::transactions::{
    compute_txid, txid_of, GraphTransaction, Input, InputView, OutPoint, TemplateView,
    TransactionView, TxTemplate,
};

verus! {

/// The transactions of a peg-out graph, in an order where every transaction
/// comes after those whose outputs it spends.
#[derive(Clone, Copy, Debug, PartialEq, Eq, Structural)]
pub enum GraphTx {
    PegOutConfirm,
    KickOff1,
    StartTime,
    StartTimeTimeout,
    KickOff2,
    KickOffTimeout,
    Challenge,
    AssertInitial,
    AssertCommit1,
    AssertCommit2,
    AssertFinal,
    Disprove,
    DisproveChain,
    Take1,
    Take2,
}

pub const GRAPH_TX_COUNT: usize = 15;

impl GraphTx {
    pub open spec fn spec_index(self) -> int {
        match self {
            GraphTx::PegOutConfirm => 0,
            GraphTx::KickOff1 => 1,
            GraphTx::StartTime => 2,
            GraphTx::StartTimeTimeout => 3,
            GraphTx::KickOff2 => 4,
            GraphTx::KickOffTimeout => 5,
            GraphTx::Challenge => 6,
            GraphTx::AssertInitial => 7,
            GraphTx::AssertCommit1 => 8,
            GraphTx::AssertCommit2 => 9,
            GraphTx::AssertFinal => 10,
            GraphTx::Disprove => 11,
            GraphTx::DisproveChain => 12,
            GraphTx::Take1 => 13,
            GraphTx::Take2 => 14,
        }
    }

    pub fn index(self) -> (r: usize)
        ensures
            r == self.spec_index(),
            r < GRAPH_TX_COUNT,
    {
        match self {
            GraphTx::PegOutConfirm => 0,
            GraphTx::KickOff1 => 1,
            GraphTx::StartTime => 2,
            GraphTx::StartTimeTimeout => 3,
            GraphTx::KickOff2 => 4,
            GraphTx::KickOffTimeout => 5,
            GraphTx::Challenge => 6,
            GraphTx::AssertInitial => 7,
            GraphTx::AssertCommit1 => 8,
            GraphTx::AssertCommit2 => 9,
            GraphTx::AssertFinal => 10,
            GraphTx::Disprove => 11,
            GraphTx::DisproveChain => 12,
            GraphTx::Take1 => 13,
            GraphTx::Take2 => 14,
        }
    }

    /// The transaction spends an n-of-n output and must be pre-signed.
    pub open spec fn spec_requires_presign(self) -> bool {
        match self {
            GraphTx::AssertInitial | GraphTx::AssertFinal | GraphTx::Disprove
            | GraphTx::DisproveChain | GraphTx::KickOffTimeout | GraphTx::StartTimeTimeout
            | GraphTx::Take1 | GraphTx::Take2 => true,
            _ => false,
        }
    }

    pub fn requires_presign(self) -> (r: bool)
        ensures
            r == self.spec_requires_presign(),
    {
        match self {
            GraphTx::AssertInitial | GraphTx::AssertFinal | GraphTx::Disprove
            | GraphTx::DisproveChain | GraphTx::KickOffTimeout | GraphTx::StartTimeTimeout
            | GraphTx::Take1 | GraphTx::Take2 => true,
            _ => false,
        }
    }
}

impl PresignedTx {
    pub open spec fn spec_graph_tx(self) -> GraphTx {
        match self {
            PresignedTx::AssertInitial => GraphTx::AssertInitial,
            PresignedTx::AssertFinal => GraphTx::AssertFinal,
            PresignedTx::DisproveChain => GraphTx::DisproveChain,
            PresignedTx::Disprove => GraphTx::Disprove,
            PresignedTx::KickOffTimeout => GraphTx::KickOffTimeout,
            PresignedTx::StartTimeTimeout => GraphTx::StartTimeTimeout,
            PresignedTx::Take1 => GraphTx::Take1,
            PresignedTx::Take2 => GraphTx::Take2,
        }
    }
}

/// The graph transactions that need pre-signing are exactly those that the
/// pre-signing registry keeps: assert-initial, assert-final, disprove,
/// disprove-chain, kick-off-timeout, start-time-timeout, take 1 and take 2.
pub proof fn lemma_presigned_set(t: GraphTx)
    ensures
        t.spec_requires_presign() <==> exists|p: PresignedTx| #[trigger] p.spec_graph_tx() == t,
{
    if t.spec_requires_presign() {
        let p = match t {
            GraphTx::AssertInitial => PresignedTx::AssertInitial,
            GraphTx::AssertFinal => PresignedTx::AssertFinal,
            GraphTx::Disprove => PresignedTx::Disprove,
            GraphTx::DisproveChain => PresignedTx::DisproveChain,
            GraphTx::KickOffTimeout => PresignedTx::KickOffTimeout,
            GraphTx::StartTimeTimeout => PresignedTx::StartTimeTimeout,
            GraphTx::Take1 => PresignedTx::Take1,
            _ => PresignedTx::Take2,
        };
        assert(p.spec_graph_tx() == t);
    }
}

/// Where an input of a graph transaction comes from.
#[derive(Clone, Copy, Debug, PartialEq, Eq, Structural)]
pub enum InputSource {
    /// The outside funding of peg-out-confirm.
    Funding,
    /// An output of the peg-in graph's confirm transaction.
    PegInConfirm(u32),
    /// Output `vout` of the graph transaction of index `producer`.
    Output(usize, u32),
}

/// The inputs of graph transaction `k`, where assert-commit 1 and 2 spend
/// `n1` and `n2` outputs of assert-initial, after its first.
pub open spec fn spec_sources(k: int, n1: nat, n2: nat) -> Seq<InputSource> {
    if k == 0 {
        seq![InputSource::Funding]
    } else if k == 1 {
        seq![InputSource::Output(0, 0)]
    } else if k == 2 {
        seq![InputSource::Output(1, 2)]
    } else if k == 3 {
        seq![InputSource::Output(1, 2), InputSource::Output(1, 1)]
    } else if k == 4 || k == 5 {
        seq![InputSource::Output(1, 1)]
    } else if k == 6 {
        seq![InputSource::Output(1, 0)]
    } else if k == 7 {
        seq![InputSource::Output(4, 1)]
    } else if k == 8 {
        Seq::new(n1, |i: int| InputSource::Output(7, (1 + i) as u32))
    } else if k == 9 {
        Seq::new(n2, |i: int| InputSource::Output(7, (1 + n1 + i) as u32))
    } else if k == 10 {
        seq![InputSource::Output(7, 0), InputSource::Output(8, 0), InputSource::Output(9, 0)]
    } else if k == 11 {
        seq![InputSource::Output(10, 1), InputSource::Output(10, 2)]
    } else if k == 12 {
        seq![InputSource::Output(4, 1)]
    } else if k == 13 {
        seq![
            InputSource::PegInConfirm(0),
            InputSource::Output(1, 0),
            InputSource::Output(4, 0),
            InputSource::Output(4, 1),
        ]
    } else {
        seq![
            InputSource::PegInConfirm(0),
            InputSource::Output(10, 0),
            InputSource::Output(10, 1),
            InputSource::Output(10, 2),
        ]
    }
}

pub fn input_sources(k: usize, n1: usize, n2: usize) -> (r: Vec<InputSource>)
    requires
        k < GRAPH_TX_COUNT,
        1 + n1 + n2 <= u32::MAX,
    ensures
        r@ == spec_sources(k as int, n1 as nat, n2 as nat),
{
    if k == 8 || k == 9 {
        let (base, n) = if k == 8 { (1usize, n1) } else { (1 + n1, n2) };
        let mut r: Vec<InputSource> = Vec::new();
        let mut i: usize = 0;
        while i < n
            invariant
                i <= n,
                base + n <= u32::MAX,
                r@ =~= spec_sources(k as int, n1 as nat, n2 as nat).take(i as int),
                n == spec_sources(k as int, n1 as nat, n2 as nat).len(),
                k == 8 ==> base == 1 && n == n1,
                k == 9 ==> base == 1 + n1 && n == n2,
                k == 8 || k == 9,
            decreases n - i,
        {
            r.push(InputSource::Output(7, (base + i) as u32));
            i += 1;
        }
        return r;
    }
    let r = if k == 0 {
        vec![InputSource::Funding]
    } else if k == 1 {
        vec![InputSource::Output(0, 0)]
    } else if k == 2 {
        vec![InputSource::Output(1, 2)]
    } else if k == 3 {
        vec![InputSource::Output(1, 2), InputSource::Output(1, 1)]
    } else if k == 4 || k == 5 {
        vec![InputSource::Output(1, 1)]
    } else if k == 6 {
        vec![InputSource::Output(1, 0)]
    } else if k == 7 {
        vec![InputSource::Output(4, 1)]
    } else if k == 10 {
        vec![InputSource::Output(7, 0), InputSource::Output(8, 0), InputSource::Output(9, 0)]
    } else if k == 11 {
        vec![InputSource::Output(10, 1), InputSource::Output(10, 2)]
    } else if k == 12 {
        vec![InputSource::Output(4, 1)]
    } else if k == 13 {
        vec![
            InputSource::PegInConfirm(0),
            InputSource::Output(1, 0),
            InputSource::Output(4, 0),
            InputSource::Output(4, 1),
        ]
    } else {
        vec![
            InputSource::PegInConfirm(0),
            InputSource::Output(10, 0),
            InputSource::Output(10, 1),
            InputSource::Output(10, 2),
        ]
    };
    assert(r@ =~= spec_sources(k as int, n1 as nat, n2 as nat));
    r
}

/// What the linkage reads from outside the peg-out graph: the funding input
/// of peg-out-confirm, and the txid and first output amount of the peg-in
/// graph's confirm transaction.
#[derive(Clone, Copy, Debug)]
pub struct LinkageContext {
    pub funding: Input,
    pub peg_in_confirm_txid: [u8; 32],
    pub peg_in_confirm_amount: u64,
}

pub struct LinkageContextView {
    pub funding: InputView,
    pub peg_in_confirm_txid: Seq<u8>,
    pub peg_in_confirm_amount: u64,
}

impl View for LinkageContext {
    type V = LinkageContextView;

    open spec fn view(&self) -> LinkageContextView {
        LinkageContextView {
            funding: self.funding@,
            peg_in_confirm_txid: self.peg_in_confirm_txid@,
            peg_in_confirm_amount: self.peg_in_confirm_amount,
        }
    }
}

pub open spec fn template_views(t: Seq<TxTemplate>) -> Seq<TemplateView> {
    t.map_values(|x: TxTemplate| x@)
}

pub open spec fn transaction_views(t: Seq<GraphTransaction>) -> Seq<TransactionView> {
    t.map_values(|x: GraphTransaction| x@)
}

/// How many outputs of assert-initial assert-commit 1 spends.
pub open spec fn commit_1_width(templates: Seq<TemplateView>) -> nat {
    templates[8].sequences.len()
}

/// How many outputs of assert-initial assert-commit 2 spends.
pub open spec fn commit_2_width(templates: Seq<TemplateView>) -> nat {
    templates[9].sequences.len()
}

pub open spec fn sources_of(templates: Seq<TemplateView>, k: int) -> Seq<InputSource> {
    spec_sources(k, commit_1_width(templates), commit_2_width(templates))
}

/// The templates fit the linkage: one per graph transaction, one sequence
/// per input, and every spent output exists in an earlier transaction.
pub open spec fn spec_templates_fit(templates: Seq<TemplateView>) -> bool {
    &&& templates.len() == GRAPH_TX_COUNT
    &&& 1 + commit_1_width(templates) + commit_2_width(templates) <= u32::MAX
    &&& forall|k: int|
        0 <= k < GRAPH_TX_COUNT ==> (#[trigger] templates[k]).sequences.len() == sources_of(
            templates,
            k,
        ).len()
    &&& forall|k: int, i: int|
        0 <= k < GRAPH_TX_COUNT && 0 <= i < sources_of(templates, k).len() ==> match #[trigger] sources_of(templates, k)[i] {
            InputSource::Output(p, v) => p < k && v < templates[p as int].outputs.len(),
            _ => true,
        }
}

/// The input that a source gives, once the transactions before it are built.
pub open spec fn spec_resolve(
    ctx: LinkageContextView,
    templates: Seq<TemplateView>,
    built: Seq<TransactionView>,
    s: InputSource,
) -> InputView {
    match s {
        InputSource::Funding => ctx.funding,
        InputSource::PegInConfirm(v) => InputView {
            txid: ctx.peg_in_confirm_txid,
            vout: v,
            amount: ctx.peg_in_confirm_amount,
        },
        InputSource::Output(p, v) => InputView {
            txid: txid_of(built[p as int]),
            vout: v,
            amount: templates[p as int].outputs[v as int].value,
        },
    }
}

/// The first `n` graph transactions: each is its template with the inputs
/// that its sources give.
pub open spec fn spec_built(
    ctx: LinkageContextView,
    templates: Seq<TemplateView>,
    n: nat,
) -> Seq<TransactionView>
    decreases n,
{
    if n == 0 {
        Seq::empty()
    } else {
        let built = spec_built(ctx, templates, (n - 1) as nat);
        built.push(
            TransactionView {
                template: templates[n - 1],
                inputs: sources_of(templates, n - 1).map_values(
                    |s: InputSource| spec_resolve(ctx, templates, built, s),
                ),
            },
        )
    }
}

/// All graph transactions, fully determined by the context and the templates.
pub open spec fn spec_build(ctx: LinkageContextView, templates: Seq<TemplateView>) -> Seq<
    TransactionView,
> {
    spec_built(ctx, templates, GRAPH_TX_COUNT as nat)
}

pub fn templates_fit(templates: &Vec<TxTemplate>) -> (r: bool)
    ensures
        r == spec_templates_fit(template_views(templates@)),
{
    let ghost tv = template_views(templates@);
    if templates.len() != GRAPH_TX_COUNT {
        return false;
    }
    let n1 = templates[8].sequences.len();
    let n2 = templates[9].sequences.len();
    assert(n1 == commit_1_width(tv) && n2 == commit_2_width(tv));
    if n1 > 0xffff_fffe || n2 > 0xffff_fffe - n1 {
        return false;
    }
    let mut k: usize = 0;
    while k < GRAPH_TX_COUNT
        invariant
            templates@.len() == GRAPH_TX_COUNT,
            tv == template_views(templates@),
            n1 == commit_1_width(tv),
            n2 == commit_2_width(tv),
            1 + n1 + n2 <= u32::MAX,
            k <= GRAPH_TX_COUNT,
            forall|a: int| 0 <= a < k ==> (#[trigger] tv[a]).sequences.len() == sources_of(tv, a).len(),
            forall|a: int, i: int|
                0 <= a < k && 0 <= i < sources_of(tv, a).len() ==> match #[trigger] sources_of(tv, a)[i] {
                    InputSource::Output(p, v) => p < a && v < tv[p as int].outputs.len(),
                    _ => true,
                },
        decreases GRAPH_TX_COUNT - k,
    {
        let sources = input_sources(k, n1, n2);
        if templates[k].sequences.len() != sources.len() {
            assert(tv[k as int].sequences.len() != sources_of(tv, k as int).len());
            return false;
        }
        let mut i: usize = 0;
        while i < sources.len()
            invariant
                templates@.len() == GRAPH_TX_COUNT,
                tv == template_views(templates@),
                k < GRAPH_TX_COUNT,
                sources@ == sources_of(tv, k as int),
                i <= sources@.len(),
                forall|j: int| 0 <= j < i ==> match #[trigger] sources_of(tv, k as int)[j] {
                    InputSource::Output(p, v) => p < k && v < tv[p as int].outputs.len(),
                    _ => true,
                },
            decreases sources@.len() - i,
        {
            match sources[i] {
                InputSource::Output(p, v) => {
                    if p >= k || v as usize >= templates[p].outputs.len() {
                        proof {
                            if p < k {
                                assert(tv[p as int].outputs.len() == templates@[p as int].outputs@.len());
                            }
                            assert(match sources_of(tv, k as int)[i as int] {
                                InputSource::Output(p, v) => !(p < k && v < tv[p as int].outputs.len()),
                                _ => false,
                            });
                        }
                        return false;
                    }
                },
                _ => {},
            }
            i += 1;
        }
        k += 1;
    }
    true
}

/// The input that `source` gives, from the transactions built so far and
/// their txids.
fn resolve(
    ctx: &LinkageContext,
    templates: &Vec<TxTemplate>,
    built: &Vec<GraphTransaction>,
    txids: &Vec<[u8; 32]>,
    source: InputSource,
) -> (r: Input)
    requires
        built@.len() == txids@.len(),
        forall|j: int| 0 <= j < built@.len() ==> (#[trigger] txids@[j])@ == txid_of(built@[j]@),
        match source {
            InputSource::Output(p, v) => p < built@.len() && p < templates@.len() && v
                < templates@[p as int].outputs@.len(),
            _ => true,
        },
    ensures
        r@ == spec_resolve(ctx@, template_views(templates@), transaction_views(built@), source),
{
    match source {
        InputSource::Funding => ctx.funding,
        InputSource::PegInConfirm(v) => Input {
            outpoint: OutPoint { txid: ctx.peg_in_confirm_txid, vout: v },
            amount: ctx.peg_in_confirm_amount,
        },
        InputSource::Output(p, v) => {
            let r = Input {
                outpoint: OutPoint { txid: txids[p], vout: v },
                amount: templates[p].outputs[v as usize].value,
            };
            assert(template_views(templates@)[p as int].outputs[v as int] == templates@[p as int].outputs@[v as int]@);
            r
        },
    }
}

/// Builds every graph transaction from the context and the templates.
pub fn build_transactions(ctx: &LinkageContext, templates: &Vec<TxTemplate>) -> (r: Vec<GraphTransaction>)
    requires
        spec_templates_fit(template_views(templates@)),
    ensures
        transaction_views(r@) == spec_build(ctx@, template_views(templates@)),
{
    let ghost tv = template_views(templates@);
    let n1 = templates[8].sequences.len();
    let n2 = templates[9].sequences.len();
    assert(n1 == commit_1_width(tv) && n2 == commit_2_width(tv));
    let mut built: Vec<GraphTransaction> = Vec::new();
    let mut txids: Vec<[u8; 32]> = Vec::new();
    let mut k: usize = 0;
    while k < GRAPH_TX_COUNT
        invariant
            spec_templates_fit(tv),
            tv == template_views(templates@),
            n1 == commit_1_width(tv),
            n2 == commit_2_width(tv),
            k <= GRAPH_TX_COUNT,
            built@.len() == k,
            txids@.len() == k,
            forall|j: int| 0 <= j < k ==> (#[trigger] txids@[j])@ == txid_of(built@[j]@),
            transaction_views(built@) == spec_built(ctx@, tv, k as nat),
        decreases GRAPH_TX_COUNT - k,
    {
        let sources = input_sources(k, n1, n2);
        let ghost prefix = spec_built(ctx@, tv, k as nat);
        let mut inputs: Vec<Input> = Vec::new();
        let mut i: usize = 0;
        while i < sources.len()
            invariant
                spec_templates_fit(tv),
                tv == template_views(templates@),
                k < GRAPH_TX_COUNT,
                built@.len() == k,
                txids@.len() == k,
                forall|j: int| 0 <= j < k ==> (#[trigger] txids@[j])@ == txid_of(built@[j]@),
                transaction_views(built@) == prefix,
                sources@ == sources_of(tv, k as int),
                i <= sources@.len(),
                inputs@.len() == i,
                forall|j: int| 0 <= j < i ==> (#[trigger] inputs@[j])@ == spec_resolve(ctx@, tv, prefix, sources@[j]),
            decreases sources@.len() - i,
        {
            assert(match sources_of(tv, k as int)[i as int] {
                InputSource::Output(p, v) => p < k && v < tv[p as int].outputs.len(),
                _ => true,
            });
            let input = resolve(ctx, templates, &built, &txids, sources[i]);
            inputs.push(input);
            i += 1;
        }
        let tx = GraphTransaction { template: templates[k].copy(), inputs };
        assert(tx@.inputs =~= sources_of(tv, k as int).map_values(
            |s: InputSource| spec_resolve(ctx@, tv, prefix, s),
        ));
        let txid = compute_txid(&tx);
        built.push(tx);
        txids.push(txid);
        assert(transaction_views(built@) =~= spec_built(ctx@, tv, (k + 1) as nat));
        k += 1;
    }
    built
}

} // verus!
