use vstd::prelude::*;

verus! {

/// What the chain client reports of one transaction.
#[derive(Clone, Copy, Debug, PartialEq, Eq, Structural)]
pub struct TxStatus {
    pub confirmed: bool,
    pub block_height: Option<u32>,
}

/// One observation of a transaction: the status that the chain client
/// reported, or `Unavailable` where the query failed.
#[derive(Clone, Copy, Debug, PartialEq, Eq, Structural)]
pub enum TxObservation {
    Reported(TxStatus),
    Unavailable,
}

/// The observation reports the transaction as confirmed.
pub open spec fn spec_confirmed(o: TxObservation) -> bool {
    o is Reported && o->Reported_0.confirmed
}

/// The observation reports the transaction as not confirmed (a failed query
/// reports nothing).
pub open spec fn spec_unconfirmed(o: TxObservation) -> bool {
    o is Reported && !o->Reported_0.confirmed
}

pub fn confirmed(o: &TxObservation) -> (r: bool)
    ensures
        r == spec_confirmed(*o),
{
    match o {
        TxObservation::Reported(s) => s.confirmed,
        TxObservation::Unavailable => false,
    }
}

pub fn unconfirmed(o: &TxObservation) -> (r: bool)
    ensures
        r == spec_unconfirmed(*o),
{
    match o {
        TxObservation::Reported(s) => !s.confirmed,
        TxObservation::Unavailable => false,
    }
}

/// The transaction was confirmed at a known height `h` with `h + timelock > now`:
/// the timelock that started with it has not run out yet.
pub open spec fn spec_timelock_pending(o: TxObservation, timelock: u32, now: u32) -> bool {
    &&& o is Reported
    &&& o->Reported_0.block_height is Some
    &&& o->Reported_0.block_height->Some_0 + timelock > now
}

/// The transaction was confirmed at a known height `h` with `h + timelock <= now`:
/// the timelock that started with it has run out.
pub open spec fn spec_timelock_elapsed(o: TxObservation, timelock: u32, now: u32) -> bool {
    &&& o is Reported
    &&& o->Reported_0.block_height is Some
    &&& o->Reported_0.block_height->Some_0 + timelock <= now
}

pub fn timelock_pending(o: &TxObservation, timelock: u32, now: u32) -> (r: bool)
    ensures
        r == spec_timelock_pending(*o, timelock, now),
{
    match o {
        TxObservation::Reported(TxStatus { block_height: Some(h), .. }) => (*h as u64) + (timelock as u64) > now as u64,
        _ => false,
    }
}

pub fn timelock_elapsed(o: &TxObservation, timelock: u32, now: u32) -> (r: bool)
    ensures
        r == spec_timelock_elapsed(*o, timelock, now),
{
    match o {
        TxObservation::Reported(TxStatus { block_height: Some(h), .. }) => (*h as u64) + (timelock as u64) <= now as u64,
        _ => false,
    }
}

/// The timelocks, in blocks, that the graph's connectors declare.
#[derive(Clone, Copy, Debug, PartialEq, Eq, Structural)]
pub struct Timelocks {
    pub connector_1_leaf_0: u32,
    pub connector_1_leaf_1: u32,
    pub connector_1_leaf_2: u32,
    pub connector_3: u32,
    pub connector_4: u32,
    pub connector_b_1: u32,
}

/// One snapshot of what the chain reports of every transaction of the graph.
/// `peg_out` is `None` when the graph holds no peg-out transaction.
#[derive(Clone, Copy, Debug, PartialEq, Eq, Structural)]
pub struct PegOutStatuses {
    pub assert_initial: TxObservation,
    pub assert_final: TxObservation,
    pub challenge: TxObservation,
    pub disprove_chain: TxObservation,
    pub disprove: TxObservation,
    pub peg_out_confirm: TxObservation,
    pub kick_off_1: TxObservation,
    pub kick_off_2: TxObservation,
    pub kick_off_timeout: TxObservation,
    pub peg_out: Option<TxObservation>,
    pub start_time_timeout: TxObservation,
    pub start_time: TxObservation,
    pub take_1: TxObservation,
    pub take_2: TxObservation,
    pub peg_in_confirm: TxObservation,
}

#[derive(Clone, Copy, Debug, PartialEq, Eq, Structural)]
pub enum PegOutWithdrawerStatus {
    PegOutNotStarted,
    PegOutWait,
    PegOutComplete,
}

#[derive(Clone, Copy, Debug, PartialEq, Eq, Structural)]
pub enum PegOutVerifierStatus {
    PegOutPresign,
    PegOutComplete,
    PegOutWait,
    PegOutChallengeAvailable,
    PegOutStartTimeTimeoutAvailable,
    PegOutKickOffTimeoutAvailable,
    PegOutDisproveChainAvailable,
    PegOutDisproveAvailable,
    PegOutFailed,
}

#[derive(Clone, Copy, Debug, PartialEq, Eq, Structural)]
pub enum PegOutOperatorStatus {
    PegOutWait,
    PegOutComplete,
    PegOutFailed,
    PegOutStartPegOut,
    PegOutPegOutConfirmAvailable,
    PegOutKickOff1Available,
    PegOutStartTimeAvailable,
    PegOutKickOff2Available,
    PegOutAssertAvailable,
    PegOutTake1Available,
    PegOutTake2Available,
}

impl PegOutWithdrawerStatus {
    /// The line shown to the user for this status.
    pub open spec fn spec_message(self) -> Seq<char> {
        match self {
            PegOutWithdrawerStatus::PegOutNotStarted => "Peg-out available. Request peg-out?"@,
            PegOutWithdrawerStatus::PegOutWait => "No action available. Wait..."@,
            PegOutWithdrawerStatus::PegOutComplete => "Peg-out complete. Done."@,
        }
    }

    pub fn message(&self) -> (r: &'static str)
        ensures
            r@ == self.spec_message(),
    {
        match self {
            PegOutWithdrawerStatus::PegOutNotStarted => "Peg-out available. Request peg-out?",
            PegOutWithdrawerStatus::PegOutWait => "No action available. Wait...",
            PegOutWithdrawerStatus::PegOutComplete => "Peg-out complete. Done.",
        }
    }
}

impl PegOutVerifierStatus {
    /// The line shown to the user for this status.
    pub open spec fn spec_message(self) -> Seq<char> {
        match self {
            PegOutVerifierStatus::PegOutPresign => "Signatures required. Presign peg-out transactions?"@,
            PegOutVerifierStatus::PegOutComplete => "Peg-out complete, reimbursement succeded. Done."@,
            PegOutVerifierStatus::PegOutWait => "No action available. Wait..."@,
            PegOutVerifierStatus::PegOutChallengeAvailable => "Kick-off 1 transaction confirmed, dispute available. Broadcast challenge transaction?"@,
            PegOutVerifierStatus::PegOutStartTimeTimeoutAvailable => "Start time timed out. Broadcast timeout transaction?"@,
            PegOutVerifierStatus::PegOutKickOffTimeoutAvailable => "Kick-off 1 timed out. Broadcast timeout transaction?"@,
            PegOutVerifierStatus::PegOutDisproveChainAvailable => "Kick-off 2 transaction confirmed. Broadcast disprove chain transaction?"@,
            PegOutVerifierStatus::PegOutDisproveAvailable => "Assert transaction confirmed. Broadcast disprove transaction?"@,
            PegOutVerifierStatus::PegOutFailed => "Peg-out complete, reimbursement failed. Done."@,
        }
    }

    pub fn message(&self) -> (r: &'static str)
        ensures
            r@ == self.spec_message(),
    {
        match self {
            PegOutVerifierStatus::PegOutPresign => "Signatures required. Presign peg-out transactions?",
            PegOutVerifierStatus::PegOutComplete => "Peg-out complete, reimbursement succeded. Done.",
            PegOutVerifierStatus::PegOutWait => "No action available. Wait...",
            PegOutVerifierStatus::PegOutChallengeAvailable => "Kick-off 1 transaction confirmed, dispute available. Broadcast challenge transaction?",
            PegOutVerifierStatus::PegOutStartTimeTimeoutAvailable => "Start time timed out. Broadcast timeout transaction?",
            PegOutVerifierStatus::PegOutKickOffTimeoutAvailable => "Kick-off 1 timed out. Broadcast timeout transaction?",
            PegOutVerifierStatus::PegOutDisproveChainAvailable => "Kick-off 2 transaction confirmed. Broadcast disprove chain transaction?",
            PegOutVerifierStatus::PegOutDisproveAvailable => "Assert transaction confirmed. Broadcast disprove transaction?",
            PegOutVerifierStatus::PegOutFailed => "Peg-out complete, reimbursement failed. Done.",
        }
    }
}

impl PegOutOperatorStatus {
    /// The line shown to the user for this status.
    pub open spec fn spec_message(self) -> Seq<char> {
        match self {
            PegOutOperatorStatus::PegOutWait => "No action available. Wait..."@,
            PegOutOperatorStatus::PegOutComplete => "Peg-out complete, reimbursement succeded. Done."@,
            PegOutOperatorStatus::PegOutFailed => "Peg-out complete, reimbursement failed. Done."@,
            PegOutOperatorStatus::PegOutStartPegOut => "Peg-out requested. Create and broadcast peg-out transaction?"@,
            PegOutOperatorStatus::PegOutPegOutConfirmAvailable => "Peg-out confirmed. Broadcast peg-out-confirm transaction?"@,
            PegOutOperatorStatus::PegOutKickOff1Available => "Peg-out-confirm confirmed. Broadcast kick-off 1 transaction?"@,
            PegOutOperatorStatus::PegOutStartTimeAvailable => "Kick-off confirmed. Broadcast start time transaction?"@,
            PegOutOperatorStatus::PegOutKickOff2Available => "Start time confirmed. Broadcast kick-off 2 transaction?"@,
            PegOutOperatorStatus::PegOutAssertAvailable => "Dispute raised. Broadcast assert transaction?"@,
            PegOutOperatorStatus::PegOutTake1Available => "Dispute timed out, reimbursement available. Broadcast take 1 transaction?"@,
            PegOutOperatorStatus::PegOutTake2Available => "Dispute timed out, reimbursement available. Broadcast take 2 transaction?"@,
        }
    }

    pub fn message(&self) -> (r: &'static str)
        ensures
            r@ == self.spec_message(),
    {
        match self {
            PegOutOperatorStatus::PegOutWait => "No action available. Wait...",
            PegOutOperatorStatus::PegOutComplete => "Peg-out complete, reimbursement succeded. Done.",
            PegOutOperatorStatus::PegOutFailed => "Peg-out complete, reimbursement failed. Done.",
            PegOutOperatorStatus::PegOutStartPegOut => "Peg-out requested. Create and broadcast peg-out transaction?",
            PegOutOperatorStatus::PegOutPegOutConfirmAvailable => "Peg-out confirmed. Broadcast peg-out-confirm transaction?",
            PegOutOperatorStatus::PegOutKickOff1Available => "Peg-out-confirm confirmed. Broadcast kick-off 1 transaction?",
            PegOutOperatorStatus::PegOutStartTimeAvailable => "Kick-off confirmed. Broadcast start time transaction?",
            PegOutOperatorStatus::PegOutKickOff2Available => "Start time confirmed. Broadcast kick-off 2 transaction?",
            PegOutOperatorStatus::PegOutAssertAvailable => "Dispute raised. Broadcast assert transaction?",
            PegOutOperatorStatus::PegOutTake1Available => "Dispute timed out, reimbursement available. Broadcast take 1 transaction?",
            PegOutOperatorStatus::PegOutTake2Available => "Dispute timed out, reimbursement available. Broadcast take 2 transaction?",
        }
    }
}

/// The withdrawer's view: no peg-out transaction yet, one that waits, or one
/// that is confirmed.
pub open spec fn spec_withdrawer_status(peg_out: Option<TxObservation>) -> PegOutWithdrawerStatus {
    match peg_out {
        None => PegOutWithdrawerStatus::PegOutNotStarted,
        Some(o) => if spec_confirmed(o) {
            PegOutWithdrawerStatus::PegOutComplete
        } else {
            PegOutWithdrawerStatus::PegOutWait
        },
    }
}

/// The verifier's decision tree, evaluated top-down; the first match wins.
/// A failed query counts neither as confirmed nor as unconfirmed, so it never
/// makes an action available.
pub open spec fn spec_verifier_status(
    presigned: bool,
    s: PegOutStatuses,
    now: u32,
    t: Timelocks,
) -> PegOutVerifierStatus {
    if !presigned {
        PegOutVerifierStatus::PegOutPresign
    } else if spec_confirmed(s.kick_off_2) {
        if spec_confirmed(s.take_1) || spec_confirmed(s.take_2) {
            PegOutVerifierStatus::PegOutComplete
        } else if spec_confirmed(s.disprove) || spec_confirmed(s.disprove_chain) {
            PegOutVerifierStatus::PegOutFailed
        } else if spec_confirmed(s.assert_final) {
            PegOutVerifierStatus::PegOutDisproveAvailable
        } else {
            PegOutVerifierStatus::PegOutDisproveChainAvailable
        }
    } else if spec_confirmed(s.kick_off_1) {
        if spec_confirmed(s.start_time_timeout) || spec_confirmed(s.kick_off_timeout) {
            PegOutVerifierStatus::PegOutFailed
        } else if spec_unconfirmed(s.start_time) && spec_timelock_pending(
            s.kick_off_1,
            t.connector_1_leaf_2,
            now,
        ) {
            PegOutVerifierStatus::PegOutStartTimeTimeoutAvailable
        } else if spec_timelock_pending(s.kick_off_1, t.connector_1_leaf_1, now) {
            PegOutVerifierStatus::PegOutKickOffTimeoutAvailable
        } else if spec_unconfirmed(s.challenge) {
            PegOutVerifierStatus::PegOutChallengeAvailable
        } else {
            PegOutVerifierStatus::PegOutWait
        }
    } else {
        PegOutVerifierStatus::PegOutWait
    }
}

/// The operator's decision tree once the n-of-n signatures are in and the
/// peg-out has been requested on the destination chain. A terminal outcome
/// (take or disprove confirmed) comes before any action; among actions the
/// earliest reachable one wins. A failed query of an existing peg-out
/// transaction gives `PegOutWait`.
pub open spec fn spec_operator_progress(s: PegOutStatuses, now: u32, t: Timelocks) -> PegOutOperatorStatus {
    if s.peg_out is None || spec_unconfirmed(s.peg_out->Some_0) {
        PegOutOperatorStatus::PegOutStartPegOut
    } else if !spec_confirmed(s.peg_out->Some_0) {
        PegOutOperatorStatus::PegOutWait
    } else if spec_confirmed(s.kick_off_2) {
        if spec_confirmed(s.take_1) || spec_confirmed(s.take_2) {
            PegOutOperatorStatus::PegOutComplete
        } else if spec_confirmed(s.disprove_chain) || spec_confirmed(s.disprove) {
            PegOutOperatorStatus::PegOutFailed
        } else if spec_confirmed(s.challenge) {
            if spec_confirmed(s.assert_final) {
                if spec_timelock_elapsed(s.assert_final, t.connector_4, now) {
                    PegOutOperatorStatus::PegOutTake2Available
                } else {
                    PegOutOperatorStatus::PegOutWait
                }
            } else if spec_timelock_elapsed(s.kick_off_2, t.connector_b_1, now) {
                PegOutOperatorStatus::PegOutAssertAvailable
            } else {
                PegOutOperatorStatus::PegOutWait
            }
        } else if spec_timelock_elapsed(s.kick_off_2, t.connector_3, now) {
            PegOutOperatorStatus::PegOutTake1Available
        } else {
            PegOutOperatorStatus::PegOutWait
        }
    } else if spec_confirmed(s.kick_off_1) {
        if spec_confirmed(s.start_time_timeout) || spec_confirmed(s.kick_off_timeout) {
            PegOutOperatorStatus::PegOutFailed
        } else if spec_confirmed(s.start_time) {
            if spec_timelock_elapsed(s.kick_off_1, t.connector_1_leaf_0, now) {
                PegOutOperatorStatus::PegOutKickOff2Available
            } else {
                PegOutOperatorStatus::PegOutWait
            }
        } else {
            PegOutOperatorStatus::PegOutStartTimeAvailable
        }
    } else if spec_confirmed(s.peg_out_confirm) {
        PegOutOperatorStatus::PegOutKickOff1Available
    } else {
        PegOutOperatorStatus::PegOutPegOutConfirmAvailable
    }
}

pub open spec fn spec_operator_status(
    presigned: bool,
    initiated: bool,
    s: PegOutStatuses,
    now: u32,
    t: Timelocks,
) -> PegOutOperatorStatus {
    if presigned && initiated {
        spec_operator_progress(s, now, t)
    } else {
        PegOutOperatorStatus::PegOutWait
    }
}

pub fn project_withdrawer_status(peg_out: &Option<TxObservation>) -> (r: PegOutWithdrawerStatus)
    ensures
        r == spec_withdrawer_status(*peg_out),
{
    match peg_out {
        None => PegOutWithdrawerStatus::PegOutNotStarted,
        Some(o) => if confirmed(o) {
            PegOutWithdrawerStatus::PegOutComplete
        } else {
            PegOutWithdrawerStatus::PegOutWait
        },
    }
}

/// The verifier's next action, or `PegOutWait`; total on every snapshot.
pub fn project_verifier_status(
    presigned: bool,
    s: &PegOutStatuses,
    now: u32,
    t: &Timelocks,
) -> (r: PegOutVerifierStatus)
    ensures
        r == spec_verifier_status(presigned, *s, now, *t),
{
    if !presigned {
        PegOutVerifierStatus::PegOutPresign
    } else if confirmed(&s.kick_off_2) {
        if confirmed(&s.take_1) || confirmed(&s.take_2) {
            PegOutVerifierStatus::PegOutComplete
        } else if confirmed(&s.disprove) || confirmed(&s.disprove_chain) {
            PegOutVerifierStatus::PegOutFailed
        } else if confirmed(&s.assert_final) {
            PegOutVerifierStatus::PegOutDisproveAvailable
        } else {
            PegOutVerifierStatus::PegOutDisproveChainAvailable
        }
    } else if confirmed(&s.kick_off_1) {
        if confirmed(&s.start_time_timeout) || confirmed(&s.kick_off_timeout) {
            PegOutVerifierStatus::PegOutFailed
        } else if unconfirmed(&s.start_time) && timelock_pending(
            &s.kick_off_1,
            t.connector_1_leaf_2,
            now,
        ) {
            PegOutVerifierStatus::PegOutStartTimeTimeoutAvailable
        } else if timelock_pending(&s.kick_off_1, t.connector_1_leaf_1, now) {
            PegOutVerifierStatus::PegOutKickOffTimeoutAvailable
        } else if unconfirmed(&s.challenge) {
            PegOutVerifierStatus::PegOutChallengeAvailable
        } else {
            PegOutVerifierStatus::PegOutWait
        }
    } else {
        PegOutVerifierStatus::PegOutWait
    }
}

/// The operator's next action, or `PegOutWait`; total on every snapshot.
pub fn project_operator_status(
    presigned: bool,
    initiated: bool,
    s: &PegOutStatuses,
    now: u32,
    t: &Timelocks,
) -> (r: PegOutOperatorStatus)
    ensures
        r == spec_operator_status(presigned, initiated, *s, now, *t),
{
    if !(presigned && initiated) {
        return PegOutOperatorStatus::PegOutWait;
    }
    let (peg_out_missing, peg_out_confirmed) = match &s.peg_out {
        Some(o) => (unconfirmed(o), confirmed(o)),
        None => (true, false),
    };
    if peg_out_missing {
        PegOutOperatorStatus::PegOutStartPegOut
    } else if !peg_out_confirmed {
        PegOutOperatorStatus::PegOutWait
    } else if confirmed(&s.kick_off_2) {
        if confirmed(&s.take_1) || confirmed(&s.take_2) {
            PegOutOperatorStatus::PegOutComplete
        } else if confirmed(&s.disprove_chain) || confirmed(&s.disprove) {
            PegOutOperatorStatus::PegOutFailed
        } else if confirmed(&s.challenge) {
            if confirmed(&s.assert_final) {
                if timelock_elapsed(&s.assert_final, t.connector_4, now) {
                    PegOutOperatorStatus::PegOutTake2Available
                } else {
                    PegOutOperatorStatus::PegOutWait
                }
            } else if timelock_elapsed(&s.kick_off_2, t.connector_b_1, now) {
                PegOutOperatorStatus::PegOutAssertAvailable
            } else {
                PegOutOperatorStatus::PegOutWait
            }
        } else if timelock_elapsed(&s.kick_off_2, t.connector_3, now) {
            PegOutOperatorStatus::PegOutTake1Available
        } else {
            PegOutOperatorStatus::PegOutWait
        }
    } else if confirmed(&s.kick_off_1) {
        if confirmed(&s.start_time_timeout) || confirmed(&s.kick_off_timeout) {
            PegOutOperatorStatus::PegOutFailed
        } else if confirmed(&s.start_time) {
            if timelock_elapsed(&s.kick_off_1, t.connector_1_leaf_0, now) {
                PegOutOperatorStatus::PegOutKickOff2Available
            } else {
                PegOutOperatorStatus::PegOutWait
            }
        } else {
            PegOutOperatorStatus::PegOutStartTimeAvailable
        }
    } else if confirmed(&s.peg_out_confirm) {
        PegOutOperatorStatus::PegOutKickOff1Available
    } else {
        PegOutOperatorStatus::PegOutPegOutConfirmAvailable
    }
}

/// At `now == h + timelock` the timelock counts as run out and no longer as
/// pending; one block earlier it is pending and has not run out.
pub proof fn lemma_timelock_boundary(o: TxObservation, timelock: u32, now: u32)
    requires
        o is Reported,
        o->Reported_0.block_height is Some,
        o->Reported_0.block_height->Some_0 + timelock == now,
    ensures
        spec_timelock_elapsed(o, timelock, now),
        !spec_timelock_pending(o, timelock, now),
        now > 0 ==> spec_timelock_pending(o, timelock, (now - 1) as u32) && !spec_timelock_elapsed(
            o,
            timelock,
            (now - 1) as u32,
        ),
{
}

/// Once the peg-out has been requested and the graph is pre-signed, an
/// operator with no peg-out transaction yet is told to start the peg-out.
pub proof fn lemma_missing_peg_out_starts_peg_out(s: PegOutStatuses, now: u32, t: Timelocks)
    requires
        s.peg_out is None,
    ensures
        spec_operator_status(true, true, s, now, t) == PegOutOperatorStatus::PegOutStartPegOut,
{
}

/// A confirmed take wins over a confirmed disprove (or any other terminal):
/// once kick-off 2 is confirmed, both projections report completion.
pub proof fn lemma_take_precedes_disprove(s: PegOutStatuses, now: u32, t: Timelocks)
    requires
        spec_confirmed(s.kick_off_2),
        spec_confirmed(s.take_1) || spec_confirmed(s.take_2),
    ensures
        spec_verifier_status(true, s, now, t) == PegOutVerifierStatus::PegOutComplete,
        s.peg_out is Some && spec_confirmed(s.peg_out->Some_0) ==> spec_operator_status(
            true,
            true,
            s,
            now,
            t,
        ) == PegOutOperatorStatus::PegOutComplete,
{
}

} // verus!
