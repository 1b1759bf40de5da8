use vstd::prelude::*;

use crate::status::{
    confirmed, spec_confirmed, spec_timelock_elapsed, timelock_elapsed, PegOutStatuses,
    Timelocks, TxObservation,
};

verus! {

/// The actions that drive a peg-out forward, one per graph transaction
/// (and the peg-out payment itself).
#[derive(Clone, Copy, Debug, PartialEq, Eq, Structural)]
pub enum PegOutAction {
    PegOut,
    PegOutConfirm,
    KickOff1,
    StartTime,
    StartTimeTimeout,
    KickOff2,
    KickOffTimeout,
    Challenge,
    AssertInitial,
    AssertFinal,
    Disprove,
    DisproveChain,
    Take1,
    Take2,
}

/// What to do for an action whose preconditions hold.
#[derive(Clone, Copy, Debug, PartialEq, Eq, Structural)]
pub enum ActionStep {
    /// The transaction is already confirmed: nothing to do.
    AlreadyConfirmed,
    /// Complete and broadcast the transaction.
    Broadcast,
}

/// Why an action cannot be taken yet; the caller may wait and retry.
#[derive(Clone, Copy, Debug, PartialEq, Eq, Structural)]
pub enum ActionRefusal {
    /// No peg-out has been requested on the destination chain.
    PegOutNotInitiated,
    /// No peg-out transaction has been created.
    PegOutNotCreated,
    /// A transaction that this one depends on is not confirmed.
    PredecessorUnconfirmed,
    /// A timelock that this transaction waits for has not run out.
    TimelockNotElapsed,
}

/// The observed status of the action's own transaction, if there is one.
pub open spec fn spec_own_status(a: PegOutAction, s: PegOutStatuses) -> Option<TxObservation> {
    match a {
        PegOutAction::PegOut => s.peg_out,
        PegOutAction::PegOutConfirm => Some(s.peg_out_confirm),
        PegOutAction::KickOff1 => Some(s.kick_off_1),
        PegOutAction::StartTime => Some(s.start_time),
        PegOutAction::StartTimeTimeout => Some(s.start_time_timeout),
        PegOutAction::KickOff2 => Some(s.kick_off_2),
        PegOutAction::KickOffTimeout => Some(s.kick_off_timeout),
        PegOutAction::Challenge => Some(s.challenge),
        PegOutAction::AssertInitial => Some(s.assert_initial),
        PegOutAction::AssertFinal => Some(s.assert_final),
        PegOutAction::Disprove => Some(s.disprove),
        PegOutAction::DisproveChain => Some(s.disprove_chain),
        PegOutAction::Take1 => Some(s.take_1),
        PegOutAction::Take2 => Some(s.take_2),
    }
}

/// `Ok(Broadcast)` when both `confirmed` and `elapsed` hold; otherwise the
/// refusal for the first that fails.
pub open spec fn gate(confirmed: bool, elapsed: bool) -> Result<ActionStep, ActionRefusal> {
    if !confirmed {
        Err(ActionRefusal::PredecessorUnconfirmed)
    } else if !elapsed {
        Err(ActionRefusal::TimelockNotElapsed)
    } else {
        Ok(ActionStep::Broadcast)
    }
}

/// The decision for an action: nothing to do if its transaction is already
/// confirmed; otherwise the predecessor confirmations and timelocks that it
/// waits for.
pub open spec fn spec_plan_action(
    a: PegOutAction,
    initiated: bool,
    s: PegOutStatuses,
    now: u32,
    t: Timelocks,
) -> Result<ActionStep, ActionRefusal> {
    if spec_own_status(a, s) is Some && spec_confirmed(spec_own_status(a, s)->Some_0) {
        Ok(ActionStep::AlreadyConfirmed)
    } else {
        match a {
            PegOutAction::PegOut => if initiated {
                Ok(ActionStep::Broadcast)
            } else {
                Err(ActionRefusal::PegOutNotInitiated)
            },
            PegOutAction::PegOutConfirm => if s.peg_out is None {
                Err(ActionRefusal::PegOutNotCreated)
            } else {
                gate(spec_confirmed(s.peg_out->Some_0), true)
            },
            PegOutAction::KickOff1 => gate(spec_confirmed(s.peg_out_confirm), true),
            PegOutAction::StartTime | PegOutAction::Challenge => gate(spec_confirmed(s.kick_off_1), true),
            PegOutAction::StartTimeTimeout => gate(
                spec_confirmed(s.kick_off_1),
                spec_timelock_elapsed(s.kick_off_1, t.connector_1_leaf_2, now),
            ),
            PegOutAction::KickOff2 => gate(
                spec_confirmed(s.kick_off_1),
                spec_timelock_elapsed(s.kick_off_1, t.connector_1_leaf_0, now),
            ),
            PegOutAction::KickOffTimeout => gate(
                spec_confirmed(s.kick_off_1),
                spec_timelock_elapsed(s.kick_off_1, t.connector_1_leaf_1, now),
            ),
            PegOutAction::AssertInitial => gate(
                spec_confirmed(s.kick_off_2),
                spec_timelock_elapsed(s.kick_off_2, t.connector_b_1, now),
            ),
            PegOutAction::AssertFinal => gate(spec_confirmed(s.assert_initial), true),
            PegOutAction::Disprove => gate(spec_confirmed(s.assert_final), true),
            PegOutAction::DisproveChain => gate(spec_confirmed(s.kick_off_2), true),
            PegOutAction::Take1 => gate(
                spec_confirmed(s.peg_in_confirm) && spec_confirmed(s.kick_off_1) && spec_confirmed(
                    s.kick_off_2,
                ),
                spec_timelock_elapsed(s.kick_off_2, t.connector_3, now),
            ),
            PegOutAction::Take2 => gate(
                spec_confirmed(s.peg_in_confirm) && spec_confirmed(s.assert_final),
                spec_timelock_elapsed(s.assert_final, t.connector_4, now),
            ),
        }
    }
}

fn gate_exec(confirmed: bool, elapsed: bool) -> (r: Result<ActionStep, ActionRefusal>)
    ensures
        r == gate(confirmed, elapsed),
{
    if !confirmed {
        Err(ActionRefusal::PredecessorUnconfirmed)
    } else if !elapsed {
        Err(ActionRefusal::TimelockNotElapsed)
    } else {
        Ok(ActionStep::Broadcast)
    }
}

/// Decides an action from one snapshot of the chain; total on every input.
pub fn plan_action(
    a: PegOutAction,
    initiated: bool,
    s: &PegOutStatuses,
    now: u32,
    t: &Timelocks,
) -> (r: Result<ActionStep, ActionRefusal>)
    ensures
        r == spec_plan_action(a, initiated, *s, now, *t),
{
    let own = match a {
        PegOutAction::PegOut => s.peg_out,
        PegOutAction::PegOutConfirm => Some(s.peg_out_confirm),
        PegOutAction::KickOff1 => Some(s.kick_off_1),
        PegOutAction::StartTime => Some(s.start_time),
        PegOutAction::StartTimeTimeout => Some(s.start_time_timeout),
        PegOutAction::KickOff2 => Some(s.kick_off_2),
        PegOutAction::KickOffTimeout => Some(s.kick_off_timeout),
        PegOutAction::Challenge => Some(s.challenge),
        PegOutAction::AssertInitial => Some(s.assert_initial),
        PegOutAction::AssertFinal => Some(s.assert_final),
        PegOutAction::Disprove => Some(s.disprove),
        PegOutAction::DisproveChain => Some(s.disprove_chain),
        PegOutAction::Take1 => Some(s.take_1),
        PegOutAction::Take2 => Some(s.take_2),
    };
    if let Some(o) = own {
        if confirmed(&o) {
            return Ok(ActionStep::AlreadyConfirmed);
        }
    }
    match a {
        PegOutAction::PegOut => if initiated {
            Ok(ActionStep::Broadcast)
        } else {
            Err(ActionRefusal::PegOutNotInitiated)
        },
        PegOutAction::PegOutConfirm => match &s.peg_out {
            None => Err(ActionRefusal::PegOutNotCreated),
            Some(o) => gate_exec(confirmed(o), true),
        },
        PegOutAction::KickOff1 => gate_exec(confirmed(&s.peg_out_confirm), true),
        PegOutAction::StartTime | PegOutAction::Challenge => gate_exec(confirmed(&s.kick_off_1), true),
        PegOutAction::StartTimeTimeout => gate_exec(
            confirmed(&s.kick_off_1),
            timelock_elapsed(&s.kick_off_1, t.connector_1_leaf_2, now),
        ),
        PegOutAction::KickOff2 => gate_exec(
            confirmed(&s.kick_off_1),
            timelock_elapsed(&s.kick_off_1, t.connector_1_leaf_0, now),
        ),
        PegOutAction::KickOffTimeout => gate_exec(
            confirmed(&s.kick_off_1),
            timelock_elapsed(&s.kick_off_1, t.connector_1_leaf_1, now),
        ),
        PegOutAction::AssertInitial => gate_exec(
            confirmed(&s.kick_off_2),
            timelock_elapsed(&s.kick_off_2, t.connector_b_1, now),
        ),
        PegOutAction::AssertFinal => gate_exec(confirmed(&s.assert_initial), true),
        PegOutAction::Disprove => gate_exec(confirmed(&s.assert_final), true),
        PegOutAction::DisproveChain => gate_exec(confirmed(&s.kick_off_2), true),
        PegOutAction::Take1 => gate_exec(
            confirmed(&s.peg_in_confirm) && confirmed(&s.kick_off_1) && confirmed(&s.kick_off_2),
            timelock_elapsed(&s.kick_off_2, t.connector_3, now),
        ),
        PegOutAction::Take2 => gate_exec(
            confirmed(&s.peg_in_confirm) && confirmed(&s.assert_final),
            timelock_elapsed(&s.assert_final, t.connector_4, now),
        ),
    }
}

} // verus!
