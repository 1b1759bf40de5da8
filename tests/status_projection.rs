use bridge::actions::{plan_action, ActionRefusal, ActionStep, PegOutAction};
use bridge::status::{
    project_operator_status, project_verifier_status, project_withdrawer_status,
    PegOutOperatorStatus, PegOutStatuses, PegOutVerifierStatus, PegOutWithdrawerStatus,
    Timelocks, TxObservation, TxStatus,
};

fn unconfirmed() -> TxObservation {
    TxObservation::Reported(TxStatus { confirmed: false, block_height: None })
}

fn at(height: u32) -> TxObservation {
    TxObservation::Reported(TxStatus { confirmed: true, block_height: Some(height) })
}

fn nothing_confirmed() -> PegOutStatuses {
    PegOutStatuses {
        assert_initial: unconfirmed(),
        assert_final: unconfirmed(),
        challenge: unconfirmed(),
        disprove_chain: unconfirmed(),
        disprove: unconfirmed(),
        peg_out_confirm: unconfirmed(),
        kick_off_1: unconfirmed(),
        kick_off_2: unconfirmed(),
        kick_off_timeout: unconfirmed(),
        peg_out: None,
        start_time_timeout: unconfirmed(),
        start_time: unconfirmed(),
        take_1: unconfirmed(),
        take_2: unconfirmed(),
        peg_in_confirm: at(10),
    }
}

fn timelocks() -> Timelocks {
    Timelocks {
        connector_1_leaf_0: 6,
        connector_1_leaf_1: 12,
        connector_1_leaf_2: 3,
        connector_3: 20,
        connector_4: 30,
        connector_b_1: 8,
    }
}

fn operator_view(s: &PegOutStatuses, now: u32) -> PegOutOperatorStatus {
    project_operator_status(true, true, s, now, &timelocks())
}

fn verifier_view(s: &PegOutStatuses, now: u32) -> PegOutVerifierStatus {
    project_verifier_status(true, s, now, &timelocks())
}

#[test]
fn happy_path_operator_statuses() {
    let t = timelocks();
    let mut s = nothing_confirmed();
    s.peg_out = Some(unconfirmed());
    assert_eq!(operator_view(&s, 90), PegOutOperatorStatus::PegOutStartPegOut);
    s.peg_out = Some(at(95));
    assert_eq!(operator_view(&s, 96), PegOutOperatorStatus::PegOutPegOutConfirmAvailable);
    s.peg_out_confirm = at(97);
    assert_eq!(operator_view(&s, 98), PegOutOperatorStatus::PegOutKickOff1Available);
    s.kick_off_1 = at(100);
    assert_eq!(operator_view(&s, 101), PegOutOperatorStatus::PegOutStartTimeAvailable);
    s.start_time = at(105);
    assert_eq!(operator_view(&s, 105), PegOutOperatorStatus::PegOutWait);
    assert_eq!(operator_view(&s, 105 + t.connector_1_leaf_0), PegOutOperatorStatus::PegOutKickOff2Available);
    s.kick_off_2 = at(200);
    assert_eq!(operator_view(&s, 200 + t.connector_3 - 1), PegOutOperatorStatus::PegOutWait);
    assert_eq!(operator_view(&s, 200 + t.connector_3), PegOutOperatorStatus::PegOutTake1Available);
    s.take_1 = at(230);
    assert_eq!(operator_view(&s, 231), PegOutOperatorStatus::PegOutComplete);
    assert_eq!(verifier_view(&s, 231), PegOutVerifierStatus::PegOutComplete);
}

#[test]
fn challenge_then_disprove() {
    let t = timelocks();
    let mut s = nothing_confirmed();
    s.peg_out = Some(at(95));
    s.peg_out_confirm = at(97);
    s.kick_off_1 = at(100);
    s.start_time = at(105);
    s.kick_off_2 = at(200);
    assert_eq!(verifier_view(&s, 201), PegOutVerifierStatus::PegOutDisproveChainAvailable);
    s.challenge = at(201);
    assert_eq!(operator_view(&s, 200 + t.connector_b_1 - 1), PegOutOperatorStatus::PegOutWait);
    assert_eq!(operator_view(&s, 200 + t.connector_b_1), PegOutOperatorStatus::PegOutAssertAvailable);
    s.assert_initial = at(210);
    s.assert_final = at(212);
    assert_eq!(verifier_view(&s, 213), PegOutVerifierStatus::PegOutDisproveAvailable);
    assert_eq!(operator_view(&s, 213), PegOutOperatorStatus::PegOutWait);
    assert_eq!(operator_view(&s, 212 + t.connector_4), PegOutOperatorStatus::PegOutTake2Available);
    s.disprove = at(214);
    assert_eq!(verifier_view(&s, 215), PegOutVerifierStatus::PegOutFailed);
    assert_eq!(operator_view(&s, 215), PegOutOperatorStatus::PegOutFailed);
}

#[test]
fn kick_off_timeout_scenario() {
    let t = timelocks();
    let mut s = nothing_confirmed();
    s.peg_out = Some(at(95));
    s.peg_out_confirm = at(97);
    s.kick_off_1 = at(100);
    // The start-time timeout is offered while kick_off_1.height + leaf_2 > now.
    assert_eq!(
        verifier_view(&s, 100 + t.connector_1_leaf_2 - 1),
        PegOutVerifierStatus::PegOutStartTimeTimeoutAvailable
    );
    // At exactly kick_off_1.height + leaf_2 the strict comparison fails and
    // the next branch of the tree (leaf_1 is longer here) applies.
    assert_eq!(
        verifier_view(&s, 100 + t.connector_1_leaf_2),
        PegOutVerifierStatus::PegOutKickOffTimeoutAvailable
    );
    assert_eq!(
        plan_action(PegOutAction::StartTimeTimeout, true, &s, 100 + t.connector_1_leaf_2 - 1, &t),
        Err(ActionRefusal::TimelockNotElapsed)
    );
    assert_eq!(
        plan_action(PegOutAction::StartTimeTimeout, true, &s, 100 + t.connector_1_leaf_2, &t),
        Ok(ActionStep::Broadcast)
    );
    s.start_time_timeout = at(104);
    assert_eq!(verifier_view(&s, 104), PegOutVerifierStatus::PegOutFailed);
    assert_eq!(operator_view(&s, 104), PegOutOperatorStatus::PegOutFailed);
}

#[test]
fn timelock_boundary_both_sides() {
    let t = timelocks();
    let mut s = nothing_confirmed();
    s.peg_out = Some(at(95));
    s.kick_off_1 = at(100);
    s.start_time = at(101);
    let edge = 100 + t.connector_1_leaf_0;
    assert_eq!(operator_view(&s, edge - 1), PegOutOperatorStatus::PegOutWait);
    assert_eq!(operator_view(&s, edge), PegOutOperatorStatus::PegOutKickOff2Available);
    assert_eq!(
        verifier_view(&s, 100 + t.connector_1_leaf_1 - 1),
        PegOutVerifierStatus::PegOutKickOffTimeoutAvailable
    );
    assert_eq!(
        verifier_view(&s, 100 + t.connector_1_leaf_1),
        PegOutVerifierStatus::PegOutChallengeAvailable
    );
    s.challenge = at(102);
    assert_eq!(verifier_view(&s, 100 + t.connector_1_leaf_1), PegOutVerifierStatus::PegOutWait);
}

#[test]
fn missing_peg_out_transaction_starts_peg_out() {
    let mut s = nothing_confirmed();
    s.kick_off_1 = at(100);
    assert_eq!(operator_view(&s, 500), PegOutOperatorStatus::PegOutStartPegOut);
    assert_eq!(
        project_operator_status(true, false, &s, 500, &timelocks()),
        PegOutOperatorStatus::PegOutWait
    );
    assert_eq!(
        project_operator_status(false, true, &s, 500, &timelocks()),
        PegOutOperatorStatus::PegOutWait
    );
}

#[test]
fn take_wins_over_disprove() {
    let mut s = nothing_confirmed();
    s.peg_out = Some(at(95));
    s.kick_off_1 = at(100);
    s.kick_off_2 = at(200);
    s.take_1 = at(230);
    s.disprove = at(231);
    assert_eq!(verifier_view(&s, 240), PegOutVerifierStatus::PegOutComplete);
    assert_eq!(operator_view(&s, 240), PegOutOperatorStatus::PegOutComplete);
    s.take_1 = unconfirmed();
    assert_eq!(verifier_view(&s, 240), PegOutVerifierStatus::PegOutFailed);
    assert_eq!(operator_view(&s, 240), PegOutOperatorStatus::PegOutFailed);
}

#[test]
fn verifier_presign_and_failed_queries() {
    let mut s = nothing_confirmed();
    assert_eq!(
        project_verifier_status(false, &s, 0, &timelocks()),
        PegOutVerifierStatus::PegOutPresign
    );
    s.kick_off_1 = TxObservation::Unavailable;
    s.kick_off_2 = TxObservation::Unavailable;
    assert_eq!(verifier_view(&s, 0), PegOutVerifierStatus::PegOutWait);
    s.kick_off_1 = TxObservation::Reported(TxStatus { confirmed: true, block_height: None });
    assert_eq!(verifier_view(&s, 0), PegOutVerifierStatus::PegOutChallengeAvailable);
    s.kick_off_1 = TxObservation::Reported(TxStatus { confirmed: true, block_height: Some(u32::MAX) });
    assert_eq!(verifier_view(&s, u32::MAX), PegOutVerifierStatus::PegOutStartTimeTimeoutAvailable);
}

#[test]
fn withdrawer_statuses() {
    assert_eq!(project_withdrawer_status(&None), PegOutWithdrawerStatus::PegOutNotStarted);
    assert_eq!(project_withdrawer_status(&Some(unconfirmed())), PegOutWithdrawerStatus::PegOutWait);
    assert_eq!(
        project_withdrawer_status(&Some(TxObservation::Unavailable)),
        PegOutWithdrawerStatus::PegOutWait
    );
    assert_eq!(project_withdrawer_status(&Some(at(3))), PegOutWithdrawerStatus::PegOutComplete);
}

#[test]
fn action_preconditions() {
    let t = timelocks();
    let mut s = nothing_confirmed();
    assert_eq!(plan_action(PegOutAction::PegOut, false, &s, 0, &t), Err(ActionRefusal::PegOutNotInitiated));
    assert_eq!(plan_action(PegOutAction::PegOut, true, &s, 0, &t), Ok(ActionStep::Broadcast));
    assert_eq!(plan_action(PegOutAction::PegOutConfirm, true, &s, 0, &t), Err(ActionRefusal::PegOutNotCreated));
    s.peg_out = Some(unconfirmed());
    assert_eq!(
        plan_action(PegOutAction::PegOutConfirm, true, &s, 0, &t),
        Err(ActionRefusal::PredecessorUnconfirmed)
    );
    s.peg_out = Some(at(5));
    assert_eq!(plan_action(PegOutAction::PegOut, true, &s, 0, &t), Ok(ActionStep::AlreadyConfirmed));
    assert_eq!(plan_action(PegOutAction::PegOutConfirm, true, &s, 0, &t), Ok(ActionStep::Broadcast));
    s.kick_off_1 = at(100);
    s.kick_off_2 = at(200);
    assert_eq!(plan_action(PegOutAction::Take1, true, &s, 219, &t), Err(ActionRefusal::TimelockNotElapsed));
    assert_eq!(plan_action(PegOutAction::Take1, true, &s, 220, &t), Ok(ActionStep::Broadcast));
    s.peg_in_confirm = unconfirmed();
    assert_eq!(
        plan_action(PegOutAction::Take1, true, &s, 220, &t),
        Err(ActionRefusal::PredecessorUnconfirmed)
    );
    assert_eq!(plan_action(PegOutAction::KickOff2, true, &s, 105, &t), Ok(ActionStep::AlreadyConfirmed));
    assert_eq!(plan_action(PegOutAction::Disprove, true, &s, 300, &t), Err(ActionRefusal::PredecessorUnconfirmed));
}

#[test]
fn status_messages() {
    assert_eq!(PegOutWithdrawerStatus::PegOutComplete.message(), "Peg-out complete. Done.");
    assert_eq!(
        PegOutVerifierStatus::PegOutFailed.message(),
        "Peg-out complete, reimbursement failed. Done."
    );
    assert_eq!(
        PegOutOperatorStatus::PegOutTake2Available.message(),
        "Dispute timed out, reimbursement available. Broadcast take 2 transaction?"
    );
}

#[test]
fn failed_queries_offer_no_action() {
    let t = timelocks();
    let mut s = nothing_confirmed();
    s.kick_off_1 = at(100);
    s.start_time = TxObservation::Unavailable;
    // Within leaf_2 the start-time timeout is not offered on an unknown start time.
    assert_eq!(verifier_view(&s, 101), PegOutVerifierStatus::PegOutKickOffTimeoutAvailable);
    s.challenge = TxObservation::Unavailable;
    assert_eq!(verifier_view(&s, 100 + t.connector_1_leaf_1), PegOutVerifierStatus::PegOutWait);
    s.peg_out = Some(TxObservation::Unavailable);
    assert_eq!(operator_view(&s, 500), PegOutOperatorStatus::PegOutWait);
    s.peg_out = Some(unconfirmed());
    assert_eq!(operator_view(&s, 500), PegOutOperatorStatus::PegOutStartPegOut);
}
