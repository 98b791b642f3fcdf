use vaultix_escrow::{
    Address, Error, EscrowStatus, Milestone, MilestoneStatus, Transfer, VaultixEscrow,
};

fn milestone(amount: i128, description: &str) -> Milestone {
    Milestone { amount, status: MilestoneStatus::Pending, description: description.to_string() }
}

fn depositor() -> Address {
    Address::new("GDEPOSITOR")
}

fn recipient() -> Address {
    Address::new("GRECIPIENT")
}

fn token() -> Address {
    Address::new("CTOKEN")
}

#[test]
fn test_create_and_get_escrow() {
    let mut vault = VaultixEscrow::new();
    let depositor = depositor();
    let recipient = recipient();
    let escrow_id = 1u64;

    let milestones = vec![
        milestone(3000, "Design"),
        milestone(3000, "Dev"),
        milestone(4000, "Deploy"),
    ];

    let transfer = vault
        .create_escrow(
            &depositor,
            escrow_id,
            depositor.clone(),
            recipient.clone(),
            milestones,
            token(),
        )
        .unwrap();
    assert_eq!(
        transfer,
        Transfer::Deposit { token: token(), from: depositor.clone(), amount: 10000 }
    );

    let escrow = vault.get_escrow(escrow_id).unwrap();
    assert_eq!(escrow.depositor, depositor);
    assert_eq!(escrow.recipient, recipient);
    assert_eq!(escrow.total_amount, 10000);
    assert_eq!(escrow.total_released, 0);
    assert_eq!(escrow.status, EscrowStatus::Active);
    assert_eq!(escrow.milestones.len(), 3);
}

#[test]
fn test_release_milestone() {
    let mut vault = VaultixEscrow::new();
    let depositor = depositor();
    let escrow_id = 2u64;

    let milestones = vec![milestone(5000, "Phase1"), milestone(5000, "Phase2")];

    vault
        .create_escrow(&depositor, escrow_id, depositor.clone(), recipient(), milestones, token())
        .unwrap();

    vault.release_milestone(&depositor, escrow_id, 0).unwrap();

    let escrow = vault.get_escrow(escrow_id).unwrap();
    assert_eq!(escrow.total_released, 5000);
    assert_eq!(escrow.milestones.get(0).unwrap().status, MilestoneStatus::Released);
    assert_eq!(escrow.milestones.get(1).unwrap().status, MilestoneStatus::Pending);
}

#[test]
fn test_complete_escrow() {
    let mut vault = VaultixEscrow::new();
    let depositor = depositor();
    let escrow_id = 3u64;

    let milestones = vec![milestone(5000, "Task1"), milestone(5000, "Task2")];

    vault
        .create_escrow(&depositor, escrow_id, depositor.clone(), recipient(), milestones, token())
        .unwrap();

    vault.release_milestone(&depositor, escrow_id, 0).unwrap();
    vault.release_milestone(&depositor, escrow_id, 1).unwrap();

    vault.complete_escrow(&depositor, escrow_id).unwrap();

    let escrow = vault.get_escrow(escrow_id).unwrap();
    assert_eq!(escrow.status, EscrowStatus::Completed);
    assert_eq!(escrow.total_released, 10000);
}

#[test]
fn test_cancel_escrow() {
    let mut vault = VaultixEscrow::new();
    let depositor = depositor();
    let escrow_id = 4u64;

    let milestones = vec![milestone(10000, "Work")];

    vault
        .create_escrow(&depositor, escrow_id, depositor.clone(), recipient(), milestones, token())
        .unwrap();

    vault.cancel_escrow(&depositor, escrow_id).unwrap();

    let escrow = vault.get_escrow(escrow_id).unwrap();
    assert_eq!(escrow.status, EscrowStatus::Cancelled);
}

#[test]
fn test_duplicate_escrow_id() {
    let mut vault = VaultixEscrow::new();
    let depositor = depositor();
    let escrow_id = 5u64;

    vault
        .create_escrow(
            &depositor,
            escrow_id,
            depositor.clone(),
            recipient(),
            vec![milestone(1000, "Test")],
            token(),
        )
        .unwrap();
    let first = vault.get_escrow(escrow_id).unwrap();

    let second = vault.create_escrow(
        &depositor,
        escrow_id,
        depositor.clone(),
        recipient(),
        vec![milestone(1000, "Test")],
        token(),
    );
    assert_eq!(second, Err(Error::EscrowAlreadyExists));
    assert_eq!(vault.get_escrow(escrow_id).unwrap(), first);
}

#[test]
fn test_double_release() {
    let mut vault = VaultixEscrow::new();
    let depositor = depositor();
    let escrow_id = 6u64;

    vault
        .create_escrow(
            &depositor,
            escrow_id,
            depositor.clone(),
            recipient(),
            vec![milestone(1000, "Task")],
            token(),
        )
        .unwrap();
    vault.release_milestone(&depositor, escrow_id, 0).unwrap();

    let second = vault.release_milestone(&depositor, escrow_id, 0);
    assert_eq!(second, Err(Error::MilestoneAlreadyReleased));
    assert_eq!(vault.get_escrow(escrow_id).unwrap().total_released, 1000);
}

#[test]
fn test_too_many_milestones() {
    let mut vault = VaultixEscrow::new();
    let depositor = depositor();
    let escrow_id = 7u64;

    let mut milestones = Vec::new();
    for _i in 0..21 {
        milestones.push(milestone(100, "Task"));
    }

    let result = vault.create_escrow(
        &depositor,
        escrow_id,
        depositor.clone(),
        recipient(),
        milestones,
        token(),
    );
    assert_eq!(result, Err(Error::VectorTooLarge));
    assert_eq!(vault.get_escrow(escrow_id), Err(Error::EscrowNotFound));
}

#[test]
fn test_invalid_milestone_amount() {
    let mut vault = VaultixEscrow::new();
    let depositor = depositor();
    let escrow_id = 8u64;

    let result = vault.create_escrow(
        &depositor,
        escrow_id,
        depositor.clone(),
        recipient(),
        vec![milestone(0, "Task")],
        token(),
    );
    assert_eq!(result, Err(Error::InvalidMilestoneAmount));
    assert_eq!(vault.get_escrow(escrow_id), Err(Error::EscrowNotFound));
}

#[test]
fn test_zero_amount_milestone_rejected() {
    let mut vault = VaultixEscrow::new();
    let depositor = depositor();
    let escrow_id = 1u64;

    let milestones = vec![milestone(0, "Test")];

    let result = vault.create_escrow(
        &depositor,
        escrow_id,
        depositor.clone(),
        recipient(),
        milestones,
        token(),
    );

    assert_eq!(result, Err(Error::InvalidMilestoneAmount));
}

#[test]
fn test_negative_amount_milestone_rejected() {
    let mut vault = VaultixEscrow::new();
    let depositor = depositor();
    let escrow_id = 2u64;

    let milestones = vec![milestone(-1000, "Test")];

    let result = vault.create_escrow(
        &depositor,
        escrow_id,
        depositor.clone(),
        recipient(),
        milestones,
        token(),
    );

    assert_eq!(result, Err(Error::InvalidMilestoneAmount));
}

#[test]
fn test_self_dealing_rejected() {
    let mut vault = VaultixEscrow::new();
    let same_party = Address::new("GSAMEPARTY");
    let escrow_id = 3u64;

    let milestones = vec![milestone(5000, "Task")];

    let result = vault.create_escrow(
        &same_party,
        escrow_id,
        same_party.clone(),
        same_party.clone(),
        milestones,
        token(),
    );

    assert_eq!(result, Err(Error::SelfDealing));
}

#[test]
fn test_valid_escrow_creation_succeeds() {
    let mut vault = VaultixEscrow::new();
    let depositor = depositor();
    let recipient = recipient();
    let escrow_id = 4u64;

    let milestones = vec![milestone(3000, "Phase1"), milestone(7000, "Phase2")];

    let result = vault.create_escrow(
        &depositor,
        escrow_id,
        depositor.clone(),
        recipient.clone(),
        milestones,
        token(),
    );

    assert!(result.is_ok());

    let escrow = vault.get_escrow(escrow_id).unwrap();
    assert_eq!(escrow.depositor, depositor);
    assert_eq!(escrow.recipient, recipient);
    assert_eq!(escrow.total_amount, 10000);
}

fn two_phase_vault(escrow_id: u64) -> VaultixEscrow {
    let mut vault = VaultixEscrow::new();
    vault
        .create_escrow(
            &depositor(),
            escrow_id,
            depositor(),
            recipient(),
            vec![milestone(5000, "Phase1"), milestone(5000, "Phase2")],
            token(),
        )
        .unwrap();
    vault
}

#[test]
fn two_milestones_released_one_by_one_then_completed() {
    let mut vault = two_phase_vault(11);

    vault.release_milestone(&depositor(), 11, 0).unwrap();
    let escrow = vault.get_escrow(11).unwrap();
    assert_eq!(escrow.total_released, 5000);
    assert_eq!(escrow.milestones[0].status, MilestoneStatus::Released);
    assert_eq!(escrow.milestones[1].status, MilestoneStatus::Pending);

    vault.release_milestone(&depositor(), 11, 1).unwrap();
    vault.complete_escrow(&depositor(), 11).unwrap();
    let escrow = vault.get_escrow(11).unwrap();
    assert_eq!(escrow.status, EscrowStatus::Completed);
    assert_eq!(escrow.total_released, 10000);
}

#[test]
fn single_milestone_cancelled_before_any_release() {
    let mut vault = VaultixEscrow::new();
    vault
        .create_escrow(
            &depositor(),
            12,
            depositor(),
            recipient(),
            vec![milestone(10000, "Work")],
            token(),
        )
        .unwrap();
    assert_eq!(vault.cancel_escrow(&depositor(), 12), Ok(()));
    assert_eq!(vault.get_escrow(12).unwrap().status, EscrowStatus::Cancelled);
}

#[test]
fn fresh_escrow_is_active_with_nothing_released() {
    let mut vault = VaultixEscrow::new();
    vault
        .create_escrow(
            &depositor(),
            13,
            depositor(),
            recipient(),
            vec![milestone(3000, "Design"), milestone(3000, "Dev"), milestone(4000, "Deploy")],
            token(),
        )
        .unwrap();
    let escrow = vault.get_escrow(13).unwrap();
    assert_eq!(escrow.id, 13);
    assert_eq!(escrow.total_amount, 10000);
    assert_eq!(escrow.total_released, 0);
    assert_eq!(escrow.status, EscrowStatus::Active);
    assert_eq!(escrow.token, token());
}

#[test]
fn operations_on_a_missing_escrow_are_refused() {
    let mut vault = two_phase_vault(1);
    let stranger = Address::new("GSTRANGER");
    assert_eq!(vault.get_escrow(2), Err(Error::EscrowNotFound));
    assert_eq!(vault.release_milestone(&stranger, 2, 0), Err(Error::EscrowNotFound));
    assert_eq!(vault.confirm_delivery(&stranger, 2, 0, depositor()), Err(Error::EscrowNotFound));
    assert_eq!(vault.cancel_escrow(&stranger, 2), Err(Error::EscrowNotFound));
    assert_eq!(vault.complete_escrow(&stranger, 2), Err(Error::EscrowNotFound));
    assert!(vault.get_escrow(1).is_ok());
}

#[test]
fn only_the_depositor_may_change_an_escrow() {
    let mut vault = two_phase_vault(1);
    let before = vault.get_escrow(1).unwrap();
    assert_eq!(vault.release_milestone(&recipient(), 1, 0), Err(Error::UnauthorizedAccess));
    assert_eq!(vault.cancel_escrow(&recipient(), 1), Err(Error::UnauthorizedAccess));
    assert_eq!(vault.complete_escrow(&recipient(), 1), Err(Error::UnauthorizedAccess));
    assert_eq!(
        vault.confirm_delivery(&recipient(), 1, 0, recipient()),
        Err(Error::UnauthorizedAccess)
    );
    assert_eq!(
        vault.confirm_delivery(&depositor(), 1, 0, recipient()),
        Err(Error::UnauthorizedAccess)
    );
    assert_eq!(
        vault.create_escrow(
            &recipient(),
            2,
            depositor(),
            recipient(),
            vec![milestone(1, "Task")],
            token()
        ),
        Err(Error::UnauthorizedAccess)
    );
    assert_eq!(vault.get_escrow(2), Err(Error::EscrowNotFound));
    assert_eq!(vault.get_escrow(1).unwrap(), before);
}

#[test]
fn a_taken_identifier_is_reported_before_anything_else() {
    let mut vault = two_phase_vault(1);
    let before = vault.get_escrow(1).unwrap();
    let result = vault.create_escrow(
        &recipient(),
        1,
        depositor(),
        depositor(),
        vec![milestone(0, "Task")],
        token(),
    );
    assert_eq!(result, Err(Error::EscrowAlreadyExists));
    assert_eq!(vault.get_escrow(1).unwrap(), before);
}

#[test]
fn release_past_the_last_milestone_is_refused() {
    let mut vault = two_phase_vault(1);
    assert_eq!(vault.release_milestone(&depositor(), 1, 2), Err(Error::MilestoneNotFound));
    assert_eq!(
        vault.confirm_delivery(&depositor(), 1, 7, depositor()),
        Err(Error::MilestoneNotFound)
    );
    assert_eq!(vault.get_escrow(1).unwrap().total_released, 0);
}

#[test]
fn confirmed_delivery_returns_the_payout() {
    let mut vault = VaultixEscrow::new();
    vault
        .create_escrow(
            &depositor(),
            1,
            depositor(),
            recipient(),
            vec![milestone(1200, "Draft"), milestone(800, "Final")],
            token(),
        )
        .unwrap();
    assert_eq!(
        vault.confirm_delivery(&depositor(), 1, 1, depositor()),
        Ok(Transfer::Payout { token: token(), to: recipient(), amount: 800 })
    );
    let escrow = vault.get_escrow(1).unwrap();
    assert_eq!(escrow.total_released, 800);
    assert_eq!(escrow.milestones[1].status, MilestoneStatus::Released);
    assert_eq!(
        vault.confirm_delivery(&depositor(), 1, 1, depositor()),
        Err(Error::MilestoneAlreadyReleased)
    );
    assert_eq!(vault.get_escrow(1).unwrap().total_released, 800);
}

#[test]
fn completion_before_the_last_release_is_refused() {
    let mut vault = two_phase_vault(1);
    assert_eq!(vault.complete_escrow(&depositor(), 1), Err(Error::EscrowNotActive));
    vault.release_milestone(&depositor(), 1, 1).unwrap();
    assert_eq!(vault.complete_escrow(&depositor(), 1), Err(Error::EscrowNotActive));
    assert_eq!(vault.get_escrow(1).unwrap().status, EscrowStatus::Active);
    vault.release_milestone(&depositor(), 1, 0).unwrap();
    assert_eq!(vault.complete_escrow(&depositor(), 1), Ok(()));
}

#[test]
fn cancellation_after_a_release_is_refused() {
    let mut vault = two_phase_vault(1);
    vault.release_milestone(&depositor(), 1, 0).unwrap();
    assert_eq!(vault.cancel_escrow(&depositor(), 1), Err(Error::MilestoneAlreadyReleased));
    assert_eq!(vault.get_escrow(1).unwrap().status, EscrowStatus::Active);
}

#[test]
fn a_finished_escrow_stays_as_it_is() {
    let mut cancelled = two_phase_vault(1);
    cancelled.cancel_escrow(&depositor(), 1).unwrap();
    let record = cancelled.get_escrow(1).unwrap();
    assert_eq!(cancelled.release_milestone(&depositor(), 1, 0), Err(Error::EscrowNotActive));
    assert_eq!(
        cancelled.confirm_delivery(&depositor(), 1, 0, depositor()),
        Err(Error::EscrowNotActive)
    );
    assert_eq!(cancelled.complete_escrow(&depositor(), 1), Err(Error::EscrowNotActive));
    assert_eq!(cancelled.cancel_escrow(&depositor(), 1), Ok(()));
    assert_eq!(cancelled.get_escrow(1).unwrap(), record);

    let mut completed = two_phase_vault(1);
    completed.release_milestone(&depositor(), 1, 0).unwrap();
    completed.release_milestone(&depositor(), 1, 1).unwrap();
    completed.complete_escrow(&depositor(), 1).unwrap();
    let record = completed.get_escrow(1).unwrap();
    assert_eq!(completed.release_milestone(&depositor(), 1, 0), Err(Error::EscrowNotActive));
    assert_eq!(completed.cancel_escrow(&depositor(), 1), Err(Error::MilestoneAlreadyReleased));
    assert_eq!(completed.complete_escrow(&depositor(), 1), Ok(()));
    assert_eq!(completed.get_escrow(1).unwrap(), record);
}

#[test]
fn a_given_status_is_set_back_to_pending() {
    let mut vault = VaultixEscrow::new();
    let schedule = vec![
        Milestone { amount: 10, status: MilestoneStatus::Released, description: "A".into() },
        Milestone { amount: 20, status: MilestoneStatus::Released, description: "B".into() },
    ];
    vault.create_escrow(&depositor(), 1, depositor(), recipient(), schedule, token()).unwrap();
    let escrow = vault.get_escrow(1).unwrap();
    assert_eq!(escrow.total_released, 0);
    assert_eq!(escrow.milestones, vec![milestone(10, "A"), milestone(20, "B")]);
}

#[test]
fn twenty_milestones_are_accepted() {
    let mut vault = VaultixEscrow::new();
    let schedule: Vec<Milestone> = (1..=20).map(|amount| milestone(amount, "Task")).collect();
    let deposit =
        vault.create_escrow(&depositor(), 1, depositor(), recipient(), schedule, token());
    assert_eq!(
        deposit,
        Ok(Transfer::Deposit { token: token(), from: depositor(), amount: 210 })
    );
    assert_eq!(vault.get_escrow(1).unwrap().milestones.len(), 20);
}

#[test]
fn a_total_that_does_not_fit_is_refused() {
    let mut vault = VaultixEscrow::new();
    let schedule = vec![milestone(i128::MAX, "Task"), milestone(1, "Task")];
    assert_eq!(
        vault.create_escrow(&depositor(), 1, depositor(), recipient(), schedule, token()),
        Err(Error::InvalidMilestoneAmount)
    );
    assert_eq!(vault.get_escrow(1), Err(Error::EscrowNotFound));
}

#[test]
fn escrows_do_not_disturb_one_another() {
    let mut vault = two_phase_vault(1);
    vault
        .create_escrow(
            &recipient(),
            2,
            recipient(),
            depositor(),
            vec![milestone(70, "Task")],
            token(),
        )
        .unwrap();
    let first = vault.get_escrow(1).unwrap();
    vault.release_milestone(&recipient(), 2, 0).unwrap();
    vault.complete_escrow(&recipient(), 2).unwrap();
    assert_eq!(vault.get_escrow(1).unwrap(), first);
    assert_eq!(vault.get_escrow(2).unwrap().status, EscrowStatus::Completed);
}

#[test]
fn restoring_puts_a_sound_record_back() {
    let mut source = two_phase_vault(5);
    source.release_milestone(&depositor(), 5, 0).unwrap();
    let record = source.get_escrow(5).unwrap();

    let mut vault = VaultixEscrow::new();
    assert!(record.is_well_formed());
    vault.restore(record.clone());
    assert_eq!(vault.get_escrow(5).unwrap(), record);
    assert_eq!(vault.get_escrow(6), Err(Error::EscrowNotFound));
    assert_eq!(vault.release_milestone(&depositor(), 5, 1), Ok(()));
    assert_eq!(vault.get_escrow(5).unwrap().total_released, 10000);

    vault.restore(record.clone());
    assert_eq!(vault.get_escrow(5).unwrap(), record);
}

#[test]
fn an_escrow_without_milestones_is_refused() {
    let mut vault = VaultixEscrow::new();
    assert_eq!(
        vault.create_escrow(&depositor(), 1, depositor(), recipient(), Vec::new(), token()),
        Err(Error::InvalidMilestoneAmount)
    );
    assert_eq!(vault.get_escrow(1), Err(Error::EscrowNotFound));
    assert_eq!(
        vault.create_escrow(&depositor(), 1, depositor(), depositor(), Vec::new(), token()),
        Err(Error::InvalidMilestoneAmount)
    );
    assert_eq!(
        vault.create_escrow(&recipient(), 1, depositor(), recipient(), Vec::new(), token()),
        Err(Error::UnauthorizedAccess)
    );
}
