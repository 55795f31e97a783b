use secureflow::{Address, Error, EscrowStatus, SecureFlow, MilestoneStatus, Transfer};

const NOW: u64 = 1_000_000;
const DAY: u64 = 86_400;
const WEEK: u64 = 604_800;
const GRACE: u64 = 2_592_000;

fn addr(n: u32) -> Address {
    Address::new(0, n)
}

fn owner() -> Address {
    addr(1)
}
fn collector() -> Address {
    addr(2)
}
fn depositor() -> Address {
    addr(3)
}
fn freelancer() -> Address {
    addr(4)
}
fn arbiter() -> Address {
    addr(9)
}
fn token_x() -> Address {
    addr(100)
}

fn ledger_with_fee(bp: u64) -> SecureFlow {
    let mut l = SecureFlow::init(owner(), Address::zero(), collector(), bp).unwrap();
    l.authorize_arbiter(owner(), arbiter()).unwrap();
    l.whitelist_token(owner(), token_x()).unwrap();
    l
}

fn ledger() -> SecureFlow {
    ledger_with_fee(0)
}

fn descriptions(n: usize) -> Vec<String> {
    (0..n).map(|k| format!("milestone {}", k)).collect()
}

fn create_with(l: &mut SecureFlow, beneficiary: Address, amounts: Vec<u128>) -> u64 {
    let n = amounts.len();
    let (id, pull) = l
        .create_escrow(
            depositor(),
            NOW,
            0,
            beneficiary,
            vec![arbiter()],
            1,
            amounts,
            descriptions(n),
            token_x(),
            30 * DAY,
            "Website".to_string(),
            "Build a website".to_string(),
        )
        .unwrap();
    assert!(pull.is_some());
    id
}

fn create(l: &mut SecureFlow, amounts: Vec<u128>) -> u64 {
    create_with(l, freelancer(), amounts)
}

fn started(amounts: Vec<u128>) -> (SecureFlow, u64) {
    let mut l = ledger();
    let id = create(&mut l, amounts);
    l.start_work(freelancer(), id).unwrap();
    (l, id)
}

#[test]
fn two_milestones_approved_release_the_escrow() {
    let (mut l, id) = started(vec![100, 200]);
    assert_eq!(l.escrowed_amount(token_x()), 300);

    l.submit_milestone(freelancer(), NOW + 10, id, 0, String::new()).unwrap();
    let t = l.approve_milestone(depositor(), NOW + 20, id, 0).unwrap();
    assert_eq!(t, Transfer::Out { asset: token_x(), to: freelancer(), amount: 100 });
    let s = l.get_escrow_summary(id).unwrap();
    assert_eq!(s.status, EscrowStatus::InProgress);
    assert_eq!(s.paid_amount, 100);
    assert_eq!(s.remaining_amount, 200);
    assert_eq!(l.escrowed_amount(token_x()), 200);
    assert_eq!(l.completed_escrows(freelancer()), 0);

    l.submit_milestone(freelancer(), NOW + 30, id, 1, String::new()).unwrap();
    let t = l.approve_milestone(depositor(), NOW + 40, id, 1).unwrap();
    assert_eq!(t, Transfer::Out { asset: token_x(), to: freelancer(), amount: 200 });
    let s = l.get_escrow_summary(id).unwrap();
    assert_eq!(s.status, EscrowStatus::Released);
    assert_eq!(s.paid_amount, 300);
    assert_eq!(l.escrowed_amount(token_x()), 0);
    assert_eq!(l.completed_escrows(freelancer()), 1);
    assert_eq!(l.completed_escrows(depositor()), 1);
    // Below the eligibility threshold: no reputation.
    assert_eq!(l.reputation(freelancer()), 0);
}

#[test]
fn dispute_one_second_before_window_closes_succeeds() {
    let (mut l, id) = started(vec![100, 200]);
    l.submit_milestone(freelancer(), NOW, id, 0, String::new()).unwrap();
    l.dispute_milestone(depositor(), NOW + WEEK - 1, id, 0, "late".to_string()).unwrap();
    let s = l.get_escrow_summary(id).unwrap();
    assert_eq!(s.status, EscrowStatus::Disputed);
    let ms = l.get_milestones(id).unwrap();
    assert_eq!(ms[0].status, MilestoneStatus::Disputed);
    assert_eq!(ms[0].disputed_by, depositor());
}

#[test]
fn dispute_one_second_after_window_closes_fails() {
    let (mut l, id) = started(vec![100, 200]);
    l.submit_milestone(freelancer(), NOW, id, 0, String::new()).unwrap();
    let r = l.dispute_milestone(depositor(), NOW + WEEK + 1, id, 0, "late".to_string());
    assert_eq!(r, Err(Error::DisputePeriodExpired));
    assert_eq!(l.get_escrow_summary(id).unwrap().status, EscrowStatus::InProgress);
}

#[test]
fn dispute_at_window_end_is_still_open() {
    let (mut l, id) = started(vec![100]);
    l.submit_milestone(freelancer(), NOW, id, 0, String::new()).unwrap();
    assert_eq!(l.dispute_milestone(depositor(), NOW + WEEK, id, 0, String::new()), Ok(()));
}

#[test]
fn refund_pending_escrow_then_nothing_left() {
    let mut l = ledger();
    let id = create(&mut l, vec![100, 200]);
    let t = l.refund_escrow(depositor(), NOW + DAY, id).unwrap();
    assert_eq!(t, Transfer::Out { asset: token_x(), to: depositor(), amount: 300 });
    assert_eq!(l.get_escrow_summary(id).unwrap().status, EscrowStatus::Refunded);
    assert_eq!(l.escrowed_amount(token_x()), 0);
    assert_eq!(l.refund_escrow(depositor(), NOW + DAY, id), Err(Error::NothingToRefund));
}

#[test]
fn resolve_splits_thirty_seventy_and_resumes() {
    let (mut l, id) = started(vec![100, 200]);
    l.submit_milestone(freelancer(), NOW, id, 0, String::new()).unwrap();
    l.dispute_milestone(depositor(), NOW + 1, id, 0, "quality".to_string()).unwrap();
    let ts = l.resolve_dispute(arbiter(), NOW + 2, id, 0, 30).unwrap();
    assert_eq!(
        ts,
        vec![
            Transfer::Out { asset: token_x(), to: freelancer(), amount: 30 },
            Transfer::Out { asset: token_x(), to: depositor(), amount: 70 },
        ]
    );
    let ms = l.get_milestones(id).unwrap();
    assert_eq!(ms[0].status, MilestoneStatus::Resolved);
    let s = l.get_escrow_summary(id).unwrap();
    assert_eq!(s.status, EscrowStatus::InProgress);
    assert_eq!(s.remaining_amount, 200);
    assert_eq!(l.escrowed_amount(token_x()), 200);
}

#[test]
fn resolve_of_final_milestone_releases() {
    let (mut l, id) = started(vec![100]);
    l.submit_milestone(freelancer(), NOW, id, 0, String::new()).unwrap();
    l.dispute_milestone(depositor(), NOW + 1, id, 0, "quality".to_string()).unwrap();
    let ts = l.resolve_dispute(freelancer(), NOW + 2, id, 0, 30).unwrap();
    let total: u128 = ts
        .iter()
        .map(|t| match t {
            Transfer::Out { amount, .. } => *amount,
            Transfer::In { amount, .. } => *amount,
        })
        .sum();
    assert_eq!(total, 100);
    assert_eq!(l.get_escrow_summary(id).unwrap().status, EscrowStatus::Released);
    assert_eq!(l.escrowed_amount(token_x()), 0);
    assert_eq!(l.completed_escrows(freelancer()), 1);
    assert_eq!(l.completed_escrows(depositor()), 1);
}

#[test]
fn resolve_whole_amount_to_one_side_makes_one_transfer() {
    let (mut l, id) = started(vec![100, 50]);
    l.submit_milestone(freelancer(), NOW, id, 0, String::new()).unwrap();
    l.dispute_milestone(depositor(), NOW + 1, id, 0, String::new()).unwrap();
    let ts = l.resolve_dispute(depositor(), NOW + 2, id, 0, 0).unwrap();
    assert_eq!(ts, vec![Transfer::Out { asset: token_x(), to: depositor(), amount: 100 }]);
}

#[test]
fn resolve_rejects_excess_allocation_and_strangers() {
    let (mut l, id) = started(vec![100]);
    l.submit_milestone(freelancer(), NOW, id, 0, String::new()).unwrap();
    l.dispute_milestone(depositor(), NOW + 1, id, 0, String::new()).unwrap();
    assert_eq!(l.resolve_dispute(addr(77), NOW + 2, id, 0, 10), Err(Error::Unauthorized));
    assert_eq!(l.resolve_dispute(arbiter(), NOW + 2, id, 0, 101), Err(Error::InvalidAmount));
    assert_eq!(l.get_escrow_summary(id).unwrap().status, EscrowStatus::Disputed);
}

#[test]
fn reserve_equals_outstanding_across_escrows() {
    let mut l = ledger();
    let a = create(&mut l, vec![100, 200]);
    let b = create(&mut l, vec![40]);
    let c = create(&mut l, vec![7, 8]);
    l.start_work(freelancer(), a).unwrap();
    l.submit_milestone(freelancer(), NOW, a, 1, String::new()).unwrap();
    l.approve_milestone(depositor(), NOW, a, 1).unwrap();
    l.refund_escrow(depositor(), NOW, b).unwrap();
    let outstanding: u128 = [a, b, c]
        .iter()
        .map(|id| {
            let s = l.get_escrow_summary(*id).unwrap();
            match s.status {
                EscrowStatus::Released | EscrowStatus::Refunded | EscrowStatus::Expired => 0,
                _ => s.remaining_amount,
            }
        })
        .sum();
    assert_eq!(l.escrowed_amount(token_x()), outstanding);
    assert_eq!(outstanding, 100 + 15);
}

#[test]
fn paid_never_exceeds_total_and_release_means_fully_paid() {
    let (mut l, id) = started(vec![5, 6]);
    l.submit_milestone(freelancer(), NOW, id, 0, String::new()).unwrap();
    l.approve_milestone(depositor(), NOW, id, 0).unwrap();
    let s = l.get_escrow_summary(id).unwrap();
    assert!(s.paid_amount <= s.total_amount);
    assert_ne!(s.status, EscrowStatus::Released);
    l.submit_milestone(freelancer(), NOW, id, 1, String::new()).unwrap();
    l.approve_milestone(depositor(), NOW, id, 1).unwrap();
    let s = l.get_escrow_summary(id).unwrap();
    assert_eq!(s.paid_amount, s.total_amount);
    assert_eq!(s.status, EscrowStatus::Released);
}

#[test]
fn milestone_transitions_follow_the_graph() {
    let (mut l, id) = started(vec![10, 20]);
    // Not started: cannot be approved, rejected, resubmitted or disputed.
    assert_eq!(l.approve_milestone(depositor(), NOW, id, 0), Err(Error::InvalidStatus));
    assert_eq!(l.reject_milestone(depositor(), NOW, id, 0, String::new()), Err(Error::InvalidStatus));
    assert_eq!(l.resubmit_milestone(freelancer(), NOW, id, 0, String::new()), Err(Error::InvalidStatus));
    assert_eq!(l.dispute_milestone(depositor(), NOW, id, 0, String::new()), Err(Error::InvalidStatus));
    l.submit_milestone(freelancer(), NOW, id, 0, "first try".to_string()).unwrap();
    assert_eq!(l.submit_milestone(freelancer(), NOW, id, 0, String::new()), Err(Error::AlreadySubmitted));
    l.reject_milestone(depositor(), NOW + 1, id, 0, "redo".to_string()).unwrap();
    assert_eq!(l.get_milestones(id).unwrap()[0].status, MilestoneStatus::Rejected);
    assert_eq!(l.approve_milestone(depositor(), NOW, id, 0), Err(Error::InvalidStatus));
    l.resubmit_milestone(freelancer(), NOW + 2, id, 0, "second try".to_string()).unwrap();
    let ms = l.get_milestones(id).unwrap();
    assert_eq!(ms[0].status, MilestoneStatus::Submitted);
    assert_eq!(ms[0].submitted_at, NOW + 2);
    assert_eq!(ms[0].description, "second try");
    assert_eq!(ms[0].dispute_reason, "redo");
    l.approve_milestone(depositor(), NOW + 3, id, 0).unwrap();
    assert_eq!(l.get_milestones(id).unwrap()[0].status, MilestoneStatus::Approved);
    assert_eq!(l.submit_milestone(freelancer(), NOW, id, 0, String::new()), Err(Error::AlreadySubmitted));
}

#[test]
fn empty_description_keeps_the_old_one() {
    let (mut l, id) = started(vec![10]);
    l.submit_milestone(freelancer(), NOW, id, 0, String::new()).unwrap();
    assert_eq!(l.get_milestones(id).unwrap()[0].description, "milestone 0");
}

#[test]
fn disputed_escrow_blocks_other_milestones() {
    let (mut l, id) = started(vec![10, 20]);
    l.submit_milestone(freelancer(), NOW, id, 0, String::new()).unwrap();
    l.dispute_milestone(depositor(), NOW, id, 0, String::new()).unwrap();
    assert_eq!(l.submit_milestone(freelancer(), NOW, id, 1, String::new()), Err(Error::InvalidStatus));
}

#[test]
fn applications_are_bounded_and_unique() {
    let mut l = ledger();
    let id = create_with(&mut l, Address::zero(), vec![100]);
    assert!(l.get_escrow_summary(id).unwrap().is_open_job);
    l.apply_to_job(addr(1000), NOW, id, "hire me".to_string(), 10).unwrap();
    assert_eq!(
        l.apply_to_job(addr(1000), NOW, id, "again".to_string(), 10),
        Err(Error::AlreadySubmitted)
    );
    for k in 1..50u32 {
        l.apply_to_job(addr(1000 + k), NOW, id, "hire me".to_string(), 10).unwrap();
    }
    assert_eq!(l.get_application_count(id), Ok(50));
    assert_eq!(
        l.apply_to_job(addr(2000), NOW, id, "hire me".to_string(), 10),
        Err(Error::TooManyMilestones)
    );
    assert_eq!(l.get_application_count(id), Ok(50));
}

#[test]
fn apply_rejections() {
    let mut l = ledger();
    let open = create_with(&mut l, Address::zero(), vec![100]);
    let named = create(&mut l, vec![100]);
    assert_eq!(l.apply_to_job(addr(50), NOW, named, "x".to_string(), 1), Err(Error::InvalidStatus));
    assert_eq!(l.apply_to_job(depositor(), NOW, open, "x".to_string(), 1), Err(Error::Unauthorized));
    assert_eq!(l.apply_to_job(addr(50), NOW, open, String::new(), 1), Err(Error::InvalidAmount));
    assert_eq!(l.apply_to_job(addr(50), NOW, 99, "x".to_string(), 1), Err(Error::InvalidEscrow));
}

#[test]
fn accept_freelancer_fills_open_job() {
    let mut l = ledger();
    let id = create_with(&mut l, Address::zero(), vec![100]);
    // Nobody can start work on an open job.
    assert_eq!(l.start_work(Address::zero(), id), Err(Error::Unauthorized));
    l.apply_to_job(addr(60), NOW, id, "pick me".to_string(), 14).unwrap();
    assert_eq!(l.accept_freelancer(depositor(), id, addr(61)), Err(Error::InvalidEscrow));
    assert_eq!(l.accept_freelancer(addr(60), id, addr(60)), Err(Error::Unauthorized));
    l.accept_freelancer(depositor(), id, addr(60)).unwrap();
    let s = l.get_escrow_summary(id).unwrap();
    assert_eq!(s.beneficiary, addr(60));
    assert!(!s.is_open_job);
    assert_eq!(l.get_user_escrows(addr(60)), vec![id]);
    assert_eq!(l.accept_freelancer(depositor(), id, addr(60)), Err(Error::InvalidStatus));
    l.start_work(addr(60), id).unwrap();
    assert_eq!(l.has_user_applied(id, addr(60)), Ok(true));
    assert_eq!(l.has_user_applied(id, addr(62)), Ok(false));
}

#[test]
fn application_pages() {
    let mut l = ledger();
    let id = create_with(&mut l, Address::zero(), vec![100]);
    for k in 0..5u32 {
        l.apply_to_job(addr(500 + k), NOW + k as u64, id, format!("letter {}", k), 7).unwrap();
    }
    let page = l.get_applications_page(id, 1, 2).unwrap();
    assert_eq!(page.len(), 2);
    assert_eq!(page[0].freelancer, addr(501));
    assert_eq!(page[1].cover_letter, "letter 2");
    let tail = l.get_applications_page(id, 3, 10).unwrap();
    assert_eq!(tail.len(), 2);
    assert_eq!(l.get_applications_page(id, 6, 2).unwrap_err(), Error::InvalidAmount);
    assert_eq!(l.get_applications_page(id, 0, 0).unwrap_err(), Error::InvalidAmount);
    assert_eq!(l.get_applications_page(id, 0, 51).unwrap_err(), Error::InvalidAmount);
    assert_eq!(l.get_applications_page(id, 5, 3).unwrap().len(), 0);
}

#[test]
fn fee_is_collected_on_top_and_accrues_on_start() {
    let mut l = ledger_with_fee(250);
    let (id, pull) = l
        .create_escrow(
            depositor(),
            NOW,
            0,
            freelancer(),
            vec![arbiter()],
            1,
            vec![1000, 3000],
            descriptions(2),
            token_x(),
            DAY,
            "Job".to_string(),
            String::new(),
        )
        .unwrap();
    assert_eq!(pull, Some(Transfer::In { asset: token_x(), from: depositor(), amount: 4100 }));
    assert_eq!(l.escrowed_amount(token_x()), 4000);
    assert_eq!(l.get_withdrawable_fees(token_x()), 0);
    l.start_work(freelancer(), id).unwrap();
    assert_eq!(l.get_withdrawable_fees(token_x()), 100);
    assert_eq!(l.withdraw_fees(addr(77), token_x()), Err(Error::Unauthorized));
    let t = l.withdraw_fees(collector(), token_x()).unwrap();
    assert_eq!(t, Transfer::Out { asset: token_x(), to: collector(), amount: 100 });
    assert_eq!(l.withdraw_fees(collector(), token_x()), Err(Error::NothingToRefund));
}

#[test]
fn native_escrow_needs_exact_value() {
    let mut l = ledger_with_fee(100);
    let r = l.create_escrow_native(
        depositor(),
        NOW,
        1000,
        freelancer(),
        vec![arbiter()],
        1,
        vec![1000],
        descriptions(1),
        DAY,
        "Job".to_string(),
        String::new(),
    );
    assert_eq!(r, Err(Error::ValueMismatch));
    let id = l
        .create_escrow_native(
            depositor(),
            NOW,
            1010,
            freelancer(),
            vec![arbiter()],
            1,
            vec![1000],
            descriptions(1),
            DAY,
            "Job".to_string(),
            String::new(),
        )
        .unwrap();
    assert_eq!(id, 1);
    assert_eq!(l.escrowed_amount(Address::zero()), 1000);
    assert_eq!(l.next_escrow_id(), 2);
}

fn try_create(
    l: &mut SecureFlow,
    beneficiary: Address,
    arbiters: Vec<Address>,
    confirmations: u8,
    amounts: Vec<u128>,
    n_descriptions: usize,
    token: Address,
    duration: u64,
    title: &str,
) -> Result<(u64, Option<Transfer>), Error> {
    l.create_escrow(
        depositor(),
        NOW,
        0,
        beneficiary,
        arbiters,
        confirmations,
        amounts,
        descriptions(n_descriptions),
        token,
        duration,
        title.to_string(),
        String::new(),
    )
}

#[test]
fn create_validation_errors() {
    let mut l = ledger();
    let b = freelancer();
    let a = vec![arbiter()];
    let x = token_x();
    assert_eq!(try_create(&mut l, b, a.clone(), 1, vec![1], 1, addr(555), DAY, "t"), Err(Error::TokenNotWhitelisted));
    assert_eq!(try_create(&mut l, b, vec![], 1, vec![1], 1, x, DAY, "t"), Err(Error::TooManyArbiters));
    assert_eq!(try_create(&mut l, b, vec![arbiter(); 6], 1, vec![1], 1, x, DAY, "t"), Err(Error::TooManyArbiters));
    assert_eq!(try_create(&mut l, b, a.clone(), 0, vec![1], 1, x, DAY, "t"), Err(Error::InvalidAmount));
    assert_eq!(try_create(&mut l, b, a.clone(), 2, vec![1], 1, x, DAY, "t"), Err(Error::InvalidAmount));
    assert_eq!(try_create(&mut l, b, vec![addr(88)], 1, vec![1], 1, x, DAY, "t"), Err(Error::ArbiterNotAuthorized));
    assert_eq!(try_create(&mut l, depositor(), a.clone(), 1, vec![1], 1, x, DAY, "t"), Err(Error::BeneficiaryEqualsDepositor));
    assert_eq!(try_create(&mut l, b, a.clone(), 1, vec![1], 1, x, 3599, "t"), Err(Error::InvalidDuration));
    assert_eq!(try_create(&mut l, b, a.clone(), 1, vec![1], 1, x, 31_536_001, "t"), Err(Error::InvalidDuration));
    assert_eq!(try_create(&mut l, b, a.clone(), 1, vec![], 0, x, DAY, "t"), Err(Error::EmptyMilestones));
    assert_eq!(try_create(&mut l, b, a.clone(), 1, vec![1, 2], 1, x, DAY, "t"), Err(Error::MilestoneCountMismatch));
    assert_eq!(try_create(&mut l, b, a.clone(), 1, vec![1; 21], 21, x, DAY, "t"), Err(Error::TooManyMilestones));
    assert_eq!(try_create(&mut l, b, a.clone(), 1, vec![1, 0], 2, x, DAY, "t"), Err(Error::ZeroMilestoneAmount));
    assert_eq!(try_create(&mut l, b, a.clone(), 1, vec![1], 1, x, DAY, ""), Err(Error::EmptyProjectTitle));
    assert_eq!(
        try_create(&mut l, b, a.clone(), 1, vec![u128::MAX, 1], 2, x, DAY, "t"),
        Err(Error::ArithmeticOverflow)
    );
    assert_eq!(l.next_escrow_id(), 1);
    // The limits themselves are accepted.
    assert!(try_create(&mut l, b, vec![arbiter(); 5], 5, vec![1; 20], 20, x, 3600, "t").is_ok());
    assert!(try_create(&mut l, b, a.clone(), 1, vec![1], 1, x, 31_536_000, "t").is_ok());
}

#[test]
fn pause_flags_stop_operations() {
    let mut l = ledger();
    let id = create(&mut l, vec![10]);
    assert_eq!(l.pause(depositor()), Err(Error::Unauthorized));
    l.pause_job_creation(owner()).unwrap();
    assert_eq!(try_create(&mut l, freelancer(), vec![arbiter()], 1, vec![1], 1, token_x(), DAY, "t"), Err(Error::JobCreationPaused));
    l.start_work(freelancer(), id).unwrap();
    l.unpause_job_creation(owner()).unwrap();
    l.pause(owner()).unwrap();
    assert!(l.paused());
    assert_eq!(l.submit_milestone(freelancer(), NOW, id, 0, String::new()), Err(Error::Paused));
    assert_eq!(try_create(&mut l, freelancer(), vec![arbiter()], 1, vec![1], 1, token_x(), DAY, "t"), Err(Error::Paused));
    l.unpause(owner()).unwrap();
    l.submit_milestone(freelancer(), NOW, id, 0, String::new()).unwrap();
}

#[test]
fn start_work_rules() {
    let mut l = ledger();
    let id = create(&mut l, vec![10]);
    assert_eq!(l.start_work(depositor(), id), Err(Error::Unauthorized));
    assert_eq!(l.start_work(freelancer(), 5), Err(Error::InvalidEscrow));
    l.start_work(freelancer(), id).unwrap();
    assert_eq!(l.start_work(freelancer(), id), Err(Error::InvalidStatus));
    assert_eq!(l.refund_escrow(depositor(), NOW, id), Err(Error::InvalidStatus));
}

#[test]
fn refund_after_deadline_is_refused() {
    let mut l = ledger();
    let id = create(&mut l, vec![10]);
    assert_eq!(l.refund_escrow(freelancer(), NOW, id), Err(Error::Unauthorized));
    assert_eq!(l.refund_escrow(depositor(), NOW + 30 * DAY, id), Err(Error::DeadlineNotPassed));
    assert!(l.refund_escrow(depositor(), NOW + 30 * DAY - 1, id).is_ok());
}

#[test]
fn emergency_refund_works_mid_dispute() {
    let (mut l, id) = started(vec![100, 200]);
    l.submit_milestone(freelancer(), NOW, id, 0, String::new()).unwrap();
    l.approve_milestone(depositor(), NOW, id, 0).unwrap();
    l.submit_milestone(freelancer(), NOW, id, 1, String::new()).unwrap();
    l.dispute_milestone(depositor(), NOW, id, 1, String::new()).unwrap();
    let deadline = l.get_escrow_summary(id).unwrap().deadline;
    assert_eq!(
        l.emergency_refund_after_deadline(depositor(), deadline + GRACE, id),
        Err(Error::EmergencyPeriodNotReached)
    );
    assert_eq!(
        l.emergency_refund_after_deadline(freelancer(), deadline + GRACE + 1, id),
        Err(Error::Unauthorized)
    );
    let t = l.emergency_refund_after_deadline(depositor(), deadline + GRACE + 1, id).unwrap();
    assert_eq!(t, Transfer::Out { asset: token_x(), to: depositor(), amount: 200 });
    assert_eq!(l.get_escrow_summary(id).unwrap().status, EscrowStatus::Expired);
    assert_eq!(l.escrowed_amount(token_x()), 0);
    assert_eq!(
        l.emergency_refund_after_deadline(depositor(), deadline + GRACE + 1, id),
        Err(Error::InvalidStatus)
    );
    // An expired escrow cannot be disputed back to life.
    assert_eq!(l.dispute_milestone(depositor(), NOW, id, 1, String::new()), Err(Error::InvalidStatus));
}

#[test]
fn extend_deadline_rules() {
    let mut l = ledger();
    let id = create(&mut l, vec![10]);
    let before = l.get_escrow_summary(id).unwrap().deadline;
    assert_eq!(before, NOW + 30 * DAY);
    assert_eq!(l.extend_deadline(depositor(), id, 0), Err(Error::InvalidDuration));
    assert_eq!(l.extend_deadline(depositor(), id, GRACE + 1), Err(Error::InvalidDuration));
    assert_eq!(l.extend_deadline(freelancer(), id, DAY), Err(Error::Unauthorized));
    l.extend_deadline(depositor(), id, GRACE).unwrap();
    l.extend_deadline(depositor(), id, DAY).unwrap();
    assert_eq!(l.get_escrow_summary(id).unwrap().deadline, before + GRACE + DAY);
    l.refund_escrow(depositor(), NOW, id).unwrap();
    assert_eq!(l.extend_deadline(depositor(), id, DAY), Err(Error::InvalidStatus));
}

#[test]
fn milestone_index_out_of_range() {
    let (mut l, id) = started(vec![10]);
    assert_eq!(l.submit_milestone(freelancer(), NOW, id, 1, String::new()), Err(Error::MilestoneNotFound));
    assert_eq!(l.approve_milestone(depositor(), NOW, id, 7), Err(Error::MilestoneNotFound));
}

#[test]
fn reputation_awarded_above_threshold() {
    let (mut l, id) = started(vec![10_000_000_000_000_000, 10_000_000_000_000_000]);
    l.submit_milestone(freelancer(), NOW, id, 0, String::new()).unwrap();
    l.approve_milestone(depositor(), NOW, id, 0).unwrap();
    assert_eq!(l.get_reputation(freelancer()), 10);
    assert_eq!(l.get_reputation(depositor()), 0);
    l.submit_milestone(freelancer(), NOW, id, 1, String::new()).unwrap();
    l.approve_milestone(depositor(), NOW, id, 1).unwrap();
    assert_eq!(l.get_reputation(freelancer()), 10 + 10 + 25);
    assert_eq!(l.get_reputation(depositor()), 25);
    assert_eq!(l.get_completed_escrows(depositor()), 1);
}

#[test]
fn user_index_and_arbiter_lookup() {
    let mut l = ledger();
    let a = create(&mut l, vec![10]);
    let b = create_with(&mut l, Address::zero(), vec![10]);
    let c = create(&mut l, vec![10]);
    assert_eq!(l.get_user_escrows(depositor()), vec![a, b, c]);
    assert_eq!(l.get_user_escrows(freelancer()), vec![a, c]);
    assert_eq!(l.get_user_escrows(addr(404)), Vec::<u64>::new());
    assert!(l.is_arbiter_for_escrow(a, arbiter()));
    assert!(!l.is_arbiter_for_escrow(a, freelancer()));
    assert!(!l.is_arbiter_for_escrow(42, arbiter()));
}

#[test]
fn admin_settings() {
    let mut l = ledger();
    assert_eq!(SecureFlow::init(owner(), Address::zero(), Address::zero(), 0).err(), Some(Error::Unauthorized));
    assert_eq!(SecureFlow::init(owner(), Address::zero(), collector(), 1001).err(), Some(Error::InvalidAmount));
    let native_alias = SecureFlow::init(owner(), addr(300), collector(), 0).unwrap();
    assert!(native_alias.whitelisted_tokens(addr(300)));
    assert_eq!(l.set_platform_fee_bp(owner(), 1001), Err(Error::InvalidAmount));
    l.set_platform_fee_bp(owner(), 1000).unwrap();
    assert_eq!(l.platform_fee_bp(), 1000);
    assert_eq!(l.set_fee_collector(owner(), Address::zero()), Err(Error::InvalidAmount));
    l.set_fee_collector(owner(), addr(5)).unwrap();
    assert_eq!(l.fee_collector(), addr(5));
    assert_eq!(l.whitelist_token(owner(), Address::zero()), Err(Error::InvalidAmount));
    l.blacklist_token(owner(), token_x()).unwrap();
    assert!(!l.whitelisted_tokens(token_x()));
    assert_eq!(l.authorize_arbiter(owner(), Address::zero()), Err(Error::InvalidAmount));
    l.revoke_arbiter(owner(), arbiter()).unwrap();
    assert!(!l.authorized_arbiters(arbiter()));
    assert_eq!(l.revoke_arbiter(depositor(), arbiter()), Err(Error::Unauthorized));
    assert_eq!(l.owner(), owner());
    assert!(!l.job_creation_paused());
}

#[test]
fn emergency_withdraw_keeps_claimed_funds() {
    let mut l = ledger();
    create(&mut l, vec![100]);
    assert_eq!(l.emergency_withdraw(depositor(), token_x(), 1, 500), Err(Error::Unauthorized));
    assert_eq!(l.emergency_withdraw(owner(), token_x(), 0, 500), Err(Error::InvalidAmount));
    assert_eq!(l.emergency_withdraw(owner(), token_x(), 1, 100), Err(Error::NothingToRefund));
    assert_eq!(l.emergency_withdraw(owner(), token_x(), 401, 500), Err(Error::InvalidAmount));
    assert_eq!(
        l.emergency_withdraw(owner(), token_x(), 400, 500),
        Ok(Transfer::Out { asset: token_x(), to: owner(), amount: 400 })
    );
}

#[test]
fn error_codes() {
    assert_eq!(Error::Unauthorized.code(), "UNAUTH");
    assert_eq!(Error::DisputePeriodExpired.code(), "DISP_EXP");
    assert_eq!(Error::NothingToRefund.code(), "NO_REFUND");
    assert_eq!(Error::ValueMismatch.code(), "VALUE_MIS");
    assert_eq!(Error::ArithmeticOverflow.code(), "OVERFLOW");
}

#[test]
fn wrong_party_is_unauthorized() {
    let (mut l, id) = started(vec![10]);
    assert_eq!(l.submit_milestone(depositor(), NOW, id, 0, String::new()), Err(Error::Unauthorized));
    l.submit_milestone(freelancer(), NOW, id, 0, String::new()).unwrap();
    assert_eq!(l.approve_milestone(freelancer(), NOW, id, 0), Err(Error::Unauthorized));
    assert_eq!(l.reject_milestone(freelancer(), NOW, id, 0, String::new()), Err(Error::Unauthorized));
    assert_eq!(l.dispute_milestone(freelancer(), NOW, id, 0, String::new()), Err(Error::Unauthorized));
}
