use scholarship::escrow::engine::find_milestone;
use scholarship::escrow::queries::percent_completed;
use scholarship::escrow::{DataKey, EscrowError, Milestone, Record, Scholarship, ScholarshipEscrow};
use scholarship::{Address, Invocation, LedgerStore};

fn milestone(id: u32, reward_amount: i128) -> Milestone {
    Milestone {
        id,
        title: String::from("Complete Module 1"),
        description: String::from("Finish first course module"),
        required_progress: 25,
        reward_amount,
        proof_type: String::from("exam"),
        is_completed: false,
    }
}

fn donor() -> Address {
    Address::from_str("GDONOR")
}

fn student() -> Address {
    Address::from_str("GSTUDENT")
}

fn by(caller: &Address) -> Invocation {
    Invocation::new(caller.clone(), 1_700_000_000)
}

fn funded(rewards: Vec<i128>, deposit: i128) -> ScholarshipEscrow {
    let mut escrow = ScholarshipEscrow::new();
    let mut milestones = Vec::new();
    for (at, reward) in rewards.iter().enumerate() {
        milestones.push(milestone(at as u32 + 1, *reward));
    }
    let id = escrow
        .create_scholarship(&by(&donor()), donor(), student(), 1000, String::from("BRS"), milestones)
        .unwrap();
    assert_eq!(id, 1);
    if deposit != 0 {
        escrow.deposit_funds(&by(&donor()), donor(), id, deposit).unwrap();
    }
    escrow
}

#[test]
fn test_create_scholarship() {
    let mut escrow = ScholarshipEscrow::new();
    let donor = donor();
    let student = student();
    let milestones = vec![milestone(1, 250)];

    let scholarship_id = escrow
        .create_scholarship(
            &by(&donor),
            donor.clone(),
            student.clone(),
            1000,
            String::from("BRS"),
            milestones,
        )
        .unwrap();

    assert_eq!(scholarship_id, 1);

    let scholarship = escrow.get_scholarship(scholarship_id).unwrap();
    assert_eq!(scholarship.donor, donor);
    assert_eq!(scholarship.student, student);
    assert_eq!(scholarship.total_amount, 1000);
}

#[test]
fn test_deposit_and_complete_milestone() {
    let mut escrow = ScholarshipEscrow::new();
    let donor = donor();
    let student = student();
    let milestones = vec![milestone(1, 250)];

    let scholarship_id = escrow
        .create_scholarship(
            &by(&donor),
            donor.clone(),
            student.clone(),
            1000,
            String::from("BRS"),
            milestones,
        )
        .unwrap();

    escrow.deposit_funds(&by(&donor), donor.clone(), scholarship_id, 1000).unwrap();
    assert_eq!(escrow.get_balance(scholarship_id), 1000);

    let proof = String::from("exam_score_85");
    let released = escrow.complete_milestone(scholarship_id, 1, proof).unwrap();

    assert_eq!(released, 250);
    assert_eq!(escrow.get_balance(scholarship_id), 750);

    let scholarship = escrow.get_scholarship(scholarship_id).unwrap();
    assert_eq!(scholarship.released_amount, 250);
}

#[test]
fn created_scholarship_is_recorded_in_full() {
    let mut escrow = ScholarshipEscrow::new();
    let call = Invocation::new(donor(), 42);
    let id = escrow
        .create_scholarship(&call, donor(), student(), 1000, String::from("USDC"), vec![
            milestone(7, 10),
            milestone(9, 20),
        ])
        .unwrap();
    assert_eq!(
        escrow.get_scholarship(id),
        Ok(Scholarship {
            id: 1,
            donor: donor(),
            student: student(),
            total_amount: 1000,
            released_amount: 0,
            token_type: String::from("USDC"),
            is_active: true,
            created_at: 42,
        })
    );
    assert_eq!(escrow.get_milestones(id), Ok(vec![milestone(7, 10), milestone(9, 20)]));
    assert_eq!(escrow.get_balance(id), 0);
    assert_eq!(escrow.get_scholarship_count(), 1);
}

#[test]
fn identifiers_count_up_from_one() {
    let mut escrow = ScholarshipEscrow::new();
    assert_eq!(escrow.get_scholarship_count(), 0);
    for expected in 1..=4u64 {
        let id = escrow
            .create_scholarship(&by(&donor()), donor(), student(), 5, String::from("XLM"), vec![])
            .unwrap();
        assert_eq!(id, expected);
        assert_eq!(escrow.get_scholarship_count(), expected);
    }
}

#[test]
fn creation_by_another_caller_is_unauthorized() {
    let mut escrow = ScholarshipEscrow::new();
    let result = escrow.create_scholarship(
        &by(&student()),
        donor(),
        student(),
        1000,
        String::from("BRS"),
        vec![milestone(1, 250)],
    );
    assert_eq!(result, Err(EscrowError::Unauthorized));
    assert_eq!(escrow.get_scholarship_count(), 0);
    assert_eq!(escrow.get_scholarship(1), Err(EscrowError::NotFound));
}

#[test]
fn creation_with_an_exhausted_counter_overflows() {
    let mut store = LedgerStore::new();
    store.set(DataKey::ScholarshipCounter, Record::Counter(u64::MAX));
    let mut escrow = ScholarshipEscrow::from_store(store);
    let result = escrow.create_scholarship(
        &by(&donor()),
        donor(),
        student(),
        1,
        String::from("BRS"),
        vec![],
    );
    assert_eq!(result, Err(EscrowError::Overflow));
    assert_eq!(escrow.get_scholarship_count(), u64::MAX);
}

#[test]
fn scenario_release_of_one_milestone() {
    let mut escrow = funded(vec![250], 1000);
    assert_eq!(escrow.complete_milestone(1, 1, String::new()), Ok(250));
    assert_eq!(escrow.get_balance(1), 750);
    assert_eq!(escrow.get_scholarship(1).unwrap().released_amount, 250);
    assert!(escrow.get_milestones(1).unwrap()[0].is_completed);
}

#[test]
fn scenario_completion_before_any_deposit() {
    let mut escrow = funded(vec![250], 0);
    assert_eq!(
        escrow.complete_milestone(1, 1, String::from("proof")),
        Err(EscrowError::InsufficientFunds)
    );
    assert_eq!(escrow.get_balance(1), 0);
    assert_eq!(escrow.get_scholarship(1).unwrap().released_amount, 0);
    assert!(!escrow.get_milestones(1).unwrap()[0].is_completed);
}

#[test]
fn scenario_cancellation() {
    let mut untouched = funded(vec![250], 1000);
    assert_eq!(untouched.cancel_scholarship(&by(&donor()), donor(), 1), Ok(()));
    assert!(!untouched.get_scholarship(1).unwrap().is_active);
    assert_eq!(untouched.get_balance(1), 1000);

    let mut paid = funded(vec![250], 1000);
    paid.complete_milestone(1, 1, String::new()).unwrap();
    assert_eq!(
        paid.cancel_scholarship(&by(&donor()), donor(), 1),
        Err(EscrowError::InvalidState)
    );
    assert!(paid.get_scholarship(1).unwrap().is_active);
}

#[test]
fn scenario_deposit_by_a_stranger() {
    let mut escrow = funded(vec![250], 100);
    let stranger = Address::from_str("GSTRANGER");
    assert_eq!(
        escrow.deposit_funds(&by(&stranger), stranger.clone(), 1, 50),
        Err(EscrowError::Forbidden)
    );
    assert_eq!(escrow.get_balance(1), 100);
}

#[test]
fn scenario_scholarships_of_one_student() {
    let mut escrow = ScholarshipEscrow::new();
    let other = Address::from_str("GOTHER");
    let students = vec![student(), other.clone(), student(), student()];
    for (at, who) in students.iter().enumerate() {
        escrow
            .create_scholarship(
                &by(&donor()),
                donor(),
                who.clone(),
                100 + at as i128,
                String::from("BRS"),
                vec![],
            )
            .unwrap();
    }
    let found = escrow.get_student_scholarships(student());
    let ids: Vec<u64> = found.iter().map(|record| record.id).collect();
    assert_eq!(ids, vec![1, 3, 4]);
    assert!(found.iter().all(|record| record.student == student()));
    let amounts: Vec<i128> = found.iter().map(|record| record.total_amount).collect();
    assert_eq!(amounts, vec![100, 102, 103]);
    let of_other: Vec<u64> =
        escrow.get_student_scholarships(other).iter().map(|record| record.id).collect();
    assert_eq!(of_other, vec![2]);
    assert_eq!(escrow.get_student_scholarships(Address::from_str("GNOBODY")), vec![]);
}

#[test]
fn listings_by_donor_and_of_all() {
    let mut escrow = ScholarshipEscrow::new();
    let second = Address::from_str("GSECOND");
    for giver in [donor(), second.clone(), donor()] {
        escrow
            .create_scholarship(&by(&giver), giver.clone(), student(), 10, String::from("BRS"), vec![])
            .unwrap();
    }
    let of_donor: Vec<u64> =
        escrow.get_donor_scholarships(donor()).iter().map(|record| record.id).collect();
    assert_eq!(of_donor, vec![1, 3]);
    let of_second: Vec<u64> =
        escrow.get_donor_scholarships(second).iter().map(|record| record.id).collect();
    assert_eq!(of_second, vec![2]);
    let all: Vec<u64> = escrow.get_all_scholarships().iter().map(|record| record.id).collect();
    assert_eq!(all, vec![1, 2, 3]);
    assert_eq!(ScholarshipEscrow::new().get_all_scholarships(), vec![]);
}

#[test]
fn deposit_errors() {
    let mut escrow = funded(vec![250], 0);
    assert_eq!(
        escrow.deposit_funds(&by(&donor()), donor(), 2, 10),
        Err(EscrowError::NotFound)
    );
    assert_eq!(
        escrow.deposit_funds(&by(&student()), donor(), 1, 10),
        Err(EscrowError::Forbidden)
    );
    escrow.deposit_funds(&by(&donor()), donor(), 1, i128::MAX).unwrap();
    assert_eq!(
        escrow.deposit_funds(&by(&donor()), donor(), 1, 1),
        Err(EscrowError::Overflow)
    );
    assert_eq!(escrow.get_balance(1), i128::MAX);
}

#[test]
fn deposit_of_a_negative_amount_lowers_the_balance() {
    let mut escrow = funded(vec![250], 100);
    assert_eq!(escrow.deposit_funds(&by(&donor()), donor(), 1, -30), Ok(()));
    assert_eq!(escrow.get_balance(1), 70);
}

#[test]
fn deposit_may_exceed_the_total_amount() {
    let mut escrow = funded(vec![250], 5000);
    assert_eq!(escrow.get_balance(1), 5000);
    let record = escrow.get_scholarship(1).unwrap();
    assert_eq!(record.total_amount, 1000);
    assert!(record.is_active);
    escrow.deposit_funds(&by(&donor()), donor(), 1, 1).unwrap();
    assert_eq!(escrow.get_balance(1), 5001);
}

#[test]
fn completion_errors() {
    let mut escrow = funded(vec![250, 100], 300);
    assert_eq!(escrow.complete_milestone(9, 1, String::new()), Err(EscrowError::NotFound));
    assert_eq!(escrow.complete_milestone(1, 9, String::new()), Err(EscrowError::NotFound));
    assert_eq!(escrow.complete_milestone(1, 1, String::new()), Ok(250));
    assert_eq!(
        escrow.complete_milestone(1, 1, String::new()),
        Err(EscrowError::AlreadyCompleted)
    );
    assert_eq!(
        escrow.complete_milestone(1, 2, String::new()),
        Err(EscrowError::InsufficientFunds)
    );
    assert_eq!(escrow.get_balance(1), 50);
    assert_eq!(escrow.get_scholarship(1).unwrap().released_amount, 250);
}

#[test]
fn completion_of_a_cancelled_scholarship_is_out_of_state() {
    let mut escrow = funded(vec![250], 1000);
    escrow.cancel_scholarship(&by(&donor()), donor(), 1).unwrap();
    assert_eq!(escrow.complete_milestone(1, 1, String::new()), Err(EscrowError::InvalidState));
    assert_eq!(escrow.get_balance(1), 1000);
}

#[test]
fn completion_that_would_overflow_changes_nothing() {
    let mut escrow = funded(vec![-1], i128::MAX);
    assert_eq!(escrow.complete_milestone(1, 1, String::new()), Err(EscrowError::Overflow));
    assert_eq!(escrow.get_balance(1), i128::MAX);
    assert!(!escrow.get_milestones(1).unwrap()[0].is_completed);
}

#[test]
fn completion_with_the_exact_balance() {
    let mut escrow = funded(vec![250], 250);
    assert_eq!(escrow.complete_milestone(1, 1, String::new()), Ok(250));
    assert_eq!(escrow.get_balance(1), 0);
}

#[test]
fn only_the_first_of_two_milestones_with_one_identifier_is_reached() {
    let mut escrow = ScholarshipEscrow::new();
    escrow
        .create_scholarship(&by(&donor()), donor(), student(), 1000, String::from("BRS"), vec![
            milestone(5, 10),
            milestone(5, 20),
        ])
        .unwrap();
    escrow.deposit_funds(&by(&donor()), donor(), 1, 100).unwrap();
    assert_eq!(escrow.complete_milestone(1, 5, String::new()), Ok(10));
    assert_eq!(
        escrow.complete_milestone(1, 5, String::new()),
        Err(EscrowError::AlreadyCompleted)
    );
    let list = escrow.get_milestones(1).unwrap();
    assert!(list[0].is_completed);
    assert!(!list[1].is_completed);
    assert_eq!(escrow.get_completion_percentage(1), 50);
}

#[test]
fn cancellation_errors() {
    let mut escrow = funded(vec![250], 0);
    assert_eq!(
        escrow.cancel_scholarship(&by(&donor()), donor(), 3),
        Err(EscrowError::NotFound)
    );
    assert_eq!(
        escrow.cancel_scholarship(&by(&student()), donor(), 1),
        Err(EscrowError::Forbidden)
    );
    assert_eq!(
        escrow.cancel_scholarship(&by(&student()), student(), 1),
        Err(EscrowError::Forbidden)
    );
    assert!(escrow.get_scholarship(1).unwrap().is_active);
}

#[test]
fn queries_of_an_unknown_scholarship() {
    let escrow = ScholarshipEscrow::new();
    assert_eq!(escrow.get_scholarship(1), Err(EscrowError::NotFound));
    assert_eq!(escrow.get_milestones(1), Err(EscrowError::NotFound));
    assert_eq!(escrow.get_balance(1), 0);
    assert_eq!(escrow.get_completion_percentage(1), 0);
    assert_eq!(escrow.get_scholarship_count(), 0);
}

#[test]
fn completion_percentage_is_rounded_down() {
    let mut escrow = funded(vec![1, 1, 1], 10);
    assert_eq!(escrow.get_completion_percentage(1), 0);
    escrow.complete_milestone(1, 2, String::new()).unwrap();
    assert_eq!(escrow.get_completion_percentage(1), 33);
    escrow.complete_milestone(1, 1, String::new()).unwrap();
    assert_eq!(escrow.get_completion_percentage(1), 66);
    escrow.complete_milestone(1, 3, String::new()).unwrap();
    assert_eq!(escrow.get_completion_percentage(1), 100);
}

#[test]
fn completion_percentage_of_a_scholarship_without_milestones() {
    let escrow = funded(vec![], 10);
    assert_eq!(escrow.get_completion_percentage(1), 0);
}

#[test]
fn percent_completed_of_plain_lists() {
    assert_eq!(percent_completed(&vec![]), 0);
    let mut list = vec![milestone(1, 1), milestone(2, 1), milestone(3, 1), milestone(4, 1)];
    assert_eq!(percent_completed(&list), 0);
    list[3].is_completed = true;
    assert_eq!(percent_completed(&list), 25);
    list[0].is_completed = true;
    list[1].is_completed = true;
    assert_eq!(percent_completed(&list), 75);
    let mut seven = Vec::new();
    for id in 0..7 {
        let mut item = milestone(id, 1);
        item.is_completed = id < 2;
        seven.push(item);
    }
    assert_eq!(percent_completed(&seven), 28);
}

#[test]
fn find_milestone_takes_the_first_match() {
    let list = vec![milestone(4, 1), milestone(2, 1), milestone(4, 1)];
    assert_eq!(find_milestone(&list, 4), Some(0));
    assert_eq!(find_milestone(&list, 2), Some(1));
    assert_eq!(find_milestone(&list, 3), None);
    assert_eq!(find_milestone(&vec![], 0), None);
}

#[test]
fn released_amount_never_goes_down() {
    let mut escrow = funded(vec![10, 0, 30], 100);
    let mut last = escrow.get_scholarship(1).unwrap().released_amount;
    assert_eq!(last, 0);
    let steps: Vec<u32> = vec![3, 3, 2, 9, 1, 1];
    for id in steps {
        let _ = escrow.complete_milestone(1, id, String::new());
        let _ = escrow.deposit_funds(&by(&donor()), donor(), 1, 5);
        let _ = escrow.cancel_scholarship(&by(&donor()), donor(), 1);
        let _ = escrow.create_scholarship(
            &by(&donor()),
            donor(),
            student(),
            1,
            String::from("BRS"),
            vec![],
        );
        let now = escrow.get_scholarship(1).unwrap().released_amount;
        assert!(now >= last);
        last = now;
    }
    assert_eq!(last, 40);
}

#[test]
fn balance_never_goes_negative() {
    let mut escrow = funded(vec![60, 60, 60], 0);
    for (deposit, id) in [(50, 1u32), (20, 1), (0, 2), (100, 2), (10, 3), (0, 3)] {
        let _ = escrow.deposit_funds(&by(&donor()), donor(), 1, deposit);
        assert!(escrow.get_balance(1) >= 0);
        let _ = escrow.complete_milestone(1, id, String::new());
        assert!(escrow.get_balance(1) >= 0);
    }
    assert_eq!(escrow.get_balance(1), 0);
    assert_eq!(escrow.get_scholarship(1).unwrap().released_amount, 180);
}

#[test]
fn completed_milestone_stays_completed() {
    let mut escrow = funded(vec![10, 20], 100);
    escrow.complete_milestone(1, 1, String::new()).unwrap();
    escrow.deposit_funds(&by(&donor()), donor(), 1, 7).unwrap();
    escrow
        .create_scholarship(&by(&donor()), donor(), student(), 1, String::from("BRS"), vec![
            milestone(1, 1),
        ])
        .unwrap();
    escrow.complete_milestone(1, 2, String::new()).unwrap();
    let list = escrow.get_milestones(1).unwrap();
    assert!(list[0].is_completed);
    assert!(list[1].is_completed);
    assert_eq!(
        escrow.complete_milestone(1, 1, String::new()),
        Err(EscrowError::AlreadyCompleted)
    );
    assert!(!escrow.get_milestones(2).unwrap()[0].is_completed);
}

#[test]
fn snapshots_are_copies() {
    let mut escrow = funded(vec![250], 1000);
    let mut snapshot = escrow.get_milestones(1).unwrap();
    snapshot[0].is_completed = true;
    snapshot[0].reward_amount = 1;
    assert_eq!(escrow.complete_milestone(1, 1, String::new()), Ok(250));
    let mut record = escrow.get_scholarship(1).unwrap();
    record.released_amount = 0;
    assert_eq!(escrow.get_scholarship(1).unwrap().released_amount, 250);
}

#[test]
fn state_survives_its_store() {
    let mut escrow = funded(vec![250], 1000);
    escrow.complete_milestone(1, 1, String::new()).unwrap();
    assert!(escrow.store().has(&DataKey::Balance(1)));
    assert!(!escrow.store().has(&DataKey::Balance(2)));
}
