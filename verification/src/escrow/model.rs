//! What the escrow's operations do, told over the ledger as a mathematical
//! map from keys to records.
//!
//! An operation either fails, and then leaves the ledger as it was, or yields
//! the ledger that follows. A key that holds no record, or a record of a kind
//! that does not belong under it, counts as absent; what an absent record
//! stands for is said with each reader below.

use super::types::{DataKey, EscrowError, MilestoneView, RecordView, ScholarshipView};
use vstd::prelude::*;

verus! {

/// The ledger of the escrow.
pub type Ledger = Map<DataKey, RecordView>;

/// The number of scholarships created so far; 0 where nothing was counted.
pub open spec fn counter(ledger: Ledger) -> u64 {
    match ledger.get(DataKey::ScholarshipCounter) {
        Some(RecordView::Counter(count)) => count,
        _ => 0,
    }
}

/// The scholarship with identifier `id`, if the ledger holds it.
pub open spec fn scholarship(ledger: Ledger, id: u64) -> Option<ScholarshipView> {
    match ledger.get(DataKey::Scholarship(id)) {
        Some(RecordView::Scholarship(record)) => Some(record),
        _ => None,
    }
}

/// The milestones of the scholarship with identifier `id`, if the ledger
/// holds them.
pub open spec fn milestones(ledger: Ledger, id: u64) -> Option<Seq<MilestoneView>> {
    match ledger.get(DataKey::Milestones(id)) {
        Some(RecordView::Milestones(list)) => Some(list),
        _ => None,
    }
}

/// The funds deposited for the scholarship with identifier `id` and not yet
/// released; 0 where none were recorded.
pub open spec fn balance(ledger: Ledger, id: u64) -> i128 {
    match ledger.get(DataKey::Balance(id)) {
        Some(RecordView::Balance(amount)) => amount,
        _ => 0,
    }
}

/// Whether `amount` can be held in a record.
pub open spec fn fits(amount: int) -> bool {
    i128::MIN <= amount <= i128::MAX
}

/// Whether `at` is the first place in `list` whose milestone is identified by
/// `milestone_id`.
pub open spec fn is_first_match(list: Seq<MilestoneView>, milestone_id: u32, at: int) -> bool {
    &&& 0 <= at < list.len()
    &&& list[at].id == milestone_id
    &&& forall|before: int| 0 <= before < at ==> list[before].id != milestone_id
}

/// The first place in `list` whose milestone is identified by `milestone_id`.
pub open spec fn first_match(list: Seq<MilestoneView>, milestone_id: u32) -> Option<int> {
    if exists|at: int| is_first_match(list, milestone_id, at) {
        Some(choose|at: int| is_first_match(list, milestone_id, at))
    } else {
        None
    }
}

/// `list` with the milestone at `at` marked as completed.
pub open spec fn mark_completed(list: Seq<MilestoneView>, at: int) -> Seq<MilestoneView> {
    list.update(at, MilestoneView { is_completed: true, ..list[at] })
}

/// Creation of a scholarship: the ledger that follows and the identifier that
/// the scholarship gets.
///
/// The caller has to be the donor. The identifier is one more than the count
/// of scholarships so far. The scholarship starts active, with nothing
/// released and nothing deposited, and its milestones are taken as given.
pub open spec fn create(
    ledger: Ledger,
    caller: Seq<char>,
    now: u64,
    donor: Seq<char>,
    student: Seq<char>,
    total_amount: i128,
    token_type: Seq<char>,
    list: Seq<MilestoneView>,
) -> Result<(Ledger, u64), EscrowError> {
    if caller != donor {
        Err(EscrowError::Unauthorized)
    } else if counter(ledger) == u64::MAX {
        Err(EscrowError::Overflow)
    } else {
        let id = (counter(ledger) + 1) as u64;
        let record = ScholarshipView {
            id,
            donor,
            student,
            total_amount,
            released_amount: 0,
            token_type,
            is_active: true,
            created_at: now,
        };
        Ok(
            (
                ledger.insert(DataKey::Scholarship(id), RecordView::Scholarship(record)).insert(
                    DataKey::Milestones(id),
                    RecordView::Milestones(list),
                ).insert(DataKey::Balance(id), RecordView::Balance(0)).insert(
                    DataKey::ScholarshipCounter,
                    RecordView::Counter(id),
                ),
                id,
            ),
        )
    }
}

/// A deposit of `amount` by `donor` for the scholarship `id`: the ledger that
/// follows.
///
/// The caller has to be `donor`, and `donor` the donor of the scholarship.
/// The amount is added to the balance whatever its sign; nothing else changes.
pub open spec fn deposit(
    ledger: Ledger,
    caller: Seq<char>,
    donor: Seq<char>,
    id: u64,
    amount: i128,
) -> Result<Ledger, EscrowError> {
    if caller != donor {
        Err(EscrowError::Forbidden)
    } else {
        match scholarship(ledger, id) {
            None => Err(EscrowError::NotFound),
            Some(record) => {
                if record.donor != donor {
                    Err(EscrowError::Forbidden)
                } else if !fits(balance(ledger, id) + amount) {
                    Err(EscrowError::Overflow)
                } else {
                    Ok(
                        ledger.insert(
                            DataKey::Balance(id),
                            RecordView::Balance((balance(ledger, id) + amount) as i128),
                        ),
                    )
                }
            },
        }
    }
}

/// Completion of the milestone `milestone_id` of the scholarship `id`: the
/// ledger that follows and the reward that is released.
///
/// The milestone meant is the first of the list with that identifier. Its
/// reward moves from the balance to the released amount, and the milestone
/// is marked as completed.
pub open spec fn complete(ledger: Ledger, id: u64, milestone_id: u32) -> Result<
    (Ledger, i128),
    EscrowError,
> {
    match scholarship(ledger, id) {
        None => Err(EscrowError::NotFound),
        Some(record) => {
            if !record.is_active {
                Err(EscrowError::InvalidState)
            } else {
                match milestones(ledger, id) {
                    None => Err(EscrowError::NotFound),
                    Some(list) => match first_match(list, milestone_id) {
                        None => Err(EscrowError::NotFound),
                        Some(at) => {
                            let reward = list[at].reward_amount;
                            if list[at].is_completed {
                                Err(EscrowError::AlreadyCompleted)
                            } else if balance(ledger, id) < reward {
                                Err(EscrowError::InsufficientFunds)
                            } else if !fits(record.released_amount + reward) || !fits(
                                balance(ledger, id) - reward,
                            ) {
                                Err(EscrowError::Overflow)
                            } else {
                                let paid = ScholarshipView {
                                    released_amount: (record.released_amount + reward) as i128,
                                    ..record
                                };
                                Ok(
                                    (
                                        ledger.insert(
                                            DataKey::Scholarship(id),
                                            RecordView::Scholarship(paid),
                                        ).insert(
                                            DataKey::Milestones(id),
                                            RecordView::Milestones(mark_completed(list, at)),
                                        ).insert(
                                            DataKey::Balance(id),
                                            RecordView::Balance(
                                                (balance(ledger, id) - reward) as i128,
                                            ),
                                        ),
                                        reward,
                                    ),
                                )
                            }
                        },
                    },
                }
            }
        },
    }
}

/// Cancellation of the scholarship `id` by `donor`: the ledger that follows.
///
/// The caller has to be `donor`, and `donor` the donor of the scholarship.
/// A scholarship that has released anything cannot be cancelled. The balance
/// stays as it is.
pub open spec fn cancel(ledger: Ledger, caller: Seq<char>, donor: Seq<char>, id: u64) -> Result<
    Ledger,
    EscrowError,
> {
    if caller != donor {
        Err(EscrowError::Forbidden)
    } else {
        match scholarship(ledger, id) {
            None => Err(EscrowError::NotFound),
            Some(record) => {
                if record.donor != donor {
                    Err(EscrowError::Forbidden)
                } else if record.released_amount > 0 {
                    Err(EscrowError::InvalidState)
                } else {
                    Ok(
                        ledger.insert(
                            DataKey::Scholarship(id),
                            RecordView::Scholarship(
                                ScholarshipView { is_active: false, ..record },
                            ),
                        ),
                    )
                }
            },
        }
    }
}

/// Whether a milestone is completed.
pub open spec fn is_done() -> spec_fn(MilestoneView) -> bool {
    |milestone: MilestoneView| milestone.is_completed
}

/// The number of milestones of `list` that are completed.
pub open spec fn completed_count(list: Seq<MilestoneView>) -> nat {
    list.filter(is_done()).len()
}

/// The share of the milestones of `list` that are completed, in percent and
/// rounded down; 0 for a list without milestones.
pub open spec fn completion_percentage(list: Seq<MilestoneView>) -> nat {
    if list.len() == 0 {
        0
    } else {
        100 * completed_count(list) / list.len()
    }
}

/// Which scholarships a listing is to hold.
pub enum Selection {
    /// Every scholarship.
    All,
    /// The scholarships of one student.
    OfStudent(Seq<char>),
    /// The scholarships of one donor.
    OfDonor(Seq<char>),
}

/// Whether `selection` takes in `record`.
pub open spec fn selects(selection: Selection, record: ScholarshipView) -> bool {
    match selection {
        Selection::All => true,
        Selection::OfStudent(student) => record.student == student,
        Selection::OfDonor(donor) => record.donor == donor,
    }
}

/// The identifiers from 1 to `count`, ascending.
pub open spec fn identifiers(count: u64) -> Seq<u64> {
    Seq::new(count as nat, |i: int| (i + 1) as u64)
}

/// Whether the ledger holds a scholarship under `id` that `selection` takes in.
pub open spec fn listed(ledger: Ledger, selection: Selection) -> spec_fn(u64) -> bool {
    |id: u64|
        match scholarship(ledger, id) {
            Some(record) => selects(selection, record),
            None => false,
        }
}

/// What the ledger holds as the scholarship `id`.
pub open spec fn stored(ledger: Ledger) -> spec_fn(u64) -> ScholarshipView {
    |id: u64| scholarship(ledger, id).unwrap()
}

/// The identifiers from 1 to `count` under which the ledger holds a
/// scholarship that `selection` takes in, ascending.
pub open spec fn listed_identifiers(ledger: Ledger, selection: Selection, count: u64) -> Seq<u64> {
    identifiers(count).filter(listed(ledger, selection))
}

/// The scholarships with identifiers from 1 to `count` that the ledger holds
/// and `selection` takes in, by ascending identifier.
pub open spec fn listing_up_to(ledger: Ledger, selection: Selection, count: u64) -> Seq<
    ScholarshipView,
> {
    listed_identifiers(ledger, selection, count).map_values(stored(ledger))
}

/// The share of the milestones of the scholarship `id` that are completed, in
/// percent and rounded down; 0 where the ledger holds no milestones for it.
pub open spec fn progress(ledger: Ledger, id: u64) -> nat {
    match milestones(ledger, id) {
        Some(list) => completion_percentage(list),
        None => 0,
    }
}

/// The scholarships that the ledger holds and `selection` takes in, by
/// ascending identifier. Identifiers beyond the counter are not looked at.
pub open spec fn listing(ledger: Ledger, selection: Selection) -> Seq<ScholarshipView> {
    listing_up_to(ledger, selection, counter(ledger))
}

} // verus!
