//! What holds of the escrow over whole histories of operations.
//!
//! A history is a sequence of operations, applied one after the other; an
//! operation that fails leaves the ledger as it found it.

use super::model::{
    balance, cancel, complete, completed_count, completion_percentage, counter, create, deposit,
    first_match, identifiers, is_done, is_first_match, listed, listed_identifiers, listing,
    milestones, scholarship, selects, stored, Ledger, Selection,
};
use super::types::{DataKey, EscrowError, MilestoneView, RecordView};
use vstd::prelude::*;

verus! {

/// One call of an operation that may change the ledger.
pub enum Operation {
    Create {
        caller: Seq<char>,
        now: u64,
        donor: Seq<char>,
        student: Seq<char>,
        total_amount: i128,
        token_type: Seq<char>,
        milestones: Seq<MilestoneView>,
    },
    Deposit { caller: Seq<char>, donor: Seq<char>, id: u64, amount: i128 },
    Complete { id: u64, milestone_id: u32 },
    Cancel { caller: Seq<char>, donor: Seq<char>, id: u64 },
}

/// The ledger after `operation`.
pub open spec fn apply(ledger: Ledger, operation: Operation) -> Ledger {
    match operation {
        Operation::Create { caller, now, donor, student, total_amount, token_type, milestones } => {
            match create(ledger, caller, now, donor, student, total_amount, token_type, milestones) {
                Ok((after, _)) => after,
                Err(_) => ledger,
            }
        },
        Operation::Deposit { caller, donor, id, amount } => {
            match deposit(ledger, caller, donor, id, amount) {
                Ok(after) => after,
                Err(_) => ledger,
            }
        },
        Operation::Complete { id, milestone_id } => {
            match complete(ledger, id, milestone_id) {
                Ok((after, _)) => after,
                Err(_) => ledger,
            }
        },
        Operation::Cancel { caller, donor, id } => {
            match cancel(ledger, caller, donor, id) {
                Ok(after) => after,
                Err(_) => ledger,
            }
        },
    }
}

/// The ledger after the operations of `history`, applied in order.
pub open spec fn run(ledger: Ledger, history: Seq<Operation>) -> Ledger
    decreases history.len(),
{
    if history.len() == 0 {
        ledger
    } else {
        apply(run(ledger, history.drop_last()), history.last())
    }
}

/// Whether every record that belongs to a scholarship is filed under an
/// identifier that the counter has handed out.
///
/// This holds of the empty ledger, and every operation keeps it.
pub open spec fn within_counter(ledger: Ledger) -> bool {
    &&& forall|id: u64| #[trigger]
        ledger.contains_key(DataKey::Scholarship(id)) ==> 1 <= id <= counter(ledger)
    &&& forall|id: u64| #[trigger]
        ledger.contains_key(DataKey::Milestones(id)) ==> 1 <= id <= counter(ledger)
    &&& forall|id: u64| #[trigger]
        ledger.contains_key(DataKey::Balance(id)) ==> 1 <= id <= counter(ledger)
}

/// Whether no milestone of `list` carries a negative reward.
pub open spec fn rewards_nonnegative(list: Seq<MilestoneView>) -> bool {
    forall|at: int| 0 <= at < list.len() ==> list[at].reward_amount >= 0
}

/// Whether no deposit of `history` is of a negative amount.
pub open spec fn deposits_nonnegative(history: Seq<Operation>) -> bool {
    forall|at: int|
        0 <= at < history.len() ==> (#[trigger] history[at] matches Operation::Deposit {
            amount,
            ..
        } ==> amount >= 0)
}

/// Whether `later` holds the milestones of `earlier` in the same places, and
/// none of them has gone back from completed to not completed.
pub open spec fn carries_on(earlier: Seq<MilestoneView>, later: Seq<MilestoneView>) -> bool {
    &&& later.len() == earlier.len()
    &&& forall|at: int|
        0 <= at < earlier.len() ==> {
            &&& (#[trigger] later[at]).id == earlier[at].id
            &&& later[at].reward_amount == earlier[at].reward_amount
            &&& earlier[at].is_completed ==> later[at].is_completed
        }
}

/// The empty ledger keeps its records within the counter.
pub proof fn lemma_empty_within_counter()
    ensures
        within_counter(Map::<DataKey, RecordView>::empty()),
{
}

/// An operation on a ledger whose records are within the counter yields such
/// a ledger again, and never lowers the counter.
pub proof fn lemma_apply_keeps_within_counter(ledger: Ledger, operation: Operation)
    requires
        within_counter(ledger),
    ensures
        within_counter(apply(ledger, operation)),
        counter(apply(ledger, operation)) >= counter(ledger),
{
    let after = apply(ledger, operation);
    match operation {
        Operation::Create { .. } => {},
        Operation::Deposit { id: target, .. } => {
            if after != ledger {
                assert(ledger.contains_key(DataKey::Scholarship(target)));
            }
        },
        Operation::Complete { id: target, .. } => {
            if after != ledger {
                assert(ledger.contains_key(DataKey::Scholarship(target)));
            }
        },
        Operation::Cancel { id: target, .. } => {
            if after != ledger {
                assert(ledger.contains_key(DataKey::Scholarship(target)));
            }
        },
    }
}

/// A history on a ledger whose records are within the counter yields such a
/// ledger again, and never lowers the counter.
pub proof fn lemma_run_keeps_within_counter(ledger: Ledger, history: Seq<Operation>)
    requires
        within_counter(ledger),
    ensures
        within_counter(run(ledger, history)),
        counter(run(ledger, history)) >= counter(ledger),
    decreases history.len(),
{
    if history.len() > 0 {
        lemma_run_keeps_within_counter(ledger, history.drop_last());
        lemma_apply_keeps_within_counter(run(ledger, history.drop_last()), history.last());
    }
}

/// A scholarship starts with nothing released and nothing deposited, active,
/// and under the identifier that creation hands out.
pub proof fn lemma_created_starts_unreleased(
    ledger: Ledger,
    caller: Seq<char>,
    now: u64,
    donor: Seq<char>,
    student: Seq<char>,
    total_amount: i128,
    token_type: Seq<char>,
    list: Seq<MilestoneView>,
)
    requires
        create(ledger, caller, now, donor, student, total_amount, token_type, list) is Ok,
    ensures
        ({
            let (after, id) = create(
                ledger,
                caller,
                now,
                donor,
                student,
                total_amount,
                token_type,
                list,
            ).unwrap();
            &&& id == counter(ledger) + 1
            &&& counter(after) == id
            &&& scholarship(after, id) matches Some(record)
            &&& record.id == id
            &&& record.released_amount == 0
            &&& record.is_active
            &&& record.donor == donor
            &&& record.student == student
            &&& record.total_amount == total_amount
            &&& record.created_at == now
            &&& milestones(after, id) == Some(list)
            &&& balance(after, id) == 0
        }),
{
}

/// What one operation leaves in place of a scholarship that the ledger
/// holds: the scholarship itself, its donor and student, and its milestones
/// in their places.
pub proof fn lemma_apply_keeps_scholarship(ledger: Ledger, operation: Operation, id: u64)
    requires
        within_counter(ledger),
        scholarship(ledger, id) is Some,
    ensures
        scholarship(apply(ledger, operation), id) matches Some(record) && record.donor
            == scholarship(ledger, id).unwrap().donor,
        match milestones(ledger, id) {
            Some(list) => milestones(apply(ledger, operation), id) matches Some(later)
                && carries_on(list, later),
            None => milestones(apply(ledger, operation), id) is None,
        },
{
    let after = apply(ledger, operation);
    assert(ledger.contains_key(DataKey::Scholarship(id)));
    if let Some(list) = milestones(ledger, id) {
        assert(ledger.contains_key(DataKey::Milestones(id)));
        if let Operation::Complete { id: target, milestone_id } = operation {
            if target == id && complete(ledger, id, milestone_id) is Ok {
                let at = first_match(list, milestone_id).unwrap();
                assert(is_first_match(list, milestone_id, at));
            }
        }
    }
}

/// The released amount of a scholarship whose rewards are not negative is
/// not lowered by any operation.
pub proof fn lemma_apply_never_lowers_released(ledger: Ledger, operation: Operation, id: u64)
    requires
        within_counter(ledger),
        scholarship(ledger, id) is Some,
        milestones(ledger, id) matches Some(list) ==> rewards_nonnegative(list),
    ensures
        scholarship(apply(ledger, operation), id) matches Some(record) && record.released_amount
            >= scholarship(ledger, id).unwrap().released_amount,
        milestones(apply(ledger, operation), id) matches Some(list) ==> rewards_nonnegative(list),
{
    lemma_apply_keeps_scholarship(ledger, operation, id);
    assert(ledger.contains_key(DataKey::Scholarship(id)));
    if let Operation::Complete { id: target, milestone_id } = operation {
        if target == id && complete(ledger, id, milestone_id) is Ok {
            let list = milestones(ledger, id).unwrap();
            let at = first_match(list, milestone_id).unwrap();
            assert(is_first_match(list, milestone_id, at));
        }
    }
}

/// Over any history, the released amount of a scholarship whose rewards are
/// not negative never goes down.
pub proof fn lemma_released_never_decreases(ledger: Ledger, history: Seq<Operation>, id: u64)
    requires
        within_counter(ledger),
        scholarship(ledger, id) is Some,
        milestones(ledger, id) matches Some(list) ==> rewards_nonnegative(list),
    ensures
        scholarship(run(ledger, history), id) matches Some(record) && record.released_amount
            >= scholarship(ledger, id).unwrap().released_amount,
        milestones(run(ledger, history), id) matches Some(list) ==> rewards_nonnegative(list),
    decreases history.len(),
{
    if history.len() > 0 {
        let before = run(ledger, history.drop_last());
        lemma_released_never_decreases(ledger, history.drop_last(), id);
        lemma_run_keeps_within_counter(ledger, history.drop_last());
        lemma_apply_never_lowers_released(before, history.last(), id);
    }
}

/// A balance that is not negative stays so under any operation but a deposit
/// of a negative amount.
pub proof fn lemma_apply_keeps_balance_nonnegative(ledger: Ledger, operation: Operation, id: u64)
    requires
        balance(ledger, id) >= 0,
        operation matches Operation::Deposit { amount, .. } ==> amount >= 0,
    ensures
        balance(apply(ledger, operation), id) >= 0,
{
}

/// Over any history without a deposit of a negative amount, a balance that
/// is not negative never becomes negative. The balances of the empty ledger
/// are all 0.
pub proof fn lemma_balance_never_negative(ledger: Ledger, history: Seq<Operation>, id: u64)
    requires
        balance(ledger, id) >= 0,
        deposits_nonnegative(history),
    ensures
        balance(run(ledger, history), id) >= 0,
    decreases history.len(),
{
    if history.len() > 0 {
        let earlier = history.drop_last();
        assert forall|at: int| 0 <= at < earlier.len() implies (#[trigger] earlier[at] matches Operation::Deposit {
            amount,
            ..
        } ==> amount >= 0) by {
            assert(earlier[at] == history[at]);
        }
        lemma_balance_never_negative(ledger, earlier, id);
        let last = history.last();
        assert(last == history[history.len() - 1]);
        lemma_apply_keeps_balance_nonnegative(run(ledger, earlier), last, id);
    }
}

/// Over any history, the milestones of a scholarship stay in their places,
/// and none goes back from completed to not completed.
pub proof fn lemma_milestones_carry_on(ledger: Ledger, history: Seq<Operation>, id: u64)
    requires
        within_counter(ledger),
        scholarship(ledger, id) is Some,
        milestones(ledger, id) is Some,
    ensures
        scholarship(run(ledger, history), id) is Some,
        milestones(run(ledger, history), id) matches Some(later) && carries_on(
            milestones(ledger, id).unwrap(),
            later,
        ),
    decreases history.len(),
{
    if history.len() > 0 {
        let before = run(ledger, history.drop_last());
        lemma_milestones_carry_on(ledger, history.drop_last(), id);
        lemma_run_keeps_within_counter(ledger, history.drop_last());
        lemma_apply_keeps_scholarship(before, history.last(), id);
    }
}

/// A milestone that has just been completed cannot be completed again.
pub proof fn lemma_repeated_completion_fails(ledger: Ledger, id: u64, milestone_id: u32)
    requires
        complete(ledger, id, milestone_id) is Ok,
    ensures
        complete(complete(ledger, id, milestone_id).unwrap().0, id, milestone_id) == Err::<
            (Ledger, i128),
            EscrowError,
        >(EscrowError::AlreadyCompleted),
{
    let after = complete(ledger, id, milestone_id).unwrap().0;
    let list = milestones(ledger, id).unwrap();
    let at = first_match(list, milestone_id).unwrap();
    assert(is_first_match(list, milestone_id, at));
    let marked = milestones(after, id).unwrap();
    assert(is_first_match(marked, milestone_id, at));
}

/// Once a milestone has been completed, every later attempt to complete it
/// is refused, whatever happened in between: as already completed while the
/// scholarship is active, and as out of state once it is cancelled.
pub proof fn lemma_completion_stays_refused(
    ledger: Ledger,
    id: u64,
    milestone_id: u32,
    history: Seq<Operation>,
)
    requires
        within_counter(ledger),
        complete(ledger, id, milestone_id) is Ok,
    ensures
        ({
            let later = run(complete(ledger, id, milestone_id).unwrap().0, history);
            &&& scholarship(later, id) matches Some(record)
            &&& complete(later, id, milestone_id) == Err::<(Ledger, i128), EscrowError>(
                if record.is_active {
                    EscrowError::AlreadyCompleted
                } else {
                    EscrowError::InvalidState
                },
            )
        }),
{
    let after = complete(ledger, id, milestone_id).unwrap().0;
    assert(after == apply(ledger, Operation::Complete { id, milestone_id }));
    lemma_apply_keeps_within_counter(ledger, Operation::Complete { id, milestone_id });
    let list = milestones(ledger, id).unwrap();
    let at = first_match(list, milestone_id).unwrap();
    assert(is_first_match(list, milestone_id, at));
    let marked = milestones(after, id).unwrap();
    assert(is_first_match(marked, milestone_id, at));
    lemma_milestones_carry_on(after, history, id);
    let later = milestones(run(after, history), id).unwrap();
    assert(is_first_match(later, milestone_id, at));
}

/// The completion percentage of a list lies between 0 and 100, and is 0 for
/// a list without milestones.
pub proof fn lemma_percentage_bounds(list: Seq<MilestoneView>)
    ensures
        0 <= completion_percentage(list) <= 100,
        list.len() == 0 ==> completion_percentage(list) == 0,
{
    list.lemma_filter_len(is_done());
    let done = completed_count(list);
    let total = list.len();
    if total > 0 {
        assert(100 * done / total <= 100) by (nonlinear_arith)
            requires
                done <= total,
                total > 0,
        ;
    }
}

/// What a listing goes through: the identifiers up to `count` that are
/// listed are exactly those from 1 to `count` under which the ledger holds
/// a scholarship that the selection takes in, each once and in ascending
/// order.
pub proof fn lemma_listed_identifiers(ledger: Ledger, selection: Selection, count: u64)
    ensures
        forall|at: int|
            0 <= at < listed_identifiers(ledger, selection, count).len() ==> {
                let id = #[trigger] listed_identifiers(ledger, selection, count)[at];
                &&& 1 <= id <= count
                &&& scholarship(ledger, id) matches Some(record)
                &&& selects(selection, record)
            },
        forall|first: int, second: int|
            0 <= first < second < listed_identifiers(ledger, selection, count).len()
                ==> #[trigger] listed_identifiers(ledger, selection, count)[first]
                < #[trigger] listed_identifiers(ledger, selection, count)[second],
        forall|id: u64|
            1 <= id <= count && (scholarship(ledger, id) matches Some(record) && selects(
                selection,
                record,
            )) ==> #[trigger] listed_identifiers(ledger, selection, count).contains(id),
    decreases count,
{
    let wanted = listed(ledger, selection);
    if count == 0 {
        assert(identifiers(0) =~= Seq::<u64>::empty());
        assert(listed_identifiers(ledger, selection, 0) =~= Seq::<u64>::empty()) by {
            reveal(Seq::filter);
        }
    } else {
        let fewer = (count - 1) as u64;
        lemma_listed_identifiers(ledger, selection, fewer);
        let before = listed_identifiers(ledger, selection, fewer);
        let now = listed_identifiers(ledger, selection, count);
        assert(identifiers(count) =~= identifiers(fewer).push(count));
        identifiers(fewer).lemma_filter_push(count, wanted);
        assert(now == if wanted(count) {
            before.push(count)
        } else {
            before
        });
        assert forall|id: u64|
            1 <= id <= count && (scholarship(ledger, id) matches Some(record) && selects(
                selection,
                record,
            )) implies #[trigger] now.contains(id) by {
            if id == count {
                assert(now[now.len() - 1] == count);
            } else {
                assert(before.contains(id));
                let at = choose|at: int| 0 <= at < before.len() && before[at] == id;
                assert(now[at] == id);
            }
        }
    }
}

/// A listing holds the scholarships that the selection takes in, and no
/// others: what it holds at a place is what the ledger holds under the
/// identifier listed at that place.
pub proof fn lemma_listing_holds_what_is_stored(ledger: Ledger, selection: Selection)
    ensures
        listing(ledger, selection).len() == listed_identifiers(
            ledger,
            selection,
            counter(ledger),
        ).len(),
        forall|at: int|
            0 <= at < listing(ledger, selection).len() ==> Some(
                #[trigger] listing(ledger, selection)[at],
            ) == scholarship(ledger, listed_identifiers(ledger, selection, counter(ledger))[at])
                && selects(selection, listing(ledger, selection)[at]),
{
    lemma_listed_identifiers(ledger, selection, counter(ledger));
    let ids = listed_identifiers(ledger, selection, counter(ledger));
    assert forall|at: int| 0 <= at < listing(ledger, selection).len() implies Some(
        #[trigger] listing(ledger, selection)[at],
    ) == scholarship(ledger, ids[at]) && selects(selection, listing(ledger, selection)[at]) by {
        assert(listing(ledger, selection)[at] == stored(ledger)(ids[at]));
        let id = ids[at];
        assert(scholarship(ledger, id) is Some);
    }
}

} // verus!
