//! The query layer: what the ledger holds, read without changing it.

use super::engine::ScholarshipEscrow;
use super::model::{
    balance, completed_count, completion_percentage, counter, identifiers, is_done, listed,
    listing, listing_up_to, milestones, progress, scholarship, stored, Selection,
};
use super::types::{
    clone_milestones, milestone_views, EscrowError, Milestone, Scholarship, ScholarshipView,
};
use crate::address::Address;
use vstd::prelude::*;

verus! {

/// The views of the scholarships of a list, in the order of the list.
pub open spec fn scholarship_views(records: Seq<Scholarship>) -> Seq<ScholarshipView> {
    records.map_values(|record: Scholarship| record@)
}

/// The share of the milestones of `list` that are completed, in percent and
/// rounded down; 0 for a list without milestones.
pub fn percent_completed(list: &Vec<Milestone>) -> (percentage: u32)
    ensures
        percentage == completion_percentage(milestone_views(list@)),
        percentage <= 100,
{
    if list.len() == 0 {
        return 0;
    }
    let ghost views = milestone_views(list@);
    let mut completed: usize = 0;
    let mut at: usize = 0;
    while at < list.len()
        invariant
            views == milestone_views(list@),
            at <= list@.len(),
            completed <= at,
            completed == completed_count(views.take(at as int)),
        decreases list@.len() - at,
    {
        proof {
            let seen = views.take(at as int);
            assert(views.take(at + 1) =~= seen.push(views[at as int]));
            seen.lemma_filter_push(views[at as int], is_done());
        }
        if list[at].is_completed {
            completed += 1;
        }
        at += 1;
    }
    assert(views.take(at as int) =~= views);
    let total = list.len();
    let scaled: u128 = completed as u128 * 100;
    let share: u128 = scaled / (total as u128);
    assert(share <= 100) by (nonlinear_arith)
        requires
            share == scaled / (total as u128),
            scaled == completed * 100,
            completed <= total,
            total > 0,
    ;
    share as u32
}

/// What a listing is to hold, with the address it goes by.
enum Wanted<'a> {
    All,
    OfStudent(&'a Address),
    OfDonor(&'a Address),
}

impl<'a> Wanted<'a> {
    spec fn selection(self) -> Selection {
        match self {
            Wanted::All => Selection::All,
            Wanted::OfStudent(student) => Selection::OfStudent(student@),
            Wanted::OfDonor(donor) => Selection::OfDonor(donor@),
        }
    }
}

impl ScholarshipEscrow {
    /// The scholarship with identifier `scholarship_id`.
    pub fn get_scholarship(&self, scholarship_id: u64) -> (result: Result<Scholarship, EscrowError>)
        ensures
            match result {
                Ok(record) => scholarship(self@, scholarship_id) == Some(record@),
                Err(error) => error == EscrowError::NotFound && scholarship(
                    self@,
                    scholarship_id,
                ) is None,
            },
    {
        match self.load_scholarship(scholarship_id) {
            Some(record) => Ok(record.clone()),
            None => Err(EscrowError::NotFound),
        }
    }

    /// The milestones of the scholarship with identifier `scholarship_id`,
    /// in the order in which they were given.
    pub fn get_milestones(&self, scholarship_id: u64) -> (result: Result<
        Vec<Milestone>,
        EscrowError,
    >)
        ensures
            match result {
                Ok(list) => milestones(self@, scholarship_id) == Some(milestone_views(list@)),
                Err(error) => error == EscrowError::NotFound && milestones(
                    self@,
                    scholarship_id,
                ) is None,
            },
    {
        match self.load_milestones(scholarship_id) {
            Some(list) => Ok(clone_milestones(list)),
            None => Err(EscrowError::NotFound),
        }
    }

    /// The funds deposited for the scholarship `scholarship_id` and not yet
    /// released; 0 for a scholarship that the escrow does not hold.
    pub fn get_balance(&self, scholarship_id: u64) -> (amount: i128)
        ensures
            amount == balance(self@, scholarship_id),
    {
        self.load_balance(scholarship_id)
    }

    /// The share of the milestones of the scholarship `scholarship_id` that
    /// are completed, in percent and rounded down; 0 for a scholarship
    /// without milestones.
    pub fn get_completion_percentage(&self, scholarship_id: u64) -> (percentage: u32)
        ensures
            percentage == progress(self@, scholarship_id),
            percentage <= 100,
    {
        match self.load_milestones(scholarship_id) {
            Some(list) => percent_completed(list),
            None => 0,
        }
    }

    /// The number of scholarships created so far.
    pub fn get_scholarship_count(&self) -> (count: u64)
        ensures
            count == counter(self@),
    {
        self.load_counter()
    }

    /// The scholarships of `student`, by ascending identifier.
    pub fn get_student_scholarships(&self, student: Address) -> (records: Vec<Scholarship>)
        ensures
            scholarship_views(records@) == listing(self@, Selection::OfStudent(student@)),
    {
        self.list(Wanted::OfStudent(&student))
    }

    /// The scholarships of `donor`, by ascending identifier.
    pub fn get_donor_scholarships(&self, donor: Address) -> (records: Vec<Scholarship>)
        ensures
            scholarship_views(records@) == listing(self@, Selection::OfDonor(donor@)),
    {
        self.list(Wanted::OfDonor(&donor))
    }

    /// All scholarships, by ascending identifier.
    pub fn get_all_scholarships(&self) -> (records: Vec<Scholarship>)
        ensures
            scholarship_views(records@) == listing(self@, Selection::All),
    {
        self.list(Wanted::All)
    }

    /// Scans the identifiers from 1 to the counter and collects the
    /// scholarships that are wanted.
    fn list(&self, wanted: Wanted<'_>) -> (records: Vec<Scholarship>)
        ensures
            scholarship_views(records@) == listing(self@, wanted.selection()),
    {
        let count = self.load_counter();
        let mut records: Vec<Scholarship> = Vec::new();
        let mut seen: u64 = 0;
        assert(identifiers(0) =~= Seq::<u64>::empty());
        assert(scholarship_views(records@) =~= listing_up_to(self@, wanted.selection(), 0)) by {
            reveal(Seq::filter);
        }
        while seen < count
            invariant
                count == counter(self@),
                seen <= count,
                scholarship_views(records@) == listing_up_to(self@, wanted.selection(), seen),
            decreases count - seen,
        {
            let id = seen + 1;
            let ghost before = identifiers(seen);
            proof {
                assert(identifiers(id) =~= before.push(id));
                before.lemma_filter_push(id, listed(self@, wanted.selection()));
                before.filter(listed(self@, wanted.selection())).lemma_push_map_commute(stored(self@), id);
            }
            match self.load_scholarship(id) {
                Some(record) => {
                    let take = match wanted {
                        Wanted::All => true,
                        Wanted::OfStudent(student) => record.student.same_as(student),
                        Wanted::OfDonor(donor) => record.donor.same_as(donor),
                    };
                    if take {
                        let ghost old_views = scholarship_views(records@);
                        records.push(record.clone());
                        assert(scholarship_views(records@) =~= old_views.push(
                            stored(self@)(id),
                        ));
                    }
                },
                None => {},
            }
            seen = id;
        }
        records
    }
}

} // verus!
