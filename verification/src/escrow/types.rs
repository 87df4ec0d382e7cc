//! The records of the escrow, the keys they are filed under, and the ways an
//! operation can fail.

use crate::address::Address;
use crate::store::StoreKey;
use vstd::prelude::*;

verus! {

/// A condition that a student meets once, and the reward that meeting it
/// releases.
#[derive(Debug, PartialEq, Eq)]
pub struct Milestone {
    /// Identifier, chosen by the creator of the scholarship.
    pub id: u32,
    pub title: String,
    pub description: String,
    /// Advisory progress threshold, from 0 to 100.
    pub required_progress: u32,
    /// What completing the milestone releases.
    pub reward_amount: i128,
    /// Free-form category of the proof that is expected.
    pub proof_type: String,
    /// Whether the milestone has been completed.
    pub is_completed: bool,
}

/// What a milestone is, as a mathematical value.
pub struct MilestoneView {
    pub id: u32,
    pub title: Seq<char>,
    pub description: Seq<char>,
    pub required_progress: u32,
    pub reward_amount: i128,
    pub proof_type: Seq<char>,
    pub is_completed: bool,
}

impl View for Milestone {
    type V = MilestoneView;

    open spec fn view(&self) -> MilestoneView {
        MilestoneView {
            id: self.id,
            title: self.title@,
            description: self.description@,
            required_progress: self.required_progress,
            reward_amount: self.reward_amount,
            proof_type: self.proof_type@,
            is_completed: self.is_completed,
        }
    }
}

impl Clone for Milestone {
    fn clone(&self) -> (copy: Milestone)
        ensures
            copy@ == self@,
    {
        Milestone {
            id: self.id,
            title: self.title.clone(),
            description: self.description.clone(),
            required_progress: self.required_progress,
            reward_amount: self.reward_amount,
            proof_type: self.proof_type.clone(),
            is_completed: self.is_completed,
        }
    }
}

/// The views of the milestones of a list, in the order of the list.
pub open spec fn milestone_views(milestones: Seq<Milestone>) -> Seq<MilestoneView> {
    milestones.map_values(|milestone: Milestone| milestone@)
}

/// A copy of a list of milestones.
pub fn clone_milestones(milestones: &Vec<Milestone>) -> (copy: Vec<Milestone>)
    ensures
        milestone_views(copy@) == milestone_views(milestones@),
{
    let mut copy: Vec<Milestone> = Vec::new();
    let mut at: usize = 0;
    while at < milestones.len()
        invariant
            at <= milestones@.len(),
            copy@.len() == at,
            forall|i: int| 0 <= i < at ==> copy@[i]@ == milestones@[i]@,
        decreases milestones@.len() - at,
    {
        copy.push(milestones[at].clone());
        at += 1;
    }
    assert(milestone_views(copy@) =~= milestone_views(milestones@));
    copy
}

/// A commitment of a donor to fund a student.
#[derive(Debug, PartialEq, Eq)]
pub struct Scholarship {
    /// Identifier, assigned at creation.
    pub id: u64,
    pub donor: Address,
    pub student: Address,
    /// What the donor committed.
    pub total_amount: i128,
    /// What completed milestones have released so far.
    pub released_amount: i128,
    /// Tag of the currency that the amounts are in.
    pub token_type: String,
    /// True from creation until the donor cancels.
    pub is_active: bool,
    /// The ledger clock at creation.
    pub created_at: u64,
}

/// What a scholarship is, as a mathematical value.
pub struct ScholarshipView {
    pub id: u64,
    pub donor: Seq<char>,
    pub student: Seq<char>,
    pub total_amount: i128,
    pub released_amount: i128,
    pub token_type: Seq<char>,
    pub is_active: bool,
    pub created_at: u64,
}

impl View for Scholarship {
    type V = ScholarshipView;

    open spec fn view(&self) -> ScholarshipView {
        ScholarshipView {
            id: self.id,
            donor: self.donor@,
            student: self.student@,
            total_amount: self.total_amount,
            released_amount: self.released_amount,
            token_type: self.token_type@,
            is_active: self.is_active,
            created_at: self.created_at,
        }
    }
}

impl Clone for Scholarship {
    fn clone(&self) -> (copy: Scholarship)
        ensures
            copy@ == self@,
    {
        Scholarship {
            id: self.id,
            donor: self.donor.clone(),
            student: self.student.clone(),
            total_amount: self.total_amount,
            released_amount: self.released_amount,
            token_type: self.token_type.clone(),
            is_active: self.is_active,
            created_at: self.created_at,
        }
    }
}

/// The keys of the escrow's ledger.
#[derive(Debug, Clone, Copy, PartialEq, Eq, Structural)]
pub enum DataKey {
    /// The number of scholarships created so far.
    ScholarshipCounter,
    /// The scholarship with the given identifier.
    Scholarship(u64),
    /// The milestones of the scholarship with the given identifier.
    Milestones(u64),
    /// The funds deposited for the scholarship with the given identifier and
    /// not yet released.
    Balance(u64),
}

impl View for DataKey {
    type V = DataKey;

    open spec fn view(&self) -> DataKey {
        *self
    }
}

impl StoreKey for DataKey {
    fn same_key(&self, other: &DataKey) -> (same: bool) {
        *self == *other
    }
}

/// The records of the escrow's ledger.
#[derive(Debug)]
pub enum Record {
    Counter(u64),
    Scholarship(Scholarship),
    Milestones(Vec<Milestone>),
    Balance(i128),
}

/// What a record is, as a mathematical value.
pub enum RecordView {
    Counter(u64),
    Scholarship(ScholarshipView),
    Milestones(Seq<MilestoneView>),
    Balance(i128),
}

impl View for Record {
    type V = RecordView;

    open spec fn view(&self) -> RecordView {
        match *self {
            Record::Counter(count) => RecordView::Counter(count),
            Record::Scholarship(scholarship) => RecordView::Scholarship(scholarship@),
            Record::Milestones(milestones) => RecordView::Milestones(milestone_views(milestones@)),
            Record::Balance(amount) => RecordView::Balance(amount),
        }
    }
}

/// Why an operation of the escrow did not take place.
#[derive(Debug, Clone, Copy, PartialEq, Eq, Structural)]
pub enum EscrowError {
    /// The caller is not the donor that the operation names.
    Unauthorized,
    /// The caller is not the donor of the scholarship.
    Forbidden,
    /// No scholarship, or no milestone, has the given identifier.
    NotFound,
    /// The scholarship is in no state for the operation.
    InvalidState,
    /// The milestone has been completed before.
    AlreadyCompleted,
    /// The deposited funds do not cover the reward.
    InsufficientFunds,
    /// An amount or a count would leave the range of its type.
    Overflow,
}

} // verus!
