//! The records of the progress ledger, the keys they are filed under, and the
//! way an update can fail.

use crate::address::Address;
use crate::store::StoreKey;
use vstd::prelude::*;

verus! {

/// What is known of one student.
#[derive(Debug, PartialEq, Eq)]
pub struct StudentInfo {
    pub address: Address,
    /// The progress that the student has reported in all.
    pub total_progress: u32,
    /// The ledger clock at the last report.
    pub last_update: u64,
}

/// What a student's record is, as a mathematical value.
pub struct StudentInfoView {
    pub address: Seq<char>,
    pub total_progress: u32,
    pub last_update: u64,
}

impl View for StudentInfo {
    type V = StudentInfoView;

    open spec fn view(&self) -> StudentInfoView {
        StudentInfoView {
            address: self.address@,
            total_progress: self.total_progress,
            last_update: self.last_update,
        }
    }
}

impl Clone for StudentInfo {
    fn clone(&self) -> (copy: StudentInfo)
        ensures
            copy@ == self@,
    {
        StudentInfo {
            address: self.address.clone(),
            total_progress: self.total_progress,
            last_update: self.last_update,
        }
    }
}

/// The views of the addresses of a list, in the order of the list.
pub open spec fn address_views(addresses: Seq<Address>) -> Seq<Seq<char>> {
    addresses.map_values(|address: Address| address@)
}

/// The views of the student records of a list, in the order of the list.
pub open spec fn student_views(students: Seq<StudentInfo>) -> Seq<StudentInfoView> {
    students.map_values(|student: StudentInfo| student@)
}

/// A copy of a list of addresses.
pub fn clone_addresses(addresses: &Vec<Address>) -> (copy: Vec<Address>)
    ensures
        address_views(copy@) == address_views(addresses@),
{
    let mut copy: Vec<Address> = Vec::new();
    let mut at: usize = 0;
    while at < addresses.len()
        invariant
            at <= addresses@.len(),
            copy@.len() == at,
            forall|i: int| 0 <= i < at ==> copy@[i]@ == addresses@[i]@,
        decreases addresses@.len() - at,
    {
        copy.push(addresses[at].clone());
        at += 1;
    }
    assert(address_views(copy@) =~= address_views(addresses@));
    copy
}

/// The keys of the progress ledger.
#[derive(Debug)]
pub enum DataKey {
    /// The progress reported by all students together.
    TotalProgress,
    /// The student that reported last.
    LastStudent,
    /// What is known of the given student.
    Student(Address),
    /// The students that have reported, in the order of their first report.
    AllStudents,
}

/// What a key is, as a mathematical value.
pub enum DataKeyView {
    TotalProgress,
    LastStudent,
    Student(Seq<char>),
    AllStudents,
}

impl View for DataKey {
    type V = DataKeyView;

    open spec fn view(&self) -> DataKeyView {
        match *self {
            DataKey::TotalProgress => DataKeyView::TotalProgress,
            DataKey::LastStudent => DataKeyView::LastStudent,
            DataKey::Student(student) => DataKeyView::Student(student@),
            DataKey::AllStudents => DataKeyView::AllStudents,
        }
    }
}

impl StoreKey for DataKey {
    fn same_key(&self, other: &DataKey) -> (same: bool) {
        match (self, other) {
            (DataKey::TotalProgress, DataKey::TotalProgress) => true,
            (DataKey::LastStudent, DataKey::LastStudent) => true,
            (DataKey::Student(student), DataKey::Student(counterpart)) => student.same_as(
                counterpart,
            ),
            (DataKey::AllStudents, DataKey::AllStudents) => true,
            _ => false,
        }
    }
}

/// The records of the progress ledger.
#[derive(Debug)]
pub enum Record {
    Progress(u32),
    Address(Address),
    Student(StudentInfo),
    Students(Vec<Address>),
}

/// What a record is, as a mathematical value.
pub enum RecordView {
    Progress(u32),
    Address(Seq<char>),
    Student(StudentInfoView),
    Students(Seq<Seq<char>>),
}

impl View for Record {
    type V = RecordView;

    open spec fn view(&self) -> RecordView {
        match *self {
            Record::Progress(progress) => RecordView::Progress(progress),
            Record::Address(address) => RecordView::Address(address@),
            Record::Student(student) => RecordView::Student(student@),
            Record::Students(students) => RecordView::Students(address_views(students@)),
        }
    }
}

/// Why an update of the progress did not take place.
#[derive(Debug, Clone, Copy, PartialEq, Eq, Structural)]
pub enum ProgressError {
    /// A sum of progress would leave the range of its type.
    Overflow,
}

} // verus!
