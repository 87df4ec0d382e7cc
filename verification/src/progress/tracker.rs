//! The accumulator itself: taking reports and answering for them.

use super::model::{
    info_so_far, is_on_record, known_students, last_student, on_record, roster, roster_of,
    student_info, total_progress, update,
};
use super::types::{
    address_views, clone_addresses, student_views, DataKey, DataKeyView, ProgressError, Record,
    RecordView, StudentInfo,
};
use crate::address::Address;
use crate::invocation::Invocation;
use crate::store::LedgerStore;
use vstd::prelude::*;

verus! {

/// The accumulator of the progress that students report.
pub struct ScholarshipMilestone {
    store: LedgerStore<DataKey, Record>,
}

impl View for ScholarshipMilestone {
    type V = Map<DataKeyView, RecordView>;

    closed spec fn view(&self) -> Map<DataKeyView, RecordView> {
        self.store@
    }
}

/// Whether `list` holds `student`.
pub fn holds_student(list: &Vec<Address>, student: &Address) -> (found: bool)
    ensures
        found == address_views(list@).contains(student@),
{
    let ghost views = address_views(list@);
    let mut at: usize = 0;
    while at < list.len()
        invariant
            views == address_views(list@),
            at <= list@.len(),
            forall|before: int| 0 <= before < at ==> views[before] != student@,
        decreases list@.len() - at,
    {
        if list[at].same_as(student) {
            assert(views[at as int] == student@);
            return true;
        }
        at += 1;
    }
    false
}

impl ScholarshipMilestone {
    /// The accumulator that has taken no report yet.
    pub fn new() -> (tracker: ScholarshipMilestone)
        ensures
            tracker@ == Map::<DataKeyView, RecordView>::empty(),
    {
        ScholarshipMilestone { store: LedgerStore::new() }
    }

    /// The accumulator that goes on from the records of `store`.
    pub fn from_store(store: LedgerStore<DataKey, Record>) -> (tracker: ScholarshipMilestone)
        ensures
            tracker@ == store@,
    {
        ScholarshipMilestone { store }
    }

    /// The records that make up the state, for a host to persist.
    pub fn store(&self) -> (store: &LedgerStore<DataKey, Record>)
        ensures
            store@ == self@,
    {
        &self.store
    }

    fn load_students(&self) -> (found: Option<&Vec<Address>>)
        ensures
            match found {
                Some(list) => known_students(self@) == address_views(list@),
                None => known_students(self@) == Seq::<Seq<char>>::empty(),
            },
    {
        match self.store.get(&DataKey::AllStudents) {
            Some(Record::Students(list)) => Some(list),
            _ => None,
        }
    }

    /// Takes the report of `student` that it has made `progress`.
    pub fn update_progress(&mut self, call: &Invocation, student: Address, progress: u32) -> (result:
        Result<(), ProgressError>)
        ensures
            match result {
                Ok(()) => update(old(self)@, call.timestamp, student@, progress) == Ok::<
                    _,
                    ProgressError,
                >(final(self)@),
                Err(error) => {
                    &&& update(old(self)@, call.timestamp, student@, progress) matches Err(
                        expected,
                    )
                    &&& expected == error
                    &&& final(self)@ == old(self)@
                },
            },
    {
        let total = match self.get_total_progress().checked_add(progress) {
            Some(total) => total,
            None => { return Err(ProgressError::Overflow); },
        };
        let mut info = match self.get_student_info(student.clone()) {
            Some(info) => info,
            None => StudentInfo { address: student.clone(), total_progress: 0, last_update: 0 },
        };
        assert(info@ == info_so_far(self@, student@));
        info.total_progress = match info.total_progress.checked_add(progress) {
            Some(sum) => sum,
            None => { return Err(ProgressError::Overflow); },
        };
        info.last_update = call.timestamp;
        let enrolled = match self.load_students() {
            Some(list) => {
                if holds_student(list, &student) {
                    None
                } else {
                    let mut longer = clone_addresses(list);
                    longer.push(student.clone());
                    assert(address_views(longer@) =~= address_views(list@).push(student@));
                    Some(longer)
                }
            },
            None => {
                let mut first: Vec<Address> = Vec::new();
                first.push(student.clone());
                assert(address_views(first@) =~= Seq::<Seq<char>>::empty().push(student@));
                Some(first)
            },
        };
        self.store.set(DataKey::TotalProgress, Record::Progress(total));
        self.store.set(DataKey::LastStudent, Record::Address(student.clone()));
        self.store.set(DataKey::Student(student), Record::Student(info));
        match enrolled {
            Some(list) => {
                self.store.set(DataKey::AllStudents, Record::Students(list));
            },
            None => {},
        }
        Ok(())
    }

    /// The progress reported by all students together.
    pub fn get_total_progress(&self) -> (progress: u32)
        ensures
            progress == total_progress(self@),
    {
        match self.store.get(&DataKey::TotalProgress) {
            Some(Record::Progress(progress)) => *progress,
            _ => 0,
        }
    }

    /// The student that reported last, if any has.
    pub fn get_last_student(&self) -> (found: Option<Address>)
        ensures
            match found {
                Some(student) => last_student(self@) == Some(student@),
                None => last_student(self@) is None,
            },
    {
        match self.store.get(&DataKey::LastStudent) {
            Some(Record::Address(student)) => Some(student.clone()),
            _ => None,
        }
    }

    /// What is known of `student`, if anything.
    pub fn get_student_info(&self, student: Address) -> (found: Option<StudentInfo>)
        ensures
            match found {
                Some(info) => student_info(self@, student@) == Some(info@),
                None => student_info(self@, student@) is None,
            },
    {
        match self.store.get(&DataKey::Student(student)) {
            Some(Record::Student(info)) => Some(info.clone()),
            _ => None,
        }
    }

    /// The records of the students that have reported, in the order of their
    /// first report.
    pub fn get_all_students(&self) -> (students: Vec<StudentInfo>)
        ensures
            student_views(students@) == roster(self@),
    {
        let mut students: Vec<StudentInfo> = Vec::new();
        let list = match self.load_students() {
            Some(list) => list,
            None => {
                assert(student_views(students@) =~= roster(self@)) by {
                    reveal(Seq::filter);
                }
                return students;
            },
        };
        let ghost known = address_views(list@);
        let mut at: usize = 0;
        assert(student_views(students@) =~= roster_of(self@, known.take(0))) by {
            reveal(Seq::filter);
        }
        while at < list.len()
            invariant
                known == address_views(list@),
                known == known_students(self@),
                at <= list@.len(),
                student_views(students@) == roster_of(self@, known.take(at as int)),
            decreases list@.len() - at,
        {
            let ghost seen = known.take(at as int);
            let ghost next = known[at as int];
            proof {
                assert(known.take(at + 1) =~= seen.push(next));
                seen.lemma_filter_push(next, is_on_record(self@));
                seen.filter(is_on_record(self@)).lemma_push_map_commute(on_record(self@), next);
            }
            match self.get_student_info(list[at].clone()) {
                Some(info) => {
                    let ghost before = student_views(students@);
                    students.push(info);
                    assert(student_views(students@) =~= before.push(on_record(self@)(next)));
                },
                None => {},
            }
            at += 1;
        }
        assert(known.take(at as int) =~= known);
        students
    }
}

} // verus!
