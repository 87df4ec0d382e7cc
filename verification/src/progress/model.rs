//! What the accumulator does, told over the ledger as a mathematical map
//! from keys to records.
//!
//! A key that holds a record of a kind that does not belong under it is read
//! as if it held none.

use super::types::{DataKeyView, ProgressError, RecordView, StudentInfoView};
use vstd::prelude::*;

verus! {

/// The ledger of the accumulator.
pub type Ledger = Map<DataKeyView, RecordView>;

/// The progress reported by all students together; 0 where nothing was
/// recorded.
pub open spec fn total_progress(ledger: Ledger) -> u32 {
    match ledger.get(DataKeyView::TotalProgress) {
        Some(RecordView::Progress(progress)) => progress,
        _ => 0,
    }
}

/// The student that reported last, if any has.
pub open spec fn last_student(ledger: Ledger) -> Option<Seq<char>> {
    match ledger.get(DataKeyView::LastStudent) {
        Some(RecordView::Address(student)) => Some(student),
        _ => None,
    }
}

/// What is known of `student`, if anything.
pub open spec fn student_info(ledger: Ledger, student: Seq<char>) -> Option<StudentInfoView> {
    match ledger.get(DataKeyView::Student(student)) {
        Some(RecordView::Student(info)) => Some(info),
        _ => None,
    }
}

/// The students that have reported, in the order of their first report.
pub open spec fn known_students(ledger: Ledger) -> Seq<Seq<char>> {
    match ledger.get(DataKeyView::AllStudents) {
        Some(RecordView::Students(students)) => students,
        _ => Seq::empty(),
    }
}

/// What is known of `student` before a report: the record of the ledger, or
/// that of a student that has reported nothing yet.
pub open spec fn info_so_far(ledger: Ledger, student: Seq<char>) -> StudentInfoView {
    match student_info(ledger, student) {
        Some(info) => info,
        None => StudentInfoView { address: student, total_progress: 0, last_update: 0 },
    }
}

/// A report of `progress` by `student` when the ledger clock reads `now`:
/// the ledger that follows.
///
/// The progress is added to the total of all students and to that of the
/// student, whose record is stamped with the clock. The student becomes the
/// last to have reported, and joins the known students at the end unless
/// the list holds it already.
pub open spec fn update(ledger: Ledger, now: u64, student: Seq<char>, progress: u32) -> Result<
    Ledger,
    ProgressError,
> {
    let info = info_so_far(ledger, student);
    if total_progress(ledger) + progress > u32::MAX || info.total_progress + progress > u32::MAX {
        Err(ProgressError::Overflow)
    } else {
        let reported = ledger.insert(
            DataKeyView::TotalProgress,
            RecordView::Progress((total_progress(ledger) + progress) as u32),
        ).insert(DataKeyView::LastStudent, RecordView::Address(student)).insert(
            DataKeyView::Student(student),
            RecordView::Student(
                StudentInfoView {
                    address: info.address,
                    total_progress: (info.total_progress + progress) as u32,
                    last_update: now,
                },
            ),
        );
        if known_students(ledger).contains(student) {
            Ok(reported)
        } else {
            Ok(
                reported.insert(
                    DataKeyView::AllStudents,
                    RecordView::Students(known_students(ledger).push(student)),
                ),
            )
        }
    }
}

/// Whether the ledger holds a record of `student`.
pub open spec fn is_on_record(ledger: Ledger) -> spec_fn(Seq<char>) -> bool {
    |student: Seq<char>| student_info(ledger, student) is Some
}

/// What the ledger holds of `student`.
pub open spec fn on_record(ledger: Ledger) -> spec_fn(Seq<char>) -> StudentInfoView {
    |student: Seq<char>| student_info(ledger, student).unwrap()
}

/// The records of those of `students` that the ledger holds a record of, in
/// the order of `students`.
pub open spec fn roster_of(ledger: Ledger, students: Seq<Seq<char>>) -> Seq<StudentInfoView> {
    students.filter(is_on_record(ledger)).map_values(on_record(ledger))
}

/// The records of the known students, in the order of their first report.
pub open spec fn roster(ledger: Ledger) -> Seq<StudentInfoView> {
    roster_of(ledger, known_students(ledger))
}

} // verus!
