//! A course record: a code, a credit weight and a percentage score.

use vstd::prelude::*;
use crate::grade_scale::{
    contribution, letter_grade, letter_rank, rank_label, weighted_gpa_contribution,
    MAX_POINT_TENTHS,
};

verus! {

/// One course as entered: its code, its credit in hundredths of a credit,
/// and its score as a percentage. Any credit that the field can hold is
/// accepted, zero included, and any score: one outside `0..=100` is
/// graded by the same bands.
#[derive(Debug)]
pub struct Course {
    pub course_code: String,
    pub course_credit: u32,
    pub grade_percent: i32,
}

/// The mathematical content of a course record.
pub ghost struct CourseView {
    pub code: Seq<char>,
    pub credit: int,
    pub score: int,
}

impl View for Course {
    type V = CourseView;

    open spec fn view(&self) -> CourseView {
        CourseView {
            code: self.course_code@,
            credit: self.course_credit as int,
            score: self.grade_percent as int,
        }
    }
}

impl CourseView {
    /// The course's weighted grade points: tenths of a point times
    /// hundredths of a credit.
    pub open spec fn weighted(self) -> int {
        contribution(self.score, self.credit)
    }

    /// The label of the course's letter grade.
    pub open spec fn letter(self) -> Seq<char> {
        rank_label(letter_rank(self.score))
    }
}

impl Course {
    /// A course record holding exactly the given values.
    pub fn new(course_code: String, course_credit: u32, grade_percent: i32) -> (course: Course)
        ensures
            course@ == (CourseView {
                code: course_code@,
                credit: course_credit as int,
                score: grade_percent as int,
            }),
    {
        Course { course_code, course_credit, grade_percent }
    }

    /// The course's weighted grade points, in thousandths of a
    /// point-credit.
    pub fn get_weighted_gpa(&self) -> (points: u64)
        ensures
            points == self@.weighted(),
            points <= MAX_POINT_TENTHS * self.course_credit,
    {
        weighted_gpa_contribution(self.grade_percent, self.course_credit)
    }

    /// The course's letter grade.
    pub fn get_letter_grade(&self) -> (label: &'static str)
        ensures
            label@ == self@.letter(),
    {
        letter_grade(self.grade_percent)
    }

}

impl Clone for Course {
    /// A copy that holds the same code, credit and score.
    fn clone(&self) -> (copy: Self)
        ensures
            copy@ == self@,
    {
        Course {
            course_code: self.course_code.clone(),
            course_credit: self.course_credit,
            grade_percent: self.grade_percent,
        }
    }
}

} // verus!
