//! A student and the credit-weighted average over the student's courses.

use vstd::prelude::*;
use crate::course::{Course, CourseView};

verus! {

/// The most courses a student can hold.
pub const MAX_COURSES: usize = 7;

/// Why an average could not be computed.
#[derive(Clone, Copy, Debug, PartialEq, Eq, Structural)]
pub enum GpaError {
    /// The credits of the courses sum to zero, so there is nothing to
    /// divide by.
    NoCredits,
}

/// Why a course could not be added.
#[derive(Clone, Copy, Debug, PartialEq, Eq, Structural)]
pub enum StudentError {
    /// The student already holds `MAX_COURSES` courses.
    TooManyCourses,
}

/// Academic standing decided by the average.
#[derive(Clone, Copy, Debug, PartialEq, Eq, Structural)]
pub enum Standing {
    /// The average is below two points.
    Conditional,
    /// The average is two points or more.
    Unconditional,
}

/// Sum of the credits of `courses`, in hundredths of a credit.
pub open spec fn total_credits(courses: Seq<CourseView>) -> int
    decreases courses.len(),
{
    if courses.len() == 0 {
        0
    } else {
        total_credits(courses.drop_last()) + courses.last().credit
    }
}

/// Sum of the weighted grade points of `courses`.
pub open spec fn total_weighted(courses: Seq<CourseView>) -> int
    decreases courses.len(),
{
    if courses.len() == 0 {
        0
    } else {
        total_weighted(courses.drop_last()) + courses.last().weighted()
    }
}

/// The average, `total / (10 * credits)` points, expressed in hundredths
/// of a point and rounded to the nearest hundredth, a half going upward.
pub open spec fn rounded_hundredths(weighted: int, credits: int) -> int {
    (20 * weighted + credits) / (2 * credits)
}

/// The average of `courses` in hundredths of a point. Meaningful only
/// where the credits do not sum to zero.
pub open spec fn gpa_hundredths(courses: Seq<CourseView>) -> int {
    rounded_hundredths(total_weighted(courses), total_credits(courses))
}

/// Whether the exact average of `courses` is below two points.
pub open spec fn below_two_points(courses: Seq<CourseView>) -> bool {
    total_weighted(courses) < 20 * total_credits(courses)
}

/// The standing that goes with the exact average of `courses`.
pub open spec fn standing_of(courses: Seq<CourseView>) -> Standing {
    if below_two_points(courses) {
        Standing::Conditional
    } else {
        Standing::Unconditional
    }
}

/// Whether every course has a credit that a record can hold.
pub open spec fn credits_in_range(courses: Seq<CourseView>) -> bool {
    forall|i: int| 0 <= i < courses.len() ==> 0 <= (#[trigger] courses[i]).credit <= u32::MAX
}

/// The mathematical content of a student.
pub ghost struct StudentView {
    pub name: Seq<char>,
    pub id: int,
    pub courses: Seq<CourseView>,
}

/// A student: a name and a number, both only displayed, and the courses
/// in the order in which they were added.
#[derive(Debug)]
pub struct Student {
    student_name: String,
    student_id: i32,
    courses: Vec<Course>,
}

impl View for Student {
    type V = StudentView;

    closed spec fn view(&self) -> StudentView {
        StudentView {
            name: self.student_name@,
            id: self.student_id as int,
            courses: Seq::new(self.courses@.len(), |i: int| self.courses@[i]@),
        }
    }
}

impl Standing {
    /// The line that reports the standing.
    pub open spec fn text(self) -> Seq<char> {
        match self {
            Standing::Conditional => "Proceed Conditionally with Academic Warning"@,
            Standing::Unconditional => "Proceed Unconditionally"@,
        }
    }

    /// The wording of the standing.
    pub fn status_text(&self) -> (text: &'static str)
        ensures
            text@ == self.text(),
    {
        match self {
            Standing::Conditional => "Proceed Conditionally with Academic Warning",
            Standing::Unconditional => "Proceed Unconditionally",
        }
    }
}

impl GpaError {
    /// What to tell the user.
    pub fn message(&self) -> (text: &'static str)
        ensures
            text@ == "cannot compute GPA: no credits recorded"@,
    {
        "cannot compute GPA: no credits recorded"
    }
}

impl StudentError {
    /// What to tell the user.
    pub fn message(&self) -> (text: &'static str)
        ensures
            text@ == "You can't enter more than 7 courses."@,
    {
        "You can't enter more than 7 courses."
    }
}

impl Student {
    /// Whether the student holds at most `MAX_COURSES` courses. Every
    /// student that this module hands out is well formed.
    pub closed spec fn wf(&self) -> bool {
        self.courses@.len() <= MAX_COURSES
    }

    /// Tests `wf` at run time.
    pub fn is_well_formed(&self) -> (ok: bool)
        ensures
            ok == self.wf(),
    {
        self.courses.len() <= MAX_COURSES
    }

    /// A student without courses.
    pub fn new(student_name: String, student_id: i32) -> (student: Student)
        ensures
            student.wf(),
            student@ == (StudentView {
                name: student_name@,
                id: student_id as int,
                courses: Seq::empty(),
            }),
    {
        let student = Student { student_name, student_id, courses: Vec::new() };
        assert(student@.courses =~= Seq::empty());
        student
    }

    /// Appends `course` unless the student is full.
    pub fn add_course(&mut self, course: Course) -> (outcome: Result<(), StudentError>)
        requires
            old(self).wf(),
        ensures
            final(self).wf(),
            old(self)@.courses.len() <= MAX_COURSES,
            outcome.is_ok() <==> old(self)@.courses.len() < MAX_COURSES,
            outcome.is_ok() ==> final(self)@ == (StudentView {
                courses: old(self)@.courses.push(course@),
                ..old(self)@
            }),
            outcome.is_err() ==> outcome == Err::<(), StudentError>(StudentError::TooManyCourses)
                && *final(self) == *old(self),
    {
        if self.courses.len() >= MAX_COURSES {
            return Err(StudentError::TooManyCourses);
        }
        self.courses.push(course);
        assert(self@.courses =~= old(self)@.courses.push(course@));
        Ok(())
    }

    /// The student's name.
    pub fn name(&self) -> (name: &String)
        ensures
            name@ == self@.name,
    {
        &self.student_name
    }

    /// The student's number.
    pub fn id(&self) -> (id: i32)
        ensures
            id == self@.id,
    {
        self.student_id
    }

    /// How many courses the student holds.
    pub fn course_count(&self) -> (count: usize)
        requires
            self.wf(),
        ensures
            count == self@.courses.len(),
            count <= MAX_COURSES,
    {
        self.courses.len()
    }

    /// The courses, in order of entry.
    pub fn courses(&self) -> (courses: &Vec<Course>)
        ensures
            courses@.len() == self@.courses.len(),
            forall|i: int| 0 <= i < courses@.len() ==> (#[trigger] courses@[i])@ == self@.courses[i],
    {
        &self.courses
    }

    /// The course at `index`, in order of entry; `None` past the end.
    pub fn course(&self, index: usize) -> (course: Option<&Course>)
        ensures
            index < self@.courses.len() ==> course.is_some() && course.unwrap()@
                == self@.courses[index as int],
            index >= self@.courses.len() ==> course.is_none(),
    {
        if index < self.courses.len() {
            Some(&self.courses[index])
        } else {
            None
        }
    }

    /// Sum of the courses' credits, in hundredths of a credit.
    pub fn total_credits(&self) -> (sum: u64)
        requires
            self.wf(),
        ensures
            sum == total_credits(self@.courses),
    {
        let n: usize = self.courses.len();
        let mut sum: u64 = 0;
        let mut i: usize = 0;
        while i < n
            invariant
                i <= n,
                n == self.courses@.len(),
                n <= MAX_COURSES,
                sum == total_credits(self@.courses.take(i as int)),
                sum <= i * u32::MAX,
            decreases n - i,
        {
            proof {
                assert(self@.courses.take(i + 1).drop_last() =~= self@.courses.take(i as int));
            }
            sum = sum + self.courses[i].course_credit as u64;
            i += 1;
        }
        proof {
            assert(self@.courses.take(n as int) =~= self@.courses);
        }
        sum
    }

    /// Sum of the courses' weighted grade points.
    pub fn total_weighted(&self) -> (sum: u64)
        requires
            self.wf(),
        ensures
            sum == total_weighted(self@.courses),
    {
        let n: usize = self.courses.len();
        let mut sum: u64 = 0;
        let mut i: usize = 0;
        while i < n
            invariant
                i <= n,
                n == self.courses@.len(),
                n <= MAX_COURSES,
                sum == total_weighted(self@.courses.take(i as int)),
                sum <= i * (60 * u32::MAX),
            decreases n - i,
        {
            proof {
                assert(self@.courses.take(i + 1).drop_last() =~= self@.courses.take(i as int));
            }
            let points: u64 = self.courses[i].get_weighted_gpa();
            sum = sum + points;
            i += 1;
        }
        proof {
            assert(self@.courses.take(n as int) =~= self@.courses);
        }
        sum
    }

    /// The credit-weighted average in hundredths of a point, or
    /// `NoCredits` where the credits sum to zero.
    pub fn calculate_gpa(&self) -> (outcome: Result<u64, GpaError>)
        requires
            self.wf(),
        ensures
            total_credits(self@.courses) == 0 <==> outcome == Err::<u64, GpaError>(
                GpaError::NoCredits,
            ),
            total_credits(self@.courses) != 0 <==> outcome == Ok::<u64, GpaError>(
                gpa_hundredths(self@.courses) as u64,
            ),
            outcome.is_ok() ==> outcome.unwrap() <= 600,
    {
        let credits: u64 = self.total_credits();
        let weighted: u64 = self.total_weighted();
        if credits == 0 {
            return Err(GpaError::NoCredits);
        }
        proof {
            lemma_totals_bounded(self@.courses);
            lemma_rounded_bounds(weighted as int, credits as int);
        }
        Ok((20 * weighted + credits) / (2 * credits))
    }

    /// The standing that the exact average gives, or `NoCredits` where
    /// the credits sum to zero.
    pub fn standing(&self) -> (outcome: Result<Standing, GpaError>)
        requires
            self.wf(),
        ensures
            total_credits(self@.courses) == 0 <==> outcome == Err::<Standing, GpaError>(
                GpaError::NoCredits,
            ),
            total_credits(self@.courses) != 0 <==> outcome == Ok::<Standing, GpaError>(
                standing_of(self@.courses),
            ),
    {
        let credits: u64 = self.total_credits();
        let weighted: u64 = self.total_weighted();
        if credits == 0 {
            return Err(GpaError::NoCredits);
        }
        proof {
            lemma_totals_bounded(self@.courses);
        }
        if weighted < 20 * credits {
            Ok(Standing::Conditional)
        } else {
            Ok(Standing::Unconditional)
        }
    }

    /// A well-formed student holds at most `MAX_COURSES` courses, each
    /// with a credit that fits a record.
    pub proof fn lemma_wf_view(&self)
        requires
            self.wf(),
        ensures
            self@.courses.len() <= MAX_COURSES,
            credits_in_range(self@.courses),
    {
    }
}

/// The totals of courses whose credits fit a record: the credits sum to
/// at most `u32::MAX` per course, and the weighted points lie between
/// zero and six points per credit.
pub proof fn lemma_totals_bounded(courses: Seq<CourseView>)
    requires
        credits_in_range(courses),
    ensures
        0 <= total_credits(courses) <= courses.len() * u32::MAX,
        0 <= total_weighted(courses) <= 60 * total_credits(courses),
    decreases courses.len(),
{
    if courses.len() > 0 {
        lemma_totals_bounded(courses.drop_last());
        let last = courses.last();
        crate::grade_scale::lemma_weighted_point_range(last.score);
        let p = crate::grade_scale::weighted_point_tenths(last.score);
        assert(0 <= p * last.credit <= 60 * last.credit) by (nonlinear_arith)
            requires
                0 <= p <= 60,
                0 <= last.credit,
        ;
        assert(courses.len() * u32::MAX == (courses.len() - 1) * u32::MAX + u32::MAX)
            by (nonlinear_arith);
    }
}

/// The rounded average is the hundredth nearest to the exact one, and
/// lies between zero and six points where the total does.
pub proof fn lemma_rounded_bounds(weighted: int, credits: int)
    requires
        credits > 0,
        0 <= weighted <= 60 * credits,
    ensures
        0 <= rounded_hundredths(weighted, credits) <= 600,
        2 * credits * rounded_hundredths(weighted, credits) <= 20 * weighted + credits,
        20 * weighted + credits < 2 * credits * (rounded_hundredths(weighted, credits) + 1),
{
    let n = 20 * weighted + credits;
    let d = 2 * credits;
    let q = n / d;
    vstd::arithmetic::div_mod::lemma_fundamental_div_mod(n, d);
    vstd::arithmetic::div_mod::lemma_mod_bound(n, d);
    assert(n == d * q + n % d);
    assert(q >= 0 && q <= 600) by (nonlinear_arith)
        requires
            n == d * q + n % d,
            0 <= n % d < d,
            d == 2 * credits,
            credits > 0,
            0 <= n <= 1201 * credits,
    ;
    assert(d * (q + 1) == d * q + d) by (nonlinear_arith);
}

/// An average of exactly two points rounds to `2.00` and gives
/// unconditional standing: only an average strictly below two points is
/// conditional.
pub proof fn lemma_two_points_is_unconditional(courses: Seq<CourseView>)
    requires
        total_credits(courses) > 0,
        total_weighted(courses) == 20 * total_credits(courses),
    ensures
        standing_of(courses) == Standing::Unconditional,
        gpa_hundredths(courses) == 200,
{
    let c = total_credits(courses);
    assert((401 * c) / (2 * c) == 200) by (nonlinear_arith)
        requires
            c > 0,
    ;
}

/// The rounded average never contradicts the standing: a conditional
/// standing goes with at most `2.00`, an unconditional one with at least
/// `2.00`.
pub proof fn lemma_standing_agrees_with_rounding(courses: Seq<CourseView>)
    requires
        credits_in_range(courses),
        total_credits(courses) > 0,
    ensures
        standing_of(courses) == Standing::Conditional ==> gpa_hundredths(courses) <= 200,
        standing_of(courses) == Standing::Unconditional ==> gpa_hundredths(courses) >= 200,
{
    lemma_totals_bounded(courses);
    let w = total_weighted(courses);
    let c = total_credits(courses);
    let r = rounded_hundredths(w, c);
    lemma_rounded_bounds(w, c);
    if w < 20 * c {
        assert(r <= 200) by (nonlinear_arith)
            requires
                2 * c * r <= 20 * w + c,
                w < 20 * c,
                c > 0,
        ;
    } else {
        assert(r >= 200) by (nonlinear_arith)
            requires
                20 * w + c < 2 * c * (r + 1),
                w >= 20 * c,
                c > 0,
        ;
    }
}

/// The average of a single course with a positive credit is that
/// course's grade point, whatever the credit.
pub proof fn lemma_single_course_gpa(course: CourseView)
    requires
        course.credit > 0,
    ensures
        total_credits(seq![course]) == course.credit,
        total_weighted(seq![course]) == course.weighted(),
        gpa_hundredths(seq![course]) == 10 * crate::grade_scale::weighted_point_tenths(
            course.score,
        ),
{
    let one = seq![course];
    assert(one.drop_last() =~= Seq::<CourseView>::empty());
    assert(one.last() == course);
    reveal_with_fuel(total_credits, 2);
    reveal_with_fuel(total_weighted, 2);
    let p = crate::grade_scale::weighted_point_tenths(course.score);
    let c = course.credit;
    assert((20 * (p * c) + c) / (2 * c) == 10 * p) by (nonlinear_arith)
        requires
            c > 0,
    ;
}

/// Adding a course adds its credit and its weighted points to the totals.
pub proof fn lemma_totals_push(courses: Seq<CourseView>, course: CourseView)
    ensures
        total_credits(courses.push(course)) == total_credits(courses) + course.credit,
        total_weighted(courses.push(course)) == total_weighted(courses) + course.weighted(),
{
    assert(courses.push(course).drop_last() =~= courses);
}

} // verus!
