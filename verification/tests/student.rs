use gpa_calc::course::Course;
use gpa_calc::student::{GpaError, Standing, Student, StudentError, MAX_COURSES};

fn student_with(courses: &[(&str, u32, i32)]) -> Student {
    let mut student = Student::new(String::from("Ada"), 42);
    for (code, credit, score) in courses {
        assert_eq!(student.add_course(Course::new(String::from(*code), *credit, *score)), Ok(()));
    }
    student
}

#[test]
fn course_delegates_to_the_scale() {
    let course = Course::new(String::from("CS101"), 300, 70);
    assert_eq!(course.course_code, "CS101");
    assert_eq!(course.course_credit, 300);
    assert_eq!(course.grade_percent, 70);
    assert_eq!(course.get_letter_grade(), "B+");
    assert_eq!(course.get_weighted_gpa(), 12_000);
    let copy = course.clone();
    assert_eq!(copy.course_code, "CS101");
    assert_eq!(copy.course_credit, 300);
    assert_eq!(copy.grade_percent, 70);
}

#[test]
fn single_course_gpa() {
    let student = student_with(&[("CS101", 300, 70)]);
    assert_eq!(student.total_weighted(), 12_000);
    assert_eq!(student.total_credits(), 300);
    assert_eq!(student.calculate_gpa(), Ok(400));
}

#[test]
fn single_course_gpa_ignores_the_credit() {
    assert_eq!(student_with(&[("A", 1, 85)]).calculate_gpa(), Ok(550));
    assert_eq!(student_with(&[("A", 125, 85)]).calculate_gpa(), Ok(550));
    assert_eq!(student_with(&[("A", u32::MAX, 85)]).calculate_gpa(), Ok(550));
}

#[test]
fn two_course_gpa() {
    let student = student_with(&[("CS101", 300, 70), ("MA201", 400, 50)]);
    assert_eq!(student.total_weighted(), 12_000 + 8_000);
    assert_eq!(student.total_credits(), 700);
    assert_eq!(student.calculate_gpa(), Ok(286));
    assert_eq!(student.standing(), Ok(Standing::Unconditional));
}

#[test]
fn gpa_rounds_half_upward() {
    // 15 * 100 + 20 * 300 = 7500 over 400: 1.875 points.
    let student = student_with(&[("A", 100, 45), ("B", 300, 50)]);
    assert_eq!(student.calculate_gpa(), Ok(188));
    // 15 * 300 + 20 * 100 = 6500 over 400: 1.625 points.
    let student = student_with(&[("A", 300, 45), ("B", 100, 50)]);
    assert_eq!(student.calculate_gpa(), Ok(163));
    // 20 * 200 + 15 * 100 = 5500 over 300: 1.8333.. points.
    let student = student_with(&[("A", 200, 50), ("B", 100, 45)]);
    assert_eq!(student.calculate_gpa(), Ok(183));
}

#[test]
fn no_courses_is_an_error() {
    let student = Student::new(String::from("Ada"), 42);
    assert_eq!(student.course_count(), 0);
    assert_eq!(student.total_credits(), 0);
    assert_eq!(student.calculate_gpa(), Err(GpaError::NoCredits));
    assert_eq!(student.standing(), Err(GpaError::NoCredits));
    assert_eq!(GpaError::NoCredits.message(), "cannot compute GPA: no credits recorded");
}

#[test]
fn zero_credits_is_an_error() {
    let student = student_with(&[("A", 0, 90), ("B", 0, 30)]);
    assert_eq!(student.calculate_gpa(), Err(GpaError::NoCredits));
    assert_eq!(student.standing(), Err(GpaError::NoCredits));
}

#[test]
fn exactly_two_points_is_unconditional() {
    let student = student_with(&[("A", 300, 50)]);
    assert_eq!(student.calculate_gpa(), Ok(200));
    assert_eq!(student.standing(), Ok(Standing::Unconditional));
    assert_eq!(Standing::Unconditional.status_text(), "Proceed Unconditionally");
    // 60 * 100 + 0 * 200 = 6000 over 300: exactly 2.0 points again.
    let student = student_with(&[("A", 100, 100), ("B", 200, 0)]);
    assert_eq!(student.calculate_gpa(), Ok(200));
    assert_eq!(student.standing(), Ok(Standing::Unconditional));
}

#[test]
fn below_two_points_is_conditional() {
    let student = student_with(&[("A", 300, 45)]);
    assert_eq!(student.calculate_gpa(), Ok(150));
    assert_eq!(student.standing(), Ok(Standing::Conditional));
    assert_eq!(
        Standing::Conditional.status_text(),
        "Proceed Conditionally with Academic Warning"
    );
}

#[test]
fn standing_goes_by_the_exact_average() {
    // 20 * 999 + 15 * 1 = 19995 over 1000: 1.9995 points, shown as 2.00.
    let student = student_with(&[("A", 999, 50), ("B", 1, 40)]);
    assert_eq!(student.calculate_gpa(), Ok(200));
    assert_eq!(student.standing(), Ok(Standing::Conditional));
}

#[test]
fn eighth_course_is_refused() {
    let mut student = Student::new(String::from("Ada"), 42);
    let mut i: i32 = 0;
    while i < 7 {
        assert_eq!(student.add_course(Course::new(format!("C{}", i), 100, 60 + i)), Ok(()));
        i += 1;
    }
    assert_eq!(MAX_COURSES, 7);
    assert_eq!(student.course_count(), 7);
    assert_eq!(
        student.add_course(Course::new(String::from("C7"), 100, 99)),
        Err(StudentError::TooManyCourses)
    );
    assert_eq!(student.course_count(), 7);
    assert_eq!(student.courses()[6].course_code, "C6");
    assert!(student.is_well_formed());
    assert_eq!(StudentError::TooManyCourses.message(), "You can't enter more than 7 courses.");
}

#[test]
fn courses_keep_entry_order() {
    let student = student_with(&[("B", 100, 50), ("A", 200, 60), ("B", 300, 70)]);
    assert_eq!(student.name(), "Ada");
    assert_eq!(student.id(), 42);
    assert_eq!(student.course_count(), 3);
    assert_eq!(student.course(0).unwrap().course_code, "B");
    assert_eq!(student.course(1).unwrap().course_code, "A");
    assert_eq!(student.course(2).unwrap().course_credit, 300);
    assert!(student.course(3).is_none());
}

#[test]
fn largest_totals_do_not_overflow() {
    let student = student_with(&[
        ("A", u32::MAX, 100),
        ("B", u32::MAX, 100),
        ("C", u32::MAX, 100),
        ("D", u32::MAX, 100),
        ("E", u32::MAX, 100),
        ("F", u32::MAX, 100),
        ("G", u32::MAX, 100),
    ]);
    assert_eq!(student.total_credits(), 7 * (u32::MAX as u64));
    assert_eq!(student.total_weighted(), 7 * 60 * (u32::MAX as u64));
    assert_eq!(student.calculate_gpa(), Ok(600));
    assert_eq!(student.standing(), Ok(Standing::Unconditional));
}
