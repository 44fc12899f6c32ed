//! The report: one line of column titles, one line per course, the
//! average and the standing, as fixed-width text.

use vstd::prelude::*;
use vstd::string::{StrSliceExecFns, StringExecFns};
use crate::course::{Course, CourseView};
use crate::student::{
    gpa_hundredths, lemma_rounded_bounds, lemma_totals_bounded, standing_of, total_credits,
    total_weighted, GpaError, Standing, Student, StudentView,
};

verus! {

/// Width of the first column, which holds the course code.
pub const CODE_WIDTH: usize = 20;

/// Width of each of the other four columns.
pub const FIELD_WIDTH: usize = 10;

/// Lines of a report besides the course rows: titles, average, standing.
pub const FRAME_LINES: usize = 3;

/// The numeral of a single digit.
pub open spec fn digit_text(digit: int) -> Seq<char> {
    if digit <= 0 {
        "0"@
    } else if digit == 1 {
        "1"@
    } else if digit == 2 {
        "2"@
    } else if digit == 3 {
        "3"@
    } else if digit == 4 {
        "4"@
    } else if digit == 5 {
        "5"@
    } else if digit == 6 {
        "6"@
    } else if digit == 7 {
        "7"@
    } else if digit == 8 {
        "8"@
    } else {
        "9"@
    }
}

/// A natural number in decimal, without leading zeros.
pub open spec fn decimal_text(n: nat) -> Seq<char>
    decreases n,
{
    if n < 10 {
        digit_text(n as int)
    } else {
        decimal_text(n / 10) + digit_text((n % 10) as int)
    }
}

/// An integer in decimal, with a minus sign where it is negative.
pub open spec fn signed_text(n: int) -> Seq<char> {
    if n < 0 {
        "-"@ + decimal_text((-n) as nat)
    } else {
        decimal_text(n as nat)
    }
}

/// A count of hundredths as a number with exactly two decimal places.
pub open spec fn two_places_text(hundredths: nat) -> Seq<char> {
    decimal_text(hundredths / 100) + "."@ + digit_text((hundredths / 10 % 10) as int)
        + digit_text((hundredths % 10) as int)
}

/// A count of hundredths as the shortest decimal number that equals it:
/// no decimal point for a whole number, otherwise one or two places.
pub open spec fn shortest_text(hundredths: nat) -> Seq<char> {
    if hundredths % 100 == 0 {
        decimal_text(hundredths / 100)
    } else if hundredths % 10 == 0 {
        decimal_text(hundredths / 100) + "."@ + digit_text((hundredths / 10 % 10) as int)
    } else {
        two_places_text(hundredths)
    }
}

/// A run of `count` spaces.
pub open spec fn spaces(count: nat) -> Seq<char>
    decreases count,
{
    if count == 0 {
        Seq::empty()
    } else {
        spaces((count - 1) as nat) + " "@
    }
}

/// `field` left-justified in a column of `width` characters. A field
/// wider than its column is kept whole.
pub open spec fn padded(field: Seq<char>, width: nat) -> Seq<char> {
    if field.len() >= width {
        field
    } else {
        field + spaces((width - field.len()) as nat)
    }
}

/// Five fields in their columns, one space between neighbours.
pub open spec fn row_text(
    code: Seq<char>,
    credits: Seq<char>,
    grade: Seq<char>,
    symbol: Seq<char>,
    points: Seq<char>,
) -> Seq<char> {
    padded(code, CODE_WIDTH as nat) + " "@ + padded(credits, FIELD_WIDTH as nat) + " "@ + padded(
        grade,
        FIELD_WIDTH as nat,
    ) + " "@ + padded(symbol, FIELD_WIDTH as nat) + " "@ + padded(points, FIELD_WIDTH as nat)
}

/// The line of column titles.
pub open spec fn header_text() -> Seq<char> {
    row_text("Course Code"@, "Credits"@, "Grade"@, "Symbol"@, "WGP"@)
}

/// A course's weighted grade points in hundredths of a point-credit,
/// rounded to the nearest hundredth, a half going upward.
pub open spec fn weighted_hundredths(course: CourseView) -> int {
    (course.weighted() + 5) / 10
}

/// The row of one course: code, credit, score, letter grade and weighted
/// grade points to two places.
pub open spec fn course_text(course: CourseView) -> Seq<char> {
    row_text(
        course.code,
        shortest_text(course.credit as nat),
        signed_text(course.score),
        course.letter(),
        two_places_text(weighted_hundredths(course) as nat),
    )
}

/// The line that gives the average.
pub open spec fn footer_text(gpa: nat) -> Seq<char> {
    "GPA: "@ + two_places_text(gpa)
}

/// The line that gives the standing.
pub open spec fn status_text(standing: Standing) -> Seq<char> {
    "Status: "@ + standing.text()
}

/// The line shown to the student once the average is known.
pub open spec fn summary_text(name: Seq<char>, gpa: nat) -> Seq<char> {
    name + ", your GPA is "@ + two_places_text(gpa)
}

/// The whole report: titles, the courses in order of entry, the average,
/// the standing.
pub open spec fn report_text(student: StudentView) -> Seq<Seq<char>> {
    seq![header_text()] + Seq::new(
        student.courses.len(),
        |i: int| course_text(student.courses[i]),
    ) + seq![
        footer_text(gpa_hundredths(student.courses) as nat),
        status_text(standing_of(student.courses)),
    ]
}

fn digit_str(digit: u64) -> (text: &'static str)
    requires
        digit < 10,
    ensures
        text@ == digit_text(digit as int),
{
    if digit == 0 {
        "0"
    } else if digit == 1 {
        "1"
    } else if digit == 2 {
        "2"
    } else if digit == 3 {
        "3"
    } else if digit == 4 {
        "4"
    } else if digit == 5 {
        "5"
    } else if digit == 6 {
        "6"
    } else if digit == 7 {
        "7"
    } else if digit == 8 {
        "8"
    } else {
        "9"
    }
}

fn push_decimal(out: &mut String, n: u64)
    ensures
        final(out)@ == old(out)@ + decimal_text(n as nat),
    decreases n,
{
    if n >= 10 {
        push_decimal(out, n / 10);
    }
    out.append(digit_str(n % 10));
    assert(out@ =~= old(out)@ + decimal_text(n as nat));
}

fn push_signed(out: &mut String, n: i32)
    ensures
        final(out)@ == old(out)@ + signed_text(n as int),
{
    let wide: i64 = n as i64;
    if wide < 0 {
        out.append("-");
        push_decimal(out, (-wide) as u64);
    } else {
        push_decimal(out, wide as u64);
    }
    assert(out@ =~= old(out)@ + signed_text(n as int));
}

fn push_two_places(out: &mut String, hundredths: u64)
    ensures
        final(out)@ == old(out)@ + two_places_text(hundredths as nat),
{
    push_decimal(out, hundredths / 100);
    out.append(".");
    out.append(digit_str(hundredths / 10 % 10));
    out.append(digit_str(hundredths % 10));
    assert(out@ =~= old(out)@ + two_places_text(hundredths as nat));
}

fn push_shortest(out: &mut String, hundredths: u64)
    ensures
        final(out)@ == old(out)@ + shortest_text(hundredths as nat),
{
    if hundredths % 100 == 0 {
        push_decimal(out, hundredths / 100);
    } else if hundredths % 10 == 0 {
        push_decimal(out, hundredths / 100);
        out.append(".");
        out.append(digit_str(hundredths / 10 % 10));
    } else {
        push_two_places(out, hundredths);
    }
    assert(out@ =~= old(out)@ + shortest_text(hundredths as nat));
}

fn push_padded(out: &mut String, field: &str, width: usize)
    ensures
        final(out)@ == old(out)@ + padded(field@, width as nat),
{
    let used: usize = field.unicode_len();
    out.append(field);
    if used < width {
        let missing: usize = width - used;
        let mut done: usize = 0;
        while done < missing
            invariant
                done <= missing,
                out@ == old(out)@ + field@ + spaces(done as nat),
            decreases missing - done,
        {
            out.append(" ");
            done += 1;
            assert(out@ =~= old(out)@ + field@ + spaces(done as nat));
        }
        assert(out@ =~= old(out)@ + padded(field@, width as nat));
    } else {
        assert(out@ =~= old(out)@ + padded(field@, width as nat));
    }
}

fn row_line(code: &str, credits: &str, grade: &str, symbol: &str, points: &str) -> (line: String)
    ensures
        line@ == row_text(code@, credits@, grade@, symbol@, points@),
{
    let mut line = String::new();
    push_padded(&mut line, code, CODE_WIDTH);
    line.append(" ");
    push_padded(&mut line, credits, FIELD_WIDTH);
    line.append(" ");
    push_padded(&mut line, grade, FIELD_WIDTH);
    line.append(" ");
    push_padded(&mut line, symbol, FIELD_WIDTH);
    line.append(" ");
    push_padded(&mut line, points, FIELD_WIDTH);
    assert(line@ =~= row_text(code@, credits@, grade@, symbol@, points@));
    line
}

/// A number written in decimal.
pub fn format_decimal(n: u64) -> (text: String)
    ensures
        text@ == decimal_text(n as nat),
{
    let mut text = String::new();
    push_decimal(&mut text, n);
    assert(text@ =~= decimal_text(n as nat));
    text
}

/// A count of hundredths written with two decimal places.
pub fn format_hundredths(hundredths: u64) -> (text: String)
    ensures
        text@ == two_places_text(hundredths as nat),
{
    let mut text = String::new();
    push_two_places(&mut text, hundredths);
    assert(text@ =~= two_places_text(hundredths as nat));
    text
}

/// The line of column titles.
pub fn header_line() -> (line: String)
    ensures
        line@ == header_text(),
{
    row_line("Course Code", "Credits", "Grade", "Symbol", "WGP")
}

/// The row of one course.
pub fn course_line(course: &Course) -> (line: String)
    ensures
        line@ == course_text(course@),
{
    let mut credits = String::new();
    push_shortest(&mut credits, course.course_credit as u64);
    let mut grade = String::new();
    push_signed(&mut grade, course.grade_percent);
    let weighted: u64 = course.get_weighted_gpa();
    let mut points = String::new();
    push_two_places(&mut points, (weighted + 5) / 10);
    assert(credits@ =~= shortest_text(course@.credit as nat));
    assert(grade@ =~= signed_text(course@.score));
    assert(points@ =~= two_places_text(weighted_hundredths(course@) as nat));
    row_line(
        course.course_code.as_str(),
        credits.as_str(),
        grade.as_str(),
        course.get_letter_grade(),
        points.as_str(),
    )
}

/// The line that gives the average, `gpa` being in hundredths of a point.
pub fn footer_line(gpa: u64) -> (line: String)
    ensures
        line@ == footer_text(gpa as nat),
{
    let mut line = String::from_str("GPA: ");
    push_two_places(&mut line, gpa);
    line
}

/// The line that gives the standing.
pub fn status_line(standing: Standing) -> (line: String)
    ensures
        line@ == status_text(standing),
{
    let mut line = String::from_str("Status: ");
    line.append(standing.status_text());
    line
}

/// The line shown to the student once the average is known.
pub fn summary_line(name: &str, gpa: u64) -> (line: String)
    ensures
        line@ == summary_text(name@, gpa as nat),
{
    let mut line = String::from_str(name);
    line.append(", your GPA is ");
    push_two_places(&mut line, gpa);
    line
}

/// The report of a student, line by line, or `NoCredits` where no average
/// exists.
pub fn report_lines(student: &Student) -> (outcome: Result<Vec<String>, GpaError>)
    requires
        student.wf(),
    ensures
        total_credits(student@.courses) == 0 <==> outcome == Err::<Vec<String>, GpaError>(
            GpaError::NoCredits,
        ),
        total_credits(student@.courses) != 0 <==> outcome.is_ok(),
        outcome.is_ok() ==> outcome.unwrap()@.len() == student@.courses.len() + FRAME_LINES,
        outcome.is_ok() ==> outcome.unwrap()@.len() == report_text(student@).len(),
        outcome.is_ok() ==> forall|i: int|
            0 <= i < outcome.unwrap()@.len() ==> (#[trigger] outcome.unwrap()@[i])@ == report_text(
                student@,
            )[i],
{
    let gpa: u64 = match student.calculate_gpa() {
        Ok(gpa) => gpa,
        Err(e) => {
            return Err(e);
        },
    };
    let standing: Standing = match student.standing() {
        Ok(standing) => standing,
        Err(e) => {
            return Err(e);
        },
    };
    let courses: &Vec<Course> = student.courses();
    let count: usize = courses.len();
    let ghost want = report_text(student@);
    let mut lines: Vec<String> = Vec::new();
    lines.push(header_line());
    let mut i: usize = 0;
    while i < count
        invariant
            i <= count,
            count == student@.courses.len(),
            count == courses@.len(),
            forall|k: int| 0 <= k < count ==> (#[trigger] courses@[k])@ == student@.courses[k],
            want == report_text(student@),
            lines@.len() == i + 1,
            forall|k: int| 0 <= k < lines@.len() ==> (#[trigger] lines@[k])@ == want[k],
        decreases count - i,
    {
        lines.push(course_line(&courses[i]));
        i += 1;
    }
    proof {
        student.lemma_wf_view();
        lemma_totals_bounded(student@.courses);
        lemma_rounded_bounds(total_weighted(student@.courses), total_credits(student@.courses));
        assert(want[count + 1] == footer_text(gpa as nat));
        assert(want[count + 2] == status_text(standing));
    }
    lines.push(footer_line(gpa));
    lines.push(status_line(standing));
    Ok(lines)
}

/// The numeral of a digit is the one character that stands for it.
pub proof fn lemma_digit_text(digit: int)
    requires
        0 <= digit <= 9,
    ensures
        digit_text(digit).len() == 1,
        digit_text(digit)[0] as int == '0' as int + digit,
{
    reveal_strlit("0");
    reveal_strlit("1");
    reveal_strlit("2");
    reveal_strlit("3");
    reveal_strlit("4");
    reveal_strlit("5");
    reveal_strlit("6");
    reveal_strlit("7");
    reveal_strlit("8");
    reveal_strlit("9");
}

/// A run of spaces is as long as its count.
pub proof fn lemma_spaces_len(count: nat)
    ensures
        spaces(count).len() == count,
    decreases count,
{
    reveal_strlit(" ");
    if count > 0 {
        lemma_spaces_len((count - 1) as nat);
    }
}

/// A padded field begins with the field and fills its column exactly,
/// unless the field alone is wider.
pub proof fn lemma_padded_len(field: Seq<char>, width: nat)
    ensures
        padded(field, width).len() == if field.len() >= width {
            field.len()
        } else {
            width
        },
        padded(field, width).subrange(0, field.len() as int) == field,
{
    if field.len() < width {
        lemma_spaces_len((width - field.len()) as nat);
    }
    assert(padded(field, width).subrange(0, field.len() as int) =~= field);
}

/// A row whose fields all fit their columns is 64 characters wide: a
/// column of 20, four of 10, and four separating spaces.
pub proof fn lemma_row_width(
    code: Seq<char>,
    credits: Seq<char>,
    grade: Seq<char>,
    symbol: Seq<char>,
    points: Seq<char>,
)
    requires
        code.len() <= CODE_WIDTH,
        credits.len() <= FIELD_WIDTH,
        grade.len() <= FIELD_WIDTH,
        symbol.len() <= FIELD_WIDTH,
        points.len() <= FIELD_WIDTH,
    ensures
        row_text(code, credits, grade, symbol, points).len() == 64,
{
    reveal_strlit(" ");
    lemma_padded_len(code, CODE_WIDTH as nat);
    lemma_padded_len(credits, FIELD_WIDTH as nat);
    lemma_padded_len(grade, FIELD_WIDTH as nat);
    lemma_padded_len(symbol, FIELD_WIDTH as nat);
    lemma_padded_len(points, FIELD_WIDTH as nat);
}

/// A report has one line per course and three more, in a fixed order:
/// the titles first, then the courses in order of entry, then the
/// average, then the standing.
pub proof fn lemma_report_shape(student: StudentView)
    ensures
        report_text(student).len() == student.courses.len() + FRAME_LINES,
        report_text(student)[0] == header_text(),
        forall|i: int|
            0 <= i < student.courses.len() ==> #[trigger] report_text(student)[i + 1]
                == course_text(student.courses[i]),
        report_text(student)[student.courses.len() as int + 1] == footer_text(
            gpa_hundredths(student.courses) as nat,
        ),
        report_text(student)[student.courses.len() as int + 2] == status_text(
            standing_of(student.courses),
        ),
{
}

} // verus!
