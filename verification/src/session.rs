//! The console session as a state machine: each answer read from the
//! console moves the session on and says what to do next. Reading and
//! printing are left to the caller.

use vstd::prelude::*;
use vstd::string::StringExecFns;
use crate::course::{Course, CourseView};
use crate::report::{
    decimal_text, format_decimal, report_lines, report_text, summary_line, summary_text,
};
use crate::student::{
    gpa_hundredths, total_credits, GpaError, Student, StudentView, MAX_COURSES,
};

verus! {

/// The kind of answer a prompt waits for.
#[derive(Clone, Copy, Debug, PartialEq, Eq, Structural)]
pub enum InputKind {
    /// A whole number.
    Integer,
    /// A line of text.
    Text,
    /// A credit, in hundredths.
    Credit,
}

/// An answer read from the console.
pub enum Input {
    Integer(i32),
    Text(String),
    Credit(u32),
}

/// The mathematical content of an answer.
pub ghost enum InputView {
    Integer(int),
    Text(Seq<char>),
    Credit(int),
}

impl View for Input {
    type V = InputView;

    open spec fn view(&self) -> InputView {
        match self {
            Input::Integer(n) => InputView::Integer(*n as int),
            Input::Text(t) => InputView::Text(t@),
            Input::Credit(c) => InputView::Credit(*c as int),
        }
    }
}

/// What the caller does after a step.
pub enum Action {
    /// Print `notice` on a line of its own if there is one, then print
    /// `prompt` and read an answer of kind `expects`.
    Ask { notice: Option<String>, prompt: String, expects: InputKind },
    /// End the session and print nothing.
    Exit,
    /// Print `message` and end the session without a report.
    Abort { message: String },
    /// Print `summary`, write `lines` as the report, and end the session.
    Report { summary: String, lines: Vec<String> },
}

/// The mathematical content of an action.
pub ghost enum ActionView {
    Ask { notice: Option<Seq<char>>, prompt: Seq<char>, expects: InputKind },
    Exit,
    Abort { message: Seq<char> },
    Report { summary: Seq<char>, lines: Seq<Seq<char>> },
}

impl View for Action {
    type V = ActionView;

    open spec fn view(&self) -> ActionView {
        match self {
            Action::Ask { notice, prompt, expects } => ActionView::Ask {
                notice: match notice {
                    Some(text) => Some(text@),
                    None => None,
                },
                prompt: prompt@,
                expects: *expects,
            },
            Action::Exit => ActionView::Exit,
            Action::Abort { message } => ActionView::Abort { message: message@ },
            Action::Report { summary, lines } => ActionView::Report {
                summary: summary@,
                lines: Seq::new(lines@.len(), |i: int| lines@[i]@),
            },
        }
    }
}

/// Where a session stands, with what it has collected so far.
pub enum Session {
    /// Waiting for the menu choice.
    MenuSelect,
    /// Waiting for the student's name.
    CollectName,
    /// Waiting for the student's number.
    CollectId { name: String },
    /// Waiting for the number of courses.
    CollectCourseCount { student: Student },
    /// Waiting for the code of the next course; `remaining` courses are
    /// still to be entered, this one included.
    CollectCode { student: Student, remaining: usize },
    /// Waiting for the credit of the course whose code is `code`.
    CollectCredit { student: Student, remaining: usize, code: String },
    /// Waiting for the score of the course whose code is `code`.
    CollectScore { student: Student, remaining: usize, code: String, credit: u32 },
    /// The session is over.
    Terminal,
}

/// The mathematical content of a session.
pub ghost enum SessionView {
    MenuSelect,
    CollectName,
    CollectId { name: Seq<char> },
    CollectCourseCount { student: StudentView },
    CollectCode { student: StudentView, remaining: int },
    CollectCredit { student: StudentView, remaining: int, code: Seq<char> },
    CollectScore { student: StudentView, remaining: int, code: Seq<char>, credit: int },
    Terminal,
}

impl View for Session {
    type V = SessionView;

    open spec fn view(&self) -> SessionView {
        match self {
            Session::MenuSelect => SessionView::MenuSelect,
            Session::CollectName => SessionView::CollectName,
            Session::CollectId { name } => SessionView::CollectId { name: name@ },
            Session::CollectCourseCount { student } => SessionView::CollectCourseCount {
                student: student@,
            },
            Session::CollectCode { student, remaining } => SessionView::CollectCode {
                student: student@,
                remaining: *remaining as int,
            },
            Session::CollectCredit { student, remaining, code } => SessionView::CollectCredit {
                student: student@,
                remaining: *remaining as int,
                code: code@,
            },
            Session::CollectScore { student, remaining, code, credit } => SessionView::CollectScore {
                student: student@,
                remaining: *remaining as int,
                code: code@,
                credit: *credit as int,
            },
            Session::Terminal => SessionView::Terminal,
        }
    }
}

/// A question without a notice before it.
pub open spec fn ask(prompt: Seq<char>, expects: InputKind) -> ActionView {
    ActionView::Ask { notice: None, prompt, expects }
}

/// The question for the code of the course with the given number,
/// counted from one.
pub open spec fn code_prompt_text(number: nat) -> Seq<char> {
    "Please enter the course code for course "@ + decimal_text(number) + ": "@
}

/// The question for the credit of the course with the given code.
pub open spec fn credit_prompt_text(code: Seq<char>) -> Seq<char> {
    "Please enter the credit number for the course "@ + code + ": "@
}

/// The question for the score of the course with the given code.
pub open spec fn grade_prompt_text(code: Seq<char>) -> Seq<char> {
    "Enter your grade for "@ + code + ": "@
}

/// How a session ends once every course is in: with the report, or, where
/// the credits sum to zero, with a message and no report.
pub open spec fn conclude(student: StudentView) -> (SessionView, ActionView) {
    if total_credits(student.courses) == 0 {
        (
            SessionView::Terminal,
            ActionView::Abort { message: "cannot compute GPA: no credits recorded"@ },
        )
    } else {
        (
            SessionView::Terminal,
            ActionView::Report {
                summary: summary_text(student.name, gpa_hundredths(student.courses) as nat),
                lines: report_text(student),
            },
        )
    }
}

/// The session after `input`, and what the caller does next.
///
/// The menu is asked again until the choice is `1` or `2`. More than
/// `MAX_COURSES` courses end the session with a message; none or fewer
/// skip the collection. An answer of another kind than the one asked for
/// ends the session with a message. A session that is over stays over.
pub open spec fn next(session: SessionView, input: InputView) -> (SessionView, ActionView) {
    match (session, input) {
        (SessionView::Terminal, _) => (SessionView::Terminal, ActionView::Exit),
        (SessionView::MenuSelect, InputView::Integer(choice)) => {
            if choice == 1 {
                (SessionView::CollectName, ask("Enter your name: "@, InputKind::Text))
            } else if choice == 2 {
                (SessionView::Terminal, ActionView::Exit)
            } else {
                (
                    SessionView::MenuSelect,
                    ActionView::Ask {
                        notice: Some("Please choose the correct input."@),
                        prompt: "Enter your choice: "@,
                        expects: InputKind::Integer,
                    },
                )
            }
        },
        (SessionView::CollectName, InputView::Text(name)) => (
            SessionView::CollectId { name },
            ask("Enter your student ID: "@, InputKind::Integer),
        ),
        (SessionView::CollectId { name }, InputView::Integer(id)) => (
            SessionView::CollectCourseCount {
                student: StudentView { name, id, courses: Seq::empty() },
            },
            ask("Enter the number of courses you are taking: "@, InputKind::Integer),
        ),
        (SessionView::CollectCourseCount { student }, InputView::Integer(count)) => {
            if count > MAX_COURSES {
                (
                    SessionView::Terminal,
                    ActionView::Abort { message: "You can't enter more than 7 courses."@ },
                )
            } else if count <= 0 {
                conclude(student)
            } else {
                (
                    SessionView::CollectCode { student, remaining: count },
                    ask(code_prompt_text(student.courses.len() + 1), InputKind::Text),
                )
            }
        },
        (SessionView::CollectCode { student, remaining }, InputView::Text(code)) => (
            SessionView::CollectCredit { student, remaining, code },
            ask(credit_prompt_text(code), InputKind::Credit),
        ),
        (SessionView::CollectCredit { student, remaining, code }, InputView::Credit(credit)) => (
            SessionView::CollectScore { student, remaining, code, credit },
            ask(grade_prompt_text(code), InputKind::Integer),
        ),
        (
            SessionView::CollectScore { student, remaining, code, credit },
            InputView::Integer(score),
        ) => {
            let grown = StudentView {
                courses: student.courses.push(CourseView { code, credit, score }),
                ..student
            };
            if remaining <= 1 {
                conclude(grown)
            } else {
                (
                    SessionView::CollectCode { student: grown, remaining: remaining - 1 },
                    ask(code_prompt_text(grown.courses.len() + 1), InputKind::Text),
                )
            }
        },
        _ => (SessionView::Terminal, ActionView::Abort { message: "Invalid input"@ }),
    }
}

fn plain_ask(prompt: String, expects: InputKind) -> (action: Action)
    ensures
        action@ == ask(prompt@, expects),
{
    Action::Ask { notice: None, prompt, expects }
}

fn invalid_input() -> (step: (Session, Action))
    ensures
        step.0@ == SessionView::Terminal,
        step.1@ == (ActionView::Abort { message: "Invalid input"@ }),
        step.0.wf(),
{
    (Session::Terminal, Action::Abort { message: String::from_str("Invalid input") })
}

/// The greeting and the menu, shown once before the first question.
pub fn menu_text() -> (text: &'static str)
    ensures
        text@
            == "---------------Welcome to the GPA Calculator----------------------\n---------------Select your service------------------------ \n 1. Calculate GPA \n 2. Quit \n"@,
{
    "---------------Welcome to the GPA Calculator----------------------\n---------------Select your service------------------------ \n 1. Calculate GPA \n 2. Quit \n"
}

/// The question for the code of the course with the given number.
pub fn code_prompt(number: usize) -> (prompt: String)
    ensures
        prompt@ == code_prompt_text(number as nat),
{
    let mut prompt = String::from_str("Please enter the course code for course ");
    let numeral: String = format_decimal(number as u64);
    prompt.append(numeral.as_str());
    prompt.append(": ");
    prompt
}

/// The question for the credit of the course with the given code.
pub fn credit_prompt(code: &str) -> (prompt: String)
    ensures
        prompt@ == credit_prompt_text(code@),
{
    let mut prompt = String::from_str("Please enter the credit number for the course ");
    prompt.append(code);
    prompt.append(": ");
    prompt
}

/// The question for the score of the course with the given code.
pub fn grade_prompt(code: &str) -> (prompt: String)
    ensures
        prompt@ == grade_prompt_text(code@),
{
    let mut prompt = String::from_str("Enter your grade for ");
    prompt.append(code);
    prompt.append(": ");
    prompt
}

/// Ends the session of a student whose courses are all in.
pub fn finish(student: Student) -> (step: (Session, Action))
    requires
        student.wf(),
    ensures
        (step.0@, step.1@) == conclude(student@),
        step.0.wf(),
{
    let gpa: Result<u64, GpaError> = student.calculate_gpa();
    let lines: Result<Vec<String>, GpaError> = report_lines(&student);
    match (gpa, lines) {
        (Ok(gpa), Ok(lines)) => {
            proof {
                student.lemma_wf_view();
                crate::student::lemma_totals_bounded(student@.courses);
                crate::student::lemma_rounded_bounds(
                    crate::student::total_weighted(student@.courses),
                    total_credits(student@.courses),
                );
            }
            let summary: String = summary_line(student.name().as_str(), gpa);
            let action = Action::Report { summary, lines };
            assert(action@->Report_lines =~= report_text(student@));
            (Session::Terminal, action)
        },
        (Err(e), _) => (Session::Terminal, Action::Abort { message: String::from_str(e.message()) }),
        (_, Err(e)) => (Session::Terminal, Action::Abort { message: String::from_str(e.message()) }),
    }
}

impl Session {
    /// Whether the session can hold every course it still waits for.
    pub open spec fn wf(&self) -> bool {
        match self {
            Session::CollectCourseCount { student } => student.wf() && student@.courses.len() == 0,
            Session::CollectCode { student, remaining }
            | Session::CollectCredit { student, remaining, .. }
            | Session::CollectScore { student, remaining, .. } => student.wf() && 1 <= *remaining
                && student@.courses.len() + *remaining <= MAX_COURSES,
            _ => true,
        }
    }

    /// Tests `wf` at run time, for callers that build a session by hand.
    pub fn is_well_formed(&self) -> (ok: bool)
        ensures
            ok == self.wf(),
    {
        match self {
            Session::CollectCourseCount { student } => student.is_well_formed()
                && student.courses().len() == 0,
            Session::CollectCode { student, remaining }
            | Session::CollectCredit { student, remaining, .. }
            | Session::CollectScore { student, remaining, .. } => student.is_well_formed() && 1
                <= *remaining && *remaining <= MAX_COURSES && student.courses().len()
                <= MAX_COURSES - *remaining,
            _ => true,
        }
    }

    /// A new session, and the first question: the menu choice.
    pub fn start() -> (step: (Session, Action))
        ensures
            step.0@ == SessionView::MenuSelect,
            step.1@ == ask("Enter your choice: "@, InputKind::Integer),
            step.0.wf(),
    {
        (
            Session::MenuSelect,
            plain_ask(String::from_str("Enter your choice: "), InputKind::Integer),
        )
    }

    /// Whether the session is over.
    pub fn is_terminal(&self) -> (over: bool)
        ensures
            over == (self@ == SessionView::Terminal),
    {
        match self {
            Session::Terminal => true,
            _ => false,
        }
    }

    /// Takes one answer: the session that follows, and what to do next.
    pub fn step(self, input: Input) -> (step: (Session, Action))
        requires
            self.wf(),
        ensures
            (step.0@, step.1@) == next(self@, input@),
            step.0.wf(),
    {
        match self {
            Session::Terminal => (Session::Terminal, Action::Exit),
            Session::MenuSelect => match input {
                Input::Integer(choice) => {
                    if choice == 1 {
                        (
                            Session::CollectName,
                            plain_ask(String::from_str("Enter your name: "), InputKind::Text),
                        )
                    } else if choice == 2 {
                        (Session::Terminal, Action::Exit)
                    } else {
                        (
                            Session::MenuSelect,
                            Action::Ask {
                                notice: Some(String::from_str("Please choose the correct input.")),
                                prompt: String::from_str("Enter your choice: "),
                                expects: InputKind::Integer,
                            },
                        )
                    }
                },
                _ => invalid_input(),
            },
            Session::CollectName => match input {
                Input::Text(name) => (
                    Session::CollectId { name },
                    plain_ask(String::from_str("Enter your student ID: "), InputKind::Integer),
                ),
                _ => invalid_input(),
            },
            Session::CollectId { name } => match input {
                Input::Integer(id) => (
                    Session::CollectCourseCount { student: Student::new(name, id) },
                    plain_ask(
                        String::from_str("Enter the number of courses you are taking: "),
                        InputKind::Integer,
                    ),
                ),
                _ => invalid_input(),
            },
            Session::CollectCourseCount { student } => match input {
                Input::Integer(count) => {
                    if count > MAX_COURSES as i32 {
                        (
                            Session::Terminal,
                            Action::Abort {
                                message: String::from_str("You can't enter more than 7 courses."),
                            },
                        )
                    } else if count <= 0 {
                        finish(student)
                    } else {
                        let prompt: String = code_prompt(1);
                        (
                            Session::CollectCode { student, remaining: count as usize },
                            plain_ask(prompt, InputKind::Text),
                        )
                    }
                },
                _ => invalid_input(),
            },
            Session::CollectCode { student, remaining } => match input {
                Input::Text(code) => {
                    let prompt: String = credit_prompt(code.as_str());
                    (
                        Session::CollectCredit { student, remaining, code },
                        plain_ask(prompt, InputKind::Credit),
                    )
                },
                _ => invalid_input(),
            },
            Session::CollectCredit { student, remaining, code } => match input {
                Input::Credit(credit) => {
                    let prompt: String = grade_prompt(code.as_str());
                    (
                        Session::CollectScore { student, remaining, code, credit },
                        plain_ask(prompt, InputKind::Integer),
                    )
                },
                _ => invalid_input(),
            },
            Session::CollectScore { student, remaining, code, credit } => match input {
                Input::Integer(score) => {
                    let mut student = student;
                    let _ = student.add_course(Course::new(code, credit, score));
                    if remaining <= 1 {
                        finish(student)
                    } else {
                        let prompt: String = code_prompt(student.course_count() + 1);
                        (
                            Session::CollectCode { student, remaining: remaining - 1 },
                            plain_ask(prompt, InputKind::Text),
                        )
                    }
                },
                _ => invalid_input(),
            },
        }
    }
}

/// A menu choice other than `1` and `2` leaves the session at the menu
/// and asks again.
pub proof fn lemma_menu_asks_again(choice: int)
    requires
        choice != 1,
        choice != 2,
    ensures
        next(SessionView::MenuSelect, InputView::Integer(choice)).0 == SessionView::MenuSelect,
        next(SessionView::MenuSelect, InputView::Integer(choice)).1 is Ask,
{
}

/// A course count above the cap ends the session with a message; no
/// report is produced.
pub proof fn lemma_too_many_courses_abort(student: StudentView, count: int)
    requires
        count > MAX_COURSES,
    ensures
        next(SessionView::CollectCourseCount { student }, InputView::Integer(count)) == (
            SessionView::Terminal,
            ActionView::Abort { message: "You can't enter more than 7 courses."@ },
        ),
{
}

/// No step reports for a student whose credits sum to zero: a report
/// comes only with an average. In particular a session with no courses
/// ends with a message.
pub proof fn lemma_report_needs_credits(session: SessionView, input: InputView)
    requires
        next(session, input).1 is Report,
    ensures
        exists|student: StudentView|
            total_credits(student.courses) != 0 && next(session, input).1 == (ActionView::Report {
                summary: summary_text(student.name, gpa_hundredths(student.courses) as nat),
                lines: #[trigger] report_text(student),
            }),
{
    match (session, input) {
        (SessionView::CollectCourseCount { student }, InputView::Integer(count)) => {
            assert(conclude(student).1 is Report);
            assert(total_credits(student.courses) != 0);
            assert(next(session, input).1->Report_lines == report_text(student));
        },
        (
            SessionView::CollectScore { student, remaining, code, credit },
            InputView::Integer(score),
        ) => {
            let grown = StudentView {
                courses: student.courses.push(CourseView { code, credit, score }),
                ..student
            };
            assert(conclude(grown).1 is Report);
            assert(total_credits(grown.courses) != 0);
            assert(next(session, input).1->Report_lines == report_text(grown));
        },
        _ => {},
    }
}

/// A course count of zero or less skips the collection and ends the
/// session with a message, since there are no credits to divide by.
pub proof fn lemma_no_courses_abort(name: Seq<char>, id: int, count: int)
    requires
        count <= 0,
    ensures
        next(
            SessionView::CollectCourseCount {
                student: StudentView { name, id, courses: Seq::empty() },
            },
            InputView::Integer(count),
        ) == (
            SessionView::Terminal,
            ActionView::Abort { message: "cannot compute GPA: no credits recorded"@ },
        ),
{
}

} // verus!
