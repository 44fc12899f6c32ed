use gpa_calc::session::{
    code_prompt, credit_prompt, finish, grade_prompt, menu_text, Action, Input, InputKind, Session,
};
use gpa_calc::student::Student;

fn expect_ask(action: &Action, notice: Option<&str>, prompt: &str, expects: InputKind) {
    match action {
        Action::Ask { notice: n, prompt: p, expects: e } => {
            assert_eq!(n.as_deref(), notice);
            assert_eq!(p, prompt);
            assert_eq!(*e, expects);
        }
        _ => panic!("expected a question"),
    }
}

fn expect_abort(action: &Action, message: &str) {
    match action {
        Action::Abort { message: m } => assert_eq!(m, message),
        _ => panic!("expected an abort"),
    }
}

fn at_course_count() -> Session {
    let (session, _) = Session::start();
    let (session, _) = session.step(Input::Integer(1));
    let (session, _) = session.step(Input::Text(String::from("Ada")));
    let (session, action) = session.step(Input::Integer(42));
    expect_ask(
        &action,
        None,
        "Enter the number of courses you are taking: ",
        InputKind::Integer,
    );
    session
}

#[test]
fn session_starts_at_the_menu() {
    let (session, action) = Session::start();
    assert!(matches!(session, Session::MenuSelect));
    assert!(!session.is_terminal());
    assert!(session.is_well_formed());
    expect_ask(&action, None, "Enter your choice: ", InputKind::Integer);
}

#[test]
fn menu_asks_again_until_one_or_two() {
    let (session, _) = Session::start();
    let (session, action) = session.step(Input::Integer(3));
    assert!(matches!(session, Session::MenuSelect));
    expect_ask(
        &action,
        Some("Please choose the correct input."),
        "Enter your choice: ",
        InputKind::Integer,
    );
    let (session, action) = session.step(Input::Integer(0));
    assert!(matches!(session, Session::MenuSelect));
    expect_ask(
        &action,
        Some("Please choose the correct input."),
        "Enter your choice: ",
        InputKind::Integer,
    );
    let (session, action) = session.step(Input::Integer(1));
    assert!(matches!(session, Session::CollectName));
    expect_ask(&action, None, "Enter your name: ", InputKind::Text);
}

#[test]
fn menu_two_quits_silently() {
    let (session, _) = Session::start();
    let (session, action) = session.step(Input::Integer(2));
    assert!(session.is_terminal());
    assert!(matches!(action, Action::Exit));
    let (session, action) = session.step(Input::Integer(1));
    assert!(session.is_terminal());
    assert!(matches!(action, Action::Exit));
}

#[test]
fn eight_courses_abort_without_report() {
    let (session, action) = at_course_count().step(Input::Integer(8));
    assert!(session.is_terminal());
    expect_abort(&action, "You can't enter more than 7 courses.");
    let (session, action) = at_course_count().step(Input::Integer(i32::MAX));
    assert!(session.is_terminal());
    expect_abort(&action, "You can't enter more than 7 courses.");
}

#[test]
fn zero_courses_surface_an_error() {
    let (session, action) = at_course_count().step(Input::Integer(0));
    assert!(session.is_terminal());
    expect_abort(&action, "cannot compute GPA: no credits recorded");
    let (session, action) = at_course_count().step(Input::Integer(-3));
    assert!(session.is_terminal());
    expect_abort(&action, "cannot compute GPA: no credits recorded");
}

#[test]
fn wrong_kind_of_answer_is_fatal() {
    let (session, _) = Session::start();
    let (session, action) = session.step(Input::Text(String::from("one")));
    assert!(session.is_terminal());
    expect_abort(&action, "Invalid input");
    let (session, action) = at_course_count().step(Input::Credit(300));
    assert!(session.is_terminal());
    expect_abort(&action, "Invalid input");
}

#[test]
fn two_courses_end_in_a_report() {
    let session = at_course_count();
    let (session, action) = session.step(Input::Integer(2));
    assert!(session.is_well_formed());
    expect_ask(&action, None, "Please enter the course code for course 1: ", InputKind::Text);
    let (session, action) = session.step(Input::Text(String::from("CS101")));
    expect_ask(
        &action,
        None,
        "Please enter the credit number for the course CS101: ",
        InputKind::Credit,
    );
    let (session, action) = session.step(Input::Credit(300));
    expect_ask(&action, None, "Enter your grade for CS101: ", InputKind::Integer);
    let (session, action) = session.step(Input::Integer(70));
    assert!(matches!(session, Session::CollectCode { remaining: 1, .. }));
    expect_ask(&action, None, "Please enter the course code for course 2: ", InputKind::Text);
    let (session, _) = session.step(Input::Text(String::from("MA201")));
    let (session, _) = session.step(Input::Credit(400));
    let (session, action) = session.step(Input::Integer(50));
    assert!(session.is_terminal());
    match action {
        Action::Report { summary, lines } => {
            assert_eq!(summary, "Ada, your GPA is 2.86");
            assert_eq!(lines.len(), 5);
            assert_eq!(
                lines[0],
                "Course Code          Credits    Grade      Symbol     WGP       "
            );
            assert_eq!(
                lines[1],
                "CS101                3          70         B+         12.00     "
            );
            assert_eq!(
                lines[2],
                "MA201                4          50         D          8.00      "
            );
            assert_eq!(lines[3], "GPA: 2.86");
            assert_eq!(lines[4], "Status: Proceed Unconditionally");
        }
        _ => panic!("expected a report"),
    }
}

#[test]
fn seven_courses_are_collected() {
    let (mut session, mut action) = at_course_count().step(Input::Integer(7));
    let mut n: usize = 1;
    while n <= 7 {
        expect_ask(
            &action,
            None,
            &format!("Please enter the course code for course {}: ", n),
            InputKind::Text,
        );
        let (s, _) = session.step(Input::Text(format!("C{}", n)));
        let (s, _) = s.step(Input::Credit(100));
        let (s, a) = s.step(Input::Integer(50));
        session = s;
        action = a;
        n += 1;
    }
    assert!(session.is_terminal());
    match action {
        Action::Report { summary, lines } => {
            assert_eq!(summary, "Ada, your GPA is 2.00");
            assert_eq!(lines.len(), 10);
            assert_eq!(lines[9], "Status: Proceed Unconditionally");
        }
        _ => panic!("expected a report"),
    }
}

#[test]
fn courses_without_credit_surface_an_error() {
    let (session, _) = at_course_count().step(Input::Integer(1));
    let (session, _) = session.step(Input::Text(String::from("CS101")));
    let (session, _) = session.step(Input::Credit(0));
    let (session, action) = session.step(Input::Integer(90));
    assert!(session.is_terminal());
    expect_abort(&action, "cannot compute GPA: no credits recorded");
}

#[test]
fn menu_lists_both_choices() {
    let menu = menu_text();
    assert_eq!(menu.lines().count(), 4);
    assert!(menu.contains(" 1. Calculate GPA "));
    assert!(menu.contains(" 2. Quit "));
}

#[test]
fn prompts_name_the_course() {
    assert_eq!(code_prompt(1), "Please enter the course code for course 1: ");
    assert_eq!(code_prompt(12), "Please enter the course code for course 12: ");
    assert_eq!(credit_prompt("CS101"), "Please enter the credit number for the course CS101: ");
    assert_eq!(grade_prompt("CS101"), "Enter your grade for CS101: ");
}

#[test]
fn finish_without_courses_aborts() {
    let (session, action) = finish(Student::new(String::from("Ada"), 42));
    assert!(session.is_terminal());
    expect_abort(&action, "cannot compute GPA: no credits recorded");
}

#[test]
fn hand_built_session_is_tested() {
    let session = Session::CollectCode { student: Student::new(String::from("Ada"), 1), remaining: 8 };
    assert!(!session.is_well_formed());
    let session = Session::CollectCode { student: Student::new(String::from("Ada"), 1), remaining: 0 };
    assert!(!session.is_well_formed());
    let session = Session::CollectCode { student: Student::new(String::from("Ada"), 1), remaining: 7 };
    assert!(session.is_well_formed());
}
