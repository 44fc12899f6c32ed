//! Grade-point arithmetic for a single student's term: the banded grade
//! scale, course records, the credit-weighted average, the tabular report
//! and the console session's decisions.
//!
//! All quantities are exact integers. A grade point is held in tenths
//! (`4.0` is `40`), a credit in hundredths (`3` credits are `300`), and an
//! average in hundredths of a point (`3.14` is `314`).

pub mod grade_scale;
pub mod course;
pub mod student;
pub mod report;
pub mod session;
