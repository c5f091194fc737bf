//! JUnit compatible XML reports: a data model of test suites and test cases,
//! and its serialization to the JUnit XML format.
//!
//! The model and the document it is written as are stated as specification
//! functions, and every function of the library is verified against them.
//!
//! ## Example
//!
//! ```rust
//!     use junit_report::{Duration, ReportBuilder, TestCase, TestCaseBuilder, TestSuiteBuilder, Timestamp};
//!
//!     let timestamp = Timestamp::new(1970, 1, 1, 1, 1, 0).unwrap();
//!
//!     let test_success = TestCase::success("good test", Duration::seconds(15));
//!     let test_error = TestCase::error(
//!         "error test",
//!         Duration::seconds(5),
//!         "git error",
//!         "unable to fetch",
//!     );
//!     let test_failure = TestCaseBuilder::failure(
//!         "failure test",
//!         Duration::seconds(10),
//!         "assert_eq",
//!         "not equal",
//!     ).set_classname("classname").set_filepath("./foo.rs")
//!     .build();
//!
//!     let ts1 = TestSuiteBuilder::new("ts1").set_timestamp(timestamp).build();
//!
//!     let ts2 = TestSuiteBuilder::new("ts2").set_timestamp(timestamp)
//!       .add_testcase(test_success)
//!       .add_testcase(test_error)
//!       .add_testcase(test_failure)
//!       .build();
//!
//!     let r = ReportBuilder::new()
//!       .add_testsuite(ts1)
//!       .add_testsuite(ts2)
//!       .build();
//!
//!     let mut out: Vec<u8> = Vec::new();
//!
//!     r.write_xml(&mut out).unwrap();
//! ```

pub mod collections;
pub mod decimal;
pub mod duration;
pub mod error;
pub mod laws;
pub mod reports;
pub mod timestamp;
pub mod xml;

pub use crate::collections::{TestCase, TestCaseBuilder, TestResult, TestSuite, TestSuiteBuilder};
pub use crate::duration::Duration;
pub use crate::error::ReportError;
pub use crate::reports::{Report, ReportBuilder};
pub use crate::timestamp::Timestamp;
