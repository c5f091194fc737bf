//! Test cases and the suites that group them.

use crate::duration::{max_nanoseconds, push_seconds, seconds_text, Duration};
use crate::timestamp::{is_moment, Timestamp, TimestampView};
use crate::xml::text_view;
use vstd::prelude::*;
use vstd::string::*;

verus! {

/// A copy of a text that may be missing.
fn clone_text(text: &Option<String>) -> (copy: Option<String>)
    ensures
        copy == *text,
{
    match text {
        Some(text) => Some(text.clone()),
        None => None,
    }
}

/// Result of a test case
#[derive(Debug)]
pub enum TestResult {
    /// The test passed.
    Success,
    /// The test was not run.
    Skipped,
    /// The test met an unexpected error.
    Error { type_: String, message: String, cause: Option<String> },
    /// An assertion of the test failed.
    Failure { type_: String, message: String, cause: Option<String> },
}

/// The result of a test case, with its texts by their characters.
pub enum TestResultView {
    Success,
    Skipped,
    Error { type_: Seq<char>, message: Seq<char>, cause: Option<Seq<char>> },
    Failure { type_: Seq<char>, message: Seq<char>, cause: Option<Seq<char>> },
}

impl View for TestResult {
    type V = TestResultView;

    open spec fn view(&self) -> TestResultView {
        match *self {
            TestResult::Success => TestResultView::Success,
            TestResult::Skipped => TestResultView::Skipped,
            TestResult::Error { type_, message, cause } => TestResultView::Error {
                type_: type_@,
                message: message@,
                cause: text_view(cause),
            },
            TestResult::Failure { type_, message, cause } => TestResultView::Failure {
                type_: type_@,
                message: message@,
                cause: text_view(cause),
            },
        }
    }
}

impl Clone for TestResult {
    fn clone(&self) -> (copy: Self)
        ensures
            copy == *self,
    {
        match self {
            TestResult::Success => TestResult::Success,
            TestResult::Skipped => TestResult::Skipped,
            TestResult::Error { type_, message, cause } => TestResult::Error {
                type_: type_.clone(),
                message: message.clone(),
                cause: clone_text(cause),
            },
            TestResult::Failure { type_, message, cause } => TestResult::Failure {
                type_: type_.clone(),
                message: message.clone(),
                cause: clone_text(cause),
            },
        }
    }
}

/// The result with a cause attached: that of an error or a failure has the
/// cause as its own, any other stays as it is.
pub open spec fn with_cause(result: TestResultView, trace: Seq<char>) -> TestResultView {
    match result {
        TestResultView::Error { type_, message, cause } => TestResultView::Error {
            type_,
            message,
            cause: Some(trace),
        },
        TestResultView::Failure { type_, message, cause } => TestResultView::Failure {
            type_,
            message,
            cause: Some(trace),
        },
        TestResultView::Success => TestResultView::Success,
        TestResultView::Skipped => TestResultView::Skipped,
    }
}

/// One single test case
#[derive(Debug)]
pub struct TestCase {
    pub name: String,
    pub time: Duration,
    pub result: TestResult,
    pub classname: Option<String>,
    pub filepath: Option<String>,
    pub system_out: Option<String>,
    pub system_err: Option<String>,
}

/// A test case, with its texts by their characters and its duration in
/// nanoseconds.
pub struct TestCaseView {
    pub name: Seq<char>,
    pub time: nat,
    pub result: TestResultView,
    pub classname: Option<Seq<char>>,
    pub filepath: Option<Seq<char>>,
    pub system_out: Option<Seq<char>>,
    pub system_err: Option<Seq<char>>,
}

impl View for TestCase {
    type V = TestCaseView;

    open spec fn view(&self) -> TestCaseView {
        TestCaseView {
            name: self.name@,
            time: self.time@,
            result: self.result@,
            classname: text_view(self.classname),
            filepath: text_view(self.filepath),
            system_out: text_view(self.system_out),
            system_err: text_view(self.system_err),
        }
    }
}

impl Clone for TestCase {
    fn clone(&self) -> (copy: Self)
        ensures
            copy == *self,
    {
        TestCase {
            name: self.name.clone(),
            time: self.time,
            result: self.result.clone(),
            classname: clone_text(&self.classname),
            filepath: clone_text(&self.filepath),
            system_out: clone_text(&self.system_out),
            system_err: clone_text(&self.system_err),
        }
    }
}

/// A test case with a name, a duration and a result, and nothing else.
pub open spec fn bare_case(name: Seq<char>, time: nat, result: TestResultView) -> TestCaseView {
    TestCaseView {
        name,
        time,
        result,
        classname: None,
        filepath: None,
        system_out: None,
        system_err: None,
    }
}

impl TestCase {
    /// The name of the test case.
    pub fn name(&self) -> (name: &String)
        ensures
            *name == self.name,
    {
        &self.name
    }

    /// How long the test case ran.
    pub fn time(&self) -> (time: &Duration)
        ensures
            *time == self.time,
    {
        &self.time
    }

    /// How the test case ended.
    pub fn result(&self) -> (result: &TestResult)
        ensures
            *result == self.result,
    {
        &self.result
    }

    /// The class that the test case belongs to, where it is set.
    pub fn classname(&self) -> (classname: &Option<String>)
        ensures
            *classname == self.classname,
    {
        &self.classname
    }

    /// The file that holds the test case, where it is set.
    pub fn filepath(&self) -> (filepath: &Option<String>)
        ensures
            *filepath == self.filepath,
    {
        &self.filepath
    }

    /// What the test case wrote to its standard output, where it is set.
    pub fn system_out(&self) -> (system_out: &Option<String>)
        ensures
            *system_out == self.system_out,
    {
        &self.system_out
    }

    /// What the test case wrote to its standard error, where it is set.
    pub fn system_err(&self) -> (system_err: &Option<String>)
        ensures
            *system_err == self.system_err,
    {
        &self.system_err
    }

    /// Creates a new successful `TestCase`
    pub fn success(name: &str, time: Duration) -> (case: Self)
        ensures
            case@ == bare_case(name@, time@, TestResultView::Success),
    {
        TestCase {
            name: name.to_owned(),
            time,
            result: TestResult::Success,
            classname: None,
            filepath: None,
            system_out: None,
            system_err: None,
        }
    }

    /// Set the `classname` for the `TestCase`
    pub fn set_classname(&mut self, classname: &str)
        ensures
            final(self)@ == (TestCaseView { classname: Some(classname@), ..old(self)@ }),
    {
        self.classname = Some(classname.to_owned());
    }

    /// Set the `file` for the `TestCase`
    pub fn set_filepath(&mut self, filepath: &str)
        ensures
            final(self)@ == (TestCaseView { filepath: Some(filepath@), ..old(self)@ }),
    {
        self.filepath = Some(filepath.to_owned());
    }

    /// Set the `system_out` for the `TestCase`
    pub fn set_system_out(&mut self, system_out: &str)
        ensures
            final(self)@ == (TestCaseView { system_out: Some(system_out@), ..old(self)@ }),
    {
        self.system_out = Some(system_out.to_owned());
    }

    /// Set the `system_err` for the `TestCase`
    pub fn set_system_err(&mut self, system_err: &str)
        ensures
            final(self)@ == (TestCaseView { system_err: Some(system_err@), ..old(self)@ }),
    {
        self.system_err = Some(system_err.to_owned());
    }

    /// Check if a `TestCase` is successful
    pub fn is_success(&self) -> (yes: bool)
        ensures
            yes == (self@.result is Success),
    {
        match self.result {
            TestResult::Success => true,
            _ => false,
        }
    }

    /// Creates a new erroneous `TestCase`
    ///
    /// An erroneous `TestCase` is one that encountered an unexpected error condition.
    pub fn error(name: &str, time: Duration, type_: &str, message: &str) -> (case: Self)
        ensures
            case@ == bare_case(
                name@,
                time@,
                TestResultView::Error { type_: type_@, message: message@, cause: None },
            ),
    {
        TestCase {
            name: name.to_owned(),
            time,
            result: TestResult::Error {
                type_: type_.to_owned(),
                message: message.to_owned(),
                cause: None,
            },
            classname: None,
            filepath: None,
            system_out: None,
            system_err: None,
        }
    }

    /// Check if a `TestCase` is erroneous
    pub fn is_error(&self) -> (yes: bool)
        ensures
            yes == (self@.result is Error),
    {
        match self.result {
            TestResult::Error { .. } => true,
            _ => false,
        }
    }

    /// Creates a new failed `TestCase`
    ///
    /// A failed `TestCase` is one where an explicit assertion failed
    pub fn failure(name: &str, time: Duration, type_: &str, message: &str) -> (case: Self)
        ensures
            case@ == bare_case(
                name@,
                time@,
                TestResultView::Failure { type_: type_@, message: message@, cause: None },
            ),
    {
        TestCase {
            name: name.to_owned(),
            time,
            result: TestResult::Failure {
                type_: type_.to_owned(),
                message: message.to_owned(),
                cause: None,
            },
            classname: None,
            filepath: None,
            system_out: None,
            system_err: None,
        }
    }

    /// Check if a `TestCase` failed
    pub fn is_failure(&self) -> (yes: bool)
        ensures
            yes == (self@.result is Failure),
    {
        match self.result {
            TestResult::Failure { .. } => true,
            _ => false,
        }
    }

    /// Create a new ignored `TestCase`
    ///
    /// An ignored `TestCase` is one that was ignored or skipped; it took no
    /// time.
    pub fn skipped(name: &str) -> (case: Self)
        ensures
            case@ == bare_case(name@, 0, TestResultView::Skipped),
    {
        TestCase {
            name: name.to_owned(),
            time: Duration::zero(),
            result: TestResult::Skipped,
            classname: None,
            filepath: None,
            system_out: None,
            system_err: None,
        }
    }

    /// Check if a `TestCase` ignored
    pub fn is_skipped(&self) -> (yes: bool)
        ensures
            yes == (self@.result is Skipped),
    {
        match self.result {
            TestResult::Skipped => true,
            _ => false,
        }
    }
}

///  Builder for `TestCase` objects.
#[derive(Debug)]
pub struct TestCaseBuilder {
    pub testcase: TestCase,
}

impl Clone for TestCaseBuilder {
    fn clone(&self) -> (copy: Self)
        ensures
            copy == *self,
    {
        TestCaseBuilder { testcase: self.testcase.clone() }
    }
}

impl TestCaseBuilder {
    /// The test case as far as it has been built.
    pub fn testcase(&self) -> (testcase: &TestCase)
        ensures
            *testcase == self.testcase,
    {
        &self.testcase
    }

    /// Creates a new TestCaseBuilder for a successful `TestCase`
    pub fn success(name: &str, time: Duration) -> (builder: Self)
        ensures
            builder.testcase@ == bare_case(name@, time@, TestResultView::Success),
    {
        TestCaseBuilder { testcase: TestCase::success(name, time) }
    }

    /// Set the `classname` for the `TestCase`
    pub fn set_classname(&mut self, classname: &str) -> (builder: &mut Self)
        ensures
            builder.testcase@ == (TestCaseView {
                classname: Some(classname@),
                ..old(self).testcase@
            }),
            *final(self) == *final(builder),
    {
        self.testcase.classname = Some(classname.to_owned());
        self
    }

    /// Set the `file` for the `TestCase`
    pub fn set_filepath(&mut self, filepath: &str) -> (builder: &mut Self)
        ensures
            builder.testcase@ == (TestCaseView {
                filepath: Some(filepath@),
                ..old(self).testcase@
            }),
            *final(self) == *final(builder),
    {
        self.testcase.filepath = Some(filepath.to_owned());
        self
    }

    /// Set the `system_out` for the `TestCase`
    pub fn set_system_out(&mut self, system_out: &str) -> (builder: &mut Self)
        ensures
            builder.testcase@ == (TestCaseView {
                system_out: Some(system_out@),
                ..old(self).testcase@
            }),
            *final(self) == *final(builder),
    {
        self.testcase.system_out = Some(system_out.to_owned());
        self
    }

    /// Set the `system_err` for the `TestCase`
    pub fn set_system_err(&mut self, system_err: &str) -> (builder: &mut Self)
        ensures
            builder.testcase@ == (TestCaseView {
                system_err: Some(system_err@),
                ..old(self).testcase@
            }),
            *final(self) == *final(builder),
    {
        self.testcase.system_err = Some(system_err.to_owned());
        self
    }

    /// Set the cause of the error or failure of the `TestCase`
    ///
    /// It has no effect on successful or skipped `TestCase`s. The trace is
    /// kept as it is given: escape sequences of a terminal in it are not
    /// taken out.
    pub fn set_trace(&mut self, trace: &str) -> (builder: &mut Self)
        ensures
            builder.testcase@ == (TestCaseView {
                result: with_cause(old(self).testcase@.result, trace@),
                ..old(self).testcase@
            }),
            *final(self) == *final(builder),
    {
        match &mut self.testcase.result {
            TestResult::Error { cause, .. } => {
                *cause = Some(trace.to_owned());
            },
            TestResult::Failure { cause, .. } => {
                *cause = Some(trace.to_owned());
            },
            _ => {},
        }
        self
    }

    /// Creates a new TestCaseBuilder for an erroneous `TestCase`
    ///
    /// An erroneous `TestCase` is one that encountered an unexpected error condition.
    pub fn error(name: &str, time: Duration, type_: &str, message: &str) -> (builder: Self)
        ensures
            builder.testcase@ == bare_case(
                name@,
                time@,
                TestResultView::Error { type_: type_@, message: message@, cause: None },
            ),
    {
        TestCaseBuilder { testcase: TestCase::error(name, time, type_, message) }
    }

    /// Creates a new TestCaseBuilder for a failed `TestCase`
    ///
    /// A failed `TestCase` is one where an explicit assertion failed
    pub fn failure(name: &str, time: Duration, type_: &str, message: &str) -> (builder: Self)
        ensures
            builder.testcase@ == bare_case(
                name@,
                time@,
                TestResultView::Failure { type_: type_@, message: message@, cause: None },
            ),
    {
        TestCaseBuilder { testcase: TestCase::failure(name, time, type_, message) }
    }

    /// Creates a new TestCaseBuilder for an ignored `TestCase`
    ///
    /// An ignored `TestCase` is one that was ignored or skipped; it took no
    /// time.
    pub fn skipped(name: &str) -> (builder: Self)
        ensures
            builder.testcase@ == bare_case(name@, 0, TestResultView::Skipped),
    {
        TestCaseBuilder { testcase: TestCase::skipped(name) }
    }

    /// Build and return a `TestCase` object based on the data stored in this TestCaseBuilder object.
    pub fn build(&self) -> (case: TestCase)
        ensures
            case == self.testcase,
    {
        self.testcase.clone()
    }
}

/// The test cases of a suite, each by its view, in their order.
pub open spec fn case_views(cases: Seq<TestCase>) -> Seq<TestCaseView> {
    cases.map_values(|case: TestCase| case@)
}

/// How many of the cases ended in an error.
pub open spec fn errors_in(cases: Seq<TestCaseView>) -> nat {
    cases.filter(|case: TestCaseView| case.result is Error).len()
}

/// How many of the cases failed.
pub open spec fn failures_in(cases: Seq<TestCaseView>) -> nat {
    cases.filter(|case: TestCaseView| case.result is Failure).len()
}

/// How many of the cases were skipped.
pub open spec fn skipped_in(cases: Seq<TestCaseView>) -> nat {
    cases.filter(|case: TestCaseView| case.result is Skipped).len()
}

/// How many of the cases succeeded.
pub open spec fn successes_in(cases: Seq<TestCaseView>) -> nat {
    cases.filter(|case: TestCaseView| case.result is Success).len()
}

/// The durations of the cases added up, in nanoseconds.
pub open spec fn total_time(cases: Seq<TestCaseView>) -> nat
    decreases cases.len(),
{
    if cases.len() == 0 {
        0
    } else {
        total_time(cases.drop_last()) + cases.last().time
    }
}

/// A `TestSuite` groups together several `TestCase`s.
#[derive(Debug)]
pub struct TestSuite {
    pub name: String,
    pub package: String,
    pub timestamp: Timestamp,
    pub hostname: String,
    pub testcases: Vec<TestCase>,
    pub system_out: Option<String>,
    pub system_err: Option<String>,
}

/// A test suite, with its texts by their characters and its cases by
/// their views.
pub struct TestSuiteView {
    pub name: Seq<char>,
    pub package: Seq<char>,
    pub timestamp: TimestampView,
    pub hostname: Seq<char>,
    pub testcases: Seq<TestCaseView>,
    pub system_out: Option<Seq<char>>,
    pub system_err: Option<Seq<char>>,
}

impl View for TestSuite {
    type V = TestSuiteView;

    open spec fn view(&self) -> TestSuiteView {
        TestSuiteView {
            name: self.name@,
            package: self.package@,
            timestamp: self.timestamp@,
            hostname: self.hostname@,
            testcases: case_views(self.testcases@),
            system_out: text_view(self.system_out),
            system_err: text_view(self.system_err),
        }
    }
}

/// A suite as it is made: named, in the package of its name, on
/// `localhost`, without test cases or output.
pub open spec fn new_suite(name: Seq<char>, timestamp: TimestampView) -> TestSuiteView {
    TestSuiteView {
        name,
        package: "testsuite/"@ + name,
        timestamp,
        hostname: "localhost"@,
        testcases: Seq::empty(),
        system_out: None,
        system_err: None,
    }
}

/// A copy of test cases, in their order.
fn clone_cases(cases: &Vec<TestCase>) -> (copy: Vec<TestCase>)
    ensures
        copy@ == cases@,
{
    let mut copy: Vec<TestCase> = Vec::new();
    let mut i: usize = 0;
    while i < cases.len()
        invariant
            i <= cases.len(),
            copy@ == cases@.take(i as int),
        decreases cases.len() - i,
    {
        copy.push(cases[i].clone());
        assert(cases@.take(i + 1) =~= cases@.take(i as int).push(cases@[i as int]));
        i = i + 1;
    }
    assert(cases@.take(cases.len() as int) =~= cases@);
    copy
}

impl Clone for TestSuite {
    fn clone(&self) -> (copy: Self)
        ensures
            copy@ == self@,
    {
        TestSuite {
            name: self.name.clone(),
            package: self.package.clone(),
            timestamp: self.timestamp,
            hostname: self.hostname.clone(),
            testcases: clone_cases(&self.testcases),
            system_out: clone_text(&self.system_out),
            system_err: clone_text(&self.system_err),
        }
    }
}

/// What the case at `i` adds to each count of the cases before it.
pub proof fn lemma_count_step(cases: Seq<TestCaseView>, i: int)
    requires
        0 <= i < cases.len(),
    ensures
        errors_in(cases.take(i + 1)) == errors_in(cases.take(i)) + (if cases[i].result is Error {
            1nat
        } else {
            0nat
        }),
        failures_in(cases.take(i + 1)) == failures_in(cases.take(i)) + (if cases[i].result
            is Failure {
            1nat
        } else {
            0nat
        }),
        skipped_in(cases.take(i + 1)) == skipped_in(cases.take(i)) + (if cases[i].result
            is Skipped {
            1nat
        } else {
            0nat
        }),
        successes_in(cases.take(i + 1)) == successes_in(cases.take(i)) + (if cases[i].result
            is Success {
            1nat
        } else {
            0nat
        }),
        total_time(cases.take(i + 1)) == total_time(cases.take(i)) + cases[i].time,
{
    let before = cases.take(i);
    assert(cases.take(i + 1) =~= before.push(cases[i]));
    assert(before.push(cases[i]).drop_last() =~= before);
    before.lemma_filter_len_push(|case: TestCaseView| case.result is Error, cases[i]);
    before.lemma_filter_len_push(|case: TestCaseView| case.result is Failure, cases[i]);
    before.lemma_filter_len_push(|case: TestCaseView| case.result is Skipped, cases[i]);
    before.lemma_filter_len_push(|case: TestCaseView| case.result is Success, cases[i]);
}

/// The cases before the `n`th take no longer than all of them.
pub proof fn lemma_total_time_grows(cases: Seq<TestCaseView>, n: int)
    requires
        0 <= n <= cases.len(),
    ensures
        total_time(cases.take(n)) <= total_time(cases),
    decreases cases.len(),
{
    if n == cases.len() {
        assert(cases.take(n) =~= cases);
    } else {
        assert(cases.drop_last().take(n) =~= cases.take(n));
        lemma_total_time_grows(cases.drop_last(), n);
    }
}

impl TestSuite {
    /// The name of the suite.
    pub fn name(&self) -> (name: &String)
        ensures
            *name == self.name,
    {
        &self.name
    }

    /// The package of the suite.
    pub fn package(&self) -> (package: &String)
        ensures
            *package == self.package,
    {
        &self.package
    }

    /// When the suite ran.
    pub fn timestamp(&self) -> (timestamp: &Timestamp)
        ensures
            *timestamp == self.timestamp,
    {
        &self.timestamp
    }

    /// The host that the suite ran on.
    pub fn hostname(&self) -> (hostname: &String)
        ensures
            *hostname == self.hostname,
    {
        &self.hostname
    }

    /// The test cases of the suite, in their order.
    pub fn testcases(&self) -> (testcases: &Vec<TestCase>)
        ensures
            *testcases == self.testcases,
    {
        &self.testcases
    }

    /// What the suite wrote to its standard output, where it is set.
    pub fn system_out(&self) -> (system_out: &Option<String>)
        ensures
            *system_out == self.system_out,
    {
        &self.system_out
    }

    /// What the suite wrote to its standard error, where it is set.
    pub fn system_err(&self) -> (system_err: &Option<String>)
        ensures
            *system_err == self.system_err,
    {
        &self.system_err
    }

    /// Create a new `TestSuite` with a given name, as of the given moment.
    pub fn new_at(name: &str, timestamp: Timestamp) -> (suite: Self)
        ensures
            suite@ == new_suite(name@, timestamp@),
    {
        let suite = TestSuite {
            hostname: String::from_str("localhost"),
            package: String::from_str("testsuite/").concat(name),
            name: name.to_owned(),
            timestamp,
            testcases: Vec::new(),
            system_out: None,
            system_err: None,
        };
        assert(suite@.testcases =~= Seq::empty());
        suite
    }

    /// Create a new `TestSuite` with a given name
    pub fn new(name: &str) -> (suite: Self)
        ensures
            suite@ == new_suite(name@, suite@.timestamp),
            is_moment(suite@.timestamp),
    {
        TestSuite::new_at(name, Timestamp::now_utc())
    }

    /// Add a `TestCase` to the `TestSuite`.
    pub fn add_testcase(&mut self, testcase: TestCase)
        ensures
            final(self)@ == (TestSuiteView {
                testcases: old(self)@.testcases.push(testcase@),
                ..old(self)@
            }),
    {
        self.testcases.push(testcase);
        assert(case_views(self.testcases@) =~= case_views(old(self).testcases@).push(testcase@));
    }

    /// Add several `TestCase`s from a Vec.
    pub fn add_testcases(&mut self, testcases: Vec<TestCase>)
        ensures
            final(self)@ == (TestSuiteView {
                testcases: old(self)@.testcases + case_views(testcases@),
                ..old(self)@
            }),
    {
        let mut added = testcases;
        self.testcases.append(&mut added);
        assert(case_views(self.testcases@) =~= case_views(old(self).testcases@) + case_views(
            testcases@,
        ));
    }

    /// Set the timestamp of the given `TestSuite`.
    ///
    /// By default the timestamp is set to the time when the `TestSuite` was created.
    pub fn set_timestamp(&mut self, timestamp: Timestamp)
        ensures
            final(self)@ == (TestSuiteView { timestamp: timestamp@, ..old(self)@ }),
    {
        self.timestamp = timestamp;
    }

    /// Set what the suite wrote to its standard output.
    pub fn set_system_out(&mut self, system_out: &str)
        ensures
            final(self)@ == (TestSuiteView { system_out: Some(system_out@), ..old(self)@ }),
    {
        self.system_out = Some(system_out.to_owned());
    }

    /// Set what the suite wrote to its standard error.
    pub fn set_system_err(&mut self, system_err: &str)
        ensures
            final(self)@ == (TestSuiteView { system_err: Some(system_err@), ..old(self)@ }),
    {
        self.system_err = Some(system_err.to_owned());
    }

    /// How many test cases the suite has.
    pub fn tests(&self) -> (count: usize)
        ensures
            count == self@.testcases.len(),
    {
        self.testcases.len()
    }

    /// How many test cases of the suite ended in an error.
    pub fn errors(&self) -> (count: usize)
        ensures
            count == errors_in(self@.testcases),
    {
        let ghost cases = self@.testcases;
        let mut count: usize = 0;
        let mut i: usize = 0;
        while i < self.testcases.len()
            invariant
                cases == case_views(self.testcases@),
                i <= self.testcases.len(),
                count <= i,
                count == errors_in(cases.take(i as int)),
            decreases self.testcases.len() - i,
        {
            proof {
                lemma_count_step(cases, i as int);
            }
            if self.testcases[i].is_error() {
                count = count + 1;
            }
            i = i + 1;
        }
        assert(cases.take(i as int) =~= cases);
        count
    }

    /// How many test cases of the suite failed.
    pub fn failures(&self) -> (count: usize)
        ensures
            count == failures_in(self@.testcases),
    {
        let ghost cases = self@.testcases;
        let mut count: usize = 0;
        let mut i: usize = 0;
        while i < self.testcases.len()
            invariant
                cases == case_views(self.testcases@),
                i <= self.testcases.len(),
                count <= i,
                count == failures_in(cases.take(i as int)),
            decreases self.testcases.len() - i,
        {
            proof {
                lemma_count_step(cases, i as int);
            }
            if self.testcases[i].is_failure() {
                count = count + 1;
            }
            i = i + 1;
        }
        assert(cases.take(i as int) =~= cases);
        count
    }

    /// How many test cases of the suite were skipped.
    pub fn skipped(&self) -> (count: usize)
        ensures
            count == skipped_in(self@.testcases),
    {
        let ghost cases = self@.testcases;
        let mut count: usize = 0;
        let mut i: usize = 0;
        while i < self.testcases.len()
            invariant
                cases == case_views(self.testcases@),
                i <= self.testcases.len(),
                count <= i,
                count == skipped_in(cases.take(i as int)),
            decreases self.testcases.len() - i,
        {
            proof {
                lemma_count_step(cases, i as int);
            }
            if self.testcases[i].is_skipped() {
                count = count + 1;
            }
            i = i + 1;
        }
        assert(cases.take(i as int) =~= cases);
        count
    }

    /// The durations of the test cases added up, where the sum is no
    /// longer than the longest duration.
    pub fn checked_time(&self) -> (sum: Option<Duration>)
        ensures
            sum is Some <==> total_time(self@.testcases) <= max_nanoseconds(),
            sum matches Some(sum) ==> sum@ == total_time(self@.testcases),
    {
        let ghost cases = self@.testcases;
        let mut sum = Duration::zero();
        let mut i: usize = 0;
        while i < self.testcases.len()
            invariant
                cases == case_views(self.testcases@),
                i <= self.testcases.len(),
                sum@ == total_time(cases.take(i as int)),
                sum@ <= max_nanoseconds(),
            decreases self.testcases.len() - i,
        {
            proof {
                lemma_count_step(cases, i as int);
                lemma_total_time_grows(cases, i + 1);
            }
            match sum.checked_add(self.testcases[i].time) {
                Some(next) => {
                    sum = next;
                },
                None => {
                    return None;
                },
            }
            i = i + 1;
        }
        assert(cases.take(i as int) =~= cases);
        Some(sum)
    }

    /// The durations of the test cases added up, for a suite whose sum is
    /// no longer than the longest duration.
    pub fn time(&self) -> (sum: Duration)
        requires
            total_time(self@.testcases) <= max_nanoseconds(),
        ensures
            sum@ == total_time(self@.testcases),
    {
        self.checked_time().unwrap()
    }

    /// The durations of the test cases added up, in decimal seconds,
    /// however long they are together.
    pub fn time_text(&self) -> (text: String)
        ensures
            text@ == seconds_text(total_time(self@.testcases)),
    {
        let ghost cases = self@.testcases;
        let mut seconds: u128 = 0;
        let mut nanoseconds: u32 = 0;
        let mut i: usize = 0;
        while i < self.testcases.len()
            invariant
                cases == case_views(self.testcases@),
                i <= self.testcases.len(),
                nanoseconds < 1_000_000_000,
                seconds <= i * 0x1_0000_0000_0000_0000,
                seconds * 1_000_000_000 + nanoseconds == total_time(cases.take(i as int)),
            decreases self.testcases.len() - i,
        {
            proof {
                lemma_count_step(cases, i as int);
            }
            let time = self.testcases[i].time;
            let whole = time.whole_seconds();
            let beyond = time.subsec_nanoseconds();
            assert(time@ == whole * 1_000_000_000 + beyond) by {
                vstd::arithmetic::div_mod::lemma_fundamental_div_mod(time@ as int, 1_000_000_000);
            }
            nanoseconds = nanoseconds + beyond;
            seconds = seconds + whole as u128;
            if nanoseconds >= 1_000_000_000 {
                nanoseconds = nanoseconds - 1_000_000_000;
                seconds = seconds + 1;
            }
            i = i + 1;
        }
        assert(cases.take(i as int) =~= cases);
        let mut text = String::new();
        push_seconds(&mut text, seconds, nanoseconds);
        assert(text@ =~= seconds_text(total_time(cases)));
        text
    }
}

///  Builder for `TestSuite` objects.
#[derive(Debug)]
pub struct TestSuiteBuilder {
    pub testsuite: TestSuite,
}

impl Clone for TestSuiteBuilder {
    fn clone(&self) -> (copy: Self)
        ensures
            copy.testsuite@ == self.testsuite@,
    {
        TestSuiteBuilder { testsuite: self.testsuite.clone() }
    }
}

impl TestSuiteBuilder {
    /// The suite as far as it has been built.
    pub fn testsuite(&self) -> (testsuite: &TestSuite)
        ensures
            *testsuite == self.testsuite,
    {
        &self.testsuite
    }

    /// Create a new `TestSuiteBuilder` with a given name
    pub fn new(name: &str) -> (builder: Self)
        ensures
            builder.testsuite@ == new_suite(name@, builder.testsuite@.timestamp),
            is_moment(builder.testsuite@.timestamp),
    {
        TestSuiteBuilder { testsuite: TestSuite::new(name) }
    }

    /// Add a `TestCase` to the `TestSuiteBuilder`.
    pub fn add_testcase(&mut self, testcase: TestCase) -> (builder: &mut Self)
        ensures
            builder.testsuite@ == (TestSuiteView {
                testcases: old(self).testsuite@.testcases.push(testcase@),
                ..old(self).testsuite@
            }),
            *final(self) == *final(builder),
    {
        self.testsuite.add_testcase(testcase);
        self
    }

    /// Add several `TestCase`s from a Vec.
    pub fn add_testcases(&mut self, testcases: Vec<TestCase>) -> (builder: &mut Self)
        ensures
            builder.testsuite@ == (TestSuiteView {
                testcases: old(self).testsuite@.testcases + case_views(testcases@),
                ..old(self).testsuite@
            }),
            *final(self) == *final(builder),
    {
        self.testsuite.add_testcases(testcases);
        self
    }

    /// Set the timestamp of the `TestSuiteBuilder`.
    ///
    /// By default the timestamp is set to the time when the `TestSuiteBuilder` was created.
    pub fn set_timestamp(&mut self, timestamp: Timestamp) -> (builder: &mut Self)
        ensures
            builder.testsuite@ == (TestSuiteView {
                timestamp: timestamp@,
                ..old(self).testsuite@
            }),
            *final(self) == *final(builder),
    {
        self.testsuite.timestamp = timestamp;
        self
    }

    /// Set what the suite wrote to its standard output.
    pub fn set_system_out(&mut self, system_out: &str) -> (builder: &mut Self)
        ensures
            builder.testsuite@ == (TestSuiteView {
                system_out: Some(system_out@),
                ..old(self).testsuite@
            }),
            *final(self) == *final(builder),
    {
        self.testsuite.system_out = Some(system_out.to_owned());
        self
    }

    /// Set what the suite wrote to its standard error.
    pub fn set_system_err(&mut self, system_err: &str) -> (builder: &mut Self)
        ensures
            builder.testsuite@ == (TestSuiteView {
                system_err: Some(system_err@),
                ..old(self).testsuite@
            }),
            *final(self) == *final(builder),
    {
        self.testsuite.system_err = Some(system_err.to_owned());
        self
    }

    /// Build and return a `TestSuite` object based on the data stored in this TestSuiteBuilder object.
    pub fn build(&self) -> (suite: TestSuite)
        ensures
            suite@ == self.testsuite@,
    {
        self.testsuite.clone()
    }
}

} // verus!
