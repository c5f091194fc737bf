//! The report, and the document that it is written as.

use crate::collections::{
    case_views, errors_in, failures_in, total_time, TestCase, TestCaseView, TestResult,
    TestResultView, TestSuite, TestSuiteView,
};
use crate::decimal::{decimal, decimal_text};
use crate::duration::seconds_text;
use crate::error::ReportError;
use crate::timestamp::rfc3339;
use crate::xml::{
    appended, cdata, declaration, element, empty_tag, end_tag, lemma_appended_twice,
    lemma_nothing_written, optional_cdata_element, start_tag, text_view, write_cdata,
    write_declaration, write_empty, write_end, write_optional_cdata_element, write_start,
};
use vstd::prelude::*;
use vstd::string::*;

verus! {

/// The attributes of a `testcase` element: name and time, then the class
/// name and the file where the case has them.
pub open spec fn case_attributes(case: TestCaseView) -> Seq<(Seq<char>, Seq<char>)> {
    seq![("name"@, case.name), ("time"@, seconds_text(case.time))] + (match case.classname {
        Some(classname) => seq![("classname"@, classname)],
        None => Seq::empty(),
    }) + (match case.filepath {
        Some(filepath) => seq![("file"@, filepath)],
        None => Seq::empty(),
    })
}

/// The element of an error or a failure: its type and message as
/// attributes, and its cause, where it has one, as CDATA.
pub open spec fn outcome_xml(
    tag: Seq<char>,
    type_: Seq<char>,
    message: Seq<char>,
    cause: Option<Seq<char>>,
) -> Seq<char> {
    let attributes = seq![("type"@, type_), ("message"@, message)];
    match cause {
        Some(cause) => element(tag, attributes, cdata(cause)),
        None => empty_tag(tag, attributes),
    }
}

/// What a result puts into its `testcase` element.
pub open spec fn result_xml(result: TestResultView) -> Seq<char> {
    match result {
        TestResultView::Success => Seq::empty(),
        TestResultView::Skipped => empty_tag("skipped"@, Seq::empty()),
        TestResultView::Error { type_, message, cause } => outcome_xml(
            "error"@,
            type_,
            message,
            cause,
        ),
        TestResultView::Failure { type_, message, cause } => outcome_xml(
            "failure"@,
            type_,
            message,
            cause,
        ),
    }
}

/// Whether a `testcase` element has nothing in it: the case succeeded and
/// captured no output.
pub open spec fn case_is_empty(case: TestCaseView) -> bool {
    case.result is Success && case.system_out is None && case.system_err is None
}

/// What stands inside a `testcase` element: the result, then the captured
/// output.
pub open spec fn case_content(case: TestCaseView) -> Seq<char> {
    result_xml(case.result) + optional_cdata_element("system-out"@, case.system_out)
        + optional_cdata_element("system-err"@, case.system_err)
}

/// The `testcase` element of a test case.
pub open spec fn case_xml(case: TestCaseView) -> Seq<char> {
    if case_is_empty(case) {
        empty_tag("testcase"@, case_attributes(case))
    } else {
        element("testcase"@, case_attributes(case), case_content(case))
    }
}

/// The `testcase` elements of test cases, in their order.
pub open spec fn cases_xml(cases: Seq<TestCaseView>) -> Seq<char>
    decreases cases.len(),
{
    if cases.len() == 0 {
        Seq::empty()
    } else {
        cases_xml(cases.drop_last()) + case_xml(cases.last())
    }
}

/// The attributes of the `testsuite` element of the suite at place `id`
/// of a report.
pub open spec fn suite_attributes(id: nat, suite: TestSuiteView) -> Seq<(Seq<char>, Seq<char>)> {
    seq![
        ("id"@, decimal(id)),
        ("name"@, suite.name),
        ("package"@, suite.package),
        ("tests"@, decimal(suite.testcases.len())),
        ("errors"@, decimal(errors_in(suite.testcases))),
        ("failures"@, decimal(failures_in(suite.testcases))),
        ("hostname"@, suite.hostname),
        ("timestamp"@, rfc3339(suite.timestamp)),
        ("time"@, seconds_text(total_time(suite.testcases))),
    ]
}

/// Whether a `testsuite` element has nothing in it: the suite has no test
/// cases and no output.
pub open spec fn suite_is_empty(suite: TestSuiteView) -> bool {
    suite.testcases.len() == 0 && suite.system_out is None && suite.system_err is None
}

/// What stands inside a `testsuite` element: the test cases, then the
/// output of the suite.
pub open spec fn suite_content(suite: TestSuiteView) -> Seq<char> {
    cases_xml(suite.testcases) + optional_cdata_element("system-out"@, suite.system_out)
        + optional_cdata_element("system-err"@, suite.system_err)
}

/// The `testsuite` element of the suite at place `id` of a report.
pub open spec fn suite_xml(id: nat, suite: TestSuiteView) -> Seq<char> {
    if suite_is_empty(suite) {
        empty_tag("testsuite"@, suite_attributes(id, suite))
    } else {
        element("testsuite"@, suite_attributes(id, suite), suite_content(suite))
    }
}

/// The `testsuite` elements of suites, in their order, each with its place
/// as its id.
pub open spec fn suites_xml(suites: Seq<TestSuiteView>) -> Seq<char>
    decreases suites.len(),
{
    if suites.len() == 0 {
        Seq::empty()
    } else {
        suites_xml(suites.drop_last()) + suite_xml((suites.len() - 1) as nat, suites.last())
    }
}

/// The document of a report: the XML declaration, then the `testsuites`
/// element, which holds the suites or, without suites, is empty.
pub open spec fn report_xml(suites: Seq<TestSuiteView>) -> Seq<char> {
    declaration("1.0"@, "utf-8"@) + (if suites.len() == 0 {
        empty_tag("testsuites"@, Seq::empty())
    } else {
        element("testsuites"@, Seq::empty(), suites_xml(suites))
    })
}

/// Writes the element of an error or a failure.
fn write_outcome(
    sink: &mut Vec<u8>,
    tag: &str,
    type_: &str,
    message: &str,
    cause: &Option<String>,
) -> (r: Result<(), ReportError>)
    ensures
        r is Ok,
        appended(
            old(sink)@,
            final(sink)@,
            outcome_xml(tag@, type_@, message@, text_view(*cause)),
        ),
{
    let mut attributes: Vec<(&str, &str)> = Vec::new();
    attributes.push(("type", type_));
    attributes.push(("message", message));
    assert(attributes.deep_view() =~= seq![("type"@, type_@), ("message"@, message@)]);
    match cause {
        None => write_empty(sink, tag, &attributes),
        Some(cause) => {
            let ghost before = sink@;
            let ghost open = start_tag(tag@, attributes.deep_view());
            write_start(sink, tag, &attributes)?;
            let ghost held = sink@;
            write_cdata(sink, cause.as_str())?;
            proof {
                lemma_appended_twice(before, held, sink@, open, cdata(cause@));
            }
            let ghost held = sink@;
            let written = write_end(sink, tag);
            proof {
                lemma_appended_twice(before, held, sink@, open + cdata(cause@), end_tag(tag@));
            }
            written
        },
    }
}

/// Writes what a result puts into its `testcase` element.
fn write_result(sink: &mut Vec<u8>, result: &TestResult) -> (r: Result<(), ReportError>)
    ensures
        r is Ok,
        appended(old(sink)@, final(sink)@, result_xml(result@)),
{
    match result {
        TestResult::Success => {
            proof {
                lemma_nothing_written(sink@);
            }
            Ok(())
        },
        TestResult::Skipped => {
            let attributes: Vec<(&str, &str)> = Vec::new();
            assert(attributes.deep_view() =~= Seq::empty());
            write_empty(sink, "skipped", &attributes)
        },
        TestResult::Error { type_, message, cause } => write_outcome(
            sink,
            "error",
            type_.as_str(),
            message.as_str(),
            cause,
        ),
        TestResult::Failure { type_, message, cause } => write_outcome(
            sink,
            "failure",
            type_.as_str(),
            message.as_str(),
            cause,
        ),
    }
}

/// The attributes of the `testcase` element of a test case whose time in
/// decimal seconds is `time`.
fn case_attribute_list<'a>(case: &'a TestCase, time: &'a str) -> (attributes: Vec<
    (&'a str, &'a str),
>)
    requires
        time@ == seconds_text(case@.time),
    ensures
        attributes.deep_view() == case_attributes(case@),
{
    let mut attributes: Vec<(&str, &str)> = Vec::new();
    attributes.push(("name", case.name.as_str()));
    attributes.push(("time", time));
    match &case.classname {
        Some(classname) => {
            attributes.push(("classname", classname.as_str()));
        },
        None => {},
    }
    match &case.filepath {
        Some(filepath) => {
            attributes.push(("file", filepath.as_str()));
        },
        None => {},
    }
    assert(attributes.deep_view() =~= case_attributes(case@));
    attributes
}

/// Writes what stands inside the `testcase` element of a test case.
fn write_case_content(sink: &mut Vec<u8>, case: &TestCase) -> (r: Result<(), ReportError>)
    ensures
        r is Ok,
        appended(old(sink)@, final(sink)@, case_content(case@)),
{
    let ghost before = sink@;
    let ghost result = result_xml(case@.result);
    let ghost out = optional_cdata_element("system-out"@, case@.system_out);
    write_result(sink, &case.result)?;
    let ghost held = sink@;
    write_optional_cdata_element(sink, "system-out", &case.system_out)?;
    proof {
        lemma_appended_twice(before, held, sink@, result, out);
    }
    let ghost held = sink@;
    let written = write_optional_cdata_element(sink, "system-err", &case.system_err);
    proof {
        lemma_appended_twice(
            before,
            held,
            sink@,
            result + out,
            optional_cdata_element("system-err"@, case@.system_err),
        );
    }
    written
}

impl TestCase {
    /// Write the XML version of the [`TestCase`] to the given sink.
    pub fn write_xml(&self, sink: &mut Vec<u8>) -> (r: Result<(), ReportError>)
        ensures
            r is Ok,
            appended(old(sink)@, final(sink)@, case_xml(self@)),
    {
        let time = self.time.as_seconds_text();
        let attributes = case_attribute_list(self, time.as_str());
        if self.is_success() && self.system_out.is_none() && self.system_err.is_none() {
            return write_empty(sink, "testcase", &attributes);
        }
        let ghost before = sink@;
        let ghost open = start_tag("testcase"@, case_attributes(self@));
        write_start(sink, "testcase", &attributes)?;
        let ghost held = sink@;
        write_case_content(sink, self)?;
        proof {
            lemma_appended_twice(before, held, sink@, open, case_content(self@));
        }
        let ghost held = sink@;
        let written = write_end(sink, "testcase");
        proof {
            lemma_appended_twice(
                before,
                held,
                sink@,
                open + case_content(self@),
                end_tag("testcase"@),
            );
        }
        written
    }
}

/// Writes the `testcase` elements of test cases, in their order.
fn write_cases(sink: &mut Vec<u8>, cases: &Vec<TestCase>) -> (r: Result<(), ReportError>)
    ensures
        r is Ok,
        appended(old(sink)@, final(sink)@, cases_xml(case_views(cases@))),
{
    let ghost before = sink@;
    let ghost views = case_views(cases@);
    proof {
        lemma_nothing_written(sink@);
        assert(views.take(0) =~= Seq::empty());
    }
    let mut i: usize = 0;
    while i < cases.len()
        invariant
            views == case_views(cases@),
            i <= cases.len(),
            appended(before, sink@, cases_xml(views.take(i as int))),
        decreases cases.len() - i,
    {
        let ghost held = sink@;
        cases[i].write_xml(sink)?;
        proof {
            assert(views.take(i + 1).drop_last() =~= views.take(i as int));
            assert(views.take(i + 1).last() == cases@[i as int]@);
            lemma_appended_twice(
                before,
                held,
                sink@,
                cases_xml(views.take(i as int)),
                case_xml(cases@[i as int]@),
            );
        }
        i = i + 1;
    }
    assert(views.take(i as int) =~= views);
    Ok(())
}

/// The attributes of the `testsuite` element of the suite at place `id`
/// of a report, of the texts that the numbers, the moment and the time of
/// the suite are written as.
fn suite_attribute_list<'a>(
    suite: &'a TestSuite,
    id: &'a str,
    tests: &'a str,
    errors: &'a str,
    failures: &'a str,
    timestamp: &'a str,
    time: &'a str,
) -> (attributes: Vec<(&'a str, &'a str)>)
    ensures
        attributes.deep_view() == seq![
            ("id"@, id@),
            ("name"@, suite@.name),
            ("package"@, suite@.package),
            ("tests"@, tests@),
            ("errors"@, errors@),
            ("failures"@, failures@),
            ("hostname"@, suite@.hostname),
            ("timestamp"@, timestamp@),
            ("time"@, time@),
        ],
{
    let mut attributes: Vec<(&str, &str)> = Vec::new();
    attributes.push(("id", id));
    attributes.push(("name", suite.name.as_str()));
    attributes.push(("package", suite.package.as_str()));
    attributes.push(("tests", tests));
    attributes.push(("errors", errors));
    attributes.push(("failures", failures));
    attributes.push(("hostname", suite.hostname.as_str()));
    attributes.push(("timestamp", timestamp));
    attributes.push(("time", time));
    assert(attributes.deep_view() =~= seq![
        ("id"@, id@),
        ("name"@, suite@.name),
        ("package"@, suite@.package),
        ("tests"@, tests@),
        ("errors"@, errors@),
        ("failures"@, failures@),
        ("hostname"@, suite@.hostname),
        ("timestamp"@, timestamp@),
        ("time"@, time@),
    ]);
    attributes
}

/// Writes what stands inside the `testsuite` element of a suite.
fn write_suite_content(sink: &mut Vec<u8>, suite: &TestSuite) -> (r: Result<(), ReportError>)
    ensures
        r is Ok,
        appended(old(sink)@, final(sink)@, suite_content(suite@)),
{
    let ghost before = sink@;
    let ghost cases = cases_xml(suite@.testcases);
    let ghost out = optional_cdata_element("system-out"@, suite@.system_out);
    write_cases(sink, &suite.testcases)?;
    let ghost held = sink@;
    write_optional_cdata_element(sink, "system-out", &suite.system_out)?;
    proof {
        lemma_appended_twice(before, held, sink@, cases, out);
    }
    let ghost held = sink@;
    let written = write_optional_cdata_element(sink, "system-err", &suite.system_err);
    proof {
        lemma_appended_twice(
            before,
            held,
            sink@,
            cases + out,
            optional_cdata_element("system-err"@, suite@.system_err),
        );
    }
    written
}

/// Writes the `testsuite` element of the suite at place `id` of a report.
fn write_suite(sink: &mut Vec<u8>, id: usize, suite: &TestSuite) -> (r: Result<
    (),
    ReportError,
>)
    ensures
        r is Ok,
        appended(old(sink)@, final(sink)@, suite_xml(id as nat, suite@)),
{
    let id_text = decimal_text(id as u128);
    let tests = decimal_text(suite.tests() as u128);
    let errors = decimal_text(suite.errors() as u128);
    let failures = decimal_text(suite.failures() as u128);
    let timestamp = suite.timestamp.to_rfc3339();
    let time = suite.time_text();
    let attributes = suite_attribute_list(
        suite,
        id_text.as_str(),
        tests.as_str(),
        errors.as_str(),
        failures.as_str(),
        timestamp.as_str(),
        time.as_str(),
    );
    if suite.testcases.len() == 0 && suite.system_out.is_none() && suite.system_err.is_none() {
        return write_empty(sink, "testsuite", &attributes);
    }
    let ghost before = sink@;
    let ghost open = start_tag("testsuite"@, suite_attributes(id as nat, suite@));
    write_start(sink, "testsuite", &attributes)?;
    let ghost held = sink@;
    write_suite_content(sink, suite)?;
    proof {
        lemma_appended_twice(before, held, sink@, open, suite_content(suite@));
    }
    let ghost held = sink@;
    let written = write_end(sink, "testsuite");
    proof {
        lemma_appended_twice(
            before,
            held,
            sink@,
            open + suite_content(suite@),
            end_tag("testsuite"@),
        );
    }
    written
}

/// The suites of a report, each by its view, in their order.
pub open spec fn suite_views(suites: Seq<TestSuite>) -> Seq<TestSuiteView> {
    suites.map_values(|suite: TestSuite| suite@)
}

/// Writes the `testsuite` elements of suites, in their order, each with
/// its place as its id.
fn write_suites(sink: &mut Vec<u8>, suites: &Vec<TestSuite>) -> (r: Result<(), ReportError>)
    ensures
        r is Ok,
        appended(old(sink)@, final(sink)@, suites_xml(suite_views(suites@))),
{
    let ghost before = sink@;
    let ghost views = suite_views(suites@);
    proof {
        lemma_nothing_written(sink@);
        assert(views.take(0) =~= Seq::empty());
    }
    let mut id: usize = 0;
    while id < suites.len()
        invariant
            views == suite_views(suites@),
            id <= suites.len(),
            appended(before, sink@, suites_xml(views.take(id as int))),
        decreases suites.len() - id,
    {
        let ghost held = sink@;
        write_suite(sink, id, &suites[id])?;
        proof {
            assert(views.take(id + 1).drop_last() =~= views.take(id as int));
            assert(views.take(id + 1).last() == suites@[id as int]@);
            lemma_appended_twice(
                before,
                held,
                sink@,
                suites_xml(views.take(id as int)),
                suite_xml(id as nat, suites@[id as int]@),
            );
        }
        id = id + 1;
    }
    assert(views.take(id as int) =~= views);
    Ok(())
}

/// A copy of test suites, in their order.
fn clone_suites(suites: &Vec<TestSuite>) -> (copy: Vec<TestSuite>)
    ensures
        suite_views(copy@) == suite_views(suites@),
{
    let mut copy: Vec<TestSuite> = Vec::new();
    let mut i: usize = 0;
    while i < suites.len()
        invariant
            i <= suites.len(),
            copy@.len() == i,
            forall|j: int| 0 <= j < i ==> copy@[j]@ == suites@[j]@,
        decreases suites.len() - i,
    {
        copy.push(suites[i].clone());
        i = i + 1;
    }
    assert(suite_views(copy@) =~= suite_views(suites@));
    copy
}

/// Root element of a JUnit report
#[derive(Debug)]
pub struct Report {
    testsuites: Vec<TestSuite>,
}

/// A report: its test suites by their views, in their order.
pub struct ReportView {
    pub testsuites: Seq<TestSuiteView>,
}

impl View for Report {
    type V = ReportView;

    closed spec fn view(&self) -> ReportView {
        ReportView { testsuites: suite_views(self.testsuites@) }
    }
}

impl Clone for Report {
    fn clone(&self) -> (copy: Self)
        ensures
            copy@ == self@,
    {
        Report { testsuites: clone_suites(&self.testsuites) }
    }
}

impl Default for Report {
    fn default() -> (report: Self)
        ensures
            report@.testsuites == Seq::<TestSuiteView>::empty(),
    {
        Report::new()
    }
}

impl Report {
    /// Create a new empty Report
    pub fn new() -> (report: Report)
        ensures
            report@.testsuites == Seq::<TestSuiteView>::empty(),
    {
        let report = Report { testsuites: Vec::new() };
        assert(report@.testsuites =~= Seq::empty());
        report
    }

    /// Add a `TestSuite` to this report.
    ///
    /// The function takes ownership of the supplied `TestSuite`.
    pub fn add_testsuite(&mut self, testsuite: TestSuite)
        ensures
            final(self)@.testsuites == old(self)@.testsuites.push(testsuite@),
    {
        self.testsuites.push(testsuite);
        assert(suite_views(self.testsuites@) =~= suite_views(old(self).testsuites@).push(
            testsuite@,
        ));
    }

    /// Add multiple `TestSuite`s from a Vec.
    pub fn add_testsuites(&mut self, testsuites: Vec<TestSuite>)
        ensures
            final(self)@.testsuites == old(self)@.testsuites + suite_views(testsuites@),
    {
        let mut added = testsuites;
        self.testsuites.append(&mut added);
        assert(suite_views(self.testsuites@) =~= suite_views(old(self).testsuites@) + suite_views(
            testsuites@,
        ));
    }

    /// The test suites of the report, in their order.
    pub fn testsuites(&self) -> (testsuites: &Vec<TestSuite>)
        ensures
            suite_views(testsuites@) == self@.testsuites,
    {
        &self.testsuites
    }

    /// Write the XML version of the Report to the given sink.
    pub fn write_xml(&self, sink: &mut Vec<u8>) -> (r: Result<(), ReportError>)
        ensures
            r is Ok,
            appended(old(sink)@, final(sink)@, report_xml(self@.testsuites)),
    {
        let ghost before = sink@;
        let ghost head = declaration("1.0"@, "utf-8"@);
        let attributes: Vec<(&str, &str)> = Vec::new();
        assert(attributes.deep_view() =~= Seq::empty());
        write_declaration(sink, "1.0", "utf-8")?;
        if self.testsuites.len() == 0 {
            let ghost held = sink@;
            let written = write_empty(sink, "testsuites", &attributes);
            proof {
                lemma_appended_twice(
                    before,
                    held,
                    sink@,
                    head,
                    empty_tag("testsuites"@, Seq::empty()),
                );
            }
            return written;
        }
        let ghost open = start_tag("testsuites"@, Seq::empty());
        let ghost suites = suites_xml(self@.testsuites);
        let ghost held = sink@;
        write_start(sink, "testsuites", &attributes)?;
        proof {
            lemma_appended_twice(before, held, sink@, head, open);
        }
        let ghost held = sink@;
        write_suites(sink, &self.testsuites)?;
        proof {
            lemma_appended_twice(before, held, sink@, head + open, suites);
        }
        let ghost held = sink@;
        let written = write_end(sink, "testsuites");
        proof {
            lemma_appended_twice(before, held, sink@, head + open + suites, end_tag("testsuites"@));
            assert(head + open + suites + end_tag("testsuites"@) =~= report_xml(
                self@.testsuites,
            ));
        }
        written
    }
}

/// Builder for JUnit `Report` objects
#[derive(Debug)]
pub struct ReportBuilder {
    report: Report,
}

impl View for ReportBuilder {
    type V = ReportView;

    closed spec fn view(&self) -> ReportView {
        self.report@
    }
}

impl Clone for ReportBuilder {
    fn clone(&self) -> (copy: Self)
        ensures
            copy@ == self@,
    {
        ReportBuilder { report: self.report.clone() }
    }
}

impl Default for ReportBuilder {
    fn default() -> (builder: Self)
        ensures
            builder@.testsuites == Seq::<TestSuiteView>::empty(),
    {
        ReportBuilder::new()
    }
}

impl ReportBuilder {
    /// Create a new empty ReportBuilder
    pub fn new() -> (builder: ReportBuilder)
        ensures
            builder@.testsuites == Seq::<TestSuiteView>::empty(),
    {
        ReportBuilder { report: Report::new() }
    }

    /// Add a `TestSuite` to this report builder.
    ///
    /// The function takes ownership of the supplied `TestSuite`.
    pub fn add_testsuite(&mut self, testsuite: TestSuite) -> (builder: &mut Self)
        ensures
            builder@.testsuites == old(self)@.testsuites.push(testsuite@),
            *final(self) == *final(builder),
    {
        self.report.add_testsuite(testsuite);
        self
    }

    /// Add multiple `TestSuite`s from a Vec.
    pub fn add_testsuites(&mut self, testsuites: Vec<TestSuite>) -> (builder: &mut Self)
        ensures
            builder@.testsuites == old(self)@.testsuites + suite_views(testsuites@),
            *final(self) == *final(builder),
    {
        self.report.add_testsuites(testsuites);
        self
    }

    /// The report as far as it has been built.
    pub fn report(&self) -> (report: &Report)
        ensures
            report@ == self@,
    {
        &self.report
    }

    /// Build and return a `Report` object based on the data stored in this ReportBuilder object.
    pub fn build(&self) -> (report: Report)
        ensures
            report@ == self@,
    {
        self.report.clone()
    }
}

} // verus!
