use junit_report::{
    Duration, Report, ReportBuilder, TestCase, TestCaseBuilder, TestSuite, TestSuiteBuilder,
    Timestamp,
};

fn document(report: &Report) -> String {
    let mut out: Vec<u8> = Vec::new();
    report.write_xml(&mut out).unwrap();
    String::from_utf8(out).unwrap()
}

pub fn normalize(out: Vec<u8>) -> String {
    String::from_utf8(out).unwrap().replace("\r\n", "\n")
}

fn epoch_plus_an_hour() -> Timestamp {
    Timestamp::new(1970, 1, 1, 1, 1, 0).unwrap()
}

#[test]
fn count_tests() {
    let mut ts = TestSuite::new("ts");

    let tc1 = TestCase::success("mysuccess", Duration::milliseconds(6001));
    let tc2 = TestCase::error(
        "myerror",
        Duration::seconds(6),
        "Some Error",
        "An Error happened",
    );
    let tc3 = TestCase::failure(
        "myerror",
        Duration::seconds(6),
        "Some failure",
        "A Failure happened",
    );

    assert_eq!(0, ts.tests());
    assert_eq!(0, ts.errors());
    assert_eq!(0, ts.failures());

    ts.add_testcase(tc1);

    assert_eq!(1, ts.tests());
    assert_eq!(0, ts.errors());
    assert_eq!(0, ts.failures());

    ts.add_testcase(tc2);

    assert_eq!(2, ts.tests());
    assert_eq!(1, ts.errors());
    assert_eq!(0, ts.failures());

    ts.add_testcase(tc3);

    assert_eq!(3, ts.tests());
    assert_eq!(1, ts.errors());
    assert_eq!(1, ts.failures());
}

#[test]
fn newline_in_failure_message() {
    let test_failure = TestCase::failure("Burk", Duration::seconds(10), "type", "foo\nbar");
    let timestamp = Timestamp::new(2018, 04, 21, 12, 02, 0).unwrap();
    let ts1 = TestSuiteBuilder::new("Some Testsuite")
        .set_timestamp(timestamp)
        .add_testcase(test_failure)
        .build();
    let r = ReportBuilder::new().add_testsuite(ts1).build();
    let mut out: Vec<u8> = Vec::new();
    r.write_xml(&mut out).unwrap();
    let report = String::from_utf8(out).unwrap();
    println!("{}", report);
    let expected = "<?xml version=\"1.0\" encoding=\"utf-8\"?><testsuites><testsuite id=\"0\" name=\"Some Testsuite\" package=\"testsuite/Some Testsuite\" tests=\"1\" errors=\"0\" failures=\"1\" hostname=\"localhost\" timestamp=\"2018-04-21T12:02:00Z\" time=\"10\"><testcase name=\"Burk\" time=\"10\"><failure type=\"type\" message=\"foo&#10;bar\"/></testcase></testsuite></testsuites>";
    assert!(report == expected);
}

#[test]
fn empty_testsuites() {
    let r = Report::new();

    let mut out: Vec<u8> = Vec::new();

    r.write_xml(&mut out).unwrap();

    assert_eq!(
        normalize(out),
        "<?xml version=\"1.0\" encoding=\"utf-8\"?><testsuites/>"
    );
}

#[test]
fn add_empty_testsuite_single() {
    let timestamp = Timestamp::new(1970, 01, 01, 01, 01, 0).unwrap();

    let ts1 = TestSuiteBuilder::new("ts1")
        .set_timestamp(timestamp)
        .build();
    let mut tsb = TestSuiteBuilder::new("ts2");
    tsb.set_timestamp(timestamp);
    let ts2 = tsb.build();

    let r = ReportBuilder::new()
        .add_testsuite(ts1)
        .add_testsuite(ts2)
        .build();

    let mut out: Vec<u8> = Vec::new();

    r.write_xml(&mut out).unwrap();

    assert_eq!(
        normalize(out),
        "<?xml version=\"1.0\" encoding=\"utf-8\"?>\
<testsuites>\
<testsuite id=\"0\" name=\"ts1\" package=\"testsuite/ts1\" tests=\"0\" errors=\"0\" failures=\"0\" hostname=\"localhost\" timestamp=\"1970-01-01T01:01:00Z\" time=\"0\"/>\
<testsuite id=\"1\" name=\"ts2\" package=\"testsuite/ts2\" tests=\"0\" errors=\"0\" failures=\"0\" hostname=\"localhost\" timestamp=\"1970-01-01T01:01:00Z\" time=\"0\"/>\
</testsuites>"
    );
}

#[test]
fn add_empty_testsuite_single_with_sysout() {
    let timestamp = Timestamp::new(1970, 01, 01, 01, 01, 0).unwrap();

    let ts1 = TestSuiteBuilder::new("ts1")
        .set_system_out("Test sysout")
        .set_timestamp(timestamp)
        .build();

    let r = ReportBuilder::new().add_testsuite(ts1).build();

    let mut out: Vec<u8> = Vec::new();

    r.write_xml(&mut out).unwrap();

    assert_eq!(
        normalize(out),
        "<?xml version=\"1.0\" encoding=\"utf-8\"?>\
<testsuites>\
<testsuite id=\"0\" name=\"ts1\" package=\"testsuite/ts1\" tests=\"0\" errors=\"0\" failures=\"0\" hostname=\"localhost\" timestamp=\"1970-01-01T01:01:00Z\" time=\"0\">\
<system-out><![CDATA[Test sysout]]></system-out>\
</testsuite>\
</testsuites>"
    );
}

#[test]
fn add_empty_testsuite_single_with_syserror() {
    let timestamp = Timestamp::new(1970, 01, 01, 01, 01, 0).unwrap();

    let ts1 = TestSuiteBuilder::new("ts1")
        .set_system_err("Test syserror")
        .set_timestamp(timestamp)
        .build();

    let r = ReportBuilder::new().add_testsuite(ts1).build();

    let mut out: Vec<u8> = Vec::new();

    r.write_xml(&mut out).unwrap();

    assert_eq!(
        normalize(out),
        "<?xml version=\"1.0\" encoding=\"utf-8\"?>\
<testsuites>\
<testsuite id=\"0\" name=\"ts1\" package=\"testsuite/ts1\" tests=\"0\" errors=\"0\" failures=\"0\" hostname=\"localhost\" timestamp=\"1970-01-01T01:01:00Z\" time=\"0\">\
<system-err><![CDATA[Test syserror]]></system-err>\
</testsuite>\
</testsuites>"
    );
}

#[test]
fn add_empty_testsuite_batch() {
    let timestamp = Timestamp::new(1970, 01, 01, 01, 01, 0).unwrap();

    let ts1 = TestSuiteBuilder::new("ts1")
        .set_timestamp(timestamp)
        .build();
    let ts2 = TestSuiteBuilder::new("ts2")
        .set_timestamp(timestamp)
        .build();

    let v = vec![ts1, ts2];

    let r = ReportBuilder::new().add_testsuites(v).build();

    let mut out: Vec<u8> = Vec::new();

    r.write_xml(&mut out).unwrap();

    assert_eq!(
        normalize(out),
        "<?xml version=\"1.0\" encoding=\"utf-8\"?>\
<testsuites>\
<testsuite id=\"0\" name=\"ts1\" package=\"testsuite/ts1\" tests=\"0\" errors=\"0\" failures=\"0\" hostname=\"localhost\" timestamp=\"1970-01-01T01:01:00Z\" time=\"0\"/>\
<testsuite id=\"1\" name=\"ts2\" package=\"testsuite/ts2\" tests=\"0\" errors=\"0\" failures=\"0\" hostname=\"localhost\" timestamp=\"1970-01-01T01:01:00Z\" time=\"0\"/>\
</testsuites>"
    );
}

#[test]
fn batch_of_suites_like_one_by_one() {
    let timestamp = epoch_plus_an_hour();
    let ts1 = TestSuiteBuilder::new("ts1").set_timestamp(timestamp).build();
    let ts2 = TestSuiteBuilder::new("ts2").set_timestamp(timestamp).build();
    let one_by_one = ReportBuilder::new()
        .add_testsuite(ts1.clone())
        .add_testsuite(ts2.clone())
        .build();
    let batch = ReportBuilder::new().add_testsuites(vec![ts1, ts2]).build();
    assert_eq!(document(&batch), document(&one_by_one));
}

#[test]
fn testcases_no_stdout_stderr() {
    let timestamp = Timestamp::new(1970, 01, 01, 01, 01, 0).unwrap();

    let test_success = TestCaseBuilder::success("good test", Duration::milliseconds(15001))
        .set_classname("MyClass")
        .set_filepath("./foo.rs")
        .build();
    let test_error = TestCaseBuilder::error(
        "error test",
        Duration::seconds(5),
        "git error",
        "unable to fetch",
    )
    .build();
    let test_failure = TestCaseBuilder::failure(
        "failure test",
        Duration::seconds(10),
        "assert_eq",
        "not equal",
    )
    .build();

    let ts1 = TestSuiteBuilder::new("ts1")
        .set_timestamp(timestamp)
        .build();
    let ts2 = TestSuiteBuilder::new("ts2")
        .set_timestamp(timestamp)
        .add_testcase(test_success)
        .add_testcase(test_error)
        .add_testcase(test_failure)
        .build();

    let r = ReportBuilder::new()
        .add_testsuite(ts1)
        .add_testsuite(ts2)
        .build();

    let mut out: Vec<u8> = Vec::new();

    r.write_xml(&mut out).unwrap();

    assert_eq!(
        normalize(out),
        "<?xml version=\"1.0\" encoding=\"utf-8\"?>\
<testsuites>\
<testsuite id=\"0\" name=\"ts1\" package=\"testsuite/ts1\" tests=\"0\" errors=\"0\" failures=\"0\" hostname=\"localhost\" timestamp=\"1970-01-01T01:01:00Z\" time=\"0\"/>\
<testsuite id=\"1\" name=\"ts2\" package=\"testsuite/ts2\" tests=\"3\" errors=\"1\" failures=\"1\" hostname=\"localhost\" timestamp=\"1970-01-01T01:01:00Z\" time=\"30.001\">\
<testcase name=\"good test\" time=\"15.001\" classname=\"MyClass\" file=\"./foo.rs\"/>\
<testcase name=\"error test\" time=\"5\">\
<error type=\"git error\" message=\"unable to fetch\"/>\
</testcase>\
<testcase name=\"failure test\" time=\"10\">\
<failure type=\"assert_eq\" message=\"not equal\"/>\
</testcase>\
</testsuite>\
</testsuites>"
    );
}

#[test]
fn test_cases_with_sysout_and_syserr() {
    let timestamp = Timestamp::new(1970, 01, 01, 01, 01, 0).unwrap();

    let test_success = TestCaseBuilder::success("good test", Duration::milliseconds(15001))
        .set_classname("MyClass")
        .set_filepath("./foo.rs")
        .set_system_out("Some sysout message")
        .build();
    let test_error = TestCaseBuilder::error(
        "error test",
        Duration::seconds(5),
        "git error",
        "unable to fetch",
    )
    .set_system_err("Some syserror message")
    .build();
    let test_failure = TestCaseBuilder::failure(
        "failure test",
        Duration::seconds(10),
        "assert_eq",
        "not equal",
    )
    .set_system_out("System out or error message")
    .set_system_err("Another system error message")
    .build();

    let ts1 = TestSuiteBuilder::new("ts1")
        .set_timestamp(timestamp)
        .build();
    let ts2 = TestSuiteBuilder::new("ts2")
        .set_timestamp(timestamp)
        .add_testcase(test_success)
        .add_testcase(test_error)
        .add_testcase(test_failure)
        .build();

    let r = ReportBuilder::new()
        .add_testsuite(ts1)
        .add_testsuite(ts2)
        .build();

    let mut out: Vec<u8> = Vec::new();

    r.write_xml(&mut out).unwrap();

    assert_eq!(
        normalize(out),
        "<?xml version=\"1.0\" encoding=\"utf-8\"?>\
<testsuites>\
<testsuite id=\"0\" name=\"ts1\" package=\"testsuite/ts1\" tests=\"0\" errors=\"0\" failures=\"0\" hostname=\"localhost\" timestamp=\"1970-01-01T01:01:00Z\" time=\"0\"/>\
<testsuite id=\"1\" name=\"ts2\" package=\"testsuite/ts2\" tests=\"3\" errors=\"1\" failures=\"1\" hostname=\"localhost\" timestamp=\"1970-01-01T01:01:00Z\" time=\"30.001\">\
<testcase name=\"good test\" time=\"15.001\" classname=\"MyClass\" file=\"./foo.rs\">\
<system-out><![CDATA[Some sysout message]]></system-out>\
</testcase>\
<testcase name=\"error test\" time=\"5\">\
<error type=\"git error\" message=\"unable to fetch\"/>\
<system-err><![CDATA[Some syserror message]]></system-err>\
</testcase>\
<testcase name=\"failure test\" time=\"10\">\
<failure type=\"assert_eq\" message=\"not equal\"/>\
<system-out><![CDATA[System out or error message]]></system-out>\
<system-err><![CDATA[Another system error message]]></system-err>\
</testcase>\
</testsuite>\
</testsuites>"
    );
}

#[test]
fn default_report_is_the_new_report() {
    assert_eq!(document(&Report::default()), document(&Report::new()));
    assert_eq!(
        document(&ReportBuilder::default().build()),
        document(&ReportBuilder::new().build())
    );
    assert!(ReportBuilder::new().report().testsuites().is_empty());
    let mut builder = ReportBuilder::new();
    builder.add_testsuite(TestSuite::new("kept"));
    assert_eq!(builder.report().testsuites().len(), 1);
    assert_eq!(builder.clone().build().testsuites()[0].name(), "kept");
}

#[test]
fn cases_with_captured_output_and_cause() {
    let timestamp = epoch_plus_an_hour();

    let test_success = TestCaseBuilder::success("good test", Duration::milliseconds(15001))
        .set_classname("MyClass")
        .set_filepath("./foo.rs")
        .set_system_out("Some sysout message")
        .build();
    let test_error = TestCaseBuilder::error(
        "error test",
        Duration::seconds(5),
        "git error",
        "unable to fetch",
    )
    .set_system_err("Some syserror message")
    .set_trace("at line 3")
    .build();
    let test_failure = TestCaseBuilder::failure(
        "failure test",
        Duration::seconds(10),
        "assert_eq",
        "not equal",
    )
    .set_system_out("System out or error message")
    .set_system_err("Another system error message")
    .build();

    let ts2 = TestSuiteBuilder::new("ts2")
        .set_timestamp(timestamp)
        .add_testcase(test_success)
        .add_testcase(test_error)
        .add_testcase(test_failure)
        .build();

    let r = ReportBuilder::new().add_testsuite(ts2).build();

    assert_eq!(
        document(&r),
        "<?xml version=\"1.0\" encoding=\"utf-8\"?>\
<testsuites>\
<testsuite id=\"0\" name=\"ts2\" package=\"testsuite/ts2\" tests=\"3\" errors=\"1\" failures=\"1\" hostname=\"localhost\" timestamp=\"1970-01-01T01:01:00Z\" time=\"30.001\">\
<testcase name=\"good test\" time=\"15.001\" classname=\"MyClass\" file=\"./foo.rs\">\
<system-out><![CDATA[Some sysout message]]></system-out>\
</testcase>\
<testcase name=\"error test\" time=\"5\">\
<error type=\"git error\" message=\"unable to fetch\"><![CDATA[at line 3]]></error>\
<system-err><![CDATA[Some syserror message]]></system-err>\
</testcase>\
<testcase name=\"failure test\" time=\"10\">\
<failure type=\"assert_eq\" message=\"not equal\"/>\
<system-out><![CDATA[System out or error message]]></system-out>\
<system-err><![CDATA[Another system error message]]></system-err>\
</testcase>\
</testsuite>\
</testsuites>"
    );
}

#[test]
fn report_of_the_four_results() {
    let timestamp = Timestamp::new(2018, 4, 21, 12, 2, 0).unwrap();

    let test_success = TestCaseBuilder::success("test1", Duration::seconds(15))
        .set_classname("MyClass")
        .set_filepath("./foo.rs")
        .build();
    let test_error = TestCase::error(
        "test3",
        Duration::seconds(5),
        "git error",
        "Could not clone",
    );
    let test_failure = TestCase::failure(
        "test2",
        Duration::seconds(10),
        "assert_eq",
        "What was not true",
    );
    let test_ignored = TestCase::skipped("test4");

    let ts1 = TestSuiteBuilder::new("ts1")
        .set_timestamp(timestamp)
        .add_testcase(test_success)
        .add_testcase(test_failure)
        .add_testcase(test_error)
        .add_testcase(test_ignored)
        .build();

    assert_eq!(ts1.tests(), 4);
    assert_eq!(ts1.errors(), 1);
    assert_eq!(ts1.failures(), 1);
    assert_eq!(ts1.skipped(), 1);

    let r = ReportBuilder::new().add_testsuite(ts1).build();

    assert_eq!(
        document(&r),
        "<?xml version=\"1.0\" encoding=\"utf-8\"?>\
<testsuites>\
<testsuite id=\"0\" name=\"ts1\" package=\"testsuite/ts1\" tests=\"4\" errors=\"1\" failures=\"1\" hostname=\"localhost\" timestamp=\"2018-04-21T12:02:00Z\" time=\"30\">\
<testcase name=\"test1\" time=\"15\" classname=\"MyClass\" file=\"./foo.rs\"/>\
<testcase name=\"test2\" time=\"10\">\
<failure type=\"assert_eq\" message=\"What was not true\"/>\
</testcase>\
<testcase name=\"test3\" time=\"5\">\
<error type=\"git error\" message=\"Could not clone\"/>\
</testcase>\
<testcase name=\"test4\" time=\"0\">\
<skipped/>\
</testcase>\
</testsuite>\
</testsuites>"
    );
}

#[test]
fn skipped_case_of_no_duration() {
    let case = TestCase::skipped("later");
    assert_eq!(case.time, Duration::zero());
    let mut out: Vec<u8> = Vec::new();
    case.write_xml(&mut out).unwrap();
    assert_eq!(
        String::from_utf8(out).unwrap(),
        "<testcase name=\"later\" time=\"0\"><skipped/></testcase>"
    );
}

#[test]
fn same_report_written_twice() {
    let suite = TestSuiteBuilder::new("again")
        .set_timestamp(epoch_plus_an_hour())
        .add_testcase(TestCase::success("one", Duration::nanoseconds(1)))
        .set_system_out("out")
        .build();
    let r = ReportBuilder::new().add_testsuite(suite).build();
    let first = document(&r);
    let second = document(&r);
    assert_eq!(first, second);
    assert_eq!(document(&r.clone()), first);
}

#[test]
fn sink_keeps_what_it_held() {
    let mut out: Vec<u8> = b"before".to_vec();
    Report::new().write_xml(&mut out).unwrap();
    assert_eq!(
        String::from_utf8(out).unwrap(),
        "before<?xml version=\"1.0\" encoding=\"utf-8\"?><testsuites/>"
    );
}

#[test]
fn attribute_values_are_escaped() {
    let case = TestCase::failure(
        "a<b>&'c'\"d\"",
        Duration::zero(),
        "tab\there",
        "line\r\nbreak",
    );
    let mut out: Vec<u8> = Vec::new();
    case.write_xml(&mut out).unwrap();
    assert_eq!(
        String::from_utf8(out).unwrap(),
        "<testcase name=\"a&lt;b&gt;&amp;&apos;c&apos;&quot;d&quot;\" time=\"0\">\
<failure type=\"tab&#9;here\" message=\"line&#13;&#10;break\"/>\
</testcase>"
    );
}

#[test]
fn text_beyond_ascii_is_kept() {
    let case = TestCaseBuilder::success("pr\u{fc}fung \u{2713}", Duration::zero())
        .set_system_out("\u{1f600} ok")
        .build();
    let mut out: Vec<u8> = Vec::new();
    case.write_xml(&mut out).unwrap();
    assert_eq!(
        String::from_utf8(out).unwrap(),
        "<testcase name=\"pr\u{fc}fung \u{2713}\" time=\"0\">\
<system-out><![CDATA[\u{1f600} ok]]></system-out>\
</testcase>"
    );
}

#[test]
fn cdata_is_not_escaped() {
    let case = TestCaseBuilder::success("raw", Duration::zero())
        .set_system_out("a < b && c > d \"quoted\"\n]] >")
        .build();
    let mut out: Vec<u8> = Vec::new();
    case.write_xml(&mut out).unwrap();
    assert_eq!(
        String::from_utf8(out).unwrap(),
        "<testcase name=\"raw\" time=\"0\">\
<system-out><![CDATA[a < b && c > d \"quoted\"\n]] >]]></system-out>\
</testcase>"
    );
}

#[test]
fn cdata_end_in_text_is_split() {
    let case = TestCaseBuilder::error("split", Duration::zero(), "t", "m")
        .set_trace("foo]]>bar]]]>baz]]>")
        .build();
    let mut out: Vec<u8> = Vec::new();
    case.write_xml(&mut out).unwrap();
    assert_eq!(
        String::from_utf8(out).unwrap(),
        "<testcase name=\"split\" time=\"0\">\
<error type=\"t\" message=\"m\">\
<![CDATA[foo]]]]><![CDATA[>bar]]]]]><![CDATA[>baz]]]]><![CDATA[>]]>\
</error>\
</testcase>"
    );
}

#[test]
fn empty_texts_are_written() {
    let case = TestCaseBuilder::failure("", Duration::zero(), "", "")
        .set_trace("")
        .set_system_err("")
        .build();
    let mut out: Vec<u8> = Vec::new();
    case.write_xml(&mut out).unwrap();
    assert_eq!(
        String::from_utf8(out).unwrap(),
        "<testcase name=\"\" time=\"0\">\
<failure type=\"\" message=\"\"><![CDATA[]]></failure>\
<system-err><![CDATA[]]></system-err>\
</testcase>"
    );
}

#[test]
fn trace_is_kept_off_success_and_skipped() {
    let success = TestCaseBuilder::success("s", Duration::zero())
        .set_trace("trace")
        .build();
    assert!(success.is_success());
    let skipped = TestCaseBuilder::skipped("k").set_trace("trace").build();
    assert!(skipped.is_skipped());
    let mut out: Vec<u8> = Vec::new();
    success.write_xml(&mut out).unwrap();
    skipped.write_xml(&mut out).unwrap();
    assert_eq!(
        String::from_utf8(out).unwrap(),
        "<testcase name=\"s\" time=\"0\"/><testcase name=\"k\" time=\"0\"><skipped/></testcase>"
    );
}

#[test]
fn suite_ids_follow_the_order() {
    let mut report = Report::new();
    for name in ["a", "b", "c"] {
        let mut suite = TestSuite::new(name);
        suite.set_timestamp(epoch_plus_an_hour());
        report.add_testsuite(suite);
    }
    assert_eq!(report.testsuites().len(), 3);
    let text = document(&report);
    let a = text.find("<testsuite id=\"0\" name=\"a\"").unwrap();
    let b = text.find("<testsuite id=\"1\" name=\"b\"").unwrap();
    let c = text.find("<testsuite id=\"2\" name=\"c\"").unwrap();
    assert!(a < b && b < c);
}
