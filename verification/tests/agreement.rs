use junit_report::xml::{
    write_cdata, write_declaration, write_empty, write_end, write_start,
};
use junit_report::{Duration, Timestamp};
use quick_xml::events::{BytesCData, BytesDecl, BytesEnd, BytesStart, Event};
use quick_xml::Writer;
use time::format_description::well_known::Rfc3339;

fn text(bytes: Vec<u8>) -> String {
    String::from_utf8(bytes).unwrap()
}

#[test]
fn decimal_seconds_as_the_time_crate_prints_them() {
    for millis in [0u64, 1, 10, 500, 999, 1000, 1001, 5000, 6001, 15001, 20001, 30001, 86_400_000] {
        let ours = Duration::milliseconds(millis).as_seconds_text();
        let theirs = time::Duration::milliseconds(millis as i64)
            .as_seconds_f64()
            .to_string();
        assert_eq!(ours, theirs, "{millis} ms");
    }
    for nanos in [1u64, 25, 1_000, 123_456_789, 999_999_999, 1_000_000_001] {
        let ours = Duration::nanoseconds(nanos).as_seconds_text();
        let theirs = time::Duration::nanoseconds(nanos as i64)
            .as_seconds_f64()
            .to_string();
        assert_eq!(ours, theirs, "{nanos} ns");
    }
}

#[test]
fn rfc3339_as_the_time_crate_prints_it() {
    let moments = [
        (2018, 4, 21, 12, 2, 0, 0),
        (1970, 1, 1, 1, 1, 0, 0),
        (0, 1, 1, 0, 0, 0, 0),
        (9999, 12, 31, 23, 59, 59, 999_999_999),
        (2024, 2, 29, 7, 8, 9, 120_000_000),
        (852, 10, 3, 4, 50, 6, 1),
        (2000, 6, 15, 10, 20, 30, 500),
    ];
    for (year, month, day, hour, minute, second, nanosecond) in moments {
        let ours = Timestamp::with_nanosecond(year, month, day, hour, minute, second, nanosecond)
            .unwrap()
            .to_rfc3339();
        let date =
            time::Date::from_calendar_date(year, time::Month::try_from(month).unwrap(), day)
                .unwrap();
        let theirs = date
            .with_hms_nano(hour, minute, second, nanosecond)
            .unwrap()
            .assume_utc()
            .format(&Rfc3339)
            .unwrap();
        assert_eq!(ours, theirs);
    }
}

#[test]
fn calendar_as_the_time_crate_has_it() {
    for year in [0, 1, 4, 100, 400, 1900, 2000, 2019, 2020, 2100, 9999] {
        for month in 1..=12u8 {
            for day in 27..=32u8 {
                let ours = Timestamp::new(year, month, day, 0, 0, 0).is_some();
                let theirs = time::Date::from_calendar_date(
                    year,
                    time::Month::try_from(month).unwrap(),
                    day,
                )
                .is_ok();
                assert_eq!(ours, theirs, "{year}-{month}-{day}");
            }
        }
    }
}

#[test]
fn cdata_parted_as_quick_xml_parts_it() {
    for content in [
        "",
        "plain",
        "]]>",
        "]]",
        ">",
        "a]]>b",
        "]]>]]>",
        "]]]>",
        "]]]]>>",
        "] ]>]>]]>",
        "foo]]>bar]]>baz]]>quux",
        "\u{e9}]]>\u{1f600}",
    ] {
        let mut ours: Vec<u8> = Vec::new();
        write_cdata(&mut ours, content).unwrap();
        let mut theirs: Vec<u8> = Vec::new();
        let mut writer = Writer::new(&mut theirs);
        for section in BytesCData::escaped(content) {
            writer.write_event(Event::CData(section)).unwrap();
        }
        assert_eq!(text(ours), text(theirs), "{content:?}");
    }
}

#[test]
fn tags_as_quick_xml_writes_them() {
    let attributes = vec![("plain", "value"), ("special", "<&>'\"\t\r\n ")];

    let mut ours: Vec<u8> = Vec::new();
    write_declaration(&mut ours, "1.0", "utf-8").unwrap();
    write_start(&mut ours, "outer", &attributes).unwrap();
    write_empty(&mut ours, "inner", &attributes).unwrap();
    write_empty(&mut ours, "bare", &Vec::new()).unwrap();
    write_end(&mut ours, "outer").unwrap();

    let mut theirs: Vec<u8> = Vec::new();
    let mut writer = Writer::new(&mut theirs);
    writer
        .write_event(Event::Decl(BytesDecl::new("1.0", Some("utf-8"), None)))
        .unwrap();
    let mut outer = BytesStart::new("outer");
    outer.push_attribute(("plain", "value"));
    outer.push_attribute(("special", "<&>'\"\t\r\n "));
    writer.write_event(Event::Start(outer)).unwrap();
    writer
        .create_element("inner")
        .with_attribute(("plain", "value"))
        .with_attribute(("special", "<&>'\"\t\r\n "))
        .write_empty()
        .unwrap();
    writer.create_element("bare").write_empty().unwrap();
    writer.write_event(Event::End(BytesEnd::new("outer"))).unwrap();

    assert_eq!(text(ours.clone()), text(theirs));
    assert_eq!(
        text(ours),
        "<?xml version=\"1.0\" encoding=\"utf-8\"?>\
<outer plain=\"value\" special=\"&lt;&amp;&gt;&apos;&quot;&#9;&#13;&#10; \">\
<inner plain=\"value\" special=\"&lt;&amp;&gt;&apos;&quot;&#9;&#13;&#10; \"/>\
<bare/>\
</outer>"
    );
}
