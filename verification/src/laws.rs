//! What holds of every report, suite and test case.

use crate::collections::{
    errors_in, failures_in, lemma_count_step, skipped_in, successes_in, total_time, TestCaseView,
    TestSuiteView,
};
use crate::decimal::decimal;
use crate::duration::seconds_text;
use crate::reports::{report_xml, Report};
use crate::xml::{
    appended, attributes_text, cdata, cdata_open, escaped, escaped_char, splits_before,
};
use vstd::prelude::*;

verus! {

/// A report without test suites is written as the XML declaration and an
/// empty `testsuites` element, and nothing else.
pub proof fn lemma_report_without_suites(suites: Seq<TestSuiteView>)
    requires
        suites.len() == 0,
    ensures
        report_xml(suites) == "<?xml version=\"1.0\" encoding=\"utf-8\"?><testsuites/>"@,
{
    reveal_strlit("<?xml version=\"1.0\" encoding=\"utf-8\"?><testsuites/>");
    reveal_strlit("<?xml version=\"");
    reveal_strlit("1.0");
    reveal_strlit("\" encoding=\"");
    reveal_strlit("utf-8");
    reveal_strlit("\"?>");
    reveal_strlit("<");
    reveal_strlit("testsuites");
    reveal_strlit("/>");
    let none = Seq::<(Seq<char>, Seq<char>)>::empty();
    assert(attributes_text(none) =~= Seq::<char>::empty());
    assert(report_xml(suites) =~= "<?xml version=\"1.0\" encoding=\"utf-8\"?><testsuites/>"@);
}

/// Whether a character would end or disturb an attribute value if it stood
/// there as it is.
pub open spec fn is_special(c: char) -> bool {
    c == '<' || c == '>' || c == '&' || c == '\'' || c == '"' || c == '\r' || c == '\n' || c
        == '\t'
}

/// An escaped attribute value holds no quote, no angle bracket and no line
/// break or tab, and no `&` but those that the escapes begin with: a
/// newline in a message is written as `&#10;`, never as itself.
pub proof fn lemma_escaped_holds_no_special(value: Seq<char>)
    ensures
        forall|i: int|
            0 <= i < escaped(value).len() ==> !is_special(#[trigger] escaped(value)[i]) || escaped(
                value,
            )[i] == '&',
{
    assert forall|i: int| 0 <= i < escaped(value).len() implies !is_special(
        #[trigger] escaped(value)[i],
    ) || escaped(value)[i] == '&' by {
        lemma_escaped_at(value, i);
    }
}

proof fn lemma_escaped_at(value: Seq<char>, i: int)
    requires
        0 <= i < escaped(value).len(),
    ensures
        !is_special(escaped(value)[i]) || escaped(value)[i] == '&',
    decreases value.len(),
{
    reveal_strlit("&lt;");
    reveal_strlit("&gt;");
    reveal_strlit("&amp;");
    reveal_strlit("&apos;");
    reveal_strlit("&quot;");
    reveal_strlit("&#13;");
    reveal_strlit("&#10;");
    reveal_strlit("&#9;");
    if value.len() > 0 {
        let head = escaped(value.drop_last());
        if i < head.len() {
            lemma_escaped_at(value.drop_last(), i);
        } else {
            assert(escaped(value)[i] == escaped_char(value.last())[i - head.len()]);
        }
    }
}

/// An attribute value without special characters is written as it stands.
pub proof fn lemma_plain_value_is_kept(value: Seq<char>)
    requires
        forall|i: int| 0 <= i < value.len() ==> !is_special(value[i]),
    ensures
        escaped(value) == value,
    decreases value.len(),
{
    if value.len() > 0 {
        lemma_plain_value_is_kept(value.drop_last());
        assert(!is_special(value.last()));
        assert(escaped(value) =~= value);
    }
}

/// Whether `]]>`, which ends a CDATA section, stands at `j` of a text.
pub open spec fn closes_at(text: Seq<char>, j: int) -> bool {
    &&& 0 <= j
    &&& j + 3 <= text.len()
    &&& text[j] == ']'
    &&& text[j + 1] == ']'
    &&& text[j + 2] == '>'
}

/// Whether `<![CDATA[`, which begins a CDATA section, stands at `j` of a
/// text.
pub open spec fn opens_at(text: Seq<char>, j: int) -> bool {
    &&& 0 <= j
    &&& j + 9 <= text.len()
    &&& text[j] == '<'
    &&& text[j + 1] == '!'
    &&& text[j + 2] == '['
    &&& text[j + 3] == 'C'
    &&& text[j + 4] == 'D'
    &&& text[j + 5] == 'A'
    &&& text[j + 6] == 'T'
    &&& text[j + 7] == 'A'
    &&& text[j + 8] == '['
}

/// No content ends a CDATA section that it is written in: every `]]>` of
/// what is written for it stands at the very end, or has the beginning of
/// the next section right after it.
pub proof fn lemma_cdata_ends_where_written(content: Seq<char>)
    ensures
        forall|j: int| #[trigger]
            closes_at(cdata(content), j) ==> j + 3 == cdata(content).len() || opens_at(
                cdata(content),
                j + 3,
            ),
{
    reveal_strlit("]]>");
    let open = cdata_open(content, content.len());
    let whole = cdata(content);
    lemma_cdata_open_is_sound(content, content.len());
    assert forall|j: int| #[trigger] closes_at(whole, j) implies j + 3 == whole.len() || opens_at(
        whole,
        j + 3,
    ) by {
        if j + 3 <= open.len() {
            assert(closes_at(open, j));
            assert(opens_at(open, j + 3));
        }
    }
}

/// What holds of the sections that are written for the first `n`
/// characters of a content: every `]]>` in them is followed by the
/// beginning of a section, and they end in `]]` only where the characters
/// do.
proof fn lemma_cdata_open_is_sound(content: Seq<char>, n: nat)
    requires
        n <= content.len(),
    ensures
        cdata_open(content, n).len() >= 9,
        forall|j: int| #[trigger]
            closes_at(cdata_open(content, n), j) ==> opens_at(cdata_open(content, n), j + 3),
        n >= 1 ==> cdata_open(content, n).last() == content[n - 1],
        cdata_open(content, n)[cdata_open(content, n).len() - 2] == ']' && cdata_open(
            content,
            n,
        ).last() == ']' ==> n >= 2 && content[n - 2] == ']' && content[n - 1] == ']',
    decreases n,
{
    reveal_strlit("]]>");
    reveal_strlit("<![CDATA[");
    if n > 0 {
        let i = n - 1;
        let before = cdata_open(content, i as nat);
        let now = cdata_open(content, n);
        lemma_cdata_open_is_sound(content, i as nat);
        if splits_before(content, i) {
            assert(now =~= before + "]]>"@ + "<![CDATA["@ + seq![content[i]]);
            assert forall|j: int| #[trigger] closes_at(now, j) implies opens_at(now, j + 3) by {
                if j + 3 <= before.len() {
                    assert(closes_at(before, j));
                    assert(opens_at(before, j + 3));
                } else {
                    assert(j == before.len());
                }
            }
        } else {
            assert(now =~= before + seq![content[i]]);
            assert forall|j: int| #[trigger] closes_at(now, j) implies opens_at(now, j + 3) by {
                if j + 3 <= before.len() {
                    assert(closes_at(before, j));
                    assert(opens_at(before, j + 3));
                } else {
                    assert(j + 3 == now.len());
                    assert(before[before.len() - 2] == ']' && before.last() == ']');
                    assert(splits_before(content, i));
                }
            }
        }
    }
}

/// Every test case of a suite is counted once: as an error, a failure, a
/// skipped or a successful one.
pub proof fn lemma_every_case_counted_once(cases: Seq<TestCaseView>)
    ensures
        cases.len() == errors_in(cases) + failures_in(cases) + skipped_in(cases) + successes_in(
            cases,
        ),
    decreases cases.len(),
{
    if cases.len() > 0 {
        let i = cases.len() - 1;
        lemma_every_case_counted_once(cases.take(i));
        lemma_count_step(cases, i);
        assert(cases.take(i + 1) =~= cases);
    }
}

/// The time of a suite is the sum of the durations of its test cases, to
/// the nanosecond: a case more adds its duration, whatever was there.
pub proof fn lemma_time_adds_up(cases: Seq<TestCaseView>, more: Seq<TestCaseView>)
    ensures
        total_time(Seq::<TestCaseView>::empty()) == 0,
        total_time(cases + more) == total_time(cases) + total_time(more),
    decreases more.len(),
{
    if more.len() == 0 {
        assert(cases + more =~= cases);
    } else {
        assert((cases + more).drop_last() =~= cases + more.drop_last());
        lemma_time_adds_up(cases, more.drop_last());
    }
}

/// A duration of whole seconds is written as a whole number, without a
/// point; no time at all as `0`.
pub proof fn lemma_whole_seconds_are_whole(seconds: nat)
    ensures
        seconds_text(seconds * 1_000_000_000) == decimal(seconds),
        seconds_text(0) == "0"@,
{
    vstd::arithmetic::div_mod::lemma_fundamental_div_mod_converse(
        (seconds * 1_000_000_000) as int,
        1_000_000_000,
        seconds as int,
        0,
    );
    assert(seconds_text(seconds * 1_000_000_000) =~= decimal(seconds));
    reveal_strlit("0");
    assert(seconds_text(0) =~= "0"@);
}

/// A write changes nothing of what the sink held: what it holds afterwards
/// begins with that.
pub proof fn lemma_sink_keeps_what_it_held(before: Seq<u8>, after: Seq<u8>, text: Seq<char>)
    requires
        appended(before, after, text),
    ensures
        before.is_prefix_of(after),
{
}

/// A report is written as one document, whenever it is written: two sinks
/// that held the same and have both taken the report hold the same.
pub proof fn lemma_same_report_same_document(
    report: Report,
    before: Seq<u8>,
    first: Seq<u8>,
    second: Seq<u8>,
)
    requires
        appended(before, first, report_xml(report@.testsuites)),
        appended(before, second, report_xml(report@.testsuites)),
    ensures
        first == second,
{
}

} // verus!
