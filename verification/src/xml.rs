//! The pieces of an XML document, as text, and the writing of each.

use crate::error::{io_result, ReportError};
use quick_xml::events::{BytesCData, BytesDecl, BytesEnd, BytesStart, Event};
use quick_xml::Writer;
use vstd::prelude::*;
use vstd::string::*;
use vstd::utf8::*;

verus! {

/// A text that may be missing, by its characters.
pub open spec fn text_view(text: Option<String>) -> Option<Seq<char>> {
    match text {
        Some(text) => Some(text@),
        None => None,
    }
}

/// What stands for one character inside an attribute value.
pub open spec fn escaped_char(c: char) -> Seq<char> {
    if c == '<' {
        "&lt;"@
    } else if c == '>' {
        "&gt;"@
    } else if c == '&' {
        "&amp;"@
    } else if c == '\'' {
        "&apos;"@
    } else if c == '"' {
        "&quot;"@
    } else if c == '\r' {
        "&#13;"@
    } else if c == '\n' {
        "&#10;"@
    } else if c == '\t' {
        "&#9;"@
    } else {
        seq![c]
    }
}

/// An attribute value with each of its characters escaped.
pub open spec fn escaped(value: Seq<char>) -> Seq<char>
    decreases value.len(),
{
    if value.len() == 0 {
        Seq::empty()
    } else {
        escaped(value.drop_last()) + escaped_char(value.last())
    }
}

/// The attributes of a tag, each after a space, as `key="value"`.
pub open spec fn attributes_text(attributes: Seq<(Seq<char>, Seq<char>)>) -> Seq<char>
    decreases attributes.len(),
{
    if attributes.len() == 0 {
        Seq::empty()
    } else {
        attributes_text(attributes.drop_last()) + " "@ + attributes.last().0 + "=\""@ + escaped(
            attributes.last().1,
        ) + "\""@
    }
}

/// The XML declaration.
pub open spec fn declaration(version: Seq<char>, encoding: Seq<char>) -> Seq<char> {
    "<?xml version=\""@ + version + "\" encoding=\""@ + encoding + "\"?>"@
}

/// The tag that opens an element.
pub open spec fn start_tag(name: Seq<char>, attributes: Seq<(Seq<char>, Seq<char>)>) -> Seq<
    char,
> {
    "<"@ + name + attributes_text(attributes) + ">"@
}

/// The tag of an element without content.
pub open spec fn empty_tag(name: Seq<char>, attributes: Seq<(Seq<char>, Seq<char>)>) -> Seq<
    char,
> {
    "<"@ + name + attributes_text(attributes) + "/>"@
}

/// The tag that closes an element.
pub open spec fn end_tag(name: Seq<char>) -> Seq<char> {
    "</"@ + name + ">"@
}

/// One CDATA section.
pub open spec fn cdata_section(content: Seq<char>) -> Seq<char> {
    "<![CDATA["@ + content + "]]>"@
}

/// The encoding of a text that is two texts in a row is their encodings in
/// a row.
pub proof fn lemma_encode_concat(a: Seq<char>, b: Seq<char>)
    ensures
        encode_utf8(a + b) == encode_utf8(a) + encode_utf8(b),
    decreases a.len(),
{
    if a.len() == 0 {
        assert(a + b =~= b);
        assert(encode_utf8(a) + encode_utf8(b) =~= encode_utf8(b));
    } else {
        assert((a + b).drop_first() =~= a.drop_first() + b);
        lemma_encode_concat(a.drop_first(), b);
        assert((a + b)[0] == a[0]);
        assert(encode_utf8(a + b) =~= encode_utf8(a) + encode_utf8(b));
    }
}

/// `Writer::write_event` of quick-xml, on a writer made over the sink by
/// `Writer::new`, with the `Event::Decl` that `BytesDecl::new` makes of a
/// version and an encoding, without `standalone`. The writer hands on what
/// `write_all` of the sink returns and nothing else, and a byte vector
/// takes every write by growing: the call succeeds, and the sink has grown
/// by the declaration.
#[verifier::external_body]
fn emit_declaration(sink: &mut Vec<u8>, version: &str, encoding: &str) -> (r: Result<
    (),
    std::io::Error,
>)
    ensures
        r is Ok,
        final(sink)@ == old(sink)@ + encode_utf8(declaration(version@, encoding@)),
{
    Writer::new(sink).write_event(Event::Decl(BytesDecl::new(version, Some(encoding), None)))
}

/// `Writer::write_event` of quick-xml with an `Event::Start`: a `BytesStart`
/// of the name, with the attributes added by `with_attributes`, which
/// escapes each value. The writer hands on what `write_all` of the sink
/// returns and nothing else, and a byte vector takes every write by
/// growing: the call succeeds, and the sink has grown by the start tag.
#[verifier::external_body]
fn emit_start(sink: &mut Vec<u8>, name: &str, attributes: &Vec<(&str, &str)>) -> (r: Result<
    (),
    std::io::Error,
>)
    ensures
        r is Ok,
        final(sink)@ == old(sink)@ + encode_utf8(start_tag(name@, attributes.deep_view())),
{
    let tag = BytesStart::new(name).with_attributes(attributes.iter().copied());
    Writer::new(sink).write_event(Event::Start(tag))
}

/// `Writer::write_event` of quick-xml with an `Event::Empty`: a `BytesStart`
/// of the name, with the attributes added by `with_attributes`, which
/// escapes each value. The writer hands on what `write_all` of the sink
/// returns and nothing else, and a byte vector takes every write by
/// growing: the call succeeds, and the sink has grown by the self-closing
/// tag.
#[verifier::external_body]
fn emit_empty(sink: &mut Vec<u8>, name: &str, attributes: &Vec<(&str, &str)>) -> (r: Result<
    (),
    std::io::Error,
>)
    ensures
        r is Ok,
        final(sink)@ == old(sink)@ + encode_utf8(empty_tag(name@, attributes.deep_view())),
{
    let tag = BytesStart::new(name).with_attributes(attributes.iter().copied());
    Writer::new(sink).write_event(Event::Empty(tag))
}

/// `Writer::write_event` of quick-xml with the `Event::End` of a name. The
/// writer hands on what `write_all` of the sink returns and nothing else,
/// and a byte vector takes every write by growing: the call succeeds, and
/// the sink has grown by the end tag.
#[verifier::external_body]
fn emit_end(sink: &mut Vec<u8>, name: &str) -> (r: Result<(), std::io::Error>)
    ensures
        r is Ok,
        final(sink)@ == old(sink)@ + encode_utf8(end_tag(name@)),
{
    Writer::new(sink).write_event(Event::End(BytesEnd::new(name)))
}

/// `Writer::write_event` of quick-xml with an `Event::CData` that
/// `BytesCData::new` makes of the content as it stands. The writer hands on
/// what `write_all` of the sink returns and nothing else, and a byte vector
/// takes every write by growing: the call succeeds, and the sink has grown
/// by one CDATA section.
#[verifier::external_body]
fn emit_cdata(sink: &mut Vec<u8>, content: &str) -> (r: Result<(), std::io::Error>)
    ensures
        r is Ok,
        final(sink)@ == old(sink)@ + encode_utf8(cdata_section(content@)),
{
    Writer::new(sink).write_event(Event::CData(BytesCData::new(content)))
}

/// That a sink which held `before` holds `after` once `text` has been
/// written to it.
pub open spec fn appended(before: Seq<u8>, after: Seq<u8>, text: Seq<char>) -> bool {
    after == before + encode_utf8(text)
}

/// Two writes in a row are one write of the two texts in a row.
pub proof fn lemma_appended_twice(
    a: Seq<u8>,
    b: Seq<u8>,
    c: Seq<u8>,
    first: Seq<char>,
    second: Seq<char>,
)
    requires
        appended(a, b, first),
        appended(b, c, second),
    ensures
        appended(a, c, first + second),
{
    lemma_encode_concat(first, second);
    assert(c =~= a + (encode_utf8(first) + encode_utf8(second)));
}

/// A sink that holds what it held has grown by no text.
pub proof fn lemma_nothing_written(held: Seq<u8>)
    ensures
        appended(held, held, Seq::empty()),
{
    assert(encode_utf8(Seq::<char>::empty()) =~= Seq::<u8>::empty());
    assert(held =~= held + Seq::<u8>::empty());
}

/// Whether a CDATA section has to end just before the character at `i`:
/// the character is a `>` that follows `]]`, and the three together would
/// end the section too early.
pub open spec fn splits_before(content: Seq<char>, i: int) -> bool {
    &&& 2 <= i < content.len()
    &&& content[i - 2] == ']'
    &&& content[i - 1] == ']'
    &&& content[i] == '>'
}

/// The sections that hold the first `n` characters of a content, the last
/// of them still open.
pub open spec fn cdata_open(content: Seq<char>, n: nat) -> Seq<char>
    decreases n,
{
    if n == 0 {
        "<![CDATA["@
    } else {
        let i = n - 1;
        if splits_before(content, i) {
            cdata_open(content, i as nat) + "]]>"@ + "<![CDATA["@ + seq![content[i]]
        } else {
            cdata_open(content, i as nat) + seq![content[i]]
        }
    }
}

/// A content as CDATA: one section, or, where the content holds `]]>`,
/// several, each `]]>` parted between two of them after its `]]`.
pub open spec fn cdata(content: Seq<char>) -> Seq<char> {
    cdata_open(content, content.len()) + "]]>"@
}

/// A content that holds no `]]>` is written as one section.
pub proof fn lemma_cdata_one_section(content: Seq<char>)
    requires
        forall|i: int| !splits_before(content, i),
    ensures
        cdata(content) == cdata_section(content),
{
    lemma_cdata_open_unsplit(content, content.len());
    assert(content.take(content.len() as int) =~= content);
}

proof fn lemma_cdata_open_unsplit(content: Seq<char>, n: nat)
    requires
        n <= content.len(),
        forall|i: int| !splits_before(content, i),
    ensures
        cdata_open(content, n) == "<![CDATA["@ + content.take(n as int),
    decreases n,
{
    if n == 0 {
        assert("<![CDATA["@ + content.take(0) =~= "<![CDATA["@);
    } else {
        lemma_cdata_open_unsplit(content, (n - 1) as nat);
        assert(!splits_before(content, n - 1));
        assert(content.take(n as int) =~= content.take(n - 1).push(content[n - 1]));
        assert(cdata_open(content, n) =~= "<![CDATA["@ + content.take(n as int));
    }
}

/// An element's content between its tags.
pub open spec fn element(
    name: Seq<char>,
    attributes: Seq<(Seq<char>, Seq<char>)>,
    content: Seq<char>,
) -> Seq<char> {
    start_tag(name, attributes) + content + end_tag(name)
}

/// An element without attributes that holds a text as CDATA, or nothing
/// where there is no text.
pub open spec fn optional_cdata_element(name: Seq<char>, text: Option<Seq<char>>) -> Seq<char> {
    match text {
        Some(text) => element(name, Seq::empty(), cdata(text)),
        None => Seq::empty(),
    }
}

/// Writes the XML declaration.
pub fn write_declaration(sink: &mut Vec<u8>, version: &str, encoding: &str) -> (r: Result<
    (),
    ReportError,
>)
    ensures
        r is Ok,
        appended(old(sink)@, final(sink)@, declaration(version@, encoding@)),
{
    io_result(emit_declaration(sink, version, encoding))
}

/// Writes the tag that opens an element.
pub fn write_start(sink: &mut Vec<u8>, name: &str, attributes: &Vec<(&str, &str)>) -> (r: Result<
    (),
    ReportError,
>)
    ensures
        r is Ok,
        appended(old(sink)@, final(sink)@, start_tag(name@, attributes.deep_view())),
{
    io_result(emit_start(sink, name, attributes))
}

/// Writes an element without content.
pub fn write_empty(sink: &mut Vec<u8>, name: &str, attributes: &Vec<(&str, &str)>) -> (r: Result<
    (),
    ReportError,
>)
    ensures
        r is Ok,
        appended(old(sink)@, final(sink)@, empty_tag(name@, attributes.deep_view())),
{
    io_result(emit_empty(sink, name, attributes))
}

/// Writes the tag that closes an element.
pub fn write_end(sink: &mut Vec<u8>, name: &str) -> (r: Result<(), ReportError>)
    ensures
        r is Ok,
        appended(old(sink)@, final(sink)@, end_tag(name@)),
{
    io_result(emit_end(sink, name))
}

/// Writes a content as CDATA, in as many sections as it takes to keep any
/// `]]>` of the content from ending one.
pub fn write_cdata(sink: &mut Vec<u8>, content: &str) -> (r: Result<(), ReportError>)
    ensures
        r is Ok,
        appended(old(sink)@, final(sink)@, cdata(content@)),
{
    let len = content.unicode_len();
    let ghost before = sink@;
    let ghost mut closed: Seq<char> = Seq::empty();
    let mut start: usize = 0;
    let mut brackets: u8 = 0;
    let mut i: usize = 0;
    proof {
        lemma_nothing_written(sink@);
        assert(closed + "<![CDATA["@ + content@.subrange(0, 0) =~= cdata_open(content@, 0));
    }
    for c in it: content.chars()
        invariant
            it.seq() == content@,
            len == content@.len(),
            i == it.index(),
            start <= i <= len,
            brackets <= 2,
            brackets >= 1 <==> (i >= 1 && content@[i - 1] == ']'),
            brackets == 2 <==> (i >= 2 && content@[i - 1] == ']' && content@[i - 2] == ']'),
            appended(before, sink@, closed),
            closed + "<![CDATA["@ + content@.subrange(start as int, i as int) == cdata_open(
                content@,
                i as nat,
            ),
    {
        assert(c == content@[i as int]);
        if c == '>' && brackets == 2 {
            let section = content.substring_char(start, i);
            let ghost held = sink@;
            io_result(emit_cdata(sink, section))?;
            proof {
                lemma_appended_twice(before, held, sink@, closed, cdata_section(section@));
                closed = closed + cdata_section(section@);
                assert(splits_before(content@, i as int));
                assert(content@.subrange(i as int, i + 1) =~= seq![c]);
                assert(closed + "<![CDATA["@ + content@.subrange(i as int, i + 1) =~= cdata_open(
                    content@,
                    (i + 1) as nat,
                ));
            }
            start = i;
        } else {
            proof {
                assert(!splits_before(content@, i as int));
                assert(content@.subrange(start as int, i + 1) =~= content@.subrange(
                    start as int,
                    i as int,
                ).push(c));
                assert(closed + "<![CDATA["@ + content@.subrange(start as int, i + 1) =~= cdata_open(
                    content@,
                    (i + 1) as nat,
                ));
            }
        }
        brackets = if c == ']' {
            if brackets < 2 {
                brackets + 1
            } else {
                2
            }
        } else {
            0
        };
        i = i + 1;
    }
    let section = content.substring_char(start, len);
    let ghost held = sink@;
    let written = io_result(emit_cdata(sink, section));
    proof {
        lemma_appended_twice(before, held, sink@, closed, cdata_section(section@));
        assert(closed + cdata_section(section@) =~= cdata(content@));
    }
    written
}

/// Writes an element that holds a content as CDATA.
pub fn write_cdata_element(sink: &mut Vec<u8>, name: &str, content: &str) -> (r: Result<
    (),
    ReportError,
>)
    ensures
        r is Ok,
        appended(old(sink)@, final(sink)@, element(name@, Seq::empty(), cdata(content@))),
{
    let ghost before = sink@;
    let ghost open = start_tag(name@, Seq::empty());
    let attributes: Vec<(&str, &str)> = Vec::new();
    assert(attributes.deep_view() =~= Seq::empty());
    write_start(sink, name, &attributes)?;
    let ghost held = sink@;
    write_cdata(sink, content)?;
    proof {
        lemma_appended_twice(before, held, sink@, open, cdata(content@));
    }
    let ghost held = sink@;
    let written = write_end(sink, name);
    proof {
        lemma_appended_twice(before, held, sink@, open + cdata(content@), end_tag(name@));
    }
    written
}

/// Writes an element that holds a text as CDATA where there is a text, and
/// nothing where there is none.
pub fn write_optional_cdata_element(sink: &mut Vec<u8>, name: &str, text: &Option<String>) -> (r:
    Result<(), ReportError>)
    ensures
        r is Ok,
        appended(old(sink)@, final(sink)@, optional_cdata_element(name@, text_view(*text))),
{
    match text {
        Some(text) => write_cdata_element(sink, name, text.as_str()),
        None => {
            proof {
                lemma_nothing_written(sink@);
            }
            Ok(())
        },
    }
}

} // verus!
