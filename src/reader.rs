//! Reading markup text into element trees. fast_xml splits the text into
//! steps (tags, closing tags, text); the trees are built from those steps
//! here, and proved to be the trees that the steps describe.
use vstd::prelude::*;

use fast_xml::events::{BytesStart, Event};
use fast_xml::Reader;

use crate::error::DecodeError;
use crate::xml::{lemma_view_of, pairs, view_of, views_of, ElementView, XmlElement};

verus! {

/// One step of reading markup, as texts.
pub enum StepView {
    /// An opening tag (`true`) or a self-closed tag (`false`), with its name
    /// and its attributes (values with their entities replaced).
    Tag(bool, Seq<char>, Seq<(Seq<char>, Seq<char>)>),
    /// A closing tag.
    Close,
    /// Text, a comment, a declaration or another step that adds no element.
    Other,
    /// The end of the text.
    Finished,
    /// Markup that is not well-formed.
    Failed,
}

/// One step of reading markup.
pub enum Step {
    Tag(bool, String, Vec<(String, String)>),
    Close,
    Other,
    Finished,
    Failed,
}

impl Step {
    pub open spec fn view(self) -> StepView {
        match self {
            Step::Tag(open, name, attributes) => StepView::Tag(open, name@, pairs(attributes@)),
            Step::Close => StepView::Close,
            Step::Other => StepView::Other,
            Step::Finished => StepView::Finished,
            Step::Failed => StepView::Failed,
        }
    }
}

/// The step that fast_xml reads `k`-th (from zero) from the text `s`.
pub uninterp spec fn markup_step(s: Seq<char>, k: nat) -> StepView;

#[verifier::external_type_specification]
#[verifier::external_body]
pub struct ExBytesStart<'a>(BytesStart<'a>);

/// fast_xml's reader over a text. Verus cannot take `Reader` itself, whose
/// parameter is bound by `std::io::BufRead`, so it is held here, unseen.
#[verifier::external_body]
struct MarkupReader<'a> {
    inner: Reader<&'a [u8]>,
}

/// A reader over `text` that has read `count` steps. Its fields are private:
/// it is made only by `open_cursor` and moved on only by `next_event`, so the
/// reader has always read exactly `count` steps of `text`.
pub struct MarkupCursor<'a> {
    reader: MarkupReader<'a>,
    text: &'a str,
    count: usize,
}

/// Relies on fast_xml's `Reader::from_str`: a reader at the start of the
/// text, which by default checks that each closing tag matches the open one.
#[verifier::external_body]
fn open_reader<'a>(s: &'a str) -> MarkupReader<'a> {
    MarkupReader { inner: Reader::from_str(s) }
}

fn open_cursor<'a>(s: &'a str) -> (r: MarkupCursor<'a>)
    ensures
        r.text@ == s@,
        r.count == 0,
{
    MarkupCursor { reader: open_reader(s), text: s, count: 0 }
}

/// Whether `s` holds `<!D` or `<!d`, the start of a document type
/// declaration.
pub open spec fn declares_doctype(s: Seq<char>) -> bool {
    exists|i: int|
        0 <= i && i + 2 < s.len() && #[trigger] s[i] == '<' && s[i + 1] == '!' && (s[i + 2] == 'D' || s[i
            + 2] == 'd')
}

/// A tag that fast_xml read as the `index`-th step of `text`. Its fields
/// are private: it is made only by `next_event`, from that very step.
pub struct TagStart<'a> {
    start: BytesStart<'a>,
    open: bool,
    text: &'a str,
    index: usize,
}

/// A step as fast_xml hands it out, before its tag is turned into texts.
pub enum RawStep<'a> {
    Tag(TagStart<'a>),
    Close,
    Other,
    Finished,
    Failed,
}

/// Relies on fast_xml's `Reader::read_event_unbuffered`: the next step of
/// the text, which depends on the text and the number of steps read before
/// alone. fast_xml asserts that a document type declaration has a name, so a
/// text that declares one is not read.
#[verifier::external_body]
fn next_event<'a>(c: &mut MarkupCursor<'a>) -> (r: RawStep<'a>)
    requires
        !declares_doctype(old(c).text@),
        old(c).count < usize::MAX,
    ensures
        final(c).text == old(c).text,
        final(c).count == old(c).count + 1,
        r matches RawStep::Tag(t) ==> t.text == old(c).text && t.index == old(c).count,
        r is Close ==> markup_step(old(c).text@, old(c).count as nat) == StepView::Close,
        r is Other ==> markup_step(old(c).text@, old(c).count as nat) == StepView::Other,
        r is Finished ==> markup_step(old(c).text@, old(c).count as nat) == StepView::Finished,
        r is Failed ==> markup_step(old(c).text@, old(c).count as nat) == StepView::Failed,
{
    let (text, index) = (c.text, c.count);
    c.count = index + 1;
    match c.reader.inner.read_event_unbuffered() {
        Ok(Event::Start(start)) => RawStep::Tag(TagStart { start, open: true, text, index }),
        Ok(Event::Empty(start)) => RawStep::Tag(TagStart { start, open: false, text, index }),
        Ok(Event::End(_)) => RawStep::Close,
        Ok(Event::Eof) => RawStep::Finished,
        Ok(_) => RawStep::Other,
        Err(_) => RawStep::Failed,
    }
}

/// Relies on fast_xml's `BytesStart::name`, `BytesStart::attributes` and
/// `Attribute::unescape_and_decode_value`: the tag's name and its attributes
/// in order, values with their entities replaced; `None` where an attribute
/// is malformed or repeated, in which case the step counts as failed.
/// Without fast_xml's `encoding` feature the reader decodes every text as
/// UTF-8, so which cursor is passed does not matter.
#[verifier::external_body]
fn tag_parts(t: &TagStart, c: &MarkupCursor) -> (r: Option<(String, Vec<(String, String)>)>)
    ensures
        r matches Some(p) ==> markup_step(t.text@, t.index as nat) == StepView::Tag(
            t.open,
            p.0@,
            pairs(p.1@),
        ),
        r is None ==> markup_step(t.text@, t.index as nat) == StepView::Failed,
{
    let mut v = Vec::new();
    for a in t.start.attributes() {
        let a = a.ok()?;
        let value = a.unescape_and_decode_value(&c.reader.inner).ok()?;
        v.push((String::from_utf8_lossy(a.key).into_owned(), value));
    }
    Some((String::from_utf8_lossy(t.start.name()).into_owned(), v))
}

/// The next step of the text, as texts.
fn next_step(c: &mut MarkupCursor) -> (r: Step)
    requires
        !declares_doctype(old(c).text@),
        old(c).count < usize::MAX,
    ensures
        r.view() == markup_step(old(c).text@, old(c).count as nat),
        final(c).text == old(c).text,
        final(c).count == old(c).count + 1,
{
    match next_event(c) {
        RawStep::Tag(t) => match tag_parts(&t, c) {
            Some((name, attributes)) => Step::Tag(t.open, name, attributes),
            None => Step::Failed,
        },
        RawStep::Close => Step::Close,
        RawStep::Other => Step::Other,
        RawStep::Finished => Step::Finished,
        RawStep::Failed => Step::Failed,
    }
}

/// An element with a name and attributes and no children yet.
pub open spec fn bare(name: Seq<char>, attributes: Seq<(Seq<char>, Seq<char>)>) -> ElementView {
    ElementView { name, attributes, children: Seq::empty() }
}

/// `x` added as the last child of the innermost open element.
pub open spec fn adopt(open: Seq<ElementView>, x: ElementView) -> Seq<ElementView> {
    let p = open.last();
    open.update(
        open.len() - 1,
        ElementView { name: p.name, attributes: p.attributes, children: p.children.push(x) },
    )
}

/// The open elements and the finished top-level elements after placing the
/// finished element `x`: inside the innermost open element, or at top level.
pub open spec fn place(open: Seq<ElementView>, roots: Seq<ElementView>, x: ElementView) -> (
    Seq<ElementView>,
    Seq<ElementView>,
) {
    if open.len() == 0 {
        (open, roots.push(x))
    } else {
        (adopt(open, x), roots)
    }
}

/// The top-level elements built from the steps of `s` from the `k`-th on,
/// given the elements still open and the finished top-level ones, taking at
/// most `fuel` more steps.
pub open spec fn build(
    s: Seq<char>,
    k: nat,
    fuel: nat,
    open: Seq<ElementView>,
    roots: Seq<ElementView>,
) -> Option<Seq<ElementView>>
    decreases fuel,
{
    if fuel == 0 {
        None
    } else {
        match markup_step(s, k) {
            StepView::Failed => None,
            StepView::Finished => if open.len() == 0 {
                Some(roots)
            } else {
                None
            },
            StepView::Other => build(s, k + 1, (fuel - 1) as nat, open, roots),
            StepView::Tag(is_open, name, attributes) => if is_open {
                build(s, k + 1, (fuel - 1) as nat, open.push(bare(name, attributes)), roots)
            } else {
                let p = place(open, roots, bare(name, attributes));
                build(s, k + 1, (fuel - 1) as nat, p.0, p.1)
            },
            StepView::Close => if open.len() == 0 {
                None
            } else {
                let p = place(open.drop_last(), roots, open.last());
                build(s, k + 1, (fuel - 1) as nat, p.0, p.1)
            },
        }
    }
}

/// The top-level elements of the text `s`, in order; `None` where it is not
/// well-formed, declares a document type, or is too long to read. Each step
/// but the last takes at least one character, so `2 * len + 2` steps suffice.
pub open spec fn markup_elements(s: Seq<char>) -> Option<Seq<ElementView>> {
    if s.len() >= usize::MAX / 4 || declares_doctype(s) {
        None
    } else {
        build(s, 0, 2 * s.len() + 2, Seq::empty(), Seq::empty())
    }
}

/// The single top-level element of `s`; `None` where there is not exactly one.
pub open spec fn root_of(s: Seq<char>) -> Option<ElementView> {
    match markup_elements(s) {
        Some(es) => if es.len() == 1 {
            Some(es[0])
        } else {
            None
        },
        None => None,
    }
}

fn has_doctype(s: &str) -> (r: bool)
    ensures
        r == declares_doctype(s@),
{
    let n = s.unicode_len();
    let mut i: usize = 0;
    while n >= 2 && i < n - 2
        invariant
            n == s@.len(),
            forall|j: int|
                0 <= j < i && j + 2 < n ==> !(#[trigger] s@[j] == '<' && s@[j + 1] == '!' && (s@[j + 2]
                    == 'D' || s@[j + 2] == 'd')),
        decreases n - i,
    {
        if s.get_char(i) == '<' && s.get_char(i + 1) == '!' {
            let c = s.get_char(i + 2);
            if c == 'D' || c == 'd' {
                return true;
            }
        }
        i = i + 1;
    }
    false
}

proof fn lemma_push_child(p: XmlElement, q: XmlElement, x: XmlElement)
    requires
        q.name == p.name,
        q.attributes == p.attributes,
        q.children@ == p.children@.push(x),
    ensures
        view_of(q) == (ElementView {
            name: view_of(p).name,
            attributes: view_of(p).attributes,
            children: view_of(p).children.push(view_of(x)),
        }),
{
    lemma_view_of(p);
    lemma_view_of(q);
    assert(views_of(q.children@) =~= views_of(p.children@).push(view_of(x)));
}

/// Places the finished element `x` into the innermost open element, or among
/// the top-level elements.
fn place_element(open: &mut Vec<XmlElement>, roots: &mut Vec<XmlElement>, x: XmlElement)
    ensures
        (views_of(final(open)@), views_of(final(roots)@)) == place(
            views_of(old(open)@),
            views_of(old(roots)@),
            view_of(x),
        ),
{
    let ghost vx = view_of(x);
    match open.pop() {
        Some(mut parent) => {
            let ghost before = parent;
            parent.children.push(x);
            proof {
                lemma_push_child(before, parent, x);
            }
            open.push(parent);
            assert(views_of(open@) =~= adopt(views_of(old(open)@), vx));
        },
        None => {
            roots.push(x);
            assert(views_of(roots@) =~= views_of(old(roots)@).push(vx));
        },
    }
}

/// Reads markup text into the trees of its top-level elements, in order.
/// Text that is not well-formed, or that declares a document type, is a
/// `MalformedXml` error.
pub fn parse_elements(s: &str) -> (r: Result<Vec<XmlElement>, DecodeError>)
    ensures
        r is Ok <==> markup_elements(s@) is Some,
        r matches Ok(es) ==> markup_elements(s@) == Some(views_of(es@)),
        r matches Err(e) ==> e == DecodeError::MalformedXml,
{
    let n = s.unicode_len();
    if n >= usize::MAX / 4 || has_doctype(s) {
        return Err(DecodeError::MalformedXml);
    }
    let limit = 2 * n + 2;
    let mut cursor = open_cursor(s);
    let mut open: Vec<XmlElement> = Vec::new();
    let mut roots: Vec<XmlElement> = Vec::new();
    let mut steps: usize = 0;
    assert(views_of(open@) =~= Seq::<ElementView>::empty());
    assert(views_of(roots@) =~= Seq::<ElementView>::empty());
    while steps < limit
        invariant
            n == s@.len(),
            n < usize::MAX / 4,
            limit == 2 * n + 2,
            !declares_doctype(s@),
            steps <= limit,
            cursor.text@ == s@,
            cursor.count == steps,
            markup_elements(s@) == build(
                s@,
                steps as nat,
                (limit - steps) as nat,
                views_of(open@),
                views_of(roots@),
            ),
        decreases limit - steps,
    {
        let ghost k = steps as nat;
        let ghost fuel = (limit - steps) as nat;
        match next_step(&mut cursor) {
            Step::Failed => {
                return Err(DecodeError::MalformedXml);
            },
            Step::Finished => {
                if open.len() > 0 {
                    return Err(DecodeError::MalformedXml);
                }
                return Ok(roots);
            },
            Step::Other => {},
            Step::Tag(is_open, name, attributes) => {
                let x = XmlElement { name, attributes, children: Vec::new() };
                proof {
                    lemma_view_of(x);
                    assert(views_of(x.children@) =~= Seq::<ElementView>::empty());
                }
                let ghost before = open@;
                if is_open {
                    open.push(x);
                    assert(views_of(open@) =~= views_of(before).push(view_of(x)));
                } else {
                    place_element(&mut open, &mut roots, x);
                }
            },
            Step::Close => {
                let ghost before = open@;
                match open.pop() {
                    Some(x) => {
                        assert(views_of(before).drop_last() =~= views_of(open@));
                        assert(views_of(before).last() == view_of(x));
                        place_element(&mut open, &mut roots, x);
                    },
                    None => {
                        return Err(DecodeError::MalformedXml);
                    },
                }
            },
        }
        steps = steps + 1;
    }
    Err(DecodeError::MalformedXml)
}

/// Reads markup text that holds exactly one top-level element into its
/// tree. Anything else is a `MalformedXml` error.
pub fn parse_document(s: &str) -> (r: Result<XmlElement, DecodeError>)
    ensures
        r is Ok <==> root_of(s@) is Some,
        r matches Ok(e) ==> root_of(s@) == Some(view_of(e)),
        r matches Err(e) ==> e == DecodeError::MalformedXml,
{
    let mut roots = parse_elements(s)?;
    if roots.len() != 1 {
        return Err(DecodeError::MalformedXml);
    }
    match roots.pop() {
        Some(x) => Ok(x),
        None => Err(DecodeError::MalformedXml),
    }
}

} // verus!
