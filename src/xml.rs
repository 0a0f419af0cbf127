//! Elements of a markup document as a tree, and the text that writes one.
use vstd::prelude::*;

use crate::text::same_text;

verus! {

broadcast use {vstd::std_specs::vec::axiom_vec_decreases_to_view, vstd::seq::axiom_seq_index_decreases};

/// An element: its name, its attributes in order, and its child elements in
/// order. Text between elements is not kept.
#[derive(Debug)]
pub struct XmlElement {
    pub name: String,
    pub attributes: Vec<(String, String)>,
    pub children: Vec<XmlElement>,
}

/// An element as texts: its name, its attributes and its children.
pub struct ElementView {
    pub name: Seq<char>,
    pub attributes: Seq<(Seq<char>, Seq<char>)>,
    pub children: Seq<ElementView>,
}

/// What an element holds, as texts.
pub open spec fn view_of(e: XmlElement) -> ElementView
    decreases e, 1nat, 0nat,
{
    ElementView {
        name: e.name@,
        attributes: pairs(e.attributes@),
        children: child_views(e, e.children@.len()),
    }
}

/// The views of the first `n` children of `e`, in order.
pub open spec fn child_views(e: XmlElement, n: nat) -> Seq<ElementView>
    decreases e, 0nat, n,
{
    if n == 0 || n > e.children@.len() {
        Seq::empty()
    } else {
        child_views(e, (n - 1) as nat).push(view_of(e.children@[n - 1]))
    }
}

/// The views of elements, in order.
pub open spec fn views_of(es: Seq<XmlElement>) -> Seq<ElementView> {
    es.map_values(|e: XmlElement| view_of(e))
}

proof fn lemma_child_views(e: XmlElement, n: nat)
    requires
        n <= e.children@.len(),
    ensures
        child_views(e, n) == views_of(e.children@.subrange(0, n as int)),
    decreases n,
{
    if n > 0 {
        lemma_child_views(e, (n - 1) as nat);
        assert(views_of(e.children@.subrange(0, n as int)) =~= views_of(
            e.children@.subrange(0, n - 1),
        ).push(view_of(e.children@[n - 1])));
    } else {
        assert(views_of(e.children@.subrange(0, 0)) =~= Seq::<ElementView>::empty());
    }
}

/// The view of an element: its texts, and its children's views in order.
pub proof fn lemma_view_of(e: XmlElement)
    ensures
        view_of(e).name == e.name@,
        view_of(e).attributes == pairs(e.attributes@),
        view_of(e).children == views_of(e.children@),
        view_of(e).children.len() == e.children@.len(),
{
    lemma_child_views(e, e.children@.len());
    assert(e.children@.subrange(0, e.children@.len() as int) =~= e.children@);
}

/// The characters that stand for `c` inside a quoted attribute value.
pub open spec fn escape_char(c: char) -> Seq<char> {
    if c == '<' {
        seq!['&', 'l', 't', ';']
    } else if c == '>' {
        seq!['&', 'g', 't', ';']
    } else if c == '\'' {
        seq!['&', 'a', 'p', 'o', 's', ';']
    } else if c == '&' {
        seq!['&', 'a', 'm', 'p', ';']
    } else if c == '"' {
        seq!['&', 'q', 'u', 'o', 't', ';']
    } else {
        seq![c]
    }
}

/// `s` with each markup character replaced by its entity.
pub open spec fn escaped(s: Seq<char>) -> Seq<char>
    decreases s.len(),
{
    if s.len() == 0 {
        Seq::empty()
    } else {
        escaped(s.drop_last()) + escape_char(s.last())
    }
}

/// Relies on fast_xml's `escape::escape`: each of the bytes `<`, `>`, `'`,
/// `&`, `"` becomes its entity and every other byte is kept. No byte of a
/// multi-byte UTF-8 character is one of these five, so the same holds of the
/// characters.
#[verifier::external_body]
fn escape_markup(s: &str) -> (r: String)
    ensures
        r@ == escaped(s@),
{
    String::from_utf8_lossy(&fast_xml::escape::escape(s.as_bytes())).into_owned()
}

/// The attributes of an element as key and value texts.
pub open spec fn pairs(a: Seq<(String, String)>) -> Seq<(Seq<char>, Seq<char>)> {
    a.map_values(|p: (String, String)| (p.0@, p.1@))
}

/// The attribute `key="value"`, or nothing where the value is empty.
pub open spec fn written(key: Seq<char>, value: Seq<char>) -> Seq<(Seq<char>, Seq<char>)> {
    if value.len() == 0 {
        Seq::empty()
    } else {
        seq![(key, value)]
    }
}

/// The text of attributes: ` key="value"` for each, the value escaped.
pub open spec fn attributes_text(a: Seq<(Seq<char>, Seq<char>)>) -> Seq<char>
    decreases a.len(),
{
    if a.len() == 0 {
        Seq::empty()
    } else {
        attributes_text(a.drop_last()) + seq![' '] + a.last().0 + seq!['=', '"'] + escaped(
            a.last().1,
        ) + seq!['"']
    }
}

/// The text of an element: a self-closed tag when it has no children, else
/// an opening tag, the children's texts in order and a closing tag.
pub open spec fn render(e: XmlElement) -> Seq<char>
    decreases e, 1nat, 0nat,
{
    let open = seq!['<'] + e.name@ + attributes_text(pairs(e.attributes@));
    if e.children@.len() == 0 {
        open + seq!['/', '>']
    } else {
        open + seq!['>'] + render_children(e, e.children@.len()) + seq!['<', '/'] + e.name@
            + seq!['>']
    }
}

/// The texts of the first `n` children of `e`, in order.
pub open spec fn render_children(e: XmlElement, n: nat) -> Seq<char>
    decreases e, 0nat, n,
{
    if n == 0 || n > e.children@.len() {
        Seq::empty()
    } else {
        render_children(e, (n - 1) as nat) + render(e.children@[n - 1])
    }
}

/// The value of the first attribute named `key`.
pub open spec fn attr_in(a: Seq<(String, String)>, key: Seq<char>) -> Option<Seq<char>>
    decreases a.len(),
{
    if a.len() == 0 {
        None
    } else if a[0].0@ == key {
        Some(a[0].1@)
    } else {
        attr_in(a.drop_first(), key)
    }
}

pub open spec fn attr(e: ElementView, key: Seq<char>) -> Option<Seq<char>> {
    lookup(e.attributes, key)
}

/// The first element named `name`.
pub open spec fn first_named(cs: Seq<ElementView>, name: Seq<char>) -> Option<ElementView>
    decreases cs.len(),
{
    if cs.len() == 0 {
        None
    } else if cs[0].name == name {
        Some(cs[0])
    } else {
        first_named(cs.drop_first(), name)
    }
}

pub open spec fn child(e: ElementView, name: Seq<char>) -> Option<ElementView> {
    first_named(e.children, name)
}

/// The elements named `name`, in order.
pub open spec fn all_named(cs: Seq<ElementView>, name: Seq<char>) -> Seq<ElementView>
    decreases cs.len(),
{
    if cs.len() == 0 {
        Seq::empty()
    } else if cs.last().name == name {
        all_named(cs.drop_last(), name).push(cs.last())
    } else {
        all_named(cs.drop_last(), name)
    }
}

/// The value of the first attribute named `key`, over key and value texts.
pub open spec fn lookup(a: Seq<(Seq<char>, Seq<char>)>, key: Seq<char>) -> Option<Seq<char>>
    decreases a.len(),
{
    if a.len() == 0 {
        None
    } else if a[0].0 == key {
        Some(a[0].1)
    } else {
        lookup(a.drop_first(), key)
    }
}

/// Looking an attribute up by its texts finds what `attr_in` finds.
pub proof fn lemma_attr_in_lookup(a: Seq<(String, String)>, key: Seq<char>)
    ensures
        attr_in(a, key) == lookup(pairs(a), key),
    decreases a.len(),
{
    if a.len() > 0 {
        lemma_attr_in_lookup(a.drop_first(), key);
        assert(pairs(a).drop_first() =~= pairs(a.drop_first()));
    }
}

/// A lookup in two runs of attributes finds the first run's value, if any,
/// else the second's.
pub proof fn lemma_lookup_concat(p: Seq<(Seq<char>, Seq<char>)>, q: Seq<(Seq<char>, Seq<char>)>, key: Seq<char>)
    ensures
        lookup(p + q, key) == if lookup(p, key) is Some { lookup(p, key) } else { lookup(q, key) },
    decreases p.len(),
{
    if p.len() > 0 {
        lemma_lookup_concat(p.drop_first(), q, key);
        assert((p + q).drop_first() =~= p.drop_first() + q);
    } else {
        assert(p + q =~= q);
    }
}

/// A lookup in the run written for one attribute finds its value, unless
/// the value is empty or the key is another.
pub proof fn lemma_lookup_written(k: Seq<char>, v: Seq<char>, key: Seq<char>)
    ensures
        lookup(written(k, v), key) == if k == key && v.len() > 0 { Some(v) } else { None },
{
    let w = written(k, v);
    if v.len() > 0 {
        assert(w.len() == 1 && w[0] == (k, v));
        assert(w.drop_first() =~= Seq::<(Seq<char>, Seq<char>)>::empty());
        assert(lookup(w.drop_first(), key) is None);
    }
}

/// The first element named `name` is the `i`-th when none before it has
/// that name; there is none when `i` is the length.
pub proof fn lemma_first_named_at(cs: Seq<ElementView>, name: Seq<char>, i: int)
    requires
        0 <= i <= cs.len(),
        forall|j: int| 0 <= j < i ==> (#[trigger] cs[j]).name != name,
        i < cs.len() ==> cs[i].name == name,
    ensures
        first_named(cs, name) == if i < cs.len() {
            Some(cs[i])
        } else {
            None::<ElementView>
        },
{
    lemma_first_named_step(cs, name, i);
    if i == cs.len() {
        assert(cs.subrange(i, cs.len() as int).len() == 0);
    } else {
        assert(cs.subrange(i, cs.len() as int)[0] == cs[i]);
    }
}

proof fn lemma_attr_in_step(a: Seq<(String, String)>, key: Seq<char>, i: int)
    requires
        0 <= i <= a.len(),
        forall|k: int| 0 <= k < i ==> a[k].0@ != key,
    ensures
        attr_in(a, key) == attr_in(a.subrange(i, a.len() as int), key),
    decreases i,
{
    if i > 0 {
        lemma_attr_in_step(a.drop_first(), key, i - 1);
        assert(a.drop_first().subrange(i - 1, a.len() - 1) =~= a.subrange(i, a.len() as int));
    } else {
        assert(a.subrange(0, a.len() as int) =~= a);
    }
}

proof fn lemma_first_named_step(cs: Seq<ElementView>, name: Seq<char>, i: int)
    requires
        0 <= i <= cs.len(),
        forall|k: int| 0 <= k < i ==> cs[k].name != name,
    ensures
        first_named(cs, name) == first_named(cs.subrange(i, cs.len() as int), name),
    decreases i,
{
    if i > 0 {
        lemma_first_named_step(cs.drop_first(), name, i - 1);
        assert(cs.drop_first().subrange(i - 1, cs.len() - 1) =~= cs.subrange(i, cs.len() as int));
    } else {
        assert(cs.subrange(0, cs.len() as int) =~= cs);
    }
}

impl XmlElement {
    /// An element with no attributes and no children.
    pub fn new(name: &str) -> (r: XmlElement)
        ensures
            r.name@ == name@,
            r.attributes@.len() == 0,
            r.children@.len() == 0,
    {
        XmlElement { name: String::from_str(name), attributes: Vec::new(), children: Vec::new() }
    }

    /// The value of the first attribute named `key`.
    pub fn attribute(&self, key: &str) -> (r: Option<&String>)
        ensures
            r is Some <==> attr(view_of(*self), key@) is Some,
            r matches Some(v) ==> attr(view_of(*self), key@) == Some(v@),
    {
        proof {
            lemma_view_of(*self);
            lemma_attr_in_lookup(self.attributes@, key@);
        }
        let mut i: usize = 0;
        while i < self.attributes.len()
            invariant
                i <= self.attributes@.len(),
                attr(view_of(*self), key@) == attr_in(self.attributes@, key@),
                forall|k: int| 0 <= k < i ==> self.attributes@[k].0@ != key@,
            decreases self.attributes@.len() - i,
        {
            if same_text(self.attributes[i].0.as_str(), key) {
                proof {
                    lemma_attr_in_step(self.attributes@, key@, i as int);
                }
                return Some(&self.attributes[i].1);
            }
            i = i + 1;
        }
        proof {
            lemma_attr_in_step(self.attributes@, key@, self.attributes@.len() as int);
        }
        None
    }

    /// The first child named `name`.
    pub fn child(&self, name: &str) -> (r: Option<&XmlElement>)
        ensures
            r is Some <==> child(view_of(*self), name@) is Some,
            r matches Some(c) ==> child(view_of(*self), name@) == Some(view_of(*c)),
    {
        proof {
            lemma_view_of(*self);
        }
        let ghost cs = view_of(*self).children;
        let mut i: usize = 0;
        while i < self.children.len()
            invariant
                i <= self.children@.len(),
                cs == views_of(self.children@),
                cs == view_of(*self).children,
                forall|k: int| 0 <= k < i ==> cs[k].name != name@,
            decreases self.children@.len() - i,
        {
            proof {
                lemma_view_of(self.children@[i as int]);
                assert(cs[i as int] == view_of(self.children@[i as int]));
            }
            if same_text(self.children[i].name.as_str(), name) {
                proof {
                    lemma_first_named_step(cs, name@, i as int);
                }
                return Some(&self.children[i]);
            }
            i = i + 1;
        }
        proof {
            lemma_first_named_step(cs, name@, cs.len() as int);
        }
        None
    }

    /// Adds an attribute, unless its value is empty: an empty value is
    /// written by leaving the attribute out.
    pub fn push_attribute(&mut self, key: &str, value: String)
        ensures
            final(self).name == old(self).name,
            final(self).children == old(self).children,
            pairs(final(self).attributes@) == pairs(old(self).attributes@) + written(key@, value@),
    {
        if value.unicode_len() > 0 {
            self.attributes.push((String::from_str(key), value));
        }
        assert(pairs(self.attributes@) =~= pairs(old(self).attributes@) + written(key@, value@));
    }
}


fn push_attributes(a: &Vec<(String, String)>, out: &mut String)
    ensures
        final(out)@ == old(out)@ + attributes_text(pairs(a@)),
{
    let ghost start = out@;
    let mut i: usize = 0;
    while i < a.len()
        invariant
            i <= a@.len(),
            out@ == start + attributes_text(pairs(a@).subrange(0, i as int)),
        decreases a@.len() - i,
    {
        proof {
            reveal_strlit(" ");
            reveal_strlit("=\"");
            reveal_strlit("\"");
        }
        out.append(" ");
        out.append(a[i].0.as_str());
        out.append("=\"");
        let v = escape_markup(a[i].1.as_str());
        out.append(v.as_str());
        out.append("\"");
        proof {
            let p = pairs(a@).subrange(0, i + 1);
            assert(p.drop_last() =~= pairs(a@).subrange(0, i as int));
            assert(p.last() == (a@[i as int].0@, a@[i as int].1@));
            assert(out@ =~= start + attributes_text(p));
        }
        i = i + 1;
    }
    assert(pairs(a@).subrange(0, a@.len() as int) =~= pairs(a@));
}

/// Appends the text of `e` to `out`.
pub fn write_element(e: &XmlElement, out: &mut String)
    ensures
        final(out)@ == old(out)@ + render(*e),
    decreases e,
{
    let ghost start = out@;
    proof {
        reveal_strlit("<");
        reveal_strlit("/>");
        reveal_strlit(">");
        reveal_strlit("</");
    }
    out.append("<");
    out.append(e.name.as_str());
    push_attributes(&e.attributes, out);
    let ghost open = seq!['<'] + e.name@ + attributes_text(pairs(e.attributes@));
    assert(out@ =~= start + open);
    if e.children.len() == 0 {
        out.append("/>");
        assert(out@ =~= start + render(*e));
        return;
    }
    out.append(">");
    let mut i: usize = 0;
    while i < e.children.len()
        invariant
            i <= e.children@.len(),
            out@ == start + open + seq!['>'] + render_children(*e, i as nat),
        decreases e.children@.len() - i,
    {
        write_element(&e.children[i], out);
        i = i + 1;
        assert(out@ =~= start + open + seq!['>'] + render_children(*e, i as nat));
    }
    out.append("</");
    out.append(e.name.as_str());
    out.append(">");
    assert(out@ =~= start + render(*e));
}

impl XmlElement {
    /// The text of this element.
    pub fn to_text(&self) -> (r: String)
        ensures
            r@ == render(*self),
    {
        let mut out = String::new();
        write_element(self, &mut out);
        assert(out@ =~= render(*self));
        out
    }
}

} // verus!
