//! Records written as elements, and ordered collections of them written as
//! an outer element around one inner element per item.
use vstd::prelude::*;

use crate::error::DecodeError;
use crate::xml::{all_named, lemma_view_of, view_of, views_of, ElementView, XmlElement};

verus! {

/// A value written as one element of its own.
pub trait XmlRecord: Sized {
    /// Name of the element written for one value.
    spec fn spec_item_tag() -> Seq<char>;

    /// Whether `e` is the element written for `x`.
    spec fn written_as(x: Self, e: ElementView) -> bool;

    /// Whether `e` can be read as a value.
    spec fn readable(e: ElementView) -> bool;

    /// Whether `x` is the value read from `e`.
    spec fn read_as(e: ElementView, x: Self) -> bool;

    /// Whether `x` and `y` hold the same values.
    spec fn same(x: Self, y: Self) -> bool;

    /// Whether `x` survives being written and read: no present optional
    /// text or token is empty (an empty value is written by leaving the
    /// attribute out), and chrono reads back each date and time written.
    spec fn faithful(x: Self) -> bool;

    /// Reading the element written for a faithful value succeeds and gives
    /// back the same values.
    proof fn lemma_round_trip(x: Self, e: ElementView, y: Self)
        requires
            Self::written_as(x, e),
            Self::faithful(x),
        ensures
            Self::readable(e),
            Self::read_as(e, y) ==> Self::same(x, y),
    ;

    /// The error that reading `e` gives, where it cannot be read: that of
    /// the first field, in order, that cannot be read.
    spec fn read_error(e: ElementView) -> DecodeError;

    fn item_tag() -> (r: &'static str)
        ensures
            r@ == Self::spec_item_tag(),
    ;

    /// The element written for this value; it is named with the item tag.
    fn to_element(&self) -> (r: XmlElement)
        ensures
            Self::written_as(*self, view_of(r)),
            r.name@ == Self::spec_item_tag(),
    ;

    /// Reads a value from an element.
    fn from_element(e: &XmlElement) -> (r: Result<Self, DecodeError>)
        ensures
            r is Ok <==> Self::readable(view_of(*e)),
            r matches Ok(x) ==> Self::read_as(view_of(*e), x),
            r matches Err(err) ==> err == Self::read_error(view_of(*e)),
    ;
}

/// A record that is also kept in collections.
pub trait CollectionItem: XmlRecord {
    /// Name of the element that holds a collection of values.
    spec fn spec_collection_tag() -> Seq<char>;

    fn collection_tag() -> (r: &'static str)
        ensures
            r@ == Self::spec_collection_tag(),
    ;
}

/// An ordered collection of records, written as an element named with the
/// collection tag around one element per item, in order.
#[derive(Debug, PartialEq, Eq)]
pub struct Collection<I> {
    pub items: Vec<I>,
}

/// Whether `e` is the element written for the items `xs`.
pub open spec fn collection_written_as<I: CollectionItem>(xs: Seq<I>, e: ElementView) -> bool {
    &&& e.name == I::spec_collection_tag()
    &&& e.attributes.len() == 0
    &&& e.children.len() == xs.len()
    &&& forall|k: int|
        0 <= k < xs.len() ==> I::written_as(xs[k], #[trigger] e.children[k])
            && e.children[k].name == I::spec_item_tag()
}

/// The children of `e` that a collection reads: those named with the item
/// tag, in order; others are passed over.
pub open spec fn collection_children<I: CollectionItem>(e: ElementView) -> Seq<ElementView> {
    all_named(e.children, I::spec_item_tag())
}

pub open spec fn collection_readable<I: CollectionItem>(e: ElementView) -> bool {
    forall|k: int|
        0 <= k < collection_children::<I>(e).len() ==> I::readable(
            #[trigger] collection_children::<I>(e)[k],
        )
}

/// Whether every element can be read.
pub open spec fn all_readable<I: XmlRecord>(cs: Seq<ElementView>) -> bool {
    forall|k: int| 0 <= k < cs.len() ==> I::readable(#[trigger] cs[k])
}

/// The error of the first element that cannot be read.
pub open spec fn first_read_error<I: XmlRecord>(cs: Seq<ElementView>) -> DecodeError
    decreases cs.len(),
{
    if cs.len() == 0 {
        DecodeError::MalformedXml
    } else if !I::readable(cs[0]) {
        I::read_error(cs[0])
    } else {
        first_read_error::<I>(cs.drop_first())
    }
}

/// The error that reading a collection from `e` gives: that of its first
/// item that cannot be read.
pub open spec fn collection_read_error<I: CollectionItem>(e: ElementView) -> DecodeError {
    first_read_error::<I>(collection_children::<I>(e))
}

pub proof fn lemma_first_read_error<I: XmlRecord>(cs: Seq<ElementView>, j: int)
    requires
        0 <= j < cs.len(),
        forall|k: int| 0 <= k < j ==> I::readable(#[trigger] cs[k]),
        !I::readable(cs[j]),
    ensures
        first_read_error::<I>(cs) == I::read_error(cs[j]),
    decreases j,
{
    if j > 0 {
        assert forall|k: int| 0 <= k < j - 1 implies I::readable(#[trigger] cs.drop_first()[k]) by {
            assert(cs.drop_first()[k] == cs[k + 1]);
        }
        lemma_first_read_error::<I>(cs.drop_first(), j - 1);
    }
}

/// Whether `xs` are the items read from `e`: one per child named with the
/// item tag, in order.
pub open spec fn collection_read_as<I: CollectionItem>(e: ElementView, xs: Seq<I>) -> bool {
    &&& xs.len() == collection_children::<I>(e).len()
    &&& forall|k: int|
        0 <= k < xs.len() ==> I::read_as(#[trigger] collection_children::<I>(e)[k], xs[k])
}

proof fn lemma_all_named_prefix(cs: Seq<ElementView>, name: Seq<char>, i: int)
    requires
        0 <= i < cs.len(),
    ensures
        cs.subrange(0, i + 1).drop_last() == cs.subrange(0, i),
        cs.subrange(0, i + 1).last() == cs[i],
{
    assert(cs.subrange(0, i + 1).drop_last() =~= cs.subrange(0, i));
}

impl<I: CollectionItem> Collection<I> {
    /// A collection of these items, in this order.
    pub fn new(items: Vec<I>) -> (r: Collection<I>)
        ensures
            r.items@ == items@,
    {
        Collection { items }
    }

    pub fn len(&self) -> (r: usize)
        ensures
            r == self.items@.len(),
    {
        self.items.len()
    }

    pub fn is_empty(&self) -> (r: bool)
        ensures
            r == (self.items@.len() == 0),
    {
        self.items.len() == 0
    }

    pub fn get(&self, i: usize) -> (r: Option<&I>)
        ensures
            i < self.items@.len() ==> r == Some(&self.items@[i as int]),
            i >= self.items@.len() ==> r is None,
    {
        if i < self.items.len() {
            Some(&self.items[i])
        } else {
            None
        }
    }

    pub fn first(&self) -> (r: Option<&I>)
        ensures
            self.items@.len() > 0 ==> r == Some(&self.items@[0]),
            self.items@.len() == 0 ==> r is None,
    {
        self.get(0)
    }

    /// Writes the collection: the outer element, then one inner element per
    /// item, in order. An empty collection is an empty outer element.
    pub fn to_element(&self) -> (r: XmlElement)
        ensures
            collection_written_as(self.items@, view_of(r)),
    {
        let mut out = XmlElement::new(I::collection_tag());
        let mut i: usize = 0;
        while i < self.items.len()
            invariant
                i <= self.items@.len(),
                out.name@ == I::spec_collection_tag(),
                out.attributes@.len() == 0,
                out.children@.len() == i,
                forall|k: int|
                    0 <= k < i ==> I::written_as(self.items@[k], view_of(#[trigger] out.children@[k]))
                        && out.children@[k].name@ == I::spec_item_tag(),
            decreases self.items@.len() - i,
        {
            let c = self.items[i].to_element();
            out.children.push(c);
            i = i + 1;
        }
        proof {
            lemma_view_of(out);
            assert forall|k: int| 0 <= k < self.items@.len() implies view_of(out).children[k].name
                == I::spec_item_tag() by {
                lemma_view_of(out.children@[k]);
            }
        }
        out
    }

    /// Reads a collection: each child named with the item tag is read as an
    /// item and kept in order; other children are passed over. An element
    /// with no such child is the empty collection.
    pub fn from_element(e: &XmlElement) -> (r: Result<Collection<I>, DecodeError>)
        ensures
            r is Ok <==> collection_readable::<I>(view_of(*e)),
            r matches Ok(c) ==> collection_read_as(view_of(*e), c.items@),
            r matches Err(err) ==> err == collection_read_error::<I>(view_of(*e)),
    {
        proof {
            lemma_view_of(*e);
        }
        let tag = I::item_tag();
        let ghost cs = view_of(*e).children;
        let mut items: Vec<I> = Vec::new();
        let mut i: usize = 0;
        while i < e.children.len()
            invariant
                i <= cs.len(),
                cs == views_of(e.children@),
                cs == view_of(*e).children,
                cs.len() == e.children@.len(),
                tag@ == I::spec_item_tag(),
                items@.len() == all_named(cs.subrange(0, i as int), tag@).len(),
                forall|k: int|
                    0 <= k < items@.len() ==> I::read_as(
                        #[trigger] all_named(cs.subrange(0, i as int), tag@)[k],
                        items@[k],
                    ),
                forall|k: int|
                    0 <= k < items@.len() ==> I::readable(
                        #[trigger] all_named(cs.subrange(0, i as int), tag@)[k],
                    ),
            decreases cs.len() - i,
        {
            proof {
                lemma_all_named_prefix(cs, tag@, i as int);
            }
            let ghost before = all_named(cs.subrange(0, i as int), tag@);
            proof {
                lemma_view_of(e.children@[i as int]);
                assert(cs[i as int] == view_of(e.children@[i as int]));
            }
            if crate::text::same_text(e.children[i].name.as_str(), tag) {
                match I::from_element(&e.children[i]) {
                    Ok(x) => {
                        items.push(x);
                    },
                    Err(err) => {
                        proof {
                            let now = all_named(cs.subrange(0, i + 1), tag@);
                            assert(now == before.push(cs[i as int]));
                            assert(now[before.len() as int] == cs[i as int]);
                            assert(cs.subrange(0, cs.len() as int) =~= cs);
                            lemma_all_named_grows(cs, tag@, i + 1, cs.len() as int);
                            assert(collection_children::<I>(view_of(*e))[before.len() as int] == cs[i as int]);
                            lemma_first_read_error::<I>(
                                collection_children::<I>(view_of(*e)),
                                before.len() as int,
                            );
                        }
                        return Err(err);
                    },
                }
            }
            i = i + 1;
        }
        assert(cs.subrange(0, cs.len() as int) =~= cs);
        Ok(Collection { items })
    }
}

impl<I> Default for Collection<I> {
    /// The empty collection.
    fn default() -> (r: Collection<I>)
        ensures
            r.items@.len() == 0,
    {
        Collection { items: Vec::new() }
    }
}

impl<I> From<Vec<I>> for Collection<I> {
    fn from(items: Vec<I>) -> (r: Collection<I>)
        ensures
            r.items == items,
    {
        Collection { items }
    }
}

impl<I> vstd::std_specs::convert::FromSpecImpl<Vec<I>> for Collection<I> {
    open spec fn obeys_from_spec() -> bool {
        true
    }

    open spec fn from_spec(v: Vec<I>) -> Collection<I> {
        Collection { items: v }
    }
}

/// What is read from a prefix stays at the front of what is read from a
/// longer prefix.
proof fn lemma_all_named_grows(cs: Seq<ElementView>, name: Seq<char>, i: int, j: int)
    requires
        0 <= i <= j <= cs.len(),
    ensures
        all_named(cs.subrange(0, i), name).len() <= all_named(cs.subrange(0, j), name).len(),
        forall|k: int|
            0 <= k < all_named(cs.subrange(0, i), name).len() ==> all_named(cs.subrange(0, j), name)[k]
                == all_named(cs.subrange(0, i), name)[k],
    decreases j - i,
{
    if i < j {
        lemma_all_named_grows(cs, name, i, j - 1);
        lemma_all_named_prefix(cs, name, j - 1);
    }
}

/// The collection law: reading the element written for a collection reads
/// exactly the elements written for its items, in their order, and nothing
/// else; the empty collection reads back as the empty collection.
pub proof fn lemma_collection_round_trip<I: CollectionItem>(xs: Seq<I>, e: ElementView)
    requires
        collection_written_as(xs, e),
    ensures
        collection_children::<I>(e) == e.children,
        collection_children::<I>(e).len() == xs.len(),
        forall|k: int| 0 <= k < xs.len() ==> I::written_as(xs[k], #[trigger] collection_children::<I>(e)[k]),
{
    lemma_all_named_all(e.children, I::spec_item_tag());
}

/// Whether two sequences of values hold the same values, in order.
pub open spec fn all_same<I: XmlRecord>(xs: Seq<I>, ys: Seq<I>) -> bool {
    xs.len() == ys.len() && forall|k: int| 0 <= k < xs.len() ==> I::same(#[trigger] xs[k], ys[k])
}

pub open spec fn all_faithful<I: XmlRecord>(xs: Seq<I>) -> bool {
    forall|k: int| 0 <= k < xs.len() ==> I::faithful(#[trigger] xs[k])
}

/// The collection law on values: reading the element written for faithful
/// items succeeds and gives back the same items, in the same order.
pub proof fn lemma_collection_values<I: CollectionItem>(xs: Seq<I>, e: ElementView, ys: Seq<I>)
    requires
        collection_written_as(xs, e),
        all_faithful(xs),
    ensures
        collection_readable::<I>(e),
        collection_read_as(e, ys) ==> all_same(xs, ys),
{
    lemma_collection_round_trip(xs, e);
    assert forall|k: int| 0 <= k < collection_children::<I>(e).len() implies I::readable(
        #[trigger] collection_children::<I>(e)[k],
    ) by {
        I::lemma_round_trip(xs[k], e.children[k], xs[k]);
    }
    if collection_read_as(e, ys) {
        assert forall|k: int| 0 <= k < xs.len() implies I::same(#[trigger] xs[k], ys[k]) by {
            I::lemma_round_trip(xs[k], e.children[k], ys[k]);
        }
    }
}

proof fn lemma_all_named_all(cs: Seq<ElementView>, name: Seq<char>)
    requires
        forall|k: int| 0 <= k < cs.len() ==> (#[trigger] cs[k]).name == name,
    ensures
        all_named(cs, name) == cs,
    decreases cs.len(),
{
    if cs.len() > 0 {
        lemma_all_named_all(cs.drop_last(), name);
        assert(cs.drop_last().push(cs.last()) =~= cs);
    }
}

} // verus!
