//! Records and collections to and from markup text.
use vstd::prelude::*;

use crate::collection::{
    all_readable, collection_read_as, collection_read_error, collection_readable,
    collection_written_as, first_read_error, lemma_first_read_error, Collection, CollectionItem,
    XmlRecord,
};
use crate::error::DecodeError;
use crate::reader::{markup_elements, parse_document, parse_elements, root_of};
use crate::xml::{render, view_of, views_of, write_element, XmlElement};

verus! {

/// The texts of elements, one after another.
pub open spec fn render_all(es: Seq<XmlElement>) -> Seq<char>
    decreases es.len(),
{
    if es.len() == 0 {
        Seq::empty()
    } else {
        render_all(es.drop_last()) + render(es.last())
    }
}

/// The text of the element written for a record.
pub fn record_to_xml<T: XmlRecord>(x: &T) -> (r: String)
    ensures
        exists|e: XmlElement| T::written_as(*x, view_of(e)) && r@ == render(e),
{
    let e = x.to_element();
    e.to_text()
}

/// Reads a record from markup text holding its element. Text that is not
/// well-formed, or holds other than one top-level element, is
/// `MalformedXml`; otherwise the element is read as a record.
pub fn record_from_xml<T: XmlRecord>(s: &str) -> (r: Result<T, DecodeError>)
    ensures
        root_of(s@) is None ==> (r matches Err(err) && err == DecodeError::MalformedXml),
        root_of(s@) matches Some(v) ==> (r is Ok <==> T::readable(v)) && (r matches Ok(x)
            ==> T::read_as(v, x)) && (r matches Err(err) ==> err == T::read_error(v)),
{
    let e = parse_document(s)?;
    T::from_element(&e)
}

/// The texts of the elements written for records, one after another.
pub fn records_to_xml<T: XmlRecord>(xs: &Vec<T>) -> (r: String)
    ensures
        exists|es: Seq<XmlElement>|
            es.len() == xs@.len() && (forall|k: int|
                0 <= k < xs@.len() ==> T::written_as(xs@[k], view_of(#[trigger] es[k])))
                && r@ == render_all(es),
{
    let mut out = String::new();
    let ghost mut es: Seq<XmlElement> = Seq::empty();
    let mut i: usize = 0;
    while i < xs.len()
        invariant
            i <= xs@.len(),
            es.len() == i,
            forall|k: int| 0 <= k < i ==> T::written_as(xs@[k], view_of(#[trigger] es[k])),
            out@ == render_all(es),
        decreases xs@.len() - i,
    {
        let e = xs[i].to_element();
        write_element(&e, &mut out);
        proof {
            let before = es;
            es = es.push(e);
            assert(es.drop_last() =~= before);
        }
        i = i + 1;
    }
    out
}

/// Reads the records that a markup text holds as top-level elements, in
/// order: the error of the first that cannot be read, if any.
pub fn records_from_xml<T: XmlRecord>(s: &str) -> (r: Result<Vec<T>, DecodeError>)
    ensures
        markup_elements(s@) is None ==> (r matches Err(err) && err == DecodeError::MalformedXml),
        markup_elements(s@) matches Some(vs) ==> (r is Ok <==> all_readable::<T>(vs)),
        markup_elements(s@) matches Some(vs) ==> (r matches Ok(xs) ==> xs@.len() == vs.len()
            && forall|k: int| 0 <= k < vs.len() ==> T::read_as(#[trigger] vs[k], xs@[k])),
        markup_elements(s@) matches Some(vs) ==> (r matches Err(err) ==> err
            == first_read_error::<T>(vs)),
{
    let roots = parse_elements(s)?;
    let ghost vs = views_of(roots@);
    let mut out: Vec<T> = Vec::new();
    let mut i: usize = 0;
    while i < roots.len()
        invariant
            i <= roots@.len(),
            vs == views_of(roots@),
            markup_elements(s@) == Some(vs),
            out@.len() == i,
            forall|k: int| 0 <= k < i ==> T::read_as(#[trigger] vs[k], out@[k]),
            forall|k: int| 0 <= k < i ==> T::readable(#[trigger] vs[k]),
        decreases roots@.len() - i,
    {
        assert(vs[i as int] == view_of(roots@[i as int]));
        let x = match T::from_element(&roots[i]) {
            Ok(x) => x,
            Err(err) => {
                proof {
                    lemma_first_read_error::<T>(vs, i as int);
                }
                return Err(err);
            },
        };
        out.push(x);
        i = i + 1;
    }
    Ok(out)
}

/// The text of the element written for a collection.
pub fn collection_to_xml<T: CollectionItem>(c: &Collection<T>) -> (r: String)
    ensures
        exists|e: XmlElement| collection_written_as(c.items@, view_of(e)) && r@ == render(e),
{
    let e = c.to_element();
    e.to_text()
}

/// Reads a collection from markup text holding its element.
pub fn collection_from_xml<T: CollectionItem>(s: &str) -> (r: Result<Collection<T>, DecodeError>)
    ensures
        root_of(s@) is None ==> (r matches Err(err) && err == DecodeError::MalformedXml),
        root_of(s@) matches Some(v) ==> (r is Ok <==> collection_readable::<T>(v)) && (r matches Ok(
            c,
        ) ==> collection_read_as(v, c.items@)) && (r matches Err(err) ==> err
            == collection_read_error::<T>(v)),
{
    let e = parse_document(s)?;
    Collection::<T>::from_element(&e)
}

} // verus!
