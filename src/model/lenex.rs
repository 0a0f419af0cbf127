use vstd::prelude::*;

use crate::collection::{
    Collection, XmlRecord, all_faithful, all_same, collection_read_as, collection_read_error,
    collection_readable, collection_written_as, lemma_collection_values,
};
use crate::error::DecodeError;
use crate::fields::{err_of, read_version, version_attr};
use crate::model::{Constructor, Contact, Meet};
use crate::number::{VERSION_WHOLE_MAX, lemma_version_reads_back, version_string, version_text};
use crate::reader::{parse_document, root_of};
use crate::xml::{
    ElementView, XmlElement, child, lemma_first_named_at, lemma_lookup_written, lemma_view_of,
    pairs, render, view_of, write_element, written,
};

verus! {

/// A whole document: its format version in tenths (30 is 3.0), the
/// software that wrote it, and its meets.
#[derive(Debug, PartialEq, Eq)]
pub struct Lenex {
    pub version: u32,
    pub constructor: Constructor,
    pub meets: Collection<Meet>,
}

impl XmlRecord for Lenex {
    open spec fn spec_item_tag() -> Seq<char> {
        "LENEX"@
    }

    open spec fn written_as(x: Self, e: ElementView) -> bool {
        &&& e.name == "LENEX"@
        &&& e.attributes == written("version"@, version_text(x.version as nat))
        &&& e.children.len() == 1int + 1int
        &&& Constructor::written_as(x.constructor, e.children[0])
        &&& collection_written_as(x.meets.items@, e.children[1int])
    }

    open spec fn readable(e: ElementView) -> bool {
        &&& version_attr(e, "version"@) is Ok
        &&& child(e, "CONSTRUCTOR"@) matches Some(c) && Constructor::readable(c)
        &&& child(e, "MEETS"@) matches Some(c) && collection_readable::<Meet>(c)
    }

    open spec fn read_error(e: ElementView) -> DecodeError {
        if version_attr(e, "version"@) is Err {
            err_of(version_attr(e, "version"@))
        } else if !(child(e, "CONSTRUCTOR"@) matches Some(c) && Constructor::readable(c)) {
            match child(e, "CONSTRUCTOR"@) {
                Some(c) => Constructor::read_error(c),
                None => DecodeError::MissingElement,
            }
        } else if !(child(e, "MEETS"@) matches Some(c) && collection_readable::<Meet>(c)) {
            match child(e, "MEETS"@) {
                Some(c) => collection_read_error::<Meet>(c),
                None => DecodeError::MissingElement,
            }
        } else {
            DecodeError::MalformedXml
        }
    }

    open spec fn read_as(e: ElementView, x: Self) -> bool {
        &&& version_attr(e, "version"@) == Ok::<u64, DecodeError>(x.version as u64)
        &&& child(e, "CONSTRUCTOR"@) matches Some(c) && Constructor::read_as(c, x.constructor)
        &&& child(e, "MEETS"@) matches Some(c) && collection_read_as(c, x.meets.items@)
    }

    open spec fn same(x: Self, y: Self) -> bool {
        &&& x.version == y.version
        &&& Constructor::same(x.constructor, y.constructor)
        &&& all_same(x.meets.items@, y.meets.items@)
    }

    open spec fn faithful(x: Self) -> bool {
        &&& x.version / 10 <= VERSION_WHOLE_MAX
        &&& Constructor::faithful(x.constructor)
        &&& all_faithful(x.meets.items@)
    }

    proof fn lemma_round_trip(x: Self, e: ElementView, y: Self) {
        reveal_strlit("CONSTRUCTOR");
        assert("CONSTRUCTOR"@.len() == 11);
        reveal_strlit("MEETS");
        assert("MEETS"@.len() == 5);
        reveal_strlit("version");
        assert("version"@.len() == 7);
        let w0 = written("version"@, version_text(x.version as nat));
        assert(e.attributes == w0);
        lemma_lookup_written("version"@, version_text(x.version as nat), "version"@);
        lemma_version_reads_back(x.version as nat);
        assert forall|j: int| 0 <= j < 0 implies (#[trigger] e.children[j]).name != "CONSTRUCTOR"@ by {
            
        }
        lemma_first_named_at(e.children, "CONSTRUCTOR"@, 0);
        Constructor::lemma_round_trip(x.constructor, e.children[0], y.constructor);
        assert forall|j: int| 0 <= j < 1int implies (#[trigger] e.children[j]).name != "MEETS"@ by {
            if j == 0 {
            }
        }
        lemma_first_named_at(e.children, "MEETS"@, 1int);
        lemma_collection_values(x.meets.items@, e.children[1int], y.meets.items@);
    }

    fn item_tag() -> (r: &'static str) {
        "LENEX"
    }

    fn to_element(&self) -> (r: XmlElement) {
        let mut e = XmlElement::new("LENEX");
        e.push_attribute("version", version_string(self.version as u64));
        e.children.push(self.constructor.to_element());
        e.children.push(self.meets.to_element());
        assert(pairs(e.attributes@) =~= written("version"@, version_text(self.version as nat)));
        proof {
            lemma_view_of(e);
        }
        e
    }

    fn from_element(e: &XmlElement) -> (r: Result<Lenex, DecodeError>) {
        let version = read_version(e, "version")? as u32;
        let constructor = match e.child("CONSTRUCTOR") {
            Some(c) => Constructor::from_element(c)?,
            None => {
                return Err(DecodeError::MissingElement);
            },
        };
        let meets = match e.child("MEETS") {
            Some(c) => Collection::<Meet>::from_element(c)?,
            None => {
                return Err(DecodeError::MissingElement);
            },
        };
        Ok(Lenex { version, constructor, meets })
    }
}

/// The declaration that opens a written document.
pub open spec fn prolog() -> Seq<char> {
    "<?xml version=\"1.0\" encoding=\"UTF-8\"?>"@
}

impl Lenex {
    /// An empty document of format version 3.0, naming this library as the
    /// software that wrote it.
    pub fn new() -> (r: Lenex)
        ensures
            r.version == 30,
            r.constructor.name@ == "lenex-rs"@,
            r.constructor.registration@.len() == 0,
            r.constructor.version@ == "0.1.0"@,
            r.constructor.contact.name@ == "Francis Boulet-Rouleau"@,
            r.constructor.contact.country@ == "CA"@,
            r.constructor.contact.email@ == "francisbouletrouleau@gmail.com"@,
            r.constructor.contact.internet@ == "https://github.com/francisbr/lenex-rs"@,
            r.meets.items@.len() == 0,
    {
        Lenex {
            version: 30,
            constructor: Constructor {
                name: String::from_str("lenex-rs"),
                registration: String::new(),
                version: String::from_str("0.1.0"),
                contact: Contact {
                    name: String::from_str("Francis Boulet-Rouleau"),
                    country: String::from_str("CA"),
                    email: String::from_str("francisbouletrouleau@gmail.com"),
                    internet: String::from_str("https://github.com/francisbr/lenex-rs"),
                },
            },
            meets: Collection::new(Vec::new()),
        }
    }

    /// The meets of the document, in order.
    pub fn meets(&self) -> (r: &Vec<Meet>)
        ensures
            r@ == self.meets.items@,
    {
        &self.meets.items
    }

    /// The document's text: the declaration, then the root element.
    pub fn xml(&self) -> (r: String)
        ensures
            exists|e: XmlElement| Lenex::written_as(*self, view_of(e)) && r@ == prolog() + render(e),
    {
        let e = self.to_element();
        let mut out = String::from_str("<?xml version=\"1.0\" encoding=\"UTF-8\"?>");
        write_element(&e, &mut out);
        out
    }

    /// Reads a document from its text. Text that is not well-formed, or holds
    /// other than one top-level element, is `MalformedXml`; otherwise the root
    /// element is read as a document.
    pub fn from_xml(s: &str) -> (r: Result<Lenex, DecodeError>)
        ensures
            root_of(s@) is None ==> r == Err::<Lenex, DecodeError>(DecodeError::MalformedXml),
            root_of(s@) matches Some(v) ==> (r is Ok <==> Lenex::readable(v)) && (r matches Ok(l)
                ==> Lenex::read_as(v, l)) && (r matches Err(err) ==> err == Lenex::read_error(v)),
    {
        let e = parse_document(s)?;
        Lenex::from_element(&e)
    }
}

} // verus!
