//! Header fields and their case-insensitive lookup.

use crate::ascii::{eq_ignore_case, same_ignoring_case};
use vstd::prelude::*;
use vstd::string::StrSliceExecFns;
use vstd::string::StringSliceAdditionalSpecFns;

verus! {

/// One header field as it stands in a request or a response.
#[derive(Clone, Debug, PartialEq, Eq)]
pub struct Header {
    pub name: Vec<u8>,
    pub value: Vec<u8>,
}

/// A header field as a pair of byte strings.
pub struct HeaderView {
    pub name: Seq<u8>,
    pub value: Seq<u8>,
}

impl View for Header {
    type V = HeaderView;

    open spec fn view(&self) -> HeaderView {
        HeaderView { name: self.name@, value: self.value@ }
    }
}

/// The header fields of a list, each by its view, in the list's order.
pub open spec fn views(headers: Seq<Header>) -> Seq<HeaderView> {
    Seq::new(headers.len(), |i: int| headers[i]@)
}

/// The field at `i` carries `name` (up to ASCII case) and no earlier field does.
pub open spec fn is_first_named(headers: Seq<HeaderView>, name: Seq<u8>, i: int) -> bool {
    &&& 0 <= i < headers.len()
    &&& same_ignoring_case(headers[i].name, name)
    &&& forall|j: int| 0 <= j < i ==> !same_ignoring_case(#[trigger] headers[j].name, name)
}

/// The value that a header list maps `name` to: that of the first field with
/// this name, names compared without regard to ASCII case.
pub open spec fn value_of(headers: Seq<HeaderView>, name: Seq<u8>) -> Option<Seq<u8>> {
    if exists|i: int| is_first_named(headers, name, i) {
        Some(headers[choose|i: int| is_first_named(headers, name, i)].value)
    } else {
        None
    }
}

/// At most one index is the first with a given name.
pub proof fn lemma_first_named_is_unique(headers: Seq<HeaderView>, name: Seq<u8>, i: int, j: int)
    requires
        is_first_named(headers, name, i),
        is_first_named(headers, name, j),
    ensures
        i == j,
{
    if i < j {
        assert(!same_ignoring_case(headers[i].name, name));
    }
    if j < i {
        assert(!same_ignoring_case(headers[j].name, name));
    }
}

impl Header {
    /// A header field from text; the bytes are the text's UTF-8 encoding.
    pub fn new(name: &str, value: &str) -> (header: Header)
        ensures
            header@.name == name.spec_bytes(),
            header@.value == value.spec_bytes(),
    {
        Header { name: name.as_bytes_vec(), value: value.as_bytes_vec() }
    }

    /// A header field with a textual name and a value given as bytes.
    pub fn with_value(name: &str, value: Vec<u8>) -> (header: Header)
        ensures
            header@.name == name.spec_bytes(),
            header@.value == value@,
    {
        Header { name: name.as_bytes_vec(), value }
    }
}

/// Looks `name` up in a header list.
pub fn lookup<'a>(headers: &'a Vec<Header>, name: &[u8]) -> (found: Option<&'a Vec<u8>>)
    ensures
        match found {
            Some(value) => value_of(views(headers@), name@) == Some(value@),
            None => value_of(views(headers@), name@) is None,
        },
{
    let ghost fields = views(headers@);
    let mut i: usize = 0;
    while i < headers.len()
        invariant
            i <= headers@.len(),
            fields == views(headers@),
            forall|j: int| 0 <= j < i ==> !same_ignoring_case(#[trigger] fields[j].name, name@),
        decreases headers@.len() - i,
    {
        if eq_ignore_case(headers[i].name.as_slice(), name) {
            proof {
                assert(is_first_named(fields, name@, i as int));
                let picked = choose|k: int| is_first_named(fields, name@, k);
                lemma_first_named_is_unique(fields, name@, i as int, picked);
            }
            return Some(&headers[i].value);
        }
        i += 1;
    }
    None
}

} // verus!
