//! Canonical socket addresses.
//!
//! A datagram endpoint is reachable through a filesystem path, or it is
//! unnamed (never bound to a path). The two facts are kept distinct: an
//! empty path is a legitimate path, not the absence of one, so absence is
//! modelled with its own variant rather than a sentinel value.

use vstd::prelude::*;

verus! {

/// The canonical address of a datagram endpoint: a filesystem path, given
/// as its byte sequence, or the unnamed address of an endpoint that was
/// never bound.
pub enum Address {
    /// The address of an endpoint that is not bound to any path.
    Unnamed,
    /// A filesystem-path address, as path bytes.
    Path(Vec<u8>),
}

/// The mathematical value of an [`Address`].
pub enum AddressView {
    Unnamed,
    Path(Seq<u8>),
}

impl View for Address {
    type V = AddressView;

    open spec fn view(&self) -> AddressView {
        match self {
            Address::Unnamed => AddressView::Unnamed,
            Address::Path(p) => AddressView::Path(p@),
        }
    }
}

/// The mathematical value of an optional path: the byte sequence of a
/// present path, kept optional.
pub open spec fn opt_path_view(o: Option<Vec<u8>>) -> Option<Seq<u8>> {
    match o {
        Some(p) => Some(p@),
        None => None,
    }
}

/// The canonical address denoted by an optional path.
pub open spec fn resolved(path: Option<Seq<u8>>) -> AddressView {
    match path {
        Some(p) => AddressView::Path(p),
        None => AddressView::Unnamed,
    }
}

/// The optional path that an address displays as: the path bytes of a
/// path-based address, or nothing for the unnamed address.
pub open spec fn displayed(a: AddressView) -> Option<Seq<u8>> {
    match a {
        AddressView::Path(p) => Some(p),
        AddressView::Unnamed => None,
    }
}

impl Address {
    /// Converts an optional filesystem path into its canonical address:
    /// a present path resolves to a path address, an absent one to the
    /// unnamed address used by unbound endpoints.
    pub fn resolve(path: Option<Vec<u8>>) -> (a: Address)
        ensures
            a@ == resolved(opt_path_view(path)),
    {
        match path {
            Some(p) => Address::Path(p),
            None => Address::Unnamed,
        }
    }

    /// Extracts the filesystem path of a path-based address, or nothing
    /// for the unnamed address.
    pub fn display(&self) -> (r: Option<Vec<u8>>)
        ensures
            opt_path_view(r) == displayed(self@),
    {
        match self {
            Address::Unnamed => None,
            Address::Path(p) => Some(copy_bytes(p)),
        }
    }
}

/// A fresh copy of a byte vector with the same contents.
pub fn copy_bytes(v: &Vec<u8>) -> (r: Vec<u8>)
    ensures
        r@ == v@,
{
    let mut out: Vec<u8> = Vec::new();
    let mut i: usize = 0;
    while i < v.len()
        invariant
            i <= v.len(),
            out@ == v@.subrange(0, i as int),
        decreases v.len() - i,
    {
        out.push(v[i]);
        i = i + 1;
    }
    proof {
        assert(out@ =~= v@);
    }
    out
}

/// Whether two byte vectors hold the same bytes.
pub fn bytes_eq(a: &Vec<u8>, b: &Vec<u8>) -> (r: bool)
    ensures
        r == (a@ == b@),
{
    if a.len() != b.len() {
        return false;
    }
    let mut i: usize = 0;
    while i < a.len()
        invariant
            i <= a.len(),
            a@.len() == b@.len(),
            forall|j: int| 0 <= j < i ==> a@[j] == b@[j],
        decreases a.len() - i,
    {
        if a[i] != b[i] {
            return false;
        }
        i = i + 1;
    }
    proof {
        assert(a@ =~= b@);
    }
    true
}

} // verus!
