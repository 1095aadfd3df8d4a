//! Byte and text buffers of bounded size.

use vstd::prelude::*;
use vstd::slice::slice_to_vec;
use vstd::string::StringSliceAdditionalSpecFns;

use crate::error::CapacityError;

verus! {

/// Calls `<[u8; N]>::try_from` on a slice of exactly `N` bytes, which, as
/// the documentation of `TryFrom` for arrays states, succeeds for a slice of
/// the array's length and gives an array holding the same bytes.
#[verifier::external_body]
fn array_from_slice<const N: usize>(bytes: &[u8]) -> (a: [u8; N])
    requires
        bytes@.len() == N,
    ensures
        a@ == bytes@,
{
    <[u8; N]>::try_from(bytes).unwrap()
}

/// A blob of at most `N` bytes.
///
/// # Examples
///
/// A blob longer than `N` bytes does not fit:
/// `FixedBlob::<3>::try_from_slice(b"abcd")` gives a `CapacityError`.
#[derive(Debug, PartialEq, Eq, PartialOrd, Ord, Hash)]
pub struct FixedBlob<const N: usize> {
    data: Vec<u8>,
}

impl<const N: usize> Clone for FixedBlob<N> {
    fn clone(&self) -> (r: Self)
        ensures
            r@ == self@,
    {
        proof {
            use_type_invariant(self);
        }
        FixedBlob { data: slice_to_vec(self.data.as_slice()) }
    }
}

impl<const N: usize> View for FixedBlob<N> {
    type V = Seq<u8>;

    closed spec fn view(&self) -> Seq<u8> {
        self.data@
    }
}

impl<const N: usize> FixedBlob<N> {
    /// The blob never holds more than `N` bytes.
    #[verifier::type_invariant]
    closed spec fn fits(&self) -> bool {
        self.data@.len() <= N
    }

    /// Construct a new empty blob.
    pub fn new() -> (b: Self)
        ensures
            b@ == Seq::<u8>::empty(),
    {
        FixedBlob { data: Vec::new() }
    }

    /// Construct a blob holding all of `data`.
    pub fn from_array(data: [u8; N]) -> (b: Self)
        ensures
            b@ == data@,
    {
        let v = slice_to_vec(data.as_slice());
        FixedBlob { data: v }
    }

    /// Construct a blob holding a copy of `value`, or a `CapacityError`
    /// when it is longer than `N` bytes.
    pub fn try_from_slice(value: &[u8]) -> (r: Result<Self, CapacityError>)
        ensures
            r is Ok <==> value@.len() <= N,
            r matches Ok(b) ==> b@ == value@,
            r matches Err(e) ==> e.len_spec() == value@.len() && e.max_spec() == N,
    {
        if value.len() > N {
            return Err(CapacityError::capacity(value.len(), N));
        }
        let v = slice_to_vec(value);
        Ok(FixedBlob { data: v })
    }

    /// The bytes as an array, if the blob is full.
    pub fn into_bytes(self) -> (r: Option<[u8; N]>)
        ensures
            r is Some <==> self@.len() == N,
            r matches Some(a) ==> a@ == self@,
    {
        if self.data.len() != N {
            return None;
        }
        Some(array_from_slice(self.data.as_slice()))
    }

    /// The bytes of the blob.
    pub fn as_slice(&self) -> (s: &[u8])
        ensures
            s@ == self@,
            s@.len() <= N,
    {
        proof {
            use_type_invariant(self);
        }
        self.data.as_slice()
    }

    /// The number of bytes in the blob.
    pub fn len(&self) -> (n: usize)
        ensures
            n == self@.len(),
            n <= N,
    {
        proof {
            use_type_invariant(self);
        }
        self.data.len()
    }

    /// Whether the blob is empty.
    pub fn is_empty(&self) -> (b: bool)
        ensures
            b == (self@.len() == 0),
    {
        self.data.len() == 0
    }
}

/// A byte string of at most `N` bytes.
#[derive(Debug, PartialEq, Eq, PartialOrd, Ord, Hash)]
pub struct FixedBytes<const N: usize> {
    data: Vec<u8>,
}

impl<const N: usize> Clone for FixedBytes<N> {
    fn clone(&self) -> (r: Self)
        ensures
            r@ == self@,
    {
        proof {
            use_type_invariant(self);
        }
        FixedBytes { data: slice_to_vec(self.data.as_slice()) }
    }
}

impl<const N: usize> View for FixedBytes<N> {
    type V = Seq<u8>;

    closed spec fn view(&self) -> Seq<u8> {
        self.data@
    }
}

impl<const N: usize> FixedBytes<N> {
    /// The byte string never holds more than `N` bytes.
    #[verifier::type_invariant]
    closed spec fn fits(&self) -> bool {
        self.data@.len() <= N
    }

    /// Construct a new empty byte string.
    pub fn new() -> (b: Self)
        ensures
            b@ == Seq::<u8>::empty(),
    {
        FixedBytes { data: Vec::new() }
    }

    /// Construct a byte string holding a copy of `value`, or a
    /// `CapacityError` when it is longer than `N` bytes.
    pub fn try_from_slice(value: &[u8]) -> (r: Result<Self, CapacityError>)
        ensures
            r is Ok <==> value@.len() <= N,
            r matches Ok(b) ==> b@ == value@,
            r matches Err(e) ==> e.len_spec() == value@.len() && e.max_spec() == N,
    {
        if value.len() > N {
            return Err(CapacityError::capacity(value.len(), N));
        }
        let v = slice_to_vec(value);
        Ok(FixedBytes { data: v })
    }

    /// The bytes as an array, if the byte string is full.
    pub fn into_bytes(self) -> (r: Option<[u8; N]>)
        ensures
            r is Some <==> self@.len() == N,
            r matches Some(a) ==> a@ == self@,
    {
        if self.data.len() != N {
            return None;
        }
        Some(array_from_slice(self.data.as_slice()))
    }

    /// The bytes of the byte string.
    pub fn as_slice(&self) -> (s: &[u8])
        ensures
            s@ == self@,
            s@.len() <= N,
    {
        proof {
            use_type_invariant(self);
        }
        self.data.as_slice()
    }
}

/// A text of at most `N` bytes. Like SQLite text it is not checked to be
/// valid UTF-8.
#[derive(Clone, Debug, PartialEq, Eq, PartialOrd, Ord, Hash)]
pub struct FixedText<const N: usize> {
    inner: FixedBlob<N>,
}

impl<const N: usize> View for FixedText<N> {
    type V = Seq<u8>;

    closed spec fn view(&self) -> Seq<u8> {
        self.inner@
    }
}

impl<const N: usize> FixedText<N> {
    /// Construct a new empty text.
    pub fn new() -> (t: Self)
        ensures
            t@ == Seq::<u8>::empty(),
    {
        FixedText { inner: FixedBlob::new() }
    }

    /// Construct a text from a blob holding its bytes.
    pub fn from_inner(inner: FixedBlob<N>) -> (t: Self)
        ensures
            t@ == inner@,
    {
        FixedText { inner }
    }

    /// Construct a text holding a copy of `value`, or a `CapacityError`
    /// when it is longer than `N` bytes.
    pub fn try_from_str(value: &str) -> (r: Result<Self, CapacityError>)
        ensures
            r is Ok <==> value.spec_bytes().len() <= N,
            r matches Ok(t) ==> t@ == value.spec_bytes(),
            r matches Err(e) ==> e.len_spec() == value.spec_bytes().len() && e.max_spec() == N,
    {
        let inner = FixedBlob::try_from_slice(value.as_bytes())?;
        Ok(FixedText { inner })
    }

    /// The bytes of the text.
    pub fn as_text(&self) -> (s: &[u8])
        ensures
            s@ == self@,
    {
        self.inner.as_slice()
    }

    /// The text as a string, if it is valid UTF-8.
    pub fn to_str(&self) -> (r: Option<&str>)
        ensures
            r is Some <==> vstd::utf8::valid_utf8(self@),
            r matches Some(s) ==> s.spec_bytes() == self@,
    {
        crate::text::str_from_utf8(self.inner.as_slice())
    }
}

} // verus!
