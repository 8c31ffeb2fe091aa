//! Opaque transfer: moving a typed value into and out of a plain,
//! pointer-free byte view.
//!
//! A payload crosses the host boundary as a byte view of a fixed,
//! type-determined length. [`Plain`] states the whole contract of that
//! crossing: encoding a value yields its exact representation, and decoding a
//! view of the right length yields the one value the view stands for, so a
//! round trip reconstructs the original. Decoding never looks at a view whose
//! declared length differs from the representation size: [`decode_view`]
//! refuses it before any value is constructed.

use vstd::bytes::*;
use vstd::prelude::*;

verus! {

/// A value type that can cross the host boundary as a byte view.
///
/// The representation is a pure function of the value: two values with the
/// same representation are the same value, which is what makes the encoding
/// reversible. Every value of the type has the same representation size, so a
/// receiver can validate a view's length before constructing anything.
pub trait Plain: Sized {
    /// The byte representation of this value.
    spec fn repr(self) -> Seq<u8>;

    /// The representation size shared by every value of the type.
    spec fn repr_size() -> nat;

    /// The representation is lossless: two values with the same
    /// representation are the same value. This is what makes a byte view
    /// decodable at all.
    proof fn lemma_repr_injective(a: Self, b: Self)
        requires
            a.repr() == b.repr(),
        ensures
            a == b,
    ;

    /// The representation size, as it travels beside a byte view on the host
    /// boundary.
    fn repr_len() -> (len: u32)
        ensures
            len as nat == Self::repr_size(),
    ;

    /// Move this value into a byte view holding its exact representation.
    /// The value is consumed; only the view remains.
    fn into_view(self) -> (view: Vec<u8>)
        ensures
            view@ == self.repr(),
            view@.len() == Self::repr_size(),
    ;

    /// Reconstruct the one value a byte view of the exact representation
    /// size stands for. This never fails: every view of the right length is
    /// read as a value.
    fn from_view(view: &[u8]) -> (value: Self)
        requires
            view@.len() == Self::repr_size(),
        ensures
            value.repr() == view@,
            forall|other: Self| other.repr() == view@ ==> other == value,
    ;
}

/// Round-trip law: a byte view determines the value it stands for.
///
/// [`Plain::into_view`] moves a value into the view holding exactly its
/// representation, and [`Plain::from_view`] returns a value whose
/// representation is the given view; by this law that reconstruction is the
/// original value, indistinguishable from it.
pub proof fn lemma_view_round_trip<T: Plain>(value: T, decoded: T)
    requires
        decoded.repr() == value.repr(),
    ensures
        decoded == value,
{
    T::lemma_repr_injective(decoded, value);
}

/// Reconstruct a typed value from a byte view, validating the view's length
/// against the expected representation size first. A view of any other
/// length is refused before any value is constructed.
pub fn decode_view<T: Plain>(view: &[u8]) -> (decoded: Option<T>)
    ensures
        match decoded {
            Some(value) => view@.len() == T::repr_size() && value.repr() == view@ && (forall|other:
                T| other.repr() == view@ ==> other == value),
            None => view@.len() != T::repr_size(),
        },
{
    let len: u32 = T::repr_len();
    if view.len() == len as usize {
        Some(T::from_view(view))
    } else {
        None
    }
}

impl Plain for u64 {
    open spec fn repr(self) -> Seq<u8> {
        spec_u64_to_le_bytes(self)
    }

    open spec fn repr_size() -> nat {
        8
    }

    proof fn lemma_repr_injective(a: u64, b: u64) {
        lemma_auto_spec_u64_to_from_le_bytes();
        assert(spec_u64_from_le_bytes(spec_u64_to_le_bytes(a)) == a);
        assert(spec_u64_from_le_bytes(spec_u64_to_le_bytes(b)) == b);
    }

    fn repr_len() -> (len: u32) {
        8
    }

    fn into_view(self) -> (view: Vec<u8>) {
        proof {
            lemma_auto_spec_u64_to_from_le_bytes();
        }
        u64_to_le_bytes(self)
    }

    fn from_view(view: &[u8]) -> (value: u64) {
        proof {
            lemma_auto_spec_u64_to_from_le_bytes();
        }
        u64_from_le_bytes(view)
    }
}

impl Plain for u32 {
    open spec fn repr(self) -> Seq<u8> {
        spec_u32_to_le_bytes(self)
    }

    open spec fn repr_size() -> nat {
        4
    }

    proof fn lemma_repr_injective(a: u32, b: u32) {
        lemma_auto_spec_u32_to_from_le_bytes();
        assert(spec_u32_to_le_bytes(a).len() == 4);
        assert(spec_u32_to_le_bytes(b).len() == 4);
        assert(spec_u32_from_le_bytes(spec_u32_to_le_bytes(a)) == a);
        assert(spec_u32_from_le_bytes(spec_u32_to_le_bytes(b)) == b);
    }

    fn repr_len() -> (len: u32) {
        4
    }

    fn into_view(self) -> (view: Vec<u8>) {
        proof {
            lemma_auto_spec_u32_to_from_le_bytes();
        }
        u32_to_le_bytes(self)
    }

    fn from_view(view: &[u8]) -> (value: u32) {
        proof {
            lemma_auto_spec_u32_to_from_le_bytes();
        }
        u32_from_le_bytes(view)
    }
}

impl Plain for u8 {
    open spec fn repr(self) -> Seq<u8> {
        seq![self]
    }

    open spec fn repr_size() -> nat {
        1
    }

    proof fn lemma_repr_injective(a: u8, b: u8) {
        assert(a.repr()[0] == a);
        assert(b.repr()[0] == b);
        assert(a.repr()[0] == b.repr()[0]);
    }

    fn repr_len() -> (len: u32) {
        1
    }

    fn into_view(self) -> (view: Vec<u8>) {
        let mut view: Vec<u8> = Vec::new();
        view.push(self);
        proof {
            assert(view@ =~= seq![self]);
        }
        view
    }

    fn from_view(view: &[u8]) -> (value: u8) {
        let value: u8 = view[0];
        proof {
            assert(value.repr() =~= view@);
            assert forall|other: u8| other.repr() == view@ implies other == value by {
                assert(other.repr()[0] == view@[0]);
            }
        }
        value
    }
}

} // verus!
