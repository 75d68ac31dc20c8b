//! The handle: a typed, copyable, non-owning reference to a foreign object.

use crate::protocol::{ForeignObject, InterfaceId, QueryReply};
use core::hash::{Hash, Hasher};
use core::marker::PhantomData;
use std::rc::Rc;
use vstd::prelude::*;
use vstd::std_specs::cmp::{PartialEqSpec, PartialEqSpecImpl};

verus! {

/// `usize::hash` of std: feeds the value to the hasher. Nothing is claimed of
/// the hasher's state afterwards.
pub assume_specification<H: Hasher>[ <usize as Hash>::hash ](value: &usize, state: &mut H);

/// The base interface, which every foreign object implements and through
/// which identity queries and releases are made.
pub struct Unknown {}

/// A reference to a foreign object, seen through the interface `T`.
///
/// The handle holds the object's address and nothing else. It owns no share
/// of the object: copying it leaves the object's reference count alone, and
/// dropping it releases nothing. The address 0 stands for "no object".
///
/// That the object at the address implements `T` is known only where the
/// handle came out of [`WeakPtr::cast`]; [`WeakPtr::from_raw`] takes the
/// caller's word for it.
///
/// The object behind a handle is shared and unsynchronised, so a handle is
/// neither `Send` nor `Sync`: the marker field sees to that.
pub struct WeakPtr<T> {
    address: usize,
    interface: PhantomData<Rc<T>>,
}

impl<T> View for WeakPtr<T> {
    type V = usize;

    /// The address of the object referred to; 0 if there is none.
    closed spec fn view(&self) -> usize {
        self.address
    }
}

/// What a cast returns for a given reply to the identity query: the address
/// of the new handle, and the status.
///
/// A non-zero status means failure, and the handle is then absent whatever
/// the slot holds. On a zero status the handle refers to what the object put
/// into the slot.
pub open spec fn cast_outcome(reply: QueryReply) -> (usize, i32) {
    if reply.status == 0 {
        (reply.slot, 0i32)
    } else {
        (0usize, reply.status)
    }
}

impl<T> WeakPtr<T> {
    /// The handle through `T` to the object at `raw`.
    pub closed spec fn spec_from_raw(raw: usize) -> Self {
        WeakPtr { address: raw, interface: PhantomData }
    }

    /// The absent handle: the one whose address is 0.
    pub open spec fn spec_null() -> Self {
        Self::spec_from_raw(0)
    }

    /// Whether the handle refers to no object.
    pub open spec fn spec_is_null(&self) -> bool {
        self@ == 0
    }

    /// A handle that refers to no object.
    pub fn null() -> (handle: Self)
        ensures
            handle == Self::spec_null(),
            handle@ == 0,
            handle.is_null(),
    {
        WeakPtr { address: 0, interface: PhantomData }
    }

    /// Wraps the address `raw` as a handle through `T`, unverified.
    ///
    /// The caller vouches that the object at `raw` implements `T`, or that
    /// `raw` is 0.
    pub fn from_raw(raw: usize) -> (handle: Self)
        ensures
            handle == Self::spec_from_raw(raw),
            handle@ == raw,
            handle.is_null() <==> raw == 0,
    {
        WeakPtr { address: raw, interface: PhantomData }
    }

    /// Whether the handle refers to no object.
    #[verifier::when_used_as_spec(spec_is_null)]
    pub fn is_null(&self) -> (absent: bool)
        ensures
            absent == (self@ == 0),
    {
        self.address == 0
    }

    /// The address, for a foreign call that reads through it.
    pub fn as_ptr(&self) -> (address: usize)
        ensures
            address == self@,
    {
        self.address
    }

    /// The address, for a foreign call that writes through it.
    pub fn as_mut_ptr(&self) -> (address: usize)
        ensures
            address == self@,
    {
        self.address
    }

    /// The handle's address as an output slot for a foreign call that fills in
    /// an address without saying what interface it is seen through.
    ///
    /// The slot starts out holding the handle's address, and the handle ends
    /// up holding whatever was last written into the slot.
    pub fn mut_void(&mut self) -> (slot: &mut usize)
        ensures
            *slot == old(self)@,
            final(self)@ == *final(slot),
    {
        &mut self.address
    }

    /// The handle's address as an output slot for a foreign call that fills in
    /// the address of an object seen through `T`.
    ///
    /// The slot starts out holding the handle's address, and the handle ends
    /// up holding whatever was last written into the slot.
    pub fn mut_self(&mut self) -> (slot: &mut usize)
        ensures
            *slot == old(self)@,
            final(self)@ == *final(slot),
    {
        &mut self.address
    }

    /// The same object seen through the base interface: the target of an
    /// identity query or a release.
    ///
    /// An absent handle refers to nothing that could be queried or released.
    pub fn as_unknown(&self) -> (base: WeakPtr<Unknown>)
        requires
            !self.is_null(),
        ensures
            base == WeakPtr::<Unknown>::spec_from_raw(self@),
            base@ == self@,
            !base.is_null(),
    {
        WeakPtr { address: self.address, interface: PhantomData }
    }

    /// Makes a handle through `U` out of the reply to an identity query for
    /// `U`, put to the object behind this handle with an absent slot.
    ///
    /// On a zero status the result is the handle that the object put into the
    /// slot, which is a reference of its own and has to be released once. On
    /// any other status the result is absent, whatever the slot holds. The
    /// status is handed on as it came.
    ///
    /// An object that reports success and leaves the slot empty has broken
    /// the protocol; the result is then an absent handle with a zero status.
    pub fn cast<U>(&self, reply: QueryReply) -> (outcome: (WeakPtr<U>, i32))
        requires
            !self.is_null(),
        ensures
            outcome.0 == WeakPtr::<U>::spec_from_raw(cast_outcome(reply).0),
            (outcome.0@, outcome.1) == cast_outcome(reply),
            outcome.1 == reply.status,
            outcome.1 != 0 ==> outcome.0.is_null(),
    {
        if reply.status == 0 {
            (WeakPtr { address: reply.slot, interface: PhantomData }, reply.status)
        } else {
            (WeakPtr { address: 0, interface: PhantomData }, reply.status)
        }
    }

    /// Constructing a handle from an address gives a handle to that address.
    pub proof fn lemma_from_raw_address(raw: usize)
        ensures
            Self::spec_from_raw(raw)@ == raw,
    {
    }

    /// A handle is nothing but its address: the handle made from it is the
    /// handle itself.
    pub proof fn lemma_handle_is_its_address(handle: Self)
        ensures
            Self::spec_from_raw(handle@) == handle,
    {
    }

    /// The absent handle is absent, and a handle made from any other address
    /// than 0 is not.
    pub proof fn law_absent_iff_made_from_null(raw: usize)
        ensures
            Self::spec_null().is_null(),
            raw != 0 ==> !Self::spec_from_raw(raw).is_null(),
    {
    }

    /// Handles are equal exactly if their addresses are, whatever interfaces
    /// they see the object through.
    pub proof fn law_equal_iff_same_address<U>(left: usize, right: usize)
        ensures
            PartialEqSpec::eq_spec(
                &Self::spec_from_raw(left),
                &WeakPtr::<U>::spec_from_raw(right),
            ) <==> left == right,
    {
    }
}

/// Asked for an interface that it does not implement, an object that
/// keeps to the query protocol gives a reply from which the cast makes an
/// absent handle and a non-zero status.
pub proof fn law_cast_to_missing_interface_fails(
    object: ForeignObject,
    interface: InterfaceId,
    reply: QueryReply,
)
    requires
        object.well_formed(),
        !object.implements(interface),
        object.answers(interface, 0, reply),
    ensures
        cast_outcome(reply).0 == 0,
        cast_outcome(reply).1 != 0,
{
}

/// Asked for an interface that it implements, an object that keeps to the
/// query protocol gives a reply from which the cast makes a handle that is
/// not absent and has the address of the handle it was asked through, and
/// a zero status.
pub proof fn law_cast_to_implemented_interface_succeeds<T>(
    source: WeakPtr<T>,
    object: ForeignObject,
    interface: InterfaceId,
    reply: QueryReply,
)
    requires
        object.well_formed(),
        source@ == object.address,
        object.implements(interface),
        object.answers(interface, 0, reply),
    ensures
        cast_outcome(reply).0 == source@,
        cast_outcome(reply).0 != 0,
        cast_outcome(reply).1 == 0,
{
}

/// Whatever the interface asked for, the cast of a reply from an object
/// that keeps to the query protocol is an absent handle with a non-zero
/// status or a handle to an object with a zero status, never a mix; and it
/// is the second exactly if the object implements the interface.
pub proof fn law_cast_never_mixes(
    object: ForeignObject,
    interface: InterfaceId,
    reply: QueryReply,
)
    requires
        object.well_formed(),
        object.answers(interface, 0, reply),
    ensures
        cast_outcome(reply).0 == 0 <==> cast_outcome(reply).1 != 0,
        cast_outcome(reply).1 == 0 <==> object.implements(interface),
{
}

/// Whatever the reply, a cast that hands on a non-zero status hands out an
/// absent handle with it.
pub proof fn law_failed_cast_is_absent(reply: QueryReply)
    ensures
        cast_outcome(reply).1 == reply.status,
        cast_outcome(reply).1 != 0 ==> cast_outcome(reply).0 == 0,
{
}

impl<T> Clone for WeakPtr<T> {
    /// A second handle to the same object. The object's reference count stays
    /// as it is.
    fn clone(&self) -> (copy: Self)
        ensures
            copy == *self,
    {
        WeakPtr { address: self.address, interface: PhantomData }
    }
}

impl<T> Copy for WeakPtr<T> {

}

impl<T, U> PartialEq<WeakPtr<U>> for WeakPtr<T> {
    /// Whether both handles refer to the same address.
    fn eq(&self, other: &WeakPtr<U>) -> (same: bool) {
        self.address == other.address
    }
}

impl<T, U> PartialEqSpecImpl<WeakPtr<U>> for WeakPtr<T> {
    open spec fn obeys_eq_spec() -> bool {
        true
    }

    open spec fn eq_spec(&self, other: &WeakPtr<U>) -> bool {
        self@ == other@
    }
}

impl<T> PartialEq<usize> for WeakPtr<T> {
    /// Whether the handle refers to the address `other`.
    fn eq(&self, other: &usize) -> (same: bool) {
        self.address == *other
    }
}

impl<T> PartialEqSpecImpl<usize> for WeakPtr<T> {
    open spec fn obeys_eq_spec() -> bool {
        true
    }

    open spec fn eq_spec(&self, other: &usize) -> bool {
        self@ == *other
    }
}

impl<T> Eq for WeakPtr<T> {

}

impl<T> Hash for WeakPtr<T> {
    /// Hashes the address and nothing else, so that equal handles hash alike.
    fn hash<H: Hasher>(&self, state: &mut H) {
        self.address.hash(state)
    }
}

} // verus!
