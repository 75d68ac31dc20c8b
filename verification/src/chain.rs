//! Chains of interfaces: one value for an object that implements the first
//! interface of a family and perhaps later, more capable ones.
//!
//! A family is a tuple of interface types, lowest first. Each interface in it
//! offers everything that the ones before it offer, so a handle through a
//! later interface may be read as a handle through an earlier one. The other
//! way round takes a cast.

use crate::handle::WeakPtr;
use core::ops::Deref;
use vstd::prelude::*;

verus! {

/// An ordered list of interface types, lowest capability first.
pub trait Family {
    /// How many interfaces the family declares.
    spec fn depth() -> nat;
}

/// The interface that a family declares at level `K`, counting from 1.
pub trait Level<const K: usize>: Family {
    type Interface;

    /// `K` is one of the family's levels.
    proof fn lemma_declared()
        ensures
            1 <= K <= Self::depth(),
    ;
}

/// A chain as specifications see it.
pub struct ChainView {
    /// The highest level that the object is known to implement.
    pub level: nat,
    /// The address of the object.
    pub address: usize,
}

impl ChainView {
    /// The address of the handle through the interface at level `k`, if the
    /// chain can give one without asking the object: it can for every level
    /// from 1 up to its own.
    pub open spec fn narrow(self, k: nat) -> Option<usize> {
        if 1 <= k <= self.level {
            Some(self.address)
        } else {
            None
        }
    }

    /// As `narrow`, but saying what was asked for and what there is where the
    /// chain's level is too low.
    pub open spec fn check(self, k: nat) -> Result<usize, LevelError> {
        if 1 <= k <= self.level {
            Ok(self.address)
        } else {
            Err(LevelError { requested: k as usize, actual: self.level as usize })
        }
    }
}

/// A chain was asked for a level above its own.
#[derive(Clone, Copy, Debug, PartialEq, Eq, Structural)]
pub struct LevelError {
    /// The level asked for.
    pub requested: usize,
    /// The level that the chain is at.
    pub actual: usize,
}

/// A handle to an object together with the highest level of the family `L`
/// that the object is known to implement.
///
/// The level is set when the chain is made and never changes: to move an
/// object up, cast a handle to the higher interface and make a new chain from
/// the result.
pub struct Chain<L: Level<1>> {
    tag: usize,
    base: WeakPtr<<L as Level<1>>::Interface>,
}

impl<L: Level<1>> View for Chain<L> {
    type V = ChainView;

    closed spec fn view(&self) -> ChainView {
        ChainView { level: self.tag as nat, address: self.base@ }
    }
}

impl<L: Level<1>> Chain<L> {
    #[verifier::type_invariant]
    spec fn declared_level(self) -> bool {
        1 <= self.tag <= L::depth()
    }

    /// The chain at level `K` around `value`.
    pub closed spec fn spec_from_level<const K: usize>(
        value: WeakPtr<<L as Level<K>>::Interface>,
    ) -> Self where L: Level<K> {
        Chain { tag: K, base: WeakPtr::spec_from_raw(value@) }
    }

    /// Wraps a handle through the interface at level `K` as a chain at that
    /// level.
    ///
    /// The caller vouches that the object implements that interface, and with
    /// it all the lower ones.
    pub fn from_level<const K: usize>(value: WeakPtr<<L as Level<K>>::Interface>) -> (chain:
        Self) where L: Level<K>
        ensures
            chain == Self::spec_from_level::<K>(value),
            chain@ == (ChainView { level: K as nat, address: value@ }),
            1 <= K <= L::depth(),
    {
        proof {
            <L as Level<K>>::lemma_declared();
        }
        Chain { tag: K, base: WeakPtr::from_raw(value.as_ptr()) }
    }

    /// The chain's level: the highest one that the object is known to
    /// implement.
    pub fn level(&self) -> (tag: usize)
        ensures
            tag == self@.level,
            1 <= tag <= L::depth(),
    {
        proof {
            use_type_invariant(self);
        }
        self.tag
    }

    /// The handle through the interface at level `K`, if the chain is at that
    /// level or above. Nothing is asked of the object, and the chain stays as
    /// it is.
    pub fn as_level<const K: usize>(&self) -> (narrowed: Option<
        WeakPtr<<L as Level<K>>::Interface>,
    >) where L: Level<K>
        ensures
            narrowed is Some <==> K <= self@.level,
            match narrowed {
                Some(handle) => self@.narrow(K as nat) == Some(handle@) && handle
                    == WeakPtr::<<L as Level<K>>::Interface>::spec_from_raw(self@.address),
                None => self@.narrow(K as nat) is None,
            },
    {
        proof {
            <L as Level<K>>::lemma_declared();
        }
        if K <= self.tag {
            Some(WeakPtr::from_raw(self.base.as_ptr()))
        } else {
            None
        }
    }

    /// As `as_level`, but with an error that names the level asked for and
    /// the chain's own where the chain is below `K`.
    pub fn try_level<const K: usize>(&self) -> (checked: Result<
        WeakPtr<<L as Level<K>>::Interface>,
        LevelError,
    >) where L: Level<K>
        ensures
            checked is Ok <==> K <= self@.level,
            match checked {
                Ok(handle) => self@.check(K as nat) == Ok::<usize, LevelError>(handle@) && handle
                    == WeakPtr::<<L as Level<K>>::Interface>::spec_from_raw(self@.address),
                Err(error) => self@.check(K as nat) == Err::<usize, LevelError>(error) && error
                    == (LevelError { requested: K, actual: self@.level as usize }),
            },
    {
        proof {
            <L as Level<K>>::lemma_declared();
            use_type_invariant(self);
        }
        if K <= self.tag {
            Ok(WeakPtr::from_raw(self.base.as_ptr()))
        } else {
            Err(LevelError { requested: K, actual: self.tag })
        }
    }

    /// The handle through the interface at level `K` of a chain that is known
    /// to be at that level or above.
    pub fn unwrap_level<const K: usize>(&self) -> (handle: WeakPtr<
        <L as Level<K>>::Interface,
    >) where L: Level<K>
        requires
            K <= self@.level,
        ensures
            handle == WeakPtr::<<L as Level<K>>::Interface>::spec_from_raw(self@.address),
            self@.narrow(K as nat) == Some(handle@),
            handle@ == self@.address,
    {
        proof {
            <L as Level<K>>::lemma_declared();
        }
        WeakPtr::from_raw(self.base.as_ptr())
    }

    /// A chain made at level 1 gives the handle it was made from at level 1
    /// and nothing at any level above.
    pub proof fn law_seeded_chain_narrows_to_base_only(
        value: WeakPtr<<L as Level<1>>::Interface>,
        k: nat,
    )
        ensures
            Self::spec_from_level::<1>(value)@.narrow(1) == Some(value@),
            k > 1 ==> Self::spec_from_level::<1>(value)@.narrow(k) is None,
    {
        WeakPtr::<<L as Level<1>>::Interface>::lemma_from_raw_address(value@);
    }

    /// A chain made at level `K` gives the handle it was made from at every
    /// level from 1 to `K`, and nothing above.
    pub proof fn law_narrow_up_to_own_level<const K: usize>(
        value: WeakPtr<<L as Level<K>>::Interface>,
        k: nat,
    ) where L: Level<K>
        ensures
            1 <= k <= K ==> Self::spec_from_level::<K>(value)@.narrow(k) == Some(value@),
            k > K ==> Self::spec_from_level::<K>(value)@.narrow(k) is None,
    {
        WeakPtr::<<L as Level<1>>::Interface>::lemma_from_raw_address(value@);
    }
}

/// A chain below the level asked for gives no handle, but an error that
/// names the level asked for and the chain's own.
pub proof fn law_level_above_own_is_reported(chain: ChainView, k: nat)
    requires
        chain.level < k <= usize::MAX,
    ensures
        chain.narrow(k) is None,
        chain.check(k) == Err::<usize, LevelError>(
            LevelError { requested: k as usize, actual: chain.level as usize },
        ),
        chain.check(k)->Err_0.requested == k,
        chain.check(k)->Err_0.actual == chain.level,
{
}

/// Wherever `narrow` gives a handle, `check` gives the same one, and where it
/// gives none, `check` gives an error.
pub proof fn law_check_agrees_with_narrow(chain: ChainView, k: nat)
    ensures
        chain.narrow(k) matches Some(address) ==> chain.check(k) == Ok::<usize, LevelError>(
            address,
        ),
        chain.narrow(k) is None <==> chain.check(k) is Err,
{
}

impl<L: Level<1>> Clone for Chain<L> {
    /// A second chain around the same object, at the same level.
    fn clone(&self) -> (copy: Self)
        ensures
            copy == *self,
    {
        proof {
            use_type_invariant(self);
        }
        Chain { tag: self.tag, base: self.base }
    }
}

impl<L: Level<1>> Copy for Chain<L> {

}

impl<L: Level<1>> Deref for Chain<L> {
    type Target = WeakPtr<<L as Level<1>>::Interface>;

    /// The handle through the family's first interface, which every chain can
    /// give.
    fn deref(&self) -> (base: &WeakPtr<<L as Level<1>>::Interface>)
        ensures
            *base == WeakPtr::<<L as Level<1>>::Interface>::spec_from_raw(self@.address),
            base@ == self@.address,
            self@.narrow(1) == Some(base@),
    {
        proof {
            use_type_invariant(self);
            WeakPtr::lemma_handle_is_its_address(self.base);
        }
        &self.base
    }
}

impl<A, B> Family for (A, B) {
    open spec fn depth() -> nat {
        2
    }
}

impl<A, B> Level<1> for (A, B) {
    type Interface = A;

    proof fn lemma_declared() {
    }
}

impl<A, B> Level<2> for (A, B) {
    type Interface = B;

    proof fn lemma_declared() {
    }
}

impl<A, B, C> Family for (A, B, C) {
    open spec fn depth() -> nat {
        3
    }
}

impl<A, B, C> Level<1> for (A, B, C) {
    type Interface = A;

    proof fn lemma_declared() {
    }
}

impl<A, B, C> Level<2> for (A, B, C) {
    type Interface = B;

    proof fn lemma_declared() {
    }
}

impl<A, B, C> Level<3> for (A, B, C) {
    type Interface = C;

    proof fn lemma_declared() {
    }
}

impl<A, B, C, D> Family for (A, B, C, D) {
    open spec fn depth() -> nat {
        4
    }
}

impl<A, B, C, D> Level<1> for (A, B, C, D) {
    type Interface = A;

    proof fn lemma_declared() {
    }
}

impl<A, B, C, D> Level<2> for (A, B, C, D) {
    type Interface = B;

    proof fn lemma_declared() {
    }
}

impl<A, B, C, D> Level<3> for (A, B, C, D) {
    type Interface = C;

    proof fn lemma_declared() {
    }
}

impl<A, B, C, D> Level<4> for (A, B, C, D) {
    type Interface = D;

    proof fn lemma_declared() {
    }
}

impl<A, B, C, D, E> Family for (A, B, C, D, E) {
    open spec fn depth() -> nat {
        5
    }
}

impl<A, B, C, D, E> Level<1> for (A, B, C, D, E) {
    type Interface = A;

    proof fn lemma_declared() {
    }
}

impl<A, B, C, D, E> Level<2> for (A, B, C, D, E) {
    type Interface = B;

    proof fn lemma_declared() {
    }
}

impl<A, B, C, D, E> Level<3> for (A, B, C, D, E) {
    type Interface = C;

    proof fn lemma_declared() {
    }
}

impl<A, B, C, D, E> Level<4> for (A, B, C, D, E) {
    type Interface = D;

    proof fn lemma_declared() {
    }
}

impl<A, B, C, D, E> Level<5> for (A, B, C, D, E) {
    type Interface = E;

    proof fn lemma_declared() {
    }
}

impl<A, B, C, D, E, F> Family for (A, B, C, D, E, F) {
    open spec fn depth() -> nat {
        6
    }
}

impl<A, B, C, D, E, F> Level<1> for (A, B, C, D, E, F) {
    type Interface = A;

    proof fn lemma_declared() {
    }
}

impl<A, B, C, D, E, F> Level<2> for (A, B, C, D, E, F) {
    type Interface = B;

    proof fn lemma_declared() {
    }
}

impl<A, B, C, D, E, F> Level<3> for (A, B, C, D, E, F) {
    type Interface = C;

    proof fn lemma_declared() {
    }
}

impl<A, B, C, D, E, F> Level<4> for (A, B, C, D, E, F) {
    type Interface = D;

    proof fn lemma_declared() {
    }
}

impl<A, B, C, D, E, F> Level<5> for (A, B, C, D, E, F) {
    type Interface = E;

    proof fn lemma_declared() {
    }
}

impl<A, B, C, D, E, F> Level<6> for (A, B, C, D, E, F) {
    type Interface = F;

    proof fn lemma_declared() {
    }
}

} // verus!
