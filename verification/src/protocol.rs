//! What the library assumes of the foreign object model: the reply to an
//! identity query, and a mathematical model of an object that answers one.

use vstd::prelude::*;

verus! {

/// What an identity query handed back.
///
/// `status` is what the call returned: zero reports success, any other value
/// failure. `slot` is what the output slot holds after the call.
#[derive(Clone, Copy, Debug, PartialEq, Eq, Structural)]
pub struct QueryReply {
    pub status: i32,
    pub slot: usize,
}

/// The identity of an interface, as the foreign object model names it.
pub struct InterfaceId {
    pub value: u128,
}

/// A foreign object as specifications see it: where it lives and which
/// interfaces it implements.
pub struct ForeignObject {
    pub address: usize,
    pub interfaces: Set<InterfaceId>,
}

impl ForeignObject {
    /// An object lives at an address other than the absent sentinel.
    pub open spec fn well_formed(self) -> bool {
        self.address != 0
    }

    /// Whether the object implements `interface`.
    pub open spec fn implements(self, interface: InterfaceId) -> bool {
        self.interfaces.contains(interface)
    }

    /// The identity query protocol: asked for an interface it implements, the
    /// object fills the slot with a reference to itself and returns zero;
    /// asked for any other, it returns a non-zero status and leaves the slot
    /// as it was, holding `before`.
    pub open spec fn answers(self, interface: InterfaceId, before: usize, reply: QueryReply) -> bool {
        if self.implements(interface) {
            reply.status == 0 && reply.slot == self.address
        } else {
            reply.status != 0 && reply.slot == before
        }
    }
}

} // verus!
