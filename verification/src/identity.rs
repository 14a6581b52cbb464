//! The wire identity that every message type bears, and the rule by which two
//! endpoints may share a channel.

use vstd::prelude::*;

use crate::time::Time;

verus! {

/// The identity of a message type on the wire: its name, the checksum of its
/// canonical definition, and that definition.
///
/// Two endpoints on one channel interoperate exactly when their checksums are
/// equal. The name is for people; it decides nothing.
#[derive(Debug, Clone, Copy)]
pub struct TypeIdentity {
    pub name: &'static str,
    pub checksum: &'static str,
    pub definition: &'static str,
}

/// An endpoint was refused because the channel carries another wire type.
#[derive(Debug, Clone, Copy)]
pub struct TypeIncompatibility {
    /// The identity that the channel already carries.
    pub attached: TypeIdentity,
    /// The identity of the endpoint that was refused.
    pub offered: TypeIdentity,
}

impl TypeIdentity {
    /// Whether two identities stand for one wire type: their checksums are equal.
    pub open spec fn same_wire_type(self, other: TypeIdentity) -> bool {
        self.checksum@ == other.checksum@
    }

    /// Tells whether an endpoint of type `other` can talk to one of type `self`.
    pub fn interoperates_with(&self, other: &TypeIdentity) -> (ok: bool)
        ensures
            ok == self.same_wire_type(*other),
    {
        let mine = self.checksum.to_owned();
        let theirs = other.checksum.to_owned();
        mine == theirs
    }

    /// Decides whether an endpoint may join a channel that already carries `self`:
    /// it may exactly when it bears the same checksum, and is refused with both
    /// identities otherwise.
    pub fn check_join(&self, offered: &TypeIdentity) -> (r: Result<(), TypeIncompatibility>)
        ensures
            r is Ok <==> self.same_wire_type(*offered),
            r matches Err(e) ==> e.attached == *self && e.offered == *offered,
    {
        if self.interoperates_with(offered) {
            Ok(())
        } else {
            Err(TypeIncompatibility { attached: *self, offered: *offered })
        }
    }
}

impl Time {
    /// The identity under which a time value travels.
    pub fn identity() -> (id: TypeIdentity)
        ensures
            id.name@ == "builtin_interfaces/Time"@,
            id.checksum@ == ""@,
            id.definition@ == ""@,
    {
        TypeIdentity { name: "builtin_interfaces/Time", checksum: "", definition: "" }
    }
}

} // verus!
