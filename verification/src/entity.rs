//! Identities of scene objects.

use vstd::prelude::*;

verus! {

/// Identity of one object of the host's scene.
///
/// Two values denote the same object exactly when their bits are equal; the
/// bits carry no other meaning here.
#[derive(Clone, Copy, Debug, PartialEq, Eq, Hash, Structural)]
pub struct EntityId(pub u64);

} // verus!
