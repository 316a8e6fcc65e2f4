//! Process-unique identities of the resources that the binding cache tracks.
//!
//! The cache never compares native handles: a device may hand out the handle
//! of a deleted object again. It compares these identities, of which each is
//! made once.

use vstd::prelude::*;

verus! {

/// The next value of the process-wide identity counter.
///
/// Calls `uid::Id::new` and reads the number out of it with `Id::get`. The
/// number is held as a `NonZeroUsize`, so it is never zero. `Id::new` panics
/// once its counter has wrapped around, after `usize::MAX` calls. That two
/// calls never return the same number is what the outside crate is for, but
/// it is a fact about all calls together and is not stated here.
#[verifier::external_body]
fn next_id() -> (id: usize)
    ensures
        id != 0,
{
    uid::Id::<()>::new().get()
}

/// Identity of a draw or read target: the screen or a framebuffer.
#[derive(Clone, Copy, Debug, PartialEq, Eq, Hash, Structural)]
pub struct FramebufferId(usize);

/// Identity of a linked program.
#[derive(Clone, Copy, Debug, PartialEq, Eq, Hash, Structural)]
pub struct ProgramId(usize);

/// Identity of a texture.
#[derive(Clone, Copy, Debug, PartialEq, Eq, Hash, Structural)]
pub struct TextureId(usize);

/// Identity of a mesh.
#[derive(Clone, Copy, Debug, PartialEq, Eq, Hash, Structural)]
pub struct MeshId(usize);

impl FramebufferId {
    /// The number behind the identity.
    pub closed spec fn value(self) -> usize {
        self.0
    }

    /// A fresh identity.
    pub fn new() -> (id: Self)
        ensures
            id.value() != 0,
    {
        FramebufferId(next_id())
    }

    /// The number behind the identity.
    pub fn get(self) -> (value: usize)
        ensures
            value == self.value(),
    {
        self.0
    }
}

impl ProgramId {
    /// The number behind the identity.
    pub closed spec fn value(self) -> usize {
        self.0
    }

    /// A fresh identity.
    pub fn new() -> (id: Self)
        ensures
            id.value() != 0,
    {
        ProgramId(next_id())
    }

    /// The number behind the identity.
    pub fn get(self) -> (value: usize)
        ensures
            value == self.value(),
    {
        self.0
    }
}

impl TextureId {
    /// The number behind the identity.
    pub closed spec fn value(self) -> usize {
        self.0
    }

    /// A fresh identity.
    pub fn new() -> (id: Self)
        ensures
            id.value() != 0,
    {
        TextureId(next_id())
    }

    /// The number behind the identity.
    pub fn get(self) -> (value: usize)
        ensures
            value == self.value(),
    {
        self.0
    }
}

impl MeshId {
    /// The number behind the identity.
    pub closed spec fn value(self) -> usize {
        self.0
    }

    /// A fresh identity.
    pub fn new() -> (id: Self)
        ensures
            id.value() != 0,
    {
        MeshId(next_id())
    }

    /// The number behind the identity.
    pub fn get(self) -> (value: usize)
        ensures
            value == self.value(),
    {
        self.0
    }
}

} // verus!
