//! What can go wrong, and how it is told.

use vstd::prelude::*;

verus! {

/// The kind of resource whose construction failed.
#[derive(Clone, Copy, Debug, PartialEq, Eq, Structural)]
pub enum ResourceKind {
    Shader,
    Program,
    Framebuffer,
}

/// Why the construction of a resource failed.
#[derive(Clone, Debug, PartialEq, Eq)]
pub enum FailureReason {
    /// The shader did not compile; the text is the device's own log.
    CompileError(String),
    /// The program did not link; the text is the device's own log.
    LinkError(String),
    /// An attachment of the framebuffer is not complete.
    IncompleteAttachment,
    /// The framebuffer has no attachment.
    IncompleteMissingAttachment,
    /// The device does not support this combination of attachments.
    Unsupported,
    /// The device gave a status that has no name here.
    Unknown,
}

impl FailureReason {
    /// The text of `describe`.
    pub open spec fn spec_describe(self) -> Seq<char> {
        match self {
            FailureReason::CompileError(log) => log@,
            FailureReason::LinkError(log) => log@,
            FailureReason::IncompleteAttachment => "incomplete attachment"@,
            FailureReason::IncompleteMissingAttachment => "incomplete missing attachment"@,
            FailureReason::Unsupported => "unsupported"@,
            FailureReason::Unknown => "unknown reason"@,
        }
    }

    /// The reason in words: the device's log as it came where there is one,
    /// and a short fixed phrase otherwise.
    pub fn describe(&self) -> (text: String)
        ensures
            text@ == self.spec_describe(),
    {
        match self {
            FailureReason::CompileError(log) => log.clone(),
            FailureReason::LinkError(log) => log.clone(),
            FailureReason::IncompleteAttachment => "incomplete attachment".to_owned(),
            FailureReason::IncompleteMissingAttachment => "incomplete missing attachment".to_owned(),
            FailureReason::Unsupported => "unsupported".to_owned(),
            FailureReason::Unknown => "unknown reason".to_owned(),
        }
    }
}

/// A resource could not be made. No usable object exists, and whatever had
/// been acquired for it has been released.
#[derive(Clone, Debug, PartialEq, Eq)]
pub struct CreationFailed {
    pub kind: ResourceKind,
    pub reason: FailureReason,
}

/// A vertex or instance schema cannot be laid out.
#[derive(Clone, Copy, Debug, PartialEq, Eq, Structural)]
pub enum SchemaError {
    /// The attribute at `index` has `size` components; only 1, 2, 3, 4 and 16
    /// can be laid out.
    UnsupportedAttributeSize { index: usize, size: i32 },
}

/// One mesh cannot hold more vertices than a 16-bit index can address.
#[derive(Clone, Copy, Debug, PartialEq, Eq, Structural)]
pub struct CapacityExceeded;

} // verus!
