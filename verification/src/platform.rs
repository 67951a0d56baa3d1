use vstd::prelude::*;

verus! {

/// The operating system the controller runs on. Service handling, the sidecar
/// process and a few settings differ from one to the next.
#[derive(Debug, Clone, Copy, PartialEq, Eq, Structural)]
pub enum Platform {
    Windows,
    MacOs,
    Linux,
}

} // verus!
