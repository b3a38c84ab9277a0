//! The scripting runtime's system backend.
use vstd::prelude::*;

verus! {

/// The restricted system backend the scripting runtime runs with: it
/// forwards file, directory, clipboard and module calls to the native
/// backend and refuses the rest.  Its `uiua::SysBackend` behaviour is
/// supplied by the application.
#[derive(Clone, Copy, Debug, PartialEq, Eq, Structural)]
pub struct LimitedBackend;

} // verus!
