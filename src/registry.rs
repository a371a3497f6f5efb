//! The process-wide handle to the host runtime: written once, then read by
//! every entry point that needs a thread-scoped interface.
use vstd::prelude::*;

use crate::host::{attach_permanently, describe};
use crate::translator::FatalError;

verus! {

/// Why a second handle was refused.
#[derive(PartialEq, Eq, Structural, Debug)]
pub enum RegistryError {
    /// The registry already holds a handle; it is kept.
    AlreadyInitialized,
}

/// Holds the handle to the host runtime once it has been captured.
pub struct HostRegistry {
    vm: Option<jni::JavaVM>,
}

impl HostRegistry {
    /// The handle held, if any.
    pub closed spec fn handle(&self) -> Option<jni::JavaVM> {
        self.vm
    }

    /// A registry that holds no handle yet.
    pub fn new() -> (r: Self)
        ensures
            r.handle() is None,
    {
        HostRegistry { vm: None }
    }

    pub fn is_initialized(&self) -> (r: bool)
        ensures
            r == self.handle() is Some,
    {
        self.vm.is_some()
    }

    /// Captures `vm` as the process-wide handle. Only the first capture
    /// takes: on a registry that holds a handle already, nothing changes and
    /// the call is refused.
    pub fn initialize(&mut self, vm: jni::JavaVM) -> (r: Result<(), RegistryError>)
        ensures
            old(self).handle() is None ==> r is Ok && final(self).handle() == Some(vm),
            old(self).handle() is Some ==> r == Err::<(), RegistryError>(
                RegistryError::AlreadyInitialized,
            ) && final(self).handle() == old(self).handle(),
    {
        if self.vm.is_some() {
            Err(RegistryError::AlreadyInitialized)
        } else {
            self.vm = Some(vm);
            Ok(())
        }
    }
}

/// The interface of the calling thread into the host runtime, attaching the
/// thread permanently on its first call (later calls reuse that
/// attachment). Before initialization there is none, and nothing is asked of
/// the host. The registry is only read, so any number of threads may call
/// this at once.
pub fn get_jenv<'a>(registry: &'a HostRegistry) -> (r: Result<
    Option<jni::JNIEnv<'a>>,
    FatalError,
>)
    ensures
        registry.handle() is None ==> r matches Ok(None),
        registry.handle() is Some ==> match r {
            Ok(env) => env is Some,
            Err(f) => f is AttachFailed,
        },
{
    match &registry.vm {
        None => Ok(None),
        Some(vm) => match attach_permanently(vm) {
            Ok(env) => Ok(Some(env)),
            Err(e) => Err(FatalError::AttachFailed(describe(&e))),
        },
    }
}

} // verus!
