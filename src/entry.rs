//! The computations behind the entry points that the host calls. Their
//! exported symbols, with the host's calling convention, live with the
//! program that links this library; each hands its arguments on to the
//! function of the same name here.
use vstd::prelude::*;

use crate::host::{describe, java_vm_of};
use crate::registry::{HostRegistry, RegistryError};
use crate::translator::{
    error_crossed, unwrap_or_throw, Crossing, ExceptionRequest, FatalError, NativeError,
    RUNTIME_EXCEPTION,
};

verus! {

/// Description of the error that a second startup call reports.
pub const ALREADY_INITIALIZED: &'static str = "the host runtime handle is already initialized";

/// The step of the startup call that follows the host's answer `vm` to the
/// request for its JVM. A handle given to an empty registry is stored, and
/// the call goes on without any further host call. A failure to obtain it,
/// and a handle offered to a registry that holds one already, go through the
/// exception protocol as a `java/lang/RuntimeException`, and the registry is
/// left as it was.
pub fn capture_vm(
    env: &mut jni::JNIEnv<'_>,
    registry: &mut HostRegistry,
    vm: Result<jni::JavaVM, NativeError>,
) -> (r: Result<(Crossing<(), ()>, Option<ExceptionRequest>), FatalError>)
    ensures
        match vm {
            Ok(v) => if old(registry).handle() is None {
                &&& r == Ok::<(Crossing<(), ()>, Option<ExceptionRequest>), FatalError>(
                    (Crossing::Proceed(()), None),
                )
                &&& final(registry).handle() == Some(v)
            } else {
                &&& final(registry).handle() == old(registry).handle()
                &&& error_crossed(r, ALREADY_INITIALIZED@, RUNTIME_EXCEPTION@, ())
            },
            Err(e) => {
                &&& final(registry).handle() == old(registry).handle()
                &&& error_crossed(r, e.description@, RUNTIME_EXCEPTION@, ())
            },
        },
{
    match vm {
        Err(e) => unwrap_or_throw::<(), ()>(env, Err(e), RUNTIME_EXCEPTION, ()),
        Ok(v) => match registry.initialize(v) {
            Ok(()) => Ok((Crossing::Proceed(()), None)),
            Err(RegistryError::AlreadyInitialized) => {
                let failure = NativeError { description: ALREADY_INITIALIZED.to_owned() };
                unwrap_or_throw::<(), ()>(env, Err(failure), RUNTIME_EXCEPTION, ())
            },
        },
    }
}

/// The startup call: asks the JVM behind `env` for its handle and captures
/// it in `registry` (see `capture_vm`). Only the first successful capture
/// takes; every failure leaves the registry as it was and raises, unless an
/// exception is already pending, one `java/lang/RuntimeException`.
#[allow(non_snake_case)]
pub fn Java_io_questdb_std_Os_initRust(
    env: &mut jni::JNIEnv<'_>,
    registry: &mut HostRegistry,
) -> (r: Result<(Crossing<(), ()>, Option<ExceptionRequest>), FatalError>)
    ensures
        (r matches Ok((Crossing::Proceed(_), _))) <==> (old(registry).handle() is None && final(registry).handle() is Some),
        !(r matches Ok((Crossing::Proceed(_), _))) ==> final(registry).handle() == old(registry).handle(),
        match r {
            Ok((c, req)) => (c is Raised <==> req is Some) && match req {
                Some(x) => x.class@ == RUNTIME_EXCEPTION@,
                None => true,
            },
            Err(f) => f is ExceptionQueryFailed || f is ThrowFailed,
        },
{
    let vm = match java_vm_of(env) {
        Ok(vm) => Ok(vm),
        Err(e) => Err(NativeError { description: describe(&e) }),
    };
    capture_vm(env, registry, vm)
}

/// The smoke-test entry point: the sum of its two arguments.
#[allow(non_snake_case)]
pub fn Java_io_questdb_std_Os_rustSmokeTest(a: i64, b: i64) -> (r: i64)
    requires
        i64::MIN <= a + b <= i64::MAX,
    ensures
        r == a + b,
{
    a + b
}

/// The capability query for the build profile: true exactly for a build
/// without debug assertions. It reads nothing else and changes nothing.
#[allow(non_snake_case)]
pub fn Java_io_questdb_std_Os_isRustReleaseBuild(debug_assertions: bool) -> (r: bool)
    ensures
        r == !debug_assertions,
{
    !debug_assertions
}

} // verus!
