//! The host runtime as the `jni` crate exposes it: the outside types that the
//! bridge carries, and one wrapper per `jni` call that the bridge makes.
use vstd::prelude::*;

verus! {

/// A thread-scoped interface into the JVM.
#[verifier::external_type_specification]
#[verifier::external_body]
pub struct ExJNIEnv<'local>(jni::JNIEnv<'local>);

/// The process-wide handle to the JVM.
#[verifier::external_type_specification]
#[verifier::external_body]
pub struct ExJavaVM(jni::JavaVM);

/// What a failing `jni` call reports.
#[verifier::external_type_specification]
#[verifier::external_body]
pub struct ExJniError(jni::errors::Error);

/// Relies on `jni::JNIEnv::get_java_vm`: the JVM that `env` belongs to, or
/// the error that the JVM reported when asked for it.
#[verifier::external_body]
pub(crate) fn java_vm_of(env: &jni::JNIEnv<'_>) -> (r: Result<jni::JavaVM, jni::errors::Error>) {
    env.get_java_vm()
}

/// Relies on `jni::JavaVM::attach_current_thread_permanently`: attaches the
/// calling thread for the rest of its life (a no-op on a thread that is
/// attached already) and hands back its interface, or the error of a refused
/// attachment.
#[verifier::external_body]
pub(crate) fn attach_permanently<'a>(vm: &'a jni::JavaVM) -> (r: Result<
    jni::JNIEnv<'a>,
    jni::errors::Error,
>) {
    vm.attach_current_thread_permanently()
}

/// Relies on `jni::JNIEnv::exception_check`: whether an exception is pending
/// on the calling thread.
#[verifier::external_body]
pub(crate) fn exception_check(env: &jni::JNIEnv<'_>) -> (r: Result<bool, jni::errors::Error>) {
    env.exception_check()
}

/// Relies on `jni::JNIEnv::throw_new`: looks up the class named `class` and
/// makes a new exception of it, with message `message`, the pending one.
#[verifier::external_body]
pub(crate) fn throw_new(env: &mut jni::JNIEnv<'_>, class: &str, message: &str) -> (r: Result<
    (),
    jni::errors::Error,
>) {
    env.throw_new(class, message)
}

/// Relies on the `Display` impl of `jni::errors::Error`: the error's message.
#[verifier::external_body]
pub(crate) fn describe(e: &jni::errors::Error) -> (r: String) {
    e.to_string()
}

} // verus!
