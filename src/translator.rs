//! The exception protocol applied wherever a native entry point hands a
//! fallible result back to the host.
use vstd::prelude::*;

use crate::host::{describe, exception_check, throw_new};

verus! {

/// Class of the exception raised when the caller names no other.
pub const RUNTIME_EXCEPTION: &'static str = "java/lang/RuntimeException";

/// A failure of a native computation, with its human-readable description.
pub struct NativeError {
    pub description: String,
}

/// An exception that the host is asked to raise: its class and its message.
pub struct ExceptionRequest {
    pub class: String,
    pub message: String,
}

impl ExceptionRequest {
    pub open spec fn view(&self) -> (Seq<char>, Seq<char>) {
        (self.class@, self.message@)
    }
}

/// What an entry point does once a fallible result has crossed the boundary.
pub enum Crossing<T, S> {
    /// The result was a value: the entry point goes on with it.
    Proceed(T),
    /// The result was an error while an exception was already pending: the
    /// pending one is left alone and the entry point returns the sentinel.
    Deferred(S),
    /// The result was an error and no exception was pending: a new one was
    /// raised and the entry point returns the sentinel.
    Raised(S),
}

/// The crossing that the protocol prescribes for `result`, given whether the
/// host already holds a pending exception.
pub open spec fn crossing_of<T, S>(
    result: Result<T, NativeError>,
    exception_pending: bool,
    sentinel: S,
) -> Crossing<T, S> {
    match result {
        Ok(v) => Crossing::Proceed(v),
        Err(_) => if exception_pending {
            Crossing::Deferred(sentinel)
        } else {
            Crossing::Raised(sentinel)
        },
    }
}

/// The exception (class, message) that the protocol asks the host to raise,
/// if any: one exactly when an error meets an empty pending slot.
pub open spec fn raised_exception<T>(
    result: Result<T, NativeError>,
    exception_pending: bool,
    fallback_class: Seq<char>,
) -> Option<(Seq<char>, Seq<char>)> {
    match result {
        Ok(_) => None,
        Err(e) => if exception_pending {
            None
        } else {
            Some((fallback_class, e.description@))
        },
    }
}

/// The (class, message) of an optional exception request.
pub open spec fn request_view(r: Option<ExceptionRequest>) -> Option<(Seq<char>, Seq<char>)> {
    match r {
        Some(x) => Some(x@),
        None => None,
    }
}

/// Whether `needle` occurs in `text` as a contiguous run.
pub open spec fn contains_run(text: Seq<char>, needle: Seq<char>) -> bool {
    exists|i: int|
        0 <= i && i + needle.len() <= text.len() && #[trigger] text.subrange(i, i + needle.len())
            == needle
}

/// An error that meets an empty pending-exception slot raises exactly one
/// exception, of the fallback class, whose message contains the error's
/// description; the entry point then returns its sentinel.
pub proof fn error_raises_one_exception<T, S>(e: NativeError, fallback_class: Seq<char>, sentinel: S)
    ensures
        raised_exception(Err::<T, NativeError>(e), false, fallback_class) matches Some(x) && x.0
            == fallback_class && contains_run(x.1, e.description@),
        crossing_of(Err::<T, NativeError>(e), false, sentinel) == Crossing::<T, S>::Raised(sentinel),
{
    let d = e.description@;
    assert(d.subrange(0int, 0int + d.len()) =~= d);
    assert(contains_run(d, d));
}

/// With an exception already pending, no exception is raised, whatever the
/// result: the pending one is neither replaced nor stacked upon, and an error
/// still ends the call with the sentinel.
pub proof fn pending_exception_is_left_alone<T, S>(
    result: Result<T, NativeError>,
    fallback_class: Seq<char>,
    sentinel: S,
)
    ensures
        raised_exception(result, true, fallback_class) is None,
        result is Err ==> crossing_of(result, true, sentinel) == Crossing::<T, S>::Deferred(sentinel),
{
}

/// Decides how `result` crosses back into the host. `exception_pending` is
/// what the host reported of its pending-exception slot. Returns the crossing
/// and the exception, if any, that the host must now be asked to raise.
pub fn resolve<T, S>(
    result: Result<T, NativeError>,
    exception_pending: bool,
    fallback_class: &str,
    sentinel: S,
) -> (r: (Crossing<T, S>, Option<ExceptionRequest>))
    ensures
        r.0 == crossing_of(result, exception_pending, sentinel),
        request_view(r.1) == raised_exception(result, exception_pending, fallback_class@),
{
    match result {
        Ok(v) => (Crossing::Proceed(v), None),
        Err(e) => {
            if exception_pending {
                (Crossing::Deferred(sentinel), None)
            } else {
                let request = ExceptionRequest {
                    class: fallback_class.to_owned(),
                    message: e.description,
                };
                (Crossing::Raised(sentinel), Some(request))
            }
        },
    }
}

/// A condition after which the current call cannot go on talking to the host.
pub enum FatalError {
    /// The calling thread could not be attached to the host runtime.
    AttachFailed(String),
    /// The host could not report its pending-exception slot.
    ExceptionQueryFailed(String),
    /// The host could not raise the fallback exception.
    ThrowFailed(String),
}

/// What an error that crossed the boundary may have led to: either the host
/// reported a pending exception, which was left alone (no request, sentinel
/// `Deferred`), or it reported none and exactly one exception of `class`
/// carrying `description` was raised (sentinel `Raised`); or the host itself
/// failed while being asked.
pub open spec fn error_crossed<T, S>(
    r: Result<(Crossing<T, S>, Option<ExceptionRequest>), FatalError>,
    description: Seq<char>,
    class: Seq<char>,
    sentinel: S,
) -> bool {
    match r {
        Ok((c, req)) => (c == Crossing::<T, S>::Deferred(sentinel) && req is None) || (c
            == Crossing::<T, S>::Raised(sentinel) && request_view(req) == Some((class, description))),
        Err(f) => f is ExceptionQueryFailed || f is ThrowFailed,
    }
}

/// Runs the exception protocol on the host behind `env`: a value passes
/// through untouched, with no call to the host; an error asks the host
/// whether an exception is pending and raises a `fallback_class` exception
/// carrying the error's description only when none is. Returns the crossing,
/// whose sentinel the entry point returns on an error, and the exception
/// that was raised, if any.
pub fn unwrap_or_throw<T, S>(
    env: &mut jni::JNIEnv<'_>,
    result: Result<T, NativeError>,
    fallback_class: &str,
    sentinel: S,
) -> (r: Result<(Crossing<T, S>, Option<ExceptionRequest>), FatalError>)
    ensures
        match result {
            Ok(v) => r == Ok::<(Crossing<T, S>, Option<ExceptionRequest>), FatalError>(
                (Crossing::Proceed(v), None),
            ),
            Err(e) => error_crossed(r, e.description@, fallback_class@, sentinel),
        },
{
    match result {
        Ok(v) => Ok((Crossing::Proceed(v), None)),
        Err(e) => {
            let pending = match exception_check(env) {
                Ok(p) => p,
                Err(x) => {
                    return Err(FatalError::ExceptionQueryFailed(describe(&x)));
                },
            };
            let (crossing, request) = resolve::<T, S>(Err(e), pending, fallback_class, sentinel);
            match request {
                Some(req) => match throw_new(env, req.class.as_str(), req.message.as_str()) {
                    Ok(()) => Ok((crossing, Some(req))),
                    Err(x) => Err(FatalError::ThrowFailed(describe(&x))),
                },
                None => Ok((crossing, None)),
            }
        },
    }
}

} // verus!
