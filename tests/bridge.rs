use qdbr::entry::{Java_io_questdb_std_Os_isRustReleaseBuild, Java_io_questdb_std_Os_rustSmokeTest};
use qdbr::registry::{get_jenv, HostRegistry};
use qdbr::translator::{resolve, Crossing, NativeError, RUNTIME_EXCEPTION};

fn error(text: &str) -> NativeError {
    NativeError { description: text.to_string() }
}

#[test]
fn smoke_test_sums_two_integers() {
    assert_eq!(Java_io_questdb_std_Os_rustSmokeTest(2, 3), 5);
    assert_eq!(Java_io_questdb_std_Os_rustSmokeTest(-1, -1), -2);
}

#[test]
fn smoke_test_at_the_edges_of_i64() {
    assert_eq!(Java_io_questdb_std_Os_rustSmokeTest(i64::MAX, 0), i64::MAX);
    assert_eq!(Java_io_questdb_std_Os_rustSmokeTest(i64::MIN, 0), i64::MIN);
    assert_eq!(Java_io_questdb_std_Os_rustSmokeTest(i64::MAX, i64::MIN), -1);
}

#[test]
fn release_query_follows_the_build_profile_alone() {
    let registry = HostRegistry::new();
    for _ in 0..3 {
        assert!(Java_io_questdb_std_Os_isRustReleaseBuild(false));
        assert!(!Java_io_questdb_std_Os_isRustReleaseBuild(true));
    }
    assert!(!registry.is_initialized());
}

#[test]
fn fresh_registry_is_not_initialized() {
    assert!(!HostRegistry::new().is_initialized());
}

#[test]
fn thread_interface_before_initialization_is_empty() {
    let registry = HostRegistry::new();
    assert!(matches!(get_jenv(&registry), Ok(None)));
    assert!(matches!(get_jenv(&registry), Ok(None)));
    assert!(!registry.is_initialized());
}

#[test]
fn value_passes_through_without_exception() {
    let (crossing, request) = resolve::<i64, i64>(Ok(5), false, RUNTIME_EXCEPTION, -1);
    assert!(matches!(crossing, Crossing::Proceed(5)));
    assert!(request.is_none());
    let (crossing, request) = resolve::<i64, i64>(Ok(-2), true, RUNTIME_EXCEPTION, -1);
    assert!(matches!(crossing, Crossing::Proceed(-2)));
    assert!(request.is_none());
}

#[test]
fn disk_full_raises_fallback_exception_and_returns_sentinel() {
    let (crossing, request) =
        resolve::<i64, i64>(Err(error("disk full")), false, RUNTIME_EXCEPTION, -1);
    assert!(matches!(crossing, Crossing::Raised(-1)));
    let request = request.expect("an exception is raised");
    assert_eq!(request.class, "java/lang/RuntimeException");
    assert!(request.message.contains("disk full"));
}

#[test]
fn error_raises_exactly_one_exception_with_its_description() {
    for text in ["", "x", "could not open file: permission denied"] {
        let (crossing, request) = resolve::<u8, ()>(Err(error(text)), false, "java/io/IOException", ());
        assert!(matches!(crossing, Crossing::Raised(())));
        let request = request.expect("an exception is raised");
        assert_eq!(request.class, "java/io/IOException");
        assert_eq!(request.message, text);
    }
}

#[test]
fn pending_exception_is_not_overwritten() {
    let (crossing, request) =
        resolve::<i64, i64>(Err(error("disk full")), true, RUNTIME_EXCEPTION, 0);
    assert!(matches!(crossing, Crossing::Deferred(0)));
    assert!(request.is_none());
}

#[test]
fn unit_sentinel_for_functions_without_a_value() {
    let (crossing, request) = resolve::<(), ()>(Err(error("boom")), false, RUNTIME_EXCEPTION, ());
    assert!(matches!(crossing, Crossing::Raised(())));
    assert_eq!(request.map(|r| r.message), Some("boom".to_string()));
}
