use methcla_client::Error;

#[test]
fn check_passes_code_zero() {
    assert!(Error::check(0, String::new()).is_ok());
}

#[test]
fn check_converts_nonzero_codes_to_native_faults() {
    let r = Error::check(3, "synth def not found".to_string());
    match r {
        Err(Error::NativeFault { code, message }) => {
            assert_eq!(code, 3);
            assert_eq!(message, "synth def not found");
        }
        _ => panic!("expected a native fault"),
    }
}

#[test]
fn to_result_keeps_the_payload_on_success() {
    let r: Result<u32, Error> = Error::to_result(42, 0, String::new());
    assert_eq!(r.unwrap(), 42);
}

#[test]
fn to_result_drops_the_payload_on_failure() {
    let r: Result<u32, Error> = Error::to_result(42, -1, "driver gone".to_string());
    match r {
        Err(Error::NativeFault { code, message }) => {
            assert_eq!(code, -1);
            assert_eq!(message, "driver gone");
        }
        _ => panic!("expected a native fault"),
    }
}
