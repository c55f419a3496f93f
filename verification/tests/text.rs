use ferrobot::builder::BuildMode;
use ferrobot::context::Error as ContextError;
use ferrobot::device::ffi::Type;
use ferrobot::device::spark::ffi::Error as FFIError;
use ferrobot::device::spark::ffi::ErrorType;
use ferrobot::text::decimal;
use ferrobot::text::digit;

#[test]
fn decimal_writes_every_byte() {
    for number in 0..=255u8 {
        assert_eq!(decimal(number), format!("{}", number));
    }
}

#[test]
fn digit_writes_every_digit() {
    for value in 0..10u8 {
        assert_eq!(digit(value), format!("{}", value));
    }
}

#[test]
fn context_errors_in_words() {
    assert_eq!(
        ContextError::DeviceNotFound(Type::SparkMax, 7).to_string(),
        "Device (SparkMax 7) not found in context"
    );
    assert_eq!(
        ContextError::DeviceAlreadyRegistered(Type::XboxController, 255).to_string(),
        "Device (XboxController 255) already registered"
    );
    assert_eq!(
        ContextError::DeviceNotFound(Type::NavX, 40).to_string(),
        format!("Device ({:?} {}) not found in context", Type::NavX, 40)
    );
}

#[test]
fn host_errors_in_words() {
    let told =
        FFIError { kind: ErrorType::BadConfig, message: Some("gain out of range".to_string()) };
    assert_eq!(told.to_string(), "Invalid motor configuration: gain out of range");
    let untold = FFIError { kind: ErrorType::MotorExists, message: None };
    assert_eq!(untold.to_string(), "Tried to create existing motor: Unknown error");
    assert_eq!(ErrorType::BadCommand.description(), "Invalid motor command");
}

#[test]
fn host_error_clone_owns_its_message() {
    let first = FFIError { kind: ErrorType::BadCommand, message: Some("no".to_string()) };
    let copy = first.clone();
    drop(first);
    assert_eq!(copy.kind, ErrorType::BadCommand);
    assert_eq!(copy.message.as_deref(), Some("no"));
    let bare = FFIError { kind: ErrorType::BadConfig, message: None }.clone();
    assert_eq!(bare.kind, ErrorType::BadConfig);
    assert_eq!(bare.message, None);
}

#[test]
fn names_of_kinds_and_modes() {
    assert_eq!(Type::SparkMax.name(), "SparkMax");
    assert_eq!(Type::NavX.name(), format!("{:?}", Type::NavX));
    assert_eq!(Type::XboxController.name(), format!("{:?}", Type::XboxController));
    assert_eq!(BuildMode::Debug.to_string(), "debug");
    assert_eq!(BuildMode::Release.to_string(), "release");
}
