use ferrobot::context::Context;
use ferrobot::context::Error as ContextError;
use ferrobot::device::ffi::Command;
use ferrobot::device::ffi::CommandBody;
use ferrobot::device::ffi::Data as Record;
use ferrobot::device::ffi::DeviceIdentity;
use ferrobot::device::ffi::Payload;
use ferrobot::device::ffi::Type;
use ferrobot::device::spark::config::AbsoluteEncoderConfig;
use ferrobot::device::spark::config::ClosedLoopConfig;
use ferrobot::device::spark::config::MotorConfig;
use ferrobot::device::spark::config::MotorType;
use ferrobot::device::spark::config::RelativeEncoderConfig;
use ferrobot::device::spark::config::SparkMaxConfig;
use ferrobot::device::spark::ffi::Command as SparkMaxCommand;
use ferrobot::device::spark::ffi::Data;
use ferrobot::device::spark::ffi::Error as FFIError;
use ferrobot::device::spark::ffi::ErrorType;
use ferrobot::device::spark::Error;
use ferrobot::device::spark::SparkMax;
use ferrobot::device::Device;
use ferrobot::ffi::DeviceDatas;
use ferrobot::queue::CommandQueue;
use ferrobot::scalar::Scalar;

fn scalar(value: f64) -> Scalar {
    Scalar::from_bits(value.to_bits())
}

fn config() -> SparkMaxConfig {
    SparkMaxConfig {
        absolute_encoder: AbsoluteEncoderConfig::default(),
        closed_loop: ClosedLoopConfig::default(),
        relative_encoder: RelativeEncoderConfig::default(),
        motor: MotorConfig::new(MotorType::Brushless),
    }
}

fn created(context: &mut Context<Payload>, can_id: u8) -> SparkMax {
    SparkMax::new(context, can_id, config()).unwrap().finish(Ok(())).unwrap()
}

fn addressed(can_id: u8, command: SparkMaxCommand) -> Command {
    Command {
        device: DeviceIdentity { kind: Type::SparkMax, id: can_id },
        command: CommandBody::SparkMax(command),
    }
}

#[test]
fn set_output_out_of_range_queues_nothing() {
    let mut context = Context::new();
    let mut queue = CommandQueue::new();
    let motor = created(&mut context, 4);
    match motor.set_output(&context, &mut queue, scalar(1.5)) {
        Err(Error::InvalidOutput(rejected)) => assert_eq!(f64::from_bits(rejected.to_bits()), 1.5),
        other => panic!("expected a validation error, got {:?}", other),
    }
    assert!(queue.is_empty());
}

#[test]
fn set_output_in_range_queues_one_command() {
    let mut context = Context::new();
    let mut queue = CommandQueue::new();
    let motor = created(&mut context, 4);
    assert!(motor.set_output(&context, &mut queue, scalar(0.5)).is_ok());
    assert_eq!(
        queue.drain_all(),
        vec![addressed(4, SparkMaxCommand::SetOutput(scalar(0.5)))]
    );
}

#[test]
fn set_output_accepts_the_closed_interval_only() {
    let mut context = Context::new();
    let mut queue = CommandQueue::new();
    let motor = created(&mut context, 1);
    let accepted = [-1.0, -0.5, -0.0, 0.0, f64::MIN_POSITIVE, 5e-324, 0.999_999, 1.0];
    let rejected = [
        1.000_000_000_000_000_2,
        -1.000_000_000_000_000_2,
        2.0,
        -7.5,
        f64::MAX,
        f64::INFINITY,
        f64::NEG_INFINITY,
        f64::NAN,
        -f64::NAN,
    ];
    for value in accepted {
        assert!((-1.0..=1.0).contains(&value));
        assert!(motor.set_output(&context, &mut queue, scalar(value)).is_ok(), "{}", value);
    }
    assert_eq!(queue.len(), accepted.len());
    for value in rejected {
        assert!(!(-1.0..=1.0).contains(&value));
        assert!(
            matches!(
                motor.set_output(&context, &mut queue, scalar(value)),
                Err(Error::InvalidOutput(_))
            ),
            "{}",
            value
        );
    }
    assert_eq!(queue.len(), accepted.len());
}

#[test]
fn set_position_and_velocity_queue_in_order() {
    let mut context = Context::new();
    let mut queue = CommandQueue::new();
    let motor = created(&mut context, 9);
    assert!(motor.set_position(&context, &mut queue, scalar(12.5)).is_ok());
    assert!(motor.set_velocity(&context, &mut queue, scalar(-3000.0)).is_ok());
    assert_eq!(
        queue.drain_all(),
        vec![
            addressed(9, SparkMaxCommand::SetPosition(scalar(12.5))),
            addressed(9, SparkMaxCommand::SetVelocity(scalar(-3000.0))),
        ]
    );
}

#[test]
fn commands_to_an_unregistered_controller_are_refused() {
    let mut context = Context::new();
    let motor = created(&mut context, 2);
    let elsewhere: Context<Payload> = Context::new();
    let mut queue = CommandQueue::new();
    match motor.set_position(&elsewhere, &mut queue, scalar(1.0)) {
        Err(Error::Context(source)) => {
            assert_eq!(source, ContextError::DeviceNotFound(Type::SparkMax, 2))
        }
        other => panic!("expected an unknown device, got {:?}", other),
    }
    assert!(queue.is_empty());
}

#[test]
fn new_registers_and_prepares_the_create_command() {
    let mut context: Context<Payload> = Context::new();
    let pending = SparkMax::new(&mut context, 3, config()).unwrap();
    assert!(context.device_exists(&DeviceIdentity { kind: Type::SparkMax, id: 3 }));
    assert_eq!(pending.command(), addressed(3, SparkMaxCommand::Create(config())));
    assert!(pending.command().is_consistent());
    let motor = pending.finish(Ok(())).unwrap();
    assert_eq!(motor.id(), 3);
    assert_eq!(motor.can_id(), 3);
    assert_eq!(SparkMax::kind(), Type::SparkMax);
}

#[test]
fn new_refuses_a_number_that_is_taken() {
    let mut context: Context<Payload> = Context::new();
    let _first = created(&mut context, 3);
    match SparkMax::new(&mut context, 3, config()) {
        Err(Error::Context(source)) => {
            assert_eq!(source, ContextError::DeviceAlreadyRegistered(Type::SparkMax, 3))
        }
        other => panic!("expected a duplicate, got {:?}", other),
    }
    assert!(SparkMax::new(&mut context, 4, config()).is_ok());
}

#[test]
fn host_error_is_passed_on() {
    let mut context: Context<Payload> = Context::new();
    let pending = SparkMax::new(&mut context, 3, config()).unwrap();
    let reported =
        FFIError { kind: ErrorType::BadConfig, message: Some("no such motor".to_string()) };
    match pending.finish(Err(reported)) {
        Err(Error::FFI(source)) => {
            assert_eq!(source.kind, ErrorType::BadConfig);
            assert_eq!(source.message.as_deref(), Some("no such motor"));
        }
        other => panic!("expected the host's error, got {:?}", other),
    }
    assert!(context.device_exists(&DeviceIdentity { kind: Type::SparkMax, id: 3 }));
}

#[test]
fn data_reads_the_cache() {
    let mut context: Context<Payload> = Context::new();
    let motor = created(&mut context, 5);
    assert_eq!(motor.data(&context), None);
    let telemetry = Data {
        connected: true,
        output: scalar(0.25),
        position: scalar(10.0),
        velocity: scalar(120.0),
        current: scalar(1.5),
    };
    context.replace(DeviceDatas::new(vec![Record {
        device: DeviceIdentity { kind: Type::SparkMax, id: 5 },
        data: Payload::SparkMax(telemetry),
    }]));
    assert_eq!(motor.data(&context), Some(telemetry));
}
