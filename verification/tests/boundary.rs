use ferrobot::bridge::Context as LoopContext;
use ferrobot::bridge::RobotMode;
use ferrobot::context::Context;
use ferrobot::device::ffi::Command;
use ferrobot::device::ffi::CommandBody;
use ferrobot::device::ffi::Data;
use ferrobot::device::ffi::DeviceIdentity;
use ferrobot::device::ffi::Payload;
use ferrobot::device::ffi::Type;
use ferrobot::device::spark::config::AbsoluteEncoderConfig;
use ferrobot::device::spark::config::ClosedLoopConfig;
use ferrobot::device::spark::config::MotorConfig;
use ferrobot::device::spark::config::MotorType;
use ferrobot::device::spark::config::RelativeEncoderConfig;
use ferrobot::device::spark::config::SparkMaxConfig;
use ferrobot::device::spark::ffi::Command as SparkMaxCommand;
use ferrobot::device::spark::ffi::CommandType;
use ferrobot::device::spark::ffi::Data as SparkMaxData;
use ferrobot::device::spark::SparkMax;
use ferrobot::device::Device;
use ferrobot::event::Action;
use ferrobot::event::Event;
use ferrobot::event::EventExt;
use ferrobot::event::EventKey;
use ferrobot::ffi::DeviceDatas;
use ferrobot::ffi::FFIData;
use ferrobot::ffi::Response;
use ferrobot::scalar::Scalar;
use ferrobot::Core;

type Mapping = fn(&Payload) -> Payload;

fn scalar(value: f64) -> Scalar {
    Scalar::from_bits(value.to_bits())
}

fn config() -> SparkMaxConfig {
    SparkMaxConfig {
        absolute_encoder: AbsoluteEncoderConfig::default(),
        closed_loop: ClosedLoopConfig::default(),
        relative_encoder: RelativeEncoderConfig::default(),
        motor: MotorConfig::new(MotorType::Brushed),
    }
}

fn telemetry(position: f64) -> Payload {
    Payload::SparkMax(SparkMaxData {
        connected: true,
        output: scalar(0.0),
        position: scalar(position),
        velocity: scalar(0.0),
        current: scalar(0.0),
    })
}

fn disconnect(payload: &Payload) -> Payload {
    let Payload::SparkMax(data) = payload;
    Payload::SparkMax(SparkMaxData { connected: false, ..*data })
}

#[test]
fn a_started_core_is_empty() {
    let mut core: Core<Payload, &str, &str, Mapping> = ferrobot::start_thread();
    let spark = DeviceIdentity { kind: Type::SparkMax, id: 0 };
    assert!(!core.context.device_exists(&spark));
    assert_eq!(core.context.data(&spark), None);
    assert!(core.queue.is_empty());
    let data = telemetry(0.0);
    assert!(core.emitter.emit(&EventKey::Device(spark), &data).is_empty());
    assert!(ferrobot::collect(Some(&mut core.queue)).is_empty());
}

#[test]
fn a_tick_from_supply_to_collect() {
    let mut core: Core<Payload, &str, &str, Mapping> = ferrobot::start_thread();
    let motor = SparkMax::new(&mut core.context, 6, config()).unwrap().finish(Ok(())).unwrap();
    motor.register(&mut core.emitter, "watch");
    let derived = EventKey::Instance { type_id: 1, instance: 1 };
    core.emitter.register_trigger(&motor.event_key(), derived, disconnect);

    let identity = DeviceIdentity { kind: Type::SparkMax, id: 6 };
    let stranger = DeviceIdentity { kind: Type::SparkMax, id: 7 };
    let plan = ferrobot::supply(
        Some(&mut core.context),
        FFIData {
            devices: DeviceDatas::new(vec![
                Data { device: stranger, data: telemetry(1.0) },
                Data { device: identity, data: telemetry(2.0) },
            ]),
        },
    );
    assert_eq!(plan, vec![identity]);

    let payload = *core.context.data(&plan[0]).unwrap();
    assert_eq!(payload, telemetry(2.0));
    let actions = core.emitter.emit_device(&motor, &payload);
    assert_eq!(actions.len(), 2);
    assert!(matches!(actions[0], Action::Invoke { handler, .. } if *handler == "watch"));
    match &actions[1] {
        Action::Emit { target, data } => {
            assert_eq!(*target, derived);
            assert_eq!(*data, disconnect(&telemetry(2.0)));
        }
        _ => panic!("the trigger emits"),
    }

    motor.set_position(&core.context, &mut core.queue, scalar(3.5)).unwrap();
    motor.set_output(&core.context, &mut core.queue, scalar(-1.0)).unwrap();
    let commands = ferrobot::collect(Some(&mut core.queue));
    assert_eq!(
        commands,
        vec![
            Command {
                device: identity,
                command: CommandBody::SparkMax(SparkMaxCommand::SetPosition(scalar(3.5)))
            },
            Command {
                device: identity,
                command: CommandBody::SparkMax(SparkMaxCommand::SetOutput(scalar(-1.0)))
            },
        ]
    );
    assert!(ferrobot::collect(Some(&mut core.queue)).is_empty());
}

#[test]
fn events_subscribe_by_themselves() {
    let mut core: Core<Payload, &str, &str, Mapping> = ferrobot::start_thread();
    let first = SparkMax::new(&mut core.context, 1, config()).unwrap().finish(Ok(())).unwrap();
    let second = SparkMax::new(&mut core.context, 2, config()).unwrap().finish(Ok(())).unwrap();
    assert_eq!(
        first.event_key(),
        EventKey::Device(DeviceIdentity { kind: Type::SparkMax, id: 1 })
    );
    first.register_fallible(&mut core.emitter, "risky", "report");
    first.trigger(&mut core.emitter, &second);
    second.register(&mut core.emitter, "listener");

    let data = telemetry(0.0);
    let plan = core.emitter.emit_device(&first, &data);
    assert_eq!(plan.len(), 2);
    assert!(matches!(
        plan[0],
        Action::InvokeFallible { handler, on_err, .. }
            if *handler == "risky" && *on_err == "report"
    ));
    assert!(matches!(plan[1], Action::Forward { target, .. } if target == second.event_key()));
    let onward = core.emitter.emit(&second.event_key(), &data);
    assert!(matches!(onward[0], Action::Invoke { handler, .. } if *handler == "listener"));
}

#[test]
fn before_the_start_nothing_is_supplied_or_collected() {
    let identity = DeviceIdentity { kind: Type::SparkMax, id: 6 };
    let records = vec![Data { device: identity, data: telemetry(1.0) }];
    let data = FFIData { devices: DeviceDatas::new(records) };
    assert!(ferrobot::supply(None, data).is_empty());
    assert!(ferrobot::collect(None).is_empty());
}

#[test]
fn response_reads_as_a_result() {
    assert_eq!(Response { ok: true, data: 5 }.into_result(), Ok(5));
    assert_eq!(Response { ok: false, data: 5 }.into_result(), Err(5));
}

#[test]
fn commands_know_their_kind() {
    let mut context: Context<Payload> = Context::new();
    let motor = SparkMax::new(&mut context, 8, config()).unwrap().finish(Ok(())).unwrap();
    let body = CommandBody::SparkMax(SparkMaxCommand::set_velocity(scalar(10.0)));
    let command = Command::new(&motor, body);
    assert_eq!(command.device, DeviceIdentity { kind: Type::SparkMax, id: 8 });
    assert_eq!(command.command, body);
    assert!(command.is_consistent());
    let elsewhere = DeviceIdentity { kind: Type::NavX, id: 8 };
    let misaddressed = Command { device: elsewhere, command: body };
    assert!(!misaddressed.is_consistent());
    assert_eq!(body.kind(), Type::SparkMax);
    assert_eq!(telemetry(0.0).kind(), Type::SparkMax);
    assert_eq!(SparkMaxCommand::set_position(scalar(1.0)).kind(), CommandType::SetPosition);
    assert_eq!(SparkMaxCommand::set_velocity(scalar(1.0)).kind(), CommandType::SetVelocity);
    assert_eq!(SparkMaxCommand::set_output(scalar(1.0)).kind(), CommandType::SetOutput);
    assert_eq!(SparkMaxCommand::create(config()).kind(), CommandType::Create);
    assert_eq!(DeviceIdentity::of(&motor), DeviceIdentity { kind: Type::SparkMax, id: 8 });
    assert_eq!(SparkMax::kind().code(), 0);
    assert_eq!((Type::NavX.code(), Type::XboxController.code()), (1, 2));
}

#[test]
fn context_commands_need_a_registered_device() {
    let mut context: Context<Payload> = Context::new();
    let known = DeviceIdentity { kind: Type::SparkMax, id: 1 };
    let unknown = DeviceIdentity { kind: Type::SparkMax, id: 2 };
    context.add_device(&known).unwrap();
    let body = CommandBody::SparkMax(SparkMaxCommand::set_output(scalar(0.0)));
    assert_eq!(context.command(&known, body), Ok(Command { device: known, command: body }));
    assert_eq!(
        context.command(&unknown, body),
        Err(ferrobot::context::Error::DeviceNotFound(Type::SparkMax, 2))
    );
}

#[test]
fn a_robot_starts_disabled() {
    assert_eq!(RobotMode::default(), RobotMode::Disabled);
    let context = LoopContext::new();
    assert_eq!(context.read.mode, RobotMode::Disabled);
    assert!(context.write.devices.is_empty());
}
