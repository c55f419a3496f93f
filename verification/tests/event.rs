use ferrobot::device::ffi::DeviceIdentity;
use ferrobot::device::ffi::Type;
use ferrobot::event::Action;
use ferrobot::event::Emitter;
use ferrobot::event::EventKey;

type Mapping = fn(&i64) -> i64;

fn double(data: &i64) -> i64 {
    data * 2
}

fn negate(data: &i64) -> i64 {
    -data
}

fn custom(instance: u64) -> EventKey {
    EventKey::Instance { type_id: 1, instance }
}

#[test]
fn emit_invokes_every_handler_in_order() {
    let mut emitter: Emitter<i64, &str, &str, Mapping> = Emitter::new();
    let event = custom(1);
    emitter.register(&event, "h1");
    emitter.register(&event, "h2");
    let plan = emitter.emit(&event, &5);
    assert_eq!(plan.len(), 2);
    assert!(matches!(plan[0], Action::Invoke { handler, data } if *handler == "h1" && *data == 5));
    assert!(matches!(plan[1], Action::Invoke { handler, data } if *handler == "h2" && *data == 5));
}

#[test]
fn emit_without_subscribers_sets_nothing_off() {
    let mut emitter: Emitter<i64, &str, &str, Mapping> = Emitter::new();
    emitter.register(&custom(1), "h1");
    assert!(emitter.emit(&custom(2), &5).is_empty());
    assert!(emitter.emit(&EventKey::Instance { type_id: 2, instance: 1 }, &5).is_empty());
}

#[test]
fn trigger_emits_the_mapped_data_once() {
    let mut emitter: Emitter<i64, &str, &str, Mapping> = Emitter::new();
    let source = custom(1);
    let derived = custom(2);
    emitter.register_trigger(&source, derived, double);
    emitter.register(&derived, "listener");

    let plan = emitter.emit(&source, &21);
    assert_eq!(plan.len(), 1);
    match &plan[0] {
        Action::Emit { target, data } => {
            assert_eq!(*target, derived);
            assert_eq!(*data, 42);
            let onward = emitter.emit(target, data);
            assert_eq!(onward.len(), 1);
            assert!(matches!(
                onward[0],
                Action::Invoke { handler, data } if *handler == "listener" && *data == 42
            ));
        }
        _ => panic!("a trigger emits on its target"),
    }
}

#[test]
fn triggers_chain() {
    let mut emitter: Emitter<i64, &str, &str, Mapping> = Emitter::new();
    emitter.register_trigger(&custom(1), custom(2), double);
    emitter.register_trigger(&custom(2), custom(3), negate);
    let first = emitter.emit(&custom(1), &4);
    let Action::Emit { target, data } = &first[0] else { panic!("no emission") };
    assert_eq!((*target, *data), (custom(2), 8));
    let second = emitter.emit(target, data);
    let Action::Emit { target, data } = &second[0] else { panic!("no emission") };
    assert_eq!((*target, *data), (custom(3), -8));
}

#[test]
fn fallible_handlers_carry_their_error_callback() {
    let mut emitter: Emitter<i64, &str, &str, Mapping> = Emitter::new();
    let event = custom(9);
    emitter.register_fallible(&event, "risky", "report");
    emitter.register(&event, "steady");
    emitter.trigger(&event, custom(10));
    let plan = emitter.emit(&event, &0);
    assert_eq!(plan.len(), 3);
    assert!(matches!(
        plan[0],
        Action::InvokeFallible { handler, on_err, data }
            if *handler == "risky" && *on_err == "report" && *data == 0
    ));
    assert!(matches!(plan[1], Action::Invoke { handler, .. } if *handler == "steady"));
    assert!(matches!(
        plan[2],
        Action::Forward { target, data } if target == custom(10) && *data == 0
    ));
}

#[test]
fn channels_are_told_apart_by_key() {
    let mut emitter: Emitter<i64, u8, u8, Mapping> = Emitter::new();
    let device = EventKey::Device(DeviceIdentity { kind: Type::SparkMax, id: 1 });
    let other = EventKey::Device(DeviceIdentity { kind: Type::NavX, id: 1 });
    let low = EventKey::Instance { type_id: 0, instance: 1 };
    emitter.register(&device, 1);
    emitter.register(&other, 2);
    emitter.register(&low, 3);
    emitter.register(&device, 4);
    assert_eq!(emitter.emit(&device, &0).len(), 2);
    assert_eq!(emitter.emit(&other, &0).len(), 1);
    assert_eq!(emitter.emit(&low, &0).len(), 1);
    let codes = [device.code(), other.code(), low.code()];
    assert_eq!(codes[0], 1);
    assert_eq!(codes[1], 257);
    assert_eq!(codes[2], (1u128 << 96) + 1);
    assert_eq!(
        EventKey::Instance { type_id: 3, instance: 7 }.code(),
        (1u128 << 96) + (3u128 << 64) + 7
    );
}
