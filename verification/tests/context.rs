use ferrobot::context::Context;
use ferrobot::context::Error;
use ferrobot::device::ffi::Data;
use ferrobot::device::ffi::DeviceIdentity;
use ferrobot::device::ffi::Type;
use ferrobot::ffi::DeviceDatas;

fn spark(id: u8) -> DeviceIdentity {
    DeviceIdentity { kind: Type::SparkMax, id }
}

fn record(device: DeviceIdentity, data: u32) -> Data<u32> {
    Data { device, data }
}

#[test]
fn registry_reflects_registrations() {
    let mut context: Context<u32> = Context::new();
    let devices = [
        spark(1),
        spark(2),
        DeviceIdentity { kind: Type::NavX, id: 1 },
        DeviceIdentity { kind: Type::XboxController, id: 0 },
    ];
    for (count, device) in devices.iter().enumerate() {
        assert!(!context.device_exists(device));
        assert_eq!(context.add_device(device), Ok(()));
        for (index, other) in devices.iter().enumerate() {
            assert_eq!(context.device_exists(other), index <= count);
        }
    }
    assert!(!context.device_exists(&spark(3)));
}

#[test]
fn duplicate_registration_is_refused() {
    let mut context: Context<u32> = Context::new();
    assert_eq!(context.add_device(&spark(7)), Ok(()));
    assert_eq!(
        context.add_device(&spark(7)),
        Err(Error::DeviceAlreadyRegistered(Type::SparkMax, 7))
    );
    assert!(context.device_exists(&spark(7)));
    assert!(!context.device_exists(&DeviceIdentity { kind: Type::NavX, id: 7 }));
}

#[test]
fn replace_then_data_returns_the_snapshot() {
    let mut context: Context<u32> = Context::new();
    context.replace(DeviceDatas::new(vec![record(spark(1), 10), record(spark(2), 20)]));
    assert_eq!(context.data(&spark(1)), Some(&10));
    assert_eq!(context.data(&spark(2)), Some(&20));
    assert_eq!(context.data(&spark(3)), None);

    context.replace(DeviceDatas::new(vec![record(spark(2), 21), record(spark(3), 31)]));
    assert_eq!(context.data(&spark(1)), None);
    assert_eq!(context.data(&spark(2)), Some(&21));
    assert_eq!(context.data(&spark(3)), Some(&31));
}

#[test]
fn last_record_of_a_device_wins() {
    let mut context: Context<u32> = Context::new();
    context.replace(DeviceDatas::new(vec![
        record(spark(1), 10),
        record(spark(2), 20),
        record(spark(1), 11),
    ]));
    assert_eq!(context.data(&spark(1)), Some(&11));
    assert_eq!(context.data(&spark(2)), Some(&20));
}

#[test]
fn replace_plans_one_emission_for_each_registered_device() {
    let mut context: Context<u32> = Context::new();
    context.add_device(&spark(1)).unwrap();
    context.add_device(&spark(3)).unwrap();
    let plan = context.replace(DeviceDatas::new(vec![
        record(spark(3), 30),
        record(spark(2), 20),
        record(spark(1), 10),
        record(spark(3), 31),
    ]));
    assert_eq!(plan, vec![spark(3), spark(1)]);
    assert!(context.device_exists(&spark(1)));
    assert!(!context.device_exists(&spark(2)));
}

#[test]
fn empty_snapshot_clears_the_cache() {
    let mut context: Context<u32> = Context::new();
    context.add_device(&spark(1)).unwrap();
    context.replace(DeviceDatas::new(vec![record(spark(1), 10)]));
    let plan = context.replace(DeviceDatas::new(Vec::new()));
    assert!(plan.is_empty());
    assert_eq!(context.data(&spark(1)), None);
    assert!(context.device_exists(&spark(1)));
}

#[test]
fn into_vec_keeps_the_order() {
    let datas = DeviceDatas::new(vec![record(spark(2), 20), record(spark(1), 10)]);
    let records = datas.into_vec();
    assert_eq!(records.len(), 2);
    assert_eq!(records[0].device, spark(2));
    assert_eq!(records[0].data, 20);
    assert_eq!(records[1].device, spark(1));
    assert_eq!(records[1].data, 10);
}

#[test]
fn device_keys_are_distinct() {
    let mut keys = Vec::new();
    for kind in [Type::SparkMax, Type::NavX, Type::XboxController] {
        for id in 0..=255u8 {
            keys.push(DeviceIdentity { kind, id }.key());
        }
    }
    let total = keys.len();
    keys.sort();
    keys.dedup();
    assert_eq!(keys.len(), total);
    assert_eq!(DeviceIdentity { kind: Type::NavX, id: 5 }.key(), 261);
}
