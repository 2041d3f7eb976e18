use smarthome::dispatch::dispatch_batch;
use smarthome::dispatch::dispatch_execute;
use smarthome::dispatch::Capability;
use smarthome::dispatch::DeviceState;
use smarthome::dispatch::DispatchError;
use smarthome::dispatch::SimpleRegistry;
use smarthome::fulfillment::execute::Command;
use smarthome::fulfillment::execute::Execute;
use smarthome::fulfillment::execute::CommandType;
use smarthome::fulfillment::execute::Device;
use smarthome::traits::input_selector::InputSelector;

fn registry_with(devices: Vec<(&str, Vec<Capability>)>) -> SimpleRegistry {
    let mut r = SimpleRegistry::new();
    for (id, caps) in devices {
        assert!(r.register(id.to_string(), caps, DeviceState::new()));
    }
    r
}

fn batch(ids: Vec<&str>, execution: Vec<CommandType>) -> Command {
    Command {
        devices: ids.into_iter().map(|id| Device { id: id.to_string() }).collect(),
        execution,
    }
}

#[test]
fn test_cross_product_outcome_order() {
    let mut r = registry_with(vec![
        ("a", vec![Capability::OnOff, Capability::Brightness]),
        ("b", vec![Capability::OnOff, Capability::Brightness]),
    ]);
    let b = batch(
        vec!["a", "b"],
        vec![
            CommandType::OnOff { on: true },
            CommandType::BrightnessAbsolute { brightness: 30 },
            CommandType::Dock,
        ],
    );
    let outcomes = dispatch_batch(&mut r, &b);
    assert_eq!(outcomes.len(), 6);
    let ids: Vec<&str> = outcomes.iter().map(|o| o.device_id.as_str()).collect();
    assert_eq!(ids, vec!["a", "a", "a", "b", "b", "b"]);
    assert_eq!(outcomes[0].result, Ok(()));
    assert_eq!(outcomes[1].result, Ok(()));
    assert_eq!(outcomes[2].result, Err(DispatchError::UnsupportedCommand));
    assert_eq!(outcomes[3].result, Ok(()));
    assert_eq!(outcomes[4].result, Ok(()));
    assert_eq!(outcomes[5].result, Err(DispatchError::UnsupportedCommand));
    assert_eq!(r.device_state("a").unwrap().brightness, 30);
    assert_eq!(r.device_state("b").unwrap().on, true);
}

#[test]
fn test_unregistered_device_is_isolated() {
    let mut r = registry_with(vec![("123", vec![Capability::OnOff])]);
    let b = batch(vec!["123", "456"], vec![CommandType::OnOff { on: true }]);
    let outcomes = dispatch_batch(&mut r, &b);
    assert_eq!(outcomes.len(), 2);
    assert_eq!(outcomes[0].device_id, "123");
    assert_eq!(outcomes[0].result, Ok(()));
    assert_eq!(outcomes[1].device_id, "456");
    assert_eq!(outcomes[1].result, Err(DispatchError::DeviceNotFound));
    assert_eq!(r.device_state("123").unwrap().on, true);
}

#[test]
fn test_unsupported_capability_distinct_from_not_found() {
    let mut r = registry_with(vec![("lock-1", vec![Capability::LockUnlock])]);
    let b = batch(vec!["lock-1"], vec![CommandType::OnOff { on: true }]);
    let outcomes = dispatch_batch(&mut r, &b);
    assert_eq!(outcomes[0].result, Err(DispatchError::UnsupportedCommand));
    assert_ne!(outcomes[0].result, Err(DispatchError::DeviceNotFound));
}

#[test]
fn test_on_off_twice_is_idempotent() {
    let mut r = registry_with(vec![("d", vec![Capability::OnOff])]);
    let b = batch(
        vec!["d"],
        vec![CommandType::OnOff { on: true }, CommandType::OnOff { on: true }],
    );
    let outcomes = dispatch_batch(&mut r, &b);
    assert_eq!(outcomes.len(), 2);
    assert_eq!(outcomes[0].result, Ok(()));
    assert_eq!(outcomes[1].result, Ok(()));
    assert_eq!(r.device_state("d").unwrap().on, true);
}

#[test]
fn test_brightness_out_of_range_is_invalid_parameter() {
    let mut r = registry_with(vec![("d2", vec![Capability::Brightness])]);
    let b = batch(vec!["d2"], vec![CommandType::BrightnessAbsolute { brightness: 150 }]);
    let outcomes = dispatch_batch(&mut r, &b);
    assert_eq!(outcomes[0].result, Err(DispatchError::InvalidParameter));
    assert_eq!(r.device_state("d2").unwrap().brightness, 100);
}

#[test]
fn test_brightness_relative_clamps() {
    let mut r = registry_with(vec![("d3", vec![Capability::Brightness])]);
    let b = batch(
        vec!["d3"],
        vec![
            CommandType::BrightnessRelative {
                brightness_relative_percent: Some(50),
                brightness_relative_weight: None,
            },
            CommandType::BrightnessRelative {
                brightness_relative_percent: Some(-130),
                brightness_relative_weight: None,
            },
            CommandType::BrightnessRelative {
                brightness_relative_percent: None,
                brightness_relative_weight: None,
            },
        ],
    );
    let outcomes = dispatch_batch(&mut r, &b);
    assert_eq!(outcomes[0].result, Ok(()));
    assert_eq!(outcomes[1].result, Ok(()));
    assert_eq!(outcomes[2].result, Err(DispatchError::InvalidParameter));
    assert_eq!(r.device_state("d3").unwrap().brightness, 0);
}

#[test]
fn test_input_selection() {
    let mut r = SimpleRegistry::new();
    let state = DeviceState {
        inputs: vec!["hdmi_1".to_string(), "hdmi_2".to_string()],
        ordered_inputs: true,
        ..DeviceState::new()
    };
    assert!(r.register("tv".to_string(), vec![Capability::InputSelector], state));
    let b = batch(
        vec!["tv"],
        vec![
            CommandType::SetInput { new_input: "hdmi_2".to_string() },
            CommandType::NextInput,
            CommandType::SetInput { new_input: "bogus".to_string() },
        ],
    );
    let outcomes = dispatch_batch(&mut r, &b);
    assert_eq!(outcomes[0].result, Ok(()));
    assert_eq!(outcomes[1].result, Ok(()));
    assert_eq!(outcomes[2].result, Err(DispatchError::UnsupportedInput));
    // set to index 1, then next wraps around to index 0
    assert_eq!(r.device_state("tv").unwrap().current_input, 0);
}

#[test]
fn test_next_input_needs_ordered_inputs() {
    let mut r = SimpleRegistry::new();
    let state = DeviceState {
        inputs: vec!["hdmi_1".to_string()],
        ordered_inputs: false,
        ..DeviceState::new()
    };
    assert!(r.register("tv2".to_string(), vec![Capability::InputSelector], state));
    let b = batch(vec!["tv2"], vec![CommandType::NextInput]);
    let outcomes = dispatch_batch(&mut r, &b);
    assert_eq!(outcomes[0].result, Err(DispatchError::UnsupportedCommand));
}

#[test]
fn test_register_rejects_duplicate_and_malformed() {
    let mut r = SimpleRegistry::new();
    assert!(r.register("x".to_string(), vec![Capability::OnOff], DeviceState::new()));
    assert!(!r.register("x".to_string(), vec![Capability::OnOff], DeviceState::new()));
    let bad = DeviceState { brightness: 400, ..DeviceState::new() };
    assert!(!r.register("y".to_string(), vec![], bad));
    assert_eq!(r.len(), 1);
    assert!(r.is_registered("x"));
    assert!(!r.is_registered("y"));
}

#[test]
fn test_registry_devices_survive_dispatch() {
    let mut r = registry_with(vec![
        ("p", vec![Capability::OnOff]),
        ("q", vec![Capability::LockUnlock]),
    ]);
    let b = batch(
        vec!["q", "p", "ghost"],
        vec![CommandType::LockUnlock { lock: true, follow_up_token: None }],
    );
    let outcomes = dispatch_batch(&mut r, &b);
    assert_eq!(outcomes.len(), 3);
    assert_eq!(r.len(), 2);
    assert!(r.is_registered("p"));
    assert!(r.is_registered("q"));
    assert!(!r.is_registered("ghost"));
    assert_eq!(r.device_state("q").unwrap().locked, true);
}

#[test]
fn test_dispatch_execute_runs_batches_in_order() {
    let mut r = registry_with(vec![
        ("lamp", vec![Capability::OnOff, Capability::Brightness]),
        ("door", vec![Capability::LockUnlock]),
    ]);
    let e = Execute {
        commands: vec![
            batch(vec!["lamp"], vec![CommandType::OnOff { on: true }]),
            batch(
                vec!["door", "lamp"],
                vec![CommandType::LockUnlock { lock: true, follow_up_token: None }],
            ),
        ],
    };
    let outcomes = dispatch_execute(&mut r, &e);
    assert_eq!(outcomes.len(), 3);
    assert_eq!(outcomes[0].device_id, "lamp");
    assert_eq!(outcomes[0].result, Ok(()));
    assert_eq!(outcomes[1].device_id, "door");
    assert_eq!(outcomes[1].result, Ok(()));
    assert_eq!(outcomes[2].device_id, "lamp");
    assert_eq!(outcomes[2].result, Err(DispatchError::UnsupportedCommand));
    assert_eq!(r.device_state("door").unwrap().locked, true);
    assert_eq!(r.device_state("lamp").unwrap().on, true);
}

#[test]
fn test_device_state_input_selector_contract() {
    let mut s = DeviceState {
        inputs: vec!["hdmi_1".to_string(), "hdmi_2".to_string()],
        ordered_inputs: true,
        ..DeviceState::new()
    };
    let available = s.get_available_inputs().unwrap();
    assert_eq!(available.len(), 2);
    assert_eq!(available[0].key, "hdmi_1");
    assert_eq!(s.has_ordered_inputs().unwrap(), Some(true));
    assert_eq!(s.is_command_only_input_selector().unwrap(), None);
    assert_eq!(s.get_current_input().unwrap(), "hdmi_1");
    assert!(s.set_input("hdmi_2".to_string()).is_ok());
    assert_eq!(s.get_current_input().unwrap(), "hdmi_2");
    assert!(s.set_input("vga".to_string()).is_err());
    assert!(s.set_next_input().is_ok());
    assert_eq!(s.get_current_input().unwrap(), "hdmi_1");
    assert!(s.set_previous_input().is_ok());
    assert_eq!(s.get_current_input().unwrap(), "hdmi_2");
}

#[test]
fn test_outcome_status_tokens() {
    let mut r = registry_with(vec![("z", vec![Capability::OnOff])]);
    let b = batch(vec!["z", "nope"], vec![CommandType::OnOff { on: false }]);
    let outcomes = dispatch_batch(&mut r, &b);
    assert_eq!(outcomes[0].status_token(), "SUCCESS");
    assert_eq!(outcomes[1].status_token(), "DeviceNotFound");
    assert_eq!(DispatchError::UnsupportedCommand.error_token(), "UnsupportedCommand");
    assert_eq!(DispatchError::InvalidParameter.error_token(), "InvalidParameter");
    assert_eq!(DispatchError::UnsupportedInput.error_token(), "UnsupportedInput");
}
