use serde_json::Value;
use smarthome::decode::decode_request;
use smarthome::dispatch::dispatch_batch;
use smarthome::dispatch::Capability;
use smarthome::dispatch::DeviceState;
use smarthome::dispatch::DispatchError;
use smarthome::dispatch::SimpleRegistry;
use smarthome::fulfillment::execute::Command;
use smarthome::fulfillment::execute::CommandType;
use smarthome::fulfillment::execute::Device;
use smarthome::fulfillment::execute::Execute;
use smarthome::fulfillment::request::Input;
use smarthome::fulfillment::request::Request;
use smarthome::wire::ObjectField;
use smarthome::wire::ParamValue;
use smarthome::wire::ScalarValue;
use smarthome::wire::WireBatch;
use smarthome::wire::WireCommand;
use smarthome::wire::WireDevice;
use smarthome::wire::WireInput;
use smarthome::wire::WireParam;
use smarthome::wire::WireRequest;

fn scalar_of(v: &Value) -> ScalarValue {
    match v {
        Value::Bool(b) => ScalarValue::Bool(*b),
        Value::Number(n) => match n.as_i64() {
            Some(i) => ScalarValue::Int(i),
            None => ScalarValue::Other,
        },
        Value::String(s) => ScalarValue::Str(s.clone()),
        _ => ScalarValue::Other,
    }
}

fn param_of(v: &Value) -> ParamValue {
    match v {
        Value::Object(m) => ParamValue::Object(
            m.iter()
                .map(|(k, x)| ObjectField { name: k.clone(), value: scalar_of(x) })
                .collect(),
        ),
        _ => ParamValue::Scalar(scalar_of(v)),
    }
}

fn wire_of_value(v: &Value) -> WireRequest {
    let inputs = v["inputs"]
        .as_array()
        .unwrap()
        .iter()
        .map(|i| WireInput {
            intent: i["intent"].as_str().unwrap().to_string(),
            commands: i["payload"]["commands"]
                .as_array()
                .unwrap_or(&vec![])
                .iter()
                .map(|b| WireBatch {
                    devices: b["devices"]
                        .as_array()
                        .unwrap_or(&vec![])
                        .iter()
                        .map(|d| WireDevice { id: d["id"].as_str().unwrap().to_string() })
                        .collect(),
                    execution: b["execution"]
                        .as_array()
                        .unwrap_or(&vec![])
                        .iter()
                        .map(|c| WireCommand {
                            command: c["command"].as_str().unwrap().to_string(),
                            params: c["params"]
                                .as_object()
                                .map(|m| {
                                    m.iter()
                                        .map(|(k, x)| WireParam {
                                            name: k.clone(),
                                            value: param_of(x),
                                        })
                                        .collect()
                                })
                                .unwrap_or_default(),
                        })
                        .collect(),
                })
                .collect(),
        })
        .collect();
    WireRequest { request_id: v["requestId"].as_str().unwrap().to_string(), inputs }
}

fn payload_with_request_id(request_id: &str) -> String {
    format!(
        r#"
        {{
          "requestId": "{}",
          "inputs": [
            {{
              "intent": "action.devices.EXECUTE",
              "payload": {{
                "commands": [
                  {{
                    "devices": [
                      {{
                        "id": "123",
                        "customData": {{
                          "fooValue": 74,
                          "barValue": true,
                          "bazValue": "sheepdip"
                        }}
                      }},
                      {{
                        "id": "456"
                      }}
                    ],
                    "execution": [
                      {{
                        "command": "action.devices.commands.OnOff",
                        "params": {{
                          "on": true
                        }}
                      }}
                    ]
                  }}
                ]
              }}
            }}
          ]
        }}
    "#,
        request_id
    )
}

#[test]
fn test_execute_payload() {
    let payload = payload_with_request_id("ff36a3cc-ec34-11e6-b1a0-64510650abcf");
    let value: Value = serde_json::from_str(&payload).unwrap();
    let wire = wire_of_value(&value);

    let request = Request {
        request_id: "ff36a3cc-ec34-11e6-b1a0-64510650abcf".to_string(),
        inputs: vec![Input::Execute(Execute {
            commands: vec![Command {
                devices: vec![
                    Device { id: "123".to_string() },
                    Device { id: "456".to_string() },
                ],
                execution: vec![CommandType::OnOff { on: true }],
            }],
        })],
    };

    let deserialized = decode_request(&wire);
    let payload = deserialized.unwrap();
    assert_eq!(request, payload);
}

#[test]
fn test_sample_scenario_execute_on_off() {
    let payload = payload_with_request_id("r1");
    let value: Value = serde_json::from_str(&payload).unwrap();
    let wire = wire_of_value(&value);
    let request = decode_request(&wire).unwrap();
    assert_eq!(request.request_id, "r1");

    let mut registry = SimpleRegistry::new();
    assert!(registry.register(
        "123".to_string(),
        vec![Capability::OnOff],
        DeviceState::new(),
    ));

    let Input::Execute(execute) = &request.inputs[0];
    let outcomes = dispatch_batch(&mut registry, &execute.commands[0]);
    assert_eq!(outcomes.len(), 2);
    assert_eq!(outcomes[0].device_id, "123");
    assert_eq!(outcomes[0].result, Ok(()));
    assert_eq!(outcomes[1].device_id, "456");
    assert_eq!(outcomes[1].result, Err(DispatchError::DeviceNotFound));
    assert_eq!(registry.device_state("123").unwrap().on, true);
}
