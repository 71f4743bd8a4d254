use modbus_device_simulator::device::{
    ack_from_script, bits_from_script, outcome_of, single_coil, words_from_script, Device,
    DeviceAnswer, DeviceError, OpKind,
};
use modbus_device_simulator::operation::{Operation, Outcome};
use modbus_device_simulator::script::ScriptValue;

#[test]
fn load_device_from_script() {
    let script = r#"
            foo = 1
        "#;
    let device = Device::new(script);
    assert!(device.is_ok());
}

// A read entry point must answer exactly `count` values: three for ten is a
// contract violation.
#[test]
fn read_input_registers() {
    let script = r#"
            function ReadInputRegisters(addr, cnt)
                return {0, 1, 2}
            end
        "#;

    let device = Device::new(script).unwrap();
    let regs = device.read_input_registers(0, 10);

    assert_eq!(regs, Err(DeviceError::ScriptContractViolation));
}

// Integers are not booleans, and three values do not answer ten.
#[test]
fn read_discrete_inputs() {
    let script = r#"
            function ReadDiscreteInputs(addr, cnt)
                return {0, 1, 1}
            end
        "#;

    let device = Device::new(script).unwrap();
    let regs = device.read_discrete_inputs(0, 10);

    assert_eq!(regs, Err(DeviceError::ScriptContractViolation));
}

#[test]
fn read_coils() {
    let script = r#"
            function ReadCoils(addr, cnt)
                return {false, true, true}
            end
        "#;

    let device = Device::new(script).unwrap();
    let regs = device.read_coils(0, 10);

    assert_eq!(regs, Err(DeviceError::ScriptContractViolation));
}

#[test]
fn read_write_coils() {
    let script = r#"
            coils = {false, false, false}
            function WriteCoils(addr, values)
                for i = 1,#values do
                    coils[i] = values[i]
                end

                return {addr, #values}
            end
            function ReadCoils(addr, cnt)
                return coils
            end
        "#;

    let device = Device::new(script).unwrap();

    device.write_coils(0, vec![true, true, true]).ok().unwrap();
    let regs = device.read_coils(0, 10);

    assert_eq!(regs, Err(DeviceError::ScriptContractViolation));
    assert_eq!(device.read_coils(0, 3), Ok(vec![true, true, true]));
}

#[test]
fn read_holding_registers() {
    let script = r#"
            function ReadHoldingRegisters(addr, cnt)
                return {0, 1, 2, 3, 4}
            end
        "#;

    let device = Device::new(script).unwrap();
    let regs = device.read_holding_registers(0, 5).unwrap();

    assert_eq!(regs, vec![0, 1, 2, 3, 4]);
}

#[test]
fn read_write_holding_registers() {
    let script = r#"
            hr = {0, 0, 0}
            function WriteHoldingRegisters(addr, values)
                for i = 1,#values do
                    hr[i] = values[i]
                end

                return {addr, #values}
            end
            function ReadHoldingRegisters(addr, cnt)
                return hr
            end
        "#;

    let device = Device::new(script).unwrap();

    device.write_holding_registers(0, vec![0, 1, 2]).ok().unwrap();
    let regs = device.read_holding_registers(0, 3).unwrap();

    assert_eq!(regs, vec![0, 1, 2]);
}

#[test]
fn load_error_is_reported() {
    let device = Device::new("function (");
    assert!(matches!(device, Err(DeviceError::ScriptLoadError(_))));
}

#[test]
fn missing_entry_point_is_execution_error() {
    let device = Device::new("foo = 1").unwrap();
    assert!(matches!(device.read_coils(0, 1), Err(DeviceError::ScriptExecutionError(_))));
}

#[test]
fn script_runtime_error_is_execution_error() {
    let device = Device::new(r#"function ReadHoldingRegisters(a, c) error("boom") end"#).unwrap();
    match device.read_holding_registers(0, 1) {
        Err(DeviceError::ScriptExecutionError(msg)) => assert!(msg.contains("boom")),
        other => panic!("unexpected {:?}", other),
    }
}

#[test]
fn register_out_of_range_is_violation() {
    let device = Device::new("function ReadInputRegisters(a, c) return {70000} end").unwrap();
    assert_eq!(device.read_input_registers(0, 1), Err(DeviceError::ScriptContractViolation));
}

#[test]
fn float_register_is_violation() {
    let device = Device::new("function ReadInputRegisters(a, c) return {1.5} end").unwrap();
    assert_eq!(device.read_input_registers(0, 1), Err(DeviceError::ScriptContractViolation));
}

#[test]
fn write_ack_with_wrong_arity_is_violation() {
    let device = Device::new("function WriteHoldingRegisters(a, v) return {a} end").unwrap();
    assert_eq!(device.write_holding_registers(4, vec![1]), Err(DeviceError::ScriptContractViolation));
}

#[test]
fn write_ack_reports_script_answer() {
    let device = Device::new("function WriteCoils(a, v) return {a + 1, #v} end").unwrap();
    assert_eq!(device.write_coils(7, vec![true, false]), Ok((8, 2)));
}

#[test]
fn arguments_reach_the_script() {
    let device = Device::new(
        "function ReadInputRegisters(a, c) local r = {} for i = 1, c do r[i] = a + i end return r end",
    )
    .unwrap();
    assert_eq!(device.read_input_registers(10, 3), Ok(vec![11, 12, 13]));
}

fn items(v: Vec<ScriptValue>) -> Result<Option<Vec<ScriptValue>>, String> {
    Ok(Some(v))
}

#[test]
fn words_check_exact() {
    let ok = vec![ScriptValue::Integer(0), ScriptValue::Integer(65535)];
    assert_eq!(words_from_script(2, items(ok.clone())), Ok(vec![0, 65535]));
    assert_eq!(words_from_script(3, items(ok)), Err(DeviceError::ScriptContractViolation));
    let neg = vec![ScriptValue::Integer(-1)];
    assert_eq!(words_from_script(1, items(neg)), Err(DeviceError::ScriptContractViolation));
    let boolean = vec![ScriptValue::Boolean(true)];
    assert_eq!(words_from_script(1, items(boolean)), Err(DeviceError::ScriptContractViolation));
    assert_eq!(words_from_script(0, items(vec![])), Ok(vec![]));
    assert_eq!(words_from_script(1, Ok(None)), Err(DeviceError::ScriptContractViolation));
    assert_eq!(
        words_from_script(1, Err(String::from("no such function"))),
        Err(DeviceError::ScriptExecutionError(String::from("no such function")))
    );
}

#[test]
fn bits_check_exact() {
    let ok = vec![ScriptValue::Boolean(true), ScriptValue::Boolean(false)];
    assert_eq!(bits_from_script(2, items(ok.clone())), Ok(vec![true, false]));
    assert_eq!(bits_from_script(1, items(ok)), Err(DeviceError::ScriptContractViolation));
    let other = vec![ScriptValue::Other];
    assert_eq!(bits_from_script(1, items(other)), Err(DeviceError::ScriptContractViolation));
    assert_eq!(bits_from_script(1, Ok(None)), Err(DeviceError::ScriptContractViolation));
    assert_eq!(
        bits_from_script(1, Err(String::from("boom"))),
        Err(DeviceError::ScriptExecutionError(String::from("boom")))
    );
}

#[test]
fn ack_check_exact() {
    assert_eq!(ack_from_script(items(vec![ScriptValue::Integer(3), ScriptValue::Integer(2)])), Ok((3, 2)));
    assert_eq!(ack_from_script(items(vec![ScriptValue::Integer(3)])), Err(DeviceError::ScriptContractViolation));
    assert_eq!(
        ack_from_script(items(vec![ScriptValue::Integer(3), ScriptValue::Other])),
        Err(DeviceError::ScriptContractViolation)
    );
    assert_eq!(ack_from_script(Ok(None)), Err(DeviceError::ScriptContractViolation));
    assert_eq!(
        ack_from_script(Err(String::from("x"))),
        Err(DeviceError::ScriptExecutionError(String::from("x")))
    );
}

#[test]
fn non_table_answer_is_violation() {
    let device = Device::new(
        "function ReadCoils(a, c) return 1 end function WriteCoils(a, v) end",
    )
    .unwrap();
    assert_eq!(device.read_coils(0, 1), Err(DeviceError::ScriptContractViolation));
    assert_eq!(device.write_coils(0, vec![true]), Err(DeviceError::ScriptContractViolation));
}

#[test]
fn outcome_follows_device_answer() {
    assert_eq!(
        outcome_of(OpKind::WriteSingleCoil(true), Ok(DeviceAnswer::Written(9, 1))),
        Ok(Outcome::WriteSingleCoil(9, true))
    );
    assert_eq!(
        outcome_of(OpKind::WriteMultipleCoils, Ok(DeviceAnswer::Written(4, 3))),
        Ok(Outcome::WriteMultipleCoils(4, 3))
    );
    assert_eq!(
        outcome_of(OpKind::WriteMultipleRegisters, Ok(DeviceAnswer::Written(8, 2))),
        Ok(Outcome::WriteMultipleRegisters(8, 2))
    );
    assert_eq!(
        outcome_of(OpKind::ReadHoldingRegisters, Ok(DeviceAnswer::Registers(vec![5, 6]))),
        Ok(Outcome::ReadHoldingRegisters(vec![5, 6]))
    );
    assert_eq!(
        outcome_of(OpKind::ReadInputRegisters, Ok(DeviceAnswer::Registers(vec![1]))),
        Ok(Outcome::ReadInputRegisters(vec![1]))
    );
    assert_eq!(
        outcome_of(OpKind::ReadCoils, Ok(DeviceAnswer::Bits(vec![true]))),
        Ok(Outcome::ReadCoils(vec![true]))
    );
    assert_eq!(
        outcome_of(OpKind::ReadDiscreteInputs, Ok(DeviceAnswer::Bits(vec![false]))),
        Ok(Outcome::ReadDiscreteInputs(vec![false]))
    );
    assert_eq!(
        outcome_of(OpKind::ReadCoils, Err(DeviceError::ScriptContractViolation)),
        Err(DeviceError::ScriptContractViolation)
    );
    assert_eq!(
        outcome_of(OpKind::ReadCoils, Ok(DeviceAnswer::Registers(vec![1]))),
        Err(DeviceError::ScriptContractViolation)
    );
    assert_eq!(
        Operation::WriteSingleCoil { address: 1, value: false }.kind(),
        OpKind::WriteSingleCoil(false)
    );
    assert_eq!(single_coil(true), vec![true]);
}

#[test]
fn single_coil_goes_through_write_coils() {
    let device = Device::new(
        "seen = nil function WriteCoils(a, v) seen = #v return {a + 100, #v * 10} end",
    )
    .unwrap();
    assert_eq!(
        device.execute(Operation::WriteSingleCoil { address: 2, value: false }),
        Ok(Outcome::WriteSingleCoil(102, false))
    );
    assert_eq!(
        device.execute(Operation::WriteMultipleCoils { address: 2, values: vec![true, false] }),
        Ok(Outcome::WriteMultipleCoils(102, 20))
    );
}

#[test]
fn execute_answers_with_matching_kind() {
    let script = r#"
        function ReadInputRegisters(a, c) return {7} end
        function ReadDiscreteInputs(a, c) return {true} end
        function ReadCoils(a, c) return {false} end
        function ReadHoldingRegisters(a, c) return {9} end
        function WriteCoils(a, v) return {a, #v} end
        function WriteHoldingRegisters(a, v) return {a, #v} end
    "#;
    let device = Device::new(script).unwrap();
    assert_eq!(
        device.execute(Operation::ReadInputRegisters { address: 0, count: 1 }),
        Ok(Outcome::ReadInputRegisters(vec![7]))
    );
    assert_eq!(
        device.execute(Operation::ReadDiscreteInputs { address: 0, count: 1 }),
        Ok(Outcome::ReadDiscreteInputs(vec![true]))
    );
    assert_eq!(
        device.execute(Operation::ReadCoils { address: 0, count: 1 }),
        Ok(Outcome::ReadCoils(vec![false]))
    );
    assert_eq!(
        device.execute(Operation::ReadHoldingRegisters { address: 0, count: 1 }),
        Ok(Outcome::ReadHoldingRegisters(vec![9]))
    );
    assert_eq!(
        device.execute(Operation::WriteSingleCoil { address: 5, value: true }),
        Ok(Outcome::WriteSingleCoil(5, true))
    );
    assert_eq!(
        device.execute(Operation::WriteMultipleCoils { address: 2, values: vec![true, true] }),
        Ok(Outcome::WriteMultipleCoils(2, 2))
    );
    assert_eq!(
        device.execute(Operation::WriteMultipleRegisters { address: 1, values: vec![1, 2, 3] }),
        Ok(Outcome::WriteMultipleRegisters(1, 3))
    );
}
