use vstd::prelude::*;
use crate::operation::{answers, Operation, Outcome};
use crate::script::{
    call_with_bits, call_with_count, call_with_words, error_message, global_function,
    new_runtime, reply_of, run_source, ScriptValue,
};

verus! {

/// Why the virtual device could not answer.
#[derive(Clone, Debug, PartialEq, Eq)]
pub enum DeviceError {
    /// The script source failed to parse or to run at load time.
    ScriptLoadError(String),
    /// An entry point returned a result of the wrong length or element type.
    ScriptContractViolation,
    /// The entry point is missing or raised an error; carries the runtime's
    /// diagnostic message.
    ScriptExecutionError(String),
}

/// The register value a script element stands for, if it is an integer in
/// `0..=65535`.
pub open spec fn word_of(v: ScriptValue) -> Option<u16> {
    match v {
        ScriptValue::Integer(i) => if 0 <= i <= 0xffff { Some(i as u16) } else { None },
        _ => None,
    }
}

/// The coil or input state a script element stands for, if it is a boolean.
pub open spec fn bit_of(v: ScriptValue) -> Option<bool> {
    match v {
        ScriptValue::Boolean(b) => Some(b),
        _ => None,
    }
}

/// The registers a read entry point answered, if it returned exactly `count`
/// integers in range.
pub open spec fn words_reply(count: u16, vals: Seq<ScriptValue>) -> Option<Seq<u16>> {
    if vals.len() == count && forall|i: int| 0 <= i < vals.len() ==> word_of(#[trigger] vals[i]).is_some() {
        Some(vals.map_values(|v: ScriptValue| word_of(v)->0))
    } else {
        None
    }
}

/// The bits a read entry point answered, if it returned exactly `count`
/// booleans.
pub open spec fn bits_reply(count: u16, vals: Seq<ScriptValue>) -> Option<Seq<bool>> {
    if vals.len() == count && forall|i: int| 0 <= i < vals.len() ==> bit_of(#[trigger] vals[i]).is_some() {
        Some(vals.map_values(|v: ScriptValue| bit_of(v)->0))
    } else {
        None
    }
}

/// The `(address, quantity)` a write entry point answered, if it returned
/// exactly two integers in range.
pub open spec fn ack_reply(vals: Seq<ScriptValue>) -> Option<(u16, u16)> {
    if vals.len() == 2 && word_of(vals[0]).is_some() && word_of(vals[1]).is_some() {
        Some((word_of(vals[0])->0, word_of(vals[1])->0))
    } else {
        None
    }
}

fn word_from(v: ScriptValue) -> (r: Option<u16>)
    ensures
        r == word_of(v),
{
    match v {
        ScriptValue::Integer(i) => if 0 <= i && i <= 0xffff { Some(i as u16) } else { None },
        _ => None,
    }
}

/// Checks what a register read came back with: the runtime's diagnostic
/// becomes an execution error; an answer that is not a sequence of exactly
/// `count` integers in `0..=65535` is a contract violation.
pub fn words_from_script(count: u16, reply: Result<Option<Vec<ScriptValue>>, String>) -> (r: Result<Vec<u16>, DeviceError>)
    ensures
        match reply {
            Err(m) => r == Err::<Vec<u16>, DeviceError>(DeviceError::ScriptExecutionError(m)),
            Ok(None) => r matches Err(DeviceError::ScriptContractViolation),
            Ok(Some(vals)) => match words_reply(count, vals@) {
                Some(w) => r matches Ok(v) && v@ == w,
                None => r matches Err(DeviceError::ScriptContractViolation),
            },
        },
{
    let vals = match reply {
        Err(m) => return Err(DeviceError::ScriptExecutionError(m)),
        Ok(None) => return Err(DeviceError::ScriptContractViolation),
        Ok(Some(vals)) => vals,
    };
    if vals.len() != count as usize {
        return Err(DeviceError::ScriptContractViolation);
    }
    let mut out: Vec<u16> = Vec::new();
    let mut i: usize = 0;
    while i < vals.len()
        invariant
            reply == Ok::<Option<Vec<ScriptValue>>, String>(Some(vals)),
            i <= vals@.len(),
            out@.len() == i,
            forall|j: int| 0 <= j < i ==> word_of(#[trigger] vals@[j]) == Some(out@[j]),
        decreases vals@.len() - i,
    {
        match word_from(vals[i]) {
            Some(w) => out.push(w),
            None => return Err(DeviceError::ScriptContractViolation),
        }
        i = i + 1;
    }
    assert(out@ =~= vals@.map_values(|v: ScriptValue| word_of(v)->0));
    Ok(out)
}

/// Checks what a coil or discrete-input read came back with: the runtime's
/// diagnostic becomes an execution error; an answer that is not a sequence
/// of exactly `count` booleans is a contract violation.
pub fn bits_from_script(count: u16, reply: Result<Option<Vec<ScriptValue>>, String>) -> (r: Result<Vec<bool>, DeviceError>)
    ensures
        match reply {
            Err(m) => r == Err::<Vec<bool>, DeviceError>(DeviceError::ScriptExecutionError(m)),
            Ok(None) => r matches Err(DeviceError::ScriptContractViolation),
            Ok(Some(vals)) => match bits_reply(count, vals@) {
                Some(b) => r matches Ok(v) && v@ == b,
                None => r matches Err(DeviceError::ScriptContractViolation),
            },
        },
{
    let vals = match reply {
        Err(m) => return Err(DeviceError::ScriptExecutionError(m)),
        Ok(None) => return Err(DeviceError::ScriptContractViolation),
        Ok(Some(vals)) => vals,
    };
    if vals.len() != count as usize {
        return Err(DeviceError::ScriptContractViolation);
    }
    let mut out: Vec<bool> = Vec::new();
    let mut i: usize = 0;
    while i < vals.len()
        invariant
            reply == Ok::<Option<Vec<ScriptValue>>, String>(Some(vals)),
            i <= vals@.len(),
            out@.len() == i,
            forall|j: int| 0 <= j < i ==> bit_of(#[trigger] vals@[j]) == Some(out@[j]),
        decreases vals@.len() - i,
    {
        match vals[i] {
            ScriptValue::Boolean(b) => out.push(b),
            _ => return Err(DeviceError::ScriptContractViolation),
        }
        i = i + 1;
    }
    assert(out@ =~= vals@.map_values(|v: ScriptValue| bit_of(v)->0));
    Ok(out)
}

/// Checks what a write came back with: the runtime's diagnostic becomes an
/// execution error; an answer other than `[address_written,
/// quantity_written]` is a contract violation.
pub fn ack_from_script(reply: Result<Option<Vec<ScriptValue>>, String>) -> (r: Result<(u16, u16), DeviceError>)
    ensures
        match reply {
            Err(m) => r == Err::<(u16, u16), DeviceError>(DeviceError::ScriptExecutionError(m)),
            Ok(None) => r matches Err(DeviceError::ScriptContractViolation),
            Ok(Some(vals)) => match ack_reply(vals@) {
                Some(a) => r == Ok::<(u16, u16), DeviceError>(a),
                None => r matches Err(DeviceError::ScriptContractViolation),
            },
        },
{
    let vals = match reply {
        Err(m) => return Err(DeviceError::ScriptExecutionError(m)),
        Ok(None) => return Err(DeviceError::ScriptContractViolation),
        Ok(Some(vals)) => vals,
    };
    if vals.len() != 2 {
        return Err(DeviceError::ScriptContractViolation);
    }
    match (word_from(vals[0]), word_from(vals[1])) {
        (Some(a), Some(q)) => Ok((a, q)),
        _ => Err(DeviceError::ScriptContractViolation),
    }
}

/// The kind of an operation, with the one value its outcome echoes.
#[derive(Clone, Copy, Debug, PartialEq, Eq, Structural)]
pub enum OpKind {
    ReadInputRegisters,
    ReadDiscreteInputs,
    ReadCoils,
    ReadHoldingRegisters,
    WriteSingleCoil(bool),
    WriteMultipleCoils,
    WriteMultipleRegisters,
}

pub open spec fn kind_of(op: Operation) -> OpKind {
    match op {
        Operation::ReadInputRegisters { .. } => OpKind::ReadInputRegisters,
        Operation::ReadDiscreteInputs { .. } => OpKind::ReadDiscreteInputs,
        Operation::ReadCoils { .. } => OpKind::ReadCoils,
        Operation::ReadHoldingRegisters { .. } => OpKind::ReadHoldingRegisters,
        Operation::WriteSingleCoil { value, .. } => OpKind::WriteSingleCoil(value),
        Operation::WriteMultipleCoils { .. } => OpKind::WriteMultipleCoils,
        Operation::WriteMultipleRegisters { .. } => OpKind::WriteMultipleRegisters,
    }
}

impl Operation {
    pub fn kind(&self) -> (r: OpKind)
        ensures
            r == kind_of(*self),
    {
        match self {
            Operation::ReadInputRegisters { .. } => OpKind::ReadInputRegisters,
            Operation::ReadDiscreteInputs { .. } => OpKind::ReadDiscreteInputs,
            Operation::ReadCoils { .. } => OpKind::ReadCoils,
            Operation::ReadHoldingRegisters { .. } => OpKind::ReadHoldingRegisters,
            Operation::WriteSingleCoil { value, .. } => OpKind::WriteSingleCoil(*value),
            Operation::WriteMultipleCoils { .. } => OpKind::WriteMultipleCoils,
            Operation::WriteMultipleRegisters { .. } => OpKind::WriteMultipleRegisters,
        }
    }
}

/// What a device method answered.
#[derive(Clone, Debug, PartialEq, Eq)]
pub enum DeviceAnswer {
    Registers(Vec<u16>),
    Bits(Vec<bool>),
    /// `(address_written, quantity_written)`
    Written(u16, u16),
}

/// The outcome an operation of kind `kind` ends in when the device answered
/// `answer`: reads carry the values read; a single coil carries the
/// acknowledged address and the value written; multiple writes carry the
/// acknowledged address and quantity; a fault is passed on as it is. An
/// answer of another shape than the kind calls for is a contract violation.
pub open spec fn outcome_spec(kind: OpKind, answer: Result<DeviceAnswer, DeviceError>) -> Result<Outcome, DeviceError> {
    match answer {
        Err(e) => Err(e),
        Ok(a) => match (kind, a) {
            (OpKind::ReadInputRegisters, DeviceAnswer::Registers(v)) => Ok(Outcome::ReadInputRegisters(v)),
            (OpKind::ReadDiscreteInputs, DeviceAnswer::Bits(v)) => Ok(Outcome::ReadDiscreteInputs(v)),
            (OpKind::ReadCoils, DeviceAnswer::Bits(v)) => Ok(Outcome::ReadCoils(v)),
            (OpKind::ReadHoldingRegisters, DeviceAnswer::Registers(v)) => Ok(Outcome::ReadHoldingRegisters(v)),
            (OpKind::WriteSingleCoil(value), DeviceAnswer::Written(addr, _)) => Ok(Outcome::WriteSingleCoil(addr, value)),
            (OpKind::WriteMultipleCoils, DeviceAnswer::Written(addr, q)) => Ok(Outcome::WriteMultipleCoils(addr, q)),
            (OpKind::WriteMultipleRegisters, DeviceAnswer::Written(addr, q)) => Ok(Outcome::WriteMultipleRegisters(addr, q)),
            _ => Err(DeviceError::ScriptContractViolation),
        },
    }
}

/// Builds the outcome of an operation from the device method's answer.
pub fn outcome_of(kind: OpKind, answer: Result<DeviceAnswer, DeviceError>) -> (r: Result<Outcome, DeviceError>)
    ensures
        r == outcome_spec(kind, answer),
{
    match answer {
        Err(e) => Err(e),
        Ok(a) => match (kind, a) {
            (OpKind::ReadInputRegisters, DeviceAnswer::Registers(v)) => Ok(Outcome::ReadInputRegisters(v)),
            (OpKind::ReadDiscreteInputs, DeviceAnswer::Bits(v)) => Ok(Outcome::ReadDiscreteInputs(v)),
            (OpKind::ReadCoils, DeviceAnswer::Bits(v)) => Ok(Outcome::ReadCoils(v)),
            (OpKind::ReadHoldingRegisters, DeviceAnswer::Registers(v)) => Ok(Outcome::ReadHoldingRegisters(v)),
            (OpKind::WriteSingleCoil(value), DeviceAnswer::Written(addr, _)) => Ok(Outcome::WriteSingleCoil(addr, value)),
            (OpKind::WriteMultipleCoils, DeviceAnswer::Written(addr, q)) => Ok(Outcome::WriteMultipleCoils(addr, q)),
            (OpKind::WriteMultipleRegisters, DeviceAnswer::Written(addr, q)) => Ok(Outcome::WriteMultipleRegisters(addr, q)),
            _ => Err(DeviceError::ScriptContractViolation),
        },
    }
}

/// The sequence a single coil is written as through the multiple-coil entry
/// point.
pub fn single_coil(value: bool) -> (r: Vec<bool>)
    ensures
        r@ == seq![value],
{
    let mut r: Vec<bool> = Vec::new();
    r.push(value);
    r
}

/// Virtual device whose registers and coils are answered by a script.
pub struct Device {
    lua: mlua::Lua,
}

impl Device {
    /// Loads the script once into a fresh runtime.
    pub fn new(script: &str) -> (r: Result<Device, DeviceError>)
        ensures
            r is Err ==> r matches Err(DeviceError::ScriptLoadError(_)),
    {
        let lua = new_runtime();
        match run_source(&lua, script) {
            Ok(()) => Ok(Device { lua }),
            Err(e) => Err(DeviceError::ScriptLoadError(error_message(&e))),
        }
    }

    /// Looks up the entry point `name`; the runtime's diagnostic if it is
    /// missing or not a function.
    fn entry_point(&self, name: &str) -> (r: Result<mlua::Function, String>) {
        match global_function(&self.lua, name) {
            Ok(f) => Ok(f),
            Err(e) => Err(error_message(&e)),
        }
    }

    /// Calls the entry point `name` with `(address, count)`.
    fn call_read(&self, name: &str, address: u16, count: u16) -> (r: Result<Option<Vec<ScriptValue>>, String>) {
        let f = self.entry_point(name)?;
        reply_of(call_with_count(&f, address, count))
    }

    /// Read input registers (read-only integers) through `ReadInputRegisters`.
    pub fn read_input_registers(&self, address: u16, count: u16) -> (r: Result<Vec<u16>, DeviceError>)
        ensures
            r matches Ok(v) ==> v@.len() == count,
            r matches Err(e) ==> e is ScriptContractViolation || e is ScriptExecutionError,
    {
        words_from_script(count, self.call_read("ReadInputRegisters", address, count))
    }

    /// Read discrete inputs (read-only booleans) through `ReadDiscreteInputs`.
    pub fn read_discrete_inputs(&self, address: u16, count: u16) -> (r: Result<Vec<bool>, DeviceError>)
        ensures
            r matches Ok(v) ==> v@.len() == count,
            r matches Err(e) ==> e is ScriptContractViolation || e is ScriptExecutionError,
    {
        bits_from_script(count, self.call_read("ReadDiscreteInputs", address, count))
    }

    /// Read coils (read-write booleans) through `ReadCoils`.
    pub fn read_coils(&self, address: u16, count: u16) -> (r: Result<Vec<bool>, DeviceError>)
        ensures
            r matches Ok(v) ==> v@.len() == count,
            r matches Err(e) ==> e is ScriptContractViolation || e is ScriptExecutionError,
    {
        bits_from_script(count, self.call_read("ReadCoils", address, count))
    }

    /// Read holding registers (read-write integers) through
    /// `ReadHoldingRegisters`.
    pub fn read_holding_registers(&self, address: u16, count: u16) -> (r: Result<Vec<u16>, DeviceError>)
        ensures
            r matches Ok(v) ==> v@.len() == count,
            r matches Err(e) ==> e is ScriptContractViolation || e is ScriptExecutionError,
    {
        words_from_script(count, self.call_read("ReadHoldingRegisters", address, count))
    }

    /// Write coils through `WriteCoils`, which answers
    /// `[address_written, quantity_written]`.
    pub fn write_coils(&self, address: u16, values: Vec<bool>) -> (r: Result<(u16, u16), DeviceError>)
        ensures
            r matches Err(e) ==> e is ScriptContractViolation || e is ScriptExecutionError,
    {
        let reply = match self.entry_point("WriteCoils") {
            Ok(f) => reply_of(call_with_bits(&f, address, values)),
            Err(m) => Err(m),
        };
        ack_from_script(reply)
    }

    /// Write holding registers through `WriteHoldingRegisters`, which answers
    /// `[address_written, quantity_written]`.
    pub fn write_holding_registers(&self, address: u16, values: Vec<u16>) -> (r: Result<(u16, u16), DeviceError>)
        ensures
            r matches Err(e) ==> e is ScriptContractViolation || e is ScriptExecutionError,
    {
        let reply = match self.entry_point("WriteHoldingRegisters") {
            Ok(f) => reply_of(call_with_words(&f, address, values)),
            Err(m) => Err(m),
        };
        ack_from_script(reply)
    }

    /// Executes one operation against the script and answers with the
    /// outcome of the same kind, built by `outcome_of` from what the matching
    /// device method answered. A single coil is written through the
    /// multiple-coil entry point as the sequence `single_coil(value)`.
    pub fn execute(&self, op: Operation) -> (r: Result<Outcome, DeviceError>)
        ensures
            r matches Ok(o) ==> answers(op, o),
            r matches Err(e) ==> e is ScriptContractViolation || e is ScriptExecutionError,
            exists|answer: Result<DeviceAnswer, DeviceError>| r == outcome_spec(kind_of(op), answer),
    {
        let kind = op.kind();
        let answer = match op {
            Operation::ReadInputRegisters { address, count } => match self.read_input_registers(address, count) {
                Ok(v) => Ok(DeviceAnswer::Registers(v)),
                Err(e) => Err(e),
            },
            Operation::ReadDiscreteInputs { address, count } => match self.read_discrete_inputs(address, count) {
                Ok(v) => Ok(DeviceAnswer::Bits(v)),
                Err(e) => Err(e),
            },
            Operation::ReadCoils { address, count } => match self.read_coils(address, count) {
                Ok(v) => Ok(DeviceAnswer::Bits(v)),
                Err(e) => Err(e),
            },
            Operation::ReadHoldingRegisters { address, count } => match self.read_holding_registers(address, count) {
                Ok(v) => Ok(DeviceAnswer::Registers(v)),
                Err(e) => Err(e),
            },
            Operation::WriteSingleCoil { address, value } => match self.write_coils(address, single_coil(value)) {
                Ok((a, q)) => Ok(DeviceAnswer::Written(a, q)),
                Err(e) => Err(e),
            },
            Operation::WriteMultipleCoils { address, values } => match self.write_coils(address, values) {
                Ok((a, q)) => Ok(DeviceAnswer::Written(a, q)),
                Err(e) => Err(e),
            },
            Operation::WriteMultipleRegisters { address, values } => match self.write_holding_registers(address, values) {
                Ok((a, q)) => Ok(DeviceAnswer::Written(a, q)),
                Err(e) => Err(e),
            },
        };
        outcome_of(kind, answer)
    }
}

} // verus!
