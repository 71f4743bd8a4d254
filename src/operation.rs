use vstd::prelude::*;

verus! {

/// Most coils or discrete inputs one operation may read or write.
pub const MAX_BITS: u16 = 2000;

/// Most registers one operation may read or write.
pub const MAX_WORDS: u16 = 125;

/// A decoded client request for one device action.
#[derive(Clone, Debug, PartialEq, Eq)]
#[allow(inconsistent_fields)]
pub enum Operation {
    ReadInputRegisters { address: u16, count: u16 },
    ReadDiscreteInputs { address: u16, count: u16 },
    ReadCoils { address: u16, count: u16 },
    ReadHoldingRegisters { address: u16, count: u16 },
    WriteSingleCoil { address: u16, value: bool },
    WriteMultipleCoils { address: u16, values: Vec<bool> },
    WriteMultipleRegisters { address: u16, values: Vec<u16> },
}

/// The typed result of executing an `Operation`: one variant per operation
/// kind, read values for reads and `(address, quantity)` for writes.
#[derive(Clone, Debug, PartialEq, Eq)]
pub enum Outcome {
    ReadInputRegisters(Vec<u16>),
    ReadDiscreteInputs(Vec<bool>),
    ReadCoils(Vec<bool>),
    ReadHoldingRegisters(Vec<u16>),
    WriteSingleCoil(u16, bool),
    WriteMultipleCoils(u16, u16),
    WriteMultipleRegisters(u16, u16),
}

/// `o` is a well-shaped answer to `op`: the same kind of operation, as many
/// values as a read asked for, and the written value echoed for a single coil.
pub open spec fn answers(op: Operation, o: Outcome) -> bool {
    match (op, o) {
        (Operation::ReadInputRegisters { count, .. }, Outcome::ReadInputRegisters(v)) => v@.len() == count,
        (Operation::ReadDiscreteInputs { count, .. }, Outcome::ReadDiscreteInputs(v)) => v@.len() == count,
        (Operation::ReadCoils { count, .. }, Outcome::ReadCoils(v)) => v@.len() == count,
        (Operation::ReadHoldingRegisters { count, .. }, Outcome::ReadHoldingRegisters(v)) => v@.len() == count,
        (Operation::WriteSingleCoil { value, .. }, Outcome::WriteSingleCoil(_, w)) => w == value,
        (Operation::WriteMultipleCoils { .. }, Outcome::WriteMultipleCoils(_, _)) => true,
        (Operation::WriteMultipleRegisters { .. }, Outcome::WriteMultipleRegisters(_, _)) => true,
        _ => false,
    }
}

/// Why an operation was refused before it reached the device.
#[derive(Clone, Copy, Debug, PartialEq, Eq, Structural)]
pub enum ValidationError {
    /// Zero values, or more than one operation may carry.
    QuantityOutOfRange,
    /// The addressed range runs past the last address.
    AddressOutOfRange,
}

/// The starting address of an operation.
pub open spec fn start_of(op: Operation) -> nat {
    match op {
        Operation::ReadInputRegisters { address, .. } => address as nat,
        Operation::ReadDiscreteInputs { address, .. } => address as nat,
        Operation::ReadCoils { address, .. } => address as nat,
        Operation::ReadHoldingRegisters { address, .. } => address as nat,
        Operation::WriteSingleCoil { address, .. } => address as nat,
        Operation::WriteMultipleCoils { address, .. } => address as nat,
        Operation::WriteMultipleRegisters { address, .. } => address as nat,
    }
}

/// How many coils or registers an operation addresses.
pub open spec fn quantity_of(op: Operation) -> nat {
    match op {
        Operation::ReadInputRegisters { count, .. } => count as nat,
        Operation::ReadDiscreteInputs { count, .. } => count as nat,
        Operation::ReadCoils { count, .. } => count as nat,
        Operation::ReadHoldingRegisters { count, .. } => count as nat,
        Operation::WriteSingleCoil { .. } => 1,
        Operation::WriteMultipleCoils { values, .. } => values@.len(),
        Operation::WriteMultipleRegisters { values, .. } => values@.len(),
    }
}

/// The largest quantity an operation of this kind may carry.
pub open spec fn limit_of(op: Operation) -> nat {
    match op {
        Operation::ReadInputRegisters { .. } => MAX_WORDS as nat,
        Operation::ReadHoldingRegisters { .. } => MAX_WORDS as nat,
        Operation::WriteMultipleRegisters { .. } => MAX_WORDS as nat,
        _ => MAX_BITS as nat,
    }
}

/// The quantity is between one and the kind's limit.
pub open spec fn quantity_ok(op: Operation) -> bool {
    1 <= quantity_of(op) <= limit_of(op)
}

/// The addressed range stays within the 16-bit address space.
pub open spec fn range_ok(op: Operation) -> bool {
    start_of(op) + quantity_of(op) <= 0x10000
}

impl Operation {
    /// What `validate` answers.
    pub open spec fn validate_spec(self) -> Result<(), ValidationError> {
        if !quantity_ok(self) {
            Err(ValidationError::QuantityOutOfRange)
        } else if !range_ok(self) {
            Err(ValidationError::AddressOutOfRange)
        } else {
            Ok(())
        }
    }

    /// Checks the quantity and the address range of the operation; a refused
    /// operation never reaches the device.
    pub fn validate(&self) -> (r: Result<(), ValidationError>)
        ensures
            r == self.validate_spec(),
    {
        let (address, quantity, limit): (u16, usize, u16) = match self {
            Operation::ReadInputRegisters { address, count } => (*address, *count as usize, MAX_WORDS),
            Operation::ReadDiscreteInputs { address, count } => (*address, *count as usize, MAX_BITS),
            Operation::ReadCoils { address, count } => (*address, *count as usize, MAX_BITS),
            Operation::ReadHoldingRegisters { address, count } => (*address, *count as usize, MAX_WORDS),
            Operation::WriteSingleCoil { address, .. } => (*address, 1, MAX_BITS),
            Operation::WriteMultipleCoils { address, values } => (*address, values.len(), MAX_BITS),
            Operation::WriteMultipleRegisters { address, values } => (*address, values.len(), MAX_WORDS),
        };
        if quantity < 1 || quantity > limit as usize {
            Err(ValidationError::QuantityOutOfRange)
        } else if address as usize + quantity > 0x10000 {
            Err(ValidationError::AddressOutOfRange)
        } else {
            Ok(())
        }
    }
}

} // verus!
