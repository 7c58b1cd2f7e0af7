use vstd::prelude::*;

verus! {

/// The handle that a fresh auction's leader state holds: the engine reads it
/// as an encrypted zero.
pub const ZERO_HANDLE: u128 = 0;

/// Handle of an encrypted unsigned 128-bit integer.
///
/// It is an identifier into the engine's store, not a number: it has no
/// ordering or arithmetic, and two handles of equal plaintext may differ.
#[derive(Clone, Copy, Debug, PartialEq, Eq, Structural)]
pub struct Euint128(pub u128);

/// Handle of an encrypted boolean.
#[derive(Clone, Copy, Debug, PartialEq, Eq, Structural)]
pub struct Ebool(pub u128);

/// An argument of an engine operation: a handle already known, or the
/// result of an earlier step of the same circuit.
#[derive(Clone, Copy, Debug, PartialEq, Eq, Structural)]
pub enum Operand {
    Handle(u128),
    Step(usize),
}

/// One call into the confidential compute engine.
#[derive(Clone, Copy, Debug, PartialEq, Eq, Structural)]
pub enum Op {
    /// Encrypt a plaintext value.
    Encrypt(u128),
    /// Encrypted `a > b`.
    Gt(Operand, Operand),
    /// Encrypted `a >= b`.
    Ge(Operand, Operand),
    /// Encrypted `a == b`.
    Eq(Operand, Operand),
    /// Encrypted `if c { a } else { b }`.
    Select(Operand, Operand, Operand),
    /// Encrypted `a && b`.
    And(Operand, Operand),
}

/// The plaintext behind an operand, where `dec` maps each handle to the
/// plaintext it stands for (booleans as 1 and 0).
pub open spec fn operand_value(o: Operand, results: Seq<u128>, dec: spec_fn(u128) -> int) -> int {
    match o {
        Operand::Handle(h) => dec(h),
        Operand::Step(i) => if i < results.len() { dec(results[i as int]) } else { 0 },
    }
}

pub open spec fn bool_value(b: bool) -> int {
    if b { 1 } else { 0 }
}

/// The plaintext that the engine's answer to `op` stands for.
pub open spec fn op_value(op: Op, results: Seq<u128>, dec: spec_fn(u128) -> int) -> int {
    match op {
        Op::Encrypt(p) => p as int,
        Op::Gt(a, b) => bool_value(
            operand_value(a, results, dec) > operand_value(b, results, dec),
        ),
        Op::Ge(a, b) => bool_value(
            operand_value(a, results, dec) >= operand_value(b, results, dec),
        ),
        Op::Eq(a, b) => bool_value(
            operand_value(a, results, dec) == operand_value(b, results, dec),
        ),
        Op::Select(c, a, b) => if operand_value(c, results, dec) != 0 {
            operand_value(a, results, dec)
        } else {
            operand_value(b, results, dec)
        },
        Op::And(a, b) => bool_value(
            operand_value(a, results, dec) != 0 && operand_value(b, results, dec) != 0,
        ),
    }
}

/// The engine's capability contract: `results` holds one handle per
/// operation of `ops`, in order, and each decrypts to what its operation
/// computes on the plaintexts of its operands.
pub open spec fn faithful(ops: Seq<Op>, results: Seq<u128>, dec: spec_fn(u128) -> int) -> bool {
    &&& results.len() == ops.len()
    &&& forall|i: int|
        0 <= i < ops.len() ==> #[trigger] dec(results[i]) == op_value(ops[i], results, dec)
}

} // verus!
