//! Operation codes of the machine.
use vstd::prelude::*;

verus! {

/// An operation code. Its number is its position in the list, from 0 for
/// `Halt` to 21 for `NoOp`.
#[derive(Debug, PartialEq, Eq, Structural, Clone, Copy)]
pub enum OP {
    Halt,
    SetReg,
    Push,
    Pop,
    Eq,
    Gt,
    Jmp,
    Jt,
    Jf,
    Add,
    Mul,
    Modulo,
    And,
    Or,
    Not,
    Rmem,
    Wmem,
    Call,
    Ret,
    Out,
    Input,
    NoOp,
}

/// The number that encodes an operation.
pub open spec fn code_of(op: OP) -> u16 {
    match op {
        OP::Halt => 0,
        OP::SetReg => 1,
        OP::Push => 2,
        OP::Pop => 3,
        OP::Eq => 4,
        OP::Gt => 5,
        OP::Jmp => 6,
        OP::Jt => 7,
        OP::Jf => 8,
        OP::Add => 9,
        OP::Mul => 10,
        OP::Modulo => 11,
        OP::And => 12,
        OP::Or => 13,
        OP::Not => 14,
        OP::Rmem => 15,
        OP::Wmem => 16,
        OP::Call => 17,
        OP::Ret => 18,
        OP::Out => 19,
        OP::Input => 20,
        OP::NoOp => 21,
    }
}

/// The operation a word encodes: the one whose code it is, if any.
pub open spec fn decode(w: u16) -> Option<OP> {
    if w <= 21 {
        Some(choose|op: OP| code_of(op) == w)
    } else {
        None
    }
}

/// The number of operand words that follow the operation's code.
pub open spec fn arity(op: OP) -> nat {
    match op {
        OP::Halt | OP::Ret | OP::NoOp => 0,
        OP::Push | OP::Pop | OP::Jmp | OP::Call | OP::Out | OP::Input => 1,
        OP::SetReg | OP::Jt | OP::Jf | OP::Not | OP::Rmem | OP::Wmem => 2,
        _ => 3,
    }
}

impl OP {
    /// The operation encoded by `w`, or `None` when `w` is no operation code.
    pub fn from_u16(w: u16) -> (r: Option<OP>)
        ensures
            r == decode(w),
            r matches Some(op) ==> code_of(op) == w,
            r is None <==> w > 21,
    {
        let r = match w {
            0 => Some(OP::Halt),
            1 => Some(OP::SetReg),
            2 => Some(OP::Push),
            3 => Some(OP::Pop),
            4 => Some(OP::Eq),
            5 => Some(OP::Gt),
            6 => Some(OP::Jmp),
            7 => Some(OP::Jt),
            8 => Some(OP::Jf),
            9 => Some(OP::Add),
            10 => Some(OP::Mul),
            11 => Some(OP::Modulo),
            12 => Some(OP::And),
            13 => Some(OP::Or),
            14 => Some(OP::Not),
            15 => Some(OP::Rmem),
            16 => Some(OP::Wmem),
            17 => Some(OP::Call),
            18 => Some(OP::Ret),
            19 => Some(OP::Out),
            20 => Some(OP::Input),
            21 => Some(OP::NoOp),
            _ => None,
        };
        proof {
            if let Some(op) = r {
                lemma_code_unique(op);
            }
        }
        r
    }

    /// The number that encodes this operation.
    pub fn to_u16(self) -> (r: u16)
        ensures
            r == code_of(self),
    {
        match self {
            OP::Halt => 0,
            OP::SetReg => 1,
            OP::Push => 2,
            OP::Pop => 3,
            OP::Eq => 4,
            OP::Gt => 5,
            OP::Jmp => 6,
            OP::Jt => 7,
            OP::Jf => 8,
            OP::Add => 9,
            OP::Mul => 10,
            OP::Modulo => 11,
            OP::And => 12,
            OP::Or => 13,
            OP::Not => 14,
            OP::Rmem => 15,
            OP::Wmem => 16,
            OP::Call => 17,
            OP::Ret => 18,
            OP::Out => 19,
            OP::Input => 20,
            OP::NoOp => 21,
        }
    }

    /// The number of operand words that follow this operation's code.
    pub fn operand_count(self) -> (r: usize)
        ensures
            r == arity(self),
    {
        match self {
            OP::Halt | OP::Ret | OP::NoOp => 0,
            OP::Push | OP::Pop | OP::Jmp | OP::Call | OP::Out | OP::Input => 1,
            OP::SetReg | OP::Jt | OP::Jf | OP::Not | OP::Rmem | OP::Wmem => 2,
            _ => 3,
        }
    }
}

/// Distinct operations have distinct codes, so a code names one operation.
pub proof fn lemma_code_unique(op: OP)
    ensures
        code_of(op) <= 21,
        decode(code_of(op)) == Some(op),
{
    let w = code_of(op);
    assert(code_of(op) == w);
    let other = choose|o: OP| code_of(o) == w;
    assert(code_of(other) == w);
    assert(other == op);
}

} // verus!
