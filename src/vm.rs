//! The execution engine: machine state, its mathematical model, and the
//! meaning of one step.
use vstd::prelude::*;
use crate::ops::{OP, decode, arity};
use crate::util::{u8s_to_u16, word_of};
use std::collections::VecDeque;

verus! {

/// Number of general-purpose registers.
pub const NUM_REGISTERS: usize = 8;

/// Number of memory words; also the first word that names a register.
pub const DATA_SIZE: usize = 32768;

/// Why a program stopped with a fault.
#[derive(Debug, PartialEq, Eq, Structural, Clone, Copy)]
pub enum VmError {
    /// The image has an odd length or more than 65536 bytes.
    MalformedImage,
    /// The word at the program counter is no operation code.
    InvalidOpcode,
    /// An operand, write target, memory address or fetch lies outside what is legal there.
    InvalidAddress,
    /// `Pop` or `Ret` found the stack empty.
    StackUnderflow,
    /// `Modulo` with a divisor of zero.
    DivideByZero,
}

/// What one step did, besides changing the state.
#[derive(Debug, PartialEq, Eq, Structural, Clone, Copy)]
pub enum Event {
    /// An instruction ran and execution goes on.
    Continue,
    /// `Out` ran and emits this byte.
    Output(u8),
    /// `Input` found the input queue empty; nothing changed. Feed a line and step again.
    NeedsInput,
    /// `Halt` was reached; nothing changed.
    Halted,
}

/// Why a bounded run stopped without a fault.
#[derive(Debug, PartialEq, Eq, Structural, Clone, Copy)]
pub enum Stop {
    Halted,
    NeedsInput,
    OutOfFuel,
}

/// The mathematical state of a machine.
pub struct Machine {
    pub pc: int,
    pub regs: Seq<u16>,
    pub mem: Seq<u16>,
    pub stack: Seq<u16>,
    pub input: Seq<u8>,
}

impl Machine {
    /// Eight registers and a full memory.
    pub open spec fn wf(self) -> bool {
        &&& self.regs.len() == NUM_REGISTERS
        &&& self.mem.len() == DATA_SIZE
        &&& 0 <= self.pc <= usize::MAX
    }
}

/// A machine with program counter 0, zeroed registers, an empty stack and
/// input queue, and memory `mem`.
pub open spec fn fresh(mem: Seq<u16>) -> Machine {
    Machine { pc: 0, regs: Seq::new(8, |i: int| 0u16), mem, stack: seq![], input: seq![] }
}

/// Memory as loaded from an image: word `i` from bytes `2i` (low) and `2i+1`
/// (high), zero past the image.
pub open spec fn loaded(bytes: Seq<u8>) -> Seq<u16> {
    Seq::new(
        DATA_SIZE as nat,
        |i: int|
            if 2 * i + 1 < bytes.len() {
                word_of(bytes[2 * i], bytes[2 * i + 1])
            } else {
                0u16
            },
    )
}

/// The value a raw operand word denotes: itself below 32768, the register it
/// names in 32768..=32775, and an error above.
pub open spec fn resolve(regs: Seq<u16>, v: u16) -> Result<u16, VmError> {
    if v <= 32767 {
        Ok(v)
    } else if v <= 32775 {
        Ok(regs[v - 32768])
    } else {
        Err(VmError::InvalidAddress)
    }
}

/// The register a write target names: 0..=7 directly, or 32768..=32775.
pub open spec fn target_index(addr: u16) -> Result<int, VmError> {
    if addr < 8 {
        Ok(addr as int)
    } else if 32768 <= addr <= 32775 {
        Ok(addr - 32768)
    } else {
        Err(VmError::InvalidAddress)
    }
}

/// The value that storing `val` writes: a register-encoded value is replaced
/// by that register's contents.
pub open spec fn stored_value(regs: Seq<u16>, val: u16) -> u16 {
    if 32768 <= val <= 32775 {
        regs[val - 32768]
    } else {
        val
    }
}

/// The machine after storing `val` to the write target `addr`.
pub open spec fn store(m: Machine, addr: u16, val: u16) -> Result<Machine, VmError> {
    match target_index(addr) {
        Ok(i) => Ok(Machine { regs: m.regs.update(i, stored_value(m.regs, val)), ..m }),
        Err(e) => Err(e),
    }
}

/// The machine with its program counter moved on by `n` words.
pub open spec fn advance(m: Machine, n: int) -> Machine {
    Machine { pc: m.pc + n, ..m }
}

/// The raw word `k` places after the program counter.
pub open spec fn raw(m: Machine, k: int) -> u16 {
    m.mem[m.pc + k]
}

/// The value of operand `k` of the current instruction.
pub open spec fn opnd(m: Machine, k: int) -> Result<u16, VmError> {
    resolve(m.regs, raw(m, k))
}

/// The fifteen-bit complement.
pub open spec fn not15(b: u16) -> u16 {
    !b & 0x7fff
}

/// What a three-operand instruction stores for operands `b` and `c`.
pub open spec fn alu(op: OP, b: u16, c: u16) -> u16 {
    match op {
        OP::Eq => if b == c { 1 } else { 0 },
        OP::Gt => if b > c { 1 } else { 0 },
        OP::Add => ((b as int + c as int) % 32768) as u16,
        OP::Mul => ((b as int * c as int) % 32768) as u16,
        OP::Modulo => ((b as int % c as int) % 32768) as u16,
        OP::And => (b & c) % 32768,
        _ => (b | c) % 32768,
    }
}

/// Stores `val` to `addr` and goes on.
pub open spec fn store_then_continue(m: Machine, addr: u16, val: u16) -> Result<(Machine, Event), VmError> {
    match store(m, addr, val) {
        Ok(m2) => Ok((m2, Event::Continue)),
        Err(e) => Err(e),
    }
}

/// The machine with its program counter set to `target`.
pub open spec fn jump(m: Machine, target: u16) -> Machine {
    Machine { pc: target as int, ..m }
}

/// The effect of instruction `op` at the program counter, all of whose words
/// lie in memory.
pub open spec fn execute(m: Machine, op: OP) -> Result<(Machine, Event), VmError> {
    let next = advance(m, arity(op) as int + 1);
    match op {
        OP::Halt => Ok((m, Event::Halted)),
        OP::SetReg => match opnd(m, 2) {
            Ok(b) => store_then_continue(next, raw(m, 1), b),
            Err(e) => Err(e),
        },
        OP::Push => match opnd(m, 1) {
            Ok(a) => Ok((Machine { stack: m.stack.push(a), ..next }, Event::Continue)),
            Err(e) => Err(e),
        },
        OP::Pop => if m.stack.len() == 0 {
            Err(VmError::StackUnderflow)
        } else {
            store_then_continue(Machine { stack: m.stack.drop_last(), ..next }, raw(m, 1), m.stack.last())
        },
        OP::Jmp => match opnd(m, 1) {
            Ok(a) => Ok((jump(m, a), Event::Continue)),
            Err(e) => Err(e),
        },
        OP::Jt | OP::Jf => match (opnd(m, 1), opnd(m, 2)) {
            (Ok(a), Ok(b)) => if (a != 0) == (op is Jt) {
                Ok((jump(m, b), Event::Continue))
            } else {
                Ok((next, Event::Continue))
            },
            (Err(e), _) => Err(e),
            (_, Err(e)) => Err(e),
        },
        OP::Not => match opnd(m, 2) {
            Ok(b) => store_then_continue(next, raw(m, 1), not15(b)),
            Err(e) => Err(e),
        },
        OP::Rmem => match opnd(m, 2) {
            Ok(b) => if b >= DATA_SIZE {
                Err(VmError::InvalidAddress)
            } else {
                store_then_continue(next, raw(m, 1), m.mem[b as int])
            },
            Err(e) => Err(e),
        },
        OP::Wmem => match (opnd(m, 1), opnd(m, 2)) {
            (Ok(a), Ok(b)) => if a >= DATA_SIZE {
                Err(VmError::InvalidAddress)
            } else {
                Ok((Machine { mem: m.mem.update(a as int, b), ..next }, Event::Continue))
            },
            (Err(e), _) => Err(e),
            (_, Err(e)) => Err(e),
        },
        OP::Call => match opnd(m, 1) {
            Ok(a) => Ok((Machine { stack: m.stack.push((m.pc + 2) as u16), ..jump(m, a) }, Event::Continue)),
            Err(e) => Err(e),
        },
        OP::Ret => if m.stack.len() == 0 {
            Err(VmError::StackUnderflow)
        } else {
            Ok((Machine { stack: m.stack.drop_last(), ..jump(m, m.stack.last()) }, Event::Continue))
        },
        OP::Out => match opnd(m, 1) {
            Ok(a) => Ok((next, Event::Output((a % 256) as u8))),
            Err(e) => Err(e),
        },
        OP::Input => if m.input.len() == 0 {
            Ok((m, Event::NeedsInput))
        } else {
            store_then_continue(Machine { input: m.input.drop_first(), ..next }, raw(m, 1), m.input[0] as u16)
        },
        OP::NoOp => Ok((next, Event::Continue)),
        _ => match (opnd(m, 2), opnd(m, 3)) {
            (Ok(b), Ok(c)) => if op is Modulo && c == 0 {
                Err(VmError::DivideByZero)
            } else {
                store_then_continue(next, raw(m, 1), alu(op, b, c))
            },
            (Err(e), _) => Err(e),
            (_, Err(e)) => Err(e),
        },
    }
}

/// One fetch-decode-execute step: the next machine and what happened, or the
/// fault. A fault, a halt and a wait for input leave the machine unchanged.
pub open spec fn step(m: Machine) -> Result<(Machine, Event), VmError> {
    if m.pc < 0 || m.pc >= DATA_SIZE {
        Err(VmError::InvalidAddress)
    } else {
        match decode(m.mem[m.pc]) {
            None => Err(VmError::InvalidOpcode),
            Some(op) => if m.pc + arity(op) >= DATA_SIZE {
                Err(VmError::InvalidAddress)
            } else {
                execute(m, op)
            },
        }
    }
}

/// `after` and `r` are what running to `expected` gives from `before`: its
/// machine and event, or its fault with the machine unchanged.
pub open spec fn reaches(before: Machine, after: Machine, r: Result<Event, VmError>, expected: Result<(Machine, Event), VmError>) -> bool {
    match expected {
        Ok((m, ev)) => r == Ok::<Event, VmError>(ev) && after == m,
        Err(e) => r == Err::<Event, VmError>(e) && after == before,
    }
}

/// Up to `fuel` steps from `m`: the machine reached, the bytes emitted, and
/// why the run stopped. A fault leaves the machine as it was before the
/// faulting step.
pub open spec fn run_steps(m: Machine, fuel: nat) -> (Machine, Seq<u8>, Result<Stop, VmError>)
    decreases fuel,
{
    if fuel == 0 {
        (m, seq![], Ok(Stop::OutOfFuel))
    } else {
        match step(m) {
            Err(e) => (m, seq![], Err(e)),
            Ok((m2, Event::Halted)) => (m2, seq![], Ok(Stop::Halted)),
            Ok((m2, Event::NeedsInput)) => (m2, seq![], Ok(Stop::NeedsInput)),
            Ok((m2, Event::Output(b))) => {
                let rest = run_steps(m2, (fuel - 1) as nat);
                (rest.0, seq![b] + rest.1, rest.2)
            },
            Ok((m2, Event::Continue)) => run_steps(m2, (fuel - 1) as nat),
        }
    }
}

/// An ASCII upper-case letter made lower case; any other byte as it is.
pub open spec fn lower_byte(b: u8) -> u8 {
    if 65 <= b <= 90 {
        (b + 32) as u8
    } else {
        b
    }
}

pub struct VM {
    pc: usize,
    registers: Vec<u16>,
    data: Vec<u16>,
    stack: Vec<u16>,
    input_buffer: VecDeque<u8>,
}

impl View for VM {
    type V = Machine;

    closed spec fn view(&self) -> Machine {
        Machine {
            pc: self.pc as int,
            regs: self.registers@,
            mem: self.data@,
            stack: self.stack@,
            input: self.input_buffer@,
        }
    }
}

impl VM {
    /// A machine with all memory zero.
    pub fn new() -> (r: VM)
        ensures
            r@ == fresh(Seq::new(DATA_SIZE as nat, |i: int| 0u16)),
            r@.wf(),
    {
        let r = VM {
            pc: 0,
            registers: vec![0u16; NUM_REGISTERS],
            data: vec![0u16; DATA_SIZE],
            stack: Vec::new(),
            input_buffer: VecDeque::new(),
        };
        assert(r.registers@ =~= Seq::new(8, |i: int| 0u16));
        assert(r.data@ =~= Seq::new(DATA_SIZE as nat, |i: int| 0u16));
        assert(r.stack@ =~= seq![]);
        assert(r.input_buffer@ =~= seq![]);
        r
    }

    /// The value the raw operand word `v` denotes.
    pub fn load_val(&self, v: u16) -> (r: Result<u16, VmError>)
        requires
            self@.wf(),
        ensures
            r == resolve(self@.regs, v),
            v <= 32767 ==> r == Ok::<u16, VmError>(v),
            32768 <= v <= 32775 ==> r == Ok::<u16, VmError>(self@.regs[v - 32768]),
            v > 32775 ==> r == Err::<u16, VmError>(VmError::InvalidAddress),
    {
        if v <= 32767 {
            Ok(v)
        } else if v <= 32775 {
            Ok(self.registers[(v - 32768) as usize])
        } else {
            Err(VmError::InvalidAddress)
        }
    }

    /// Stores `val` into the register that the write target `addr` names.
    /// On an error nothing changes.
    pub fn store_register(&mut self, addr: u16, val: u16) -> (r: Result<(), VmError>)
        requires
            old(self)@.wf(),
        ensures
            final(self)@.wf(),
            match store(old(self)@, addr, val) {
                Ok(m) => r is Ok && final(self)@ == m,
                Err(e) => r == Err::<(), VmError>(e) && final(self)@ == old(self)@,
            },
            addr > 32775 ==> r == Err::<(), VmError>(VmError::InvalidAddress),
    {
        let idx: usize = if addr < 8 {
            addr as usize
        } else if 32768 <= addr && addr <= 32775 {
            (addr - 32768) as usize
        } else {
            return Err(VmError::InvalidAddress);
        };
        let v: u16 = if 32768 <= val && val <= 32775 {
            self.registers[(val - 32768) as usize]
        } else {
            val
        };
        self.registers.set(idx, v);
        Ok(())
    }

    /// The raw word `k` places after the program counter.
    fn raw_word(&self, k: usize) -> (r: u16)
        requires
            self@.wf(),
            self@.pc + k < DATA_SIZE,
        ensures
            r == raw(self@, k as int),
    {
        self.data[self.pc + k]
    }

    /// The value of operand `k` of the current instruction.
    fn next_val(&self, k: usize) -> (r: Result<u16, VmError>)
        requires
            self@.wf(),
            self@.pc + k < DATA_SIZE,
        ensures
            r == opnd(self@, k as int),
    {
        let w = self.raw_word(k);
        self.load_val(w)
    }

    /// Whether `addr` names a register.
    fn is_target(addr: u16) -> (r: bool)
        ensures
            r == target_index(addr) is Ok,
    {
        addr < 8 || (32768 <= addr && addr <= 32775)
    }

    /// Stores to operand 1 and moves past an instruction of `len` words.
    fn store_and_advance(&mut self, len: usize, val: u16) -> (r: Result<Event, VmError>)
        requires
            old(self)@.wf(),
            2 <= len <= 4,
            old(self)@.pc + len <= DATA_SIZE,
        ensures
            final(self)@.wf(),
            reaches(old(self)@, final(self)@, r,
                store_then_continue(advance(old(self)@, len as int), raw(old(self)@, 1), val)),
    {
        let addr = self.raw_word(1);
        match self.store_register(addr, val) {
            Ok(()) => {
                self.pc = self.pc + len;
                Ok(Event::Continue)
            },
            Err(e) => Err(e),
        }
    }

    fn set(&mut self) -> (r: Result<Event, VmError>)
        requires
            old(self)@.wf(),
            old(self)@.pc + 2 < DATA_SIZE,
        ensures
            final(self)@.wf(),
            reaches(old(self)@, final(self)@, r, execute(old(self)@, OP::SetReg)),
    {
        match self.next_val(2) {
            Ok(b) => self.store_and_advance(3, b),
            Err(e) => Err(e),
        }
    }

    fn push(&mut self) -> (r: Result<Event, VmError>)
        requires
            old(self)@.wf(),
            old(self)@.pc + 1 < DATA_SIZE,
        ensures
            final(self)@.wf(),
            reaches(old(self)@, final(self)@, r, execute(old(self)@, OP::Push)),
    {
        match self.next_val(1) {
            Ok(a) => {
                self.stack.push(a);
                self.pc = self.pc + 2;
                Ok(Event::Continue)
            },
            Err(e) => Err(e),
        }
    }

    fn pop(&mut self) -> (r: Result<Event, VmError>)
        requires
            old(self)@.wf(),
            old(self)@.pc + 1 < DATA_SIZE,
        ensures
            final(self)@.wf(),
            reaches(old(self)@, final(self)@, r, execute(old(self)@, OP::Pop)),
    {
        if self.stack.len() == 0 {
            return Err(VmError::StackUnderflow);
        }
        let addr = self.raw_word(1);
        if !VM::is_target(addr) {
            return Err(VmError::InvalidAddress);
        }
        let v = self.stack.pop().unwrap();
        self.store_and_advance(2, v)
    }

    /// An instruction that stores `alu(op, b, c)` for operands 2 and 3.
    fn alu_op(&mut self, op: OP) -> (r: Result<Event, VmError>)
        requires
            old(self)@.wf(),
            old(self)@.pc + 3 < DATA_SIZE,
            arity(op) == 3,
        ensures
            final(self)@.wf(),
            reaches(old(self)@, final(self)@, r, execute(old(self)@, op)),
    {
        let b = match self.next_val(2) {
            Ok(b) => b,
            Err(e) => return Err(e),
        };
        let c = match self.next_val(3) {
            Ok(c) => c,
            Err(e) => return Err(e),
        };
        let res: u16 = match op {
            OP::Eq => if b == c { 1 } else { 0 },
            OP::Gt => if b > c { 1 } else { 0 },
            OP::Add => ((b as u32 + c as u32) % 32768) as u16,
            OP::Mul => {
                assert((b as u64) * (c as u64) <= 65535 * 65535) by (nonlinear_arith)
                    requires
                        b <= 65535,
                        c <= 65535,
                ;
                ((b as u64 * c as u64) % 32768) as u16
            },
            OP::Modulo => {
                if c == 0 {
                    return Err(VmError::DivideByZero);
                }
                (b % c) % 32768
            },
            OP::And => (b & c) % 32768,
            _ => (b | c) % 32768,
        };
        self.store_and_advance(4, res)
    }

    fn jmp(&mut self) -> (r: Result<Event, VmError>)
        requires
            old(self)@.wf(),
            old(self)@.pc + 1 < DATA_SIZE,
        ensures
            final(self)@.wf(),
            reaches(old(self)@, final(self)@, r, execute(old(self)@, OP::Jmp)),
    {
        match self.next_val(1) {
            Ok(a) => {
                self.pc = a as usize;
                Ok(Event::Continue)
            },
            Err(e) => Err(e),
        }
    }

    /// `Jt` (jump when operand 1 is non-zero) or `Jf` (when it is zero).
    fn branch(&mut self, op: OP) -> (r: Result<Event, VmError>)
        requires
            old(self)@.wf(),
            old(self)@.pc + 2 < DATA_SIZE,
            op is Jt || op is Jf,
        ensures
            final(self)@.wf(),
            reaches(old(self)@, final(self)@, r, execute(old(self)@, op)),
    {
        let a = match self.next_val(1) {
            Ok(a) => a,
            Err(e) => return Err(e),
        };
        let b = match self.next_val(2) {
            Ok(b) => b,
            Err(e) => return Err(e),
        };
        let when_true = match op {
            OP::Jt => true,
            _ => false,
        };
        if (a != 0) == when_true {
            self.pc = b as usize;
        } else {
            self.pc = self.pc + 3;
        }
        Ok(Event::Continue)
    }

    fn not(&mut self) -> (r: Result<Event, VmError>)
        requires
            old(self)@.wf(),
            old(self)@.pc + 2 < DATA_SIZE,
        ensures
            final(self)@.wf(),
            reaches(old(self)@, final(self)@, r, execute(old(self)@, OP::Not)),
    {
        match self.next_val(2) {
            Ok(b) => self.store_and_advance(3, !b & 0x7fff),
            Err(e) => Err(e),
        }
    }

    fn rmem(&mut self) -> (r: Result<Event, VmError>)
        requires
            old(self)@.wf(),
            old(self)@.pc + 2 < DATA_SIZE,
        ensures
            final(self)@.wf(),
            reaches(old(self)@, final(self)@, r, execute(old(self)@, OP::Rmem)),
    {
        match self.next_val(2) {
            Ok(b) => {
                if b as usize >= DATA_SIZE {
                    return Err(VmError::InvalidAddress);
                }
                let v = self.data[b as usize];
                self.store_and_advance(3, v)
            },
            Err(e) => Err(e),
        }
    }

    fn wmem(&mut self) -> (r: Result<Event, VmError>)
        requires
            old(self)@.wf(),
            old(self)@.pc + 2 < DATA_SIZE,
        ensures
            final(self)@.wf(),
            reaches(old(self)@, final(self)@, r, execute(old(self)@, OP::Wmem)),
    {
        let a = match self.next_val(1) {
            Ok(a) => a,
            Err(e) => return Err(e),
        };
        let b = match self.next_val(2) {
            Ok(b) => b,
            Err(e) => return Err(e),
        };
        if a as usize >= DATA_SIZE {
            return Err(VmError::InvalidAddress);
        }
        self.data.set(a as usize, b);
        self.pc = self.pc + 3;
        Ok(Event::Continue)
    }

    fn call(&mut self) -> (r: Result<Event, VmError>)
        requires
            old(self)@.wf(),
            old(self)@.pc + 1 < DATA_SIZE,
        ensures
            final(self)@.wf(),
            reaches(old(self)@, final(self)@, r, execute(old(self)@, OP::Call)),
    {
        match self.next_val(1) {
            Ok(a) => {
                let back = (self.pc + 2) as u16;
                self.stack.push(back);
                self.pc = a as usize;
                Ok(Event::Continue)
            },
            Err(e) => Err(e),
        }
    }

    fn ret(&mut self) -> (r: Result<Event, VmError>)
        requires
            old(self)@.wf(),
        ensures
            final(self)@.wf(),
            reaches(old(self)@, final(self)@, r, execute(old(self)@, OP::Ret)),
    {
        match self.stack.pop() {
            Some(a) => {
                self.pc = a as usize;
                Ok(Event::Continue)
            },
            None => Err(VmError::StackUnderflow),
        }
    }

    fn out(&mut self) -> (r: Result<Event, VmError>)
        requires
            old(self)@.wf(),
            old(self)@.pc + 1 < DATA_SIZE,
        ensures
            final(self)@.wf(),
            reaches(old(self)@, final(self)@, r, execute(old(self)@, OP::Out)),
    {
        match self.next_val(1) {
            Ok(a) => {
                self.pc = self.pc + 2;
                Ok(Event::Output((a % 256) as u8))
            },
            Err(e) => Err(e),
        }
    }

    fn input(&mut self) -> (r: Result<Event, VmError>)
        requires
            old(self)@.wf(),
            old(self)@.pc + 1 < DATA_SIZE,
        ensures
            final(self)@.wf(),
            reaches(old(self)@, final(self)@, r, execute(old(self)@, OP::Input)),
    {
        if self.input_buffer.len() == 0 {
            return Ok(Event::NeedsInput);
        }
        let addr = self.raw_word(1);
        if !VM::is_target(addr) {
            return Err(VmError::InvalidAddress);
        }
        let c = self.input_buffer.pop_front().unwrap();
        self.store_and_advance(2, c as u16)
    }

    /// A machine whose memory is loaded from a little-endian image. The image
    /// must have an even length of at most 65536 bytes.
    pub fn from_data(data: &[u8]) -> (r: Result<VM, VmError>)
        ensures
            r is Err <==> (data@.len() % 2 == 1 || data@.len() > 2 * DATA_SIZE),
            match r {
                Ok(vm) => vm@ == fresh(loaded(data@)) && vm@.wf(),
                Err(e) => e == VmError::MalformedImage,
            },
    {
        if data.len() % 2 == 1 || data.len() > 2 * DATA_SIZE {
            return Err(VmError::MalformedImage);
        }
        let mut vm = VM::new();
        let n: usize = data.len() / 2;
        let mut i: usize = 0;
        while i < n
            invariant
                n == data@.len() / 2,
                data@.len() % 2 == 0,
                n <= DATA_SIZE,
                i <= n,
                vm.pc == 0,
                vm.registers@ == Seq::new(8, |j: int| 0u16),
                vm.stack@ == Seq::<u16>::empty(),
                vm.input_buffer@ == Seq::<u8>::empty(),
                vm.data@.len() == DATA_SIZE,
                forall|j: int|
                    0 <= j < DATA_SIZE ==> vm.data@[j] == if j < i {
                        word_of(data@[2 * j], data@[2 * j + 1])
                    } else {
                        0u16
                    },
            decreases n - i,
        {
            let w = u8s_to_u16(data[2 * i], data[2 * i + 1]);
            vm.data.set(i, w);
            i = i + 1;
        }
        assert(vm.data@ =~= loaded(data@));
        Ok(vm)
    }

    /// Appends one line of input, ASCII letters made lower case, to the input queue.
    pub fn feed_line(&mut self, line: &[u8])
        requires
            old(self)@.wf(),
        ensures
            final(self)@ == (Machine {
                input: old(self)@.input + line@.map_values(|b: u8| lower_byte(b)),
                ..old(self)@
            }),
            final(self)@.wf(),
    {
        let ghost start = self@.input;
        let mut i: usize = 0;
        while i < line.len()
            invariant
                i <= line@.len(),
                self@ == (Machine { input: self@.input, ..old(self)@ }),
                self@.input == start + line@.subrange(0, i as int).map_values(|b: u8| lower_byte(b)),
                start == old(self)@.input,
                old(self)@.wf(),
            decreases line@.len() - i,
        {
            let b = line[i];
            let c: u8 = if 65 <= b && b <= 90 { b + 32 } else { b };
            self.input_buffer.push_back(c);
            assert(line@.subrange(0, i + 1).map_values(|b: u8| lower_byte(b)) =~=
                line@.subrange(0, i as int).map_values(|b: u8| lower_byte(b)).push(c));
            assert(start + line@.subrange(0, i + 1).map_values(|b: u8| lower_byte(b)) =~=
                (start + line@.subrange(0, i as int).map_values(|b: u8| lower_byte(b))).push(c));
            i = i + 1;
        }
        assert(line@.subrange(0, line@.len() as int) =~= line@);
    }

    /// The program counter.
    pub fn pc(&self) -> (r: usize)
        ensures
            r == self@.pc,
    {
        self.pc
    }

    /// The contents of register `i`.
    pub fn register(&self, i: usize) -> (r: u16)
        requires
            self@.wf(),
            i < NUM_REGISTERS,
        ensures
            r == self@.regs[i as int],
    {
        self.registers[i]
    }

    /// The memory word at `addr`.
    pub fn read_mem(&self, addr: usize) -> (r: u16)
        requires
            self@.wf(),
            addr < DATA_SIZE,
        ensures
            r == self@.mem[addr as int],
    {
        self.data[addr]
    }

    /// The number of words on the stack.
    pub fn stack_depth(&self) -> (r: usize)
        ensures
            r == self@.stack.len(),
    {
        self.stack.len()
    }

    /// The number of input bytes waiting in the queue.
    pub fn pending_input(&self) -> (r: usize)
        ensures
            r == self@.input.len(),
    {
        self.input_buffer.len()
    }

    /// Runs the instruction `op`, whose words all lie in memory.
    fn run_op(&mut self, op: OP) -> (r: Result<Event, VmError>)
        requires
            old(self)@.wf(),
            0 <= old(self)@.pc,
            old(self)@.pc + arity(op) < DATA_SIZE,
        ensures
            final(self)@.wf(),
            reaches(old(self)@, final(self)@, r, execute(old(self)@, op)),
    {
        match op {
            OP::Halt => Ok(Event::Halted),
            OP::SetReg => self.set(),
            OP::Push => self.push(),
            OP::Pop => self.pop(),
            OP::Jmp => self.jmp(),
            OP::Jt | OP::Jf => self.branch(op),
            OP::Not => self.not(),
            OP::Rmem => self.rmem(),
            OP::Wmem => self.wmem(),
            OP::Call => self.call(),
            OP::Ret => self.ret(),
            OP::Out => self.out(),
            OP::Input => self.input(),
            OP::NoOp => {
                self.pc = self.pc + 1;
                Ok(Event::Continue)
            },
            _ => self.alu_op(op),
        }
    }

    /// Fetches, decodes and executes one instruction. A fault, a halt and a
    /// wait for input leave the machine unchanged.
    pub fn step(&mut self) -> (r: Result<Event, VmError>)
        requires
            old(self)@.wf(),
        ensures
            final(self)@.wf(),
            reaches(old(self)@, final(self)@, r, step(old(self)@)),
    {
        if self.pc >= DATA_SIZE {
            return Err(VmError::InvalidAddress);
        }
        let op = match OP::from_u16(self.data[self.pc]) {
            Some(op) => op,
            None => return Err(VmError::InvalidOpcode),
        };
        if self.pc + op.operand_count() >= DATA_SIZE {
            return Err(VmError::InvalidAddress);
        }
        self.run_op(op)
    }

    /// Runs at most `fuel` steps, appending every emitted byte to `out`, and
    /// stops early on a halt, a wait for input or a fault.
    pub fn run(&mut self, out: &mut Vec<u8>, fuel: usize) -> (r: Result<Stop, VmError>)
        requires
            old(self)@.wf(),
        ensures
            final(self)@.wf(),
            final(self)@ == run_steps(old(self)@, fuel as nat).0,
            final(out)@ == old(out)@ + run_steps(old(self)@, fuel as nat).1,
            r == run_steps(old(self)@, fuel as nat).2,
    {
        let ghost m0 = self@;
        let ghost o0 = out@;
        let ghost mut produced: Seq<u8> = Seq::empty();
        let mut left: usize = fuel;
        while left > 0
            invariant
                self@.wf(),
                m0 == old(self)@,
                o0 == old(out)@,
                out@ == o0 + produced,
                run_steps(m0, fuel as nat).0 == run_steps(self@, left as nat).0,
                run_steps(m0, fuel as nat).2 == run_steps(self@, left as nat).2,
                run_steps(m0, fuel as nat).1 == produced + run_steps(self@, left as nat).1,
            decreases left,
        {
            let ghost before = self@;
            match self.step() {
                Err(e) => {
                    assert(produced + Seq::<u8>::empty() =~= produced);
                    return Err(e);
                },
                Ok(Event::Halted) => {
                    assert(produced + Seq::<u8>::empty() =~= produced);
                    return Ok(Stop::Halted);
                },
                Ok(Event::NeedsInput) => {
                    assert(produced + Seq::<u8>::empty() =~= produced);
                    return Ok(Stop::NeedsInput);
                },
                Ok(Event::Output(b)) => {
                    out.push(b);
                    let ghost rest = run_steps(self@, (left - 1) as nat).1;
                    assert(produced + (seq![b] + rest) =~= produced.push(b) + rest);
                    assert(out@ =~= o0 + produced.push(b));
                    proof {
                        produced = produced.push(b);
                    }
                },
                Ok(Event::Continue) => {},
            }
            left = left - 1;
        }
        assert(produced + Seq::<u8>::empty() =~= produced);
        Ok(Stop::OutOfFuel)
    }
}

} // verus!
