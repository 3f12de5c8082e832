//! Laws of the machine, proved over the step semantics.
use vstd::prelude::*;
use crate::ops::{OP, code_of, lemma_code_unique};
use crate::vm::{
    DATA_SIZE, Event, Machine, VmError, alu, not15, opnd, raw, resolve, step, store,
    stored_value, target_index,
};

verus! {

/// Operand resolution returns every literal word unchanged.
pub proof fn lemma_literal_resolves_to_itself(regs: Seq<u16>, v: u16)
    requires
        v <= 32767,
    ensures
        resolve(regs, v) == Ok::<u16, VmError>(v),
{
}

/// A register-encoded word resolves to the current contents of its register,
/// so storing into that register changes what the word resolves to.
pub proof fn lemma_register_resolution_follows_store(m: Machine, i: u16, val: u16)
    requires
        m.wf(),
        i < 8,
        !(32768 <= val <= 32775),
    ensures
        resolve(m.regs, (32768 + i) as u16) == Ok::<u16, VmError>(m.regs[i as int]),
        store(m, i, val) matches Ok(m2) && resolve(m2.regs, (32768 + i) as u16) == Ok::<u16, VmError>(val),
{
}

/// Every word above 32775 is refused both as an operand and as a write target.
pub proof fn lemma_invalid_words_fail(m: Machine, v: u16, val: u16)
    requires
        v > 32775,
    ensures
        resolve(m.regs, v) == Err::<u16, VmError>(VmError::InvalidAddress),
        store(m, v, val) == Err::<Machine, VmError>(VmError::InvalidAddress),
{
}

/// `Add`, `Mul` and `Modulo` store a value below 32768.
pub proof fn lemma_arithmetic_is_fifteen_bit(m: Machine, op: OP)
    requires
        m.wf(),
        0 <= m.pc,
        m.pc + 3 < DATA_SIZE,
        op is Add || op is Mul || op is Modulo,
        m.mem[m.pc] == code_of(op),
    ensures
        step(m) matches Ok((m2, _)) ==> (target_index(raw(m, 1)) matches Ok(i) && m2.regs[i] <= 32767),
{
    lemma_code_unique(op);
    if let (Ok(b), Ok(c)) = (opnd(m, 2), opnd(m, 3)) {
        if !(op is Modulo && c == 0) {
            let v = alu(op, b, c);
            assert(v <= 32767);
            assert(stored_value(m.regs, v) == v);
        }
    }
}

/// The fifteen-bit complement is always a fifteen-bit value, and undoes
/// itself on every fifteen-bit value.
pub proof fn lemma_not_involution(b: u16)
    ensures
        not15(b) <= 32767,
        b <= 32767 ==> not15(not15(b)) == b,
{
    assert(!b & 0x7fffu16 <= 32767u16) by (bit_vector);
    assert(b <= 32767 ==> !(!b & 0x7fffu16) & 0x7fffu16 == b) by (bit_vector);
}

/// `Push a` followed by `Pop r` leaves register `r` holding the value pushed
/// and the stack as deep as before, provided the pushed value is not itself a
/// register-encoded word (which `Pop`, like every store, would resolve).
pub proof fn lemma_push_then_pop(m: Machine)
    requires
        m.wf(),
        0 <= m.pc,
        m.pc + 3 < DATA_SIZE,
        m.mem[m.pc] == code_of(OP::Push),
        m.mem[m.pc + 2] == code_of(OP::Pop),
        opnd(m, 1) matches Ok(a) && !(32768 <= a <= 32775),
        target_index(raw(m, 3)) is Ok,
    ensures
        step(m) matches Ok((m1, Event::Continue)) && step(m1) matches Ok((m2, Event::Continue)) && {
            &&& m2.stack == m.stack
            &&& m2.pc == m.pc + 4
            &&& target_index(raw(m, 3)) matches Ok(i) && opnd(m, 1) matches Ok(a) && m2.regs[i] == a
        },
{
    lemma_code_unique(OP::Push);
    lemma_code_unique(OP::Pop);
    let a = opnd(m, 1)->Ok_0;
    let m1 = Machine { pc: m.pc + 2, stack: m.stack.push(a), ..m };
    assert(step(m) == Ok::<(Machine, Event), VmError>((m1, Event::Continue)));
    assert(m1.stack.drop_last() =~= m.stack);
    assert(raw(m1, 1) == raw(m, 3));
}

/// `Call t` followed by the `Ret` at `t` comes back to the word after the
/// `Call`, with the stack as it was.
pub proof fn lemma_call_then_ret(m: Machine)
    requires
        m.wf(),
        0 <= m.pc,
        m.pc + 1 < DATA_SIZE,
        m.mem[m.pc] == code_of(OP::Call),
        opnd(m, 1) matches Ok(t) && t < DATA_SIZE && m.mem[t as int] == code_of(OP::Ret),
    ensures
        step(m) matches Ok((m1, Event::Continue)) && step(m1) matches Ok((m2, Event::Continue)) && {
            &&& m2.pc == m.pc + 2
            &&& m2.stack == m.stack
        },
{
    lemma_code_unique(OP::Call);
    lemma_code_unique(OP::Ret);
    let t = opnd(m, 1)->Ok_0;
    let m1 = Machine { pc: t as int, stack: m.stack.push((m.pc + 2) as u16), ..m };
    assert(step(m) == Ok::<(Machine, Event), VmError>((m1, Event::Continue)));
    assert(m1.stack.drop_last() =~= m.stack);
}

} // verus!
