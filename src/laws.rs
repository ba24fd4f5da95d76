//! Properties that relate several instructions or hold of every state.
use vstd::prelude::*;

use crate::console::{input_value, parse_integer, MODE_CELL};
use crate::cpu::{
    can_fetch, fetch_address, fetched, lemma_fetch_address_bounded, lemma_pointer_bounded, pointer, spec_execute, spec_step,
    Event, CPU,
};
use crate::instruction::{lemma_fields_bounded, operand, spec_decode, Instruction};
use crate::memory::{in_range, MemoryError};

verus! {

/// LOAD from `a` then STORE to `b` copies the word at `a` into `b`.
pub proof fn law_load_then_store(cpu: CPU, mem: Seq<i16>, a: u16, b: u16)
    requires
        in_range(mem.len() as int, a as i16),
        in_range(mem.len() as int, b as i16),
        a < 4096,
        b < 4096,
    ensures
        ({
            let s1 = spec_execute(cpu, mem, Instruction::Load(a));
            let s2 = spec_execute(s1.0, s1.1, Instruction::Store(b));
            &&& s1.2 == Ok::<Event, MemoryError>(Event::Continue)
            &&& s2.2 == Ok::<Event, MemoryError>(Event::Continue)
            &&& s2.1[b as int] == mem[a as int]
        }),
{
}

/// ADD from `a` then SUBT from `a` gives the accumulator back, whatever
/// the word at `a`: both wrap the same way.
pub proof fn law_add_then_subtract(cpu: CPU, mem: Seq<i16>, a: u16)
    requires
        in_range(mem.len() as int, a as i16),
        a < 4096,
    ensures
        ({
            let s1 = spec_execute(cpu, mem, Instruction::Add(a));
            let s2 = spec_execute(s1.0, s1.1, Instruction::Subt(a));
            &&& s1.2 == Ok::<Event, MemoryError>(Event::Continue)
            &&& s2.2 == Ok::<Event, MemoryError>(Event::Continue)
            &&& s2.0.ac == cpu.ac
        }),
{
}

/// With a zero accumulator, a SKIPCOND word with condition 1 (zero) moves
/// the program counter one further than fetch alone did; with condition 0
/// (negative) or 2 (positive) it leaves it where fetch put it.
pub proof fn law_skip_on_zero(cpu: CPU, mem: Seq<i16>, c: u16)
    requires
        can_fetch(cpu, mem),
        spec_decode(mem[fetch_address(cpu.pc) as int]) == Instruction::SkipCond(c),
        cpu.ac == 0,
    ensures
        spec_step(cpu, mem).2 == Ok::<Event, MemoryError>(Event::Continue),
        c == 1 ==> spec_step(cpu, mem).0.pc == fetched(cpu, mem).pc.wrapping_add(1),
        (c == 0 || c == 2) ==> spec_step(cpu, mem).0.pc == fetched(cpu, mem).pc,
        fetched(cpu, mem).pc == cpu.pc.wrapping_add(1),
{
}

/// A subroutine call returns: JnS to `a` stores the address after the call
/// in cell `a` and continues at `a + 1`; a later JUMPI through `a`, with
/// that cell as JnS left it, continues just after the call.
pub proof fn law_subroutine_round_trip(
    cpu: CPU,
    mem: Seq<i16>,
    a: u16,
    later: CPU,
    later_mem: Seq<i16>,
)
    requires
        can_fetch(cpu, mem),
        spec_decode(mem[fetch_address(cpu.pc) as int]) == Instruction::JnS(a),
        in_range(mem.len() as int, a as i16),
        can_fetch(later, later_mem),
        spec_decode(later_mem[fetch_address(later.pc) as int]) == Instruction::JumpI(a),
        in_range(later_mem.len() as int, a as i16),
        later_mem[a as int] == spec_step(cpu, mem).1[a as int],
    ensures
        spec_step(cpu, mem).2 == Ok::<Event, MemoryError>(Event::Continue),
        spec_step(cpu, mem).0.pc == a + 1,
        spec_step(cpu, mem).1[a as int] == cpu.pc.wrapping_add(1),
        spec_step(later, later_mem).2 == Ok::<Event, MemoryError>(Event::Continue),
        spec_step(later, later_mem).0.pc == cpu.pc.wrapping_add(1),
{
    lemma_fields_bounded(mem[fetch_address(cpu.pc) as int]);
}

/// INPUT never aborts: executing it only asks the host for a line, and a
/// line that writes no integer puts zero in the accumulator.
pub proof fn law_input_recovers(cpu: CPU, mem: Seq<i16>, line: Seq<char>)
    ensures
        spec_execute(cpu, mem, Instruction::Input) == (cpu, mem, Ok::<Event, MemoryError>(
            Event::Input,
        )),
        parse_integer(line) is None ==> input_value(line) == 0,
{
}

/// Every address the machine uses, whether it comes from an instruction
/// word, the program counter, or a pointer read from memory, lies in
/// `0..4096`; so in a memory of at least 4096 words no cycle is refused.
pub proof fn law_addresses_masked(cpu: CPU, mem: Seq<i16>, word: i16)
    requires
        mem.len() >= 4096,
    ensures
        operand(word) < 4096,
        0 <= fetch_address(word) < 4096,
        0 <= pointer(word) < 4096,
        can_fetch(cpu, mem),
        spec_step(cpu, mem).2 is Ok,
{
    lemma_fields_bounded(word);
    lemma_fetch_address_bounded(word);
    lemma_pointer_bounded(word);
    lemma_fetch_address_bounded(cpu.pc);
    let w = mem[fetch_address(cpu.pc) as int];
    lemma_fields_bounded(w);
    lemma_pointer_bounded(mem[operand(w) as int]);
    assert(in_range(mem.len() as int, MODE_CELL));
}

} // verus!
