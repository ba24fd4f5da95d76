//! The processor: its register file and the fetch–decode–execute engine.
use vstd::prelude::*;

use crate::console::{parse_input, render, spec_render, input_value, Output, OutputMode, MODE_CELL};
use crate::instruction::{decode, spec_decode, Instruction};
use crate::memory::{in_range, Memory, MemoryError};

verus! {

/// The register file. Every register is a 16-bit word.
#[derive(Clone, Copy, Debug, PartialEq, Eq, Structural)]
pub struct CPU {
    /// Accumulator.
    pub ac: i16,
    /// Program counter: the address of the next instruction to fetch.
    pub pc: i16,
    /// Instruction register: the word fetched last.
    pub ir: i16,
    /// Memory address register.
    pub mar: i16,
    /// Memory buffer register.
    pub mbr: i16,
}

/// What a step leaves for the host to do.
#[derive(Clone, Copy, Debug, PartialEq, Eq, Structural)]
pub enum Event {
    /// Nothing: the machine can go on.
    Continue,
    /// HALT ran: the machine has stopped for good.
    Halted,
    /// INPUT ran: a line of console input is to be handed to `CPU::input`.
    Input,
    /// OUTPUT ran: this is to be written to the console.
    Output(Output),
}

/// Registers, memory, and what happened: the outcome of a step.
pub type Outcome = (CPU, Seq<i16>, Result<Event, MemoryError>);

/// The address an instruction is fetched from: the program counter's low
/// twelve bits.
pub open spec fn fetch_address(pc: i16) -> i16 {
    pc & 0xfffi16
}

/// Both fetch addresses and operands lie in `0..4096`.
pub proof fn lemma_fetch_address_bounded(pc: i16)
    ensures
        0 <= fetch_address(pc) < 4096,
{
    assert(0 <= pc & 0xfffi16 && pc & 0xfffi16 < 4096) by (bit_vector);
}

/// The address an indirect instruction uses: the low twelve bits of the
/// pointer word it read.
pub open spec fn pointer(word: i16) -> i16 {
    word & 0xfffi16
}

/// Pointers, like fetch addresses, lie in `0..4096`.
pub proof fn lemma_pointer_bounded(word: i16)
    ensures
        0 <= pointer(word) < 4096,
{
    assert(0 <= word & 0xfffi16 && word & 0xfffi16 < 4096) by (bit_vector);
}

/// A step that succeeded with `event`.
pub open spec fn done(cpu: CPU, mem: Seq<i16>, event: Event) -> Outcome {
    (cpu, mem, Ok(event))
}

/// A step refused at `address`: nothing changes.
pub open spec fn fault(cpu: CPU, mem: Seq<i16>, address: i16) -> Outcome {
    (cpu, mem, Err(MemoryError::AddressOutOfRange(address)))
}

/// Whether SKIPCOND with condition `c` skips when the accumulator is `ac`.
pub open spec fn skips(c: u16, ac: i16) -> bool {
    (c == 0 && ac < 0) || (c == 1 && ac == 0) || (c == 2 && ac > 0)
}

/// The registers once fetch has read the word at the fetch address.
pub open spec fn fetched(cpu: CPU, mem: Seq<i16>) -> CPU {
    let a = fetch_address(cpu.pc);
    CPU { mar: a, ir: mem[a as int], pc: cpu.pc.wrapping_add(1), ..cpu }
}

/// Whether fetch can read its word.
pub open spec fn can_fetch(cpu: CPU, mem: Seq<i16>) -> bool {
    in_range(mem.len() as int, fetch_address(cpu.pc))
}

/// What executing `ins` does to registers `cpu` and memory `mem`.
pub open spec fn spec_execute(cpu: CPU, mem: Seq<i16>, ins: Instruction) -> Outcome {
    let len = mem.len() as int;
    match ins {
        Instruction::JnS(a) => {
            let t = a as i16;
            if in_range(len, t) {
                done(
                    CPU { mar: t, mbr: cpu.pc, pc: (t + 1) as i16, ..cpu },
                    mem.update(t as int, cpu.pc),
                    Event::Continue,
                )
            } else {
                fault(cpu, mem, t)
            }
        },
        Instruction::Load(a) => {
            let t = a as i16;
            if in_range(len, t) {
                done(CPU { mar: t, ac: mem[t as int], ..cpu }, mem, Event::Continue)
            } else {
                fault(cpu, mem, t)
            }
        },
        Instruction::Store(a) => {
            let t = a as i16;
            if in_range(len, t) {
                done(
                    CPU { mar: t, mbr: cpu.ac, ..cpu },
                    mem.update(t as int, cpu.ac),
                    Event::Continue,
                )
            } else {
                fault(cpu, mem, t)
            }
        },
        Instruction::Add(a) => {
            let t = a as i16;
            if in_range(len, t) {
                let v = mem[t as int];
                done(
                    CPU { mar: t, mbr: v, ac: cpu.ac.wrapping_add(v), ..cpu },
                    mem,
                    Event::Continue,
                )
            } else {
                fault(cpu, mem, t)
            }
        },
        Instruction::Subt(a) => {
            let t = a as i16;
            if in_range(len, t) {
                let v = mem[t as int];
                done(
                    CPU { mar: t, mbr: v, ac: cpu.ac.wrapping_sub(v), ..cpu },
                    mem,
                    Event::Continue,
                )
            } else {
                fault(cpu, mem, t)
            }
        },
        Instruction::Input => done(cpu, mem, Event::Input),
        Instruction::Output => {
            if in_range(len, MODE_CELL) {
                done(cpu, mem, Event::Output(spec_render(cpu.ac, mem[MODE_CELL as int])))
            } else {
                fault(cpu, mem, MODE_CELL)
            }
        },
        Instruction::Halt => done(cpu, mem, Event::Halted),
        Instruction::SkipCond(c) => {
            if skips(c, cpu.ac) {
                done(CPU { pc: cpu.pc.wrapping_add(1), ..cpu }, mem, Event::Continue)
            } else {
                done(cpu, mem, Event::Continue)
            }
        },
        Instruction::Jump(a) => done(CPU { pc: a as i16, ..cpu }, mem, Event::Continue),
        Instruction::Clear => done(CPU { ac: 0, ..cpu }, mem, Event::Continue),
        Instruction::AddI(a) => {
            let t = a as i16;
            if !in_range(len, t) {
                fault(cpu, mem, t)
            } else if !in_range(len, pointer(mem[t as int])) {
                fault(cpu, mem, pointer(mem[t as int]))
            } else {
                let p = pointer(mem[t as int]);
                let v = mem[p as int];
                done(
                    CPU { mar: p, mbr: v, ac: cpu.ac.wrapping_add(v), ..cpu },
                    mem,
                    Event::Continue,
                )
            }
        },
        Instruction::JumpI(a) => {
            let t = a as i16;
            if in_range(len, t) {
                let v = mem[t as int];
                done(CPU { mar: t, mbr: v, pc: v, ..cpu }, mem, Event::Continue)
            } else {
                fault(cpu, mem, t)
            }
        },
        Instruction::LoadI(a) => {
            let t = a as i16;
            if !in_range(len, t) {
                fault(cpu, mem, t)
            } else if !in_range(len, pointer(mem[t as int])) {
                fault(cpu, mem, pointer(mem[t as int]))
            } else {
                let p = pointer(mem[t as int]);
                let v = mem[p as int];
                done(CPU { mar: p, mbr: v, ac: v, ..cpu }, mem, Event::Continue)
            }
        },
        Instruction::StoreI(a) => {
            let t = a as i16;
            if !in_range(len, t) {
                fault(cpu, mem, t)
            } else if !in_range(len, pointer(mem[t as int])) {
                fault(cpu, mem, pointer(mem[t as int]))
            } else {
                let p = pointer(mem[t as int]);
                done(
                    CPU { mar: p, mbr: cpu.ac, ..cpu },
                    mem.update(p as int, cpu.ac),
                    Event::Continue,
                )
            }
        },
        Instruction::Nop => done(cpu, mem, Event::Continue),
    }
}

/// One machine cycle: fetch, then execute what the fetched word encodes.
/// A refused fetch changes nothing.
pub open spec fn spec_step(cpu: CPU, mem: Seq<i16>) -> Outcome {
    if can_fetch(cpu, mem) {
        let c = fetched(cpu, mem);
        spec_execute(c, mem, spec_decode(c.ir))
    } else {
        fault(cpu, mem, fetch_address(cpu.pc))
    }
}

/// Up to `fuel` cycles, stopping after the first that fails or leaves the
/// host something to do. `Continue` at the end means that fuel ran out.
pub open spec fn spec_resume(cpu: CPU, mem: Seq<i16>, fuel: nat) -> Outcome
    decreases fuel,
{
    if fuel == 0 {
        done(cpu, mem, Event::Continue)
    } else {
        let (c, m, r) = spec_step(cpu, mem);
        if r == Ok::<Event, MemoryError>(Event::Continue) {
            spec_resume(c, m, (fuel - 1) as nat)
        } else {
            (c, m, r)
        }
    }
}

impl CPU {
    /// A register file with every register zero: execution starts at
    /// address 0.
    pub fn new() -> (r: CPU)
        ensures
            r == (CPU { ac: 0, pc: 0, ir: 0, mar: 0, mbr: 0 }),
    {
        CPU { ac: 0, pc: 0, ir: 0, mar: 0, mbr: 0 }
    }

    /// A register file with every register zero but the program counter,
    /// which holds the entry point.
    pub fn with_entry_point(entry: i16) -> (r: CPU)
        ensures
            r == (CPU { ac: 0, pc: entry, ir: 0, mar: 0, mbr: 0 }),
    {
        CPU { ac: 0, pc: entry, ir: 0, mar: 0, mbr: 0 }
    }

    /// Fetch: `MAR := PC & 0xFFF; IR := Memory[MAR]; PC := PC + 1`, the
    /// increment wrapping. A refused read changes nothing.
    pub fn fetch(&mut self, memory: &Memory) -> (r: Result<(), MemoryError>)
        ensures
            can_fetch(*old(self), memory@) ==> r == Ok::<(), MemoryError>(()) && *final(self)
                == fetched(*old(self), memory@),
            !can_fetch(*old(self), memory@) ==> r == Err::<(), MemoryError>(
                MemoryError::AddressOutOfRange(fetch_address(old(self).pc)),
            ) && *final(self) == *old(self),
    {
        let a = self.pc & 0xfff;
        match memory.read(a) {
            Err(e) => Err(e),
            Ok(w) => {
                self.mar = a;
                self.ir = w;
                self.pc = self.pc.wrapping_add(1);
                Ok(())
            },
        }
    }

    /// Executes `ins`. A refused memory access changes nothing.
    pub fn execute(&mut self, memory: &mut Memory, ins: Instruction) -> (r: Result<
        Event,
        MemoryError,
    >)
        requires
            ins.wf(),
        ensures
            *final(self) == spec_execute(*old(self), old(memory)@, ins).0,
            final(memory)@ == spec_execute(*old(self), old(memory)@, ins).1,
            r == spec_execute(*old(self), old(memory)@, ins).2,
    {
        match ins {
            Instruction::JnS(a) => {
                let t = a as i16;
                if let Err(e) = memory.write(t, self.pc) {
                    return Err(e);
                }
                self.mar = t;
                self.mbr = self.pc;
                self.pc = t + 1;
            },
            Instruction::Load(a) => {
                let t = a as i16;
                match memory.read(t) {
                    Err(e) => return Err(e),
                    Ok(v) => {
                        self.mar = t;
                        self.ac = v;
                    },
                }
            },
            Instruction::Store(a) => {
                let t = a as i16;
                if let Err(e) = memory.write(t, self.ac) {
                    return Err(e);
                }
                self.mar = t;
                self.mbr = self.ac;
            },
            Instruction::Add(a) => {
                let t = a as i16;
                match memory.read(t) {
                    Err(e) => return Err(e),
                    Ok(v) => {
                        self.mar = t;
                        self.mbr = v;
                        self.ac = self.ac.wrapping_add(v);
                    },
                }
            },
            Instruction::Subt(a) => {
                let t = a as i16;
                match memory.read(t) {
                    Err(e) => return Err(e),
                    Ok(v) => {
                        self.mar = t;
                        self.mbr = v;
                        self.ac = self.ac.wrapping_sub(v);
                    },
                }
            },
            Instruction::Input => {
                return Ok(Event::Input);
            },
            Instruction::Output => {
                return match self.output(memory) {
                    Err(e) => Err(e),
                    Ok(out) => Ok(Event::Output(out)),
                };
            },
            Instruction::Halt => {
                return Ok(Event::Halted);
            },
            Instruction::SkipCond(c) => {
                let ac = self.ac;
                if (c == 0 && ac < 0) || (c == 1 && ac == 0) || (c == 2 && ac > 0) {
                    self.pc = self.pc.wrapping_add(1);
                }
            },
            Instruction::Jump(a) => {
                self.pc = a as i16;
            },
            Instruction::Clear => {
                self.ac = 0;
            },
            Instruction::AddI(a) => {
                let t = a as i16;
                let p = match memory.read(t) {
                    Err(e) => return Err(e),
                    Ok(w) => w & 0xfff,
                };
                match memory.read(p) {
                    Err(e) => return Err(e),
                    Ok(v) => {
                        self.mar = p;
                        self.mbr = v;
                        self.ac = self.ac.wrapping_add(v);
                    },
                }
            },
            Instruction::JumpI(a) => {
                let t = a as i16;
                match memory.read(t) {
                    Err(e) => return Err(e),
                    Ok(v) => {
                        self.mar = t;
                        self.mbr = v;
                        self.pc = v;
                    },
                }
            },
            Instruction::LoadI(a) => {
                let t = a as i16;
                let p = match memory.read(t) {
                    Err(e) => return Err(e),
                    Ok(w) => w & 0xfff,
                };
                match memory.read(p) {
                    Err(e) => return Err(e),
                    Ok(v) => {
                        self.mar = p;
                        self.mbr = v;
                        self.ac = v;
                    },
                }
            },
            Instruction::StoreI(a) => {
                let t = a as i16;
                let p = match memory.read(t) {
                    Err(e) => return Err(e),
                    Ok(w) => w & 0xfff,
                };
                if let Err(e) = memory.write(p, self.ac) {
                    return Err(e);
                }
                self.mar = p;
                self.mbr = self.ac;
            },
            Instruction::Nop => {},
        }
        Ok(Event::Continue)
    }

    /// Decodes the instruction register and executes what it encodes.
    pub fn decode_execute(&mut self, memory: &mut Memory) -> (r: Result<Event, MemoryError>)
        ensures
            *final(self) == spec_execute(*old(self), old(memory)@, spec_decode(old(self).ir)).0,
            final(memory)@ == spec_execute(*old(self), old(memory)@, spec_decode(old(self).ir)).1,
            r == spec_execute(*old(self), old(memory)@, spec_decode(old(self).ir)).2,
    {
        let ins = decode(self.ir);
        self.execute(memory, ins)
    }

    /// What OUTPUT writes: the accumulator, rendered as the output-mode
    /// cell asks.
    pub fn output(&self, memory: &Memory) -> (r: Result<Output, MemoryError>)
        ensures
            in_range(memory@.len() as int, MODE_CELL) ==> r == Ok::<Output, MemoryError>(
                spec_render(self.ac, memory@[MODE_CELL as int]),
            ),
            !in_range(memory@.len() as int, MODE_CELL) ==> r == Err::<Output, MemoryError>(
                MemoryError::AddressOutOfRange(MODE_CELL),
            ),
    {
        match memory.read(MODE_CELL) {
            Err(e) => Err(e),
            Ok(cell) => Ok(render(self.ac, cell)),
        }
    }

    /// Completes INPUT with the console line `line`: the accumulator takes
    /// the integer it writes, or zero where it writes none that fits a
    /// word. This never fails, and no other register changes.
    pub fn input(&mut self, line: &str)
        ensures
            *final(self) == (CPU { ac: input_value(line@), ..*old(self) }),
    {
        self.ac = parse_input(line);
    }

    /// One machine cycle: fetch, then decode and execute.
    pub fn step(&mut self, memory: &mut Memory) -> (r: Result<Event, MemoryError>)
        ensures
            *final(self) == spec_step(*old(self), old(memory)@).0,
            final(memory)@ == spec_step(*old(self), old(memory)@).1,
            r == spec_step(*old(self), old(memory)@).2,
    {
        if let Err(e) = self.fetch(memory) {
            return Err(e);
        }
        self.decode_execute(memory)
    }

    /// Runs cycles until one fails or leaves the host something to do, at
    /// most `max_steps` of them. `Continue` means that none did.
    pub fn resume(&mut self, memory: &mut Memory, max_steps: u64) -> (r: Result<
        Event,
        MemoryError,
    >)
        ensures
            *final(self) == spec_resume(*old(self), old(memory)@, max_steps as nat).0,
            final(memory)@ == spec_resume(*old(self), old(memory)@, max_steps as nat).1,
            r == spec_resume(*old(self), old(memory)@, max_steps as nat).2,
    {
        let mut left: u64 = max_steps;
        while left > 0
            invariant
                spec_resume(*self, memory@, left as nat) == spec_resume(
                    *old(self),
                    old(memory)@,
                    max_steps as nat,
                ),
            decreases left,
        {
            let r = self.step(memory);
            match r {
                Ok(Event::Continue) => {},
                _ => {
                    return r;
                },
            }
            left = left - 1;
        }
        Ok(Event::Continue)
    }

    /// Starts the machine: writes the output mode's code to the reserved
    /// cell, then runs as `resume` does.
    pub fn run(&mut self, memory: &mut Memory, output_mode: OutputMode, max_steps: u64) -> (r:
        Result<Event, MemoryError>)
        ensures
            in_range(old(memory)@.len() as int, MODE_CELL) ==> {
                let m = old(memory)@.update(MODE_CELL as int, output_mode.spec_code());
                &&& *final(self) == spec_resume(*old(self), m, max_steps as nat).0
                &&& final(memory)@ == spec_resume(*old(self), m, max_steps as nat).1
                &&& r == spec_resume(*old(self), m, max_steps as nat).2
            },
            !in_range(old(memory)@.len() as int, MODE_CELL) ==> r == Err::<Event, MemoryError>(
                MemoryError::AddressOutOfRange(MODE_CELL),
            ) && *final(self) == *old(self) && final(memory)@ == old(memory)@,
    {
        let code = output_mode.code();
        if let Err(e) = memory.write(MODE_CELL, code) {
            return Err(e);
        }
        self.resume(memory, max_steps)
    }
}

} // verus!
