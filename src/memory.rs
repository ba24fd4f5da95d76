//! The machine's memory: a fixed number of 16-bit words, all zero at first.
use vstd::prelude::*;

verus! {

/// Why a memory access or a program load was refused.
#[derive(Clone, Copy, Debug, PartialEq, Eq, Structural)]
pub enum MemoryError {
    /// The address is negative or not below the memory's capacity.
    AddressOutOfRange(i16),
    /// The program has more words than the memory holds.
    ProgramTooLong(usize),
}

/// Whether `address` names a cell of a memory of `capacity` words.
pub open spec fn in_range(capacity: int, address: i16) -> bool {
    0 <= address && (address as int) < capacity
}

/// The contents of a memory of `capacity` words after a program of the
/// given words was loaded into its lowest cells.
pub open spec fn loaded(cells: Seq<i16>, program: Seq<i16>) -> Seq<i16> {
    program + cells.skip(program.len() as int)
}

/// A memory of 16-bit words whose capacity is fixed when it is made.
pub struct Memory {
    mem: Vec<i16>,
}

impl View for Memory {
    type V = Seq<i16>;

    closed spec fn view(&self) -> Seq<i16> {
        self.mem@
    }
}

impl Memory {
    /// A memory of `size` words, each zero.
    pub fn new(size: usize) -> (r: Memory)
        ensures
            r@ == Seq::new(size as nat, |i: int| 0i16),
    {
        let mut mem: Vec<i16> = Vec::new();
        let mut i: usize = 0;
        while i < size
            invariant
                i <= size,
                mem@ == Seq::new(i as nat, |j: int| 0i16),
            decreases size - i,
        {
            mem.push(0);
            i = i + 1;
        }
        Memory { mem }
    }

    /// The number of words this memory holds.
    pub fn capacity(&self) -> (r: usize)
        ensures
            r == self@.len(),
    {
        self.mem.len()
    }

    /// The word stored at `address`.
    pub fn read(&self, address: i16) -> (r: Result<i16, MemoryError>)
        ensures
            in_range(self@.len() as int, address) ==> r == Ok::<i16, MemoryError>(
                self@[address as int],
            ),
            !in_range(self@.len() as int, address) ==> r == Err::<i16, MemoryError>(
                MemoryError::AddressOutOfRange(address),
            ),
    {
        if address < 0 || address as usize >= self.mem.len() {
            Err(MemoryError::AddressOutOfRange(address))
        } else {
            Ok(self.mem[address as usize])
        }
    }

    /// Stores `value` at `address`; a refused write leaves memory as it was.
    pub fn write(&mut self, address: i16, value: i16) -> (r: Result<(), MemoryError>)
        ensures
            in_range(old(self)@.len() as int, address) ==> r == Ok::<(), MemoryError>(())
                && final(self)@ == old(self)@.update(address as int, value),
            !in_range(old(self)@.len() as int, address) ==> r == Err::<(), MemoryError>(
                MemoryError::AddressOutOfRange(address),
            ) && final(self)@ == old(self)@,
    {
        if address < 0 || address as usize >= self.mem.len() {
            Err(MemoryError::AddressOutOfRange(address))
        } else {
            self.mem.set(address as usize, value);
            Ok(())
        }
    }

    /// Writes `program` into addresses `0..program.len()`, in order, leaving
    /// the other cells as they were. A program longer than the memory is
    /// refused and nothing is written.
    pub fn load_program(&mut self, program: Vec<i16>) -> (r: Result<(), MemoryError>)
        ensures
            program@.len() <= old(self)@.len() ==> r == Ok::<(), MemoryError>(())
                && final(self)@ == loaded(old(self)@, program@),
            program@.len() > old(self)@.len() ==> r == Err::<(), MemoryError>(
                MemoryError::ProgramTooLong(program@.len() as usize),
            ) && final(self)@ == old(self)@,
    {
        if program.len() > self.mem.len() {
            return Err(MemoryError::ProgramTooLong(program.len()));
        }
        let mut i: usize = 0;
        while i < program.len()
            invariant
                program@.len() <= old(self)@.len(),
                i <= program@.len(),
                self@.len() == old(self)@.len(),
                forall|j: int| 0 <= j < i ==> #[trigger] self@[j] == program@[j],
                forall|j: int| i <= j < self@.len() ==> #[trigger] self@[j] == old(self)@[j],
            decreases program@.len() - i,
        {
            self.mem.set(i, program[i]);
            i = i + 1;
        }
        assert(self@ =~= loaded(old(self)@, program@));
        Ok(())
    }
}

} // verus!
