//! Execution engine: owns the register file, the segment table and the
//! instruction pointer, fetches instructions from segment 0, and applies
//! each opcode's effect.
//!
//! One call to [`Rum::step`] performs one fetch-decode-execute cycle and
//! reports what the surrounding process must do next: proceed, emit a byte,
//! read a byte, stop cleanly, or stop on a fatal error. The caller runs the
//! loop, performs the byte I/O, and hands a read byte back through
//! [`Rum::user_input`].

use vstd::prelude::*;
use crate::register::Register;
use crate::segment::Segment;
use crate::um_instruction::{decoded, Instruction, Opcode};

verus! {

/// A fatal condition that terminates the engine; no recovery path exists.
#[derive(Clone, Copy, Debug, PartialEq, Eq, Structural)]
pub enum RumError {
    /// The instruction pointer left segment 0.
    FetchOutOfBounds,
    /// A segment load named an address or index outside the table.
    LoadOutOfBounds,
    /// A segment store named an address or index outside the table.
    StoreOutOfBounds,
    /// A divide instruction met a zero divisor.
    DivisionByZero,
    /// An output instruction met a register value above 255.
    OutputTooLarge,
    /// An unmap instruction named an address that is not live.
    UnmapNotLive,
    /// A load-program instruction named an address that is not live.
    ProgramNotLive,
    /// No unused 32-bit address is left for a new segment.
    AddressSpaceExhausted,
    /// The opcode field held 14 or 15.
    UnknownOpcode,
}

/// What one execution step asks of the surrounding process.
#[derive(Clone, Copy, Debug)]
pub enum StepOutcome {
    /// The instruction is done; fetch the next one.
    Proceed,
    /// Write this byte to the output stream, then fetch the next
    /// instruction.
    Emit(u8),
    /// Read one byte from the input stream and hand it to
    /// [`Rum::user_input`] together with this instruction, then fetch the
    /// next instruction.
    AwaitInput(Instruction),
    /// The program halted cleanly.
    Halted,
    /// The machine met a fatal condition and cannot continue.
    Fault(RumError),
}

/// The machine: a register file, a segment table whose segment 0 is the
/// running program, and the instruction pointer.
#[derive(Clone, Debug)]
pub struct Rum {
    segment: Segment,
    register: Register,
    counter: usize,
}

impl Rum {
    /// The machine's segment table.
    pub closed spec fn seg_table(&self) -> Segment {
        self.segment
    }

    /// The machine's register file.
    pub closed spec fn reg_file(&self) -> Register {
        self.register
    }

    /// The instruction pointer: the index into segment 0 of the next word
    /// to fetch.
    pub closed spec fn ip(&self) -> nat {
        self.counter as nat
    }

    /// The registers' contents, by index.
    pub open spec fn regs(&self) -> Seq<u32> {
        self.reg_file().regs()
    }

    /// The contents of every segment, by address.
    pub open spec fn segs(&self) -> Seq<Seq<u32>> {
        self.seg_table().segs()
    }

    /// The freed addresses eligible for reuse, most recently freed last.
    pub open spec fn pool(&self) -> Seq<usize> {
        self.seg_table().pool()
    }

    /// Well-formedness: eight registers, a well-formed segment table, and
    /// every segment address representable in a 32-bit register.
    pub open spec fn wf(&self) -> bool {
        &&& self.reg_file().wf()
        &&& self.seg_table().wf()
        &&& self.segs().len() <= 0x1_0000_0000
    }

    /// A fresh machine: segment 0 holds a copy of the given program words,
    /// every register is zero, and the instruction pointer is 0.
    pub fn new(some_instruction: &Vec<u32>) -> (r: Rum)
        ensures
            r.wf(),
            r.regs() == Seq::new(8, |i: int| 0u32),
            r.segs() == seq![some_instruction@],
            r.pool().len() == 0,
            r.ip() == 0,
    {
        Rum { segment: Segment::new(some_instruction), register: Register::new(), counter: 0 }
    }

    /// Decode the instruction at word index `c` of segment 0.
    pub fn get_instruction(&self, c: usize) -> (r: Instruction)
        requires
            self.wf(),
            (c as int) < self.segs()[0].len(),
        ensures
            r == decoded(self.segs()[0][c as int]),
            r.wf(),
    {
        self.segment.find_instruction(c)
    }

    /// Conditional move: if register `c` is non-zero, register `a` takes
    /// the value of register `b`.
    pub fn conditional_move(&mut self, some_instruction: Instruction)
        requires
            old(self).wf(),
            some_instruction.wf(),
            some_instruction.opcode != Opcode::LoadValue,
        ensures
            final(self).wf(),
            final(self).seg_table() == old(self).seg_table(),
            final(self).ip() == old(self).ip(),
            final(self).regs() == (if old(self).regs()[some_instruction.c.unwrap() as int] != 0 {
                old(self).regs().update(
                    some_instruction.a as int,
                    old(self).regs()[some_instruction.b.unwrap() as int],
                )
            } else {
                old(self).regs()
            }),
    {
        let a_bit = some_instruction.a as usize;
        let b_bit = some_instruction.b.unwrap() as usize;
        let c_bit = some_instruction.c.unwrap() as usize;
        if self.register.get_register_value(c_bit) != 0 {
            let value = self.register.get_register_value(b_bit);
            self.register.set_register_value(a_bit, value);
        }
    }

    /// Segment load: register `a` takes the word at index register `c` of
    /// the segment at address register `b`.
    pub fn segment_load(&mut self, some_instruction: Instruction)
        requires
            old(self).wf(),
            some_instruction.wf(),
            some_instruction.opcode != Opcode::LoadValue,
            (old(self).regs()[some_instruction.b.unwrap() as int] as int) < old(self).segs().len(),
            (old(self).regs()[some_instruction.c.unwrap() as int] as int) < old(self).segs()[old(
                self,
            ).regs()[some_instruction.b.unwrap() as int] as int].len(),
        ensures
            final(self).wf(),
            final(self).seg_table() == old(self).seg_table(),
            final(self).ip() == old(self).ip(),
            final(self).regs() == old(self).regs().update(
                some_instruction.a as int,
                old(self).segs()[old(self).regs()[some_instruction.b.unwrap() as int] as int][old(
                    self,
                ).regs()[some_instruction.c.unwrap() as int] as int],
            ),
    {
        let a_bit = some_instruction.a as usize;
        let b_bit = some_instruction.b.unwrap() as usize;
        let c_bit = some_instruction.c.unwrap() as usize;
        let this_address = self.register.get_register_value(b_bit) as usize;
        let reg_index = self.register.get_register_value(c_bit) as usize;
        let vec = self.segment.get_segment_value(this_address).unwrap();
        let value = vec[reg_index];
        self.register.set_register_value(a_bit, value);
    }

    /// Segment store: the word at index register `b` of the segment at
    /// address register `a` takes the value of register `c`.
    pub fn segment_store(&mut self, some_instruction: Instruction)
        requires
            old(self).wf(),
            some_instruction.wf(),
            some_instruction.opcode != Opcode::LoadValue,
            (old(self).regs()[some_instruction.a as int] as int) < old(self).segs().len(),
            (old(self).regs()[some_instruction.b.unwrap() as int] as int) < old(self).segs()[old(
                self,
            ).regs()[some_instruction.a as int] as int].len(),
        ensures
            final(self).wf(),
            final(self).reg_file() == old(self).reg_file(),
            final(self).ip() == old(self).ip(),
            final(self).pool() == old(self).pool(),
            final(self).segs() == old(self).segs().update(
                old(self).regs()[some_instruction.a as int] as int,
                old(self).segs()[old(self).regs()[some_instruction.a as int] as int].update(
                    old(self).regs()[some_instruction.b.unwrap() as int] as int,
                    old(self).regs()[some_instruction.c.unwrap() as int],
                ),
            ),
    {
        let a_bit = some_instruction.a as usize;
        let b_bit = some_instruction.b.unwrap() as usize;
        let c_bit = some_instruction.c.unwrap() as usize;
        let this_address = self.register.get_register_value(a_bit) as usize;
        let index = self.register.get_register_value(b_bit) as usize;
        let value = self.register.get_register_value(c_bit);
        self.segment.set_segment_value(this_address, index, value);
    }

    /// Addition: register `a` takes registers `b` plus `c`, modulo 2^32.
    pub fn addition(&mut self, some_instruction: Instruction)
        requires
            old(self).wf(),
            some_instruction.wf(),
            some_instruction.opcode != Opcode::LoadValue,
        ensures
            final(self).wf(),
            final(self).seg_table() == old(self).seg_table(),
            final(self).ip() == old(self).ip(),
            final(self).regs() == old(self).regs().update(
                some_instruction.a as int,
                (((old(self).regs()[some_instruction.b.unwrap() as int] + old(self).regs()[
                    some_instruction.c.unwrap() as int
                ]) % 0x1_0000_0000) as u32),
            ),
    {
        let a_bit = some_instruction.a as usize;
        let b_bit = some_instruction.b.unwrap() as usize;
        let c_bit = some_instruction.c.unwrap() as usize;
        let value = self.register.get_register_value(b_bit).wrapping_add(
            self.register.get_register_value(c_bit),
        );
        self.register.set_register_value(a_bit, value);
    }

    /// Multiplication: register `a` takes registers `b` times `c`, modulo
    /// 2^32.
    pub fn multiplication(&mut self, some_instruction: Instruction)
        requires
            old(self).wf(),
            some_instruction.wf(),
            some_instruction.opcode != Opcode::LoadValue,
        ensures
            final(self).wf(),
            final(self).seg_table() == old(self).seg_table(),
            final(self).ip() == old(self).ip(),
            final(self).regs() == old(self).regs().update(
                some_instruction.a as int,
                (((old(self).regs()[some_instruction.b.unwrap() as int] * old(self).regs()[
                    some_instruction.c.unwrap() as int
                ]) % 0x1_0000_0000) as u32),
            ),
    {
        let a_bit = some_instruction.a as usize;
        let b_bit = some_instruction.b.unwrap() as usize;
        let c_bit = some_instruction.c.unwrap() as usize;
        let value = self.register.get_register_value(b_bit).wrapping_mul(
            self.register.get_register_value(c_bit),
        );
        self.register.set_register_value(a_bit, value);
    }

    /// Division: register `a` takes register `b` divided by register `c`,
    /// unsigned integer division; the divisor must be non-zero.
    pub fn division(&mut self, some_instruction: Instruction)
        requires
            old(self).wf(),
            some_instruction.wf(),
            some_instruction.opcode != Opcode::LoadValue,
            old(self).regs()[some_instruction.c.unwrap() as int] != 0,
        ensures
            final(self).wf(),
            final(self).seg_table() == old(self).seg_table(),
            final(self).ip() == old(self).ip(),
            final(self).regs() == old(self).regs().update(
                some_instruction.a as int,
                (((old(self).regs()[some_instruction.b.unwrap() as int] as int) / (old(
                    self,
                ).regs()[some_instruction.c.unwrap() as int] as int)) as u32),
            ),
    {
        let a_bit = some_instruction.a as usize;
        let b_bit = some_instruction.b.unwrap() as usize;
        let c_bit = some_instruction.c.unwrap() as usize;
        let value = self.register.get_register_value(b_bit) / self.register.get_register_value(
            c_bit,
        );
        self.register.set_register_value(a_bit, value);
    }

    /// Bitwise NAND: register `a` takes the complement of registers `b`
    /// AND `c`.
    pub fn bit_nand(&mut self, some_instruction: Instruction)
        requires
            old(self).wf(),
            some_instruction.wf(),
            some_instruction.opcode != Opcode::LoadValue,
        ensures
            final(self).wf(),
            final(self).seg_table() == old(self).seg_table(),
            final(self).ip() == old(self).ip(),
            final(self).regs() == old(self).regs().update(
                some_instruction.a as int,
                !(old(self).regs()[some_instruction.b.unwrap() as int] & old(self).regs()[
                    some_instruction.c.unwrap() as int
                ]),
            ),
    {
        let a_bit = some_instruction.a as usize;
        let b_bit = some_instruction.b.unwrap() as usize;
        let c_bit = some_instruction.c.unwrap() as usize;
        let value = !(self.register.get_register_value(b_bit) & self.register.get_register_value(
            c_bit,
        ));
        self.register.set_register_value(a_bit, value);
    }

    /// Map segment: allocate a segment of register `c` zero words; register
    /// `b` takes its address.
    pub fn map_segment(&mut self, some_instruction: Instruction)
        requires
            old(self).wf(),
            some_instruction.wf(),
            some_instruction.opcode != Opcode::LoadValue,
            old(self).pool().len() > 0 || old(self).segs().len() < 0x1_0000_0000,
        ensures
            final(self).wf(),
            final(self).ip() == old(self).ip(),
            Segment::map_segment_post(
                old(self).seg_table(),
                final(self).seg_table(),
                old(self).regs()[some_instruction.c.unwrap() as int] as nat,
                old(self).seg_table().next_alloc() as usize,
            ),
            final(self).regs() == old(self).regs().update(
                some_instruction.b.unwrap() as int,
                old(self).seg_table().next_alloc() as u32,
            ),
    {
        let b_bit = some_instruction.b.unwrap() as usize;
        let c_bit = some_instruction.c.unwrap() as usize;
        let new_size = self.register.get_register_value(c_bit) as usize;
        let new_address = self.segment.map_segment(new_size);
        proof {
            assert(new_address as int == old(self).seg_table().next_alloc());
            if old(self).pool().len() > 0 {
                assert(old(self).pool()[old(self).pool().len() - 1] == old(self).pool().last());
                assert((old(self).pool().last() as int) < old(self).segs().len());
            }
            assert(new_address as int <= 0xffff_ffff);
        }
        self.register.set_register_value(b_bit, new_address as u32);
    }

    /// Unmap segment: free the live segment at address register `c`.
    pub fn unmap_segment(&mut self, some_instruction: Instruction)
        requires
            old(self).wf(),
            some_instruction.wf(),
            some_instruction.opcode != Opcode::LoadValue,
            old(self).seg_table().live(
                old(self).regs()[some_instruction.c.unwrap() as int] as usize,
            ),
        ensures
            final(self).wf(),
            final(self).reg_file() == old(self).reg_file(),
            final(self).ip() == old(self).ip(),
            Segment::unmap_segment_post(
                old(self).seg_table(),
                final(self).seg_table(),
                old(self).regs()[some_instruction.c.unwrap() as int] as usize,
            ),
    {
        let c_bit = some_instruction.c.unwrap() as usize;
        let this_address = self.register.get_register_value(c_bit) as usize;
        self.segment.unmap_segment(this_address);
    }

    /// Output: the byte that an output instruction emits, the value of
    /// register `c`, which must lie in 0-255.
    pub fn output_program(&self, some_instruction: Instruction) -> (b: u8)
        requires
            self.wf(),
            some_instruction.wf(),
            some_instruction.opcode != Opcode::LoadValue,
            self.regs()[some_instruction.c.unwrap() as int] <= 255,
        ensures
            b as u32 == self.regs()[some_instruction.c.unwrap() as int],
    {
        let c_bit = some_instruction.c.unwrap() as usize;
        let c_value = self.register.get_register_value(c_bit);
        c_value as u8
    }

    /// Input: register `c` takes the byte read from the input stream, or
    /// the all-ones sentinel 2^32 - 1 when the stream has ended.
    pub fn user_input(&mut self, some_instruction: Instruction, byte: Option<u8>)
        requires
            old(self).wf(),
            some_instruction.wf(),
            some_instruction.opcode != Opcode::LoadValue,
        ensures
            final(self).wf(),
            final(self).seg_table() == old(self).seg_table(),
            final(self).ip() == old(self).ip(),
            final(self).regs() == old(self).regs().update(
                some_instruction.c.unwrap() as int,
                (match byte {
                    Some(v) => v as u32,
                    None => u32::MAX,
                }),
            ),
    {
        let c_bit = some_instruction.c.unwrap() as usize;
        match byte {
            Some(value) => self.register.set_register_value(c_bit, value as u32),
            None => self.register.set_register_value(c_bit, u32::MAX),
        }
    }

    /// Load program: if register `b` is non-zero, segment 0 takes a full
    /// copy of the live segment at address register `b`; the returned value,
    /// register `c`, is the new instruction pointer the caller must adopt.
    pub fn load_program(&mut self, some_instruction: Instruction) -> (new_ip: usize)
        requires
            old(self).wf(),
            some_instruction.wf(),
            some_instruction.opcode != Opcode::LoadValue,
            old(self).regs()[some_instruction.b.unwrap() as int] != 0 ==> old(
                self,
            ).seg_table().live(old(self).regs()[some_instruction.b.unwrap() as int] as usize),
        ensures
            final(self).wf(),
            final(self).reg_file() == old(self).reg_file(),
            final(self).ip() == old(self).ip(),
            final(self).pool() == old(self).pool(),
            new_ip == old(self).regs()[some_instruction.c.unwrap() as int] as usize,
            final(self).segs() == (if old(self).regs()[some_instruction.b.unwrap() as int] != 0 {
                old(self).segs().update(
                    0,
                    old(self).segs()[old(self).regs()[some_instruction.b.unwrap() as int] as int],
                )
            } else {
                old(self).segs()
            }),
    {
        let b_bit = some_instruction.b.unwrap() as usize;
        let c_bit = some_instruction.c.unwrap() as usize;
        if self.register.get_register_value(b_bit) != 0 {
            let addr = self.register.get_register_value(b_bit) as usize;
            self.segment.insert_value(addr);
        }
        self.register.get_register_value(c_bit) as usize
    }

    /// Immediate load: register `a` takes the instruction's 25-bit value.
    pub fn load_value(&mut self, some_instruction: Instruction)
        requires
            old(self).wf(),
            some_instruction.wf(),
            some_instruction.opcode == Opcode::LoadValue,
        ensures
            final(self).wf(),
            final(self).seg_table() == old(self).seg_table(),
            final(self).ip() == old(self).ip(),
            final(self).regs() == old(self).regs().update(
                some_instruction.a as int,
                some_instruction.value.unwrap(),
            ),
    {
        let a_bit = some_instruction.a as usize;
        let value = some_instruction.value.unwrap();
        self.register.set_register_value(a_bit, value);
    }

    /// Perform one fetch-decode-execute cycle: fetch the word at the
    /// instruction pointer in segment 0, decode it, advance the pointer,
    /// and apply the opcode's effect. [`step_rel`] states exactly how the
    /// machine changes and what the outcome asks of the caller; on `Halted`
    /// or any `Fault` the machine is left untouched and must not be stepped
    /// further.
    pub fn step(&mut self) -> (out: StepOutcome)
        requires
            old(self).wf(),
        ensures
            final(self).wf(),
            step_rel(*old(self), *final(self), out),
    {
        let ip = self.counter;
        if ip >= self.segment.word_count(0) {
            return StepOutcome::Fault(RumError::FetchOutOfBounds);
        }
        let ins = self.segment.find_instruction(ip);
        match ins.opcode {
            Opcode::CMov => {
                self.counter = ip + 1;
                self.conditional_move(ins);
                StepOutcome::Proceed
            },
            Opcode::Load => {
                let addr = self.register.get_register_value(ins.b.unwrap() as usize) as usize;
                let idx = self.register.get_register_value(ins.c.unwrap() as usize) as usize;
                if addr < self.segment.seg_count() && idx < self.segment.word_count(addr) {
                    self.counter = ip + 1;
                    self.segment_load(ins);
                    StepOutcome::Proceed
                } else {
                    StepOutcome::Fault(RumError::LoadOutOfBounds)
                }
            },
            Opcode::Store => {
                let addr = self.register.get_register_value(ins.a as usize) as usize;
                let idx = self.register.get_register_value(ins.b.unwrap() as usize) as usize;
                if addr < self.segment.seg_count() && idx < self.segment.word_count(addr) {
                    self.counter = ip + 1;
                    self.segment_store(ins);
                    StepOutcome::Proceed
                } else {
                    StepOutcome::Fault(RumError::StoreOutOfBounds)
                }
            },
            Opcode::Add => {
                self.counter = ip + 1;
                self.addition(ins);
                StepOutcome::Proceed
            },
            Opcode::Mul => {
                self.counter = ip + 1;
                self.multiplication(ins);
                StepOutcome::Proceed
            },
            Opcode::Div => {
                if self.register.get_register_value(ins.c.unwrap() as usize) != 0 {
                    self.counter = ip + 1;
                    self.division(ins);
                        StepOutcome::Proceed
                } else {
                    StepOutcome::Fault(RumError::DivisionByZero)
                }
            },
            Opcode::Nand => {
                self.counter = ip + 1;
                self.bit_nand(ins);
                StepOutcome::Proceed
            },
            Opcode::Halt => StepOutcome::Halted,
            Opcode::MapSegment => {
                if self.segment.free_count() == 0 && !(self.segment.seg_count()
                    <= u32::MAX as usize) {
                    StepOutcome::Fault(RumError::AddressSpaceExhausted)
                } else {
                    self.counter = ip + 1;
                    self.map_segment(ins);
                        StepOutcome::Proceed
                }
            },
            Opcode::UnmapSegment => {
                let addr = self.register.get_register_value(ins.c.unwrap() as usize) as usize;
                if self.segment.is_live(addr) {
                    self.counter = ip + 1;
                    self.unmap_segment(ins);
                        StepOutcome::Proceed
                } else {
                    StepOutcome::Fault(RumError::UnmapNotLive)
                }
            },
            Opcode::Output => {
                let c_value = self.register.get_register_value(ins.c.unwrap() as usize);
                if c_value <= 255 {
                    let b = self.output_program(ins);
                    self.counter = ip + 1;
                    StepOutcome::Emit(b)
                } else {
                    StepOutcome::Fault(RumError::OutputTooLarge)
                }
            },
            Opcode::Input => {
                self.counter = ip + 1;
                StepOutcome::AwaitInput(ins)
            },
            Opcode::LoadProgram => {
                let b_value = self.register.get_register_value(ins.b.unwrap() as usize);
                if b_value == 0 || self.segment.is_live(b_value as usize) {
                    let new_ip = self.load_program(ins);
                    self.counter = new_ip;
                        StepOutcome::Proceed
                } else {
                    StepOutcome::Fault(RumError::ProgramNotLive)
                }
            },
            Opcode::LoadValue => {
                self.counter = ip + 1;
                self.load_value(ins);
                StepOutcome::Proceed
            },
            Opcode::Unknown => StepOutcome::Fault(RumError::UnknownOpcode),
        }
    }
}

/// The machine's transition relation: how one fetch-decode-execute cycle
/// relates the machine before (`pre`) and after (`post`), and what outcome
/// it reports. On `Halted` and on every `Fault` the machine is untouched;
/// otherwise the instruction pointer advances by one, except that a
/// load-program instruction sets it to register `c`.
pub open spec fn step_rel(pre: Rum, post: Rum, out: StepOutcome) -> bool {
    if pre.ip() >= pre.segs()[0].len() {
        &&& post == pre
        &&& out == StepOutcome::Fault(RumError::FetchOutOfBounds)
    } else {
        let ins = decoded(pre.segs()[0][pre.ip() as int]);
        let next = pre.ip() + 1;
        match ins.opcode {
            Opcode::CMov => {
                let a = ins.a as int;
                let b = ins.b.unwrap() as int;
                let c = ins.c.unwrap() as int;
                &&& out == StepOutcome::Proceed
                &&& post.regs() == (if pre.regs()[c] != 0 {
                    pre.regs().update(a, pre.regs()[b])
                } else {
                    pre.regs()
                })
                &&& post.seg_table() == pre.seg_table()
                &&& post.ip() == next
            },
            Opcode::Load => {
                let a = ins.a as int;
                let addr = pre.regs()[ins.b.unwrap() as int] as int;
                let idx = pre.regs()[ins.c.unwrap() as int] as int;
                if addr < pre.segs().len() && idx < pre.segs()[addr].len() {
                    &&& out == StepOutcome::Proceed
                    &&& post.regs() == pre.regs().update(a, pre.segs()[addr][idx])
                    &&& post.seg_table() == pre.seg_table()
                    &&& post.ip() == next
                } else {
                    &&& post == pre
                    &&& out == StepOutcome::Fault(RumError::LoadOutOfBounds)
                }
            },
            Opcode::Store => {
                let addr = pre.regs()[ins.a as int] as int;
                let idx = pre.regs()[ins.b.unwrap() as int] as int;
                let value = pre.regs()[ins.c.unwrap() as int];
                if addr < pre.segs().len() && idx < pre.segs()[addr].len() {
                    &&& out == StepOutcome::Proceed
                    &&& post.regs() == pre.regs()
                    &&& post.pool() == pre.pool()
                    &&& post.segs() == pre.segs().update(addr, pre.segs()[addr].update(idx, value))
                    &&& post.ip() == next
                } else {
                    &&& post == pre
                    &&& out == StepOutcome::Fault(RumError::StoreOutOfBounds)
                }
            },
            Opcode::Add => {
                let a = ins.a as int;
                let b = ins.b.unwrap() as int;
                let c = ins.c.unwrap() as int;
                &&& out == StepOutcome::Proceed
                &&& post.regs() == pre.regs().update(
                    a,
                    (((pre.regs()[b] + pre.regs()[c]) % 0x1_0000_0000) as u32),
                )
                &&& post.seg_table() == pre.seg_table()
                &&& post.ip() == next
            },
            Opcode::Mul => {
                let a = ins.a as int;
                let b = ins.b.unwrap() as int;
                let c = ins.c.unwrap() as int;
                &&& out == StepOutcome::Proceed
                &&& post.regs() == pre.regs().update(
                    a,
                    (((pre.regs()[b] * pre.regs()[c]) % 0x1_0000_0000) as u32),
                )
                &&& post.seg_table() == pre.seg_table()
                &&& post.ip() == next
            },
            Opcode::Div => {
                let a = ins.a as int;
                let b = ins.b.unwrap() as int;
                let c = ins.c.unwrap() as int;
                if pre.regs()[c] != 0 {
                    &&& out == StepOutcome::Proceed
                    &&& post.regs() == pre.regs().update(
                        a,
                        (((pre.regs()[b] as int) / (pre.regs()[c] as int)) as u32),
                    )
                    &&& post.seg_table() == pre.seg_table()
                    &&& post.ip() == next
                } else {
                    &&& post == pre
                    &&& out == StepOutcome::Fault(RumError::DivisionByZero)
                }
            },
            Opcode::Nand => {
                let a = ins.a as int;
                let b = ins.b.unwrap() as int;
                let c = ins.c.unwrap() as int;
                &&& out == StepOutcome::Proceed
                &&& post.regs() == pre.regs().update(a, !(pre.regs()[b] & pre.regs()[c]))
                &&& post.seg_table() == pre.seg_table()
                &&& post.ip() == next
            },
            Opcode::Halt => {
                &&& post == pre
                &&& out == StepOutcome::Halted
            },
            Opcode::MapSegment => {
                let b = ins.b.unwrap() as int;
                let size = pre.regs()[ins.c.unwrap() as int] as nat;
                if pre.pool().len() == 0 && pre.segs().len() >= 0x1_0000_0000 {
                    &&& post == pre
                    &&& out == StepOutcome::Fault(RumError::AddressSpaceExhausted)
                } else {
                    &&& out == StepOutcome::Proceed
                    &&& Segment::map_segment_post(
                        pre.seg_table(),
                        post.seg_table(),
                        size,
                        pre.seg_table().next_alloc() as usize,
                    )
                    &&& post.regs() == pre.regs().update(b, pre.seg_table().next_alloc() as u32)
                    &&& post.ip() == next
                }
            },
            Opcode::UnmapSegment => {
                let addr = pre.regs()[ins.c.unwrap() as int] as usize;
                if pre.seg_table().live(addr) {
                    &&& out == StepOutcome::Proceed
                    &&& Segment::unmap_segment_post(pre.seg_table(), post.seg_table(), addr)
                    &&& post.regs() == pre.regs()
                    &&& post.ip() == next
                } else {
                    &&& post == pre
                    &&& out == StepOutcome::Fault(RumError::UnmapNotLive)
                }
            },
            Opcode::Output => {
                let c_value = pre.regs()[ins.c.unwrap() as int];
                if c_value <= 255 {
                    &&& out == StepOutcome::Emit(c_value as u8)
                    &&& post.regs() == pre.regs()
                    &&& post.seg_table() == pre.seg_table()
                    &&& post.ip() == next
                } else {
                    &&& post == pre
                    &&& out == StepOutcome::Fault(RumError::OutputTooLarge)
                }
            },
            Opcode::Input => {
                &&& out == StepOutcome::AwaitInput(ins)
                &&& post.regs() == pre.regs()
                &&& post.seg_table() == pre.seg_table()
                &&& post.ip() == next
            },
            Opcode::LoadProgram => {
                let b_value = pre.regs()[ins.b.unwrap() as int];
                let c_value = pre.regs()[ins.c.unwrap() as int];
                if b_value == 0 {
                    &&& out == StepOutcome::Proceed
                    &&& post.regs() == pre.regs()
                    &&& post.segs() == pre.segs()
                    &&& post.pool() == pre.pool()
                    &&& post.ip() == c_value as nat
                } else if pre.seg_table().live(b_value as usize) {
                    &&& out == StepOutcome::Proceed
                    &&& post.regs() == pre.regs()
                    &&& post.pool() == pre.pool()
                    &&& post.segs() == pre.segs().update(0, pre.segs()[b_value as int])
                    &&& post.ip() == c_value as nat
                } else {
                    &&& post == pre
                    &&& out == StepOutcome::Fault(RumError::ProgramNotLive)
                }
            },
            Opcode::LoadValue => {
                &&& out == StepOutcome::Proceed
                &&& post.regs() == pre.regs().update(ins.a as int, ins.value.unwrap())
                &&& post.seg_table() == pre.seg_table()
                &&& post.ip() == next
            },
            Opcode::Unknown => {
                &&& post == pre
                &&& out == StepOutcome::Fault(RumError::UnknownOpcode)
            },
        }
    }
}

} // verus!
