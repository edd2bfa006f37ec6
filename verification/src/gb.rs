use crate::apu::Apu;
use crate::cartridge::spec_cart_type;
use crate::cpu::{cpu_boot, cpu_wf, Cpu, CpuV};
use crate::fault::Fault;
use crate::mem::{mem_boot, mem_wf, MemV, Memory};
use crate::ppu::Ppu;
use crate::step::spec_step;
use vstd::prelude::*;

verus! {

/// The whole machine: the processor, the bus it drives, and the stub
/// picture and audio units.
pub struct Gameboy {
    cpu: Cpu,
    ppu: Ppu,
    apu: Apu,
    mem: Memory,
}

/// Mathematical model of the machine: the processor and the bus.
#[verifier::ext_equal]
pub ghost struct GbV {
    pub cpu: CpuV,
    pub mem: MemV,
}

impl View for Gameboy {
    type V = GbV;

    closed spec fn view(&self) -> GbV {
        GbV { cpu: self.cpu@, mem: self.mem@ }
    }
}

pub open spec fn gb_wf(g: GbV) -> bool {
    cpu_wf(g.cpu) && mem_wf(g.mem)
}

/// `n` whole instructions run in sequence, or the first fault.
pub open spec fn spec_run(c: CpuV, m: MemV, n: nat) -> Result<(CpuV, MemV), Fault>
    decreases n,
{
    if n == 0 {
        Ok((c, m))
    } else {
        match spec_step(c, m) {
            Err(f) => Err(f),
            Ok((c1, m1)) => spec_run(c1, m1, (n - 1) as nat),
        }
    }
}

/// One successful instruction peels one step off a bounded run.
proof fn lemma_run_unfold(c: CpuV, m: MemV, n: nat)
    requires
        n >= 1,
    ensures
        spec_step(c, m) matches Ok((c1, m1)) ==> spec_run(c, m, n) == spec_run(
            c1,
            m1,
            (n - 1) as nat,
        ),
        spec_step(c, m) matches Err(f) ==> spec_run(c, m, n) == Err::<(CpuV, MemV), Fault>(f),
{
}

impl Gameboy {
    /// A machine around the given image, in the documented post-boot
    /// state. `None` if the image header names no known cartridge family.
    pub fn new(rom: Vec<u8>) -> (r: Option<Gameboy>)
        requires
            rom@.len() >= 0x150,
        ensures
            match r {
                Some(g) => gb_wf(g@) && g@.cpu == cpu_boot() && mem_boot(g@.mem, rom@),
                None => spec_cart_type(rom@[0x147]) is None,
            },
    {
        match Memory::new(rom) {
            Some(mem) => Some(Gameboy { cpu: Cpu::new(), ppu: Ppu::new(), apu: Apu::new(), mem }),
            None => None,
        }
    }

    /// The processor, for inspection.
    pub fn cpu(&self) -> (r: &Cpu)
        ensures
            r@ == self@.cpu,
    {
        &self.cpu
    }

    /// The bus, for inspection.
    pub fn mem(&self) -> (r: &Memory)
        ensures
            r@ == self@.mem,
    {
        &self.mem
    }

    /// Executes one whole instruction.
    pub fn step(&mut self) -> (r: Result<(), Fault>)
        requires
            gb_wf(old(self)@),
        ensures
            gb_wf(final(self)@),
            final(self)@.mem.cycles >= old(self)@.mem.cycles,
            match spec_step(old(self)@.cpu, old(self)@.mem) {
                Ok((c1, m1)) => r == Ok::<(), Fault>(()) && final(self)@.cpu == c1
                    && final(self)@.mem == m1,
                Err(f) => r == Err::<(), Fault>(f),
            },
    {
        self.cpu.step(&mut self.mem)
    }

    /// Drives the machine, one whole instruction at a time, for at most
    /// the given number of instructions, stopping at the first fault.
    pub fn run(&mut self, max_steps: usize) -> (r: Result<(), Fault>)
        requires
            gb_wf(old(self)@),
        ensures
            gb_wf(final(self)@),
            match spec_run(old(self)@.cpu, old(self)@.mem, max_steps as nat) {
                Ok((c1, m1)) => r == Ok::<(), Fault>(()) && final(self)@.cpu == c1
                    && final(self)@.mem == m1,
                Err(f) => r == Err::<(), Fault>(f),
            },
    {
        let mut i: usize = 0;
        while i < max_steps
            invariant
                i <= max_steps,
                gb_wf(self@),
                spec_run(old(self)@.cpu, old(self)@.mem, max_steps as nat) == spec_run(
                    self@.cpu,
                    self@.mem,
                    (max_steps - i) as nat,
                ),
            decreases max_steps - i,
        {
            let ghost ck = self@.cpu;
            let ghost mk = self@.mem;
            proof {
                lemma_run_unfold(ck, mk, (max_steps - i) as nat);
            }
            match self.cpu.step(&mut self.mem) {
                Ok(()) => {},
                Err(f) => {
                    return Err(f);
                },
            }
            i = i + 1;
        }
        Ok(())
    }
}

} // verus!
