//! Register images, the call-frame initializer, and the two-slot
//! context registry behind the pause/resume handshake.
use crate::stack::Stack;
use crate::stack::STACK_ALIGN;
use crate::stack::WORD_BYTES;
use vstd::arithmetic::div_mod::lemma_div_is_ordered;
use vstd::arithmetic::div_mod::lemma_fundamental_div_mod;
use vstd::prelude::*;

verus! {

/// Slots in one register image: the callee-saved general-purpose
/// registers, the frame pointer, the link register and the stack
/// pointer of one suspended execution context.
pub const NUM_SLOTS: usize = 32;

/// A saved execution context: a fixed-size image of the callee-saved
/// register file, indexed from the first callee-saved register.
#[derive(Clone, Copy, PartialEq, Eq)]
pub struct Registers {
    gpr: [usize; 32],
}

impl View for Registers {
    type V = Seq<usize>;

    closed spec fn view(&self) -> Seq<usize> {
        self.gpr@
    }
}

/// The image every context starts from: all slots zero.
pub open spec fn zero_image() -> Seq<usize> {
    Seq::new(NUM_SLOTS as nat, |i: int| 0usize)
}

impl Registers {
    /// A fresh image with every slot zeroed.
    pub fn new() -> (r: Registers)
        ensures
            r@ == zero_image(),
    {
        let r = Registers { gpr: [0; 32] };
        proof {
            assert(r@ =~= zero_image());
        }
        r
    }

    /// Reads one register slot.
    pub fn get(&self, i: usize) -> (r: usize)
        requires
            i < NUM_SLOTS,
        ensures
            r == self@[i as int],
    {
        self.gpr[i]
    }

    /// Writes one register slot, leaving every other slot as it was.
    pub fn set(&mut self, i: usize, v: usize)
        requires
            i < NUM_SLOTS,
        ensures
            final(self)@ == old(self)@.update(i as int, v),
    {
        self.gpr[i] = v;
    }
}

/// Image slot of the first callee-saved register, which stages the
/// opaque context argument for the bootstrap trampoline.
pub const X19: usize = 19 - 19;

/// Image slot of the second staging register: the address of the user
/// entry function the trampoline tail-invokes.
pub const X20: usize = 20 - 19;

/// Image slot of the third staging register: the address of the
/// bootstrap entry the trampoline hands control to first.
pub const X21: usize = 21 - 19;

/// Image slot of the frame pointer.
pub const FP: usize = 29 - 19;

/// Image slot of the link register: where control lands when the image
/// is switched in.
pub const LR: usize = 30 - 19;

/// Image slot of the stack pointer.
pub const SP: usize = 31 - 19;

/// `addr` rounded down to the alignment the calling convention demands
/// of a stack pointer at a call boundary.
pub open spec fn spec_align_down(addr: usize) -> int {
    addr - addr % STACK_ALIGN
}

/// Rounds a prospective stack pointer down to a 16-byte boundary.
pub fn align_down(sp: usize) -> (r: usize)
    ensures
        r == spec_align_down(sp),
        r % STACK_ALIGN == 0,
        r <= sp,
        sp - r < STACK_ALIGN,
{
    sp - sp % STACK_ALIGN
}

/// The image `initialize_call_frame` leaves behind: `base` with the two
/// trampoline arguments and the entry address staged in the first three
/// callee-saved slots, the trampoline in the link slot, and the aligned
/// initial stack pointer in the frame- and stack-pointer slots.
pub open spec fn spec_init_frame(
    base: Seq<usize>,
    fptr: usize,
    arg: usize,
    arg2: usize,
    trampoline: usize,
    sp: usize,
) -> Seq<usize> {
    base.update(X19 as int, arg)
        .update(X20 as int, arg2)
        .update(X21 as int, fptr)
        .update(FP as int, sp)
        .update(LR as int, trampoline)
        .update(SP as int, sp)
}

/// Populates a fresh register image so that switching into it enters
/// the bootstrap trampoline at `trampoline` on the given stack, with
/// `arg` and `arg2` staged for the entry function at `fptr`.  The
/// frame- and stack-pointer slots receive the stack's `end()` address
/// rounded down to a 16-byte boundary; every other slot keeps its old
/// value.
pub fn initialize_call_frame(
    regs: &mut Registers,
    fptr: usize,
    arg: usize,
    arg2: usize,
    trampoline: usize,
    stack: &Stack,
)
    requires
        stack.wf(),
    ensures
        final(regs)@ == spec_init_frame(
            old(regs)@,
            fptr,
            arg,
            arg2,
            trampoline,
            spec_align_down(stack.spec_end() as usize) as usize,
        ),
        final(regs)@[SP as int] % STACK_ALIGN == 0,
        stack.spec_bottom() <= final(regs)@[SP as int] <= stack.spec_top(),
{
    let sp: usize = align_down(stack.end());
    proof {
        // Rounding down to 16 bytes never crosses `bottom`, itself
        // 16-byte aligned: both addresses round to their own multiple
        // of 16, and division keeps their order.
        let al = STACK_ALIGN as int;
        lemma_fundamental_div_mod(stack.spec_end(), al);
        lemma_fundamental_div_mod(stack.spec_bottom() as int, al);
        lemma_div_is_ordered(stack.spec_bottom() as int, stack.spec_end(), al);
    }

    // The trampoline moves these three staged values into the argument
    // registers of the calling convention before calling `fptr`.
    regs.set(X19, arg);
    regs.set(X20, arg2);
    regs.set(X21, fptr);

    // Current frame pointer of the fresh context.
    regs.set(FP, sp);

    // Switching into this image "returns" into the trampoline.
    regs.set(LR, trampoline);

    // The fresh context's stack starts at the aligned end address.
    regs.set(SP, sp);
}

/// The image a registry slot answers with: the stored image, or the
/// all-zero image a slot is created with on first access.
pub open spec fn image_of(slot: Option<Registers>) -> Seq<usize> {
    match slot {
        Some(r) => r@,
        None => zero_image(),
    }
}

/// The per-thread context registry: exactly two register images, one
/// for the suspended "main" context and one for the suspended
/// "generator" context.  Each slot is created zeroed on first access
/// and persists for the registry's life; the embedding program keeps
/// one registry per thread, so a context never migrates across
/// threads.
pub struct RegistersContext {
    pub(crate) main: Option<Registers>,
    pub(crate) gen: Option<Registers>,
}

impl RegistersContext {
    /// The image the "main" slot holds (zero before first access).
    pub closed spec fn main_image(self) -> Seq<usize> {
        image_of(self.main)
    }

    /// The image the "generator" slot holds (zero before first access).
    pub closed spec fn gen_image(self) -> Seq<usize> {
        image_of(self.gen)
    }

    /// Whether the "main" image has been created yet.
    pub closed spec fn main_present(self) -> bool {
        self.main is Some
    }

    /// Whether the "generator" image has been created yet.
    pub closed spec fn gen_present(self) -> bool {
        self.gen is Some
    }

    /// A registry with neither context created yet.
    pub fn new() -> (r: RegistersContext)
        ensures
            !r.main_present(),
            !r.gen_present(),
            r.main_image() == zero_image(),
            r.gen_image() == zero_image(),
    {
        RegistersContext { main: None, gen: None }
    }

    /// Fetches the "main" register image, creating it zeroed on first
    /// access.  Fetching is idempotent: once the image exists, a fetch
    /// leaves the registry exactly as it was and answers with the same
    /// image every time.
    pub fn main_context(&mut self) -> (r: Registers)
        ensures
            r@ == old(self).main_image(),
            final(self).main_present(),
            final(self).main_image() == old(self).main_image(),
            final(self).gen_present() == old(self).gen_present(),
            final(self).gen_image() == old(self).gen_image(),
            old(self).main_present() ==> *final(self) == *old(self),
    {
        if self.main.is_none() {
            self.main = Some(Registers::new());
        }
        self.main.unwrap()
    }

    /// Fetches the "generator" register image, creating it zeroed on
    /// first access.  Fetching is idempotent: once the image exists, a
    /// fetch leaves the registry exactly as it was and answers with the
    /// same image every time.
    pub fn gen_context(&mut self) -> (r: Registers)
        ensures
            r@ == old(self).gen_image(),
            final(self).gen_present(),
            final(self).gen_image() == old(self).gen_image(),
            final(self).main_present() == old(self).main_present(),
            final(self).main_image() == old(self).main_image(),
            old(self).gen_present() ==> *final(self) == *old(self),
    {
        if self.gen.is_none() {
            self.gen = Some(Registers::new());
        }
        self.gen.unwrap()
    }

    /// Stores an image into the "generator" slot: how a driver installs
    /// the frame built by `initialize_call_frame` before the first
    /// resume.  The "main" slot is untouched.
    pub fn set_gen_context(&mut self, image: Registers)
        ensures
            final(self).gen_present(),
            final(self).gen_image() == image@,
            final(self).main_present() == old(self).main_present(),
            final(self).main_image() == old(self).main_image(),
    {
        self.gen = Some(image);
    }

    /// Stores an image into the "main" slot; only the switch itself
    /// writes there, when `resume` saves the caller's live state.  The
    /// "generator" slot is untouched.
    pub(crate) fn set_main_context(&mut self, image: Registers)
        ensures
            final(self).main_present(),
            final(self).main_image() == image@,
            final(self).gen_present() == old(self).gen_present(),
            final(self).gen_image() == old(self).gen_image(),
    {
        self.main = Some(image);
    }
}

} // verus!
