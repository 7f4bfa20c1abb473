//! A minimal stackful-coroutine primitive: a guarded execution stack, a
//! saved register image per suspended context, and a two-party
//! pause/resume handshake between a "main" and a "generator" context.
//!
//! The architecture-specific context switch and the memory mapping are
//! performed by the embedding program; this crate holds the verified
//! logic: stack layout arithmetic, call-frame construction, and the
//! registry transitions that decide which image is saved and which is
//! restored on every switch.
#![allow(unused_imports)]
use vstd::prelude::*;

pub mod registers;
pub mod stack;

use crate::registers::spec_init_frame;
use crate::registers::Registers;
use crate::registers::RegistersContext;
use crate::registers::FP;
use crate::registers::LR;
use crate::registers::NUM_SLOTS;
use crate::registers::SP;
use crate::registers::X19;
use crate::registers::X20;
use crate::registers::X21;

verus! {

/// What one context switch does to the two registry images, seen from
/// the side that calls `resume`: the live main-side state is saved into
/// the main slot, the generator slot is left as it is, and its image is
/// restored into the live registers.  Result: (main image, generator
/// image, restored image).
pub open spec fn spec_resume(
    main_img: Seq<usize>,
    gen_img: Seq<usize>,
    live: Seq<usize>,
) -> (Seq<usize>, Seq<usize>, Seq<usize>) {
    (live, gen_img, gen_img)
}

/// What one context switch does to the two registry images, seen from
/// the side that calls `pause`: the live generator-side state is saved
/// into the generator slot, the main slot is left as it is, and its
/// image is restored into the live registers.  Result: (main image,
/// generator image, restored image).
pub open spec fn spec_pause(
    main_img: Seq<usize>,
    gen_img: Seq<usize>,
    live: Seq<usize>,
) -> (Seq<usize>, Seq<usize>, Seq<usize>) {
    (main_img, live, main_img)
}

/// Switches from the main context into the generator context: saves
/// the caller's live state `live` into the "main" slot and answers
/// with the generator image to be made live, exactly as the suspended
/// generator left it.  The embedding program performs the actual
/// register swap with the two images this decides.
pub fn resume(ctx: &mut RegistersContext, live: Registers) -> (restored: Registers)
    ensures
        (final(ctx).main_image(), final(ctx).gen_image(), restored@) == spec_resume(
            old(ctx).main_image(),
            old(ctx).gen_image(),
            live@,
        ),
        final(ctx).main_present(),
        final(ctx).gen_present(),
{
    let gen_register = ctx.gen_context();
    let _main_register = ctx.main_context();
    ctx.set_main_context(live);
    gen_register
}

/// Switches from the generator context back to the main context: saves
/// the coroutine's live state `live` into the "generator" slot and
/// answers with the main image to be made live, exactly as the main
/// side left it at its last `resume`.
pub fn pause(ctx: &mut RegistersContext, live: Registers) -> (restored: Registers)
    ensures
        (final(ctx).main_image(), final(ctx).gen_image(), restored@) == spec_pause(
            old(ctx).main_image(),
            old(ctx).gen_image(),
            live@,
        ),
        final(ctx).main_present(),
        final(ctx).gen_present(),
{
    let _gen_register = ctx.gen_context();
    let main_register = ctx.main_context();
    ctx.set_gen_context(live);
    main_register
}

/// The registry images after `n` complete handshake rounds, starting
/// from the images `(init_main, init_gen)`: round `i` resumes with the
/// main-side live state `ms[i]` and then pauses with the
/// generator-side live state `gs[i]`.
pub open spec fn round_state(
    init_main: Seq<usize>,
    init_gen: Seq<usize>,
    ms: Seq<Seq<usize>>,
    gs: Seq<Seq<usize>>,
    n: int,
) -> (Seq<usize>, Seq<usize>)
    decreases n,
{
    if n <= 0 {
        (init_main, init_gen)
    } else {
        let prev = round_state(init_main, init_gen, ms, gs, n - 1);
        let after_resume = spec_resume(prev.0, prev.1, ms[n - 1]);
        let after_pause = spec_pause(after_resume.0, after_resume.1, gs[n - 1]);
        (after_pause.0, after_pause.1)
    }
}

/// The image the resume of round `i` restores in such a run.
pub open spec fn resume_observed(
    init_main: Seq<usize>,
    init_gen: Seq<usize>,
    ms: Seq<Seq<usize>>,
    gs: Seq<Seq<usize>>,
    i: int,
) -> Seq<usize> {
    let s = round_state(init_main, init_gen, ms, gs, i);
    spec_resume(s.0, s.1, ms[i]).2
}

/// The image the pause of round `i` restores in such a run.
pub open spec fn pause_observed(
    init_main: Seq<usize>,
    init_gen: Seq<usize>,
    ms: Seq<Seq<usize>>,
    gs: Seq<Seq<usize>>,
    i: int,
) -> Seq<usize> {
    let s = round_state(init_main, init_gen, ms, gs, i);
    let after_resume = spec_resume(s.0, s.1, ms[i]);
    spec_pause(after_resume.0, after_resume.1, gs[i]).2
}

/// Round-trip handshake: in any alternating run of `resume` and
/// `pause`, every resume restores exactly the generator image the most
/// recent pause saved (the very first resume restores the initial
/// generator image), and every pause restores exactly the main image
/// its own round's resume saved.  Nothing the other side does in
/// between alters a suspended image.
pub proof fn lemma_round_trip_handshake(
    init_main: Seq<usize>,
    init_gen: Seq<usize>,
    ms: Seq<Seq<usize>>,
    gs: Seq<Seq<usize>>,
    i: int,
)
    requires
        0 <= i,
    ensures
        i == 0 ==> resume_observed(init_main, init_gen, ms, gs, 0) == init_gen,
        i > 0 ==> resume_observed(init_main, init_gen, ms, gs, i) == gs[i - 1],
        pause_observed(init_main, init_gen, ms, gs, i) == ms[i],
{
}

/// Single-entry bootstrap: a generator context freshly populated by
/// the call-frame initializer, resumed for the first time, becomes
/// live with exactly that frame — the entry address and its two
/// arguments staged in the first three callee-saved slots, the
/// bootstrap trampoline in the link slot, and the chosen stack pointer
/// in the frame- and stack-pointer slots.
pub proof fn lemma_single_entry_bootstrap(
    base: Seq<usize>,
    fptr: usize,
    arg: usize,
    arg2: usize,
    trampoline: usize,
    sp: usize,
    main_img: Seq<usize>,
    live: Seq<usize>,
)
    requires
        base.len() == NUM_SLOTS,
    ensures
        ({
            let frame = spec_init_frame(base, fptr, arg, arg2, trampoline, sp);
            let switched = spec_resume(main_img, frame, live);
            &&& switched.2 == frame
            &&& switched.2[X19 as int] == arg
            &&& switched.2[X20 as int] == arg2
            &&& switched.2[X21 as int] == fptr
            &&& switched.2[FP as int] == sp
            &&& switched.2[LR as int] == trampoline
            &&& switched.2[SP as int] == sp
            &&& switched.1 == frame
            &&& switched.0 == live
        }),
{
}

} // verus!
