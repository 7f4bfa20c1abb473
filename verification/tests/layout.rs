use greenstack::registers::align_down;
use greenstack::registers::initialize_call_frame;
use greenstack::registers::Registers;
use greenstack::registers::RegistersContext;
use greenstack::resume;
use greenstack::stack::mapping_len;
use greenstack::stack::Stack;

const PAGE: usize = 16384;

#[test]
fn test_mapping_len_doubles_and_floors() {
    // 1024 words are 8192 bytes, under one page: floor to a page, then double.
    assert_eq!(mapping_len(1024), 2 * PAGE);
    assert_eq!(mapping_len(0), 2 * PAGE);
    // 4096 words are two pages: doubled to four.
    assert_eq!(mapping_len(4096), 4 * PAGE);
}

#[test]
fn test_stack_layout() {
    let base = 10 * PAGE;
    let stk = Stack::new(1024, base);
    // The guard page is the lowest page of the mapping.
    assert_eq!(stk.len(), PAGE);
    assert_eq!(stk.get_offset(), base + 2 * PAGE - 8);
    assert_eq!(stk.end(), base + 2 * PAGE);
}

#[test]
fn test_stack_offset_moves_end() {
    let base = 4 * PAGE;
    let mut stk = Stack::new(1024, base);
    stk.set_offset(1);
    assert_eq!(stk.end(), base + 2 * PAGE - 8);
    stk.set_offset(3);
    assert_eq!(stk.end(), base + 2 * PAGE - 24);
}

#[test]
fn test_align_down() {
    assert_eq!(align_down(0), 0);
    assert_eq!(align_down(15), 0);
    assert_eq!(align_down(16), 16);
    assert_eq!(align_down(31), 16);
    assert_eq!(align_down(49144), 49136);
}

#[test]
fn test_registers_new_is_zeroed() {
    let r = Registers::new();
    for i in 0..32usize {
        assert_eq!(r.get(i), 0);
    }
}

#[test]
fn test_registers_set_leaves_others() {
    let mut r = Registers::new();
    r.set(4, 17);
    assert_eq!(r.get(4), 17);
    for i in 0..32usize {
        if i != 4 {
            assert_eq!(r.get(i), 0);
        }
    }
}

#[test]
fn test_initialize_call_frame_slots() {
    let base = 16384;
    let mut stk = Stack::new(1024, base);
    stk.set_offset(1);
    let mut regs = Registers::new();
    regs.set(5, 999);
    initialize_call_frame(&mut regs, 77, 5, 66, 88, &stk);
    // end() is 49144; aligned down to 49136.
    assert_eq!(regs.get(12), 49136);
    assert_eq!(regs.get(10), 49136);
    assert_eq!(regs.get(0), 5);
    assert_eq!(regs.get(1), 66);
    assert_eq!(regs.get(2), 77);
    assert_eq!(regs.get(11), 88);
    // Slots the initializer does not own keep their values.
    assert_eq!(regs.get(5), 999);
}

#[test]
fn test_stack_pointer_alignment() {
    // For several offsets, the stack pointer the initializer writes is
    // a multiple of 16.
    for off in 0..8usize {
        let mut stk = Stack::new(1024, 16384);
        stk.set_offset(off);
        let mut regs = Registers::new();
        initialize_call_frame(&mut regs, 1, 2, 3, 4, &stk);
        assert_eq!(regs.get(12) % 16, 0);
        assert_eq!(regs.get(10), regs.get(12));
    }
}

#[test]
fn test_single_entry_bootstrap() {
    // A fresh generator context, resumed for the first time, becomes
    // live with exactly the frame the initializer staged: entry
    // function, its two arguments, trampoline and aligned stack
    // pointer — observable by the entered code.
    let mut stk = Stack::new(1024, 16384);
    stk.set_offset(1);
    let mut ctx = RegistersContext::new();
    let mut frame = ctx.gen_context();
    initialize_call_frame(&mut frame, 4242, 7, 1717, 909, &stk);
    ctx.set_gen_context(frame);
    let entered = resume(&mut ctx, Registers::new());
    assert_eq!(entered.get(0), 7);
    assert_eq!(entered.get(1), 1717);
    assert_eq!(entered.get(2), 4242);
    assert_eq!(entered.get(11), 909);
    assert_eq!(entered.get(12), 49136);
}
