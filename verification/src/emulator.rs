//! The execution engine: machine state and per-instruction semantics.
//!
//! The emulator owns the register file, memory, call stack, timers and
//! program counter, and performs exactly one state transition per
//! decoded instruction. The display and the input device are passed in
//! as collaborators.
//!
//! Design decisions left open by the historical machine, fixed here and
//! applied uniformly:
//! - Subtract flag polarity: the flag register is set to 1 exactly when
//!   no borrow occurs (minuend >= subtrahend).
//! - Stack discipline: slot 0 of the 16-entry stack is never used, so
//!   up to 15 calls may nest; a further call fails fast with
//!   `StackOverflow`, and a return with an empty stack fails fast with
//!   `StackUnderflow`. Neither corrupts any state.
//! - Addresses: every computed memory address, program counter and
//!   address-register value wraps into the 12-bit address space.
//! - Counter advance: jumps and calls land exactly on their target and
//!   the step loop does not advance past them. A call pushes the call
//!   instruction's own address, so after a return the step loop's
//!   normal advance by 2 is what resumes execution at the instruction
//!   following the call.

use vstd::prelude::*;

use rand::Rng;

use crate::instruction::Instruction;
use crate::instruction::op_nnn;
use crate::instruction::spec_op_kk;
use crate::instruction::spec_op_n;
use crate::instruction::spec_op_nnn;
use crate::instruction::spec_op_x;
use crate::instruction::spec_op_y;
use crate::instruction::spec_parse_opcode;
use crate::keyboard::Keyboard;
use crate::keyboard::spec_is_first_key_down;
use crate::keyboard::spec_key_down;
use crate::screen::PixelSet;
use crate::screen::Screen;
use crate::screen::spec_blit_collision;
use crate::screen::spec_blit_state;

verus! {

/// The fatal conditions a single execution step can raise. Execution
/// is atomic: on any error the machine state is left untouched.
#[derive(Clone, Copy, Debug, PartialEq, Eq, Structural)]
pub enum ExecError {
    /// The word matches no known instruction pattern; the offending
    /// word is carried for the host's diagnostic.
    InvalidInstruction(u16),
    /// The word is a recognized extended-instruction-set opcode whose
    /// handler is absent by design; reported distinctly from an
    /// invalid word.
    UnimplementedInstruction(u16),
    /// A subroutine call was executed with all 15 usable stack slots
    /// occupied.
    StackOverflow,
    /// A return was executed with no call pending.
    StackUnderflow,
}

/// The machine state: 16 general-purpose 8-bit registers (register 15
/// doubles as the flag register), 4096 bytes of memory, a 16-entry
/// call stack, two 8-bit timers, the 12-bit address register and the
/// 12-bit program counter. The `*_index` fields record the fixed
/// memory layout: font sprites at 0x000 and program text at 0x200.
pub struct Emulator {
    pub registers: [u8; 16],
    pub flag_register_index: usize,
    pub pc: u16,
    pub sp: u8,
    pub delay_timer_register: u8,
    pub sound_timer_register: u8,
    pub address_register: u16,
    pub memory: [u8; 4096],
    pub program_memory_index: usize,
    pub display_refresh_memory_index: usize,
    pub eti_660_memory_index: usize,
    pub sprite_memory_index: usize,
    pub stack: [u16; 16],
}

/// An integer reduced into the 8-bit register range.
pub open spec fn spec_wrap8(a: int) -> u8 {
    (a % 256) as u8
}

/// An integer reduced into the 12-bit address space.
pub open spec fn spec_wrap12(a: int) -> u16 {
    (a % 0x1000) as u16
}

/// The fixed memory-layout fields of `a` and `b` agree; no instruction
/// ever changes them.
pub open spec fn spec_same_layout(pre: Emulator, post: Emulator) -> bool {
    &&& post.flag_register_index == pre.flag_register_index
    &&& post.program_memory_index == pre.program_memory_index
    &&& post.display_refresh_memory_index == pre.display_refresh_memory_index
    &&& post.eti_660_memory_index == pre.eti_660_memory_index
    &&& post.sprite_memory_index == pre.sprite_memory_index
}

/// The two machine states are identical.
pub open spec fn spec_emu_eq(pre: Emulator, post: Emulator) -> bool {
    &&& spec_same_layout(pre, post)
    &&& post.registers@ == pre.registers@
    &&& post.pc == pre.pc
    &&& post.sp == pre.sp
    &&& post.delay_timer_register == pre.delay_timer_register
    &&& post.sound_timer_register == pre.sound_timer_register
    &&& post.address_register == pre.address_register
    &&& post.memory@ == pre.memory@
    &&& post.stack@ == pre.stack@
}

/// Only the register file may differ between the two states.
pub open spec fn spec_only_regs(pre: Emulator, post: Emulator) -> bool {
    &&& spec_same_layout(pre, post)
    &&& post.pc == pre.pc
    &&& post.sp == pre.sp
    &&& post.delay_timer_register == pre.delay_timer_register
    &&& post.sound_timer_register == pre.sound_timer_register
    &&& post.address_register == pre.address_register
    &&& post.memory@ == pre.memory@
    &&& post.stack@ == pre.stack@
}

/// Only the program counter may differ between the two states.
pub open spec fn spec_only_pc(pre: Emulator, post: Emulator) -> bool {
    &&& spec_same_layout(pre, post)
    &&& post.registers@ == pre.registers@
    &&& post.sp == pre.sp
    &&& post.delay_timer_register == pre.delay_timer_register
    &&& post.sound_timer_register == pre.sound_timer_register
    &&& post.address_register == pre.address_register
    &&& post.memory@ == pre.memory@
    &&& post.stack@ == pre.stack@
}

/// Only the program counter and stack pointer may differ.
pub open spec fn spec_only_pc_sp(pre: Emulator, post: Emulator) -> bool {
    &&& spec_same_layout(pre, post)
    &&& post.registers@ == pre.registers@
    &&& post.delay_timer_register == pre.delay_timer_register
    &&& post.sound_timer_register == pre.sound_timer_register
    &&& post.address_register == pre.address_register
    &&& post.memory@ == pre.memory@
    &&& post.stack@ == pre.stack@
}

/// Only the program counter, stack pointer and stack may differ.
pub open spec fn spec_only_pc_sp_stack(pre: Emulator, post: Emulator) -> bool {
    &&& spec_same_layout(pre, post)
    &&& post.registers@ == pre.registers@
    &&& post.delay_timer_register == pre.delay_timer_register
    &&& post.sound_timer_register == pre.sound_timer_register
    &&& post.address_register == pre.address_register
    &&& post.memory@ == pre.memory@
}

/// Only the address register may differ between the two states.
pub open spec fn spec_only_ar(pre: Emulator, post: Emulator) -> bool {
    &&& spec_same_layout(pre, post)
    &&& post.registers@ == pre.registers@
    &&& post.pc == pre.pc
    &&& post.sp == pre.sp
    &&& post.delay_timer_register == pre.delay_timer_register
    &&& post.sound_timer_register == pre.sound_timer_register
    &&& post.memory@ == pre.memory@
    &&& post.stack@ == pre.stack@
}

/// Only the delay timer may differ between the two states.
pub open spec fn spec_only_dt(pre: Emulator, post: Emulator) -> bool {
    &&& spec_same_layout(pre, post)
    &&& post.registers@ == pre.registers@
    &&& post.pc == pre.pc
    &&& post.sp == pre.sp
    &&& post.sound_timer_register == pre.sound_timer_register
    &&& post.address_register == pre.address_register
    &&& post.memory@ == pre.memory@
    &&& post.stack@ == pre.stack@
}

/// Only the sound timer may differ between the two states.
pub open spec fn spec_only_st(pre: Emulator, post: Emulator) -> bool {
    &&& spec_same_layout(pre, post)
    &&& post.registers@ == pre.registers@
    &&& post.pc == pre.pc
    &&& post.sp == pre.sp
    &&& post.delay_timer_register == pre.delay_timer_register
    &&& post.address_register == pre.address_register
    &&& post.memory@ == pre.memory@
    &&& post.stack@ == pre.stack@
}

/// Only the memory may differ between the two states.
pub open spec fn spec_only_mem(pre: Emulator, post: Emulator) -> bool {
    &&& spec_same_layout(pre, post)
    &&& post.registers@ == pre.registers@
    &&& post.pc == pre.pc
    &&& post.sp == pre.sp
    &&& post.delay_timer_register == pre.delay_timer_register
    &&& post.sound_timer_register == pre.sound_timer_register
    &&& post.address_register == pre.address_register
    &&& post.stack@ == pre.stack@
}

/// The display contents and frame of `a` and `b` agree.
pub open spec fn spec_screen_eq(a: Screen, b: Screen) -> bool {
    &&& Screen::same_frame(a, b)
    &&& b.screen@ == a.screen@
}

/// The display `b` is `a` with every cell reset to off.
pub open spec fn spec_screen_cleared(a: Screen, b: Screen) -> bool {
    &&& Screen::same_frame(a, b)
    &&& b.screen@.len() == a.screen@.len()
    &&& forall|j: int| 0 <= j < b.screen@.len() ==> !(b.screen@[j] is PixelOn)
}

/// Return from a subroutine: the program counter is set to the address
/// popped from the top stack slot (reduced into the 12-bit space) and
/// the stack pointer is decremented.
pub open spec fn spec_ret(pre: Emulator, post: Emulator) -> bool {
    &&& spec_only_pc_sp(pre, post)
    &&& post.pc == pre.stack@[pre.sp as int] % 0x1000
    &&& post.sp == pre.sp - 1
}

/// Call a subroutine: the stack pointer is incremented, the current
/// program counter is pushed into the new top slot, and the program
/// counter is set to the address operand.
pub open spec fn spec_call_addr(pre: Emulator, post: Emulator, nnn: u16) -> bool {
    &&& spec_only_pc_sp_stack(pre, post)
    &&& post.sp == pre.sp + 1
    &&& post.stack@ == pre.stack@.update(pre.sp as int + 1, pre.pc)
    &&& post.pc == nnn
}

/// A conditional skip: when the condition holds the program counter
/// advances by an additional 2, otherwise it is left alone.
pub open spec fn spec_skip(pre: Emulator, post: Emulator, cond: bool) -> bool {
    &&& spec_only_pc(pre, post)
    &&& post.pc == (if cond {
        spec_wrap12(pre.pc + 2)
    } else {
        pre.pc
    })
}

/// Load the immediate `kk` into register `x`.
pub open spec fn spec_ld_vx(pre: Emulator, post: Emulator, x: int, kk: u8) -> bool {
    &&& spec_only_regs(pre, post)
    &&& post.registers@ == pre.registers@.update(x, kk)
}

/// Add the immediate `kk` into register `x`, wrapping modulo 256, with
/// no flag side effect.
pub open spec fn spec_add_vx(pre: Emulator, post: Emulator, x: int, kk: u8) -> bool {
    &&& spec_only_regs(pre, post)
    &&& post.registers@ == pre.registers@.update(x, spec_wrap8(pre.registers@[x] + kk))
}

/// Copy register `y` into register `x`.
pub open spec fn spec_ld_vx_vy(pre: Emulator, post: Emulator, x: int, y: int) -> bool {
    &&& spec_only_regs(pre, post)
    &&& post.registers@ == pre.registers@.update(x, pre.registers@[y])
}

/// Bitwise-or register `y` into register `x`.
pub open spec fn spec_or_vx_vy(pre: Emulator, post: Emulator, x: int, y: int) -> bool {
    &&& spec_only_regs(pre, post)
    &&& post.registers@ == pre.registers@.update(x, pre.registers@[x] | pre.registers@[y])
}

/// Bitwise-and register `y` into register `x`.
pub open spec fn spec_and_vx_vy(pre: Emulator, post: Emulator, x: int, y: int) -> bool {
    &&& spec_only_regs(pre, post)
    &&& post.registers@ == pre.registers@.update(x, pre.registers@[x] & pre.registers@[y])
}

/// Bitwise-xor register `y` into register `x`.
pub open spec fn spec_xor_vx_vy(pre: Emulator, post: Emulator, x: int, y: int) -> bool {
    &&& spec_only_regs(pre, post)
    &&& post.registers@ == pre.registers@.update(x, pre.registers@[x] ^ pre.registers@[y])
}

/// Add register `y` into register `x`: the flag register is first set
/// to 1 exactly when the 16-bit sum exceeds 255, then the wrapped 8-bit
/// sum of the registers as they then stand is stored into `x`.
pub open spec fn spec_add_vx_vy(pre: Emulator, post: Emulator, x: int, y: int) -> bool {
    let flag: u8 = if pre.registers@[x] + pre.registers@[y] > 255 {
        1
    } else {
        0
    };
    let r1 = pre.registers@.update(15, flag);
    &&& spec_only_regs(pre, post)
    &&& post.registers@ == r1.update(x, spec_wrap8(r1[x] + r1[y]))
}

/// Subtract register `y` from register `x`: the flag register is first
/// set to 1 exactly when no borrow occurs (x >= y), then the wrapped
/// difference of the registers as they then stand is stored into `x`.
pub open spec fn spec_sub_vx_vy(pre: Emulator, post: Emulator, x: int, y: int) -> bool {
    let flag: u8 = if pre.registers@[x] >= pre.registers@[y] {
        1
    } else {
        0
    };
    let r1 = pre.registers@.update(15, flag);
    &&& spec_only_regs(pre, post)
    &&& post.registers@ == r1.update(x, spec_wrap8(r1[x] - r1[y]))
}

/// Reverse subtract: register `x` becomes `y - x`, and the flag
/// register is first set to 1 exactly when no borrow occurs (y >= x).
pub open spec fn spec_subn_vx_vy(pre: Emulator, post: Emulator, x: int, y: int) -> bool {
    let flag: u8 = if pre.registers@[y] >= pre.registers@[x] {
        1
    } else {
        0
    };
    let r1 = pre.registers@.update(15, flag);
    &&& spec_only_regs(pre, post)
    &&& post.registers@ == r1.update(x, spec_wrap8(r1[y] - r1[x]))
}

/// Shift register `x` right by one: the flag register first captures
/// bit 0 of `x`, then `x` as it then stands is halved.
pub open spec fn spec_shr_vx(pre: Emulator, post: Emulator, x: int) -> bool {
    let r1 = pre.registers@.update(15, (pre.registers@[x] % 2) as u8);
    &&& spec_only_regs(pre, post)
    &&& post.registers@ == r1.update(x, (r1[x] / 2) as u8)
}

/// Shift register `x` left by one: the flag register first captures
/// bit 7 of `x`, then `x` as it then stands is doubled modulo 256.
pub open spec fn spec_shl_vx(pre: Emulator, post: Emulator, x: int) -> bool {
    let r1 = pre.registers@.update(15, (pre.registers@[x] / 128) as u8);
    &&& spec_only_regs(pre, post)
    &&& post.registers@ == r1.update(x, spec_wrap8(r1[x] * 2))
}

/// Set the address register to the address operand.
pub open spec fn spec_ld_i(pre: Emulator, post: Emulator, nnn: u16) -> bool {
    &&& spec_only_ar(pre, post)
    &&& post.address_register == nnn
}

/// Jump to the address operand.
pub open spec fn spec_jp_addr(pre: Emulator, post: Emulator, nnn: u16) -> bool {
    &&& spec_only_pc(pre, post)
    &&& post.pc == nnn
}

/// Jump to the address operand offset by register 0, reduced into the
/// 12-bit address space.
pub open spec fn spec_jp_v0(pre: Emulator, post: Emulator, nnn: u16) -> bool {
    &&& spec_only_pc(pre, post)
    &&& post.pc == spec_wrap12(nnn + pre.registers@[0])
}

/// Store a random byte masked by the immediate `kk` into register `x`.
pub open spec fn spec_rnd_vx(pre: Emulator, post: Emulator, x: int, kk: u8, rb: u8) -> bool {
    &&& spec_only_regs(pre, post)
    &&& post.registers@ == pre.registers@.update(x, rb & kk)
}

/// Copy the delay timer into register `x`.
pub open spec fn spec_ld_vx_dt(pre: Emulator, post: Emulator, x: int) -> bool {
    &&& spec_only_regs(pre, post)
    &&& post.registers@ == pre.registers@.update(x, pre.delay_timer_register)
}

/// Copy register `x` into the delay timer.
pub open spec fn spec_ld_dt_vx(pre: Emulator, post: Emulator, x: int) -> bool {
    &&& spec_only_dt(pre, post)
    &&& post.delay_timer_register == pre.registers@[x]
}

/// Copy register `x` into the sound timer.
pub open spec fn spec_ld_st_vx(pre: Emulator, post: Emulator, x: int) -> bool {
    &&& spec_only_st(pre, post)
    &&& post.sound_timer_register == pre.registers@[x]
}

/// Add register `x` into the address register, wrapping within the
/// 12-bit address space; no flag side effect.
pub open spec fn spec_add_i_vx(pre: Emulator, post: Emulator, x: int) -> bool {
    &&& spec_only_ar(pre, post)
    &&& post.address_register == spec_wrap12(pre.address_register + pre.registers@[x])
}

/// Point the address register at the font glyph for the hexadecimal
/// digit held in register `x`: each glyph occupies 5 consecutive bytes
/// starting at the font base address.
pub open spec fn spec_ld_f_vx(pre: Emulator, post: Emulator, x: int) -> bool {
    &&& spec_only_ar(pre, post)
    &&& post.address_register == pre.sprite_memory_index + 5 * pre.registers@[x]
}

/// Store the decimal digits of register `x`: hundreds at the address
/// register, tens and ones at the two following addresses, each
/// address reduced into the 12-bit space.
pub open spec fn spec_ld_b_vx(pre: Emulator, post: Emulator, x: int) -> bool {
    let v = pre.registers@[x];
    let base = pre.address_register as int;
    &&& spec_only_mem(pre, post)
    &&& post.memory@ == pre.memory@.update(base % 0x1000, (v / 100) as u8).update(
        (base + 1) % 0x1000,
        ((v % 100) / 10) as u8,
    ).update((base + 2) % 0x1000, (v % 10) as u8)
}

/// The memory after storing registers 0 through `k - 1` at consecutive
/// addresses from `ar`, each address reduced into the 12-bit space.
pub open spec fn spec_store_regs(mem: Seq<u8>, regs: Seq<u8>, ar: u16, k: int) -> Seq<u8>
    decreases k,
{
    if k <= 0 {
        mem
    } else {
        spec_store_regs(mem, regs, ar, k - 1).update((ar + (k - 1)) % 0x1000, regs[k - 1])
    }
}

/// The register file after loading registers 0 through `k - 1` from
/// consecutive addresses from `ar`, each address reduced into the
/// 12-bit space.
pub open spec fn spec_load_regs(regs: Seq<u8>, mem: Seq<u8>, ar: u16, k: int) -> Seq<u8>
    decreases k,
{
    if k <= 0 {
        regs
    } else {
        spec_load_regs(regs, mem, ar, k - 1).update(k - 1, mem[(ar + (k - 1)) % 0x1000])
    }
}

/// Store registers 0 through `x` inclusive to memory starting at the
/// address register, in ascending register order.
pub open spec fn spec_ld_i_vx(pre: Emulator, post: Emulator, x: int) -> bool {
    &&& spec_only_mem(pre, post)
    &&& post.memory@ == spec_store_regs(pre.memory@, pre.registers@, pre.address_register, x + 1)
}

/// Load registers 0 through `x` inclusive from memory starting at the
/// address register, in ascending register order.
pub open spec fn spec_ld_vx_i(pre: Emulator, post: Emulator, x: int) -> bool {
    &&& spec_only_regs(pre, post)
    &&& post.registers@ == spec_load_regs(pre.registers@, pre.memory@, pre.address_register, x + 1)
}

/// The display cells after drawing `rows` sprite rows fetched from
/// memory at the address register, with the top-left pixel at
/// `(vx, vy)`. Row `i` comes from memory address `ar + i` (reduced
/// into the 12-bit space) and lands on screen row `vy + i`, wrapping
/// at the screen edges.
pub open spec fn spec_draw_state(
    scr: Seq<PixelSet>,
    w: int,
    h: int,
    mem: Seq<u8>,
    ar: u16,
    vx: u8,
    vy: u8,
    rows: int,
) -> Seq<PixelSet>
    decreases rows,
{
    if rows <= 0 {
        scr
    } else {
        let prev = spec_draw_state(scr, w, h, mem, ar, vx, vy, rows - 1);
        spec_blit_state(
            prev,
            w,
            h,
            mem[(ar + (rows - 1)) % 0x1000],
            vx as int,
            vy + (rows - 1),
            8,
        )
    }
}

/// Whether drawing `rows` sprite rows as in [`spec_draw_state`] turns
/// any previously-lit cell off.
pub open spec fn spec_draw_collision(
    scr: Seq<PixelSet>,
    w: int,
    h: int,
    mem: Seq<u8>,
    ar: u16,
    vx: u8,
    vy: u8,
    rows: int,
) -> bool
    decreases rows,
{
    if rows <= 0 {
        false
    } else {
        let prev = spec_draw_state(scr, w, h, mem, ar, vx, vy, rows - 1);
        spec_draw_collision(scr, w, h, mem, ar, vx, vy, rows - 1) || spec_blit_collision(
            prev,
            w,
            h,
            mem[(ar + (rows - 1)) % 0x1000],
            vx as int,
            vy + (rows - 1),
            8,
        )
    }
}

/// Draw an `n`-row sprite at the coordinates held in registers `x` and
/// `y`: the display is redrawn as [`spec_draw_state`] says, and the
/// flag register reports whether any lit pixel was turned off.
pub open spec fn spec_drw_vx_vy(
    pre: Emulator,
    post: Emulator,
    pre_scr: Screen,
    post_scr: Screen,
    x: int,
    y: int,
    n: int,
) -> bool {
    let w = pre_scr.width as int;
    let h = pre_scr.height as int;
    let vx = pre.registers@[x];
    let vy = pre.registers@[y];
    let collision = spec_draw_collision(
        pre_scr.screen@,
        w,
        h,
        pre.memory@,
        pre.address_register,
        vx,
        vy,
        n,
    );
    &&& Screen::same_frame(pre_scr, post_scr)
    &&& post_scr.screen@ == spec_draw_state(
        pre_scr.screen@,
        w,
        h,
        pre.memory@,
        pre.address_register,
        vx,
        vy,
        n,
    )
    &&& spec_only_regs(pre, post)
    &&& post.registers@ == pre.registers@.update(
        15,
        if collision {
            1u8
        } else {
            0u8
        },
    )
}

/// What one call of `emulate` does, for every instruction kind: the
/// relation between the machine and display states before and after
/// executing `opcode`, the keyboard read, and the result returned.
pub open spec fn spec_emulate(
    pre: Emulator,
    post: Emulator,
    pre_scr: Screen,
    post_scr: Screen,
    kb: Keyboard,
    opcode: u16,
    r: Result<(), ExecError>,
) -> bool {
    let x = spec_op_x(opcode) as int;
    let y = spec_op_y(opcode) as int;
    let kk = spec_op_kk(opcode);
    let nnn = spec_op_nnn(opcode);
    let n = spec_op_n(opcode) as int;
    match spec_parse_opcode(opcode) {
        Instruction::SYS_addr => r is Ok && spec_emu_eq(pre, post) && spec_screen_eq(
            pre_scr,
            post_scr,
        ),
        Instruction::CLS => r is Ok && spec_emu_eq(pre, post) && spec_screen_cleared(
            pre_scr,
            post_scr,
        ),
        Instruction::RET => spec_screen_eq(pre_scr, post_scr) && (if pre.sp >= 1 {
            r is Ok && spec_ret(pre, post)
        } else {
            r == Err::<(), ExecError>(ExecError::StackUnderflow) && spec_emu_eq(pre, post)
        }),
        Instruction::JP_addr => r is Ok && spec_screen_eq(pre_scr, post_scr) && spec_jp_addr(
            pre,
            post,
            nnn,
        ),
        Instruction::CALL_addr => spec_screen_eq(pre_scr, post_scr) && (if pre.sp < 15 {
            r is Ok && spec_call_addr(pre, post, nnn)
        } else {
            r == Err::<(), ExecError>(ExecError::StackOverflow) && spec_emu_eq(pre, post)
        }),
        Instruction::SE_Vx => r is Ok && spec_screen_eq(pre_scr, post_scr) && spec_skip(
            pre,
            post,
            pre.registers@[x] == kk,
        ),
        Instruction::SNE_Vx => r is Ok && spec_screen_eq(pre_scr, post_scr) && spec_skip(
            pre,
            post,
            pre.registers@[x] != kk,
        ),
        Instruction::SE_Vx_Vy => r is Ok && spec_screen_eq(pre_scr, post_scr) && spec_skip(
            pre,
            post,
            pre.registers@[x] == pre.registers@[y],
        ),
        Instruction::LD_Vx => r is Ok && spec_screen_eq(pre_scr, post_scr) && spec_ld_vx(
            pre,
            post,
            x,
            kk,
        ),
        Instruction::ADD_Vx => r is Ok && spec_screen_eq(pre_scr, post_scr) && spec_add_vx(
            pre,
            post,
            x,
            kk,
        ),
        Instruction::LD_Vx_Vy => r is Ok && spec_screen_eq(pre_scr, post_scr) && spec_ld_vx_vy(
            pre,
            post,
            x,
            y,
        ),
        Instruction::OR_Vx_Vy => r is Ok && spec_screen_eq(pre_scr, post_scr) && spec_or_vx_vy(
            pre,
            post,
            x,
            y,
        ),
        Instruction::AND_Vx_Vy => r is Ok && spec_screen_eq(pre_scr, post_scr) && spec_and_vx_vy(
            pre,
            post,
            x,
            y,
        ),
        Instruction::XOR_Vx_Vy => r is Ok && spec_screen_eq(pre_scr, post_scr) && spec_xor_vx_vy(
            pre,
            post,
            x,
            y,
        ),
        Instruction::ADD_Vx_Vy => r is Ok && spec_screen_eq(pre_scr, post_scr) && spec_add_vx_vy(
            pre,
            post,
            x,
            y,
        ),
        Instruction::SUB_Vx_Vy => r is Ok && spec_screen_eq(pre_scr, post_scr) && spec_sub_vx_vy(
            pre,
            post,
            x,
            y,
        ),
        Instruction::SHR_Vx => r is Ok && spec_screen_eq(pre_scr, post_scr) && spec_shr_vx(
            pre,
            post,
            x,
        ),
        Instruction::SUBN_Vx_Vy => r is Ok && spec_screen_eq(pre_scr, post_scr) && spec_subn_vx_vy(
            pre,
            post,
            x,
            y,
        ),
        Instruction::SHL_Vx => r is Ok && spec_screen_eq(pre_scr, post_scr) && spec_shl_vx(
            pre,
            post,
            x,
        ),
        Instruction::SNE_Vx_Vy => r is Ok && spec_screen_eq(pre_scr, post_scr) && spec_skip(
            pre,
            post,
            pre.registers@[x] != pre.registers@[y],
        ),
        Instruction::LD_I => r is Ok && spec_screen_eq(pre_scr, post_scr) && spec_ld_i(
            pre,
            post,
            nnn,
        ),
        Instruction::JP_V0 => r is Ok && spec_screen_eq(pre_scr, post_scr) && spec_jp_v0(
            pre,
            post,
            nnn,
        ),
        Instruction::RND_Vx => r is Ok && spec_screen_eq(pre_scr, post_scr) && (exists|rb: u8|
            spec_rnd_vx(pre, post, x, kk, rb)),
        Instruction::DRW_Vx_Vy => r is Ok && spec_drw_vx_vy(
            pre,
            post,
            pre_scr,
            post_scr,
            x,
            y,
            n,
        ),
        Instruction::SKP_Vx => r is Ok && spec_screen_eq(pre_scr, post_scr) && spec_skip(
            pre,
            post,
            spec_key_down(kb.keys@, pre.registers@[x] as int),
        ),
        Instruction::SKNP_Vx => r is Ok && spec_screen_eq(pre_scr, post_scr) && spec_skip(
            pre,
            post,
            !spec_key_down(kb.keys@, pre.registers@[x] as int),
        ),
        Instruction::LD_Vx_DT => r is Ok && spec_screen_eq(pre_scr, post_scr) && spec_ld_vx_dt(
            pre,
            post,
            x,
        ),
        Instruction::LD_Vx_K => r is Ok && spec_screen_eq(pre_scr, post_scr) && (exists|k: u8|
            spec_is_first_key_down(kb.keys@, k) && spec_ld_vx(pre, post, x, k)),
        Instruction::LD_DT_Vx => r is Ok && spec_screen_eq(pre_scr, post_scr) && spec_ld_dt_vx(
            pre,
            post,
            x,
        ),
        Instruction::LD_ST_Vx => r is Ok && spec_screen_eq(pre_scr, post_scr) && spec_ld_st_vx(
            pre,
            post,
            x,
        ),
        Instruction::ADD_I_Vx => r is Ok && spec_screen_eq(pre_scr, post_scr) && spec_add_i_vx(
            pre,
            post,
            x,
        ),
        Instruction::LD_F_Vx => r is Ok && spec_screen_eq(pre_scr, post_scr) && spec_ld_f_vx(
            pre,
            post,
            x,
        ),
        Instruction::LD_B_Vx => r is Ok && spec_screen_eq(pre_scr, post_scr) && spec_ld_b_vx(
            pre,
            post,
            x,
        ),
        Instruction::LD_I_Vx => r is Ok && spec_screen_eq(pre_scr, post_scr) && spec_ld_i_vx(
            pre,
            post,
            x,
        ),
        Instruction::LD_Vx_I => r is Ok && spec_screen_eq(pre_scr, post_scr) && spec_ld_vx_i(
            pre,
            post,
            x,
        ),
        Instruction::SCD_nibble
        | Instruction::SCR
        | Instruction::SCL
        | Instruction::EXIT
        | Instruction::LOW
        | Instruction::HIGH
        | Instruction::DRW_Vx_Vy_0
        | Instruction::LD_HF_Vx
        | Instruction::LD_R_Vx
        | Instruction::LD_Vx_R => r == Err::<(), ExecError>(
            ExecError::UnimplementedInstruction(opcode),
        ) && spec_emu_eq(pre, post) && spec_screen_eq(pre_scr, post_scr),
        Instruction::Invalid_Instruction => r == Err::<(), ExecError>(
            ExecError::InvalidInstruction(opcode),
        ) && spec_emu_eq(pre, post) && spec_screen_eq(pre_scr, post_scr),
    }
}

/// Relies on rand::Rng::gen_range over rand::thread_rng: draws one
/// byte uniformly from 0 to 255. Nothing can be promised of a random
/// value, so this has no contract; callers state what holds whatever
/// byte comes back.
#[verifier::external_body]
fn random_byte() -> u8 {
    rand::thread_rng().gen_range(0..=255u8)
}

impl Emulator {
    /// The machine state is internally consistent: the program counter
    /// and address register lie in the 12-bit address space, the stack
    /// pointer is within the 16-entry stack, and the fixed layout
    /// fields hold their construction values (the flag register is
    /// register 15, fonts at 0x000, programs at 0x200).
    pub open spec fn wf(self) -> bool {
        &&& self.pc < 0x1000
        &&& self.address_register < 0x1000
        &&& self.sp <= 15
        &&& self.flag_register_index == 0xF
        &&& self.program_memory_index == 0x200
        &&& self.display_refresh_memory_index == 0xF00
        &&& self.eti_660_memory_index == 0x600
        &&& self.sprite_memory_index == 0x000
    }

    /// A machine at power-on: registers, timers, stack and memory all
    /// zero except for the built-in font sprites, the program counter
    /// at the program start address 0x200.
    pub fn new() -> (e: Emulator)
        ensures
            e.wf(),
            forall|i: int| 0 <= i < 16 ==> e.registers@[i] == 0,
            forall|i: int| 0 <= i < 16 ==> e.stack@[i] == 0,
            e.pc == 0x200,
            e.sp == 0,
            e.delay_timer_register == 0,
            e.sound_timer_register == 0,
            e.address_register == 0,
            e.memory@ == spec_font_loaded(Seq::new(4096, |i: int| 0u8)),
    {
        let mut e = Emulator {
            registers: [0; 16],
            flag_register_index: 0xF,
            pc: 0x200,
            sp: 0,
            delay_timer_register: 0,
            sound_timer_register: 0,
            address_register: 0,
            memory: [0; 4096],
            program_memory_index: 0x200,
            display_refresh_memory_index: 0xF00,
            eti_660_memory_index: 0x600,
            sprite_memory_index: 0x000,
            stack: [0; 16],
        };
        proof {
            assert(e.memory@ =~= Seq::new(4096, |i: int| 0u8));
        }
        e.set_character_sprites();
        e
    }

    /// Write the built-in sprite font for the hexadecimal digits 0-F
    /// into the interpreter-owned memory region: 16 glyphs of 5 bytes
    /// each, starting at the font base address.
    fn set_character_sprites(&mut self)
        requires
            old(self).wf(),
        ensures
            final(self).wf(),
            spec_only_mem(*old(self), *final(self)),
            final(self).memory@ == spec_font_loaded(old(self).memory@),
    {
        // 0
        self.memory[self.sprite_memory_index + 0] = 0xF0;
        self.memory[self.sprite_memory_index + 1] = 0x90;
        self.memory[self.sprite_memory_index + 2] = 0x90;
        self.memory[self.sprite_memory_index + 3] = 0x90;
        self.memory[self.sprite_memory_index + 4] = 0xF0;
        // 1
        self.memory[self.sprite_memory_index + 5] = 0x20;
        self.memory[self.sprite_memory_index + 6] = 0x60;
        self.memory[self.sprite_memory_index + 7] = 0x20;
        self.memory[self.sprite_memory_index + 8] = 0x20;
        self.memory[self.sprite_memory_index + 9] = 0x70;
        // 2
        self.memory[self.sprite_memory_index + 10] = 0xF0;
        self.memory[self.sprite_memory_index + 11] = 0x10;
        self.memory[self.sprite_memory_index + 12] = 0xF0;
        self.memory[self.sprite_memory_index + 13] = 0x80;
        self.memory[self.sprite_memory_index + 14] = 0xF0;
        // 3
        self.memory[self.sprite_memory_index + 15] = 0xF0;
        self.memory[self.sprite_memory_index + 16] = 0x10;
        self.memory[self.sprite_memory_index + 17] = 0xF0;
        self.memory[self.sprite_memory_index + 18] = 0x10;
        self.memory[self.sprite_memory_index + 19] = 0xF0;
        // 4
        self.memory[self.sprite_memory_index + 20] = 0x90;
        self.memory[self.sprite_memory_index + 21] = 0x90;
        self.memory[self.sprite_memory_index + 22] = 0xF0;
        self.memory[self.sprite_memory_index + 23] = 0x10;
        self.memory[self.sprite_memory_index + 24] = 0x10;
        // 5
        self.memory[self.sprite_memory_index + 25] = 0xF0;
        self.memory[self.sprite_memory_index + 26] = 0x80;
        self.memory[self.sprite_memory_index + 27] = 0xF0;
        self.memory[self.sprite_memory_index + 28] = 0x10;
        self.memory[self.sprite_memory_index + 29] = 0xF0;
        // 6
        self.memory[self.sprite_memory_index + 30] = 0xF0;
        self.memory[self.sprite_memory_index + 31] = 0x80;
        self.memory[self.sprite_memory_index + 32] = 0xF0;
        self.memory[self.sprite_memory_index + 33] = 0x90;
        self.memory[self.sprite_memory_index + 34] = 0xF0;
        // 7
        self.memory[self.sprite_memory_index + 35] = 0xF0;
        self.memory[self.sprite_memory_index + 36] = 0x10;
        self.memory[self.sprite_memory_index + 37] = 0x20;
        self.memory[self.sprite_memory_index + 38] = 0x40;
        self.memory[self.sprite_memory_index + 39] = 0x40;
        // 8
        self.memory[self.sprite_memory_index + 40] = 0xF0;
        self.memory[self.sprite_memory_index + 41] = 0x90;
        self.memory[self.sprite_memory_index + 42] = 0xF0;
        self.memory[self.sprite_memory_index + 43] = 0x90;
        self.memory[self.sprite_memory_index + 44] = 0xF0;
        // 9
        self.memory[self.sprite_memory_index + 45] = 0xF0;
        self.memory[self.sprite_memory_index + 46] = 0x90;
        self.memory[self.sprite_memory_index + 47] = 0xF0;
        self.memory[self.sprite_memory_index + 48] = 0x10;
        self.memory[self.sprite_memory_index + 49] = 0xF0;
        // A
        self.memory[self.sprite_memory_index + 50] = 0xF0;
        self.memory[self.sprite_memory_index + 51] = 0x90;
        self.memory[self.sprite_memory_index + 52] = 0xF0;
        self.memory[self.sprite_memory_index + 53] = 0x90;
        self.memory[self.sprite_memory_index + 54] = 0x90;
        // B
        self.memory[self.sprite_memory_index + 55] = 0xE0;
        self.memory[self.sprite_memory_index + 56] = 0x90;
        self.memory[self.sprite_memory_index + 57] = 0xE0;
        self.memory[self.sprite_memory_index + 58] = 0x90;
        self.memory[self.sprite_memory_index + 59] = 0xE0;
        // C
        self.memory[self.sprite_memory_index + 60] = 0xF0;
        self.memory[self.sprite_memory_index + 61] = 0x80;
        self.memory[self.sprite_memory_index + 62] = 0x80;
        self.memory[self.sprite_memory_index + 63] = 0x80;
        self.memory[self.sprite_memory_index + 64] = 0xF0;
        // D
        self.memory[self.sprite_memory_index + 65] = 0xE0;
        self.memory[self.sprite_memory_index + 66] = 0x90;
        self.memory[self.sprite_memory_index + 67] = 0x90;
        self.memory[self.sprite_memory_index + 68] = 0x90;
        self.memory[self.sprite_memory_index + 69] = 0xE0;
        // E
        self.memory[self.sprite_memory_index + 70] = 0xF0;
        self.memory[self.sprite_memory_index + 71] = 0x80;
        self.memory[self.sprite_memory_index + 72] = 0xF0;
        self.memory[self.sprite_memory_index + 73] = 0x80;
        self.memory[self.sprite_memory_index + 74] = 0xF0;
        // F
        self.memory[self.sprite_memory_index + 75] = 0xF0;
        self.memory[self.sprite_memory_index + 76] = 0x80;
        self.memory[self.sprite_memory_index + 77] = 0xF0;
        self.memory[self.sprite_memory_index + 78] = 0x80;
        self.memory[self.sprite_memory_index + 79] = 0x80;
    }

    /// Count the memory bytes that are not zero.
    pub fn get_nonzero_memory(&self) -> (count: u16)
        ensures
            count as int == spec_count_nonzero(self.memory@, 4096),
    {
        let mut count: u16 = 0;
        let mut i: usize = 0;
        while i < 4096
            invariant
                i <= 4096,
                count as int == spec_count_nonzero(self.memory@, i as int),
                count as int <= i as int,
            decreases 4096 - i,
        {
            if self.memory[i] != 0 {
                count = count + 1;
            }
            i = i + 1;
        }
        count
    }

    /// Write one byte into memory. Program bytes are placed verbatim
    /// from the program start address 0x200 before the first step; no
    /// length validation happens here, so a program longer than the
    /// remaining space overwrites whatever follows.
    pub fn set_memory(&mut self, byte: u8, mem_address: usize)
        requires
            mem_address < 4096,
        ensures
            spec_only_mem(*old(self), *final(self)),
            final(self).memory@ == old(self).memory@.update(mem_address as int, byte),
            final(self).wf() == old(self).wf(),
    {
        self.memory[mem_address] = byte;
    }

    /// Return from a subroutine: pop the top stack slot into the
    /// program counter and decrement the stack pointer.
    pub fn ret(&mut self)
        requires
            old(self).wf(),
            old(self).sp >= 1,
        ensures
            final(self).wf(),
            spec_ret(*old(self), *final(self)),
    {
        self.pc = self.stack[self.sp as usize] % 0x1000;
        self.sp = self.sp - 1;
    }

    /// Jump to the address operand.
    pub fn jp_addr(&mut self, opcode: u16)
        requires
            old(self).wf(),
        ensures
            final(self).wf(),
            spec_jp_addr(*old(self), *final(self), spec_op_nnn(opcode)),
    {
        self.pc = op_nnn(opcode);
    }

    /// Call a subroutine: push the current program counter into the
    /// next stack slot and jump to the address operand.
    pub fn call_addr(&mut self, opcode: u16)
        requires
            old(self).wf(),
            old(self).sp < 15,
        ensures
            final(self).wf(),
            spec_call_addr(*old(self), *final(self), spec_op_nnn(opcode)),
    {
        self.sp = self.sp + 1;
        self.stack[self.sp as usize] = self.pc;
        self.pc = op_nnn(opcode);
    }

    /// Skip the next instruction when register X equals the immediate.
    pub fn se_vx(&mut self, high_byte: u8, low_byte: u8)
        requires
            old(self).wf(),
        ensures
            final(self).wf(),
            spec_skip(
                *old(self),
                *final(self),
                old(self).registers@[(high_byte % 16) as int] == low_byte,
            ),
    {
        let second_nibble = high_byte % 16;
        if self.registers[second_nibble as usize] == low_byte {
            self.pc = (self.pc + 2) % 0x1000;
        }
    }

    /// Skip the next instruction when register X differs from the
    /// immediate.
    pub fn sne_vx(&mut self, high_byte: u8, low_byte: u8)
        requires
            old(self).wf(),
        ensures
            final(self).wf(),
            spec_skip(
                *old(self),
                *final(self),
                old(self).registers@[(high_byte % 16) as int] != low_byte,
            ),
    {
        let second_nibble = high_byte % 16;
        if self.registers[second_nibble as usize] != low_byte {
            self.pc = (self.pc + 2) % 0x1000;
        }
    }

    /// Skip the next instruction when registers X and Y are equal.
    pub fn se_vx_vy(&mut self, high_byte: u8, low_byte: u8)
        requires
            old(self).wf(),
        ensures
            final(self).wf(),
            spec_skip(
                *old(self),
                *final(self),
                old(self).registers@[(high_byte % 16) as int] == old(self).registers@[(low_byte
                    / 16) as int],
            ),
    {
        let second_nibble = high_byte % 16;
        let third_nibble = low_byte / 16;
        if self.registers[second_nibble as usize] == self.registers[third_nibble as usize] {
            self.pc = (self.pc + 2) % 0x1000;
        }
    }

    /// Load the immediate into register X.
    pub fn ld_vx(&mut self, high_byte: u8, low_byte: u8)
        requires
            old(self).wf(),
        ensures
            final(self).wf(),
            spec_ld_vx(*old(self), *final(self), (high_byte % 16) as int, low_byte),
    {
        let second_nibble = high_byte % 16;
        self.registers[second_nibble as usize] = low_byte;
    }

    /// Add the immediate into register X, wrapping modulo 256.
    pub fn add_vx(&mut self, high_byte: u8, low_byte: u8)
        requires
            old(self).wf(),
        ensures
            final(self).wf(),
            spec_add_vx(*old(self), *final(self), (high_byte % 16) as int, low_byte),
    {
        let second_nibble = high_byte % 16;
        self.registers[second_nibble as usize] = self.registers[second_nibble
            as usize].wrapping_add(low_byte);
    }

    /// Copy register Y into register X.
    pub fn ld_vx_vy(&mut self, high_byte: u8, low_byte: u8)
        requires
            old(self).wf(),
        ensures
            final(self).wf(),
            spec_ld_vx_vy(*old(self), *final(self), (high_byte % 16) as int, (low_byte / 16) as int),
    {
        let second_nibble = high_byte % 16;
        let third_nibble = low_byte / 16;
        self.registers[second_nibble as usize] = self.registers[third_nibble as usize];
    }

    /// Bitwise-or register Y into register X.
    pub fn or_vx_vy(&mut self, high_byte: u8, low_byte: u8)
        requires
            old(self).wf(),
        ensures
            final(self).wf(),
            spec_or_vx_vy(*old(self), *final(self), (high_byte % 16) as int, (low_byte / 16) as int),
    {
        let second_nibble = high_byte % 16;
        let third_nibble = low_byte / 16;
        self.registers[second_nibble as usize] = self.registers[second_nibble as usize]
            | self.registers[third_nibble as usize];
    }

    /// Bitwise-and register Y into register X.
    pub fn and_vx_vy(&mut self, high_byte: u8, low_byte: u8)
        requires
            old(self).wf(),
        ensures
            final(self).wf(),
            spec_and_vx_vy(
                *old(self),
                *final(self),
                (high_byte % 16) as int,
                (low_byte / 16) as int,
            ),
    {
        let second_nibble = high_byte % 16;
        let third_nibble = low_byte / 16;
        self.registers[second_nibble as usize] = self.registers[second_nibble as usize]
            & self.registers[third_nibble as usize];
    }

    /// Bitwise-xor register Y into register X.
    pub fn xor_vx_vy(&mut self, high_byte: u8, low_byte: u8)
        requires
            old(self).wf(),
        ensures
            final(self).wf(),
            spec_xor_vx_vy(
                *old(self),
                *final(self),
                (high_byte % 16) as int,
                (low_byte / 16) as int,
            ),
    {
        let second_nibble = high_byte % 16;
        let third_nibble = low_byte / 16;
        self.registers[second_nibble as usize] = self.registers[second_nibble as usize]
            ^ self.registers[third_nibble as usize];
    }

    /// Add register Y into register X: the flag register reports the
    /// carry out of the 8-bit sum, then the wrapped sum is stored.
    pub fn add_vx_vy(&mut self, high_byte: u8, low_byte: u8)
        requires
            old(self).wf(),
        ensures
            final(self).wf(),
            spec_add_vx_vy(
                *old(self),
                *final(self),
                (high_byte % 16) as int,
                (low_byte / 16) as int,
            ),
    {
        let second_nibble = high_byte % 16;
        let third_nibble = low_byte / 16;
        let result: u16 = (self.registers[second_nibble as usize] as u16)
            + (self.registers[third_nibble as usize] as u16);
        if result > 255 {
            self.registers[self.flag_register_index] = 1;
        } else {
            self.registers[self.flag_register_index] = 0;
        }
        self.registers[second_nibble as usize] = self.registers[second_nibble
            as usize].wrapping_add(self.registers[third_nibble as usize]);
    }

    /// Subtract register Y from register X: the flag register is set to
    /// 1 exactly when no borrow occurs, then the wrapped difference is
    /// stored.
    pub fn sub_vx_vy(&mut self, high_byte: u8, low_byte: u8)
        requires
            old(self).wf(),
        ensures
            final(self).wf(),
            spec_sub_vx_vy(
                *old(self),
                *final(self),
                (high_byte % 16) as int,
                (low_byte / 16) as int,
            ),
    {
        let second_nibble = high_byte % 16;
        let third_nibble = low_byte / 16;
        if self.registers[second_nibble as usize] >= self.registers[third_nibble as usize] {
            self.registers[self.flag_register_index] = 1;
        } else {
            self.registers[self.flag_register_index] = 0;
        }
        self.registers[second_nibble as usize] = self.registers[second_nibble
            as usize].wrapping_sub(self.registers[third_nibble as usize]);
    }

    /// Shift register X right by one; the flag register captures the
    /// bit shifted out.
    pub fn shr_vx(&mut self, high_byte: u8)
        requires
            old(self).wf(),
        ensures
            final(self).wf(),
            spec_shr_vx(*old(self), *final(self), (high_byte % 16) as int),
    {
        let second_nibble = high_byte % 16;
        self.registers[self.flag_register_index] = self.registers[second_nibble as usize] % 2;
        self.registers[second_nibble as usize] = self.registers[second_nibble as usize] / 2;
    }

    /// Reverse subtract: register X becomes Y - X, and the flag
    /// register is set to 1 exactly when no borrow occurs.
    pub fn subn_vx_vy(&mut self, high_byte: u8, low_byte: u8)
        requires
            old(self).wf(),
        ensures
            final(self).wf(),
            spec_subn_vx_vy(
                *old(self),
                *final(self),
                (high_byte % 16) as int,
                (low_byte / 16) as int,
            ),
    {
        let second_nibble = high_byte % 16;
        let third_nibble = low_byte / 16;
        if self.registers[third_nibble as usize] >= self.registers[second_nibble as usize] {
            self.registers[self.flag_register_index] = 1;
        } else {
            self.registers[self.flag_register_index] = 0;
        }
        self.registers[second_nibble as usize] = self.registers[third_nibble
            as usize].wrapping_sub(self.registers[second_nibble as usize]);
    }

    /// Shift register X left by one, discarding the top bit; the flag
    /// register captures the bit shifted out.
    pub fn shl_vx(&mut self, high_byte: u8)
        requires
            old(self).wf(),
        ensures
            final(self).wf(),
            spec_shl_vx(*old(self), *final(self), (high_byte % 16) as int),
    {
        let second_nibble = high_byte % 16;
        self.registers[self.flag_register_index] = self.registers[second_nibble as usize] / 128;
        self.registers[second_nibble as usize] = self.registers[second_nibble
            as usize].wrapping_mul(2);
    }

    /// Skip the next instruction when registers X and Y differ.
    pub fn sne_vx_vy(&mut self, high_byte: u8, low_byte: u8)
        requires
            old(self).wf(),
        ensures
            final(self).wf(),
            spec_skip(
                *old(self),
                *final(self),
                old(self).registers@[(high_byte % 16) as int] != old(self).registers@[(low_byte
                    / 16) as int],
            ),
    {
        let second_nibble = high_byte % 16;
        let third_nibble = low_byte / 16;
        if self.registers[second_nibble as usize] != self.registers[third_nibble as usize] {
            self.pc = (self.pc + 2) % 0x1000;
        }
    }

    /// Set the address register to the address operand.
    pub fn ld_i(&mut self, opcode: u16)
        requires
            old(self).wf(),
        ensures
            final(self).wf(),
            spec_ld_i(*old(self), *final(self), spec_op_nnn(opcode)),
    {
        self.address_register = op_nnn(opcode);
    }

    /// Jump to the address operand offset by register 0.
    pub fn jp_v0(&mut self, opcode: u16)
        requires
            old(self).wf(),
        ensures
            final(self).wf(),
            spec_jp_v0(*old(self), *final(self), spec_op_nnn(opcode)),
    {
        let address = op_nnn(opcode);
        self.pc = (address + self.registers[0] as u16) % 0x1000;
    }

    /// Store a random byte masked by the immediate into register X.
    /// The byte is drawn by the caller so that the masking and store
    /// are verified for every byte the generator may hand back.
    pub fn rnd_vx(&mut self, high_byte: u8, low_byte: u8, random_byte: u8)
        requires
            old(self).wf(),
        ensures
            final(self).wf(),
            spec_rnd_vx(
                *old(self),
                *final(self),
                (high_byte % 16) as int,
                low_byte,
                random_byte,
            ),
    {
        let second_nibble = high_byte % 16;
        self.registers[second_nibble as usize] = random_byte & low_byte;
    }

    /// Draw an N-byte sprite from memory at the address register at the
    /// coordinates held in registers X and Y, and record in the flag
    /// register whether any lit pixel was turned off.
    pub fn drw_vx_vy(&mut self, high_byte: u8, low_byte: u8, screen: &mut Screen)
        requires
            old(self).wf(),
            old(screen).wf(),
            old(screen).width > 0,
            old(screen).height > 0,
        ensures
            final(self).wf(),
            final(screen).wf(),
            spec_drw_vx_vy(
                *old(self),
                *final(self),
                *old(screen),
                *final(screen),
                (high_byte % 16) as int,
                (low_byte / 16) as int,
                (low_byte % 16) as int,
            ),
    {
        let second_nibble = high_byte % 16;
        let third_nibble = low_byte / 16;
        let last_nibble = low_byte % 16;
        let vx = self.registers[second_nibble as usize];
        let vy = self.registers[third_nibble as usize];
        let mut collision = false;
        let mut i: u8 = 0;
        while i < last_nibble
            invariant
                i <= last_nibble,
                last_nibble < 16,
                *self == *old(self),
                self.wf(),
                screen.wf(),
                screen.width > 0,
                screen.height > 0,
                Screen::same_frame(*old(screen), *screen),
                vx == old(self).registers@[(high_byte % 16) as int],
                vy == old(self).registers@[(low_byte / 16) as int],
                screen.screen@ == spec_draw_state(
                    old(screen).screen@,
                    old(screen).width as int,
                    old(screen).height as int,
                    old(self).memory@,
                    old(self).address_register,
                    vx,
                    vy,
                    i as int,
                ),
                collision == spec_draw_collision(
                    old(screen).screen@,
                    old(screen).width as int,
                    old(screen).height as int,
                    old(self).memory@,
                    old(self).address_register,
                    vx,
                    vy,
                    i as int,
                ),
            decreases last_nibble - i,
        {
            let row_address = ((self.address_register + i as u16) % 0x1000) as usize;
            let row_byte = self.memory[row_address];
            if screen.set_byte_pixels(row_byte, vx as u32, vy as u32 + i as u32) {
                collision = true;
            }
            i = i + 1;
        }
        if collision {
            self.registers[self.flag_register_index] = 1;
        } else {
            self.registers[self.flag_register_index] = 0;
        }
    }

    /// Skip the next instruction when the key whose index is held in
    /// register X is down.
    pub fn skp_vx(&mut self, high_byte: u8, keyboard: &Keyboard)
        requires
            old(self).wf(),
            old(self).registers@[(high_byte % 16) as int] < 16,
        ensures
            final(self).wf(),
            spec_skip(
                *old(self),
                *final(self),
                spec_key_down(
                    keyboard.keys@,
                    old(self).registers@[(high_byte % 16) as int] as int,
                ),
            ),
    {
        let second_nibble = high_byte % 16;
        if keyboard.is_key_down(self.registers[second_nibble as usize]) {
            self.pc = (self.pc + 2) % 0x1000;
        }
    }

    /// Skip the next instruction when the key whose index is held in
    /// register X is up.
    pub fn sknp_vx(&mut self, high_byte: u8, keyboard: &Keyboard)
        requires
            old(self).wf(),
            old(self).registers@[(high_byte % 16) as int] < 16,
        ensures
            final(self).wf(),
            spec_skip(
                *old(self),
                *final(self),
                !spec_key_down(
                    keyboard.keys@,
                    old(self).registers@[(high_byte % 16) as int] as int,
                ),
            ),
    {
        let second_nibble = high_byte % 16;
        if !keyboard.is_key_down(self.registers[second_nibble as usize]) {
            self.pc = (self.pc + 2) % 0x1000;
        }
    }

    /// Copy the delay timer into register X.
    pub fn ld_vx_dt(&mut self, high_byte: u8)
        requires
            old(self).wf(),
        ensures
            final(self).wf(),
            spec_ld_vx_dt(*old(self), *final(self), (high_byte % 16) as int),
    {
        let sn = high_byte % 16;
        self.registers[sn as usize] = self.delay_timer_register;
    }

    /// Store the index of the lowest pressed key into register X. The
    /// waiting is the host's responsibility: this is only executed once
    /// some key is known to be down.
    pub fn ld_vx_k(&mut self, high_byte: u8, keyboard: &Keyboard)
        requires
            old(self).wf(),
            exists|i: int| 0 <= i < 16 && spec_key_down(keyboard.keys@, i),
        ensures
            final(self).wf(),
            exists|k: u8|
                spec_is_first_key_down(keyboard.keys@, k) && spec_ld_vx(
                    *old(self),
                    *final(self),
                    (high_byte % 16) as int,
                    k,
                ),
    {
        let sn = high_byte % 16;
        match keyboard.get_first_key_down() {
            Some(k) => {
                self.registers[sn as usize] = k;
            },
            None => {
                proof {
                    assert(false);
                }
            },
        }
    }

    /// Copy register X into the delay timer.
    pub fn ld_dt_vx(&mut self, high_byte: u8)
        requires
            old(self).wf(),
        ensures
            final(self).wf(),
            spec_ld_dt_vx(*old(self), *final(self), (high_byte % 16) as int),
    {
        let sn = high_byte % 16;
        self.delay_timer_register = self.registers[sn as usize];
    }

    /// Copy register X into the sound timer.
    pub fn ld_st_vx(&mut self, high_byte: u8)
        requires
            old(self).wf(),
        ensures
            final(self).wf(),
            spec_ld_st_vx(*old(self), *final(self), (high_byte % 16) as int),
    {
        let sn = high_byte % 16;
        self.sound_timer_register = self.registers[sn as usize];
    }

    /// Add register X into the address register, wrapping within the
    /// 12-bit address space.
    pub fn add_i_vx(&mut self, high_byte: u8)
        requires
            old(self).wf(),
        ensures
            final(self).wf(),
            spec_add_i_vx(*old(self), *final(self), (high_byte % 16) as int),
    {
        let sn = high_byte % 16;
        self.address_register = (self.address_register + self.registers[sn as usize] as u16)
            % 0x1000;
    }

    /// Point the address register at the font glyph for the digit held
    /// in register X.
    pub fn ld_f_vx(&mut self, high_byte: u8)
        requires
            old(self).wf(),
        ensures
            final(self).wf(),
            spec_ld_f_vx(*old(self), *final(self), (high_byte % 16) as int),
    {
        let sn = high_byte % 16;
        self.address_register = self.sprite_memory_index as u16 + 5 * (self.registers[sn
            as usize] as u16);
    }

    /// Store the decimal digits of register X at the address register
    /// and the two following addresses.
    pub fn ld_b_vx(&mut self, high_byte: u8)
        requires
            old(self).wf(),
        ensures
            final(self).wf(),
            spec_ld_b_vx(*old(self), *final(self), (high_byte % 16) as int),
    {
        let sn = high_byte % 16;
        let value = self.registers[sn as usize];
        let base = self.address_register;
        self.memory[(base % 0x1000) as usize] = value / 100;
        self.memory[((base + 1) % 0x1000) as usize] = (value % 100) / 10;
        self.memory[((base + 2) % 0x1000) as usize] = value % 10;
    }

    /// Store registers 0 through X inclusive to memory starting at the
    /// address register, in ascending register order.
    pub fn ld_i_vx(&mut self, high_byte: u8)
        requires
            old(self).wf(),
        ensures
            final(self).wf(),
            spec_ld_i_vx(*old(self), *final(self), (high_byte % 16) as int),
    {
        let sn = (high_byte % 16) as usize;
        let mut i: usize = 0;
        while i <= sn
            invariant
                sn < 16,
                i <= sn + 1,
                self.wf(),
                spec_only_mem(*old(self), *self),
                self.registers@ == old(self).registers@,
                self.address_register == old(self).address_register,
                self.memory@ == spec_store_regs(
                    old(self).memory@,
                    old(self).registers@,
                    old(self).address_register,
                    i as int,
                ),
            decreases sn + 1 - i,
    {
            let addr = ((self.address_register + i as u16) % 0x1000) as usize;
            self.memory[addr] = self.registers[i];
            i = i + 1;
        }
    }

    /// Load registers 0 through X inclusive from memory starting at the
    /// address register, in ascending register order.
    pub fn ld_vx_i(&mut self, high_byte: u8)
        requires
            old(self).wf(),
        ensures
            final(self).wf(),
            spec_ld_vx_i(*old(self), *final(self), (high_byte % 16) as int),
    {
        let sn = (high_byte % 16) as usize;
        let mut i: usize = 0;
        while i <= sn
            invariant
                sn < 16,
                i <= sn + 1,
                self.wf(),
                spec_only_regs(*old(self), *self),
                self.memory@ == old(self).memory@,
                self.address_register == old(self).address_register,
                self.registers@ == spec_load_regs(
                    old(self).registers@,
                    old(self).memory@,
                    old(self).address_register,
                    i as int,
                ),
            decreases sn + 1 - i,
    {
            let addr = ((self.address_register + i as u16) % 0x1000) as usize;
            self.registers[i] = self.memory[addr];
            i = i + 1;
        }
    }

    /// Decode and execute one instruction word against the machine
    /// state, the input device and the display. Exactly the one
    /// transition [`spec_emulate`] defines for the decoded kind takes
    /// place; an invalid or unimplemented word and a stack fault are
    /// reported without touching any state. The program counter is not
    /// advanced past the instruction here: that is the step loop's
    /// responsibility.
    #[verifier::rlimit(100)]
    #[verifier::spinoff_prover]
    pub fn emulate(&mut self, opcode: u16, keyboard: &Keyboard, screen: &mut Screen) -> (r: Result<
        (),
        ExecError,
    >)
        requires
            old(self).wf(),
            old(screen).wf(),
            spec_parse_opcode(opcode) is LD_Vx_K ==> exists|i: int|
                0 <= i < 16 && spec_key_down(keyboard.keys@, i),
            spec_parse_opcode(opcode) is SKP_Vx || spec_parse_opcode(opcode) is SKNP_Vx
                ==> old(self).registers@[spec_op_x(opcode) as int] < 16,
            spec_parse_opcode(opcode) is DRW_Vx_Vy ==> old(screen).width > 0 && old(
                screen,
            ).height > 0,
        ensures
            final(self).wf(),
            final(screen).wf(),
            spec_emulate(
                *old(self),
                *final(self),
                *old(screen),
                *final(screen),
                *keyboard,
                opcode,
                r,
            ),
    {
        proof {
            assert(((opcode / 0x100) as u8) % 16 == ((opcode / 0x100) % 0x10) as u8)
                by (bit_vector);
            assert((((opcode % 0x100) as u8) / 16) == ((opcode / 0x10) % 0x10) as u8)
                by (bit_vector);
            assert((((opcode % 0x100) as u8) % 16) == (opcode % 0x10) as u8) by (bit_vector);
        }
        let high_byte: u8 = (opcode / 0x100) as u8;
        let low_byte: u8 = (opcode % 0x100) as u8;
        match Instruction::parse_opcode(opcode) {
            Instruction::SYS_addr => Ok(()),
            Instruction::CLS => {
                screen.clear_screen();
                Ok(())
            },
            Instruction::RET => {
                if self.sp >= 1 {
                    self.ret();
                    Ok(())
                } else {
                    Err(ExecError::StackUnderflow)
                }
            },
            Instruction::JP_addr => {
                self.jp_addr(opcode);
                Ok(())
            },
            Instruction::CALL_addr => {
                if self.sp < 15 {
                    self.call_addr(opcode);
                    Ok(())
                } else {
                    Err(ExecError::StackOverflow)
                }
            },
            Instruction::SE_Vx => {
                self.se_vx(high_byte, low_byte);
                Ok(())
            },
            Instruction::SNE_Vx => {
                self.sne_vx(high_byte, low_byte);
                Ok(())
            },
            Instruction::SE_Vx_Vy => {
                self.se_vx_vy(high_byte, low_byte);
                Ok(())
            },
            Instruction::LD_Vx => {
                self.ld_vx(high_byte, low_byte);
                Ok(())
            },
            Instruction::ADD_Vx => {
                self.add_vx(high_byte, low_byte);
                Ok(())
            },
            Instruction::LD_Vx_Vy => {
                self.ld_vx_vy(high_byte, low_byte);
                Ok(())
            },
            Instruction::OR_Vx_Vy => {
                self.or_vx_vy(high_byte, low_byte);
                Ok(())
            },
            Instruction::AND_Vx_Vy => {
                self.and_vx_vy(high_byte, low_byte);
                Ok(())
            },
            Instruction::XOR_Vx_Vy => {
                self.xor_vx_vy(high_byte, low_byte);
                Ok(())
            },
            Instruction::ADD_Vx_Vy => {
                self.add_vx_vy(high_byte, low_byte);
                Ok(())
            },
            Instruction::SUB_Vx_Vy => {
                self.sub_vx_vy(high_byte, low_byte);
                Ok(())
            },
            Instruction::SHR_Vx => {
                self.shr_vx(high_byte);
                Ok(())
            },
            Instruction::SUBN_Vx_Vy => {
                self.subn_vx_vy(high_byte, low_byte);
                Ok(())
            },
            Instruction::SHL_Vx => {
                self.shl_vx(high_byte);
                Ok(())
            },
            Instruction::SNE_Vx_Vy => {
                self.sne_vx_vy(high_byte, low_byte);
                Ok(())
            },
            Instruction::LD_I => {
                self.ld_i(opcode);
                Ok(())
            },
            Instruction::JP_V0 => {
                self.jp_v0(opcode);
                Ok(())
            },
            Instruction::RND_Vx => {
                let rb = random_byte();
                self.rnd_vx(high_byte, low_byte, rb);
                proof {
                    assert(spec_rnd_vx(*old(self), *self, spec_op_x(opcode) as int, spec_op_kk(opcode), rb));
                }
                Ok(())
            },
            Instruction::DRW_Vx_Vy => {
                self.drw_vx_vy(high_byte, low_byte, screen);
                Ok(())
            },
            Instruction::SKP_Vx => {
                self.skp_vx(high_byte, keyboard);
                Ok(())
            },
            Instruction::SKNP_Vx => {
                self.sknp_vx(high_byte, keyboard);
                Ok(())
            },
            Instruction::LD_Vx_DT => {
                self.ld_vx_dt(high_byte);
                Ok(())
            },
            Instruction::LD_Vx_K => {
                self.ld_vx_k(high_byte, keyboard);
                Ok(())
            },
            Instruction::LD_DT_Vx => {
                self.ld_dt_vx(high_byte);
                Ok(())
            },
            Instruction::LD_ST_Vx => {
                self.ld_st_vx(high_byte);
                Ok(())
            },
            Instruction::ADD_I_Vx => {
                self.add_i_vx(high_byte);
                Ok(())
            },
            Instruction::LD_F_Vx => {
                self.ld_f_vx(high_byte);
                Ok(())
            },
            Instruction::LD_B_Vx => {
                self.ld_b_vx(high_byte);
                Ok(())
            },
            Instruction::LD_I_Vx => {
                self.ld_i_vx(high_byte);
                Ok(())
            },
            Instruction::LD_Vx_I => {
                self.ld_vx_i(high_byte);
                Ok(())
            },
            Instruction::SCD_nibble
            | Instruction::SCR
            | Instruction::SCL
            | Instruction::EXIT
            | Instruction::LOW
            | Instruction::HIGH
            | Instruction::DRW_Vx_Vy_0
            | Instruction::LD_HF_Vx
            | Instruction::LD_R_Vx
            | Instruction::LD_Vx_R => Err(ExecError::UnimplementedInstruction(opcode)),
            Instruction::Invalid_Instruction => Err(ExecError::InvalidInstruction(opcode)),
        }
    }

    /// Run one step of the fetch-decode-execute loop: read the two
    /// bytes at the program counter, execute the word they form, and
    /// advance the counter by 2 unless the instruction landed it on a
    /// target of its own (a jump or a call). A return does get the
    /// advance: the popped address is the call instruction's own, so
    /// the step resumes at the instruction after the call. On an error
    /// the counter stays at the offending instruction, so the host can
    /// report its address.
    pub fn emulate_step(&mut self, keyboard: &Keyboard, screen: &mut Screen) -> (r: Result<
        (),
        ExecError,
    >)
        requires
            old(self).wf(),
            old(screen).wf(),
            spec_parse_opcode(spec_fetch(*old(self))) is LD_Vx_K ==> exists|i: int|
                0 <= i < 16 && spec_key_down(keyboard.keys@, i),
            spec_parse_opcode(spec_fetch(*old(self))) is SKP_Vx || spec_parse_opcode(
                spec_fetch(*old(self)),
            ) is SKNP_Vx ==> old(self).registers@[spec_op_x(spec_fetch(*old(self))) as int] < 16,
            spec_parse_opcode(spec_fetch(*old(self))) is DRW_Vx_Vy ==> old(screen).width > 0
                && old(screen).height > 0,
        ensures
            final(self).wf(),
            final(screen).wf(),
            spec_step_rel(
                *old(self),
                *final(self),
                *old(screen),
                *final(screen),
                *keyboard,
                r,
            ),
    {
        let first_byte = self.memory[self.pc as usize];
        let second_byte = self.memory[((self.pc + 1) % 0x1000) as usize];
        let opcode: u16 = (first_byte as u16) * 0x100 + (second_byte as u16);
        assert(opcode == spec_fetch(*old(self)));
        let kind = Instruction::parse_opcode(opcode);
        let r = self.emulate(opcode, keyboard, screen);
        let ghost mid = *self;
        if r.is_ok() {
            match kind {
                Instruction::JP_addr | Instruction::CALL_addr | Instruction::JP_V0 => {},
                _ => {
                    self.pc = (self.pc + 2) % 0x1000;
                },
            }
        }
        proof {
            if r is Ok {
                assert(spec_emulate(
                    *old(self),
                    mid,
                    *old(screen),
                    *final(screen),
                    *keyboard,
                    opcode,
                    r,
                ));
            }
        }
        r
    }
}

/// The 16-bit instruction word at the program counter: the byte at the
/// counter is the high byte, the byte after it (wrapping within the
/// 12-bit space) the low byte.
pub open spec fn spec_fetch(e: Emulator) -> u16 {
    (e.memory@[e.pc as int] * 0x100 + e.memory@[(e.pc + 1) % 0x1000]) as u16
}

/// The control-transfer kinds after which the step loop must not
/// advance the program counter: jumps and calls land exactly on their
/// target. A return is not among them: a call pushes its own address,
/// so the step's advance past the popped address is what resumes
/// execution at the instruction after the call.
pub open spec fn spec_sets_pc_directly(kind: Instruction) -> bool {
    ||| kind is JP_addr
    ||| kind is CALL_addr
    ||| kind is JP_V0
}

/// What one call of `emulate_step` does: the word at the program
/// counter is fetched and executed as [`spec_emulate`] says, and then,
/// on success and unless the instruction was a jump or a call, the
/// counter advances by 2 - after a return this is what moves execution
/// past the call whose address was popped. On an error nothing
/// changes.
pub open spec fn spec_step_rel(
    pre: Emulator,
    post: Emulator,
    pre_scr: Screen,
    post_scr: Screen,
    kb: Keyboard,
    r: Result<(), ExecError>,
) -> bool {
    let op = spec_fetch(pre);
    if r is Ok {
        exists|mid: Emulator|
            #[trigger] spec_emulate(pre, mid, pre_scr, post_scr, kb, op, r) && (if
            spec_sets_pc_directly(spec_parse_opcode(op)) {
                spec_emu_eq(mid, post)
            } else {
                spec_only_pc(mid, post) && post.pc == spec_wrap12(mid.pc + 2)
            })
    } else {
        spec_emulate(pre, post, pre_scr, post_scr, kb, op, r)
    }
}

/// The font region written over a memory image: 16 glyphs of 5 bytes
/// each for the hexadecimal digits 0-F, at addresses 0 through 79.
pub open spec fn spec_font_loaded(m: Seq<u8>) -> Seq<u8> {
    m.update(0, 0xF0u8).update(1, 0x90u8).update(2, 0x90u8).update(3, 0x90u8).update(4, 0xF0u8)
        .update(5, 0x20u8).update(6, 0x60u8).update(7, 0x20u8).update(8, 0x20u8).update(9, 0x70u8)
        .update(10, 0xF0u8).update(11, 0x10u8).update(12, 0xF0u8).update(13, 0x80u8).update(
        14,
        0xF0u8,
    ).update(15, 0xF0u8).update(16, 0x10u8).update(17, 0xF0u8).update(18, 0x10u8).update(
        19,
        0xF0u8,
    ).update(20, 0x90u8).update(21, 0x90u8).update(22, 0xF0u8).update(23, 0x10u8).update(
        24,
        0x10u8,
    ).update(25, 0xF0u8).update(26, 0x80u8).update(27, 0xF0u8).update(28, 0x10u8).update(
        29,
        0xF0u8,
    ).update(30, 0xF0u8).update(31, 0x80u8).update(32, 0xF0u8).update(33, 0x90u8).update(
        34,
        0xF0u8,
    ).update(35, 0xF0u8).update(36, 0x10u8).update(37, 0x20u8).update(38, 0x40u8).update(
        39,
        0x40u8,
    ).update(40, 0xF0u8).update(41, 0x90u8).update(42, 0xF0u8).update(43, 0x90u8).update(
        44,
        0xF0u8,
    ).update(45, 0xF0u8).update(46, 0x90u8).update(47, 0xF0u8).update(48, 0x10u8).update(
        49,
        0xF0u8,
    ).update(50, 0xF0u8).update(51, 0x90u8).update(52, 0xF0u8).update(53, 0x90u8).update(
        54,
        0x90u8,
    ).update(55, 0xE0u8).update(56, 0x90u8).update(57, 0xE0u8).update(58, 0x90u8).update(
        59,
        0xE0u8,
    ).update(60, 0xF0u8).update(61, 0x80u8).update(62, 0x80u8).update(63, 0x80u8).update(
        64,
        0xF0u8,
    ).update(65, 0xE0u8).update(66, 0x90u8).update(67, 0x90u8).update(68, 0x90u8).update(
        69,
        0xE0u8,
    ).update(70, 0xF0u8).update(71, 0x80u8).update(72, 0xF0u8).update(73, 0x80u8).update(
        74,
        0xF0u8,
    ).update(75, 0xF0u8).update(76, 0x80u8).update(77, 0xF0u8).update(78, 0x80u8).update(
        79,
        0x80u8,
    )
}

/// The instruction kinds that define a flag outcome: register add and
/// both subtract orders, and the two shifts.
pub open spec fn spec_is_flag_arithmetic(kind: Instruction) -> bool {
    ||| kind is ADD_Vx_Vy
    ||| kind is SUB_Vx_Vy
    ||| kind is SUBN_Vx_Vy
    ||| kind is SHR_Vx
    ||| kind is SHL_Vx
}

/// Flag-register invariant: after any arithmetic or shift instruction
/// that defines a flag outcome, the flag register holds exactly 0 or 1.
/// The one exclusion is an X operand of 15: there the instruction's own
/// result overwrites the flag register after the flag is set.
pub proof fn lemma_flag_register_binary(
    pre: Emulator,
    post: Emulator,
    pre_scr: Screen,
    post_scr: Screen,
    kb: Keyboard,
    opcode: u16,
    r: Result<(), ExecError>,
)
    requires
        spec_emulate(pre, post, pre_scr, post_scr, kb, opcode, r),
        spec_is_flag_arithmetic(spec_parse_opcode(opcode)),
        spec_op_x(opcode) != 15,
    ensures
        post.registers@[15] == 0 || post.registers@[15] == 1,
{
}

/// Immediate addition wraps: adding an immediate into a register
/// always leaves the sum reduced modulo 256, with no flag side effect.
pub proof fn lemma_add_immediate_wraps(
    pre: Emulator,
    post: Emulator,
    pre_scr: Screen,
    post_scr: Screen,
    kb: Keyboard,
    opcode: u16,
    r: Result<(), ExecError>,
)
    requires
        spec_emulate(pre, post, pre_scr, post_scr, kb, opcode, r),
        spec_parse_opcode(opcode) is ADD_Vx,
    ensures
        post.registers@[spec_op_x(opcode) as int] == (pre.registers@[spec_op_x(opcode) as int]
            + spec_op_kk(opcode)) % 256,
{
}

/// Register addition and subtraction wrap: whenever neither operand is
/// the flag register itself, the stored result is the sum or the
/// (possibly negative) difference of the two registers reduced modulo
/// 256 - never a trap, never a value outside the 8-bit range.
pub proof fn lemma_register_arithmetic_wraps(
    pre: Emulator,
    post: Emulator,
    pre_scr: Screen,
    post_scr: Screen,
    kb: Keyboard,
    opcode: u16,
    r: Result<(), ExecError>,
)
    requires
        spec_emulate(pre, post, pre_scr, post_scr, kb, opcode, r),
        spec_parse_opcode(opcode) is ADD_Vx_Vy || spec_parse_opcode(opcode) is SUB_Vx_Vy
            || spec_parse_opcode(opcode) is SUBN_Vx_Vy,
        spec_op_x(opcode) != 15,
        spec_op_y(opcode) != 15,
    ensures
        ({
            let vx = pre.registers@[spec_op_x(opcode) as int];
            let vy = pre.registers@[spec_op_y(opcode) as int];
            match spec_parse_opcode(opcode) {
                Instruction::ADD_Vx_Vy => post.registers@[spec_op_x(opcode) as int] == (vx + vy)
                    % 256,
                Instruction::SUB_Vx_Vy => post.registers@[spec_op_x(opcode) as int] == (vx - vy)
                    % 256,
                Instruction::SUBN_Vx_Vy => post.registers@[spec_op_x(opcode) as int] == (vy - vx)
                    % 256,
                _ => true,
            }
        }),
{
}

/// Address-register addition wraps within the 12-bit address space:
/// the result is always a valid memory address below 4096.
pub proof fn lemma_address_register_add_wraps(
    pre: Emulator,
    post: Emulator,
    pre_scr: Screen,
    post_scr: Screen,
    kb: Keyboard,
    opcode: u16,
    r: Result<(), ExecError>,
)
    requires
        spec_emulate(pre, post, pre_scr, post_scr, kb, opcode, r),
        spec_parse_opcode(opcode) is ADD_I_Vx,
    ensures
        post.address_register == (pre.address_register + pre.registers@[spec_op_x(
            opcode,
        ) as int]) % 0x1000,
        post.address_register < 0x1000,
{
}

/// The conditional-skip kinds.
pub open spec fn spec_is_skip_kind(kind: Instruction) -> bool {
    ||| kind is SE_Vx
    ||| kind is SNE_Vx
    ||| kind is SE_Vx_Vy
    ||| kind is SNE_Vx_Vy
    ||| kind is SKP_Vx
    ||| kind is SKNP_Vx
}

/// Whether the skip instruction `op` takes its skip in state `pre`
/// with keyboard `kb`.
pub open spec fn spec_skip_taken(pre: Emulator, kb: Keyboard, op: u16) -> bool {
    let x = spec_op_x(op) as int;
    let y = spec_op_y(op) as int;
    let kk = spec_op_kk(op);
    match spec_parse_opcode(op) {
        Instruction::SE_Vx => pre.registers@[x] == kk,
        Instruction::SNE_Vx => pre.registers@[x] != kk,
        Instruction::SE_Vx_Vy => pre.registers@[x] == pre.registers@[y],
        Instruction::SNE_Vx_Vy => pre.registers@[x] != pre.registers@[y],
        Instruction::SKP_Vx => spec_key_down(kb.keys@, pre.registers@[x] as int),
        Instruction::SKNP_Vx => !spec_key_down(kb.keys@, pre.registers@[x] as int),
        _ => false,
    }
}

/// Skip semantics: over one full step, a skip instruction whose
/// condition holds advances the program counter by 4 relative to its
/// pre-fetch value, and one whose condition fails advances it by 2,
/// both within the 12-bit address space.
pub proof fn lemma_skip_semantics(
    pre: Emulator,
    post: Emulator,
    pre_scr: Screen,
    post_scr: Screen,
    kb: Keyboard,
    r: Result<(), ExecError>,
)
    requires
        pre.wf(),
        spec_step_rel(pre, post, pre_scr, post_scr, kb, r),
        r is Ok,
        spec_is_skip_kind(spec_parse_opcode(spec_fetch(pre))),
    ensures
        post.pc == (if spec_skip_taken(pre, kb, spec_fetch(pre)) {
            spec_wrap12(pre.pc + 4)
        } else {
            spec_wrap12(pre.pc + 2)
        }),
{
    let op = spec_fetch(pre);
    let mid = choose|mid: Emulator|
        #[trigger] spec_emulate(pre, mid, pre_scr, post_scr, kb, op, r) && (if
        spec_sets_pc_directly(spec_parse_opcode(op)) {
            spec_emu_eq(mid, post)
        } else {
            spec_only_pc(mid, post) && post.pc == spec_wrap12(mid.pc + 2)
        });
    if spec_skip_taken(pre, kb, op) {
        assert(mid.pc == spec_wrap12(pre.pc + 2));
        assert(((pre.pc + 2) % 0x1000 + 2) % 0x1000 == (pre.pc + 4) % 0x1000) by {
            if pre.pc + 2 < 0x1000 {
            } else {
                assert((pre.pc + 2) % 0x1000 == pre.pc + 2 - 0x1000);
                assert((pre.pc + 4 - 0x1000) % 0x1000 == (pre.pc + 4) % 0x1000);
            }
        }
    }
}

/// How many of the first `k` memory bytes are not zero.
pub open spec fn spec_count_nonzero(mem: Seq<u8>, k: int) -> int
    decreases k,
{
    if k <= 0 {
        0
    } else {
        spec_count_nonzero(mem, k - 1) + (if mem[k - 1] != 0 {
            1int
        } else {
            0int
        })
    }
}

} // verus!
