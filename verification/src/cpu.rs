use vstd::prelude::*;
use vstd::slice::slice_subrange;
use std::time::{Duration, Instant};
use crate::instruction::Instruction;
use crate::keyboard::{key_down, Keyboard};
use crate::memory::{font, Memory, MEMORY_SIZE, PROGRAM_START};
use crate::program_counter::ProgramCounter;
use crate::renderer::{draw_collision, draw_updates, Renderer};

verus! {

/// The general register that doubles as the arithmetic carry/borrow flag
/// and the sprite-collision flag.
pub const CARRY_REG_ADDRESS: usize = 0xF;

/// Call depth the machine supports.
pub const STACK_CAPACITY: usize = 16;

#[verifier::external_type_specification]
#[verifier::external_body]
pub struct ExInstant(Instant);

/// Relies on std::time::Instant::now: an opaque reading of the monotonic
/// clock.  The reading depends on the machine, so nothing is promised.
#[verifier::external_body]
fn instant_now() -> Instant {
    Instant::now()
}

/// Relies on std::time::Instant::elapsed: the time since `earlier` on the
/// monotonic clock.  It depends on the clock, so nothing is promised.
#[verifier::external_body]
fn instant_elapsed(earlier: &Instant) -> Duration {
    earlier.elapsed()
}

/// Relies on std::time::Duration::as_millis: the duration in whole
/// milliseconds.  The duration itself is opaque, so nothing is promised.
#[verifier::external_body]
fn duration_as_millis(d: &Duration) -> u128 {
    d.as_millis()
}

/// Relies on rand::random: one byte sampled from the thread's generator.
/// The value depends on the generator's state, so nothing is promised.
#[verifier::external_body]
fn random_byte() -> u8 {
    rand::random()
}

/// Why the emulation must abort; every one of these is fatal, with no
/// recovery and no retry.
#[derive(Clone, Copy, PartialEq, Eq, Structural, Debug)]
pub enum Fault {
    /// The fetched word matches no row of the opcode table.
    UnknownInstruction,
    /// A call arrived with all 16 stack slots in use.
    StackOverflow,
    /// A return arrived with the stack empty.
    StackUnderflow,
    /// A read or write would leave the 4096-byte store.
    MemoryOutOfBounds,
    /// A jump would put the program counter below the program start.
    AddressUnderflow,
}

/// What the audio collaborator should do after a timer update.
#[derive(Clone, Copy, PartialEq, Eq, Structural, Debug)]
pub enum AudioSignal {
    /// Keep the tone sounding for this many more 60 Hz frames.
    On(u8),
    /// Silence the tone.
    Off,
}

/// The machine registers: sixteen 8-bit general registers, the 16-bit
/// index register, the two 60 Hz timers and the program counter.
struct Registers {
    /// 16 general purpose 8-bit registers Vx; V15 doubles as the flag.
    general_registers: Vec<u8>,
    /// Memory index register; instructions address through it.
    i: u16,
    /// Counts down at 60 Hz while non-zero.
    delay_timer: u8,
    /// Counts down at 60 Hz while non-zero; the tone sounds while it is.
    sound_timer: u8,
    program_counter: ProgramCounter,
}

/// The fetch-decode-execute-timer loop: owns the registers, the 16-deep
/// call stack, the memory, the renderer and the keyboard adapter, and
/// drives them all.
pub struct Cpu {
    registers: Registers,
    /// Return addresses of the calls in progress, innermost last.
    stack: Vec<u16>,
    memory: Memory,
    renderer: Renderer,
    keyboard: Keyboard,
    time_since_timer_update: Option<Instant>,
    /// The explicit wait-for-key state: the key a wait instruction has
    /// recorded and is now watching for release.  While a wait is pending
    /// the program counter stays put and the same instruction is
    /// re-evaluated every cycle.
    awaiting_key: Option<u8>,
}

impl Cpu {
    /// The sixteen general registers.
    pub closed spec fn regs(&self) -> Seq<u8> {
        self.registers.general_registers@
    }

    /// The index register I.
    pub closed spec fn index_reg(&self) -> u16 {
        self.registers.i
    }

    pub closed spec fn delay_timer(&self) -> u8 {
        self.registers.delay_timer
    }

    pub closed spec fn sound_timer(&self) -> u8 {
        self.registers.sound_timer
    }

    /// The program counter.
    pub closed spec fn pc(&self) -> u16 {
        self.registers.program_counter@
    }

    /// The call stack's return addresses, innermost last.
    pub closed spec fn stack_view(&self) -> Seq<u16> {
        self.stack@
    }

    /// The memory image.
    pub closed spec fn mem(&self) -> Seq<u8> {
        self.memory@
    }

    /// The framebuffer, row-major, 64 pixels to a row.
    pub closed spec fn fb(&self) -> Seq<bool> {
        self.renderer@
    }

    /// The pressed-key set, one bit per key code.
    pub closed spec fn keys(&self) -> u16 {
        self.keyboard@
    }

    /// The wait-for-key state.
    pub closed spec fn waiting(&self) -> Option<u8> {
        self.awaiting_key
    }

    pub open spec fn wf(&self) -> bool {
        &&& self.regs().len() == 16
        &&& self.pc() >= PROGRAM_START
        &&& self.stack_view().len() <= STACK_CAPACITY
        &&& forall|j: int|
            0 <= j < self.stack_view().len() ==> self.stack_view()[j] >= PROGRAM_START
        &&& self.mem().len() == MEMORY_SIZE
        &&& self.fb().len() == 2048
        &&& match self.waiting() {
            Some(k) => k < 16,
            None => true,
        }
    }
}

pub open spec fn same_gp_regs(a: Cpu, b: Cpu) -> bool {
    b.regs() == a.regs()
}

pub open spec fn same_index_reg(a: Cpu, b: Cpu) -> bool {
    b.index_reg() == a.index_reg()
}

pub open spec fn same_timers(a: Cpu, b: Cpu) -> bool {
    b.delay_timer() == a.delay_timer() && b.sound_timer() == a.sound_timer()
}

pub open spec fn same_pc(a: Cpu, b: Cpu) -> bool {
    b.pc() == a.pc()
}

pub open spec fn same_stack(a: Cpu, b: Cpu) -> bool {
    b.stack_view() == a.stack_view()
}

pub open spec fn same_mem(a: Cpu, b: Cpu) -> bool {
    b.mem() == a.mem()
}

pub open spec fn same_fb(a: Cpu, b: Cpu) -> bool {
    b.fb() == a.fb()
}

pub open spec fn same_keys(a: Cpu, b: Cpu) -> bool {
    b.keys() == a.keys()
}

pub open spec fn same_wait(a: Cpu, b: Cpu) -> bool {
    b.waiting() == a.waiting()
}

/// Nothing observable about the machine differs.
pub open spec fn same_state(a: Cpu, b: Cpu) -> bool {
    same_gp_regs(a, b) && same_index_reg(a, b) && same_timers(a, b) && same_pc(a, b) && same_stack(
        a,
        b,
    ) && same_mem(a, b) && same_fb(a, b) && same_keys(a, b) && same_wait(a, b)
}

/// Everything except the general registers and the program counter keeps
/// its value: the frame condition of the plain register instructions.
pub open spec fn rest_unchanged(a: Cpu, b: Cpu) -> bool {
    same_index_reg(a, b) && same_timers(a, b) && same_stack(a, b) && same_mem(a, b) && same_fb(a, b)
        && same_keys(a, b) && same_wait(a, b)
}

/// 8-bit addition as the machine performs it: wrapped to a byte.
pub open spec fn wrap_add_u8(a: u8, b: u8) -> u8 {
    if a + b > 255 {
        (a + b - 256) as u8
    } else {
        (a + b) as u8
    }
}

/// 8-bit subtraction as the machine performs it: wrapped to a byte.
pub open spec fn wrap_sub_u8(a: u8, b: u8) -> u8 {
    if a >= b {
        (a - b) as u8
    } else {
        (a - b + 256) as u8
    }
}

/// 16-bit addition wrapped to 16 bits.
pub open spec fn wrap_add_u16(a: u16, b: u16) -> u16 {
    if a + b > 0xFFFF {
        (a + b - 0x10000) as u16
    } else {
        (a + b) as u16
    }
}

// ---------------------------------------------------------------------
// What each opcode does to the machine.  Every predicate relates the
// machine before the instruction to the machine after it; the dispatch
// contract selects one of them per fetched word.
// ---------------------------------------------------------------------

/// 0000 and Dxy0: nothing but stepping over the instruction.
pub open spec fn effect_ignore(pre: Cpu, post: Cpu) -> bool {
    same_gp_regs(pre, post) && rest_unchanged(pre, post) && post.pc() == pre.pc() + 2
}

/// 00E0: every pixel cleared.
pub open spec fn effect_clear_display(pre: Cpu, post: Cpu) -> bool {
    &&& same_gp_regs(pre, post)
    &&& same_index_reg(pre, post)
    &&& same_timers(pre, post)
    &&& same_stack(pre, post)
    &&& same_mem(pre, post)
    &&& same_keys(pre, post)
    &&& same_wait(pre, post)
    &&& post.fb().len() == pre.fb().len()
    &&& forall|k: int| 0 <= k < post.fb().len() ==> !post.fb()[k]
    &&& post.pc() == pre.pc() + 2
}

/// 00EE: pop the innermost return address into the program counter; with
/// the stack empty the machine faults instead, unchanged.
pub open spec fn effect_return(pre: Cpu, post: Cpu, r: Result<(), Fault>) -> bool {
    if pre.stack_view().len() == 0 {
        r == Err::<(), Fault>(Fault::StackUnderflow) && same_state(pre, post)
    } else {
        &&& r is Ok
        &&& same_gp_regs(pre, post)
        &&& same_index_reg(pre, post)
        &&& same_timers(pre, post)
        &&& same_mem(pre, post)
        &&& same_fb(pre, post)
        &&& same_keys(pre, post)
        &&& same_wait(pre, post)
        &&& post.stack_view() == pre.stack_view().drop_last()
        &&& post.pc() == pre.stack_view().last()
    }
}

/// 1nnn: jump; a target below the program start is fatal.
pub open spec fn effect_jump(pre: Cpu, post: Cpu, nnn: u16, r: Result<(), Fault>) -> bool {
    if nnn < PROGRAM_START {
        r == Err::<(), Fault>(Fault::AddressUnderflow) && same_state(pre, post)
    } else {
        &&& r is Ok
        &&& same_gp_regs(pre, post)
        &&& rest_unchanged(pre, post)
        &&& post.pc() == nnn
    }
}

/// 2nnn: push the address of the next instruction and jump to `nnn`; a
/// full stack or a target below the program start is fatal.
pub open spec fn effect_call(pre: Cpu, post: Cpu, nnn: u16, r: Result<(), Fault>) -> bool {
    if pre.stack_view().len() >= STACK_CAPACITY {
        r == Err::<(), Fault>(Fault::StackOverflow) && same_state(pre, post)
    } else if nnn < PROGRAM_START {
        r == Err::<(), Fault>(Fault::AddressUnderflow) && same_state(pre, post)
    } else {
        &&& r is Ok
        &&& same_gp_regs(pre, post)
        &&& same_index_reg(pre, post)
        &&& same_timers(pre, post)
        &&& same_mem(pre, post)
        &&& same_fb(pre, post)
        &&& same_keys(pre, post)
        &&& same_wait(pre, post)
        &&& post.stack_view() == pre.stack_view().push((pre.pc() + 2) as u16)
        &&& post.pc() == nnn
    }
}

/// A conditional skip: the program counter steps over one instruction, or
/// two when `taken` holds.
pub open spec fn skipped_pc(pre: Cpu, post: Cpu, taken: bool) -> bool {
    post.pc() == pre.pc() + (if taken {
        4int
    } else {
        2int
    })
}

/// 3xkk: skip when Vx equals the immediate.
pub open spec fn effect_skip_if_equal_kk(pre: Cpu, post: Cpu, x: int, kk: u8) -> bool {
    &&& same_gp_regs(pre, post)
    &&& rest_unchanged(pre, post)
    &&& skipped_pc(pre, post, pre.regs()[x] == kk)
}

/// 4xkk: skip when Vx differs from the immediate.
pub open spec fn effect_skip_if_not_equal_kk(pre: Cpu, post: Cpu, x: int, kk: u8) -> bool {
    &&& same_gp_regs(pre, post)
    &&& rest_unchanged(pre, post)
    &&& skipped_pc(pre, post, pre.regs()[x] != kk)
}

/// 5xy_: skip when Vx equals Vy.
pub open spec fn effect_skip_if_equal_register(pre: Cpu, post: Cpu, x: int, y: int) -> bool {
    &&& same_gp_regs(pre, post)
    &&& rest_unchanged(pre, post)
    &&& skipped_pc(pre, post, pre.regs()[x] == pre.regs()[y])
}

/// 9xy_: skip when Vx differs from Vy.
pub open spec fn effect_skip_if_not_equal_register(pre: Cpu, post: Cpu, x: int, y: int) -> bool {
    &&& same_gp_regs(pre, post)
    &&& rest_unchanged(pre, post)
    &&& skipped_pc(pre, post, pre.regs()[x] != pre.regs()[y])
}

/// 6xkk: Vx is set to the immediate.
pub open spec fn effect_set_register(pre: Cpu, post: Cpu, x: int, kk: u8) -> bool {
    &&& rest_unchanged(pre, post)
    &&& post.regs() == pre.regs().update(x, kk)
    &&& post.pc() == pre.pc() + 2
}

/// 7xkk: the immediate is added into Vx, wrapped, with no flag update.
pub open spec fn effect_add_kk(pre: Cpu, post: Cpu, x: int, kk: u8) -> bool {
    &&& rest_unchanged(pre, post)
    &&& post.regs() == pre.regs().update(x, wrap_add_u8(pre.regs()[x], kk))
    &&& post.pc() == pre.pc() + 2
}

/// 8xy0: Vy is copied into Vx.
pub open spec fn effect_copy_register_value(pre: Cpu, post: Cpu, x: int, y: int) -> bool {
    &&& rest_unchanged(pre, post)
    &&& post.regs() == pre.regs().update(x, pre.regs()[y])
    &&& post.pc() == pre.pc() + 2
}

/// 8xy1: bitwise OR into Vx; the flag register is explicitly zeroed, the
/// policy this machine fixes for the three logical instructions.
pub open spec fn effect_or(pre: Cpu, post: Cpu, x: int, y: int) -> bool {
    &&& rest_unchanged(pre, post)
    &&& post.regs() == pre.regs().update(x, pre.regs()[x] | pre.regs()[y]).update(15, 0u8)
    &&& post.pc() == pre.pc() + 2
}

/// 8xy2: bitwise AND into Vx; the flag register is zeroed.
pub open spec fn effect_and(pre: Cpu, post: Cpu, x: int, y: int) -> bool {
    &&& rest_unchanged(pre, post)
    &&& post.regs() == pre.regs().update(x, pre.regs()[x] & pre.regs()[y]).update(15, 0u8)
    &&& post.pc() == pre.pc() + 2
}

/// 8xy3: bitwise XOR into Vx; the flag register is zeroed.
pub open spec fn effect_xor(pre: Cpu, post: Cpu, x: int, y: int) -> bool {
    &&& rest_unchanged(pre, post)
    &&& post.regs() == pre.regs().update(x, pre.regs()[x] ^ pre.regs()[y]).update(15, 0u8)
    &&& post.pc() == pre.pc() + 2
}

/// 8xy4: Vx becomes the wrapped sum of Vx and Vy, and the flag register
/// becomes 1 exactly when the true sum exceeds a byte.
pub open spec fn effect_add(pre: Cpu, post: Cpu, x: int, y: int) -> bool {
    &&& rest_unchanged(pre, post)
    &&& post.regs() == pre.regs().update(x, wrap_add_u8(pre.regs()[x], pre.regs()[y])).update(
        15,
        if pre.regs()[x] + pre.regs()[y] > 255 {
            1u8
        } else {
            0u8
        },
    )
    &&& post.pc() == pre.pc() + 2
}

/// 8xy5: Vx becomes Vx minus Vy, wrapped; the flag register holds "not
/// borrow": 1 exactly when Vx was at least Vy.
pub open spec fn effect_sub(pre: Cpu, post: Cpu, x: int, y: int) -> bool {
    &&& rest_unchanged(pre, post)
    &&& post.regs() == pre.regs().update(x, wrap_sub_u8(pre.regs()[x], pre.regs()[y])).update(
        15,
        if pre.regs()[x] >= pre.regs()[y] {
            1u8
        } else {
            0u8
        },
    )
    &&& post.pc() == pre.pc() + 2
}

/// 8xy6: Vx becomes Vy shifted right once; the flag register holds the
/// bit shifted out.  The source of the shift is Vy, the quirk policy this
/// machine fixes.
pub open spec fn effect_shift_right(pre: Cpu, post: Cpu, x: int, y: int) -> bool {
    &&& rest_unchanged(pre, post)
    &&& post.regs() == pre.regs().update(x, pre.regs()[y] / 2).update(15, pre.regs()[y] % 2)
    &&& post.pc() == pre.pc() + 2
}

/// 8xy7: Vx becomes Vy minus Vx, wrapped; the flag register holds "not
/// borrow": 1 exactly when Vy was at least Vx.
pub open spec fn effect_subn(pre: Cpu, post: Cpu, x: int, y: int) -> bool {
    &&& rest_unchanged(pre, post)
    &&& post.regs() == pre.regs().update(x, wrap_sub_u8(pre.regs()[y], pre.regs()[x])).update(
        15,
        if pre.regs()[y] >= pre.regs()[x] {
            1u8
        } else {
            0u8
        },
    )
    &&& post.pc() == pre.pc() + 2
}

/// 8xyE: Vx becomes Vy shifted left once, wrapped; the flag register
/// holds the bit shifted out.  The source of the shift is Vy.
pub open spec fn effect_shift_left(pre: Cpu, post: Cpu, x: int, y: int) -> bool {
    &&& rest_unchanged(pre, post)
    &&& post.regs() == pre.regs().update(x, wrap_add_u8(pre.regs()[y], pre.regs()[y])).update(
        15,
        if pre.regs()[y] >= 128 {
            1u8
        } else {
            0u8
        },
    )
    &&& post.pc() == pre.pc() + 2
}

/// Annn: the index register is set to `nnn`.
pub open spec fn effect_set_register_i_to_nnn(pre: Cpu, post: Cpu, nnn: u16) -> bool {
    &&& same_gp_regs(pre, post)
    &&& same_timers(pre, post)
    &&& same_stack(pre, post)
    &&& same_mem(pre, post)
    &&& same_fb(pre, post)
    &&& same_keys(pre, post)
    &&& same_wait(pre, post)
    &&& post.index_reg() == nnn
    &&& post.pc() == pre.pc() + 2
}

/// Bnnn: jump to `nnn` plus V0; a target below the program start is
/// fatal.
pub open spec fn effect_move_program_counter(pre: Cpu, post: Cpu, nnn: u16, r: Result<
    (),
    Fault,
>) -> bool {
    if nnn + pre.regs()[0] < PROGRAM_START {
        r == Err::<(), Fault>(Fault::AddressUnderflow) && same_state(pre, post)
    } else {
        &&& r is Ok
        &&& same_gp_regs(pre, post)
        &&& rest_unchanged(pre, post)
        &&& post.pc() == nnn + pre.regs()[0]
    }
}

/// Cxkk: Vx becomes a fresh random byte masked with `kk`; which byte was
/// drawn is not observable from the contract.
pub open spec fn effect_generate_random_number(pre: Cpu, post: Cpu, x: int, kk: u8) -> bool {
    &&& rest_unchanged(pre, post)
    &&& exists|b: u8| post.regs() == pre.regs().update(x, b & kk)
    &&& post.pc() == pre.pc() + 2
}

/// Fx07: Vx is set to the delay timer.
pub open spec fn effect_set_vx_to_delay_timer(pre: Cpu, post: Cpu, x: int) -> bool {
    &&& rest_unchanged(pre, post)
    &&& post.regs() == pre.regs().update(x, pre.delay_timer())
    &&& post.pc() == pre.pc() + 2
}

/// Fx15: the delay timer is set to Vx.
pub open spec fn effect_set_delay_timer(pre: Cpu, post: Cpu, x: int) -> bool {
    &&& same_gp_regs(pre, post)
    &&& same_index_reg(pre, post)
    &&& same_stack(pre, post)
    &&& same_mem(pre, post)
    &&& same_fb(pre, post)
    &&& same_keys(pre, post)
    &&& same_wait(pre, post)
    &&& post.delay_timer() == pre.regs()[x]
    &&& post.sound_timer() == pre.sound_timer()
    &&& post.pc() == pre.pc() + 2
}

/// Fx18: the sound timer is set to Vx.
pub open spec fn effect_set_sound_timer(pre: Cpu, post: Cpu, x: int) -> bool {
    &&& same_gp_regs(pre, post)
    &&& same_index_reg(pre, post)
    &&& same_stack(pre, post)
    &&& same_mem(pre, post)
    &&& same_fb(pre, post)
    &&& same_keys(pre, post)
    &&& same_wait(pre, post)
    &&& post.sound_timer() == pre.regs()[x]
    &&& post.delay_timer() == pre.delay_timer()
    &&& post.pc() == pre.pc() + 2
}

/// Fx1E: Vx is added into the index register, wrapped to 16 bits, with no
/// flag update.
pub open spec fn effect_add_vx_to_i(pre: Cpu, post: Cpu, x: int) -> bool {
    &&& same_gp_regs(pre, post)
    &&& same_timers(pre, post)
    &&& same_stack(pre, post)
    &&& same_mem(pre, post)
    &&& same_fb(pre, post)
    &&& same_keys(pre, post)
    &&& same_wait(pre, post)
    &&& post.index_reg() == wrap_add_u16(pre.index_reg(), pre.regs()[x] as u16)
    &&& post.pc() == pre.pc() + 2
}

/// Fx29 (Fx2_): the index register is pointed at the font glyph for the
/// digit in Vx: five bytes per glyph from address 0.
pub open spec fn effect_set_i_to_sprite_address(pre: Cpu, post: Cpu, x: int) -> bool {
    &&& same_gp_regs(pre, post)
    &&& same_timers(pre, post)
    &&& same_stack(pre, post)
    &&& same_mem(pre, post)
    &&& same_fb(pre, post)
    &&& same_keys(pre, post)
    &&& same_wait(pre, post)
    &&& post.index_reg() == pre.regs()[x] as int * 5
    &&& post.pc() == pre.pc() + 2
}

/// Ex9E and ExA1: the keyboard drains the host's buffered reports first,
/// so the pressed set after the call decides whether the skip is taken;
/// the key tested is the low nibble of Vx.
pub open spec fn effect_skip_key(pre: Cpu, post: Cpu, x: int, skip_when_down: bool) -> bool {
    &&& same_gp_regs(pre, post)
    &&& same_index_reg(pre, post)
    &&& same_timers(pre, post)
    &&& same_stack(pre, post)
    &&& same_mem(pre, post)
    &&& same_fb(pre, post)
    &&& same_wait(pre, post)
    &&& skipped_pc(pre, post, key_down(post.keys(), pre.regs()[x] & 0xF) == skip_when_down)
}

/// Fx0A, one cycle of the explicit wait-for-key state machine.  With no
/// wait pending: when some key is down after draining, it is recorded in
/// Vx and the wait begins; otherwise nothing changes.  With a wait
/// pending: the machine waits for the recorded key to be released, and
/// only then steps past the instruction.  Until then the program counter
/// stays put, so the instruction is re-evaluated every cycle.
pub open spec fn effect_wait_until_key_press(pre: Cpu, post: Cpu, x: int) -> bool {
    &&& same_index_reg(pre, post)
    &&& same_timers(pre, post)
    &&& same_stack(pre, post)
    &&& same_mem(pre, post)
    &&& same_fb(pre, post)
    &&& match pre.waiting() {
        None => {
            ||| (exists|k: u8| #![auto]
                k < 16 && key_down(post.keys(), k) && post.regs() == pre.regs().update(x, k)
                    && post.waiting() == Some(k) && post.pc() == pre.pc())
            ||| (post.keys() == 0 && same_gp_regs(pre, post) && post.waiting() == None::<u8>
                && same_pc(pre, post))
        },
        Some(k) => {
            if key_down(post.keys(), k) {
                same_gp_regs(pre, post) && post.waiting() == Some(k) && same_pc(pre, post)
            } else {
                same_gp_regs(pre, post) && post.waiting() == None::<u8> && post.pc() == pre.pc()
                    + 2
            }
        },
    }
}

/// Fx33 (Fx3_): the decimal digits of Vx land in memory at I, I+1 and
/// I+2: hundreds, tens, ones.  A write past the end of memory is fatal.
pub open spec fn effect_store_vx_as_bsd_in_memory(pre: Cpu, post: Cpu, x: int, r: Result<
    (),
    Fault,
>) -> bool {
    if pre.index_reg() + 3 > MEMORY_SIZE {
        r == Err::<(), Fault>(Fault::MemoryOutOfBounds) && same_state(pre, post)
    } else {
        let i = pre.index_reg() as int;
        let vx = pre.regs()[x];
        &&& r is Ok
        &&& same_gp_regs(pre, post)
        &&& same_index_reg(pre, post)
        &&& same_timers(pre, post)
        &&& same_stack(pre, post)
        &&& same_fb(pre, post)
        &&& same_keys(pre, post)
        &&& same_wait(pre, post)
        &&& post.mem() == pre.mem().update(i, (vx / 100 % 10) as u8).update(
            i + 1,
            (vx / 10 % 10) as u8,
        ).update(i + 2, (vx % 10) as u8)
        &&& post.pc() == pre.pc() + 2
    }
}

/// Fx55: V0 through Vx inclusive land in memory from address I on, and I
/// advances past them by x+1 — the auto-increment quirk this machine
/// fixes.  A write past the end of memory is fatal.
pub open spec fn effect_store_registers_in_memory(pre: Cpu, post: Cpu, x: int, r: Result<
    (),
    Fault,
>) -> bool {
    if pre.index_reg() + x + 1 > MEMORY_SIZE {
        r == Err::<(), Fault>(Fault::MemoryOutOfBounds) && same_state(pre, post)
    } else {
        let i = pre.index_reg() as int;
        &&& r is Ok
        &&& same_gp_regs(pre, post)
        &&& same_timers(pre, post)
        &&& same_stack(pre, post)
        &&& same_fb(pre, post)
        &&& same_keys(pre, post)
        &&& same_wait(pre, post)
        &&& post.mem().len() == pre.mem().len()
        &&& forall|j: int| 0 <= j <= x ==> post.mem()[i + j] == pre.regs()[j]
        &&& forall|j: int|
            0 <= j < pre.mem().len() && !(i <= j <= i + x) ==> post.mem()[j] == pre.mem()[j]
        &&& post.index_reg() == i + x + 1
        &&& post.pc() == pre.pc() + 2
    }
}

/// Fx65: V0 through Vx inclusive are loaded from memory from address I
/// on, and I advances past them by x+1 — the auto-increment quirk this
/// machine fixes.  A read past the end of memory is fatal.
pub open spec fn effect_load_registers_from_memory(pre: Cpu, post: Cpu, x: int, r: Result<
    (),
    Fault,
>) -> bool {
    if pre.index_reg() + x + 1 > MEMORY_SIZE {
        r == Err::<(), Fault>(Fault::MemoryOutOfBounds) && same_state(pre, post)
    } else {
        let i = pre.index_reg() as int;
        &&& r is Ok
        &&& same_timers(pre, post)
        &&& same_stack(pre, post)
        &&& same_mem(pre, post)
        &&& same_fb(pre, post)
        &&& same_keys(pre, post)
        &&& same_wait(pre, post)
        &&& post.regs().len() == pre.regs().len()
        &&& forall|j: int| 0 <= j <= x ==> post.regs()[j] == pre.mem()[i + j]
        &&& forall|j: int| x < j < 16 ==> post.regs()[j] == pre.regs()[j]
        &&& post.index_reg() == i + x + 1
        &&& post.pc() == pre.pc() + 2
    }
}

/// Dxyn with n >= 1: the n sprite rows at I are composited at (Vx, Vy)
/// and the flag register records whether a pixel was erased.  Reading the
/// rows past the end of memory is fatal.
pub open spec fn effect_display_sprite(pre: Cpu, post: Cpu, x: int, y: int, n: u16, r: Result<
    (),
    Fault,
>) -> bool {
    if pre.index_reg() + n > MEMORY_SIZE {
        r == Err::<(), Fault>(Fault::MemoryOutOfBounds) && same_state(pre, post)
    } else {
        let sprite = pre.mem().subrange(pre.index_reg() as int, pre.index_reg() + n);
        let nx = pre.regs()[x] as int % 64;
        let ny = pre.regs()[y] as int % 32;
        &&& r is Ok
        &&& same_index_reg(pre, post)
        &&& same_timers(pre, post)
        &&& same_stack(pre, post)
        &&& same_mem(pre, post)
        &&& same_keys(pre, post)
        &&& same_wait(pre, post)
        &&& draw_updates(pre.fb(), post.fb(), sprite, nx, ny)
        &&& post.regs() == pre.regs().update(
            15,
            if draw_collision(pre.fb(), sprite, nx, ny) {
                1u8
            } else {
                0u8
            },
        )
        &&& post.pc() == pre.pc() + 2
    }
}

/// The low nibble of a byte names one of the 16 keys.
proof fn lemma_low_nibble_is_key(b: u8)
    by (bit_vector)
    ensures
        b & 0xF < 16,
{
}

impl Cpu {
    /// A fresh machine: cleared registers and stack, the program counter
    /// at the program start, memory holding only the font, and the given
    /// collaborators.
    pub fn new(renderer: Renderer, keyboard: Keyboard) -> (r: Cpu)
        requires
            renderer.wf(),
        ensures
            r.wf(),
            forall|j: int| 0 <= j < 16 ==> r.regs()[j] == 0,
            r.index_reg() == 0,
            r.delay_timer() == 0,
            r.sound_timer() == 0,
            r.pc() == PROGRAM_START,
            r.stack_view().len() == 0,
            forall|j: int| 0 <= j < font().len() ==> r.mem()[j] == font()[j],
            forall|j: int| font().len() <= j < MEMORY_SIZE ==> r.mem()[j] == 0,
            r.fb() == renderer@,
            r.keys() == keyboard@,
            r.waiting() == None::<u8>,
    {
        let mut general_registers: Vec<u8> = Vec::new();
        let mut j: usize = 0;
        while j < 16
            invariant
                j == general_registers@.len(),
                j <= 16,
                forall|k: int| 0 <= k < j ==> general_registers@[k] == 0,
            decreases 16 - j,
        {
            general_registers.push(0);
            j = j + 1;
        }
        Cpu {
            registers: Registers {
                general_registers,
                i: 0,
                delay_timer: 0,
                sound_timer: 0,
                program_counter: ProgramCounter::new(),
            },
            stack: Vec::new(),
            memory: Memory::new(),
            renderer,
            keyboard,
            time_since_timer_update: None,
            awaiting_key: None,
        }
    }

    /// Loads a program image at the program start address.
    pub fn load_program_into_memory(&mut self, program: &[u8])
        requires
            old(self).wf(),
            PROGRAM_START as int + program@.len() <= MEMORY_SIZE,
        ensures
            final(self).wf(),
            forall|j: int|
                PROGRAM_START <= j < PROGRAM_START as int + program@.len() ==> final(self).mem()[j]
                    == program@[j - PROGRAM_START],
            forall|j: int|
                0 <= j < MEMORY_SIZE && !(PROGRAM_START <= j < PROGRAM_START as int
                    + program@.len()) ==> final(self).mem()[j] == old(self).mem()[j],
            same_gp_regs(*old(self), *final(self)),
            same_index_reg(*old(self), *final(self)),
            same_timers(*old(self), *final(self)),
            same_pc(*old(self), *final(self)),
            same_stack(*old(self), *final(self)),
            same_fb(*old(self), *final(self)),
            same_keys(*old(self), *final(self)),
            same_wait(*old(self), *final(self)),
    {
        self.memory.load_program(program)
    }

    pub fn exec_return_from_subroutine(&mut self, _instruction: &Instruction) -> (r: Result<
        (),
        Fault,
    >)
        requires
            old(self).wf(),
        ensures
            final(self).wf(),
            effect_return(*old(self), *final(self), r),
    {
        match self.stack.pop() {
            None => Err(Fault::StackUnderflow),
            Some(return_address) => {
                proof {
                    assert(old(self).stack_view()[old(self).stack_view().len() - 1]
                        >= PROGRAM_START);
                }
                self.registers.program_counter.set_to_address(return_address);
                Ok(())
            },
        }
    }

    pub fn exec_clear_display(&mut self, _instruction: &Instruction)
        requires
            old(self).wf(),
            old(self).pc() <= 0xFFFB,
        ensures
            final(self).wf(),
            effect_clear_display(*old(self), *final(self)),
    {
        self.renderer.clear_display();
        self.registers.program_counter.increment();
    }

    /// The value of the delay timer is placed into Vx.
    pub fn exec_set_vx_to_delay_timer(&mut self, instruction: &Instruction)
        requires
            old(self).wf(),
            old(self).pc() <= 0xFFFB,
        ensures
            final(self).wf(),
            effect_set_vx_to_delay_timer(*old(self), *final(self), ((instruction@ >> 8)
                & 0xF) as int),
    {
        let x = instruction.x();
        let delay = self.registers.delay_timer;
        self.registers.general_registers[x as usize] = delay;
        self.registers.program_counter.increment();
    }

    pub fn exec_skip_if_key_not_pressed(&mut self, instruction: &Instruction)
        requires
            old(self).wf(),
            old(self).pc() <= 0xFFFB,
        ensures
            final(self).wf(),
            effect_skip_key(*old(self), *final(self), ((instruction@ >> 8) & 0xF) as int, false),
    {
        let x = instruction.x();
        let vx = self.registers.general_registers[x as usize];
        let key = vx & 0xF;
        proof {
            lemma_low_nibble_is_key(vx);
        }
        if !self.keyboard.is_key_pressed_or_held(key) {
            self.registers.program_counter.skip_instruction();
        } else {
            self.registers.program_counter.increment();
        }
    }

    pub fn exec_skip_if_key_pressed(&mut self, instruction: &Instruction)
        requires
            old(self).wf(),
            old(self).pc() <= 0xFFFB,
        ensures
            final(self).wf(),
            effect_skip_key(*old(self), *final(self), ((instruction@ >> 8) & 0xF) as int, true),
    {
        let x = instruction.x();
        let vx = self.registers.general_registers[x as usize];
        let key = vx & 0xF;
        proof {
            lemma_low_nibble_is_key(vx);
        }
        if self.keyboard.is_key_pressed_or_held(key) {
            self.registers.program_counter.skip_instruction();
        } else {
            self.registers.program_counter.increment();
        }
    }

    /// Reads n bytes from memory at I and composites them as a sprite at
    /// (Vx, Vy); the flag register records whether a pixel was erased.
    #[allow(non_snake_case)]
    pub fn exec_display_sprite_8xN(&mut self, instruction: &Instruction) -> (r: Result<(), Fault>)
        requires
            old(self).wf(),
            old(self).pc() <= 0xFFFB,
        ensures
            final(self).wf(),
            effect_display_sprite(
                *old(self),
                *final(self),
                ((instruction@ >> 8) & 0xF) as int,
                ((instruction@ >> 4) & 0xF) as int,
                (instruction@ & 0xF) as u16,
                r,
            ),
    {
        let x = instruction.x();
        let y = instruction.y();
        let n = instruction.fourth_nibble();
        let vx = self.registers.general_registers[x as usize];
        let vy = self.registers.general_registers[y as usize];
        let i = self.registers.i;
        if i as usize + n as usize > MEMORY_SIZE {
            return Err(Fault::MemoryOutOfBounds);
        }
        let pixel_erased = self.renderer.draw_sprite(self.memory.read_bytes(i, n as u16), vx, vy);
        self.registers.general_registers[CARRY_REG_ADDRESS] = if pixel_erased {
            1
        } else {
            0
        };
        self.registers.program_counter.increment();
        Ok(())
    }

    /// A random byte is ANDed with kk and stored in Vx.
    pub fn exec_generate_random_number(&mut self, instruction: &Instruction)
        requires
            old(self).wf(),
            old(self).pc() <= 0xFFFB,
        ensures
            final(self).wf(),
            effect_generate_random_number(
                *old(self),
                *final(self),
                ((instruction@ >> 8) & 0xF) as int,
                (instruction@ & 0xFF) as u8,
            ),
    {
        let kk = instruction.kk();
        let x = instruction.x();
        let random_num: u8 = random_byte();
        self.registers.general_registers[x as usize] = random_num & kk;
        self.registers.program_counter.increment();
    }

    /// The program counter is set to nnn plus the value of V0.
    pub fn exec_move_program_counter(&mut self, instruction: &Instruction) -> (r: Result<
        (),
        Fault,
    >)
        requires
            old(self).wf(),
        ensures
            final(self).wf(),
            effect_move_program_counter(*old(self), *final(self), instruction@ & 0x0FFF, r),
    {
        let nnn = instruction.nnn();
        let v0 = self.registers.general_registers[0];
        let target = nnn + v0 as u16;
        if target < PROGRAM_START {
            return Err(Fault::AddressUnderflow);
        }
        self.registers.program_counter.set_to_address(target);
        Ok(())
    }

    /// The value of register I is set to nnn.
    pub fn exec_set_register_i_to_nnn(&mut self, instruction: &Instruction)
        requires
            old(self).wf(),
            old(self).pc() <= 0xFFFB,
        ensures
            final(self).wf(),
            effect_set_register_i_to_nnn(*old(self), *final(self), instruction@ & 0x0FFF),
    {
        let nnn = instruction.nnn();
        self.registers.i = nnn;
        self.registers.program_counter.increment();
    }

    pub fn exec_skip_if_not_equal_register(&mut self, instruction: &Instruction)
        requires
            old(self).wf(),
            old(self).pc() <= 0xFFFB,
        ensures
            final(self).wf(),
            effect_skip_if_not_equal_register(*old(self), *final(self), ((instruction@ >> 8)
                & 0xF) as int, ((instruction@ >> 4) & 0xF) as int),
    {
        let x = instruction.x();
        let y = instruction.y();
        let vx = self.registers.general_registers[x as usize];
        let vy = self.registers.general_registers[y as usize];
        if vx != vy {
            self.registers.program_counter.skip_instruction();
        } else {
            self.registers.program_counter.increment();
        }
    }

    pub fn exec_skip_if_equal_register(&mut self, instruction: &Instruction)
        requires
            old(self).wf(),
            old(self).pc() <= 0xFFFB,
        ensures
            final(self).wf(),
            effect_skip_if_equal_register(*old(self), *final(self), ((instruction@ >> 8)
                & 0xF) as int, ((instruction@ >> 4) & 0xF) as int),
    {
        let x = instruction.x();
        let y = instruction.y();
        let vx = self.registers.general_registers[x as usize];
        let vy = self.registers.general_registers[y as usize];
        if vx == vy {
            self.registers.program_counter.skip_instruction();
        } else {
            self.registers.program_counter.increment();
        }
    }

    /// Adds kk to Vx, wrapped; no flag is set on overflow.
    pub fn exec_add_kk(&mut self, instruction: &Instruction)
        requires
            old(self).wf(),
            old(self).pc() <= 0xFFFB,
        ensures
            final(self).wf(),
            effect_add_kk(*old(self), *final(self), ((instruction@ >> 8) & 0xF) as int, (
            instruction@ & 0xFF) as u8),
    {
        let x = instruction.x();
        let kk = instruction.kk();
        let result = self.registers.general_registers[x as usize].wrapping_add(kk);
        self.registers.general_registers[x as usize] = result;
        self.registers.program_counter.increment();
    }

    pub fn exec_set_register(&mut self, instruction: &Instruction)
        requires
            old(self).wf(),
            old(self).pc() <= 0xFFFB,
        ensures
            final(self).wf(),
            effect_set_register(*old(self), *final(self), ((instruction@ >> 8) & 0xF) as int, (
            instruction@ & 0xFF) as u8),
    {
        let register_address = instruction.x();
        let byte = instruction.kk();
        self.registers.general_registers[register_address as usize] = byte;
        self.registers.program_counter.increment();
    }

    pub fn exec_skip_if_not_equal_kk(&mut self, instruction: &Instruction)
        requires
            old(self).wf(),
            old(self).pc() <= 0xFFFB,
        ensures
            final(self).wf(),
            effect_skip_if_not_equal_kk(*old(self), *final(self), ((instruction@ >> 8)
                & 0xF) as int, (instruction@ & 0xFF) as u8),
    {
        let x = instruction.x();
        let kk = instruction.kk();
        if self.registers.general_registers[x as usize] != kk {
            self.registers.program_counter.skip_instruction();
        } else {
            self.registers.program_counter.increment();
        }
    }

    pub fn exec_skip_if_equal_kk(&mut self, instruction: &Instruction)
        requires
            old(self).wf(),
            old(self).pc() <= 0xFFFB,
        ensures
            final(self).wf(),
            effect_skip_if_equal_kk(*old(self), *final(self), ((instruction@ >> 8) & 0xF) as int, (
            instruction@ & 0xFF) as u8),
    {
        let x = instruction.x();
        let kk = instruction.kk();
        if self.registers.general_registers[x as usize] == kk {
            self.registers.program_counter.skip_instruction();
        } else {
            self.registers.program_counter.increment();
        }
    }

    pub fn exec_call_subroutine(&mut self, instruction: &Instruction) -> (r: Result<(), Fault>)
        requires
            old(self).wf(),
            old(self).pc() <= 0xFFFB,
        ensures
            final(self).wf(),
            effect_call(*old(self), *final(self), instruction@ & 0x0FFF, r),
    {
        let address = instruction.nnn();
        if self.stack.len() >= STACK_CAPACITY {
            return Err(Fault::StackOverflow);
        }
        if address < PROGRAM_START {
            return Err(Fault::AddressUnderflow);
        }
        let return_address = self.registers.program_counter.peek();
        self.stack.push(return_address);
        self.registers.program_counter.set_to_address(address);
        Ok(())
    }

    pub fn exec_jump(&mut self, instruction: &Instruction) -> (r: Result<(), Fault>)
        requires
            old(self).wf(),
        ensures
            final(self).wf(),
            effect_jump(*old(self), *final(self), instruction@ & 0x0FFF, r),
    {
        let address = instruction.nnn();
        if address < PROGRAM_START {
            return Err(Fault::AddressUnderflow);
        }
        self.registers.program_counter.set_to_address(address);
        Ok(())
    }

    /// Stores the value of register Vy in register Vx.
    pub fn exec_copy_register_value(&mut self, instruction: &Instruction)
        requires
            old(self).wf(),
            old(self).pc() <= 0xFFFB,
        ensures
            final(self).wf(),
            effect_copy_register_value(*old(self), *final(self), ((instruction@ >> 8)
                & 0xF) as int, ((instruction@ >> 4) & 0xF) as int),
    {
        let x = instruction.x();
        let y = instruction.y();
        let vy = self.registers.general_registers[y as usize];
        self.registers.general_registers[x as usize] = vy;
        self.registers.program_counter.increment();
    }

    /// Bitwise OR of Vx and Vy into Vx; the flag register is zeroed.
    pub fn exec_or(&mut self, instruction: &Instruction)
        requires
            old(self).wf(),
            old(self).pc() <= 0xFFFB,
        ensures
            final(self).wf(),
            effect_or(*old(self), *final(self), ((instruction@ >> 8) & 0xF) as int, ((instruction@
                >> 4) & 0xF) as int),
    {
        let x = instruction.x();
        let y = instruction.y();
        let vx = self.registers.general_registers[x as usize];
        let vy = self.registers.general_registers[y as usize];
        self.registers.general_registers[x as usize] = vx | vy;
        self.registers.general_registers[CARRY_REG_ADDRESS] = 0;
        self.registers.program_counter.increment();
    }

    /// Bitwise AND of Vx and Vy into Vx; the flag register is zeroed.
    pub fn exec_and(&mut self, instruction: &Instruction)
        requires
            old(self).wf(),
            old(self).pc() <= 0xFFFB,
        ensures
            final(self).wf(),
            effect_and(*old(self), *final(self), ((instruction@ >> 8) & 0xF) as int, ((instruction@
                >> 4) & 0xF) as int),
    {
        let x = instruction.x();
        let y = instruction.y();
        let vx = self.registers.general_registers[x as usize];
        let vy = self.registers.general_registers[y as usize];
        self.registers.general_registers[x as usize] = vx & vy;
        self.registers.general_registers[CARRY_REG_ADDRESS] = 0;
        self.registers.program_counter.increment();
    }

    /// Bitwise XOR of Vx and Vy into Vx; the flag register is zeroed.
    pub fn exec_xor(&mut self, instruction: &Instruction)
        requires
            old(self).wf(),
            old(self).pc() <= 0xFFFB,
        ensures
            final(self).wf(),
            effect_xor(*old(self), *final(self), ((instruction@ >> 8) & 0xF) as int, ((instruction@
                >> 4) & 0xF) as int),
    {
        let x = instruction.x();
        let y = instruction.y();
        let vx = self.registers.general_registers[x as usize];
        let vy = self.registers.general_registers[y as usize];
        self.registers.general_registers[x as usize] = vx ^ vy;
        self.registers.general_registers[CARRY_REG_ADDRESS] = 0;
        self.registers.program_counter.increment();
    }

    /// Vx and Vy are added; the flag register becomes 1 exactly when the
    /// sum exceeds a byte, and Vx keeps the low 8 bits.
    pub fn exec_add(&mut self, instruction: &Instruction)
        requires
            old(self).wf(),
            old(self).pc() <= 0xFFFB,
        ensures
            final(self).wf(),
            effect_add(*old(self), *final(self), ((instruction@ >> 8) & 0xF) as int, ((instruction@
                >> 4) & 0xF) as int),
    {
        let x = instruction.x();
        let y = instruction.y();
        let vx = self.registers.general_registers[x as usize];
        let vy = self.registers.general_registers[y as usize];
        let result = vx.wrapping_add(vy);
        let overflow = (vx as u16) + (vy as u16) > 255;
        self.registers.general_registers[x as usize] = result;
        self.registers.general_registers[CARRY_REG_ADDRESS] = if overflow {
            1
        } else {
            0
        };
        self.registers.program_counter.increment();
    }

    /// Vx becomes Vx minus Vy; the flag register holds "not borrow".
    pub fn exec_sub(&mut self, instruction: &Instruction)
        requires
            old(self).wf(),
            old(self).pc() <= 0xFFFB,
        ensures
            final(self).wf(),
            effect_sub(*old(self), *final(self), ((instruction@ >> 8) & 0xF) as int, ((instruction@
                >> 4) & 0xF) as int),
    {
        let x = instruction.x();
        let y = instruction.y();
        let vx = self.registers.general_registers[x as usize];
        let vy = self.registers.general_registers[y as usize];
        let result = vx.wrapping_sub(vy);
        self.registers.general_registers[x as usize] = result;
        self.registers.general_registers[CARRY_REG_ADDRESS] = if vx >= vy {
            1
        } else {
            0
        };
        self.registers.program_counter.increment();
    }

    /// Vx becomes Vy shifted right once; the flag register holds the bit
    /// shifted out.
    pub fn exec_shift_right(&mut self, instruction: &Instruction)
        requires
            old(self).wf(),
            old(self).pc() <= 0xFFFB,
        ensures
            final(self).wf(),
            effect_shift_right(*old(self), *final(self), ((instruction@ >> 8) & 0xF) as int, ((
            instruction@ >> 4) & 0xF) as int),
    {
        let x = instruction.x();
        let y = instruction.y();
        let vy = self.registers.general_registers[y as usize];
        self.registers.general_registers[x as usize] = vy / 2;
        self.registers.general_registers[CARRY_REG_ADDRESS] = vy % 2;
        self.registers.program_counter.increment();
    }

    /// Vx becomes Vy minus Vx; the flag register holds "not borrow".
    pub fn exec_subn(&mut self, instruction: &Instruction)
        requires
            old(self).wf(),
            old(self).pc() <= 0xFFFB,
        ensures
            final(self).wf(),
            effect_subn(*old(self), *final(self), ((instruction@ >> 8) & 0xF) as int, ((
            instruction@ >> 4) & 0xF) as int),
    {
        let x = instruction.x();
        let y = instruction.y();
        let vx = self.registers.general_registers[x as usize];
        let vy = self.registers.general_registers[y as usize];
        let result = vy.wrapping_sub(vx);
        self.registers.general_registers[x as usize] = result;
        self.registers.general_registers[CARRY_REG_ADDRESS] = if vy >= vx {
            1
        } else {
            0
        };
        self.registers.program_counter.increment();
    }

    /// Vx becomes Vy shifted left once; the flag register holds the bit
    /// shifted out.
    pub fn exec_shift_left(&mut self, instruction: &Instruction)
        requires
            old(self).wf(),
            old(self).pc() <= 0xFFFB,
        ensures
            final(self).wf(),
            effect_shift_left(*old(self), *final(self), ((instruction@ >> 8) & 0xF) as int, ((
            instruction@ >> 4) & 0xF) as int),
    {
        let x = instruction.x();
        let y = instruction.y();
        let vy = self.registers.general_registers[y as usize];
        self.registers.general_registers[x as usize] = vy.wrapping_add(vy);
        self.registers.general_registers[CARRY_REG_ADDRESS] = if vy >= 128 {
            1
        } else {
            0
        };
        self.registers.program_counter.increment();
    }

    /// One cycle of the wait-for-key state machine: record the next
    /// pressed key in Vx, then hold the program counter until that key is
    /// released again.
    pub fn exec_wait_until_key_press(&mut self, instruction: &Instruction)
        requires
            old(self).wf(),
            old(self).pc() <= 0xFFFB,
        ensures
            final(self).wf(),
            effect_wait_until_key_press(*old(self), *final(self), ((instruction@ >> 8)
                & 0xF) as int),
    {
        match self.awaiting_key {
            None => {
                if let Some(pressed_key) = self.keyboard.get_pressed_key() {
                    let x = instruction.x();
                    self.registers.general_registers[x as usize] = pressed_key;
                    self.awaiting_key = Some(pressed_key);
                }
            },
            Some(key) => {
                if !self.keyboard.is_key_pressed_or_held(key) {
                    self.awaiting_key = None;
                    self.registers.program_counter.increment();
                }
            },
        }
    }

    /// Delay timer is set equal to the value of Vx.
    pub fn exec_set_delay_timer(&mut self, instruction: &Instruction)
        requires
            old(self).wf(),
            old(self).pc() <= 0xFFFB,
        ensures
            final(self).wf(),
            effect_set_delay_timer(*old(self), *final(self), ((instruction@ >> 8) & 0xF) as int),
    {
        let x = instruction.x();
        let vx = self.registers.general_registers[x as usize];
        self.registers.delay_timer = vx;
        self.registers.program_counter.increment();
    }

    /// Sound timer is set equal to the value of Vx.
    pub fn exec_set_sound_timer(&mut self, instruction: &Instruction)
        requires
            old(self).wf(),
            old(self).pc() <= 0xFFFB,
        ensures
            final(self).wf(),
            effect_set_sound_timer(*old(self), *final(self), ((instruction@ >> 8) & 0xF) as int),
    {
        let x = instruction.x();
        let vx = self.registers.general_registers[x as usize];
        self.registers.sound_timer = vx;
        self.registers.program_counter.increment();
    }

    /// The values of I and Vx are added, wrapped to 16 bits, into I.
    pub fn exec_add_vx_to_i(&mut self, instruction: &Instruction)
        requires
            old(self).wf(),
            old(self).pc() <= 0xFFFB,
        ensures
            final(self).wf(),
            effect_add_vx_to_i(*old(self), *final(self), ((instruction@ >> 8) & 0xF) as int),
    {
        let x = instruction.x();
        let vx = self.registers.general_registers[x as usize];
        self.registers.i = self.registers.i.wrapping_add(vx as u16);
        self.registers.program_counter.increment();
    }

    /// I is pointed at the font glyph for the digit in Vx: a glyph is 5
    /// bytes, so the address is the digit times 5.
    pub fn exec_set_i_to_sprite_address(&mut self, instruction: &Instruction)
        requires
            old(self).wf(),
            old(self).pc() <= 0xFFFB,
        ensures
            final(self).wf(),
            effect_set_i_to_sprite_address(*old(self), *final(self), ((instruction@ >> 8)
                & 0xF) as int),
    {
        let x = instruction.x();
        let vx = self.registers.general_registers[x as usize];
        let sprite_address = (vx as u16) * 5;
        self.registers.i = sprite_address;
        self.registers.program_counter.increment();
    }

    /// The decimal digits of Vx are placed in memory at I, I+1 and I+2:
    /// hundreds, tens, ones.
    pub fn exec_store_vx_as_bsd_in_memory(&mut self, instruction: &Instruction) -> (r: Result<
        (),
        Fault,
    >)
        requires
            old(self).wf(),
            old(self).pc() <= 0xFFFB,
        ensures
            final(self).wf(),
            effect_store_vx_as_bsd_in_memory(*old(self), *final(self), ((instruction@ >> 8)
                & 0xF) as int, r),
    {
        let x = instruction.x();
        let vx = self.registers.general_registers[x as usize];
        let i = self.registers.i;
        if i as usize + 3 > MEMORY_SIZE {
            return Err(Fault::MemoryOutOfBounds);
        }
        let bcd_representation: [u8; 3] = [(vx / 100) % 10, (vx / 10) % 10, vx % 10];
        self.memory.write_bytes(i, bcd_representation.as_slice());
        self.registers.program_counter.increment();
        proof {
            assert(final(self).mem() =~= old(self).mem().update(i as int, ((vx / 100)
                % 10) as u8).update(i as int + 1, ((vx / 10) % 10) as u8).update(
                i as int + 2,
                (vx % 10) as u8,
            ));
        }
        Ok(())
    }

    /// V0 through Vx inclusive are stored in memory from address I on,
    /// and I advances past them: the auto-increment quirk is kept.
    pub fn exec_store_registers_in_memory(&mut self, instruction: &Instruction) -> (r: Result<
        (),
        Fault,
    >)
        requires
            old(self).wf(),
            old(self).pc() <= 0xFFFB,
        ensures
            final(self).wf(),
            effect_store_registers_in_memory(*old(self), *final(self), ((instruction@ >> 8)
                & 0xF) as int, r),
    {
        let x = instruction.x();
        let i = self.registers.i;
        if i as usize + x as usize + 1 > MEMORY_SIZE {
            return Err(Fault::MemoryOutOfBounds);
        }
        let low_registers = slice_subrange(
            self.registers.general_registers.as_slice(),
            0,
            x as usize + 1,
        );
        self.memory.write_bytes(i, low_registers);
        self.registers.i = i + x as u16 + 1;
        self.registers.program_counter.increment();
        Ok(())
    }

    /// V0 through Vx inclusive are loaded from memory from address I on,
    /// and I advances past them: the auto-increment quirk is kept.
    pub fn exec_load_registers_from_memory(&mut self, instruction: &Instruction) -> (r: Result<
        (),
        Fault,
    >)
        requires
            old(self).wf(),
            old(self).pc() <= 0xFFFB,
        ensures
            final(self).wf(),
            effect_load_registers_from_memory(*old(self), *final(self), ((instruction@ >> 8)
                & 0xF) as int, r),
    {
        let x = instruction.x();
        let i = self.registers.i;
        if i as usize + x as usize + 1 > MEMORY_SIZE {
            return Err(Fault::MemoryOutOfBounds);
        }
        let read_data = self.memory.read_bytes(i, x as u16 + 1);
        let mut index: usize = 0;
        while index < x as usize + 1
            invariant
                x < 16,
                index <= x as int + 1,
                read_data@.len() == x as int + 1,
                self.registers.general_registers@.len() == 16,
                forall|j: int|
                    0 <= j < index ==> self.registers.general_registers@[j] == read_data@[j],
                forall|j: int|
                    index <= j < 16 ==> self.registers.general_registers@[j] == old(
                        self,
                    ).regs()[j],
                old(self).wf(),
                old(self).pc() <= 0xFFFB,
                same_index_reg(*old(self), *self),
                same_timers(*old(self), *self),
                same_pc(*old(self), *self),
                same_stack(*old(self), *self),
                same_mem(*old(self), *self),
                same_fb(*old(self), *self),
                same_keys(*old(self), *self),
                same_wait(*old(self), *self),
            decreases x as int + 1 - index,
        {
            let value = read_data[index];
            self.registers.general_registers[index] = value;
            index = index + 1;
        }
        proof {
            assert forall|j: int| 0 <= j <= x as int implies self.registers.general_registers@[j]
                == old(self).mem()[i as int + j] by {
                assert(read_data@[j] == old(self).mem()[i as int + j]);
            }
        }
        self.registers.i = i + x as u16 + 1;
        self.registers.program_counter.increment();
        Ok(())
    }

    /// Steps over an instruction that does nothing.
    pub fn ignore_instruction(&mut self)
        requires
            old(self).wf(),
            old(self).pc() <= 0xFFFB,
        ensures
            final(self).wf(),
            effect_ignore(*old(self), *final(self)),
    {
        self.registers.program_counter.increment();
    }
}

/// 8-bit saturating subtraction: a timer never drops below zero.
pub open spec fn sat_sub_u8(t: u8, f: u8) -> u8 {
    if t >= f {
        (t - f) as u8
    } else {
        0
    }
}

/// How one timer update changes the machine: both timers lose
/// `frames`, saturating at zero, and the tone decision reports the sound
/// timer left after the update.
pub open spec fn timers_progressed(pre: Cpu, post: Cpu, frames: u8, signal: AudioSignal) -> bool {
    &&& same_gp_regs(pre, post)
    &&& same_index_reg(pre, post)
    &&& same_pc(pre, post)
    &&& same_stack(pre, post)
    &&& same_mem(pre, post)
    &&& same_fb(pre, post)
    &&& same_keys(pre, post)
    &&& same_wait(pre, post)
    &&& post.delay_timer() == sat_sub_u8(pre.delay_timer(), frames)
    &&& post.sound_timer() == sat_sub_u8(pre.sound_timer(), frames)
    &&& signal == (if sat_sub_u8(pre.sound_timer(), frames) > 0 {
        AudioSignal::On(sat_sub_u8(pre.sound_timer(), frames))
    } else {
        AudioSignal::Off
    })
}

/// Whole 60 Hz frames in `millis` milliseconds, capped at 255.
pub open spec fn spec_whole_frames(millis: u128) -> u8 {
    if millis * 3 / 50 >= 255 {
        255u8
    } else {
        (millis * 3 / 50) as u8
    }
}

/// The instruction word stored at `addr`: two bytes, high byte first.
pub open spec fn word_at(mem: Seq<u8>, addr: int) -> u16 {
    ((mem[addr] as u16) << 8) | (mem[addr + 1] as u16)
}

/// What one executed instruction word does to the machine: the full
/// opcode table.  The fields of `w` select exactly one opcode effect;
/// a word outside the table is fatal and leaves the machine unchanged.
pub open spec fn step_effect(pre: Cpu, post: Cpu, w: u16, r: Result<(), Fault>) -> bool {
    let op = (w >> 12) & 0xF;
    let x = ((w >> 8) & 0xF) as int;
    let y = ((w >> 4) & 0xF) as int;
    let n = w & 0xF;
    let kk = (w & 0xFF) as u8;
    let nnn = w & 0x0FFF;
    if op == 0 && x == 0 && y == 0 && n == 0 {
        r is Ok && effect_ignore(pre, post)
    } else if op == 0 && x == 0 && y == 0xE && n == 0 {
        r is Ok && effect_clear_display(pre, post)
    } else if op == 0 && x == 0 && y == 0xE && n == 0xE {
        effect_return(pre, post, r)
    } else if op == 1 {
        effect_jump(pre, post, nnn, r)
    } else if op == 2 {
        effect_call(pre, post, nnn, r)
    } else if op == 3 {
        r is Ok && effect_skip_if_equal_kk(pre, post, x, kk)
    } else if op == 4 {
        r is Ok && effect_skip_if_not_equal_kk(pre, post, x, kk)
    } else if op == 5 {
        r is Ok && effect_skip_if_equal_register(pre, post, x, y)
    } else if op == 6 {
        r is Ok && effect_set_register(pre, post, x, kk)
    } else if op == 7 {
        r is Ok && effect_add_kk(pre, post, x, kk)
    } else if op == 8 && n == 0 {
        r is Ok && effect_copy_register_value(pre, post, x, y)
    } else if op == 8 && n == 1 {
        r is Ok && effect_or(pre, post, x, y)
    } else if op == 8 && n == 2 {
        r is Ok && effect_and(pre, post, x, y)
    } else if op == 8 && n == 3 {
        r is Ok && effect_xor(pre, post, x, y)
    } else if op == 8 && n == 4 {
        r is Ok && effect_add(pre, post, x, y)
    } else if op == 8 && n == 5 {
        r is Ok && effect_sub(pre, post, x, y)
    } else if op == 8 && n == 6 {
        r is Ok && effect_shift_right(pre, post, x, y)
    } else if op == 8 && n == 7 {
        r is Ok && effect_subn(pre, post, x, y)
    } else if op == 8 && n == 0xE {
        r is Ok && effect_shift_left(pre, post, x, y)
    } else if op == 9 {
        r is Ok && effect_skip_if_not_equal_register(pre, post, x, y)
    } else if op == 0xA {
        r is Ok && effect_set_register_i_to_nnn(pre, post, nnn)
    } else if op == 0xB {
        effect_move_program_counter(pre, post, nnn, r)
    } else if op == 0xC {
        r is Ok && effect_generate_random_number(pre, post, x, kk)
    } else if op == 0xD && n == 0 {
        r is Ok && effect_ignore(pre, post)
    } else if op == 0xD {
        effect_display_sprite(pre, post, x, y, n, r)
    } else if op == 0xE && y == 9 && n == 0xE {
        r is Ok && effect_skip_key(pre, post, x, true)
    } else if op == 0xE && y == 0xA && n == 1 {
        r is Ok && effect_skip_key(pre, post, x, false)
    } else if op == 0xF && y == 0 && n == 7 {
        r is Ok && effect_set_vx_to_delay_timer(pre, post, x)
    } else if op == 0xF && y == 0 && n == 0xA {
        r is Ok && effect_wait_until_key_press(pre, post, x)
    } else if op == 0xF && y == 1 && n == 5 {
        r is Ok && effect_set_delay_timer(pre, post, x)
    } else if op == 0xF && y == 1 && n == 8 {
        r is Ok && effect_set_sound_timer(pre, post, x)
    } else if op == 0xF && y == 1 && n == 0xE {
        r is Ok && effect_add_vx_to_i(pre, post, x)
    } else if op == 0xF && y == 2 {
        r is Ok && effect_set_i_to_sprite_address(pre, post, x)
    } else if op == 0xF && y == 3 {
        effect_store_vx_as_bsd_in_memory(pre, post, x, r)
    } else if op == 0xF && y == 5 && n == 5 {
        effect_store_registers_in_memory(pre, post, x, r)
    } else if op == 0xF && y == 6 && n == 5 {
        effect_load_registers_from_memory(pre, post, x, r)
    } else {
        r == Err::<(), Fault>(Fault::UnknownInstruction) && same_state(pre, post)
    }
}

/// One timer update at the top of a cycle: either no whole frame had
/// elapsed and nothing changes, or both timers lose the elapsed frames
/// and the tone decision is reported.
pub open spec fn timer_phase(pre: Cpu, mid: Cpu, frames: u8, signal: Option<AudioSignal>) -> bool {
    if frames == 0 {
        same_state(pre, mid) && signal is None
    } else {
        match signal {
            Some(sig) => timers_progressed(pre, mid, frames, sig),
            None => false,
        }
    }
}

/// The fetch and execute of one cycle: fetching past the end of memory
/// is fatal; otherwise the fetched word selects one opcode effect.
pub open spec fn fetch_execute_phase(mid: Cpu, post: Cpu, r: Result<(), Fault>) -> bool {
    if mid.pc() + 2 > MEMORY_SIZE {
        r == Err::<(), Fault>(Fault::MemoryOutOfBounds) && same_state(mid, post)
    } else {
        step_effect(mid, post, word_at(mid.mem(), mid.pc() as int), r)
    }
}

/// A cycle's result with the audio decision dropped, for relating it to
/// the executed instruction.
pub open spec fn unit_result(r: Result<Option<AudioSignal>, Fault>) -> Result<(), Fault> {
    match r {
        Ok(_) => Ok(()),
        Err(f) => Err(f),
    }
}

/// Whole 60 Hz frames in `millis` milliseconds, capped at 255: the
/// timers are 8-bit and their subtraction saturates, so any larger burst
/// acts the same as 255 frames.
fn whole_frames(millis: u128) -> (frames: u8)
    ensures
        frames == spec_whole_frames(millis),
{
    if millis >= 4250 {
        255
    } else {
        ((millis * 3) / 50) as u8
    }
}

impl Cpu {
    /// Subtracts `elapsed_frames` from both timers, saturating at zero,
    /// and reports what the audio collaborator should now do: keep the
    /// tone on while the sound timer is still running, silence otherwise.
    pub fn progress_timer_registers(&mut self, elapsed_frames: u8) -> (signal: AudioSignal)
        requires
            old(self).wf(),
        ensures
            final(self).wf(),
            timers_progressed(*old(self), *final(self), elapsed_frames, signal),
    {
        if self.registers.delay_timer > 0 {
            self.registers.delay_timer = self.registers.delay_timer.saturating_sub(elapsed_frames);
        }
        if self.registers.sound_timer > 0 {
            self.registers.sound_timer = self.registers.sound_timer.saturating_sub(elapsed_frames);
        }
        if self.registers.sound_timer > 0 {
            AudioSignal::On(self.registers.sound_timer)
        } else {
            AudioSignal::Off
        }
    }

    /// Routes one fetched instruction to its handler: the full opcode
    /// table.  A word that matches no row is fatal.
    pub fn evaluate_instructions(&mut self, instruction_bytes: &[u8; 2]) -> (r: Result<(), Fault>)
        requires
            old(self).wf(),
            old(self).pc() <= 0xFFFB,
        ensures
            final(self).wf(),
            step_effect(
                *old(self),
                *final(self),
                ((instruction_bytes[0] as u16) << 8) | (instruction_bytes[1] as u16),
                r,
            ),
    {
        let instruction = Instruction::new(instruction_bytes);
        let nibbles = instruction.nibbles_lo();
        match nibbles {
            (0x0, 0x0, 0x0, 0x0) => {
                self.ignore_instruction();
                Ok(())
            },
            (0x0, 0x0, 0xE, 0x0) => {
                self.exec_clear_display(&instruction);
                Ok(())
            },
            (0x0, 0x0, 0xE, 0xE) => self.exec_return_from_subroutine(&instruction),
            (0x1, _, _, _) => self.exec_jump(&instruction),
            (0x2, _, _, _) => self.exec_call_subroutine(&instruction),
            (0x3, _, _, _) => {
                self.exec_skip_if_equal_kk(&instruction);
                Ok(())
            },
            (0x4, _, _, _) => {
                self.exec_skip_if_not_equal_kk(&instruction);
                Ok(())
            },
            (0x5, _, _, _) => {
                self.exec_skip_if_equal_register(&instruction);
                Ok(())
            },
            (0x6, _, _, _) => {
                self.exec_set_register(&instruction);
                Ok(())
            },
            (0x7, _, _, _) => {
                self.exec_add_kk(&instruction);
                Ok(())
            },
            (0x8, _, _, 0x0) => {
                self.exec_copy_register_value(&instruction);
                Ok(())
            },
            (0x8, _, _, 0x2) => {
                self.exec_and(&instruction);
                Ok(())
            },
            (0x8, _, _, 0x1) => {
                self.exec_or(&instruction);
                Ok(())
            },
            (0x8, _, _, 0x3) => {
                self.exec_xor(&instruction);
                Ok(())
            },
            (0x8, _, _, 0x4) => {
                self.exec_add(&instruction);
                Ok(())
            },
            (0x8, _, _, 0x5) => {
                self.exec_sub(&instruction);
                Ok(())
            },
            (0x8, _, _, 0x6) => {
                self.exec_shift_right(&instruction);
                Ok(())
            },
            (0x8, _, _, 0x7) => {
                self.exec_subn(&instruction);
                Ok(())
            },
            (0x8, _, _, 0xE) => {
                self.exec_shift_left(&instruction);
                Ok(())
            },
            (0x9, _, _, _) => {
                self.exec_skip_if_not_equal_register(&instruction);
                Ok(())
            },
            (0xA, _, _, _) => {
                self.exec_set_register_i_to_nnn(&instruction);
                Ok(())
            },
            (0xB, _, _, _) => self.exec_move_program_counter(&instruction),
            (0xC, _, _, _) => {
                self.exec_generate_random_number(&instruction);
                Ok(())
            },
            (0xD, _, _, 0x0) => {
                self.ignore_instruction();
                Ok(())
            },
            (0xD, _, _, _) => self.exec_display_sprite_8xN(&instruction),
            (0xE, _, 0x9, 0xE) => {
                self.exec_skip_if_key_pressed(&instruction);
                Ok(())
            },
            (0xE, _, 0xA, 0x1) => {
                self.exec_skip_if_key_not_pressed(&instruction);
                Ok(())
            },
            (0xF, _, 0x0, 0x7) => {
                self.exec_set_vx_to_delay_timer(&instruction);
                Ok(())
            },
            (0xF, _, 0x0, 0xA) => {
                self.exec_wait_until_key_press(&instruction);
                Ok(())
            },
            (0xF, _, 0x1, 0x5) => {
                self.exec_set_delay_timer(&instruction);
                Ok(())
            },
            (0xF, _, 0x1, 0x8) => {
                self.exec_set_sound_timer(&instruction);
                Ok(())
            },
            (0xF, _, 0x1, 0xE) => {
                self.exec_add_vx_to_i(&instruction);
                Ok(())
            },
            (0xF, _, 0x2, _) => {
                self.exec_set_i_to_sprite_address(&instruction);
                Ok(())
            },
            (0xF, _, 0x3, _) => self.exec_store_vx_as_bsd_in_memory(&instruction),
            (0xF, _, 0x5, 0x5) => self.exec_store_registers_in_memory(&instruction),
            (0xF, _, 0x6, 0x5) => self.exec_load_registers_from_memory(&instruction),
            _ => Err(Fault::UnknownInstruction),
        }
    }

    /// One cycle of the machine: when at least a whole 60 Hz frame has
    /// passed since the last update, both timers decay and the tone
    /// decision is produced; then the word at the program counter is
    /// fetched and executed.  Ok carries the tone decision when a timer
    /// update happened this cycle; every Err is fatal and the caller must
    /// stop the machine.
    pub fn run_cycle(&mut self) -> (r: Result<Option<AudioSignal>, Fault>)
        requires
            old(self).wf(),
        ensures
            final(self).wf(),
            exists|frames: u8, mid: Cpu, signal: Option<AudioSignal>|
                {
                    &&& #[trigger] timer_phase(*old(self), mid, frames, signal)
                    &&& fetch_execute_phase(mid, *final(self), unit_result(r))
                    &&& (r is Ok ==> r == Ok::<Option<AudioSignal>, Fault>(signal))
                },
    {
        if self.time_since_timer_update.is_none() {
            self.time_since_timer_update = Some(instant_now());
        }
        let elapsed_millis: u128 = match &self.time_since_timer_update {
            Some(t) => duration_as_millis(&instant_elapsed(t)),
            None => 0,
        };
        let frames = whole_frames(elapsed_millis);
        let mut signal: Option<AudioSignal> = None;
        if frames >= 1 {
            signal = Some(self.progress_timer_registers(frames));
            self.time_since_timer_update = Some(instant_now());
        }
        let ghost mid = *self;
        let ghost used_frames: u8 = if frames >= 1 {
            frames
        } else {
            0
        };
        proof {
            assert(timer_phase(*old(self), mid, used_frames, signal));
        }
        let pc = self.registers.program_counter.address();
        if pc as usize + 2 > MEMORY_SIZE {
            proof {
                assert(fetch_execute_phase(
                    mid,
                    *self,
                    Err::<(), Fault>(Fault::MemoryOutOfBounds),
                ));
            }
            return Err(Fault::MemoryOutOfBounds);
        }
        let fetched = self.memory.read_bytes(pc, 2);
        let instruction_bytes: [u8; 2] = [fetched[0], fetched[1]];
        proof {
            assert(((instruction_bytes[0] as u16) << 8) | (instruction_bytes[1] as u16) == word_at(
                mid.mem(),
                mid.pc() as int,
            ));
        }
        let result = self.evaluate_instructions(&instruction_bytes);
        match result {
            Ok(()) => {
                proof {
                    assert(fetch_execute_phase(mid, *self, Ok::<(), Fault>(())));
                }
                Ok(signal)
            },
            Err(f) => {
                proof {
                    assert(fetch_execute_phase(mid, *self, Err::<(), Fault>(f)));
                }
                Err(f)
            },
        }
    }
}

impl Cpu {
    pub fn register_value(&self, x: u8) -> (r: u8)
        requires
            self.wf(),
            x < 16,
        ensures
            r == self.regs()[x as int],
    {
        self.registers.general_registers[x as usize]
    }

    pub fn index_register_value(&self) -> (r: u16)
        ensures
            r == self.index_reg(),
    {
        self.registers.i
    }

    pub fn delay_timer_value(&self) -> (r: u8)
        ensures
            r == self.delay_timer(),
    {
        self.registers.delay_timer
    }

    pub fn sound_timer_value(&self) -> (r: u8)
        ensures
            r == self.sound_timer(),
    {
        self.registers.sound_timer
    }

    pub fn program_counter_address(&self) -> (r: u16)
        ensures
            r == self.pc(),
    {
        self.registers.program_counter.address()
    }

    pub fn stack_depth(&self) -> (r: usize)
        ensures
            r == self.stack_view().len(),
    {
        self.stack.len()
    }

    pub fn memory_byte(&self, address: u16) -> (r: u8)
        requires
            self.wf(),
            address < MEMORY_SIZE,
        ensures
            r == self.mem()[address as int],
    {
        *self.memory.read_bytes(address, 1).first().unwrap()
    }

    /// The framebuffer pixel in column `x` of row `y`.
    pub fn pixel(&self, x: usize, y: usize) -> (r: bool)
        requires
            self.wf(),
            x < 64,
            y < 32,
        ensures
            r == self.fb()[y * 64 + x],
    {
        self.renderer.pixel(x, y)
    }
}

/// A call and its matching return land the program counter two past the
/// call instruction — exactly on the instruction after it — and leave
/// the call stack as it was before the call.
pub proof fn lemma_call_then_return(pre: Cpu, mid: Cpu, post: Cpu, nnn: u16)
    requires
        pre.pc() + 2 <= u16::MAX,
        effect_call(pre, mid, nnn, Ok::<(), Fault>(())),
        effect_return(mid, post, Ok::<(), Fault>(())),
    ensures
        post.pc() == pre.pc() + 2,
        post.stack_view() == pre.stack_view(),
{
    assert(mid.stack_view().last() == (pre.pc() + 2) as u16);
    assert(post.stack_view() =~= pre.stack_view());
}

/// Timer decay saturates: a burst of elapsed frames only ever lowers a
/// timer (the timers are bytes, so they never drop below zero), and a
/// timer that has reached zero stays at zero through every further burst
/// until an instruction resets it.
pub proof fn lemma_timer_decay_saturates(
    pre: Cpu,
    mid: Cpu,
    post: Cpu,
    f1: u8,
    f2: u8,
    s1: AudioSignal,
    s2: AudioSignal,
)
    requires
        timers_progressed(pre, mid, f1, s1),
        timers_progressed(mid, post, f2, s2),
    ensures
        post.delay_timer() <= mid.delay_timer() <= pre.delay_timer(),
        post.sound_timer() <= mid.sound_timer() <= pre.sound_timer(),
        mid.delay_timer() == 0 ==> post.delay_timer() == 0,
        mid.sound_timer() == 0 ==> post.sound_timer() == 0,
{
}

} // verus!
