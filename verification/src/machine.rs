//! The machine state and its execution engine.
//!
//! [`Emu`] owns the whole architectural state. The engine advances it one
//! instruction per [`Emu::tick`] (fetch two bytes at the program counter,
//! assemble and decode them, apply the operation) and decrements the two
//! countdown timers once per [`Emu::tick_timers`]. Out-of-range fetches,
//! stack overflow or underflow and unrecognised instruction words are fatal:
//! [`Emu::tick`] excludes them by precondition, and [`Emu::try_tick`]
//! reports them to the caller without touching the state.

use vstd::prelude::*;

use crate::decode::decode;
use crate::decode::decode_word;
use crate::decode::lemma_decode_operands;
use crate::decode::Op;

verus! {

/// Width of the monochrome framebuffer in cells.
pub const SCREEN_WIDTH: usize = 64;

/// Height of the monochrome framebuffer in cells.
pub const SCREEN_HEIGHT: usize = 32;

/// Number of framebuffer cells, row-major.
pub const SCREEN_SIZE: usize = SCREEN_WIDTH * SCREEN_HEIGHT;

/// Bytes of addressable RAM.
pub const RAM_SIZE: usize = 4096;

/// Number of general-purpose registers.
pub const NUM_REGS: usize = 16;

/// Depth of the return-address stack.
pub const STACK_SIZE: usize = 16;

/// Number of keys in the input array.
pub const NUM_KEYS: usize = 16;

/// Bytes of the built-in character sprite table at the bottom of RAM.
pub const FONTSET_SIZE: usize = 80;

/// Address where loaded program code begins and the program counter starts.
pub const START_ADDR: u16 = 0x200;

/// The whole machine state. External collaborators load program bytes into
/// `ram` from [`START_ADDR`] on, set `keys`, and read `screen` directly;
/// everything else is driven through the methods.
pub struct Emu {
    /// Program counter: index into `ram` of the next instruction.
    pub pc: u16,
    /// Addressable memory; the first [`FONTSET_SIZE`] bytes hold the sprite table.
    pub ram: [u8; RAM_SIZE],
    /// Monochrome framebuffer, row-major, one cell per pixel.
    pub screen: [bool; SCREEN_SIZE],
    /// General-purpose registers; index `0xF` doubles as the carry flag.
    pub v_reg: [u8; NUM_REGS],
    /// Address register.
    pub i_reg: u16,
    /// Stack pointer: number of return addresses currently on the stack.
    pub sp: u16,
    /// Return-address stack; entries at and above `sp` are dead.
    pub stack: [u16; STACK_SIZE],
    /// Key state, written by the external input collaborator.
    pub keys: [bool; NUM_KEYS],
    /// Delay timer, decremented toward zero by [`Emu::tick_timers`].
    pub dt: u8,
    /// Sound timer, decremented toward zero by [`Emu::tick_timers`].
    pub st: u8,
}

/// The sixteen five-byte character sprites installed at the bottom of RAM,
/// one per hexadecimal digit.
pub open spec fn font() -> Seq<u8> {
    seq![
        0xF0u8, 0x90, 0x90, 0x90, 0xF0,
        0x20, 0x60, 0x20, 0x20, 0x70,
        0xF0, 0x10, 0xF0, 0x80, 0xF0,
        0xF0, 0x10, 0xF0, 0x10, 0xF0,
        0x90, 0x90, 0xF0, 0x10, 0x10,
        0xF0, 0x80, 0xF0, 0x10, 0xF0,
        0xF0, 0x80, 0xF0, 0x90, 0xF0,
        0xF0, 0x10, 0x20, 0x40, 0x40,
        0xF0, 0x90, 0xF0, 0x90, 0xF0,
        0xF0, 0x90, 0xF0, 0x10, 0xF0,
        0xF0, 0x90, 0xF0, 0x90, 0x90,
        0xE0, 0x90, 0xE0, 0x90, 0xE0,
        0xF0, 0x80, 0x80, 0x80, 0xF0,
        0xE0, 0x90, 0x90, 0x90, 0xE0,
        0xF0, 0x80, 0xF0, 0x80, 0xF0,
        0xF0, 0x80, 0xF0, 0x80, 0x80,
    ]
}

/// The executable sprite table, byte for byte the specification [`font`].
fn font_table() -> (r: Vec<u8>)
    ensures
        r@ == font(),
{
    let r: Vec<u8> = vec![
        0xF0u8, 0x90, 0x90, 0x90, 0xF0,
        0x20, 0x60, 0x20, 0x20, 0x70,
        0xF0, 0x10, 0xF0, 0x80, 0xF0,
        0xF0, 0x10, 0xF0, 0x10, 0xF0,
        0x90, 0x90, 0xF0, 0x10, 0x10,
        0xF0, 0x80, 0xF0, 0x10, 0xF0,
        0xF0, 0x80, 0xF0, 0x90, 0xF0,
        0xF0, 0x10, 0x20, 0x40, 0x40,
        0xF0, 0x90, 0xF0, 0x90, 0xF0,
        0xF0, 0x90, 0xF0, 0x10, 0xF0,
        0xF0, 0x90, 0xF0, 0x90, 0x90,
        0xE0, 0x90, 0xE0, 0x90, 0xE0,
        0xF0, 0x80, 0x80, 0x80, 0xF0,
        0xE0, 0x90, 0x90, 0x90, 0xE0,
        0xF0, 0x80, 0xF0, 0x80, 0xF0,
        0xF0, 0x80, 0xF0, 0x80, 0x80,
    ];
    proof {
        assert(r@ =~= font());
    }
    r
}

/// The 16-bit instruction word stored at byte index `a` of `ram`: the byte
/// at `a` is the high byte, the byte at `a + 1` the low byte.
pub open spec fn word_at(ram: Seq<u8>, a: int) -> u16
    recommends
        0 <= a,
        a + 1 < ram.len(),
{
    ((ram[a] as u16) << 8) | (ram[a + 1] as u16)
}

/// Every framebuffer cell is off.
pub open spec fn all_dark(screen: Seq<bool>) -> bool {
    forall|i: int| 0 <= i < screen.len() ==> !screen[i]
}

/// Addition of two register values with wraparound modulo 256.
pub open spec fn wrap_add(a: u8, b: u8) -> u8 {
    ((a + b) % 256) as u8
}

/// Construction-time state: program counter at the entry address, sprite
/// table installed at the bottom of RAM, everything else zeroed or cleared.
pub open spec fn fresh(e: Emu) -> bool {
    &&& e.pc == START_ADDR
    &&& forall|i: int| 0 <= i < FONTSET_SIZE ==> e.ram@[i] == font()[i]
    &&& forall|i: int| FONTSET_SIZE <= i < RAM_SIZE ==> e.ram@[i] == 0
    &&& all_dark(e.screen@)
    &&& forall|i: int| 0 <= i < NUM_REGS ==> e.v_reg@[i] == 0
    &&& e.i_reg == 0
    &&& e.sp == 0
    &&& forall|i: int| 0 <= i < STACK_SIZE ==> e.stack@[i] == 0
    &&& forall|i: int| 0 <= i < NUM_KEYS ==> !e.keys@[i]
    &&& e.dt == 0
    &&& e.st == 0
}

/// RAM, the address register, the keys and the timers are untouched by
/// every instruction of the implemented subset.
pub open spec fn untouched_io(pre: Emu, post: Emu) -> bool {
    &&& post.ram == pre.ram
    &&& post.i_reg == pre.i_reg
    &&& post.keys == pre.keys
    &&& post.dt == pre.dt
    &&& post.st == pre.st
}

/// The operation only moved the program counter, to `new_pc`.
pub open spec fn sets_pc(pre: Emu, post: Emu, new_pc: int) -> bool {
    &&& post.pc == new_pc
    &&& post.v_reg == pre.v_reg
    &&& post.screen == pre.screen
    &&& post.stack == pre.stack
    &&& post.sp == pre.sp
    &&& untouched_io(pre, post)
}

/// The operation left the program counter at `pc_mid` (the post-fetch value)
/// and replaced the register file with `regs`; nothing else changed.
pub open spec fn sets_regs(pre: Emu, post: Emu, pc_mid: u16, regs: Seq<u8>) -> bool {
    &&& post.pc == pc_mid
    &&& post.v_reg@ == regs
    &&& post.screen == pre.screen
    &&& post.stack == pre.stack
    &&& post.sp == pre.sp
    &&& untouched_io(pre, post)
}

/// How one decoded operation transforms the machine.
///
/// `pre` is the state whose registers, stack and screen the operation reads;
/// `pc_mid` is the program counter after the fetch of the operation's own
/// word (the address of the next instruction in sequence), which the
/// operation starts from. For `Return` and `Call` the relation includes the
/// stack-bounds condition under which the operation is defined at all.
pub open spec fn step(pre: Emu, post: Emu, pc_mid: u16, o: Op) -> bool {
    match o {
        Op::Nop => sets_pc(pre, post, pc_mid as int),
        Op::ClearScreen => {
            &&& post.pc == pc_mid
            &&& post.v_reg == pre.v_reg
            &&& all_dark(post.screen@)
            &&& post.stack == pre.stack
            &&& post.sp == pre.sp
            &&& untouched_io(pre, post)
        },
        Op::Return => {
            &&& 1 <= pre.sp <= STACK_SIZE
            &&& post.pc == pre.stack@[pre.sp - 1]
            &&& post.sp == pre.sp - 1
            &&& post.v_reg == pre.v_reg
            &&& post.screen == pre.screen
            &&& post.stack == pre.stack
            &&& untouched_io(pre, post)
        },
        Op::Jump(nnn) => sets_pc(pre, post, nnn as int),
        Op::Call(nnn) => {
            &&& pre.sp < STACK_SIZE
            &&& post.pc == nnn
            &&& post.sp == pre.sp + 1
            &&& post.stack@ == pre.stack@.update(pre.sp as int, pc_mid)
            &&& post.v_reg == pre.v_reg
            &&& post.screen == pre.screen
            &&& untouched_io(pre, post)
        },
        Op::SkipEqImm(x, nn) => {
            if pre.v_reg@[x as int] == nn {
                pc_mid + 2 <= u16::MAX && sets_pc(pre, post, pc_mid + 2)
            } else {
                sets_pc(pre, post, pc_mid as int)
            }
        },
        Op::SkipNeImm(x, nn) => {
            if pre.v_reg@[x as int] != nn {
                pc_mid + 2 <= u16::MAX && sets_pc(pre, post, pc_mid + 2)
            } else {
                sets_pc(pre, post, pc_mid as int)
            }
        },
        Op::SkipEqReg(x, y) => {
            if pre.v_reg@[x as int] == pre.v_reg@[y as int] {
                pc_mid + 2 <= u16::MAX && sets_pc(pre, post, pc_mid + 2)
            } else {
                sets_pc(pre, post, pc_mid as int)
            }
        },
        Op::LoadImm(x, nn) => sets_regs(pre, post, pc_mid, pre.v_reg@.update(x as int, nn)),
        Op::AddImm(x, nn) => sets_regs(
            pre,
            post,
            pc_mid,
            pre.v_reg@.update(x as int, wrap_add(pre.v_reg@[x as int], nn)),
        ),
        Op::Copy(x, y) => sets_regs(pre, post, pc_mid, pre.v_reg@.update(x as int, pre.v_reg@[y as int])),
        Op::Or(x, y) => sets_regs(
            pre,
            post,
            pc_mid,
            pre.v_reg@.update(x as int, pre.v_reg@[x as int] | pre.v_reg@[y as int]),
        ),
        Op::And(x, y) => sets_regs(
            pre,
            post,
            pc_mid,
            pre.v_reg@.update(x as int, pre.v_reg@[x as int] & pre.v_reg@[y as int]),
        ),
        Op::Xor(x, y) => sets_regs(
            pre,
            post,
            pc_mid,
            pre.v_reg@.update(x as int, pre.v_reg@[x as int] ^ pre.v_reg@[y as int]),
        ),
        Op::AddCarry(x, y) => {
            let sum = pre.v_reg@[x as int] + pre.v_reg@[y as int];
            sets_regs(
                pre,
                post,
                pc_mid,
                pre.v_reg@.update(x as int, (sum % 256) as u8).update(
                    15,
                    if 255 < sum { 1u8 } else { 0u8 },
                ),
            )
        },
    }
}

/// One whole fetch-decode-execute cycle: the word fetched at `pre.pc` was
/// decoded and applied, starting from the post-fetch counter `pre.pc + 2`.
pub open spec fn tick_rel(pre: Emu, post: Emu) -> bool {
    step(pre, post, (pre.pc + 2) as u16, decode(word_at(pre.ram@, pre.pc as int)).unwrap())
}

/// The inputs on which a tick is defined: the fetch stays inside RAM, the
/// word decodes, and the stack neither underflows on a return nor overflows
/// on a call.
pub open spec fn tickable(pre: Emu) -> bool {
    &&& pre.pc + 1 < RAM_SIZE
    &&& decode(word_at(pre.ram@, pre.pc as int)) is Some
    &&& (decode(word_at(pre.ram@, pre.pc as int)) matches Some(Op::Return) ==> pre.sp >= 1)
    &&& (decode(word_at(pre.ram@, pre.pc as int)) matches Some(Op::Call(_)) ==> pre.sp
        < STACK_SIZE)
}

/// Which fatal condition a tick of `pre` would run into, when `!tickable(pre)`.
pub open spec fn tick_failure(pre: Emu) -> EmuError {
    if pre.pc + 1 >= RAM_SIZE {
        EmuError::PcOutOfRange
    } else if decode(word_at(pre.ram@, pre.pc as int)) is None {
        EmuError::UnknownOpcode
    } else if decode(word_at(pre.ram@, pre.pc as int)) matches Some(Op::Return) {
        EmuError::StackUnderflow
    } else {
        EmuError::StackOverflow
    }
}

/// One decrement of the two countdown timers, each saturating at zero;
/// nothing else moves.
pub open spec fn timers_rel(pre: Emu, post: Emu) -> bool {
    &&& post.dt == if pre.dt > 0 { pre.dt - 1 } else { 0int }
    &&& post.st == if pre.st > 0 { pre.st - 1 } else { 0int }
    &&& post.pc == pre.pc
    &&& post.ram == pre.ram
    &&& post.screen == pre.screen
    &&& post.v_reg == pre.v_reg
    &&& post.i_reg == pre.i_reg
    &&& post.sp == pre.sp
    &&& post.stack == pre.stack
    &&& post.keys == pre.keys
}

/// A timer tick of `pre` signals "tone end" to the external audio
/// collaborator: exactly when the sound timer is about to drop from 1 to 0.
pub open spec fn signals_tone_end(pre: Emu) -> bool {
    pre.st == 1
}

/// The fatal conditions a tick can run into, reported by [`Emu::try_tick`].
#[derive(Clone, Copy, Debug, PartialEq, Eq, Structural)]
pub enum EmuError {
    /// The fetch would read past the end of RAM.
    PcOutOfRange,
    /// The fetched word matches no implemented instruction pattern.
    UnknownOpcode,
    /// A return was executed with an empty call stack.
    StackUnderflow,
    /// A call was executed with a full call stack.
    StackOverflow,
}

impl Emu {
    /// The stack pointer stays within the fixed stack depth; the array
    /// lengths themselves are fixed by the types.
    pub open spec fn wf(self) -> bool {
        self.sp <= STACK_SIZE
    }

    /// The instruction word the next fetch would assemble.
    pub open spec fn next_word(self) -> u16 {
        word_at(self.ram@, self.pc as int)
    }

    /// Construct a machine in its initial state: sprite table installed,
    /// program counter at the entry address, everything else zeroed.
    pub fn new() -> (e: Emu)
        ensures
            e.wf(),
            fresh(e),
    {
        let mut e = Emu {
            pc: START_ADDR,
            ram: [0; RAM_SIZE],
            screen: [false; SCREEN_SIZE],
            v_reg: [0; NUM_REGS],
            i_reg: 0,
            sp: 0,
            stack: [0; STACK_SIZE],
            keys: [false; NUM_KEYS],
            dt: 0,
            st: 0,
        };
        e.install_font();
        e
    }

    /// Reinitialize in place to exactly the construction-time state.
    pub fn reset(&mut self)
        ensures
            final(self).wf(),
            fresh(*final(self)),
    {
        self.pc = START_ADDR;
        self.ram = [0; RAM_SIZE];
        self.screen = [false; SCREEN_SIZE];
        self.v_reg = [0; NUM_REGS];
        self.i_reg = 0;
        self.sp = 0;
        self.stack = [0; STACK_SIZE];
        self.keys = [false; NUM_KEYS];
        self.dt = 0;
        self.st = 0;
        self.install_font();
    }

    /// Copy the sprite table into the bottom of RAM, leaving the rest of the
    /// machine alone.
    fn install_font(&mut self)
        ensures
            forall|i: int| 0 <= i < FONTSET_SIZE ==> final(self).ram@[i] == font()[i],
            forall|i: int|
                FONTSET_SIZE <= i < RAM_SIZE ==> final(self).ram@[i] == old(self).ram@[i],
            final(self).pc == old(self).pc,
            final(self).screen == old(self).screen,
            final(self).v_reg == old(self).v_reg,
            final(self).i_reg == old(self).i_reg,
            final(self).sp == old(self).sp,
            final(self).stack == old(self).stack,
            final(self).keys == old(self).keys,
            final(self).dt == old(self).dt,
            final(self).st == old(self).st,
    {
        let table: Vec<u8> = font_table();
        let mut i: usize = 0;
        while i < FONTSET_SIZE
            invariant
                0 <= i <= FONTSET_SIZE,
                table@ == font(),
                forall|j: int| 0 <= j < i ==> self.ram@[j] == font()[j],
                forall|j: int| i <= j < RAM_SIZE ==> self.ram@[j] == old(self).ram@[j],
                self.pc == old(self).pc,
                self.screen == old(self).screen,
                self.v_reg == old(self).v_reg,
                self.i_reg == old(self).i_reg,
                self.sp == old(self).sp,
                self.stack == old(self).stack,
                self.keys == old(self).keys,
                self.dt == old(self).dt,
                self.st == old(self).st,
            decreases FONTSET_SIZE - i,
        {
            self.ram[i] = table[i];
            i = i + 1;
        }
    }

    /// Push a return address; defined only while the stack has room.
    fn push(&mut self, val: u16)
        requires
            old(self).sp < STACK_SIZE,
        ensures
            final(self).sp == old(self).sp + 1,
            final(self).stack@ == old(self).stack@.update(old(self).sp as int, val),
            final(self).pc == old(self).pc,
            final(self).ram == old(self).ram,
            final(self).screen == old(self).screen,
            final(self).v_reg == old(self).v_reg,
            final(self).i_reg == old(self).i_reg,
            final(self).keys == old(self).keys,
            final(self).dt == old(self).dt,
            final(self).st == old(self).st,
    {
        self.stack[self.sp as usize] = val;
        self.sp = self.sp + 1;
    }

    /// Pop the most recent return address; defined only on a non-empty stack.
    fn pop(&mut self) -> (val: u16)
        requires
            1 <= old(self).sp <= STACK_SIZE,
        ensures
            val == old(self).stack@[old(self).sp - 1],
            final(self).sp == old(self).sp - 1,
            final(self).stack == old(self).stack,
            final(self).pc == old(self).pc,
            final(self).ram == old(self).ram,
            final(self).screen == old(self).screen,
            final(self).v_reg == old(self).v_reg,
            final(self).i_reg == old(self).i_reg,
            final(self).keys == old(self).keys,
            final(self).dt == old(self).dt,
            final(self).st == old(self).st,
    {
        self.sp = self.sp - 1;
        self.stack[self.sp as usize]
    }

    /// Read the two bytes at the program counter, advance it by 2, and
    /// assemble the instruction word with the first byte as the high byte.
    fn fetch(&mut self) -> (word: u16)
        requires
            old(self).pc + 1 < RAM_SIZE,
        ensures
            word == word_at(old(self).ram@, old(self).pc as int),
            final(self).pc == old(self).pc + 2,
            final(self).ram == old(self).ram,
            final(self).screen == old(self).screen,
            final(self).v_reg == old(self).v_reg,
            final(self).i_reg == old(self).i_reg,
            final(self).sp == old(self).sp,
            final(self).stack == old(self).stack,
            final(self).keys == old(self).keys,
            final(self).dt == old(self).dt,
            final(self).st == old(self).st,
    {
        let higher_byte: u16 = self.ram[self.pc as usize] as u16;
        let lower_byte: u16 = self.ram[(self.pc + 1) as usize] as u16;
        let word: u16 = (higher_byte << 8) | lower_byte;
        self.pc = self.pc + 2;
        word
    }

    /// Decode `op` and apply it. The precondition excludes the fatal cases:
    /// an unrecognised word, a return on an empty stack, a call on a full
    /// one, and a skip that would push the program counter past its range.
    fn execute(&mut self, op: u16)
        requires
            old(self).wf(),
            decode(op) is Some,
            decode(op) matches Some(Op::Return) ==> old(self).sp >= 1,
            decode(op) matches Some(Op::Call(_)) ==> old(self).sp < STACK_SIZE,
            old(self).pc + 2 <= u16::MAX,
        ensures
            final(self).wf(),
            step(*old(self), *final(self), old(self).pc, decode(op).unwrap()),
    {
        proof {
            lemma_decode_operands(op);
        }
        let decoded: Option<Op> = decode_word(op);
        match decoded {
            Option::Some(o) => match o {
                Op::Nop => {},
                Op::ClearScreen => {
                    self.screen = [false; SCREEN_SIZE];
                },
                Op::Return => {
                    let ret_addr: u16 = self.pop();
                    self.pc = ret_addr;
                },
                Op::Jump(nnn) => {
                    self.pc = nnn;
                },
                Op::Call(nnn) => {
                    let here: u16 = self.pc;
                    self.push(here);
                    self.pc = nnn;
                },
                Op::SkipEqImm(x, nn) => {
                    if self.v_reg[x as usize] == nn {
                        self.pc = self.pc + 2;
                    }
                },
                Op::SkipNeImm(x, nn) => {
                    if self.v_reg[x as usize] != nn {
                        self.pc = self.pc + 2;
                    }
                },
                Op::SkipEqReg(x, y) => {
                    if self.v_reg[x as usize] == self.v_reg[y as usize] {
                        self.pc = self.pc + 2;
                    }
                },
                Op::LoadImm(x, nn) => {
                    self.v_reg[x as usize] = nn;
                },
                Op::AddImm(x, nn) => {
                    let wide: u16 = self.v_reg[x as usize] as u16 + nn as u16;
                    self.v_reg[x as usize] = (wide % 256) as u8;
                },
                Op::Copy(x, y) => {
                    self.v_reg[x as usize] = self.v_reg[y as usize];
                },
                Op::Or(x, y) => {
                    self.v_reg[x as usize] = self.v_reg[x as usize] | self.v_reg[y as usize];
                },
                Op::And(x, y) => {
                    self.v_reg[x as usize] = self.v_reg[x as usize] & self.v_reg[y as usize];
                },
                Op::Xor(x, y) => {
                    self.v_reg[x as usize] = self.v_reg[x as usize] ^ self.v_reg[y as usize];
                },
                Op::AddCarry(x, y) => {
                    let wide: u16 = self.v_reg[x as usize] as u16 + self.v_reg[y as usize] as u16;
                    let new_vf: u8 = if wide > 255 {
                        1
                    } else {
                        0
                    };
                    self.v_reg[x as usize] = (wide % 256) as u8;
                    self.v_reg[15] = new_vf;
                },
            },
            Option::None => {},
        }
    }

    /// Fetch and execute exactly one instruction. The precondition excludes
    /// the fatal conditions, which [`Emu::try_tick`] instead reports.
    pub fn tick(&mut self)
        requires
            old(self).wf(),
            tickable(*old(self)),
        ensures
            final(self).wf(),
            tick_rel(*old(self), *final(self)),
    {
        let op: u16 = self.fetch();
        self.execute(op);
    }

    /// Fetch and execute one instruction if doing so is defined; otherwise
    /// leave the machine untouched and report which fatal condition was hit.
    pub fn try_tick(&mut self) -> (r: Result<(), EmuError>)
        requires
            old(self).wf(),
        ensures
            final(self).wf(),
            r is Ok <==> tickable(*old(self)),
            r is Ok ==> tick_rel(*old(self), *final(self)),
            r matches Err(e) ==> *final(self) == *old(self) && e == tick_failure(*old(self)),
    {
        if self.pc as usize + 1 >= RAM_SIZE {
            return Result::Err(EmuError::PcOutOfRange);
        }
        let higher_byte: u16 = self.ram[self.pc as usize] as u16;
        let lower_byte: u16 = self.ram[(self.pc + 1) as usize] as u16;
        let word: u16 = (higher_byte << 8) | lower_byte;
        match decode_word(word) {
            Option::None => Result::Err(EmuError::UnknownOpcode),
            Option::Some(o) => {
                if matches!(o, Op::Return) && self.sp == 0 {
                    return Result::Err(EmuError::StackUnderflow);
                }
                if matches!(o, Op::Call(_)) && self.sp as usize >= STACK_SIZE {
                    return Result::Err(EmuError::StackOverflow);
                }
                self.tick();
                Result::Ok(())
            },
        }
    }

    /// Decrement each timer that is above zero; both saturate at zero. When
    /// the sound timer is about to drop from 1 to 0 the external audio
    /// collaborator's tone ends (see [`signals_tone_end`]); that signal is a
    /// notification to the harness, not a state change here.
    pub fn tick_timers(&mut self)
        ensures
            timers_rel(*old(self), *final(self)),
    {
        if self.dt > 0 {
            self.dt = self.dt - 1;
        }
        if self.st > 0 {
            self.st = self.st - 1;
        }
    }
}

} // verus!
