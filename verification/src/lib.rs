//! Interpreter core for an 8-bit virtual machine with a 16-bit instruction
//! encoding, a 4096-byte RAM, sixteen 8-bit registers, a bounded call stack,
//! a monochrome framebuffer and two countdown timers.

mod decode;
mod laws;
mod machine;

pub use decode::decode;
pub use decode::decode_word;
pub use decode::Op;
pub use laws::lemma_add_carry;
pub use laws::lemma_call_then_return;
pub use laws::lemma_clear_screen;
pub use laws::lemma_load_imm;
pub use laws::lemma_skip_advance;
pub use laws::lemma_timer_tick;
pub use machine::Emu;
pub use machine::EmuError;
pub use machine::FONTSET_SIZE;
pub use machine::NUM_KEYS;
pub use machine::NUM_REGS;
pub use machine::RAM_SIZE;
pub use machine::SCREEN_HEIGHT;
pub use machine::SCREEN_SIZE;
pub use machine::SCREEN_WIDTH;
pub use machine::STACK_SIZE;
pub use machine::START_ADDR;
