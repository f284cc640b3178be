//! Laws of the model that relate several operations.

use crate::error::Chip8Error;
use crate::machine::{flag, lowest_new_key, newly_pressed, Machine};
use crate::opcode::{decode_spec, Instruction};
use crate::screen::{cell_lit, lemma_blit_twice_restores, lemma_second_blit_collides};
use vstd::prelude::*;

verus! {

/// A call followed at once by a return undoes itself: the program counter is
/// again where it was before the call, which is the address of the instruction
/// after the call, and the stack is what it was, so its depth too. Nothing else
/// has changed either.
///
/// The call needs room on the stack.
pub proof fn lemma_call_then_ret(s: Machine, adress: u16)
    requires
        s.wf(),
        s.stack.len() < 16,
    ensures
        s.call(adress) is Ok,
        s.call(adress)->Ok_0.ret() == Ok::<Machine, Chip8Error>(s),
{
    let called = s.call(adress)->Ok_0;
    assert(called.stack.drop_last() =~= s.stack);
    assert(called.ret()->Ok_0 =~= s);
}

/// The same for whole cycles: when the word at the program counter is a call
/// of `adress` and the word at `adress` is a return, two cycles leave the
/// program counter two past the call and the stack as it was.
pub proof fn lemma_call_cycle_then_ret_cycle(s: Machine, adress: u16, random: u8)
    requires
        s.wf(),
        s.awaiting_key is None,
        s.stack.len() < 16,
        s.pc + 1 < 4096,
        adress + 1 < 4096,
        s.ram[s.pc as int] * 0x100 + s.ram[s.pc + 1] == 0x2000 + adress,
        s.ram[adress as int] == 0x00,
        s.ram[adress + 1] == 0xEE,
    ensures
        s.run(random).1 is Ok,
        s.run(random).0.run(random).1 is Ok,
        s.run(random).0.run(random).0.pc == s.pc + 2,
        s.run(random).0.run(random).0.stack == s.stack,
{
    let fetched = s.fetch(s.pc)->Ok_0;
    assert(decode_spec(fetched.curr_opcode) == Some(Instruction::Call { addr: adress }));
    lemma_call_then_ret(fetched, adress);
    let called = s.run(random).0;
    assert(called == fetched.call(adress)->Ok_0);
    let landed = called.fetch(called.pc)->Ok_0;
    assert(landed.curr_opcode == 0x00EE);
    assert(decode_spec(landed.curr_opcode) == Some(Instruction::Ret));
    assert(landed.stack.drop_last() =~= s.stack);
}

/// Drawing the same sprite twice in the same place gives back the screen as
/// it was: the second drawing clears exactly the pixels that the first one
/// set, and sets again those that it cleared. The second drawing reports a
/// collision, `VF = 1`, exactly when the first one set a pixel, that is when
/// some set pixel of the sprite lay over a pixel that was off; on a screen
/// that was blank under the sprite this is so as soon as the sprite has a set
/// pixel.
///
/// The place is the same only if the drawing does not overwrite its own
/// coordinates: neither `x` nor `y` may be `0xF`.
pub proof fn lemma_draw_twice(s: Machine, x: u8, y: u8, n: u8)
    requires
        s.wf(),
        x < 0xF,
        y < 0xF,
        n < 16,
        s.i_register + n <= 4096,
    ensures
        s.drw_vx_vy(x, y, n) is Ok,
        s.drw_vx_vy(x, y, n)->Ok_0.drw_vx_vy(x, y, n) is Ok,
        s.drw_vx_vy(x, y, n)->Ok_0.drw_vx_vy(x, y, n)->Ok_0.screen == s.screen,
        s.drw_vx_vy(x, y, n)->Ok_0.drw_vx_vy(x, y, n)->Ok_0.v(0xF) == flag(
            exists|k: int|
                0 <= k < 2048 && !s.screen[k] && #[trigger] cell_lit(s.v(x), s.v(y), s.sprite(n), k),
        ),
{
    let once = s.drw_vx_vy(x, y, n)->Ok_0;
    assert(once.v(x) == s.v(x) && once.v(y) == s.v(y));
    assert(once.sprite(n) == s.sprite(n));
    lemma_blit_twice_restores(s.screen, s.v(x), s.v(y), s.sprite(n));
    lemma_second_blit_collides(s.screen, s.v(x), s.v(y), s.sprite(n));
}

/// A clear leaves every pixel off, whatever was drawn before it.
pub proof fn lemma_cls_blanks(s: Machine, col: int, row: int)
    requires
        0 <= col < 64,
        0 <= row < 32,
    ensures
        !s.cls().pixel(col, row),
{
}

/// Only a random draw makes a cycle depend on the random byte: where the next
/// cycle makes none, any two bytes give the same outcome.
pub proof fn lemma_random_only_matters_when_drawn(s: Machine, a: u8, b: u8)
    requires
        !s.next_draws_random(),
    ensures
        s.run(a) == s.run(b),
{
}

/// The key that ends a wait is the lowest one that went down: it is down now
/// and was up before, and no key below it is. Where no key went down, no key
/// ends the wait.
pub proof fn lemma_lowest_new_key(before: Seq<bool>, now: Seq<bool>, from: int)
    requires
        0 <= from <= 16,
    ensures
        match lowest_new_key(before, now, from) {
            Some(k) => from <= k < 16 && newly_pressed(before, now, k as int) && forall|j: int|
                from <= j < k ==> !newly_pressed(before, now, j),
            None => forall|j: int| from <= j < 16 ==> !newly_pressed(before, now, j),
        },
    decreases 16 - from,
{
    if from < 16 && !newly_pressed(before, now, from) {
        lemma_lowest_new_key(before, now, from + 1);
    }
}

} // verus!
