//! Laws of the instruction set, proved from the definitions in
//! [`crate::state`].
use crate::instruction::{lemma_decode_is_well_formed, Instruction};
use crate::quirks::Quirks;
use crate::sprite::{
    blank_display, lemma_draw_keeps_pixels_binary, lemma_draw_twice_restores,
    lemma_second_draw_collides, switches_on,
};
use crate::state::State;
use vstd::prelude::*;

verus! {

/// A fresh machine is well-formed.
pub proof fn law_initial_is_well_formed(quirks: Quirks)
    ensures
        State::initial(quirks).wf(),
{
}

/// Loading a program keeps a machine well-formed and touches nothing but
/// memory from `0x200` on.
pub proof fn law_load_preserves_well_formedness(s: State, data: Seq<u8>)
    requires
        s.wf(),
    ensures
        s.load(data).wf(),
        forall|a: int| 0 <= a < 0x200 ==> s.load(data).memory[a] == s.memory[a],
{
}

/// No instruction that can be executed breaks well-formedness: the stack
/// depth stays within 0..=16 and every pixel stays 0 or 1.
pub proof fn law_execute_preserves_well_formedness(
    s: State,
    ins: Instruction,
    keys: Seq<u8>,
    random: u8,
)
    requires
        s.wf(),
        ins.wf(),
        s.can_execute(ins, keys),
    ensures
        s.execute(ins, keys, random).wf(),
{
    match ins {
        Instruction::Draw { x, y, n } => {
            lemma_draw_keeps_pixels_binary(
                s.display,
                s.sprite(n as int),
                s.v[x as int] as int,
                s.v[y as int] as int,
            );
        },
        _ => {},
    }
}

/// Where a cycle can run, the instruction can be executed once it is
/// fetched, whatever keys are down; and a cycle cannot run where the fetched
/// instruction could not be executed.
pub proof fn law_fetched_instruction_can_be_executed(s: State, keys: Seq<u8>)
    requires
        s.pc + 1 < 4096,
    ensures
        s.can_step() <==> s.fetch().can_execute(Instruction::decode_spec(s.opcode()), keys),
{
}

/// A cycle that can run keeps a machine well-formed.
pub proof fn law_step_preserves_well_formedness(s: State, keys: Seq<u8>, random: u8)
    requires
        s.wf(),
        s.can_step(),
    ensures
        s.step(keys, random).wf(),
{
    let ins = Instruction::decode_spec(s.opcode());
    lemma_decode_is_well_formed(s.opcode());
    law_fetched_instruction_can_be_executed(s, keys);
    law_execute_preserves_well_formedness(s.fetch(), ins, keys, random);
}

/// The quirks are fixed when a machine is built: no instruction, no program
/// load and no timer tick changes them.
pub proof fn law_quirks_are_fixed(
    s: State,
    ins: Instruction,
    keys: Seq<u8>,
    random: u8,
    data: Seq<u8>,
)
    ensures
        s.execute(ins, keys, random).quirks == s.quirks,
        s.step(keys, random).quirks == s.quirks,
        s.load(data).quirks == s.quirks,
        s.tick_timers().quirks == s.quirks,
{
}

/// Nothing but `00E0` and `Dxyn` writes to the display.
pub proof fn law_only_clear_and_draw_touch_display(
    s: State,
    ins: Instruction,
    keys: Seq<u8>,
    random: u8,
)
    requires
        !(ins is ClearScreen),
        !(ins is Draw),
    ensures
        s.execute(ins, keys, random).display == s.display,
{
}

/// Only a `Random` instruction depends on the random byte.
pub proof fn law_random_byte_matters_to_random_only(
    s: State,
    ins: Instruction,
    keys: Seq<u8>,
    r1: u8,
    r2: u8,
)
    requires
        !(ins is Random),
    ensures
        s.execute(ins, keys, r1) == s.execute(ins, keys, r2),
{
}

/// A timer tick never takes a timer below zero: a timer at zero stays at
/// zero, any other goes down by exactly one.
pub proof fn law_timers_stop_at_zero(s: State)
    ensures
        s.tick_timers().timer_delay == if s.timer_delay == 0 {
            0int
        } else {
            s.timer_delay - 1
        },
        s.tick_timers().timer_sound == if s.timer_sound == 0 {
            0int
        } else {
            s.timer_sound - 1
        },
{
}

/// `6xkk` followed by `7xkk'` leaves `(kk + kk') mod 256` in `Vx`, for
/// every register `x`.
pub proof fn law_load_then_add(
    s: State,
    x: u8,
    kk: u8,
    kk2: u8,
    keys: Seq<u8>,
    r1: u8,
    r2: u8,
)
    requires
        s.wf(),
        x < 16,
    ensures
        s.execute(Instruction::LoadImm { x, kk }, keys, r1).execute(
            Instruction::AddImm { x, kk: kk2 },
            keys,
            r2,
        ).v[x as int] == (kk + kk2) % 256,
{
}

/// `8xy4` leaves the sum modulo 256 in `Vx`, and sets `VF` to 1 if the
/// unsigned sum of the two operands exceeds 255 and to 0 if not.
///
/// The flag is written before `Vx`, so with `x == 0xF` it is the sum that
/// ends up in `VF`.
pub proof fn law_add_sets_carry(s: State, x: u8, y: u8, keys: Seq<u8>, random: u8)
    requires
        s.wf(),
        x < 16,
        y < 16,
    ensures
        ({
            let sum = s.v[x as int] + s.v[y as int];
            let after = s.execute(Instruction::AddReg { x, y }, keys, random);
            &&& after.v[x as int] == sum % 256
            &&& x != 0xF ==> after.v[0xF] <= 1 && (after.v[0xF] == 1 <==> sum > 255)
        }),
{
}

/// `2nnn` followed at once by `00EE` brings the program counter and the
/// stack depth back to what they were before the call, provided the stack
/// had room for the call.
pub proof fn law_call_then_return(s: State, nnn: u16, keys: Seq<u8>, r1: u8, r2: u8)
    requires
        s.wf(),
        nnn < 0x1000,
        s.sp < 16,
    ensures
        ({
            let called = s.execute(Instruction::Call { nnn }, keys, r1);
            let returned = called.execute(Instruction::Return, keys, r2);
            &&& called.pc == nnn
            &&& called.sp == s.sp + 1
            &&& called.stack[s.sp as int] == s.pc
            &&& returned.pc == s.pc
            &&& returned.sp == s.sp
        }),
{
}

/// A call on a full stack changes nothing: not the program counter, not the
/// stack, not the depth.
pub proof fn law_call_on_full_stack(s: State, nnn: u16, keys: Seq<u8>, random: u8)
    requires
        s.sp == 16,
    ensures
        s.execute(Instruction::Call { nnn }, keys, random) == s,
{
}

/// A return on an empty stack changes nothing.
pub proof fn law_return_on_empty_stack(s: State, keys: Seq<u8>, random: u8)
    requires
        s.sp == 0,
    ensures
        s.execute(Instruction::Return, keys, random) == s,
{
}

/// The state after calling the subroutines at `targets` one inside the
/// other, in order.
pub open spec fn nested_calls(s: State, targets: Seq<u16>) -> State
    decreases targets.len(),
{
    if targets.len() == 0 {
        s
    } else {
        nested_calls(s, targets.drop_last()).execute(
            Instruction::Call { nnn: targets.last() },
            Seq::empty(),
            0,
        )
    }
}

/// Nested calls deepen the stack by one each until it is full.
pub proof fn law_nested_calls_depth(s: State, targets: Seq<u16>)
    requires
        s.sp <= 16,
    ensures
        nested_calls(s, targets).sp == if s.sp + targets.len() <= 16 {
            s.sp + targets.len()
        } else {
            16
        },
    decreases targets.len(),
{
    if targets.len() > 0 {
        law_nested_calls_depth(s, targets.drop_last());
    }
}

/// After sixteen nested calls from an empty stack the stack is full, and a
/// seventeenth call leaves the whole machine as it is.
pub proof fn law_seventeenth_call_is_dropped(s: State, targets: Seq<u16>)
    requires
        s.sp == 0,
        targets.len() == 17,
    ensures
        nested_calls(s, targets.drop_last()).sp == 16,
        nested_calls(s, targets) == nested_calls(s, targets.drop_last()),
{
    law_nested_calls_depth(s, targets.drop_last());
}

/// Clearing the display after drawing any sprite leaves every pixel off.
pub proof fn law_clear_after_draw(
    s: State,
    x: u8,
    y: u8,
    n: u8,
    keys: Seq<u8>,
    r1: u8,
    r2: u8,
)
    requires
        s.wf(),
        x < 16,
        y < 16,
        n < 16,
    ensures
        ({
            let cleared = s.execute(Instruction::Draw { x, y, n }, keys, r1).execute(
                Instruction::ClearScreen,
                keys,
                r2,
            );
            &&& cleared.display == blank_display()
            &&& forall|p: int| 0 <= p < 2048 ==> cleared.display[p] == 0
        }),
{
}

/// Drawing the same sprite twice at the same position brings every pixel
/// back to its value before the first draw, and the second draw reports a
/// collision exactly when the first one switched a pixel on.
///
/// "The same position" asks that the first draw, which writes `VF`, leaves
/// `Vx` and `Vy` as they were; that is so whenever neither is `VF`.
pub proof fn law_draw_twice(s: State, x: u8, y: u8, n: u8, keys: Seq<u8>, r1: u8, r2: u8)
    requires
        s.wf(),
        x < 16,
        y < 16,
        n < 16,
        s.draw(x as int, y as int, n as int).v[x as int] == s.v[x as int],
        s.draw(x as int, y as int, n as int).v[y as int] == s.v[y as int],
    ensures
        ({
            let draw = Instruction::Draw { x, y, n };
            let once = s.execute(draw, keys, r1);
            let twice = once.execute(draw, keys, r2);
            let vx = s.v[x as int] as int;
            let vy = s.v[y as int] as int;
            &&& twice.display == s.display
            &&& twice.v[0xF] == 1 <==> exists|row: int, col: int|
                switches_on(s.display, s.sprite(n as int), vx, vy, row, col)
        }),
{
    let draw = Instruction::Draw { x, y, n };
    let once = s.execute(draw, keys, r1);
    let sprite = s.sprite(n as int);
    let vx = s.v[x as int] as int;
    let vy = s.v[y as int] as int;
    assert(once.sprite(n as int) =~= sprite);
    lemma_draw_twice_restores(s.display, sprite, vx, vy);
    lemma_second_draw_collides(s.display, sprite, vx, vy);
}

/// `8xy6` without the `shift_vy` quirk shifts `Vx` in place: `Vx` is
/// halved, `VF` gets the bit shifted out and `Vy` keeps its value.
///
/// `Vx` is written last and `VF` before it, so the statements on `Vx` and
/// `VF` leave out `x == 0xF`, and the one on `Vy` leaves out `y == x` and
/// `y == 0xF`.
pub proof fn law_shift_right_in_place(s: State, x: u8, y: u8, keys: Seq<u8>, random: u8)
    requires
        s.wf(),
        x < 16,
        y < 16,
        !s.quirks.shift_vy,
    ensures
        ({
            let after = s.execute(Instruction::ShiftRight { x, y }, keys, random);
            &&& x != 0xF ==> after.v[x as int] == s.v[x as int] / 2
            &&& x != 0xF ==> after.v[0xF] == s.v[x as int] % 2
            &&& y != x && y != 0xF ==> after.v[y as int] == s.v[y as int]
        }),
{
}

/// `8xy6` with the `shift_vy` quirk shifts `Vy` into `Vx`: `Vx` becomes
/// half of `Vy` and `VF` the bit shifted out of `Vy`, for `x` other than
/// `0xF`.
pub proof fn law_shift_right_from_vy(s: State, x: u8, y: u8, keys: Seq<u8>, random: u8)
    requires
        s.wf(),
        x < 16,
        y < 16,
        s.quirks.shift_vy,
    ensures
        ({
            let after = s.execute(Instruction::ShiftRight { x, y }, keys, random);
            &&& x != 0xF ==> after.v[x as int] == s.v[y as int] / 2
            &&& x != 0xF ==> after.v[0xF] == s.v[y as int] % 2
        }),
{
}

/// The two settings of the `shift_vy` quirk give different results for
/// `8xy6` on the same registers whenever half of `Vx` differs from half of
/// `Vy`.
pub proof fn law_shift_quirk_is_observable(s: State, x: u8, y: u8, keys: Seq<u8>, random: u8)
    requires
        s.wf(),
        x < 16,
        y < 16,
        x != 0xF,
        s.v[x as int] / 2 != s.v[y as int] / 2,
    ensures
        ({
            let shift = Instruction::ShiftRight { x, y };
            let in_place = State { quirks: Quirks { shift_vy: false }, ..s };
            let from_vy = State { quirks: Quirks { shift_vy: true }, ..s };
            in_place.execute(shift, keys, random).v[x as int] != from_vy.execute(
                shift,
                keys,
                random,
            ).v[x as int]
        }),
{
}

} // verus!
