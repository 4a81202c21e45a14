//! What holds of every machine, proved of the cycle as `machine` defines it.

use crate::machine::{
    is_instruction, sprite_cell, wrap16, wrap8, Machine, StepError, DISPLAY_SIZE, MEMORY_SIZE,
};
use vstd::prelude::*;

verus! {

/// Only the instruction Cxkk looks at the random byte: a cycle that runs
/// any other instruction, or none, comes out the same whatever the byte is.
pub proof fn lemma_step_without_random(machine: Machine, random: u8, other: u8)
    requires
        !machine.draws_random(),
    ensures
        machine.step(random) == machine.step(other),
{
    reveal(Machine::execute);
}

/// A cycle fails on an unknown opcode exactly when the instruction can be
/// fetched and its four nibbles are none of the machine's instructions; the
/// error then names the nibbles and the program counter.
pub proof fn lemma_unknown_opcode(machine: Machine, random: u8)
    ensures
        ({
            let n1 = machine.n1();
            let n2 = machine.n2();
            let n3 = machine.n3();
            let n4 = machine.n4();
            if machine.can_fetch() && !is_instruction(n1, n2, n3, n4) {
                machine.step(random) == Err::<Machine, StepError>(
                    StepError::UnknownOpcode {
                        n1,
                        n2,
                        n3,
                        n4,
                        program_counter: machine.program_counter,
                    },
                )
            } else {
                !(machine.step(random) is Err && machine.step(random)->Err_0 is UnknownOpcode)
            }
        }),
{
    reveal(Machine::execute);
}

/// After a cycle that runs 00E0 every byte of the display is zero and the
/// program counter is two further on.
pub proof fn lemma_clear_display(machine: Machine, random: u8)
    requires
        machine.can_fetch(),
        machine.first_byte() == 0x00,
        machine.second_byte() == 0xE0,
    ensures
        machine.step(random) matches Ok(next) && next.program_counter == machine.program_counter
            + 2 && next.display.len() == DISPLAY_SIZE && forall|c: int|
            0 <= c < DISPLAY_SIZE ==> next.display[c] == 0,
{
    reveal(Machine::execute);
}

/// After a cycle that runs 1nnn the program counter is nnn, wherever it was.
pub proof fn lemma_jump(machine: Machine, random: u8)
    requires
        machine.can_fetch(),
        machine.n1() == 1,
    ensures
        machine.step(random) matches Ok(next) && next.program_counter == machine.nnn(),
{
    reveal(Machine::execute);
}

/// After a cycle that runs 2nnn with a stack slot free for it, the program
/// counter is nnn, the stack pointer is one higher, or 0 where it was 255,
/// the slot that it names holds the address of the call, and memory is as
/// it was.
pub proof fn lemma_call(machine: Machine, random: u8)
    requires
        machine.wf(),
        machine.can_fetch(),
        machine.n1() == 2,
        wrap8(machine.stack_pointer + 1) < 16,
    ensures
        machine.step(random) matches Ok(next) && {
            &&& next.wf()
            &&& next.program_counter == machine.nnn()
            &&& next.stack_pointer == wrap8(machine.stack_pointer + 1)
            &&& next.stack[next.stack_pointer as int] == machine.program_counter
            &&& next.memory == machine.memory
        },
{
    reveal(Machine::execute);
}

/// A call and the return that follows it undo each other: where 2nnn runs,
/// a stack slot is free for it and 00EE stands at nnn, the two cycles leave
/// the program counter two past the call and the stack pointer where it was.
pub proof fn lemma_call_then_return(machine: Machine, random_1: u8, random_2: u8)
    requires
        machine.wf(),
        machine.can_fetch(),
        machine.n1() == 2,
        wrap8(machine.stack_pointer + 1) < 16,
        ({
            let target = machine.nnn();
            target + 1 < MEMORY_SIZE && machine.memory[target as int] == 0x00
                && machine.memory[target + 1] == 0xEE
        }),
    ensures
        machine.step(random_1) matches Ok(called) && {
            &&& called.program_counter == machine.nnn()
            &&& called.stack_pointer == wrap8(machine.stack_pointer + 1)
            &&& called.step(random_2) matches Ok(returned)
            &&& returned.program_counter == machine.program_counter + 2
            &&& returned.stack_pointer == machine.stack_pointer
        },
{
    lemma_call(machine, random_1);
    lemma_return(machine.step(random_1)->Ok_0, random_2);
}

/// After a cycle that runs 00EE with the stack pointer below 16, the program
/// counter is two past the address in the slot that the pointer named, and
/// the pointer is one lower, or 255 where it was 0.
pub proof fn lemma_return(machine: Machine, random: u8)
    requires
        machine.can_fetch(),
        machine.first_byte() == 0x00,
        machine.second_byte() == 0xEE,
        machine.stack_pointer < 16,
    ensures
        machine.step(random) matches Ok(next) && {
            &&& next.program_counter == wrap16(machine.stack[machine.stack_pointer as int] + 2)
            &&& next.stack_pointer == if machine.stack_pointer == 0 {
                255
            } else {
                machine.stack_pointer - 1
            }
        },
{
    reveal(Machine::execute);
}

/// A cycle that runs 3xkk, 4xkk, 5xy0 or 9xy0 moves the program counter on
/// by four where the instruction's condition holds and by two where it does
/// not.
pub proof fn lemma_skip(machine: Machine, random: u8)
    requires
        machine.can_fetch(),
        ({
            let n1 = machine.n1();
            let n4 = machine.n4();
            n1 == 3 || n1 == 4 || (n1 == 5 && n4 == 0) || (n1 == 9 && n4 == 0)
        }),
    ensures
        ({
            let n1 = machine.n1();
            let vx = machine.v(machine.n2());
            let vy = machine.v(machine.n3());
            let kk = machine.second_byte();
            let holds = if n1 == 3 {
                vx == kk
            } else if n1 == 4 {
                vx != kk
            } else if n1 == 5 {
                vx == vy
            } else {
                vx != vy
            };
            machine.step(random) matches Ok(next) && next.program_counter
                == machine.program_counter + if holds {
                4int
            } else {
                2int
            }
        }),
{
    reveal(Machine::execute);
}

/// The sum that 8xy4 leaves in Vx, for x below 15, and the carry it leaves
/// in VF.
proof fn lemma_op_8xy4(machine: Machine, x: u8, y: u8)
    requires
        machine.wf(),
        x < 15,
        y < 16,
    ensures
        machine.op_8xy4(x, y).v(x) == (if machine.v(x) + machine.v(y) > 255 {
            machine.v(x) + machine.v(y) - 256
        } else {
            machine.v(x) + machine.v(y)
        }),
        machine.op_8xy4(x, y).v(15) == (if machine.v(x) + machine.v(y) > 255 {
            1int
        } else {
            0int
        }),
{
}

/// A cycle that runs 8xy4 with x below 15 leaves in Vx the sum of Vx and Vy
/// less 256 if it reached 256, and in VF whether it did.
pub proof fn lemma_add_with_carry(machine: Machine, random: u8)
    requires
        machine.wf(),
        machine.can_fetch(),
        machine.n1() == 8,
        machine.n4() == 4,
        machine.n2() != 15,
    ensures
        ({
            let x = machine.n2();
            let y = machine.n3();
            let sum = machine.v(x) + machine.v(y);
            machine.step(random) matches Ok(next) && next.v(x) == (if sum > 255 {
                sum - 256
            } else {
                sum
            }) && next.v(15) == (if sum > 255 {
                1int
            } else {
                0int
            })
        }),
{
    reveal(Machine::execute);
    let x = machine.n2();
    let y = machine.n3();
    lemma_op_8xy4(machine, x, y);
    assert(machine.step(random) == Ok::<Machine, StepError>(machine.op_8xy4(x, y).ticked()));
}

/// Drawing lines of a sprite changes the display and the canvas and nothing
/// else, and the display keeps its size.
pub proof fn lemma_draw_rows_frame(machine: Machine, px: u8, py: u8, rows: nat)
    requires
        machine.wf(),
    ensures
        machine.draw_rows(px, py, rows).wf(),
        machine.draw_rows(px, py, rows) == (Machine {
            display: machine.draw_rows(px, py, rows).display,
            canvas: machine.draw_rows(px, py, rows).canvas,
            ..machine
        }),
    decreases rows,
{
    if rows > 0 {
        lemma_draw_rows_frame(machine, px, py, (rows - 1) as nat);
    }
}

/// A cycle that succeeds lowers each timer by one, or leaves it at zero,
/// unless the instruction is the one that sets that timer: Fx15 for the
/// delay timer, Fx18 for the sound timer.
pub proof fn lemma_timers_decay(machine: Machine, random: u8)
    requires
        machine.wf(),
        machine.step(random) is Ok,
    ensures
        !machine.sets_delay() ==> machine.step(random)->Ok_0.delay == if machine.delay > 0 {
            machine.delay - 1
        } else {
            0
        },
        !machine.sets_sound() ==> machine.step(random)->Ok_0.sound == if machine.sound > 0 {
            machine.sound - 1
        } else {
            0
        },
{
    reveal(Machine::execute);
    let n1 = machine.n1();
    let n2 = machine.n2();
    let n3 = machine.n3();
    let n4 = machine.n4();
    if n1 == 0xD {
        lemma_draw_rows_frame(machine, machine.v(n2), machine.v(n3), n4 as nat);
    }
}

/// A cycle leaves the parts of the machine at their sizes.
pub proof fn lemma_step_keeps_sizes(machine: Machine, random: u8)
    requires
        machine.wf(),
        machine.step(random) is Ok,
    ensures
        machine.step(random)->Ok_0.wf(),
{
    reveal(Machine::execute);
    let n1 = machine.n1();
    let n2 = machine.n2();
    let n3 = machine.n3();
    let n4 = machine.n4();
    if n1 == 0xD {
        lemma_draw_rows_frame(machine, machine.v(n2), machine.v(n3), n4 as nat);
    }
}

/// Two lines of a sprite, fewer than 32 apart, land on different bytes of
/// the display.
pub proof fn lemma_sprite_cells_differ(px: u8, py: u8, row_1: int, row_2: int)
    requires
        0 <= row_1 < row_2 < 32,
    ensures
        sprite_cell(px, py, row_1) != sprite_cell(px, py, row_2),
{
    let r1 = row_1 as u8;
    let r2 = row_2 as u8;
    assert(r1 < r2 && r2 < 32 ==> (px / 8 + (((py + r1) % 0x100) * 8) % 0x100) % 0x100 != (px / 8 + (
    ((py + r2) % 0x100) * 8) % 0x100) % 0x100) by (bit_vector);
}

/// After the first `rows` lines of a sprite have been drawn, the byte that
/// line `row` landed on holds what it held before XOR the line, and a byte
/// that no line landed on holds what it held before.
pub proof fn lemma_drawn_display(machine: Machine, px: u8, py: u8, rows: nat)
    requires
        machine.wf(),
        rows <= 32,
    ensures
        machine.draw_rows(px, py, rows).display.len() == DISPLAY_SIZE,
        forall|row: int|
            0 <= row < rows ==> #[trigger] machine.draw_rows(px, py, rows).display[sprite_cell(
                px,
                py,
                row,
            )] == machine.display[sprite_cell(px, py, row)] ^ machine.sprite_line(row),
        forall|cell: int|
            0 <= cell < DISPLAY_SIZE && (forall|row: int|
                0 <= row < rows ==> #[trigger] sprite_cell(px, py, row) != cell)
                ==> #[trigger] machine.draw_rows(px, py, rows).display[cell]
                == machine.display[cell],
    decreases rows,
{
    if rows > 0 {
        let last = rows - 1;
        let before = machine.draw_rows(px, py, last as nat);
        let after = machine.draw_rows(px, py, rows);
        lemma_drawn_display(machine, px, py, last as nat);
        lemma_draw_rows_frame(machine, px, py, last as nat);
        assert forall|row: int| 0 <= row < last implies sprite_cell(px, py, row) != sprite_cell(
            px,
            py,
            last,
        ) by {
            lemma_sprite_cells_differ(px, py, row, last);
        }
        assert(before.display[sprite_cell(px, py, last)] == machine.display[sprite_cell(
            px,
            py,
            last,
        )]);
        assert forall|row: int| 0 <= row < rows implies #[trigger] after.display[sprite_cell(
            px,
            py,
            row,
        )] == machine.display[sprite_cell(px, py, row)] ^ machine.sprite_line(row) by {
            if row < last {
                lemma_sprite_cells_differ(px, py, row, last);
            }
        }
        assert forall|cell: int|
            0 <= cell < DISPLAY_SIZE && (forall|row: int|
                0 <= row < rows ==> #[trigger] sprite_cell(px, py, row) != cell)
                implies #[trigger] after.display[cell] == machine.display[cell] by {
            assert(sprite_cell(px, py, last) != cell);
            assert forall|row: int| 0 <= row < last implies #[trigger] sprite_cell(px, py, row)
                != cell by {}
        }
    }
}

/// Drawing a sprite clears a pixel exactly when one of its lines has a bit
/// in common with the display byte that it lands on.
pub proof fn lemma_erases(machine: Machine, px: u8, py: u8, rows: nat)
    requires
        machine.wf(),
        rows <= 32,
    ensures
        machine.erases(px, py, rows) <==> exists|row: int|
            0 <= row < rows && #[trigger] machine.row_erases(px, py, row),
    decreases rows,
{
    if rows > 0 {
        let last = rows - 1;
        let before = machine.draw_rows(px, py, last as nat);
        lemma_erases(machine, px, py, last as nat);
        lemma_drawn_display(machine, px, py, last as nat);
        lemma_draw_rows_frame(machine, px, py, last as nat);
        assert forall|row: int| 0 <= row < last implies #[trigger] sprite_cell(px, py, row)
            != sprite_cell(px, py, last) by {
            lemma_sprite_cells_differ(px, py, row, last);
        }
        assert(before.display[sprite_cell(px, py, last)] == machine.display[sprite_cell(
            px,
            py,
            last,
        )]);
        assert(before.row_erases(px, py, last) == machine.row_erases(px, py, last));
        if machine.erases(px, py, rows) {
            if machine.erases(px, py, last as nat) {
                let row = choose|row: int|
                    0 <= row < last && #[trigger] machine.row_erases(px, py, row);
                assert(0 <= row < rows && machine.row_erases(px, py, row));
            } else {
                assert(0 <= last < rows && machine.row_erases(px, py, last));
            }
        }
        if exists|row: int| 0 <= row < rows && #[trigger] machine.row_erases(px, py, row) {
            let row = choose|row: int|
                0 <= row < rows && #[trigger] machine.row_erases(px, py, row);
            if row < last {
                assert(0 <= row < last && machine.row_erases(px, py, row));
            }
        }
    }
}

/// Drawing is its own inverse: where `once` has the display that drawing a
/// sprite left, and the sprite that `machine` had, drawing the sprite at the
/// same place on `once` gives the display that `machine` had.
pub proof fn lemma_draw_over(machine: Machine, once: Machine, px: u8, py: u8, rows: nat)
    requires
        machine.wf(),
        once.wf(),
        rows <= 32,
        once.display == machine.draw_rows(px, py, rows).display,
        once.memory == machine.memory,
        once.i == machine.i,
    ensures
        once.draw_rows(px, py, rows).display == machine.display,
{
    let twice = once.draw_rows(px, py, rows);
    lemma_drawn_display(machine, px, py, rows);
    lemma_drawn_display(once, px, py, rows);
    assert forall|cell: int| 0 <= cell < DISPLAY_SIZE implies twice.display[cell]
        == machine.display[cell] by {
        if exists|row: int| 0 <= row < rows && sprite_cell(px, py, row) == cell {
            let row = choose|row: int| 0 <= row < rows && sprite_cell(px, py, row) == cell;
            let byte = machine.display[cell];
            let line = machine.sprite_line(row);
            assert(once.sprite_line(row) == line);
            assert(once.display[sprite_cell(px, py, row)] == byte ^ line);
            assert(twice.display[sprite_cell(px, py, row)] == (byte ^ line) ^ line);
            assert((byte ^ line) ^ line == byte) by (bit_vector);
        } else {
            assert forall|row: int| 0 <= row < rows implies #[trigger] sprite_cell(px, py, row)
                != cell by {}
        }
    }
    assert(twice.display =~= machine.display);
}

/// A sprite drawn twice at one place leaves the display as it was before
/// the first time.
pub proof fn lemma_draw_twice(machine: Machine, px: u8, py: u8, rows: nat)
    requires
        machine.wf(),
        rows <= 32,
    ensures
        machine.draw_rows(px, py, rows).draw_rows(px, py, rows).display == machine.display,
{
    lemma_draw_rows_frame(machine, px, py, rows);
    lemma_draw_over(machine, machine.draw_rows(px, py, rows), px, py, rows);
}

/// Where the display was blank and the sprite has a line that is not,
/// drawing the sprite a second time at the same place clears pixels: it is
/// reported as erasing.
pub proof fn lemma_second_draw_erases(
    machine: Machine,
    once: Machine,
    px: u8,
    py: u8,
    rows: nat,
)
    requires
        machine.wf(),
        once.wf(),
        rows <= 32,
        once.display == machine.draw_rows(px, py, rows).display,
        once.memory == machine.memory,
        once.i == machine.i,
        forall|cell: int| 0 <= cell < DISPLAY_SIZE ==> machine.display[cell] == 0,
        exists|row: int| 0 <= row < rows && #[trigger] machine.sprite_line(row) != 0,
    ensures
        once.erases(px, py, rows),
{
    let row = choose|row: int| 0 <= row < rows && #[trigger] machine.sprite_line(row) != 0;
    let line = machine.sprite_line(row);
    lemma_drawn_display(machine, px, py, rows);
    assert(once.sprite_line(row) == line);
    assert(once.display[sprite_cell(px, py, row)] == 0u8 ^ line);
    assert(line != 0 ==> ((0u8 ^ line) & line) != 0) by (bit_vector);
    assert(once.row_erases(px, py, row));
    lemma_erases(once, px, py, rows);
}

/// What a cycle that runs Dxyn leaves: the display after the drawing, the
/// flag in VF, the program counter two further on, and the memory, the
/// address register and the other registers as they were.
proof fn lemma_draw_cycle(machine: Machine, random: u8)
    requires
        machine.wf(),
        machine.can_fetch(),
        machine.n1() == 0xD,
        machine.i + machine.n4() <= MEMORY_SIZE,
    ensures
        machine.step(random) is Ok,
        ({
            let px = machine.v(machine.n2());
            let py = machine.v(machine.n3());
            let n = machine.n4() as nat;
            let next = machine.step(random)->Ok_0;
            &&& next.wf()
            &&& next.display == machine.draw_rows(px, py, n).display
            &&& next.memory == machine.memory
            &&& next.i == machine.i
            &&& next.program_counter == machine.program_counter + 2
            &&& next.v(15) == if machine.erases(px, py, n) {
                1u8
            } else {
                0u8
            }
            &&& forall|x: u8| x < 15 ==> next.v(x) == machine.v(x)
        }),
{
    reveal(Machine::execute);
    let px = machine.v(machine.n2());
    let py = machine.v(machine.n3());
    let n = machine.n4() as nat;
    lemma_draw_rows_frame(machine, px, py, n);
}

/// Two cycles that run the same Dxyn one after the other, with x and y
/// below 15 and the sprite within memory, leave the display as it was; and
/// where the display was blank and the sprite has a line that is not, they
/// leave 1 in VF.
pub proof fn lemma_draw_cycle_twice(machine: Machine, random_1: u8, random_2: u8)
    requires
        machine.wf(),
        machine.program_counter + 3 < MEMORY_SIZE,
        machine.n1() == 0xD,
        machine.n2() != 15,
        machine.n3() != 15,
        machine.memory[machine.program_counter + 2] == machine.first_byte(),
        machine.memory[machine.program_counter + 3] == machine.second_byte(),
        machine.i + machine.n4() <= MEMORY_SIZE,
    ensures
        machine.step(random_1) is Ok,
        machine.step(random_1)->Ok_0.step(random_2) is Ok,
        machine.step(random_1)->Ok_0.step(random_2)->Ok_0.display == machine.display,
        (forall|cell: int| 0 <= cell < DISPLAY_SIZE ==> machine.display[cell] == 0) && (exists|
            row: int,
        |
            0 <= row < machine.n4() && #[trigger] machine.sprite_line(row)
                != 0) ==> machine.step(random_1)->Ok_0.step(random_2)->Ok_0.v(15) == 1,
{
    let x = machine.n2();
    let y = machine.n3();
    let n = machine.n4() as nat;
    let px = machine.v(x);
    let py = machine.v(y);
    lemma_draw_cycle(machine, random_1);
    let once = machine.step(random_1)->Ok_0;
    assert(once.first_byte() == machine.first_byte());
    assert(once.second_byte() == machine.second_byte());
    assert(once.v(x) == px && once.v(y) == py);
    lemma_draw_cycle(once, random_2);
    lemma_draw_over(machine, once, px, py, n);
    if (forall|cell: int| 0 <= cell < DISPLAY_SIZE ==> machine.display[cell] == 0) && (exists|
        row: int,
    | 0 <= row < n && #[trigger] machine.sprite_line(row) != 0) {
        lemma_second_draw_erases(machine, once, px, py, n);
    }
}

/// A run leaves the parts of the machine at their sizes.
pub proof fn lemma_run_keeps_sizes(machine: Machine, randoms: Seq<u8>)
    requires
        machine.wf(),
        machine.run(randoms) is Ok,
    ensures
        machine.run(randoms)->Ok_0.wf(),
    decreases randoms.len(),
{
    if randoms.len() > 0 {
        lemma_run_keeps_sizes(machine, randoms.drop_last());
        lemma_step_keeps_sizes(machine.run(randoms.drop_last())->Ok_0, randoms.last());
    }
}

/// A run that succeeded got through each of its cycles: every shorter run
/// with the same bytes succeeded too.
pub proof fn lemma_run_prefix(machine: Machine, randoms: Seq<u8>, cycles: int)
    requires
        machine.run(randoms) is Ok,
        0 <= cycles <= randoms.len(),
    ensures
        machine.run(randoms.take(cycles)) is Ok,
    decreases randoms.len(),
{
    if cycles == randoms.len() {
        assert(randoms.take(cycles) =~= randoms);
    } else {
        assert(randoms.drop_last().take(cycles) =~= randoms.take(cycles));
        lemma_run_prefix(machine, randoms.drop_last(), cycles);
    }
}

/// Over a run in which no cycle sets a timer, the timer goes down by one a
/// cycle until it is zero, and then stays zero however many cycles follow.
pub proof fn lemma_timers_run_down(machine: Machine, randoms: Seq<u8>)
    requires
        machine.wf(),
        machine.run(randoms) is Ok,
    ensures
        (forall|cycles: int|
            0 <= cycles < randoms.len() ==> !(#[trigger] machine.run(
                randoms.take(cycles),
            ))->Ok_0.sets_delay()) ==> machine.run(randoms)->Ok_0.delay == if machine.delay
            > randoms.len() {
            machine.delay - randoms.len()
        } else {
            0
        },
        (forall|cycles: int|
            0 <= cycles < randoms.len() ==> !(#[trigger] machine.run(
                randoms.take(cycles),
            ))->Ok_0.sets_sound()) ==> machine.run(randoms)->Ok_0.sound == if machine.sound
            > randoms.len() {
            machine.sound - randoms.len()
        } else {
            0
        },
    decreases randoms.len(),
{
    if randoms.len() > 0 {
        let shorter = randoms.drop_last();
        let before = machine.run(shorter)->Ok_0;
        assert(shorter =~= randoms.take(randoms.len() - 1));
        assert forall|cycles: int| 0 <= cycles < shorter.len() implies #[trigger] shorter.take(
            cycles,
        ) == randoms.take(cycles) by {
            assert(shorter.take(cycles) =~= randoms.take(cycles));
        }
        lemma_timers_run_down(machine, shorter);
        lemma_run_keeps_sizes(machine, shorter);
        lemma_timers_decay(before, randoms.last());
        if forall|cycles: int|
            0 <= cycles < randoms.len() ==> !(#[trigger] machine.run(
                randoms.take(cycles),
            ))->Ok_0.sets_delay() {
            assert(!machine.run(randoms.take(randoms.len() - 1))->Ok_0.sets_delay());
            assert forall|cycles: int| 0 <= cycles < shorter.len() implies !(
            #[trigger] machine.run(shorter.take(cycles)))->Ok_0.sets_delay() by {
                assert(shorter.take(cycles) == randoms.take(cycles));
                assert(!machine.run(randoms.take(cycles))->Ok_0.sets_delay());
            }
        }
        if forall|cycles: int|
            0 <= cycles < randoms.len() ==> !(#[trigger] machine.run(
                randoms.take(cycles),
            ))->Ok_0.sets_sound() {
            assert(!machine.run(randoms.take(randoms.len() - 1))->Ok_0.sets_sound());
            assert forall|cycles: int| 0 <= cycles < shorter.len() implies !(
            #[trigger] machine.run(shorter.take(cycles)))->Ok_0.sets_sound() by {
                assert(shorter.take(cycles) == randoms.take(cycles));
                assert(!machine.run(randoms.take(cycles))->Ok_0.sets_sound());
            }
        }
    }
}

} // verus!
