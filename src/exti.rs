//! Routing of a pin's edge to an interrupt vector, and the handler that
//! acknowledges it.

use vstd::prelude::*;
use crate::gpio::{Gpio, GpioBank, pin_level};

verus! {

/// Number of vectors the interrupt controller can hold.
pub const NVIC_LINES: usize = 240;

/// The external-interrupt line of the button.
pub const BUTTON_LINE: u8 = 13;

/// The four source-selector registers of the system configuration block;
/// each holds a four-bit port code for four lines.
#[derive(Clone, Copy, PartialEq, Eq, Structural, Debug)]
pub struct Syscfg {
    pub exticr1: u32,
    pub exticr2: u32,
    pub exticr3: u32,
    pub exticr4: u32,
}

/// The registers of the external-interrupt controller for lines 0 to 31.
///
/// A pending bit is cleared by writing 1 to it.
#[derive(Clone, Copy, PartialEq, Eq, Structural, Debug)]
pub struct Exti {
    pub imr1: u32,
    pub rtsr1: u32,
    pub ftsr1: u32,
    pub pr1: u32,
}

/// Enable flag and priority of each vector of the interrupt controller.
pub struct Nvic {
    pub enabled: Vec<bool>,
    pub priority: Vec<u8>,
}

impl Nvic {
    pub open spec fn wf(&self) -> bool {
        &&& self.enabled@.len() == NVIC_LINES
        &&& self.priority@.len() == NVIC_LINES
    }

    /// A controller with every vector disabled and at priority 0.
    pub fn new() -> (r: Nvic)
        ensures
            r.wf(),
            forall|i: int| 0 <= i < NVIC_LINES ==> !#[trigger] r.enabled@[i] && r.priority@[i] == 0,
    {
        let mut enabled: Vec<bool> = Vec::new();
        let mut priority: Vec<u8> = Vec::new();
        let mut i: usize = 0;
        while i < NVIC_LINES
            invariant
                i <= NVIC_LINES,
                enabled@.len() == i,
                priority@.len() == i,
                forall|k: int| 0 <= k < i ==> !#[trigger] enabled@[k] && priority@[k] == 0,
            decreases NVIC_LINES - i,
        {
            enabled.push(false);
            priority.push(0);
            i = i + 1;
        }
        Nvic { enabled, priority }
    }
}

/// Code of a port in the source selector.
pub open spec fn spec_source_code(bank: GpioBank) -> u32 {
    match bank {
        GpioBank::A => 0,
        GpioBank::B => 1,
        GpioBank::C => 2,
        GpioBank::D => 3,
        GpioBank::E => 4,
    }
}

pub fn source_code(bank: GpioBank) -> (r: u32)
    ensures
        r == spec_source_code(bank),
{
    match bank {
        GpioBank::A => 0,
        GpioBank::B => 1,
        GpioBank::C => 2,
        GpioBank::D => 3,
        GpioBank::E => 4,
    }
}

/// The vector that external-interrupt line `line` (below 16) raises.
pub open spec fn spec_line_vector(line: u32) -> nat {
    if line == 0 {
        6
    } else if line == 1 {
        7
    } else if line == 2 {
        8
    } else if line == 3 {
        9
    } else if line == 4 {
        10
    } else if line < 10 {
        23
    } else {
        40
    }
}

pub fn line_vector(line: u8) -> (r: usize)
    ensures
        r == spec_line_vector(line as u32),
{
    if line == 0 {
        6
    } else if line == 1 {
        7
    } else if line == 2 {
        8
    } else if line == 3 {
        9
    } else if line == 4 {
        10
    } else if line < 10 {
        23
    } else {
        40
    }
}

/// The four-bit field at `sh` of a register.
pub open spec fn field4(reg: u32, sh: u32) -> u32 {
    (reg >> sh) & 0xfu32
}

/// A register with the four-bit field at `sh` replaced by `code`.
pub open spec fn with_field4(reg: u32, sh: u32, code: u32) -> u32 {
    (reg & !(0xfu32 << sh)) | (code << sh)
}

/// A register with bit `bit` set.
pub open spec fn set_bit(reg: u32, bit: u32) -> u32 {
    reg | (1u32 << bit)
}

/// A register with bit `bit` cleared.
pub open spec fn clear_bit(reg: u32, bit: u32) -> u32 {
    reg & !(1u32 << bit)
}

/// Position of the source field of `line` within its selector register.
pub open spec fn source_shift(line: u32) -> u32 {
    (4 * (line % 4)) as u32
}

/// The selector register that holds the source field of `line`.
pub open spec fn selector_of(s: Syscfg, line: u32) -> u32 {
    if line / 4 == 0 {
        s.exticr1
    } else if line / 4 == 1 {
        s.exticr2
    } else if line / 4 == 2 {
        s.exticr3
    } else {
        s.exticr4
    }
}

/// The block with the selector register of `line` replaced by `v`.
pub open spec fn with_selector(s: Syscfg, line: u32, v: u32) -> Syscfg {
    if line / 4 == 0 {
        Syscfg { exticr1: v, ..s }
    } else if line / 4 == 1 {
        Syscfg { exticr2: v, ..s }
    } else if line / 4 == 2 {
        Syscfg { exticr3: v, ..s }
    } else {
        Syscfg { exticr4: v, ..s }
    }
}

/// The port code that feeds `line`.
pub open spec fn source_of(s: Syscfg, line: u32) -> u32 {
    field4(selector_of(s, line), source_shift(line))
}

/// The block with `line` fed from the port of code `code`.
pub open spec fn with_source(s: Syscfg, line: u32, code: u32) -> Syscfg {
    with_selector(s, line, with_field4(selector_of(s, line), source_shift(line), code))
}

/// The controller with a falling edge on `line` selected and the line unmasked.
pub open spec fn with_falling_edge(e: Exti, line: u32) -> Exti {
    Exti { ftsr1: set_bit(e.ftsr1, line), imr1: set_bit(e.imr1, line), ..e }
}

/// The controller after the pending bit of `line` was acknowledged.
pub open spec fn with_cleared(e: Exti, line: u32) -> Exti {
    Exti { pr1: clear_bit(e.pr1, line), ..e }
}

/// Routes a falling edge on the button's pin to its interrupt vector: the
/// pin's port feeds the pin's line, the line triggers on a falling edge and
/// is unmasked, and the line's vector is enabled at `priority`.
pub fn configure_interrupt(
    button: &Gpio,
    priority: u8,
    syscfg: &mut Syscfg,
    exti: &mut Exti,
    nvic: &mut Nvic,
)
    requires
        old(nvic).wf(),
    ensures
        *final(syscfg) == with_source(
            *old(syscfg),
            button.spec_pin(),
            spec_source_code(button.spec_bank()),
        ),
        *final(exti) == with_falling_edge(*old(exti), button.spec_pin()),
        final(nvic).wf(),
        final(nvic).enabled@ == old(nvic).enabled@.update(
            spec_line_vector(button.spec_pin()) as int,
            true,
        ),
        final(nvic).priority@ == old(nvic).priority@.update(
            spec_line_vector(button.spec_pin()) as int,
            priority,
        ),
{
    let line = button.pin();
    let code = source_code(button.bank());
    let sh: u32 = 4 * ((line as u32) % 4);
    let group = line / 4;
    if group == 0 {
        syscfg.exticr1 = (syscfg.exticr1 & !(0xfu32 << sh)) | (code << sh);
    } else if group == 1 {
        syscfg.exticr2 = (syscfg.exticr2 & !(0xfu32 << sh)) | (code << sh);
    } else if group == 2 {
        syscfg.exticr3 = (syscfg.exticr3 & !(0xfu32 << sh)) | (code << sh);
    } else {
        syscfg.exticr4 = (syscfg.exticr4 & !(0xfu32 << sh)) | (code << sh);
    }
    exti.ftsr1 = exti.ftsr1 | (1u32 << (line as u32));
    exti.imr1 = exti.imr1 | (1u32 << (line as u32));
    let vector = line_vector(line);
    nvic.enabled.set(vector, true);
    nvic.priority.set(vector, priority);
}

/// Acknowledges `line`: returns whether it was pending, and clears its
/// pending bit with a write of 1 to it, leaving the other lines pending.
pub fn acknowledge(exti: &mut Exti, line: u8) -> (was_pending: bool)
    requires
        line < 32,
    ensures
        was_pending == pin_level(old(exti).pr1, line as u32),
        *final(exti) == with_cleared(*old(exti), line as u32),
{
    let was_pending = (exti.pr1 >> (line as u32)) & 1u32 == 1u32;
    exti.pr1 = exti.pr1 & !(1u32 << (line as u32));
    was_pending
}

/// The handler of the vector shared by lines 10 to 15: acknowledges the
/// button's line before it returns, and reports whether it was pending.
pub fn my_exti15_10_interrupt_handler(exti: &mut Exti) -> (was_pending: bool)
    ensures
        was_pending == pin_level(old(exti).pr1, BUTTON_LINE as u32),
        *final(exti) == with_cleared(*old(exti), BUTTON_LINE as u32),
{
    acknowledge(exti, BUTTON_LINE)
}

proof fn lemma_source_field(reg: u32, sh: u32, code: u32, sh2: u32)
    by (bit_vector)
    requires
        sh <= 12,
        sh2 <= 12,
        code < 16,
    ensures
        field4(with_field4(reg, sh, code), sh) == code,
        (sh2 + 4 <= sh || sh + 4 <= sh2) ==> field4(with_field4(reg, sh, code), sh2) == field4(
            reg,
            sh2,
        ),
{
}

proof fn lemma_line_bits(reg: u32, line: u32, j: u32)
    by (bit_vector)
    requires
        line < 32,
        j < 32,
    ensures
        pin_level(set_bit(reg, line), line),
        !pin_level(clear_bit(reg, line), line),
        j != line ==> pin_level(set_bit(reg, line), j) == pin_level(reg, j),
        j != line ==> pin_level(clear_bit(reg, line), j) == pin_level(reg, j),
{
}

/// Configuring the interrupt of a pin feeds the pin's line from the pin's
/// port and keeps the source of every other line. The line then triggers on
/// a falling edge and is unmasked; the edge and mask bits of the other lines,
/// the rising-edge register and the pending register keep their values.
pub proof fn lemma_configure_selects_source(s: Syscfg, e: Exti, bank: GpioBank, line: u32)
    requires
        line < 16,
    ensures
        ({
            let a = with_source(s, line, spec_source_code(bank));
            let f = with_falling_edge(e, line);
            &&& source_of(a, line) == spec_source_code(bank)
            &&& forall|k: u32| k < 16 && k != line ==> #[trigger] source_of(a, k) == source_of(s, k)
            &&& pin_level(f.ftsr1, line)
            &&& pin_level(f.imr1, line)
            &&& forall|j: u32|
                j < 32 && j != line ==> #[trigger] pin_level(f.ftsr1, j) == pin_level(e.ftsr1, j)
                    && pin_level(f.imr1, j) == pin_level(e.imr1, j)
            &&& f.rtsr1 == e.rtsr1
            &&& f.pr1 == e.pr1
        }),
{
    let code = spec_source_code(bank);
    let a = with_source(s, line, code);
    let reg = selector_of(s, line);
    let sh = source_shift(line);
    lemma_source_field(reg, sh, code, sh);
    assert forall|k: u32| k < 16 && k != line implies #[trigger] source_of(a, k) == source_of(
        s,
        k,
    ) by {
        if k / 4 == line / 4 {
            lemma_source_field(reg, sh, code, source_shift(k));
        }
    }
    lemma_line_bits(e.ftsr1, line, 0);
    lemma_line_bits(e.imr1, line, 0);
    assert forall|j: u32| j < 32 && j != line implies #[trigger] pin_level(
        with_falling_edge(e, line).ftsr1,
        j,
    ) == pin_level(e.ftsr1, j) && pin_level(with_falling_edge(e, line).imr1, j) == pin_level(
        e.imr1,
        j,
    ) by {
        lemma_line_bits(e.ftsr1, line, j);
        lemma_line_bits(e.imr1, line, j);
    }
}

/// Acknowledging a line leaves it not pending, whatever was pending before,
/// and leaves every other line pending or not as it was.
pub proof fn lemma_acknowledge_clears_pending(e: Exti, line: u32)
    requires
        line < 32,
    ensures
        !pin_level(with_cleared(e, line).pr1, line),
        forall|j: u32|
            j < 32 && j != line ==> #[trigger] pin_level(with_cleared(e, line).pr1, j) == pin_level(
                e.pr1,
                j,
            ),
        with_cleared(e, line) == (Exti { pr1: with_cleared(e, line).pr1, ..e }),
{
    lemma_line_bits(e.pr1, line, 0);
    assert forall|j: u32| j < 32 && j != line implies #[trigger] pin_level(
        with_cleared(e, line).pr1,
        j,
    ) == pin_level(e.pr1, j) by {
        lemma_line_bits(e.pr1, line, j);
    }
}

} // verus!
