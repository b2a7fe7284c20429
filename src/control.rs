//! The firmware's own wiring: which pins are the LED and the button, how
//! they are brought up, and one turn of the main loop.

use vstd::prelude::*;
use crate::exti::{
    configure_interrupt, spec_line_vector, spec_source_code, with_falling_edge, with_source, Exti,
    Nvic, Syscfg,
};
use crate::gpio::{
    after_set_clock, after_set_direction, after_write, bsrr_word, level_of, lemma_output_bits,
    pin_level, port_of, Board, Gpio, GpioBank, GpioDirection,
};

verus! {

/// Pin of the LED on port A.
pub const LED_PIN: u8 = 5;

/// Pin of the button on port C.
pub const BUTTON_PIN: u8 = 13;

/// Priority of the button's interrupt vector.
pub const BUTTON_PRIORITY: u8 = 3;

/// Enable bit of the system configuration block in the APB2 clock register.
pub const SYSCFG_CLOCK_BIT: u32 = 0;

/// The board once the system configuration block's clock is on and the
/// LED and button pins are set up.
pub open spec fn after_startup(b: Board) -> Board {
    let b1 = Board { apb2enr: b.apb2enr | (1u32 << SYSCFG_CLOCK_BIT), ..b };
    let b2 = after_set_direction(
        after_set_clock(b1, GpioBank::A, true),
        GpioBank::A,
        LED_PIN as u32,
        GpioDirection::Out,
    );
    after_set_direction(
        after_set_clock(b2, GpioBank::C, true),
        GpioBank::C,
        BUTTON_PIN as u32,
        GpioDirection::In,
    )
}

/// Brings the board up: switches on the system configuration block's
/// clock, takes pin 5 of port A as the LED output and pin 13 of port C as
/// the button input, and routes a falling edge on the button to its vector.
/// Returns the LED and the button.
pub fn startup(board: &mut Board, syscfg: &mut Syscfg, exti: &mut Exti, nvic: &mut Nvic) -> (r: (
    Gpio,
    Gpio,
))
    requires
        old(nvic).wf(),
    ensures
        r.0.spec_pin() == LED_PIN as u32,
        r.0.spec_bank() == GpioBank::A,
        r.1.spec_pin() == BUTTON_PIN as u32,
        r.1.spec_bank() == GpioBank::C,
        *final(board) == after_startup(*old(board)),
        *final(syscfg) == with_source(
            *old(syscfg),
            BUTTON_PIN as u32,
            spec_source_code(GpioBank::C),
        ),
        *final(exti) == with_falling_edge(*old(exti), BUTTON_PIN as u32),
        final(nvic).wf(),
        final(nvic).enabled@ == old(nvic).enabled@.update(
            spec_line_vector(BUTTON_PIN as u32) as int,
            true,
        ),
        final(nvic).priority@ == old(nvic).priority@.update(
            spec_line_vector(BUTTON_PIN as u32) as int,
            BUTTON_PRIORITY,
        ),
{
    board.apb2enr = board.apb2enr | (1u32 << SYSCFG_CLOCK_BIT);
    let led = Gpio::new(LED_PIN, GpioBank::A, GpioDirection::Out, board).unwrap();
    let btn = Gpio::new(BUTTON_PIN, GpioBank::C, GpioDirection::In, board).unwrap();
    configure_interrupt(&btn, BUTTON_PRIORITY, syscfg, exti, nvic);
    (led, btn)
}

/// One turn of the main loop: samples the button and drives the LED to the
/// opposite level.
pub fn mirror_button(btn: &Gpio, led: &Gpio, board: &mut Board)
    ensures
        *final(board) == after_write(
            *old(board),
            led.spec_bank(),
            led.spec_pin(),
            !level_of(*old(board), btn.spec_bank(), btn.spec_pin()),
        ),
{
    let pressed = btn.read(board);
    led.write(board, !pressed);
}

/// A turn of the loop drives the LED high when the button reads low and low
/// when it reads high, with a single set/reset word for the LED's pin alone.
pub proof fn lemma_mirror_inverts(
    b: Board,
    btn_bank: GpioBank,
    btn_pin: u32,
    led_bank: GpioBank,
    led_pin: u32,
)
    requires
        led_pin < 16,
    ensures
        ({
            let sampled = level_of(b, btn_bank, btn_pin);
            let a = after_write(b, led_bank, led_pin, !sampled);
            &&& pin_level(port_of(a, led_bank).odr, led_pin) == !sampled
            &&& !sampled ==> port_of(a, led_bank).bsrr == bsrr_word(led_pin, true)
            &&& sampled ==> port_of(a, led_bank).bsrr == bsrr_word(led_pin, false)
        }),
{
    lemma_output_bits(port_of(b, led_bank).odr, led_pin, !level_of(b, btn_bank, btn_pin), 0);
}

} // verus!
