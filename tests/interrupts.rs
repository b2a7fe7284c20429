use button_mirror::control::{mirror_button, startup, BUTTON_PIN, BUTTON_PRIORITY, LED_PIN};
use button_mirror::exti::{
    acknowledge, configure_interrupt, line_vector, my_exti15_10_interrupt_handler, source_code,
    Exti, Nvic, Syscfg, NVIC_LINES,
};
use button_mirror::gpio::{Board, Gpio, GpioBank, GpioDirection, GpioPort};

fn zero_board() -> Board {
    let p = GpioPort { moder: 0, odr: 0, idr: 0, bsrr: 0 };
    Board { ahbenr: 0, apb2enr: 0, gpioa: p, gpiob: p, gpioc: p, gpiod: p, gpioe: p }
}

fn zero_syscfg() -> Syscfg {
    Syscfg { exticr1: 0, exticr2: 0, exticr3: 0, exticr4: 0 }
}

fn zero_exti() -> Exti {
    Exti { imr1: 0, rtsr1: 0, ftsr1: 0, pr1: 0 }
}

#[test]
fn nvic_starts_disabled() {
    let n = Nvic::new();
    assert_eq!(n.enabled.len(), NVIC_LINES);
    assert_eq!(n.priority.len(), NVIC_LINES);
    assert!(n.enabled.iter().all(|e| !*e));
    assert!(n.priority.iter().all(|p| *p == 0));
}

#[test]
fn source_codes_and_vectors() {
    assert_eq!(source_code(GpioBank::A), 0);
    assert_eq!(source_code(GpioBank::C), 2);
    assert_eq!(source_code(GpioBank::E), 4);
    assert_eq!(line_vector(0), 6);
    assert_eq!(line_vector(4), 10);
    assert_eq!(line_vector(5), 23);
    assert_eq!(line_vector(9), 23);
    assert_eq!(line_vector(10), 40);
    assert_eq!(line_vector(13), 40);
    assert_eq!(line_vector(15), 40);
}

#[test]
fn configure_port_c_pin_13_falling_edge() {
    let mut b = zero_board();
    let btn = Gpio::new(13, GpioBank::C, GpioDirection::In, &mut b).unwrap();
    let mut s = Syscfg { exticr1: 0x1111, exticr2: 0x2222, exticr3: 0x3333, exticr4: 0xf0f0 };
    let mut e = Exti { imr1: 0x1, rtsr1: 0x2, ftsr1: 0x4, pr1: 0x8 };
    let mut n = Nvic::new();
    configure_interrupt(&btn, 3, &mut s, &mut e, &mut n);
    assert_eq!((s.exticr4 >> 4) & 0xf, 2);
    assert_eq!(s.exticr4, 0xf020);
    assert_eq!((s.exticr1, s.exticr2, s.exticr3), (0x1111, 0x2222, 0x3333));
    assert_eq!(e.ftsr1, 0x4 | (1 << 13));
    assert_eq!(e.imr1, 0x1 | (1 << 13));
    assert_eq!(e.rtsr1, 0x2);
    assert_eq!(e.pr1, 0x8);
    for i in 0..NVIC_LINES {
        assert_eq!(n.enabled[i], i == 40);
        assert_eq!(n.priority[i], if i == 40 { 3 } else { 0 });
    }
}

#[test]
fn configure_low_line_uses_first_selector() {
    let mut b = zero_board();
    let pin = Gpio::new(2, GpioBank::E, GpioDirection::In, &mut b).unwrap();
    let mut s = zero_syscfg();
    let mut e = zero_exti();
    let mut n = Nvic::new();
    configure_interrupt(&pin, 7, &mut s, &mut e, &mut n);
    assert_eq!(s.exticr1, 4 << 8);
    assert_eq!((s.exticr2, s.exticr3, s.exticr4), (0, 0, 0));
    assert_eq!(e.ftsr1, 1 << 2);
    assert_eq!(e.imr1, 1 << 2);
    assert!(n.enabled[8]);
    assert_eq!(n.priority[8], 7);
}

#[test]
fn handler_clears_pending_flag() {
    let mut e = Exti { imr1: 1 << 13, rtsr1: 0, ftsr1: 1 << 13, pr1: (1 << 13) | (1 << 3) };
    assert!(my_exti15_10_interrupt_handler(&mut e));
    assert_eq!((e.pr1 >> 13) & 1, 0);
    assert_eq!(e.pr1, 1 << 3);
    assert_eq!(e.imr1, 1 << 13);
    assert!(!my_exti15_10_interrupt_handler(&mut e));
    assert_eq!(e.pr1, 1 << 3);
}

#[test]
fn acknowledge_other_line() {
    let mut e = zero_exti();
    e.pr1 = 0xffff_ffff;
    assert!(acknowledge(&mut e, 31));
    assert_eq!(e.pr1, 0x7fff_ffff);
    assert!(!acknowledge(&mut e, 31));
}

#[test]
fn startup_brings_up_led_and_button() {
    let mut b = zero_board();
    let mut s = zero_syscfg();
    let mut e = zero_exti();
    let mut n = Nvic::new();
    let (led, btn) = startup(&mut b, &mut s, &mut e, &mut n);
    assert_eq!((led.pin(), led.bank()), (LED_PIN, GpioBank::A));
    assert_eq!((btn.pin(), btn.bank()), (BUTTON_PIN, GpioBank::C));
    assert_eq!(b.apb2enr, 1);
    assert_eq!(b.ahbenr, (1 << 17) | (1 << 19));
    assert_eq!(b.gpioa.moder, 1 << 10);
    assert_eq!(b.gpioc.moder, 0);
    assert_eq!(s.exticr4, 2 << 4);
    assert_eq!(e.ftsr1, 1 << 13);
    assert_eq!(e.imr1, 1 << 13);
    assert!(n.enabled[40]);
    assert_eq!(n.priority[40], BUTTON_PRIORITY);
}

#[test]
fn loop_turn_inverts_button_onto_led() {
    let mut b = zero_board();
    let mut s = zero_syscfg();
    let mut e = zero_exti();
    let mut n = Nvic::new();
    let (led, btn) = startup(&mut b, &mut s, &mut e, &mut n);
    b.gpioc.idr = 0;
    mirror_button(&btn, &led, &mut b);
    assert_eq!(b.gpioa.bsrr, 1 << 5);
    assert_eq!((b.gpioa.odr >> 5) & 1, 1);
    b.gpioc.idr = 1 << 13;
    mirror_button(&btn, &led, &mut b);
    assert_eq!(b.gpioa.bsrr, 1 << 21);
    assert_eq!((b.gpioa.odr >> 5) & 1, 0);
}
