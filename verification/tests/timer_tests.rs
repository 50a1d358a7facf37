use rugby::timer::Timer;

fn tick_n(timer: &mut Timer, n: usize) {
    for _ in 0..n {
        timer.tick();
    }
}

#[test]
fn div_counts_every_64_machine_cycles() {
    let mut timer = Timer::new();
    tick_n(&mut timer, 63);
    assert_eq!(timer.div, 0);
    tick_n(&mut timer, 1);
    assert_eq!(timer.div, 1);
    assert_eq!(timer.internal_timer, 256);
}

#[test]
fn post_boot_values() {
    let mut timer = Timer::new();
    timer.initialize();
    assert_eq!(timer.internal_timer, 0xAB00);
    assert_eq!(timer.div, 0xAB);
    assert_eq!(timer.tac, 0xF8);
}

#[test]
fn tima_counts_on_the_falling_edge_of_the_selected_bit() {
    let mut timer = Timer::new();
    timer.tac = 0x05;
    tick_n(&mut timer, 3);
    assert_eq!(timer.tima, 0);
    tick_n(&mut timer, 1);
    assert_eq!(timer.tima, 1);
    tick_n(&mut timer, 4);
    assert_eq!(timer.tima, 2);
}

#[test]
fn tima_does_not_count_while_disabled() {
    let mut timer = Timer::new();
    timer.tac = 0x01;
    tick_n(&mut timer, 100);
    assert_eq!(timer.tima, 0);
}

#[test]
fn overflow_reloads_tma_one_cycle_later_and_requests_the_interrupt() {
    let mut timer = Timer::new();
    timer.tac = 0x05;
    timer.tima = 0xFF;
    timer.tma = 0x10;
    tick_n(&mut timer, 4);
    assert_eq!(timer.tima, 0);
    assert!(timer.tima_overflow);
    assert_eq!(timer.timer_interrupt, 0);
    tick_n(&mut timer, 1);
    assert_eq!(timer.tima, 0x10);
    assert_eq!(timer.timer_interrupt, 1);
    assert!(!timer.tima_overflow);
}

#[test]
fn resetting_clears_the_counter() {
    let mut timer = Timer::new();
    tick_n(&mut timer, 100);
    timer.reset_timer();
    assert_eq!(timer.internal_timer, 0);
    assert_eq!(timer.div, 0);
}

#[test]
fn div_counts_up_every_64_cycles() {
    let mut t = Timer::new();
    t.initialize();
    for _ in 0..63 {
        t.tick();
        assert_eq!(t.div, 0xAB);
    }
    t.tick();
    assert_eq!(t.div, 0xAC);
    for _ in 0..64 * 0x53 {
        t.tick();
    }
    assert_eq!(t.div, 0xFF);
    for _ in 0..64 {
        t.tick();
    }
    assert_eq!(t.div, 0x00);
}
