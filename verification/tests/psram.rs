use firmware::psram::{
    can_time, identity, init, read_id, timing, Command, Format, Identity, Timing, BASE_ADDRESS,
    KNOWN_GOOD_DIE, SIZE,
};

/// A stand-in for the memory, which answers the commands it is sent.
struct Part {
    quad: bool,
    reset_enabled: bool,
    recovering: bool,
    selected: bool,
    direct: bool,
    automatic: bool,
    count: usize,
    identifying: bool,
    heard: Vec<u8>,
}

fn part(quad: bool) -> Part {
    Part {
        quad,
        reset_enabled: false,
        recovering: false,
        selected: false,
        direct: false,
        automatic: false,
        count: 0,
        identifying: false,
        heard: Vec::new(),
    }
}

fn send(part: &mut Part, command: Command) {
    match command {
        Command::Direct { .. } => {
            part.direct = true;
            part.automatic = false;
        }
        Command::Select => {
            part.selected = true;
            part.count = 0;
            part.identifying = false;
        }
        Command::Deselect => part.selected = false,
        Command::Release => {
            part.selected = false;
            part.direct = false;
        }
        Command::Automatic => {
            part.direct = false;
            part.automatic = true;
        }
        Command::Pause { nanos } => {
            if nanos >= 50 {
                part.recovering = false;
            }
        }
        Command::Exchange { data, quad } => {
            let mut byte = 0xFF;
            if part.count == 0 {
                if quad == part.quad && !part.recovering {
                    let armed = part.reset_enabled;
                    part.reset_enabled = false;
                    match data {
                        0xF5 if part.quad => part.quad = false,
                        0x35 if !part.quad => part.quad = true,
                        0x66 => part.reset_enabled = true,
                        0x99 if armed => {
                            part.quad = false;
                            part.recovering = true;
                        }
                        0x9F if !part.quad => part.identifying = true,
                        _ => {}
                    }
                }
            } else if part.identifying {
                byte = match part.count {
                    4 => 0x0D,
                    5 => 0x5D,
                    6 => 0x46,
                    _ => 0xFF,
                };
            }
            part.count += 1;
            part.heard.push(byte);
        }
        _ => {}
    }
}

#[test]
fn read_id_sends_the_exit_and_the_read_command() {
    let zero = Command::Exchange { data: 0, quad: false };
    assert_eq!(
        read_id(),
        vec![
            Command::Direct { divider: 30 },
            Command::Select,
            Command::Exchange { data: 0xF5, quad: true },
            Command::Deselect,
            Command::Select,
            Command::Exchange { data: 0x9F, quad: false },
            zero,
            zero,
            zero,
            zero,
            zero,
            zero,
            Command::Release,
        ]
    );
}

#[test]
fn read_id_finds_the_known_good_die_in_either_mode() {
    for quad in [false, true] {
        let mut part = part(quad);
        for command in read_id() {
            send(&mut part, command);
        }
        let found = identity(&part.heard);
        assert_eq!(
            found,
            Some(Identity { manufacturer: 0x0D, known_good_die: 0x5D, density: 0x46 })
        );
        assert!(found.unwrap().is_known_good());
        assert!(!part.selected && !part.direct);
    }
}

#[test]
fn identity_is_the_last_three_of_eight_bytes() {
    assert_eq!(
        identity(&[1, 2, 3, 4, 5, 6, 7, 8]),
        Some(Identity { manufacturer: 6, known_good_die: 7, density: 8 })
    );
    assert_eq!(identity(&[1, 2, 3, 4, 5, 6, 7]), None);
    assert_eq!(identity(&[1, 2, 3, 4, 5, 6, 7, 8, 9]), None);
    assert_eq!(identity(&[]), None);
}

#[test]
fn a_die_with_another_mark_is_not_known_good() {
    let other = Identity { manufacturer: 0x0D, known_good_die: 0x55, density: 0x46 };
    assert!(!other.is_known_good());
    assert_eq!(KNOWN_GOOD_DIE, 0x5D);
}

#[test]
fn timing_at_150_mhz() {
    assert_eq!(
        timing(150_000_000),
        Timing {
            cooldown: 1,
            page_break: 1024,
            max_select: 18,
            min_deselect: 4,
            rx_delay: 2,
            divider: 2,
        }
    );
}

#[test]
fn timing_rounds_to_the_safe_side() {
    assert_eq!(timing(133_000_000).divider, 1);
    assert_eq!(timing(133_000_001).divider, 2);
    assert_eq!(timing(266_000_000).divider, 2);
    assert_eq!(timing(266_000_001).divider, 3);
    // 8000 ns are 1064 clocks at 133 MHz: 16 units of 64, and a rest
    assert_eq!(timing(133_000_000).max_select, 16);
    // 18 ns are 2.394 clocks at 133 MHz: three cover them, and one more is taken
    assert_eq!(timing(133_000_000).min_deselect, 4);
    // 18 ns are 2.7 clocks at 150 MHz
    assert_eq!(timing(150_000_000).min_deselect, 4);
    // 18 ns are exactly 9 clocks at 500 MHz: nine cover them, and one more is taken
    assert_eq!(timing(500_000_000).min_deselect, 10);
    assert_eq!(timing(500_000_001).min_deselect, 11);
    assert_eq!(timing(1).min_deselect, 2);
    assert_eq!(timing(0).min_deselect, 1);
    assert_eq!(timing(u32::MAX).min_deselect, 79);
    assert_eq!(timing(1).max_select, 0);
    assert_eq!(timing(u32::MAX).max_select, 63);
    assert_eq!(timing(511_999_999).max_select, 63);
    assert_eq!(timing(503_999_999).max_select, 62);
    assert_eq!(timing(u32::MAX).divider, 33);
    assert_eq!(timing(0).divider, 0);
}

#[test]
fn init_resets_the_memory_and_programs_the_window() {
    let commands = init(150_000_000, false);
    let read = Format { command: 0xEB, quad: true, prefix_bits: 8, dummy_bits: 24 };
    let write = Format { command: 0x38, quad: true, prefix_bits: 8, dummy_bits: 0 };
    assert_eq!(
        commands,
        vec![
            Command::Direct { divider: 30 },
            Command::Select,
            Command::Exchange { data: 0x66, quad: false },
            Command::Deselect,
            Command::Select,
            Command::Exchange { data: 0x99, quad: false },
            Command::Deselect,
            Command::Pause { nanos: 100 },
            Command::Select,
            Command::Exchange { data: 0x35, quad: false },
            Command::Deselect,
            Command::Timing(timing(150_000_000)),
            Command::ReadFormat(read),
            Command::WriteFormat(write),
            Command::Automatic,
        ]
    );
}

#[test]
fn init_leaves_quad_mode_first_when_told_it_may_be_in_it() {
    let plain = init(150_000_000, false);
    let careful = init(150_000_000, true);
    assert_eq!(careful.len(), plain.len() + 3);
    assert_eq!(careful[0], plain[0]);
    assert_eq!(
        &careful[1..4],
        &[Command::Select, Command::Exchange { data: 0xF5, quad: true }, Command::Deselect]
    );
    assert_eq!(&careful[4..], &plain[1..]);
}

#[test]
fn init_brings_the_memory_to_quad_mode_from_either_mode() {
    for quad in [false, true] {
        let mut part = part(quad);
        for command in init(150_000_000, true) {
            send(&mut part, command);
        }
        assert!(part.quad && !part.recovering && !part.selected);
        assert!(part.automatic && !part.direct);
    }
    let mut part = part(false);
    for command in init(150_000_000, false) {
        send(&mut part, command);
    }
    assert!(part.quad && part.automatic);
}

#[test]
fn the_window_is_eight_mebibytes_from_its_base() {
    assert_eq!(BASE_ADDRESS, 0x1100_0000);
    assert_eq!(SIZE, 8 * 1024 * 1024);
}

#[test]
fn the_window_can_be_timed_up_to_seven_times_the_memory_clock() {
    assert!(!can_time(0));
    assert!(can_time(1));
    assert!(can_time(150_000_000));
    assert!(can_time(931_000_000));
    assert!(!can_time(931_000_001));
    assert_eq!(timing(931_000_000).rx_delay, 7);
    assert_eq!(timing(931_000_001).rx_delay, 8);
    assert_eq!(timing(931_000_000).min_deselect, 18);
}
