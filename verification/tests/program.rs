use firmware::program::{
    capture_config, capture_program, machine_code, CaptureConfig, Instruction, Source,
};

#[test]
fn the_setup_for_a_bus_of_ten_lines() {
    assert_eq!(
        capture_config(5, 6, 10),
        Some(CaptureConfig {
            valid_pin: 5,
            in_base: 6,
            sample_bits: 10,
            input_pins: 11,
            divisor: 1,
            divisor_fraction: 0,
            push_threshold: 32,
            autopush: true,
            pixels_per_word: 3,
            padding_bits: 2,
        })
    );
}

#[test]
fn the_setup_follows_the_width_of_the_bus() {
    let eight = capture_config(0, 1, 8).unwrap();
    assert_eq!((eight.pixels_per_word, eight.padding_bits, eight.input_pins), (4, 0, 9));
    let three = capture_config(0, 1, 3).unwrap();
    assert_eq!((three.pixels_per_word, three.padding_bits), (10, 2));
    let whole = capture_config(31, 0, 32).unwrap();
    assert_eq!((whole.pixels_per_word, whole.padding_bits, whole.input_pins), (1, 0, 33));
    let wide = capture_config(0, 1, 17).unwrap();
    assert_eq!((wide.pixels_per_word, wide.padding_bits), (1, 15));
}

#[test]
fn a_bus_that_is_not_supported_has_no_setup() {
    assert_eq!(capture_config(0, 1, 0), None);
    assert_eq!(capture_config(0, 1, 2), None);
    assert_eq!(capture_config(0, 1, 33), None);
    assert_eq!(capture_config(0, 1, 255), None);
    assert_eq!(capture_config(32, 1, 10), None);
    assert!(capture_config(31, 1, 10).is_some());
}

#[test]
fn the_program_takes_three_samples_and_fills_the_word() {
    let config = capture_config(5, 6, 10).unwrap();
    let low = Instruction::Wait { level: false, gpio: 5 };
    let high = Instruction::Wait { level: true, gpio: 5 };
    let shift = Instruction::In { source: Source::Pins, bits: 10 };
    assert_eq!(
        capture_program(&config),
        vec![
            low,
            high,
            shift,
            low,
            high,
            shift,
            low,
            high,
            shift,
            Instruction::In { source: Source::Null, bits: 2 },
        ]
    );
}

#[test]
fn a_pass_of_the_program_shifts_in_one_word() {
    for width in 3..=32u8 {
        let config = capture_config(4, 8, width).unwrap();
        let program = capture_program(&config);
        assert!(program.len() <= 32);
        let bits: u32 = program
            .iter()
            .map(|instruction| match instruction {
                Instruction::In { bits, .. } => *bits as u32,
                _ => 0,
            })
            .sum();
        assert_eq!(bits, 32, "width {width}");
        let samples = program
            .iter()
            .filter(|i| matches!(i, Instruction::In { source: Source::Pins, .. }))
            .count();
        assert_eq!(samples, config.pixels_per_word as usize);
    }
}

#[test]
fn the_machine_code_of_the_program() {
    let config = capture_config(5, 6, 10).unwrap();
    let words = machine_code(&capture_program(&config));
    assert_eq!(
        words,
        vec![0x2005, 0x2085, 0x400A, 0x2005, 0x2085, 0x400A, 0x2005, 0x2085, 0x400A, 0x4062]
    );
}

#[test]
fn the_machine_code_of_single_instructions() {
    let code = |instruction| machine_code(&vec![instruction])[0];
    assert_eq!(code(Instruction::Wait { level: false, gpio: 0 }), 0x2000);
    assert_eq!(code(Instruction::Wait { level: true, gpio: 0 }), 0x2080);
    assert_eq!(code(Instruction::Wait { level: true, gpio: 31 }), 0x209F);
    assert_eq!(code(Instruction::In { source: Source::Pins, bits: 1 }), 0x4001);
    assert_eq!(code(Instruction::In { source: Source::Pins, bits: 31 }), 0x401F);
    assert_eq!(code(Instruction::In { source: Source::Pins, bits: 32 }), 0x4000);
    assert_eq!(code(Instruction::In { source: Source::Null, bits: 32 }), 0x4060);
    assert_eq!(code(Instruction::In { source: Source::Null, bits: 7 }), 0x4067);
    assert_eq!(machine_code(&Vec::new()), Vec::<u16>::new());
}

#[test]
fn the_machine_code_is_what_the_encoder_of_the_state_machine_decodes() {
    for width in 3..=32u8 {
        let config = capture_config(9, 0, width).unwrap();
        let program = capture_program(&config);
        let words = machine_code(&program);
        assert_eq!(words.len(), program.len());
        for (word, instruction) in words.iter().zip(program.iter()) {
            let decoded = pio::InstructionOperands::decode(*word).unwrap();
            match (decoded, instruction) {
                (
                    pio::InstructionOperands::WAIT { polarity, source, index, relative },
                    Instruction::Wait { level, gpio },
                ) => {
                    assert_eq!(polarity, *level as u8);
                    assert_eq!(source, pio::WaitSource::GPIO);
                    assert_eq!(index, *gpio);
                    assert!(!relative);
                }
                (
                    pio::InstructionOperands::IN { source, bit_count },
                    Instruction::In { source: from, bits },
                ) => {
                    assert_eq!(bit_count, *bits);
                    assert_eq!(source == pio::InSource::PINS, *from == Source::Pins);
                    assert_eq!(source == pio::InSource::NULL, *from == Source::Null);
                }
                other => panic!("{other:?}"),
            }
        }
    }
}
