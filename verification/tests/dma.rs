use firmware::dma::{
    frame_bytes, frame_words, payload, region_holds, DoubleBuffer, Step,
};

#[test]
fn a_full_frame_is_459024_words() {
    assert_eq!(frame_words(1312, 1048), 459_024);
    assert_eq!(frame_bytes(1312, 1048), 1_836_096);
}

#[test]
fn frame_length_rounds_up() {
    assert_eq!(frame_words(0, 1), 1);
    assert_eq!(frame_words(1, 1), 1);
    assert_eq!(frame_words(2, 1), 2);
    assert_eq!(frame_words(4, 1), 2);
    assert_eq!(frame_words(5, 1), 3);
    assert_eq!(frame_words(10, 0), 0);
    assert_eq!(frame_words(u16::MAX, u16::MAX), 1_431_655_765);
    assert_eq!(frame_bytes(u16::MAX, u16::MAX), 5_726_623_060);
}

#[test]
fn a_region_holds_a_frame_that_is_no_longer() {
    assert!(region_holds(2 * 1024 * 1024, 1312, 1048));
    assert!(region_holds(459_024, 1312, 1048));
    assert!(!region_holds(459_023, 1312, 1048));
}

fn assemble(segment: usize, segments: usize) -> (Vec<Step>, Vec<u32>, Vec<u32>) {
    let mut manager = DoubleBuffer::new(segment, segments).unwrap();
    assert_eq!(manager.length(), segment * segments);
    let mut destination = vec![0xDEAD_BEEFu32; segment * segments + 3];
    let mut source = Vec::new();
    let mut steps = Vec::new();
    let mut produced = 0u32;
    let mut step = manager.begin();
    for _ in 0..10 * segments + 10 {
        steps.push(step);
        step = match step {
            Step::Start { .. } | Step::Queue { .. } => manager.advance(),
            Step::Wait { .. } => {
                let filled: Vec<u32> = (0..segment as u32).map(|i| produced * 1000 + i).collect();
                produced += 1;
                source.extend(filled.iter().copied());
                manager.accept(&filled, &mut destination)
            }
            Step::Finish => {
                assert_eq!(manager.completed(), segments);
                return (steps, source, destination);
            }
            Step::Idle => panic!("out of turn"),
        };
    }
    panic!("the frame did not finish");
}

#[test]
fn segments_land_in_the_order_they_were_issued_in() {
    for segments in 1..9 {
        let (_, source, destination) = assemble(4, segments);
        assert_eq!(&destination[..4 * segments], &source[..]);
        assert_eq!(&destination[4 * segments..], &[0xDEAD_BEEF; 3]);
    }
}

#[test]
fn one_segment_needs_one_buffer() {
    let (steps, _, _) = assemble(4, 1);
    assert_eq!(steps, vec![Step::Start { buffer: 0 }, Step::Wait { buffer: 0 }, Step::Finish]);
}

#[test]
fn the_buffers_take_turns() {
    let (steps, _, _) = assemble(2, 4);
    assert_eq!(
        steps,
        vec![
            Step::Start { buffer: 0 },
            Step::Queue { buffer: 1 },
            Step::Wait { buffer: 0 },
            Step::Queue { buffer: 0 },
            Step::Wait { buffer: 1 },
            Step::Queue { buffer: 1 },
            Step::Wait { buffer: 0 },
            Step::Wait { buffer: 1 },
            Step::Finish,
        ]
    );
}

#[test]
fn exactly_as_many_segments_are_handed_over_as_the_frame_has() {
    for segments in 0..12 {
        let (steps, _, _) = assemble(3, segments);
        let handed = steps
            .iter()
            .filter(|s| matches!(s, Step::Start { .. } | Step::Queue { .. }))
            .count();
        let waited = steps.iter().filter(|s| matches!(s, Step::Wait { .. })).count();
        assert_eq!(handed, segments);
        assert_eq!(waited, segments);
    }
}

#[test]
fn a_frame_of_no_segments_is_whole_at_once() {
    let mut manager = DoubleBuffer::new(4, 0).unwrap();
    assert_eq!(manager.begin(), Step::Finish);
}

#[test]
fn a_call_out_of_turn_changes_nothing() {
    let mut manager = DoubleBuffer::new(2, 2).unwrap();
    let mut destination = vec![7u32; 4];
    assert_eq!(manager.advance(), Step::Idle);
    assert_eq!(manager.accept(&[1, 2], &mut destination), Step::Idle);
    assert_eq!(destination, vec![7; 4]);
    assert_eq!(manager.begin(), Step::Start { buffer: 0 });
    assert_eq!(manager.accept(&[1, 2], &mut destination), Step::Idle);
    assert_eq!(destination, vec![7; 4]);
    assert_eq!(manager.advance(), Step::Queue { buffer: 1 });
    assert_eq!(manager.advance(), Step::Wait { buffer: 0 });
    assert_eq!(manager.advance(), Step::Idle);
    assert_eq!(manager.accept(&[1, 2], &mut destination), Step::Wait { buffer: 1 });
    assert_eq!(destination, vec![1, 2, 7, 7]);
    assert_eq!(manager.accept(&[3, 4], &mut destination), Step::Finish);
    assert_eq!(destination, vec![1, 2, 3, 4]);
    assert_eq!(manager.accept(&[5, 6], &mut destination), Step::Idle);
    assert_eq!(destination, vec![1, 2, 3, 4]);
}

#[test]
fn a_frame_too_long_for_the_machine_has_no_manager() {
    assert!(DoubleBuffer::new(usize::MAX, 2).is_none());
    assert!(DoubleBuffer::new(usize::MAX, 1).is_some());
    assert!(DoubleBuffer::new(0, usize::MAX).is_some());
}

#[test]
fn the_payload_is_the_words_least_significant_byte_first() {
    assert_eq!(
        payload(&[0x0403_0201, 0xFFEE_DDCC]),
        vec![0x01, 0x02, 0x03, 0x04, 0xCC, 0xDD, 0xEE, 0xFF]
    );
    assert_eq!(payload(&[]), Vec::<u8>::new());
    let words = [0x1234_5678u32, 0, u32::MAX];
    let expected: Vec<u8> = words.iter().flat_map(|w| w.to_le_bytes()).collect();
    assert_eq!(payload(&words), expected);
}

#[test]
fn the_payload_of_an_assembled_frame_is_the_payloads_end_to_end() {
    let (_, source, destination) = assemble(4, 3);
    let mut expected = Vec::new();
    for part in source.chunks(4) {
        expected.extend(payload(part));
    }
    assert_eq!(payload(&destination[..12]), expected);
}
