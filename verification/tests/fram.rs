use firmware::counter::{image_number, Counter, Fault, Reply, Request, COUNTER_ADDRESS};
use firmware::fram::{NativeByteOrder, FM25L16B};

#[test]
fn a_read_sends_the_command_and_the_address() {
    let fram = FM25L16B::new();
    let frame = fram.read_bytes(0x1234, 5);
    assert_eq!(frame.write, vec![0x03, 0x34, 0x12]);
    assert_eq!(frame.read, 5);
    let frame = fram.read_bytes(0, 8);
    assert_eq!(frame.write, vec![0x03, 0x00, 0x00]);
    assert_eq!(frame.read, 8);
}

#[test]
fn a_write_is_enabled_first() {
    let fram = FM25L16B::new();
    let (enable, write) = fram.write_bytes(0x0102, &[9, 8, 7]);
    assert_eq!(enable.write, vec![0x06]);
    assert_eq!(enable.read, 0);
    let write = write.proceed(true).unwrap();
    assert_eq!(write.write, vec![0x02, 0x02, 0x01, 9, 8, 7]);
    assert_eq!(write.read, 0);
    let (_, empty) = fram.write_bytes(0, &[]);
    assert_eq!(empty.proceed(true).unwrap().write, vec![0x02, 0, 0]);
}

#[test]
fn a_write_whose_enabling_failed_is_not_sent() {
    let fram = FM25L16B::new();
    let (enable, write) = fram.write_bytes(0x0102, &[9, 8, 7]);
    assert_eq!(enable.write, vec![0x06]);
    assert_eq!(write.proceed(false), None);
    let (enable, write) = fram.write::<u64>(0, 42);
    assert_eq!(enable.write, vec![0x06]);
    assert_eq!(write.proceed(false), None);
}

/// A stand-in for the memory and its bus, on which an exchange can be made
/// to fail.
fn write_through(
    store: &mut Vec<u8>,
    fail_at: Option<usize>,
    address: u16,
    bytes: &[u8],
) -> (Result<(), ()>, Vec<Vec<u8>>) {
    let fram = FM25L16B::new();
    let mut sent = Vec::new();
    let mut enabled = false;
    let mut perform = |frame: &firmware::fram::Frame, sent: &mut Vec<Vec<u8>>| {
        let index = sent.len();
        sent.push(frame.write.clone());
        if fail_at == Some(index) {
            return false;
        }
        if frame.write == vec![0x06] {
            enabled = true;
        } else if frame.write[0] == 0x02 && enabled {
            let at = frame.write[1] as usize | (frame.write[2] as usize) << 8;
            store[at..at + frame.write.len() - 3].copy_from_slice(&frame.write[3..]);
            enabled = false;
        }
        true
    };
    let (enable, write) = fram.write_bytes(address, bytes);
    let went_well = perform(&enable, &mut sent);
    let result = match write.proceed(went_well) {
        None => Err(()),
        Some(frame) => {
            if perform(&frame, &mut sent) {
                Ok(())
            } else {
                Err(())
            }
        }
    };
    (result, sent)
}

#[test]
fn a_failed_enabling_leaves_the_memory_as_it_was() {
    let mut store = vec![0xAAu8; 16];
    let (result, sent) = write_through(&mut store, Some(0), 4, &[1, 2, 3]);
    assert_eq!(result, Err(()));
    assert_eq!(sent, vec![vec![0x06]]);
    assert_eq!(store, vec![0xAA; 16]);
    let (result, sent) = write_through(&mut store, Some(1), 4, &[1, 2, 3]);
    assert_eq!(result, Err(()));
    assert_eq!(sent.len(), 2);
    assert_eq!(store, vec![0xAA; 16]);
    let (result, sent) = write_through(&mut store, None, 4, &[1, 2, 3]);
    assert_eq!(result, Ok(()));
    assert_eq!(sent, vec![vec![0x06], vec![0x02, 4, 0, 1, 2, 3]]);
    assert_eq!(&store[4..7], &[1, 2, 3]);
    assert_eq!(&store[..4], &[0xAA; 4]);
}

#[test]
fn values_are_kept_least_significant_byte_first() {
    let fram = FM25L16B::new();
    let (enable, write) = fram.write::<u32>(4, 0x0A0B_0C0D);
    assert_eq!(enable.write, vec![0x06]);
    assert_eq!(
        write.proceed(true).unwrap().write,
        vec![0x02, 4, 0, 0x0D, 0x0C, 0x0B, 0x0A]
    );
    let (_, write) = fram.write::<i16>(0, -2);
    assert_eq!(write.proceed(true).unwrap().write, vec![0x02, 0, 0, 0xFE, 0xFF]);
    let (_, write) = fram.write::<u64>(0, 1);
    assert_eq!(
        write.proceed(true).unwrap().write,
        vec![0x02, 0, 0, 1, 0, 0, 0, 0, 0, 0, 0]
    );
}

#[test]
fn a_typed_read_asks_for_the_width_of_the_type() {
    let fram = FM25L16B::new();
    assert_eq!(fram.read::<u8>(0).read, 1);
    assert_eq!(fram.read::<i8>(0).read, 1);
    assert_eq!(fram.read::<u16>(0).read, 2);
    assert_eq!(fram.read::<i16>(0).read, 2);
    assert_eq!(fram.read::<u32>(0).read, 4);
    assert_eq!(fram.read::<i32>(0).read, 4);
    assert_eq!(fram.read::<u64>(0).read, 8);
    assert_eq!(fram.read::<i64>(0).read, 8);
    assert_eq!(fram.read::<u64>(0x0201).write, vec![0x03, 0x01, 0x02]);
}

#[test]
fn unsigned_values_round_trip() {
    for value in [0u8, 1, 0x7F, 0x80, 0xFF] {
        let bytes = NativeByteOrder::to_ne_bytes(value);
        assert_eq!(bytes, vec![value]);
        assert_eq!(<u8 as NativeByteOrder>::from_ne_bytes(&bytes), value);
    }
    for value in [0u16, 1, 0x1234, 0xFFFF] {
        let bytes = NativeByteOrder::to_ne_bytes(value);
        assert_eq!(bytes, value.to_le_bytes().to_vec());
        assert_eq!(<u16 as NativeByteOrder>::from_ne_bytes(&bytes), value);
    }
    for value in [0u32, 1, 0x1234_5678, u32::MAX] {
        let bytes = NativeByteOrder::to_ne_bytes(value);
        assert_eq!(bytes, value.to_le_bytes().to_vec());
        assert_eq!(<u32 as NativeByteOrder>::from_ne_bytes(&bytes), value);
    }
    for value in [0u64, 1, 0x0123_4567_89AB_CDEF, u64::MAX] {
        let bytes = NativeByteOrder::to_ne_bytes(value);
        assert_eq!(bytes, value.to_le_bytes().to_vec());
        assert_eq!(<u64 as NativeByteOrder>::from_ne_bytes(&bytes), value);
    }
}

#[test]
fn signed_values_round_trip() {
    for value in [0i8, 1, -1, i8::MIN, i8::MAX] {
        let bytes = NativeByteOrder::to_ne_bytes(value);
        assert_eq!(bytes, value.to_le_bytes().to_vec());
        assert_eq!(<i8 as NativeByteOrder>::from_ne_bytes(&bytes), value);
    }
    for value in [0i16, 1, -1, i16::MIN, i16::MAX] {
        let bytes = NativeByteOrder::to_ne_bytes(value);
        assert_eq!(bytes, value.to_le_bytes().to_vec());
        assert_eq!(<i16 as NativeByteOrder>::from_ne_bytes(&bytes), value);
    }
    for value in [0i32, 1, -1, i32::MIN, i32::MAX] {
        let bytes = NativeByteOrder::to_ne_bytes(value);
        assert_eq!(bytes, value.to_le_bytes().to_vec());
        assert_eq!(<i32 as NativeByteOrder>::from_ne_bytes(&bytes), value);
    }
    for value in [0i64, 1, -1, i64::MIN, i64::MAX] {
        let bytes = NativeByteOrder::to_ne_bytes(value);
        assert_eq!(bytes, value.to_le_bytes().to_vec());
        assert_eq!(<i64 as NativeByteOrder>::from_ne_bytes(&bytes), value);
    }
}

#[test]
fn the_sizes_are_those_of_the_types() {
    assert_eq!(<u8 as NativeByteOrder>::size(), 1);
    assert_eq!(<i8 as NativeByteOrder>::size(), 1);
    assert_eq!(<u16 as NativeByteOrder>::size(), 2);
    assert_eq!(<i16 as NativeByteOrder>::size(), 2);
    assert_eq!(<u32 as NativeByteOrder>::size(), 4);
    assert_eq!(<i32 as NativeByteOrder>::size(), 4);
    assert_eq!(<u64 as NativeByteOrder>::size(), 8);
    assert_eq!(<i64 as NativeByteOrder>::size(), 8);
}

/// A stand-in for the memory, which holds a count and loses power on demand.
struct Memory {
    bytes: [u8; 8],
    enabled: bool,
}

/// Runs one cycle with power for `power` exchanges.
fn cycle(memory: &mut Memory, counter: &mut Counter, power: usize) -> Option<Result<u64, Fault>> {
    let mut request = counter.begin();
    let mut left = power;
    loop {
        let reply = match request {
            Request::Taken { number } => return Some(Ok(number)),
            Request::Refused(fault) => return Some(Err(fault)),
            Request::Idle => panic!("out of turn"),
            _ if left == 0 => return None,
            Request::Read => {
                let frame = counter.frame(request).unwrap();
                assert_eq!(frame.write, vec![0x03, 0, 0]);
                assert_eq!(frame.read, 8);
                counter.heard(&memory.bytes)
            }
            Request::Enable => {
                assert_eq!(counter.frame(request).unwrap().write, vec![0x06]);
                memory.enabled = true;
                Reply::Done
            }
            Request::Write { .. } => {
                let frame = counter.frame(request).unwrap();
                assert_eq!(&frame.write[..3], &[0x02, 0, 0]);
                if memory.enabled {
                    memory.bytes.copy_from_slice(&frame.write[3..]);
                    memory.enabled = false;
                }
                Reply::Done
            }
        };
        left -= 1;
        request = counter.advance(reply);
    }
}

#[test]
fn a_cycle_gives_out_the_count_and_leaves_the_next() {
    let mut memory = Memory { bytes: 41u64.to_le_bytes(), enabled: false };
    let mut counter = Counter::new();
    assert_eq!(cycle(&mut memory, &mut counter, 9), Some(Ok(41)));
    assert_eq!(u64::from_le_bytes(memory.bytes), 42);
    assert_eq!(cycle(&mut memory, &mut counter, 9), Some(Ok(42)));
    assert_eq!(u64::from_le_bytes(memory.bytes), 43);
    assert_eq!(COUNTER_ADDRESS, 0);
}

#[test]
fn the_requests_of_a_cycle() {
    let mut counter = Counter::new();
    assert_eq!(counter.advance(Reply::Done), Request::Idle);
    assert_eq!(counter.begin(), Request::Read);
    assert_eq!(counter.advance(Reply::Value(7)), Request::Enable);
    assert_eq!(counter.advance(Reply::Done), Request::Write { value: 8 });
    assert_eq!(counter.advance(Reply::Done), Request::Taken { number: 7 });
    assert_eq!(counter.advance(Reply::Done), Request::Idle);
    assert!(counter.frame(Request::Idle).is_none());
    assert!(counter.frame(Request::Taken { number: 1 }).is_none());
    assert_eq!(
        counter.frame(Request::Write { value: 0x0102 }).unwrap().write,
        vec![0x02, 0, 0, 0x02, 0x01, 0, 0, 0, 0, 0, 0]
    );
}

#[test]
fn a_failed_exchange_ends_the_cycle() {
    let mut counter = Counter::new();
    counter.begin();
    assert_eq!(counter.advance(Reply::Failed), Request::Refused(Fault::Bus));
    assert_eq!(counter.advance(Reply::Done), Request::Idle);
    counter.begin();
    assert_eq!(counter.advance(Reply::Done), Request::Refused(Fault::Bus));
    counter.begin();
    counter.advance(Reply::Value(3));
    assert_eq!(counter.advance(Reply::Failed), Request::Refused(Fault::Bus));
    counter.begin();
    counter.advance(Reply::Value(3));
    counter.advance(Reply::Done);
    assert_eq!(counter.advance(Reply::Failed), Request::Refused(Fault::Bus));
    assert_eq!(counter.heard(&[1, 2, 3]), Reply::Failed);
    assert_eq!(counter.heard(&[1, 0, 0, 0, 0, 0, 0, 0]), Reply::Value(1));
}

#[test]
fn a_count_that_cannot_go_on_is_refused_and_not_written() {
    let mut memory = Memory { bytes: u64::MAX.to_le_bytes(), enabled: false };
    let mut counter = Counter::new();
    assert_eq!(cycle(&mut memory, &mut counter, 9), Some(Err(Fault::Exhausted)));
    assert_eq!(u64::from_le_bytes(memory.bytes), u64::MAX);
    let mut memory = Memory { bytes: (u64::MAX - 1).to_le_bytes(), enabled: false };
    assert_eq!(cycle(&mut memory, &mut counter, 9), Some(Ok(u64::MAX - 1)));
    assert_eq!(u64::from_le_bytes(memory.bytes), u64::MAX);
}

#[test]
fn numbers_only_grow_whenever_the_power_fails() {
    for pattern in 0..4usize.pow(6) {
        let mut memory = Memory { bytes: 100u64.to_le_bytes(), enabled: false };
        let mut given = Vec::new();
        let mut rest = pattern;
        for _ in 0..6 {
            let power = rest % 4;
            rest /= 4;
            let mut counter = Counter::new();
            let before = u64::from_le_bytes(memory.bytes);
            match cycle(&mut memory, &mut counter, power) {
                Some(Ok(number)) => {
                    assert_eq!(number, before);
                    given.push(number);
                }
                Some(Err(fault)) => panic!("{fault:?}"),
                None => assert!(power < 3),
            }
            let after = u64::from_le_bytes(memory.bytes);
            assert!(after == before || after == before + 1);
            for number in &given {
                assert!(*number < after);
            }
        }
        for pair in given.windows(2) {
            assert!(pair[0] < pair[1]);
        }
    }
}

#[test]
fn the_image_number_wraps_at_sixteen_bits() {
    assert_eq!(image_number(0), 0);
    assert_eq!(image_number(65535), 65535);
    assert_eq!(image_number(65536), 0);
    assert_eq!(image_number(65537), 1);
    assert_eq!(image_number(u64::MAX), 65535);
}
