//! The FM25L16B ferroelectric memory and the values kept in it.
//!
//! The memory is reached over a serial bus with a chip select of its own.
//! This module names the exchanges: what is written and how much is read
//! while chip select is asserted. The caller performs them.

use vstd::bytes::lemma_auto_spec_u16_to_from_le_bytes;
use vstd::bytes::lemma_auto_spec_u32_to_from_le_bytes;
use vstd::bytes::lemma_auto_spec_u64_to_from_le_bytes;
use vstd::bytes::spec_u16_from_le_bytes;
use vstd::bytes::spec_u16_to_le_bytes;
use vstd::bytes::spec_u32_from_le_bytes;
use vstd::bytes::spec_u32_to_le_bytes;
use vstd::bytes::spec_u64_from_le_bytes;
use vstd::bytes::spec_u64_to_le_bytes;
use vstd::bytes::u16_from_le_bytes;
use vstd::bytes::u16_to_le_bytes;
use vstd::bytes::u32_from_le_bytes;
use vstd::bytes::u32_to_le_bytes;
use vstd::bytes::u64_from_le_bytes;
use vstd::bytes::u64_to_le_bytes;
use vstd::prelude::*;

verus! {

/// The command that lets the next write through.
pub const WRITE_ENABLE: u8 = 0x06;

/// The command that reads from an address on.
pub const READ_MEMORY: u8 = 0x03;

/// The command that writes from an address on.
pub const WRITE_MEMORY: u8 = 0x02;

/// One exchange with the memory: chip select is asserted, `write` is sent,
/// `read` bytes are taken, chip select is released.
#[derive(Debug, PartialEq, Eq)]
pub struct Frame {
    /// The bytes to send, in order.
    pub write: Vec<u8>,
    /// The number of bytes to take after them.
    pub read: usize,
}

/// A write that waits for its enabling: the bytes of the exchange that
/// carries it, held back until the enabling is known to have gone well.
#[derive(Debug)]
pub struct Write {
    carried: Vec<u8>,
}

impl Write {
    /// The bytes that the exchange that carries the write sends.
    pub closed spec fn view(&self) -> Seq<u8> {
        self.carried@
    }

    /// Takes how the enabling went. If it went well, gives the exchange that
    /// carries the write, which reads nothing. If it failed, gives nothing:
    /// the write is over, and neither its command nor its bytes are sent.
    pub fn proceed(self, enabled: bool) -> (frame: Option<Frame>)
        ensures
            frame is Some <==> enabled,
            frame matches Some(f) ==> f.write@ == self@ && f.read == 0,
    {
        if enabled {
            Some(Frame { write: self.carried, read: 0 })
        } else {
            None
        }
    }
}

/// The less significant byte of an address.
pub open spec fn low_address(address: u16) -> u8 {
    (address % 256) as u8
}

/// The more significant byte of an address.
pub open spec fn high_address(address: u16) -> u8 {
    (address / 256) as u8
}

/// A command followed by the two bytes of an address, the less significant
/// first.
pub open spec fn addressed(command: u8, address: u16) -> Seq<u8> {
    seq![command, low_address(address), high_address(address)]
}

/// An integer that can be kept in the memory, in the byte order of the
/// machine the firmware runs on: least significant byte first.
pub trait NativeByteOrder: Sized {
    /// The number of bytes a value takes.
    spec fn width() -> nat;

    /// The bytes of a value.
    spec fn encoding(self) -> Seq<u8>;

    /// The value that `width` bytes stand for.
    spec fn decoding(bytes: Seq<u8>) -> Self;

    /// A value takes `width` bytes, and is what its bytes stand for.
    proof fn lemma_round_trip(self)
        ensures
            self.encoding().len() == Self::width(),
            Self::decoding(self.encoding()) == self,
    ;

    /// The number of bytes a value takes.
    fn size() -> (bytes: usize)
        ensures
            bytes == Self::width(),
    ;

    fn from_ne_bytes(bytes: &[u8]) -> (value: Self)
        requires
            bytes@.len() == Self::width(),
        ensures
            value == Self::decoding(bytes@),
    ;

    fn to_ne_bytes(self) -> (bytes: Vec<u8>)
        ensures
            bytes@ == self.encoding(),
    ;
}

impl NativeByteOrder for u8 {
    open spec fn width() -> nat {
        1
    }

    open spec fn encoding(self) -> Seq<u8> {
        seq![self]
    }

    open spec fn decoding(bytes: Seq<u8>) -> Self {
        bytes[0]
    }

    proof fn lemma_round_trip(self) {
    }

    fn size() -> (bytes: usize) {
        1
    }

    fn from_ne_bytes(bytes: &[u8]) -> (value: Self) {
        bytes[0]
    }

    fn to_ne_bytes(self) -> (bytes: Vec<u8>) {
        let mut bytes: Vec<u8> = Vec::new();
        bytes.push(self);
        bytes
    }
}

impl NativeByteOrder for i8 {
    open spec fn width() -> nat {
        1
    }

    open spec fn encoding(self) -> Seq<u8> {
        seq![self as u8]
    }

    open spec fn decoding(bytes: Seq<u8>) -> Self {
        bytes[0] as i8
    }

    proof fn lemma_round_trip(self) {
        assert((self as u8) as i8 == self) by (bit_vector);
    }

    fn size() -> (bytes: usize) {
        1
    }

    fn from_ne_bytes(bytes: &[u8]) -> (value: Self) {
        #[verifier::truncate]
        (bytes[0] as i8)
    }

    fn to_ne_bytes(self) -> (bytes: Vec<u8>) {
        let mut bytes: Vec<u8> = Vec::new();
        bytes.push(
            #[verifier::truncate]
            (self as u8),
        );
        bytes
    }
}

impl NativeByteOrder for i16 {
    open spec fn width() -> nat {
        2
    }

    open spec fn encoding(self) -> Seq<u8> {
        spec_u16_to_le_bytes(self as u16)
    }

    open spec fn decoding(bytes: Seq<u8>) -> Self {
        spec_u16_from_le_bytes(bytes) as i16
    }

    proof fn lemma_round_trip(self) {
        lemma_auto_spec_u16_to_from_le_bytes();
        assert(spec_u16_to_le_bytes(self as u16).len() == 2);
        assert((self as u16) as i16 == self) by (bit_vector);
    }

    fn size() -> (bytes: usize) {
        2
    }

    fn from_ne_bytes(bytes: &[u8]) -> (value: Self) {
        #[verifier::truncate]
        (u16_from_le_bytes(bytes) as i16)
    }

    fn to_ne_bytes(self) -> (bytes: Vec<u8>) {
        u16_to_le_bytes(
            #[verifier::truncate]
            (self as u16),
        )
    }
}

impl NativeByteOrder for u16 {
    open spec fn width() -> nat {
        2
    }

    open spec fn encoding(self) -> Seq<u8> {
        spec_u16_to_le_bytes(self)
    }

    open spec fn decoding(bytes: Seq<u8>) -> Self {
        spec_u16_from_le_bytes(bytes)
    }

    proof fn lemma_round_trip(self) {
        lemma_auto_spec_u16_to_from_le_bytes();
        assert(spec_u16_to_le_bytes(self).len() == 2);
    }

    fn size() -> (bytes: usize) {
        2
    }

    fn from_ne_bytes(bytes: &[u8]) -> (value: Self) {
        u16_from_le_bytes(bytes)
    }

    fn to_ne_bytes(self) -> (bytes: Vec<u8>) {
        u16_to_le_bytes(self)
    }
}

impl NativeByteOrder for i32 {
    open spec fn width() -> nat {
        4
    }

    open spec fn encoding(self) -> Seq<u8> {
        spec_u32_to_le_bytes(self as u32)
    }

    open spec fn decoding(bytes: Seq<u8>) -> Self {
        spec_u32_from_le_bytes(bytes) as i32
    }

    proof fn lemma_round_trip(self) {
        lemma_auto_spec_u32_to_from_le_bytes();
        assert(spec_u32_to_le_bytes(self as u32).len() == 4);
        assert((self as u32) as i32 == self) by (bit_vector);
    }

    fn size() -> (bytes: usize) {
        4
    }

    fn from_ne_bytes(bytes: &[u8]) -> (value: Self) {
        #[verifier::truncate]
        (u32_from_le_bytes(bytes) as i32)
    }

    fn to_ne_bytes(self) -> (bytes: Vec<u8>) {
        u32_to_le_bytes(
            #[verifier::truncate]
            (self as u32),
        )
    }
}

impl NativeByteOrder for u32 {
    open spec fn width() -> nat {
        4
    }

    open spec fn encoding(self) -> Seq<u8> {
        spec_u32_to_le_bytes(self)
    }

    open spec fn decoding(bytes: Seq<u8>) -> Self {
        spec_u32_from_le_bytes(bytes)
    }

    proof fn lemma_round_trip(self) {
        lemma_auto_spec_u32_to_from_le_bytes();
        assert(spec_u32_to_le_bytes(self).len() == 4);
    }

    fn size() -> (bytes: usize) {
        4
    }

    fn from_ne_bytes(bytes: &[u8]) -> (value: Self) {
        u32_from_le_bytes(bytes)
    }

    fn to_ne_bytes(self) -> (bytes: Vec<u8>) {
        u32_to_le_bytes(self)
    }
}

impl NativeByteOrder for i64 {
    open spec fn width() -> nat {
        8
    }

    open spec fn encoding(self) -> Seq<u8> {
        spec_u64_to_le_bytes(self as u64)
    }

    open spec fn decoding(bytes: Seq<u8>) -> Self {
        spec_u64_from_le_bytes(bytes) as i64
    }

    proof fn lemma_round_trip(self) {
        lemma_auto_spec_u64_to_from_le_bytes();
        assert((self as u64) as i64 == self) by (bit_vector);
    }

    fn size() -> (bytes: usize) {
        8
    }

    fn from_ne_bytes(bytes: &[u8]) -> (value: Self) {
        #[verifier::truncate]
        (u64_from_le_bytes(bytes) as i64)
    }

    fn to_ne_bytes(self) -> (bytes: Vec<u8>) {
        u64_to_le_bytes(
            #[verifier::truncate]
            (self as u64),
        )
    }
}

impl NativeByteOrder for u64 {
    open spec fn width() -> nat {
        8
    }

    open spec fn encoding(self) -> Seq<u8> {
        spec_u64_to_le_bytes(self)
    }

    open spec fn decoding(bytes: Seq<u8>) -> Self {
        spec_u64_from_le_bytes(bytes)
    }

    proof fn lemma_round_trip(self) {
        lemma_auto_spec_u64_to_from_le_bytes();
    }

    fn size() -> (bytes: usize) {
        8
    }

    fn from_ne_bytes(bytes: &[u8]) -> (value: Self) {
        u64_from_le_bytes(bytes)
    }

    fn to_ne_bytes(self) -> (bytes: Vec<u8>) {
        u64_to_le_bytes(self)
    }
}

/// The driver of one FM25L16B.
#[derive(Debug, Clone, Copy)]
pub struct FM25L16B {}

impl FM25L16B {
    /// A driver for the memory. Its chip select rests high.
    pub fn new() -> Self {
        FM25L16B {  }
    }

    /// The exchange that reads `len` bytes from `address` on.
    pub fn read_bytes(&self, address: u16, len: usize) -> (frame: Frame)
        ensures
            frame.write@ == addressed(READ_MEMORY, address),
            frame.read == len,
    {
        let mut write: Vec<u8> = Vec::new();
        write.push(READ_MEMORY);
        write.push((address % 256) as u8);
        write.push((address / 256) as u8);
        Frame { write, read: len }
    }

    /// Starts a write of `bytes` from `address` on. The exchange to perform
    /// first enables the write and reads nothing; the write itself waits
    /// for how that exchange went, and is carried by a second exchange only
    /// if it went well.
    pub fn write_bytes(&self, address: u16, bytes: &[u8]) -> (started: (Frame, Write))
        ensures
            started.0.write@ == seq![WRITE_ENABLE],
            started.0.read == 0,
            started.1@ == addressed(WRITE_MEMORY, address) + bytes@,
    {
        let mut enable: Vec<u8> = Vec::new();
        enable.push(WRITE_ENABLE);
        let mut write: Vec<u8> = Vec::new();
        write.push(WRITE_MEMORY);
        write.push((address % 256) as u8);
        write.push((address / 256) as u8);
        let mut index: usize = 0;
        while index < bytes.len()
            invariant
                index <= bytes@.len(),
                write@ == addressed(WRITE_MEMORY, address) + bytes@.subrange(0, index as int),
            decreases bytes@.len() - index,
        {
            write.push(bytes[index]);
            index = index + 1;
        }
        (Frame { write: enable, read: 0 }, Write { carried: write })
    }

    /// The exchange that reads a value of type `T` kept at `address`. The
    /// bytes it brings are turned into the value by `T::from_ne_bytes`.
    pub fn read<T: NativeByteOrder>(&self, address: u16) -> (frame: Frame)
        ensures
            frame.write@ == addressed(READ_MEMORY, address),
            frame.read == T::width(),
    {
        self.read_bytes(address, T::size())
    }

    /// Starts a write that keeps `value` at `address`: the exchange that
    /// enables it, and the write that waits for how that exchange went.
    pub fn write<T: NativeByteOrder>(&self, address: u16, value: T) -> (started: (Frame, Write))
        ensures
            started.0.write@ == seq![WRITE_ENABLE],
            started.0.read == 0,
            started.1@ == addressed(WRITE_MEMORY, address) + value.encoding(),
    {
        let bytes = value.to_ne_bytes();
        self.write_bytes(address, bytes.as_slice())
    }
}

} // verus!
