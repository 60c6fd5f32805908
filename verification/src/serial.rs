//! The diagnostic output: what goes on the wire of a serial port for the
//! bytes that are sent through it.
//!
//! A terminal at the other end erases a character when it gets backspace,
//! space, backspace. The port therefore sends that sequence for a backspace
//! and for a delete, and every other byte as it is.

use vstd::prelude::*;
use vstd::string::StringSliceAdditionalSpecFns;

verus! {

/// The first serial interface's base I/O port.
pub const SERIAL1_BASE: u16 = 0x3F8;

/// The backspace control character.
pub const BACKSPACE: u8 = 8;

/// The delete control character.
pub const DELETE: u8 = 0x7F;

/// The space character.
pub const SPACE: u8 = 0x20;

/// The bytes that go on the wire for one byte sent.
pub open spec fn encode(data: u8) -> Seq<u8> {
    if data == BACKSPACE || data == DELETE {
        seq![BACKSPACE, SPACE, BACKSPACE]
    } else {
        seq![data]
    }
}

/// The bytes that go on the wire for a sequence of bytes sent one after the
/// other.
pub open spec fn encode_all(bytes: Seq<u8>) -> Seq<u8>
    decreases bytes.len(),
{
    if bytes.len() == 0 {
        Seq::empty()
    } else {
        encode_all(bytes.drop_last()) + encode(bytes.last())
    }
}

/// What a serial port is, seen from outside: its base I/O port and the bytes
/// that were sent through it and have not been taken off yet.
pub struct Wire {
    pub base: u16,
    pub outgoing: Seq<u8>,
}

/// An interface to a serial port that allows sending out individual bytes.
#[derive(Debug)]
pub struct SerialPort {
    base: u16,
    outgoing: Vec<u8>,
}

impl View for SerialPort {
    type V = Wire;

    closed spec fn view(&self) -> Wire {
        Wire { base: self.base, outgoing: self.outgoing@ }
    }
}

impl SerialPort {
    /// Creates a new serial port interface on the given I/O port, with
    /// nothing sent yet.
    pub fn new(base: u16) -> (port: SerialPort)
        ensures
            port@.base == base,
            port@.outgoing == Seq::<u8>::empty(),
    {
        SerialPort { base, outgoing: Vec::new() }
    }

    /// The base I/O port: the data register of the interface.
    pub fn base(&self) -> (base: u16)
        ensures
            base == self@.base,
    {
        self.base
    }

    /// Sends a byte on the serial port: backspace, space, backspace for a
    /// backspace or a delete, the byte itself otherwise.
    pub fn send(&mut self, data: u8)
        ensures
            final(self)@.base == old(self)@.base,
            final(self)@.outgoing == old(self)@.outgoing + encode(data),
    {
        if data == BACKSPACE || data == DELETE {
            self.outgoing.push(BACKSPACE);
            self.outgoing.push(SPACE);
            self.outgoing.push(BACKSPACE);
        } else {
            self.outgoing.push(data);
        }
    }

    /// Sends the bytes of `s` one after the other.
    pub fn write_str(&mut self, s: &str)
        ensures
            final(self)@.base == old(self)@.base,
            final(self)@.outgoing == old(self)@.outgoing + encode_all(s.spec_bytes()),
    {
        let bytes: &[u8] = s.as_bytes();
        let mut sent: usize = 0;
        while sent < bytes.len()
            invariant
                sent <= bytes@.len(),
                bytes@ == s.spec_bytes(),
                self@.base == old(self)@.base,
                self@.outgoing == old(self)@.outgoing + encode_all(bytes@.take(sent as int)),
            decreases bytes@.len() - sent,
        {
            self.send(bytes[sent]);
            proof {
                let next = bytes@.take(sent + 1);
                assert(next.drop_last() =~= bytes@.take(sent as int));
                assert(self@.outgoing =~= old(self)@.outgoing + encode_all(next));
            }
            sent = sent + 1;
        }
        assert(bytes@.take(sent as int) =~= bytes@);
    }

    /// Takes the bytes off that were sent since the last call, in the order
    /// in which they go on the wire.
    pub fn take_outgoing(&mut self) -> (bytes: Vec<u8>)
        ensures
            bytes@ == old(self)@.outgoing,
            final(self)@.base == old(self)@.base,
            final(self)@.outgoing == Seq::<u8>::empty(),
    {
        let mut bytes: Vec<u8> = Vec::new();
        core::mem::swap(&mut self.outgoing, &mut bytes);
        bytes
    }
}

/// Sending a sequence in two parts puts the same bytes on the wire as
/// sending it in one.
pub proof fn lemma_encode_all_concat(first: Seq<u8>, second: Seq<u8>)
    ensures
        encode_all(first + second) == encode_all(first) + encode_all(second),
    decreases second.len(),
{
    if second.len() == 0 {
        assert(first + second =~= first);
    } else {
        lemma_encode_all_concat(first, second.drop_last());
        assert((first + second).drop_last() =~= first + second.drop_last());
        assert(encode_all(first + second) =~= encode_all(first) + encode_all(second));
    }
}

/// A delete never goes on the wire, and the wire carries at least as many
/// bytes as were sent and at most three times as many.
pub proof fn lemma_wire_has_no_delete(bytes: Seq<u8>)
    ensures
        forall|i: int| 0 <= i < encode_all(bytes).len() ==> encode_all(bytes)[i] != DELETE,
        bytes.len() <= encode_all(bytes).len() <= 3 * bytes.len(),
    decreases bytes.len(),
{
    if bytes.len() > 0 {
        lemma_wire_has_no_delete(bytes.drop_last());
    }
}

/// Bytes other than backspace and delete go on the wire unchanged.
pub proof fn lemma_plain_bytes_unchanged(bytes: Seq<u8>)
    requires
        forall|i: int| 0 <= i < bytes.len() ==> bytes[i] != BACKSPACE && bytes[i] != DELETE,
    ensures
        encode_all(bytes) == bytes,
    decreases bytes.len(),
{
    if bytes.len() > 0 {
        lemma_plain_bytes_unchanged(bytes.drop_last());
        assert(bytes.drop_last() + seq![bytes.last()] =~= bytes);
    }
}

} // verus!
