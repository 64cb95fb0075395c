//! Driver of the drum machine: turns hits and parameter changes into
//! messages for its device.

use crate::midi_device::{MidiDevice, MidiMessage};
use vstd::prelude::*;

verus! {

pub const DRUM_CH_KICK: u8 = 0;

pub const DRUM_CH_HH: u8 = 1;

pub const DRUM_CH_SNARE: u8 = 2;

/// The note that a hit plays unless told otherwise.
pub const DEFAULT_NOTE_VALUE: u8 = 7;

pub const PROGRAM_CHANGE: u8 = 0xC0;

pub const NOTE_ON_MSG: u8 = 0x90;

pub const NOTE_OFF_MSG: u8 = 0x80;

pub const VELOCITY: u8 = 0x70;

/// The messages of one note pulse on part `instr`: select the part,
/// note on, note off.
pub open spec fn hit_messages(note: u8, instr: u8) -> Seq<MidiMessage> {
    seq![
        MidiMessage { status: 0xC0, data1: instr, data2: 0 },
        MidiMessage { status: 0x90, data1: note, data2: 0x70 },
        MidiMessage { status: 0x80, data1: note, data2: 0x70 },
    ]
}

/// The control change that sets controller `cc_number` of `channel` to
/// `value`: the channel is cut to four bits, number and value to seven.
pub open spec fn cc_message(channel: u8, cc_number: u8, value: u8) -> MidiMessage {
    MidiMessage { status: 0xb0 | (channel & 0x0f), data1: cc_number & 0x7f, data2: value & 0x7f }
}

pub struct VolcaDrum<D: MidiDevice> {
    pub device: D,
}

impl<D: MidiDevice> VolcaDrum<D> {
    pub fn new(device: D) -> (drum: Self)
        ensures
            drum.device == device,
    {
        Self { device }
    }

    /// Everything sent to the device so far.
    pub open spec fn sent(&self) -> Seq<MidiMessage> {
        self.device.sent()
    }

    /// Hits the hi-hat.
    pub fn hit_hh(&mut self)
        ensures
            final(self).sent() == old(self).sent() + hit_messages(DEFAULT_NOTE_VALUE, DRUM_CH_HH),
    {
        self.hit(DEFAULT_NOTE_VALUE, DRUM_CH_HH);
    }

    /// Hits the kick drum.
    pub fn hit_kick(&mut self)
        ensures
            final(self).sent() == old(self).sent() + hit_messages(
                DEFAULT_NOTE_VALUE,
                DRUM_CH_KICK,
            ),
    {
        self.hit(DEFAULT_NOTE_VALUE, DRUM_CH_KICK);
    }

    /// Hits the snare drum.
    pub fn hit_snare(&mut self)
        ensures
            final(self).sent() == old(self).sent() + hit_messages(
                DEFAULT_NOTE_VALUE,
                DRUM_CH_SNARE,
            ),
    {
        self.hit(DEFAULT_NOTE_VALUE, DRUM_CH_SNARE);
    }

    /// Plays `note` on part `instr`: the part is selected, then the note
    /// is switched on and at once off again.
    pub fn hit(&mut self, note: u8, instr: u8)
        ensures
            final(self).sent() == old(self).sent() + hit_messages(note, instr),
    {
        self.send_plain_message(PROGRAM_CHANGE, instr, 0);
        self.send_plain_message(NOTE_ON_MSG, note, VELOCITY);
        self.send_plain_message(NOTE_OFF_MSG, note, VELOCITY);
        assert(self.sent() =~= old(self).sent() + hit_messages(note, instr));
    }

    /// Sends the three bytes as they are.
    pub fn send_plain_message(&mut self, a: u8, b: u8, c: u8)
        ensures
            final(self).sent() == old(self).sent().push(
                (MidiMessage { status: a, data1: b, data2: c }),
            ),
    {
        self.device.send(a, b, c);
    }

    /// Sets controller `cc_number` of `channel` to `value`.
    pub fn send_cc_message(&mut self, channel: u8, cc_number: u8, value: u8)
        ensures
            final(self).sent() == old(self).sent().push(cc_message(channel, cc_number, value)),
    {
        self.send_plain_message(0xb0 | (channel & 0x0f), cc_number & 0x7f, value & 0x7f);
    }
}

/// A control change has a status of 0xB0 to 0xBF, whose low four bits
/// are those of the channel, and data bytes below 128.
pub proof fn lemma_cc_message_in_range(channel: u8, cc_number: u8, value: u8)
    ensures
        0xb0 <= cc_message(channel, cc_number, value).status <= 0xbf,
        cc_message(channel, cc_number, value).status & 0x0f == channel & 0x0f,
        cc_message(channel, cc_number, value).data1 < 128,
        cc_message(channel, cc_number, value).data2 < 128,
        cc_number < 128 ==> cc_message(channel, cc_number, value).data1 == cc_number,
        value < 128 ==> cc_message(channel, cc_number, value).data2 == value,
{
    assert(0xb0u8 <= (0xb0u8 | (channel & 0x0f)) <= 0xbfu8) by (bit_vector);
    assert((0xb0u8 | (channel & 0x0f)) & 0x0f == channel & 0x0f) by (bit_vector);
    assert(cc_number & 0x7f < 128u8) by (bit_vector);
    assert(value & 0x7f < 128u8) by (bit_vector);
    assert(cc_number < 128u8 ==> cc_number & 0x7f == cc_number) by (bit_vector);
    assert(value < 128u8 ==> value & 0x7f == value) by (bit_vector);
}

} // verus!
