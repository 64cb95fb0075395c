//! The three-byte send primitive that instrument drivers depend on, and
//! a device that keeps what it is sent.

use vstd::prelude::*;

verus! {

/// One message to the hardware: a status byte and two data bytes.
#[derive(Debug, Clone, Copy, PartialEq, Eq, Structural)]
pub struct MidiMessage {
    pub status: u8,
    pub data1: u8,
    pub data2: u8,
}

/// A hardware output. A send is best effort: nothing comes back.
///
/// What a device was sent is part of its contract, so a device is
/// written and proved in this library; the hardware is fed from a
/// [`MidiDeviceGhost`] that the drivers fill.
pub trait MidiDevice {
    /// Every message handed to the device so far, oldest first.
    spec fn sent(&self) -> Seq<MidiMessage>;

    /// Hands the message `a`, `b`, `c` to the device.
    fn send(&mut self, a: u8, b: u8, c: u8)
        ensures
            final(self).sent() == old(self).sent().push(
                (MidiMessage { status: a, data1: b, data2: c }),
            ),
    ;
}

/// A device without hardware: it keeps every message it is sent, in
/// order, for whoever wants to look at them or pass them on.
#[derive(Debug)]
pub struct MidiDeviceGhost {
    pub messages: Vec<MidiMessage>,
}

impl MidiDeviceGhost {
    /// A device that has been sent nothing.
    pub fn new() -> (device: Self)
        ensures
            device.sent() == Seq::<MidiMessage>::empty(),
    {
        Self { messages: Vec::new() }
    }

    /// Hands out the messages kept so far and forgets them.
    pub fn take_messages(&mut self) -> (taken: Vec<MidiMessage>)
        ensures
            taken@ == old(self).sent(),
            final(self).sent() == Seq::<MidiMessage>::empty(),
    {
        let mut taken: Vec<MidiMessage> = Vec::new();
        std::mem::swap(&mut self.messages, &mut taken);
        taken
    }
}

impl MidiDevice for MidiDeviceGhost {
    open spec fn sent(&self) -> Seq<MidiMessage> {
        self.messages@
    }

    fn send(&mut self, a: u8, b: u8, c: u8) {
        self.messages.push(MidiMessage { status: a, data1: b, data2: c });
    }
}

} // verus!
