//! Driver of the keyboard synthesizer: decodes note names into pitches
//! and turns each note into messages for its device.

use crate::midi_device::{MidiDevice, MidiMessage};
use crate::volca_drum::{NOTE_OFF_MSG, NOTE_ON_MSG, PROGRAM_CHANGE, VELOCITY};
use vstd::prelude::*;
use vstd::string::*;

verus! {

/// Semitones in an octave; also the pitch at which octave 0 starts.
pub const ONE_OCTAVE_OFFSET: u8 = 12;

/// The program that every note is played with.
pub const KEYS_PROGRAM: u8 = 1;

/// Semitones by which an accidental moves a note: a flat (`b`) one
/// down, a sharp (`#`) one up, anything else not at all.
pub open spec fn note_alteration(alteration: char) -> int {
    if alteration == 'b' {
        -1
    } else if alteration == '#' {
        1
    } else {
        0
    }
}

/// Semitones from C up to the note `letter` moved by `alteration`
/// semitones. Only the twelve spellings between C and B count: a
/// spelling that leaves the octave (C flat, B sharp), a sharp or flat
/// where the natural neighbour is meant (E sharp, F flat) and an
/// unknown letter give 0.
pub open spec fn note_offset(letter: char, alteration: int) -> int {
    if letter == 'C' && alteration == 0 {
        0
    } else if (letter == 'C' && alteration == 1) || (letter == 'D' && alteration == -1) {
        1
    } else if letter == 'D' && alteration == 0 {
        2
    } else if (letter == 'D' && alteration == 1) || (letter == 'E' && alteration == -1) {
        3
    } else if letter == 'E' && alteration == 0 {
        4
    } else if letter == 'F' && alteration == 0 {
        5
    } else if (letter == 'F' && alteration == 1) || (letter == 'G' && alteration == -1) {
        6
    } else if letter == 'G' && alteration == 0 {
        7
    } else if (letter == 'G' && alteration == 1) || (letter == 'A' && alteration == -1) {
        8
    } else if letter == 'A' && alteration == 0 {
        9
    } else if (letter == 'A' && alteration == 1) || (letter == 'B' && alteration == -1) {
        10
    } else if letter == 'B' && alteration == 0 {
        11
    } else {
        0
    }
}

/// Semitones from octave 0 up to the octave with this digit: twelve
/// for each octave from 0 to 6, and 0 for anything else.
pub open spec fn octave_offset(digit: char) -> int {
    if digit == '1' {
        12
    } else if digit == '2' {
        24
    } else if digit == '3' {
        36
    } else if digit == '4' {
        48
    } else if digit == '5' {
        60
    } else if digit == '6' {
        72
    } else {
        0
    }
}

/// The accidental of a note name: its second character where the name
/// has more than two, none otherwise.
pub open spec fn name_alteration(name: Seq<char>) -> int {
    if name.len() > 2 {
        note_alteration(name[1])
    } else {
        0
    }
}

/// The pitch of a note name such as `C#3`: its first character is the
/// letter, its last the octave, and octave 0 starts at 12.
pub open spec fn note_pitch(name: Seq<char>) -> int
    recommends
        name.len() >= 1,
{
    12 + octave_offset(name[name.len() - 1]) + note_offset(name[0], name_alteration(name))
}

/// The messages of one note pulse at `pitch`: select the program, note
/// on, note off.
pub open spec fn note_messages(pitch: u8) -> Seq<MidiMessage> {
    seq![
        MidiMessage { status: 0xC0, data1: 1, data2: 0 },
        MidiMessage { status: 0x90, data1: pitch, data2: 0x70 },
        MidiMessage { status: 0x80, data1: pitch, data2: 0x70 },
    ]
}

/// The messages of the first `count` of `notes`, a pulse for each in
/// their order.
pub open spec fn notes_messages(notes: Seq<Seq<char>>, count: int) -> Seq<MidiMessage>
    decreases count,
{
    if count <= 0 {
        Seq::empty()
    } else {
        notes_messages(notes, count - 1) + note_messages(note_pitch(notes[count - 1]) as u8)
    }
}

/// The messages of a chord: a pulse for each of its notes in their order.
pub open spec fn chord_messages(notes: Seq<Seq<char>>) -> Seq<MidiMessage> {
    notes_messages(notes, notes.len() as int)
}

/// A pitch lies between 12 and 95.
pub proof fn lemma_note_pitch_range(name: Seq<char>)
    ensures
        12 <= note_pitch(name) <= 95,
{
}

/// Semitones from C up to the note `letter` moved by `alteration` semitones.
pub fn get_note_offset_from_letter(letter: char, alteration: i8) -> (offset: u8)
    ensures
        offset == note_offset(letter, alteration as int),
        offset <= 11,
{
    if letter == 'C' && alteration == 0 {
        0
    } else if (letter == 'C' && alteration == 1) || (letter == 'D' && alteration == -1) {
        1
    } else if letter == 'D' && alteration == 0 {
        2
    } else if (letter == 'D' && alteration == 1) || (letter == 'E' && alteration == -1) {
        3
    } else if letter == 'E' && alteration == 0 {
        4
    } else if letter == 'F' && alteration == 0 {
        5
    } else if (letter == 'F' && alteration == 1) || (letter == 'G' && alteration == -1) {
        6
    } else if letter == 'G' && alteration == 0 {
        7
    } else if (letter == 'G' && alteration == 1) || (letter == 'A' && alteration == -1) {
        8
    } else if letter == 'A' && alteration == 0 {
        9
    } else if (letter == 'A' && alteration == 1) || (letter == 'B' && alteration == -1) {
        10
    } else if letter == 'B' && alteration == 0 {
        11
    } else {
        0
    }
}

/// Semitones by which an accidental moves a note.
pub fn get_note_alteration_number(alteration: char) -> (semitones: i8)
    ensures
        semitones == note_alteration(alteration),
{
    if alteration == 'b' {
        -1
    } else if alteration == '#' {
        1
    } else {
        0
    }
}

/// Semitones from octave 0 up to the octave with this digit.
pub fn get_octave_offset_from_letter(digit: char) -> (offset: u8)
    ensures
        offset == octave_offset(digit),
        offset <= 72,
{
    let octave: u8 = if digit == '1' {
        1
    } else if digit == '2' {
        2
    } else if digit == '3' {
        3
    } else if digit == '4' {
        4
    } else if digit == '5' {
        5
    } else if digit == '6' {
        6
    } else {
        0
    };
    ONE_OCTAVE_OFFSET * octave
}

/// The pitch of a note name.
pub fn get_note_pitch(note_str: &String) -> (pitch: u8)
    requires
        note_str@.len() >= 1,
    ensures
        pitch == note_pitch(note_str@),
{
    let name = note_str.as_str();
    let len: usize = name.unicode_len();
    let alteration: i8 = if len > 2 {
        get_note_alteration_number(name.get_char(1))
    } else {
        0
    };
    ONE_OCTAVE_OFFSET + (get_octave_offset_from_letter(name.get_char(len - 1))
        + get_note_offset_from_letter(name.get_char(0), alteration))
}

pub struct VolcaKeys<D: MidiDevice> {
    pub device: D,
}

impl<D: MidiDevice> VolcaKeys<D> {
    pub fn new(device: D) -> (keys: Self)
        ensures
            keys.device == device,
    {
        Self { device }
    }

    /// Everything sent to the device so far.
    pub open spec fn sent(&self) -> Seq<MidiMessage> {
        self.device.sent()
    }

    /// Plays the note with this name: the program is selected, then the
    /// note is switched on and at once off again.
    pub fn note_play_start(&mut self, note_str: String)
        requires
            note_str@.len() >= 1,
        ensures
            final(self).sent() == old(self).sent() + note_messages(note_pitch(note_str@) as u8),
    {
        let note: u8 = get_note_pitch(&note_str);
        self.send_plain_message(PROGRAM_CHANGE, KEYS_PROGRAM, 0);
        self.send_plain_message(NOTE_ON_MSG, note, VELOCITY);
        self.send_plain_message(NOTE_OFF_MSG, note, VELOCITY);
        assert(self.sent() =~= old(self).sent() + note_messages(note));
    }

    /// Sends the three bytes as they are.
    pub fn send_plain_message(&mut self, a: u8, b: u8, c: u8)
        ensures
            final(self).sent() == old(self).sent().push(
                (MidiMessage { status: a, data1: b, data2: c }),
            ),
    {
        self.device.send(a, b, c);
    }
}

} // verus!
