//! The shape of a song definition as it is written in a song file.

use vstd::prelude::*;

verus! {

/// A song as its file states it: sections only, without patterns.
#[derive(Debug, Clone)]
pub struct YamlSong {
    pub author: String,
    pub title: String,
    pub tempo_1_4: usize,
    pub default_drum_beat: String,
    pub sections: Vec<YamlSongSection>,
}

/// One section of a song file; `kind` is the section kind by name.
#[derive(Debug, Clone)]
pub struct YamlSongSection {
    pub kind: String,
    pub bars: usize,
    pub notes: Option<String>,
}

} // verus!
