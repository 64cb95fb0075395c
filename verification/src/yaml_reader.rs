//! The shape of a song definition in its first file format.

use vstd::prelude::*;

verus! {

#[derive(Debug, Clone)]
pub struct YamlTypeSong {
    pub author: String,
    pub title: String,
    pub tempo_1_4: usize,
    pub default_drum_beat: String,
    pub sections: Vec<YamlTypeSection>,
}

#[derive(Debug, Clone)]
pub struct YamlTypeSection {
    pub kind: String,
    pub bars: usize,
    pub notes: Option<String>,
}

} // verus!
