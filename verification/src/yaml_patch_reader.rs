//! The shape of a sound patch as it is written in a patch file: one
//! layout of settings for each of six parts of the drum machine.

use vstd::prelude::*;

verus! {

#[derive(Debug, Clone, Copy, PartialEq, Eq, Structural)]
pub struct YamlPatchFile {
    pub kick: YamlPatchLayout,
    pub hh: YamlPatchLayout,
    pub snare: YamlPatchLayout,
    pub sound4: YamlPatchLayout,
    pub sound5: YamlPatchLayout,
    pub sound6: YamlPatchLayout,
}

#[derive(Debug, Clone, Copy, PartialEq, Eq, Structural)]
pub struct YamlPatchLayout {
    pub sound_src_type: YamlPatchLayoutSoundSrcType,
    pub mod_type: YamlPatchLayoutModulationType,
    pub amp_eg: YamlPatchLayoutAmpEg,
    pub level: usize,
    pub pitch: usize,
    pub eg_attack: usize,
    pub eg_release: usize,
    pub mod_amount: usize,
    pub mod_rate: usize,
}

#[derive(Debug, Clone, Copy, PartialEq, Eq, Structural)]
pub enum YamlPatchLayoutSoundSrcType {
    WaveSine,
    WaveSaw,
    WaveNoiseHPF,
    WaveNoiseLPF,
    WaveNoiseBPF,
}

#[derive(Debug, Clone, Copy, PartialEq, Eq, Structural)]
pub enum YamlPatchLayoutModulationType {
    ModExp,
    ModTri,
    ModRand,
}

#[derive(Debug, Clone, Copy, PartialEq, Eq, Structural)]
pub enum YamlPatchLayoutAmpEg {
    EnvAd,
    EnvExp,
    EnvMul,
}

} // verus!
