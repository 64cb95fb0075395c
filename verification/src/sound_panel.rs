//! The sound panel of the drum machine: sets the sound of a part from
//! a patch, one control change for each setting.

use crate::midi_device::{MidiDevice, MidiMessage};
use crate::volca_drum::{cc_message, VolcaDrum, DRUM_CH_HH, DRUM_CH_KICK, DRUM_CH_SNARE};
use crate::yaml_patch_reader::{
    YamlPatchFile, YamlPatchLayout, YamlPatchLayoutAmpEg, YamlPatchLayoutModulationType,
    YamlPatchLayoutSoundSrcType,
};
use vstd::prelude::*;

verus! {

/// The controller that selects sound source, modulation and envelope
/// of layer 1.
pub const CC_NUMBER_LAYOUT_1_SOUND: u8 = 14;

/// The controller of the level of layer 2; level 0 silences the layer.
pub const CC_NUMBER_LAYOUT_2_LEVEL: u8 = 18;

#[derive(Debug, Clone, Copy, PartialEq, Eq, Structural)]
pub enum SoundSourceType {
    WaveSine,
    WaveSaw,
    WaveNoiseHPF,
    WaveNoiseLPF,
    WaveNoiseBPF,
}

#[derive(Debug, Clone, Copy, PartialEq, Eq, Structural)]
pub enum ModulationType {
    ModExp,
    ModTri,
    ModRand,
}

#[derive(Debug, Clone, Copy, PartialEq, Eq, Structural)]
pub enum AmpEg {
    EnvAd,
    EnvExp,
    EnvMul,
}

#[derive(Debug, Clone, Copy, PartialEq, Eq, Structural)]
pub enum ParamSoundType {
    Level,
    Pitch,
    EgAttack,
    EgRelease,
    ModAmount,
    ModRate,
}

/// The value that selects a sound source.
pub open spec fn sound_source_value(sound_source_type: SoundSourceType) -> u8 {
    match sound_source_type {
        SoundSourceType::WaveSine => 24,
        SoundSourceType::WaveSaw => 50,
        SoundSourceType::WaveNoiseHPF => 76,
        SoundSourceType::WaveNoiseLPF => 101,
        SoundSourceType::WaveNoiseBPF => 127,
    }
}

/// The value that selects a modulation.
pub open spec fn modulation_value(modulation_type: ModulationType) -> u8 {
    match modulation_type {
        ModulationType::ModExp => 109,
        ModulationType::ModTri => 118,
        ModulationType::ModRand => 127,
    }
}

/// The value that selects an amplitude envelope.
pub open spec fn amp_eg_value(amp_eg: AmpEg) -> u8 {
    match amp_eg {
        AmpEg::EnvAd => 121,
        AmpEg::EnvExp => 124,
        AmpEg::EnvMul => 127,
    }
}

/// The controller of a sound parameter.
pub open spec fn param_cc_number(param: ParamSoundType) -> u8 {
    match param {
        ParamSoundType::Level => 17,
        ParamSoundType::Pitch => 26,
        ParamSoundType::EgAttack => 20,
        ParamSoundType::EgRelease => 23,
        ParamSoundType::ModAmount => 29,
        ParamSoundType::ModRate => 46,
    }
}

/// The sound source that a patch names.
pub open spec fn patch_sound_source(
    sound_src_type: YamlPatchLayoutSoundSrcType,
) -> SoundSourceType {
    match sound_src_type {
        YamlPatchLayoutSoundSrcType::WaveSine => SoundSourceType::WaveSine,
        YamlPatchLayoutSoundSrcType::WaveSaw => SoundSourceType::WaveSaw,
        YamlPatchLayoutSoundSrcType::WaveNoiseHPF => SoundSourceType::WaveNoiseHPF,
        YamlPatchLayoutSoundSrcType::WaveNoiseLPF => SoundSourceType::WaveNoiseLPF,
        YamlPatchLayoutSoundSrcType::WaveNoiseBPF => SoundSourceType::WaveNoiseBPF,
    }
}

/// The modulation that a patch names.
pub open spec fn patch_modulation(mod_type: YamlPatchLayoutModulationType) -> ModulationType {
    match mod_type {
        YamlPatchLayoutModulationType::ModExp => ModulationType::ModExp,
        YamlPatchLayoutModulationType::ModTri => ModulationType::ModTri,
        YamlPatchLayoutModulationType::ModRand => ModulationType::ModRand,
    }
}

/// The amplitude envelope that a patch names.
pub open spec fn patch_amp_eg(amp_eg: YamlPatchLayoutAmpEg) -> AmpEg {
    match amp_eg {
        YamlPatchLayoutAmpEg::EnvAd => AmpEg::EnvAd,
        YamlPatchLayoutAmpEg::EnvExp => AmpEg::EnvExp,
        YamlPatchLayoutAmpEg::EnvMul => AmpEg::EnvMul,
    }
}

/// A setting of a patch as a byte: its low eight bits.
pub open spec fn low_byte(value: usize) -> u8 {
    (value % 256) as u8
}

/// The control changes that set layer 1 of `channel` from a patch
/// layout: sound source, modulation, envelope, then level, pitch,
/// attack, release, modulation amount and modulation rate.
pub open spec fn layout_messages(channel: u8, layout: YamlPatchLayout) -> Seq<MidiMessage> {
    seq![
        cc_message(channel, 14, sound_source_value(patch_sound_source(layout.sound_src_type))),
        cc_message(channel, 14, modulation_value(patch_modulation(layout.mod_type))),
        cc_message(channel, 14, amp_eg_value(patch_amp_eg(layout.amp_eg))),
        cc_message(channel, 17, low_byte(layout.level)),
        cc_message(channel, 26, low_byte(layout.pitch)),
        cc_message(channel, 20, low_byte(layout.eg_attack)),
        cc_message(channel, 23, low_byte(layout.eg_release)),
        cc_message(channel, 29, low_byte(layout.mod_amount)),
        cc_message(channel, 46, low_byte(layout.mod_rate)),
    ]
}

/// The control changes that set one part from a patch layout and
/// silence its layer 2.
pub open spec fn part_messages(channel: u8, layout: YamlPatchLayout) -> Seq<MidiMessage> {
    layout_messages(channel, layout).push(cc_message(channel, 18, 0))
}

/// The control changes of a whole patch: kick, hi-hat and snare, in
/// this order. The other three parts are left as they are.
pub open spec fn patch_messages(patch: YamlPatchFile) -> Seq<MidiMessage> {
    part_messages(DRUM_CH_KICK, patch.kick) + part_messages(DRUM_CH_HH, patch.hh) + part_messages(
        DRUM_CH_SNARE,
        patch.snare,
    )
}

/// The low eight bits of a setting.
pub fn setting_byte(value: usize) -> (byte: u8)
    ensures
        byte == low_byte(value),
{
    (value % 256) as u8
}

pub struct SoundPanel<'a, D: MidiDevice> {
    pub volca_drum: &'a mut VolcaDrum<D>,
}

impl<'a, D: MidiDevice> SoundPanel<'a, D> {
    /// Everything sent to the device so far.
    pub open spec fn sent(&self) -> Seq<MidiMessage> {
        self.volca_drum.sent()
    }

    /// Sets kick, hi-hat and snare from `patch`.
    pub fn set_from_patch(&mut self, patch: YamlPatchFile)
        ensures
            final(self).sent() == old(self).sent() + patch_messages(patch),
    {
        self.set_to_channel_just_patch_layout_1(DRUM_CH_KICK, patch.kick);
        self.disable_layout_2_sounds(DRUM_CH_KICK);
        self.set_to_channel_just_patch_layout_1(DRUM_CH_HH, patch.hh);
        self.disable_layout_2_sounds(DRUM_CH_HH);
        self.set_to_channel_just_patch_layout_1(DRUM_CH_SNARE, patch.snare);
        self.disable_layout_2_sounds(DRUM_CH_SNARE);
        assert(self.sent() =~= old(self).sent() + patch_messages(patch));
    }

    /// Sets layer 1 of `channel` from a patch layout.
    pub fn set_to_channel_just_patch_layout_1(&mut self, channel: u8, patch_layout: YamlPatchLayout)
        ensures
            final(self).sent() == old(self).sent() + layout_messages(channel, patch_layout),
    {
        match patch_layout.sound_src_type {
            YamlPatchLayoutSoundSrcType::WaveSine => {
                self.set_sound_source_type(channel, SoundSourceType::WaveSine)
            },
            YamlPatchLayoutSoundSrcType::WaveSaw => {
                self.set_sound_source_type(channel, SoundSourceType::WaveSaw)
            },
            YamlPatchLayoutSoundSrcType::WaveNoiseHPF => {
                self.set_sound_source_type(channel, SoundSourceType::WaveNoiseHPF)
            },
            YamlPatchLayoutSoundSrcType::WaveNoiseLPF => {
                self.set_sound_source_type(channel, SoundSourceType::WaveNoiseLPF)
            },
            YamlPatchLayoutSoundSrcType::WaveNoiseBPF => {
                self.set_sound_source_type(channel, SoundSourceType::WaveNoiseBPF)
            },
        };
        match patch_layout.mod_type {
            YamlPatchLayoutModulationType::ModExp => {
                self.set_modulation_type(channel, ModulationType::ModExp)
            },
            YamlPatchLayoutModulationType::ModTri => {
                self.set_modulation_type(channel, ModulationType::ModTri)
            },
            YamlPatchLayoutModulationType::ModRand => {
                self.set_modulation_type(channel, ModulationType::ModRand)
            },
        };
        match patch_layout.amp_eg {
            YamlPatchLayoutAmpEg::EnvAd => self.set_amp_eg(channel, AmpEg::EnvAd),
            YamlPatchLayoutAmpEg::EnvExp => self.set_amp_eg(channel, AmpEg::EnvExp),
            YamlPatchLayoutAmpEg::EnvMul => self.set_amp_eg(channel, AmpEg::EnvMul),
        };
        self.set_param_level(channel, ParamSoundType::Level, setting_byte(patch_layout.level));
        self.set_param_level(channel, ParamSoundType::Pitch, setting_byte(patch_layout.pitch));
        self.set_param_level(
            channel,
            ParamSoundType::EgAttack,
            setting_byte(patch_layout.eg_attack),
        );
        self.set_param_level(
            channel,
            ParamSoundType::EgRelease,
            setting_byte(patch_layout.eg_release),
        );
        self.set_param_level(
            channel,
            ParamSoundType::ModAmount,
            setting_byte(patch_layout.mod_amount),
        );
        self.set_param_level(
            channel,
            ParamSoundType::ModRate,
            setting_byte(patch_layout.mod_rate),
        );
        assert(self.sent() =~= old(self).sent() + layout_messages(channel, patch_layout));
    }

    /// Silences layer 2 of `channel`.
    pub fn disable_layout_2_sounds(&mut self, channel: u8)
        ensures
            final(self).sent() == old(self).sent().push(cc_message(channel, 18, 0)),
    {
        self.send_cc_message(channel, CC_NUMBER_LAYOUT_2_LEVEL, 0)
    }

    /// Selects the sound source of layer 1 of `channel`.
    pub fn set_sound_source_type(&mut self, channel: u8, sound_source_type: SoundSourceType)
        ensures
            final(self).sent() == old(self).sent().push(
                cc_message(channel, 14, sound_source_value(sound_source_type)),
            ),
    {
        match sound_source_type {
            SoundSourceType::WaveSine => {
                self.send_cc_message(channel, CC_NUMBER_LAYOUT_1_SOUND, 24)
            },
            SoundSourceType::WaveSaw => self.send_cc_message(channel, CC_NUMBER_LAYOUT_1_SOUND, 50),
            SoundSourceType::WaveNoiseHPF => {
                self.send_cc_message(channel, CC_NUMBER_LAYOUT_1_SOUND, 76)
            },
            SoundSourceType::WaveNoiseLPF => {
                self.send_cc_message(channel, CC_NUMBER_LAYOUT_1_SOUND, 101)
            },
            SoundSourceType::WaveNoiseBPF => {
                self.send_cc_message(channel, CC_NUMBER_LAYOUT_1_SOUND, 127)
            },
        }
    }

    /// Selects the modulation of layer 1 of `channel`.
    pub fn set_modulation_type(&mut self, channel: u8, modulation_type: ModulationType)
        ensures
            final(self).sent() == old(self).sent().push(
                cc_message(channel, 14, modulation_value(modulation_type)),
            ),
    {
        match modulation_type {
            ModulationType::ModExp => self.send_cc_message(channel, CC_NUMBER_LAYOUT_1_SOUND, 109),
            ModulationType::ModTri => self.send_cc_message(channel, CC_NUMBER_LAYOUT_1_SOUND, 118),
            ModulationType::ModRand => self.send_cc_message(channel, CC_NUMBER_LAYOUT_1_SOUND, 127),
        }
    }

    /// Selects the amplitude envelope of layer 1 of `channel`.
    pub fn set_amp_eg(&mut self, channel: u8, amp_eg: AmpEg)
        ensures
            final(self).sent() == old(self).sent().push(
                cc_message(channel, 14, amp_eg_value(amp_eg)),
            ),
    {
        match amp_eg {
            AmpEg::EnvAd => self.send_cc_message(channel, CC_NUMBER_LAYOUT_1_SOUND, 121),
            AmpEg::EnvExp => self.send_cc_message(channel, CC_NUMBER_LAYOUT_1_SOUND, 124),
            AmpEg::EnvMul => self.send_cc_message(channel, CC_NUMBER_LAYOUT_1_SOUND, 127),
        }
    }

    /// Sets a sound parameter of `channel` to `value`.
    pub fn set_param_level(&mut self, channel: u8, param: ParamSoundType, value: u8)
        ensures
            final(self).sent() == old(self).sent().push(
                cc_message(channel, param_cc_number(param), value),
            ),
    {
        match param {
            ParamSoundType::Level => self.send_cc_message(channel, 17, value),
            ParamSoundType::Pitch => self.send_cc_message(channel, 26, value),
            ParamSoundType::EgAttack => self.send_cc_message(channel, 20, value),
            ParamSoundType::EgRelease => self.send_cc_message(channel, 23, value),
            ParamSoundType::ModAmount => self.send_cc_message(channel, 29, value),
            ParamSoundType::ModRate => self.send_cc_message(channel, 46, value),
        }
    }

    /// Sets controller `cc_number` of `channel` to `value`.
    fn send_cc_message(&mut self, channel: u8, cc_number: u8, value: u8)
        ensures
            final(self).sent() == old(self).sent().push(cc_message(channel, cc_number, value)),
    {
        self.volca_drum.send_cc_message(channel, cc_number, value);
    }
}

} // verus!
