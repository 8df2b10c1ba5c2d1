//! Device models and the features each model supports.

use vstd::prelude::*;

verus! {

/// A Galaxy Buds device model.
#[derive(Debug, Clone, Copy, PartialEq, Eq, Structural)]
pub enum Model {
    Buds,
    BudsPlus,
    BudsLive,
    BudsPro,
    Buds2,
    BudsPro2,
}

/// A capability that only some models have.
#[derive(Debug, Clone, Copy, PartialEq, Eq, Structural)]
pub enum Feature {
    Anc,
    AmbientSound,
    ExtraHighAmbientVolume,
    AmbientVoiceFocus,
    BatteryType,
    OutsideDoubleTap,
    RelieveAmbient,
    Sidetone,
    VoiceWakeup,
    AdjustSoundSync,
    ExtTouchpadLock,
}

impl Model {
    /// Whether the model supports the feature, per the firmware's capability table.
    pub open spec fn spec_has_feature(self, feature: Feature) -> bool {
        match self {
            Model::Buds => matches!(
                feature,
                Feature::BatteryType | Feature::AmbientSound | Feature::AmbientVoiceFocus
            ),
            Model::BudsPlus => matches!(
                feature,
                Feature::AmbientSound | Feature::OutsideDoubleTap | Feature::Sidetone
                    | Feature::ExtraHighAmbientVolume | Feature::AdjustSoundSync
            ),
            Model::BudsLive => matches!(
                feature,
                Feature::Anc | Feature::RelieveAmbient | Feature::VoiceWakeup
                    | Feature::AdjustSoundSync
            ),
            Model::BudsPro => matches!(
                feature,
                Feature::Anc | Feature::VoiceWakeup | Feature::AdjustSoundSync
            ),
            Model::BudsPro2 => matches!(
                feature,
                Feature::Anc | Feature::VoiceWakeup | Feature::AdjustSoundSync
            ),
            Model::Buds2 => matches!(
                feature,
                Feature::Anc | Feature::AmbientSound | Feature::OutsideDoubleTap
                    | Feature::AdjustSoundSync | Feature::ExtTouchpadLock
            ),
        }
    }

    pub fn has_feature(&self, feature: Feature) -> (r: bool)
        ensures
            r == self.spec_has_feature(feature),
    {
        match *self {
            Model::Buds => matches!(
                feature,
                Feature::BatteryType | Feature::AmbientSound | Feature::AmbientVoiceFocus
            ),
            Model::BudsPlus => matches!(
                feature,
                Feature::AmbientSound | Feature::OutsideDoubleTap | Feature::Sidetone
                    | Feature::ExtraHighAmbientVolume | Feature::AdjustSoundSync
            ),
            Model::BudsLive => matches!(
                feature,
                Feature::Anc | Feature::RelieveAmbient | Feature::VoiceWakeup
                    | Feature::AdjustSoundSync
            ),
            Model::BudsPro => matches!(
                feature,
                Feature::Anc | Feature::VoiceWakeup | Feature::AdjustSoundSync
            ),
            Model::BudsPro2 => matches!(
                feature,
                Feature::Anc | Feature::VoiceWakeup | Feature::AdjustSoundSync
            ),
            Model::Buds2 => matches!(
                feature,
                Feature::Anc | Feature::AmbientSound | Feature::OutsideDoubleTap
                    | Feature::AdjustSoundSync | Feature::ExtTouchpadLock
            ),
        }
    }
}


/// The model a device's Bluetooth name advertises, matched on the
/// lowercased name. An unrecognized name counts as the original Galaxy
/// Buds.
pub open spec fn spec_name_to_model(name: Seq<char>) -> Model {
    let low = crate::utils::lower_seq(name);
    if crate::utils::spec_contains(low, "buds live"@) {
        Model::BudsLive
    } else if crate::utils::spec_contains(low, "buds pro"@) {
        Model::BudsPro
    } else if crate::utils::spec_contains(low, "buds 2 pro"@) {
        Model::BudsPro2
    } else if crate::utils::spec_contains(low, "buds+"@) {
        Model::BudsPlus
    } else if crate::utils::spec_contains(low, "buds2"@) {
        Model::Buds2
    } else {
        Model::Buds
    }
}

/// Gives the device's model from its advertised name.
pub fn name_to_model(device_name: &str) -> (r: Model)
    ensures
        r == spec_name_to_model(device_name@),
{
    let low = crate::utils::lower_chars(device_name);
    if crate::utils::contains_lit(&low, "buds live") {
        Model::BudsLive
    } else if crate::utils::contains_lit(&low, "buds pro") {
        Model::BudsPro
    } else if crate::utils::contains_lit(&low, "buds 2 pro") {
        Model::BudsPro2
    } else if crate::utils::contains_lit(&low, "buds+") {
        Model::BudsPlus
    } else if crate::utils::contains_lit(&low, "buds2") {
        Model::Buds2
    } else {
        Model::Buds
    }
}

} // verus!
