//! Audio gating decisions.
//!
//! The audio subsystem itself (decoding, playback) lives with the host; this
//! module decides, from the mixing mask and a sound's current state, which
//! action the host should take on it.

use vstd::prelude::*;

use crate::bitmap::Bitmap;

verus! {

/// What the host should do with a sound after a gating decision.
#[derive(Clone, Copy, Debug, PartialEq, Eq, Structural)]
pub enum SoundAction {
    /// Begin playback from the start.
    Start,
    /// Stop playback if it is running.
    Stop,
    /// Leave the sound as it is.
    Ignore,
}

/// Whether a sound whose layers are `layers` may play under the mixing mask
/// `mask`: it may exactly when the two masks share a bit.
pub fn can_play(mask: Bitmap, layers: Bitmap) -> (r: bool)
    ensures
        r == ((mask.bits() & layers.bits()) != 0),
{
    mask.intersects(layers)
}

/// The action for a plain play request: a gated-off sound is stopped, a
/// loaded one is started, one still loading is left alone.
pub fn play_action(playable: bool, loaded: bool) -> (r: SoundAction)
    ensures
        r == (if !playable {
            SoundAction::Stop
        } else if loaded {
            SoundAction::Start
        } else {
            SoundAction::Ignore
        }),
{
    if !playable {
        SoundAction::Stop
    } else if loaded {
        SoundAction::Start
    } else {
        SoundAction::Ignore
    }
}

/// The action for a play-unless-already-playing request: a gated-off sound
/// is stopped, an idle one is started, a running one keeps running.
pub fn play_unique_action(playable: bool, playing: bool) -> (r: SoundAction)
    ensures
        r == (if !playable {
            SoundAction::Stop
        } else if !playing {
            SoundAction::Start
        } else {
            SoundAction::Ignore
        }),
{
    if !playable {
        SoundAction::Stop
    } else if !playing {
        SoundAction::Start
    } else {
        SoundAction::Ignore
    }
}

/// The mixing mask encoding the stored sound options: bit 0 is the effects
/// layer, bit 1 the music layer.
pub fn enabled_sounds_mask(sounds_enabled: bool, music_enabled: bool) -> (r: Bitmap)
    ensures
        r.bits() == ((if sounds_enabled { 1u32 } else { 0u32 })
            | (if music_enabled { 2u32 } else { 0u32 })),
{
    let bits = (if sounds_enabled { 1u32 } else { 0u32 }) | (if music_enabled { 2u32 } else { 0u32 });
    Bitmap::new(bits)
}

} // verus!
