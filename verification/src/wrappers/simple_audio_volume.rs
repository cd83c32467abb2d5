use vstd::prelude::*;

verus! {

/// The volume control `V` of one audio session.
pub struct SimpleAudioVolume<V> {
    audio_volume: V,
}

impl<V> SimpleAudioVolume<V> {
    /// The control this volume acts through.
    pub closed spec fn spec_audio_volume(&self) -> V {
        self.audio_volume
    }

    /// Volume of a session, acting through `audio_volume`.
    pub fn new(audio_volume: V) -> (result: Self)
        ensures
            result.spec_audio_volume() == audio_volume,
    {
        Self { audio_volume }
    }

    /// The control this volume acts through.
    pub fn audio_volume(&self) -> (result: &V)
        ensures
            *result == self.spec_audio_volume(),
    {
        &self.audio_volume
    }
}

} // verus!
