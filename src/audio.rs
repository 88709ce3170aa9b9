//! The collision sound attached to a node by `audio_on_collision`: it plays
//! when the player starts touching the node, at most once per cooldown.

use vstd::prelude::*;
use crate::props::may_play;

verus! {

pub struct CollisionAudio {
    /// The host's handle to the loaded sound.
    pub audio: u64,
    pub volume_milli: u64,
    pub recursive_cooldown_ms: Option<u64>,
    pub last_played: Option<u64>,
    pub was_colliding: bool,
}

impl CollisionAudio {
    /// A sound at full volume that plays once.
    pub fn from_handle(handle: u64) -> (r: CollisionAudio)
        ensures
            r == (CollisionAudio {
                audio: handle,
                volume_milli: 1000,
                recursive_cooldown_ms: None,
                last_played: None,
                was_colliding: false,
            }),
    {
        CollisionAudio { audio: handle, volume_milli: 1000, recursive_cooldown_ms: None, last_played: None, was_colliding: false }
    }

    pub fn with_volume(self, volume_milli: u64) -> (r: CollisionAudio)
        ensures
            r == (CollisionAudio { volume_milli, ..self }),
    {
        CollisionAudio { volume_milli, ..self }
    }

    /// One tick of the sensor: whether to play the sound now.
    pub fn handle_audio_collision(&mut self, now: u64, touching: bool) -> (r: bool)
        ensures
            r == (touching && !old(self).was_colliding && may_play(old(self).last_played, now, old(self).recursive_cooldown_ms)),
            final(self).last_played == (if r { Some(now) } else { old(self).last_played }),
            final(self).was_colliding == touching,
            final(self).audio == old(self).audio,
            final(self).volume_milli == old(self).volume_milli,
            final(self).recursive_cooldown_ms == old(self).recursive_cooldown_ms,
    {
        let play = touching && !self.was_colliding && match self.last_played {
            None => true,
            Some(l) => match self.recursive_cooldown_ms {
                Some(c) => c != 0 && now >= l && now - l > c,
                None => false,
            },
        };
        if play {
            self.last_played = Some(now);
        }
        self.was_colliding = touching;
        play
    }
}

} // verus!
