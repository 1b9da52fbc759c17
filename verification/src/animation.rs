use vstd::prelude::*;
use crate::tiles::TextureHandle;
use crate::utils::conventions::VEC_LIMIT;

verus! {

/// A run of textures shown one after the other, each for `timeInterval`.
/// The timer grows by `perFrameTimeIncrement` per tick. After the last
/// texture the reel starts over and, if it names one, hands over to the clip
/// `loopbackClipIndex`.
#[derive(Clone, Debug)]
pub struct AnimationReel {
    pub textures: Vec<TextureHandle>,
    pub currTextureIndex: u32,
    pub timeInterval: i64,
    pub perFrameTimeIncrement: i64,
    pub timer: i64,
    pub loopbackClipIndex: Option<u32>,
}

impl AnimationReel {
    /// The reel holds a texture, shows one of those it holds, and its times
    /// are within the machine limits.
    pub open spec fn wf(self) -> bool {
        &&& 1 <= self.textures.len() <= u32::MAX
        &&& self.currTextureIndex < self.textures.len()
        &&& 0 <= self.timeInterval <= VEC_LIMIT
        &&& 0 <= self.perFrameTimeIncrement <= VEC_LIMIT
        &&& 0 <= self.timer <= 2 * VEC_LIMIT
    }

    /// The reel at its first texture with its timer at zero.
    pub open spec fn rewound(self) -> AnimationReel {
        AnimationReel { currTextureIndex: 0, timer: 0, ..self }
    }

    /// The reel one tick later.
    pub open spec fn updated(self) -> AnimationReel {
        if self.timer >= self.timeInterval {
            if self.currTextureIndex == self.textures.len() - 1 {
                self.rewound()
            } else {
                AnimationReel {
                    currTextureIndex: (self.currTextureIndex + 1) as u32,
                    timer: 0,
                    ..self
                }
            }
        } else {
            AnimationReel { timer: (self.timer + self.perFrameTimeIncrement) as i64, ..self }
        }
    }

    /// The clip that the reel hands over to at this tick, if any: the one it
    /// names, when the time of its last texture is up.
    pub open spec fn handover(self) -> Option<u32> {
        if self.timer >= self.timeInterval && self.currTextureIndex == self.textures.len() - 1 {
            self.loopbackClipIndex
        } else {
            None
        }
    }

    pub fn New(
        textures: Vec<TextureHandle>,
        timeInterval: i64,
        perFrameTimeIncrement: i64,
        loopbackClipIndex: Option<u32>,
    ) -> (reel: Self)
        ensures
            reel == (AnimationReel {
                textures,
                currTextureIndex: 0,
                timeInterval,
                perFrameTimeIncrement,
                timer: 0,
                loopbackClipIndex,
            }),
    {
        Self {
            textures,
            currTextureIndex: 0,
            timeInterval,
            perFrameTimeIncrement,
            timer: 0,
            loopbackClipIndex,
        }
    }

    fn Reset(&mut self)
        ensures
            *final(self) == old(self).rewound(),
    {
        self.currTextureIndex = 0;
        self.timer = 0;
    }

    fn IncrementTexture(&mut self)
        requires
            old(self).currTextureIndex < u32::MAX,
        ensures
            *final(self) == (AnimationReel {
                currTextureIndex: (old(self).currTextureIndex + 1) as u32,
                timer: 0,
                ..*old(self)
            }),
    {
        self.currTextureIndex += 1;
        self.timer = 0;
    }

    /// Lets one tick pass and names the clip to hand over to, if any.
    pub fn Update(&mut self) -> (next: Option<u32>)
        requires
            old(self).wf(),
        ensures
            *final(self) == old(self).updated(),
            next == old(self).handover(),
            final(self).wf(),
    {
        if self.timer >= self.timeInterval {
            if self.currTextureIndex as usize == self.textures.len() - 1 {
                self.Reset();
                self.loopbackClipIndex
            } else {
                self.IncrementTexture();
                None
            }
        } else {
            self.timer += self.perFrameTimeIncrement;
            None
        }
    }
}

/// One way an animated thing can look: a still texture or a reel.
#[derive(Clone, Debug)]
pub enum AnimationClip {
    STATIC(TextureHandle),
    REEL(AnimationReel),
}

impl AnimationClip {
    /// The texture that the clip shows now.
    pub open spec fn texture(self) -> TextureHandle {
        match self {
            AnimationClip::STATIC(texture) => texture,
            AnimationClip::REEL(reel) => reel.textures[reel.currTextureIndex as int],
        }
    }

    /// The clip one tick later.
    pub open spec fn updated(self) -> AnimationClip {
        match self {
            AnimationClip::STATIC(_) => self,
            AnimationClip::REEL(reel) => AnimationClip::REEL(reel.updated()),
        }
    }

    /// The clip to hand over to at this tick, if any.
    pub open spec fn handover(self) -> Option<u32> {
        match self {
            AnimationClip::STATIC(_) => None,
            AnimationClip::REEL(reel) => reel.handover(),
        }
    }
}

/// The clips of one animated thing and the one that plays.
#[derive(Clone, Debug)]
pub struct AnimationMagazine {
    pub clips: Vec<AnimationClip>,
    pub currClipIndex: u32,
}

/// The mathematical content of a magazine.
pub struct MagazineModel {
    pub clips: Seq<AnimationClip>,
    pub currClipIndex: u32,
}

impl View for AnimationMagazine {
    type V = MagazineModel;

    open spec fn view(&self) -> MagazineModel {
        MagazineModel { clips: self.clips@, currClipIndex: self.currClipIndex }
    }
}

impl MagazineModel {
    /// The clip that plays is one of the clips, every reel is well formed,
    /// and every reel that hands over names one of the clips.
    pub open spec fn wf(self) -> bool {
        &&& self.currClipIndex < self.clips.len()
        &&& forall|i: int|
            0 <= i < self.clips.len() ==> (#[trigger] self.clips[i] matches AnimationClip::REEL(reel)
                ==> reel.wf() && (reel.loopbackClipIndex matches Some(next) ==> next
                < self.clips.len()))
    }

    /// The clip that plays.
    pub open spec fn current(self) -> AnimationClip {
        self.clips[self.currClipIndex as int]
    }

    /// The magazine one tick later: the clip that plays moves on by a tick,
    /// and the clip it hands over to, if any, plays next.
    pub open spec fn updated(self) -> MagazineModel {
        MagazineModel {
            clips: self.clips.update(self.currClipIndex as int, self.current().updated()),
            currClipIndex: match self.current().handover() {
                Some(next) => next,
                None => self.currClipIndex,
            },
        }
    }

    /// Whether the magazine can switch from the reel that plays to the clip
    /// `target` and go on there with the same texture number: the clip that
    /// plays is a reel, `target` is one of the clips, and if it is a reel it
    /// holds a texture of that number.
    pub open spec fn can_switch_to(self, target: int) -> bool {
        &&& self.current() is REEL
        &&& 0 <= target < self.clips.len()
        &&& target <= u32::MAX
        &&& self.clips[target] matches AnimationClip::REEL(reel) ==> self.current()->REEL_0.currTextureIndex
            < reel.textures.len()
    }

    /// The magazine after a switch to the clip `target`: the reel that
    /// played is rewound; if `target` is a reel it goes on at the texture
    /// number and timer of the reel that played.
    pub open spec fn switched_to(self, target: int) -> MagazineModel {
        let from = self.current()->REEL_0;
        let rewound = self.clips.update(
            self.currClipIndex as int,
            AnimationClip::REEL(from.rewound()),
        );
        MagazineModel {
            clips: match rewound[target] {
                AnimationClip::REEL(to) => rewound.update(
                    target,
                    AnimationClip::REEL(
                        AnimationReel {
                            currTextureIndex: from.currTextureIndex,
                            timer: from.timer,
                            ..to
                        },
                    ),
                ),
                AnimationClip::STATIC(_) => rewound,
            },
            currClipIndex: target as u32,
        }
    }
}

impl AnimationMagazine {
    pub fn New(clips: Vec<AnimationClip>, currClipIndex: u32) -> (magazine: Self)
        ensures
            magazine@ == (MagazineModel { clips: clips@, currClipIndex }),
    {
        Self { clips, currClipIndex }
    }

    /// Lets one tick pass.
    pub fn Update(&mut self)
        requires
            old(self)@.wf(),
        ensures
            final(self)@ == old(self)@.updated(),
            final(self)@.wf(),
    {
        let index: usize = self.currClipIndex as usize;
        let mut next: Option<u32> = None;
        match &mut self.clips[index] {
            AnimationClip::STATIC(_) => {},
            AnimationClip::REEL(reel) => {
                next = reel.Update();
            },
        }
        if let Some(loopbackClipIndex) = next {
            self.currClipIndex = loopbackClipIndex;
        }
    }

    /// The texture that the clip that plays shows now.
    pub fn GetCurrTexture(&self) -> (texture: TextureHandle)
        requires
            self@.wf(),
        ensures
            texture == self@.current().texture(),
    {
        match &self.clips[self.currClipIndex as usize] {
            AnimationClip::STATIC(texture) => *texture,
            AnimationClip::REEL(reel) => reel.textures[reel.currTextureIndex as usize],
        }
    }

    /// Switches from the reel that plays to the clip `clipIndexToSwitchTo`,
    /// which goes on at the same texture number and timer.
    pub fn SwitchClipIndexWithTimeCopy(&mut self, clipIndexToSwitchTo: usize)
        requires
            old(self)@.wf(),
            old(self)@.can_switch_to(clipIndexToSwitchTo as int),
        ensures
            final(self)@ == old(self)@.switched_to(clipIndexToSwitchTo as int),
            final(self)@.wf(),
    {
        let index: usize = self.currClipIndex as usize;
        let mut backupTextureIndex: u32 = 0;
        let mut backupTimer: i64 = 0;
        match &mut self.clips[index] {
            AnimationClip::REEL(oldReel) => {
                backupTextureIndex = oldReel.currTextureIndex;
                backupTimer = oldReel.timer;
                oldReel.Reset();
            },
            AnimationClip::STATIC(_) => {},
        }
        self.currClipIndex = clipIndexToSwitchTo as u32;
        match &mut self.clips[clipIndexToSwitchTo] {
            AnimationClip::REEL(newReel) => {
                newReel.currTextureIndex = backupTextureIndex;
                newReel.timer = backupTimer;
            },
            AnimationClip::STATIC(_) => {},
        }
        proof {
            assert(self.clips@ =~= old(self)@.switched_to(clipIndexToSwitchTo as int).clips);
        }
    }
}

} // verus!
