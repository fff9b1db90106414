//! The player's animation state machine and its frame timer.
use vstd::prelude::*;
use crate::geometry::FacingDirection;

verus! {

/// How long each animation frame is shown, in milliseconds.
pub const FRAME_TIME: u64 = 200;

/// The length of the longest frame list.
pub const MAX_FRAMES: usize = 5;

/// How many animation ticks a hammer swing lasts.
pub const HAMMER_TICKS: u8 = 3;

/// The states of the player's animation.
#[derive(Clone, Copy, Debug, PartialEq, Eq, Structural)]
pub enum AnimationDirection {
    Left,
    Right,
    Dead,
    HitRight,
    HitLeft,
    HammerLeft,
    HammerRight,
}

/// The player's animation state, facing, and progress through a hammer swing.
#[derive(Clone, Copy, Debug, PartialEq, Eq, Structural)]
pub struct PlayerGraphics {
    pub animation: AnimationDirection,
    pub facing: FacingDirection,
    pub hammer_done: u8,
}

/// The frame timer: time spent in the current frame, the frame's place in
/// its list, and the atlas index shown.
#[derive(Clone, Copy, Debug, PartialEq, Eq, Structural)]
pub struct FrameAnimation {
    pub elapsed: u64,
    pub current_frame: usize,
    pub sprite: usize,
}

impl PlayerGraphics {
    /// A hammer swing never runs past its last tick, and a player facing
    /// left or right is shown turned that way, unless dead.
    pub open spec fn wf(&self) -> bool {
        &&& self.hammer_done <= HAMMER_TICKS
        &&& sides_agree(self.facing, self.animation)
    }

    /// Walking right, facing right, no swing under way.
    pub open spec fn initial() -> PlayerGraphics {
        PlayerGraphics {
            animation: AnimationDirection::Right,
            facing: FacingDirection::Right,
            hammer_done: 0,
        }
    }

    /// Walking right, facing right, no swing under way.
    pub fn new() -> (r: PlayerGraphics)
        ensures
            r == PlayerGraphics::initial(),
            r.wf(),
    {
        PlayerGraphics {
            animation: AnimationDirection::Right,
            facing: FacingDirection::Right,
            hammer_done: 0,
        }
    }
}

impl FrameAnimation {
    /// The time spent in a frame is below one frame's length, and the
    /// frame's place is within the longest list.
    pub open spec fn wf(&self) -> bool {
        self.elapsed < FRAME_TIME && self.current_frame < MAX_FRAMES
    }

    /// The first frame of the walk-right loop, just begun.
    pub open spec fn initial() -> FrameAnimation {
        FrameAnimation {
            elapsed: 0,
            current_frame: 0,
            sprite: frames_spec(AnimationDirection::Right)[0],
        }
    }

    /// The first frame of the walk-right loop, just begun.
    pub fn new() -> (r: FrameAnimation)
        ensures
            r == FrameAnimation::initial(),
            r.wf(),
    {
        FrameAnimation { elapsed: 0, current_frame: 0, sprite: 0 }
    }
}

/// The atlas indices that an animation state cycles through.
pub open spec fn frames_spec(a: AnimationDirection) -> Seq<usize> {
    match a {
        AnimationDirection::Right => seq![0, 1, 2, 3, 4],
        AnimationDirection::Left => seq![6, 7, 8, 9, 10],
        AnimationDirection::HitRight => seq![24, 0],
        AnimationDirection::HitLeft => seq![26, 6],
        AnimationDirection::HammerRight => seq![12, 0],
        AnimationDirection::HammerLeft => seq![13, 6],
        AnimationDirection::Dead => seq![25],
    }
}

/// The atlas indices that an animation state cycles through.
pub fn frames_for(a: AnimationDirection) -> (r: Vec<usize>)
    ensures
        r@ == frames_spec(a),
        r@.len() > 0,
{
    match a {
        AnimationDirection::Right => vec![0, 1, 2, 3, 4],
        AnimationDirection::Left => vec![6, 7, 8, 9, 10],
        AnimationDirection::HitRight => vec![24, 0],
        AnimationDirection::HitLeft => vec![26, 6],
        AnimationDirection::HammerRight => vec![12, 0],
        AnimationDirection::HammerLeft => vec![13, 6],
        AnimationDirection::Dead => vec![25],
    }
}

/// The first atlas index of an animation state.
pub fn first_frame(a: AnimationDirection) -> (r: usize)
    ensures
        r == frames_spec(a)[0],
{
    let frames = frames_for(a);
    frames[0]
}

/// Whether a state shows the player turned left.
pub open spec fn animation_is_left(a: AnimationDirection) -> bool {
    a == AnimationDirection::Left || a == AnimationDirection::HitLeft || a
        == AnimationDirection::HammerLeft
}

/// Whether a facing and an animation state agree: facing left or right,
/// a living player is shown turned that way.
pub open spec fn sides_agree(f: FacingDirection, a: AnimationDirection) -> bool {
    a != AnimationDirection::Dead ==> (f == FacingDirection::Left ==> animation_is_left(a)) && (f
        == FacingDirection::Right ==> !animation_is_left(a))
}

/// Whether a state is a hammer swing.
pub open spec fn animation_is_hammer(a: AnimationDirection) -> bool {
    a == AnimationDirection::HammerLeft || a == AnimationDirection::HammerRight
}

/// Whether the player is shown turned left.
pub fn is_animation_left(graphics: &PlayerGraphics) -> (r: bool)
    ensures
        r == animation_is_left(graphics.animation),
{
    graphics.animation == AnimationDirection::Left || graphics.animation
        == AnimationDirection::HitLeft || graphics.animation == AnimationDirection::HammerLeft
}

/// The state and timer after `delta` milliseconds.
///
/// A hammer swing counts its ticks, and on the tick after its last one
/// returns to walking, left or right as the swing was, whatever the frame
/// timer does. Otherwise, when the timer passes a frame boundary, the next
/// frame of the list is shown.
pub open spec fn animate_spec(g: PlayerGraphics, f: FrameAnimation, delta: u64) -> (
    PlayerGraphics,
    FrameAnimation,
) {
    let finished = f.elapsed + delta >= FRAME_TIME;
    let elapsed = ((f.elapsed + delta) % (FRAME_TIME as int)) as u64;
    if animation_is_hammer(g.animation) && g.hammer_done < HAMMER_TICKS {
        (
            PlayerGraphics { hammer_done: (g.hammer_done + 1) as u8, ..g },
            FrameAnimation { elapsed, ..f },
        )
    } else if animation_is_hammer(g.animation) && g.hammer_done == HAMMER_TICKS {
        let a = if animation_is_left(g.animation) {
            AnimationDirection::Left
        } else {
            AnimationDirection::Right
        };
        (PlayerGraphics { animation: a, hammer_done: 0, ..g }, FrameAnimation { elapsed, ..f })
    } else if finished {
        let frames = frames_spec(g.animation);
        let next = ((f.current_frame + 1) % (frames.len() as int)) as usize;
        (g, FrameAnimation { elapsed, current_frame: next, sprite: frames[next as int] })
    } else {
        (g, FrameAnimation { elapsed, ..f })
    }
}

/// Advances the animation by `delta` milliseconds.
pub fn frame_animation(graphics: &mut PlayerGraphics, frame: &mut FrameAnimation, delta: u64)
    requires
        old(graphics).wf(),
        old(frame).wf(),
    ensures
        final(graphics).wf(),
        final(frame).wf(),
        (*final(graphics), *final(frame)) == animate_spec(*old(graphics), *old(frame), delta),
{
    let start = frame.elapsed;
    let to_boundary = FRAME_TIME - start;
    let finished = delta >= to_boundary;
    let elapsed = if finished {
        (delta - to_boundary) % FRAME_TIME
    } else {
        frame.elapsed + delta
    };
    assert(elapsed == (start + delta) % (FRAME_TIME as int)) by (nonlinear_arith)
        requires
            finished ==> elapsed == (delta - to_boundary) % (FRAME_TIME as int),
            !finished ==> elapsed == start + delta,
            to_boundary == FRAME_TIME - start,
            finished == (delta >= to_boundary),
            start < FRAME_TIME,
            FRAME_TIME == 200,
    ;
    let hammer = graphics.animation == AnimationDirection::HammerLeft || graphics.animation
        == AnimationDirection::HammerRight;
    frame.elapsed = elapsed;
    if hammer && graphics.hammer_done < HAMMER_TICKS {
        graphics.hammer_done = graphics.hammer_done + 1;
    } else if hammer && graphics.hammer_done == HAMMER_TICKS {
        let left = is_animation_left(graphics);
        graphics.hammer_done = 0;
        graphics.animation = if left {
            AnimationDirection::Left
        } else {
            AnimationDirection::Right
        };
    } else if finished {
        let frames = frames_for(graphics.animation);
        let next = (frame.current_frame + 1) % frames.len();
        frame.current_frame = next;
        frame.sprite = frames[next];
    }
}

} // verus!
