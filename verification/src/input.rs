//! The input model: per-player control state, the dense bit-packed wire
//! encoding exchanged between peers, and the collector that derives
//! edge-triggered flags from successive device snapshots.
//!
//! Control axes are quantized to integer steps of 1/63 — exactly the
//! precision of the wire encoding — so that encoding and decoding a
//! control round-trips without loss and both peers compute on identical
//! values.

use vstd::prelude::*;
use crate::consts::AXIS_MAX;
use crate::math::clamp_i;
use crate::math::clamp_i64;
use crate::math::iabs;
use crate::math::Vec2;

verus! {

/// The source of a player's raw input; keyboard and gamepads are joined.
#[derive(Debug, Clone, Copy, Hash, Eq, PartialEq, Structural)]
pub enum ControlSource {
    KeyboardAndGamepads,
}

/// The state of one player's controls on one tick.
///
/// Axis values run from 0 to `AXIS_MAX` (63), standing for 0.0 to 1.0 in
/// steps of 1/63. The `*_just_pressed` flags are edge-triggered: set only
/// on the tick the matching `*_pressed` flag turned from false to true.
#[derive(Clone, Copy, Debug, PartialEq, Eq, Structural)]
pub struct PlayerControl {
    pub left: i64,
    pub right: i64,
    pub up: i64,
    pub down: i64,
    pub left_pressed: bool,
    pub right_pressed: bool,
    pub up_pressed: bool,
    pub down_pressed: bool,
    pub just_moved: bool,
    pub moving: bool,
    pub esc_start_pressed: bool,
    pub esc_start_just_pressed: bool,
    pub jump_pressed: bool,
    pub jump_just_pressed: bool,
    pub enter_pressed: bool,
    pub enter_just_pressed: bool,
}

/// An axis value pulled into the quantized range [0, AXIS_MAX].
pub open spec fn axis_clamped(v: int) -> int {
    clamp_i(v, 0, AXIS_MAX as int)
}

impl PlayerControl {
    /// All axes at rest and no button pressed.
    pub open spec fn empty_spec() -> PlayerControl {
        PlayerControl {
            left: 0,
            right: 0,
            up: 0,
            down: 0,
            left_pressed: false,
            right_pressed: false,
            up_pressed: false,
            down_pressed: false,
            just_moved: false,
            moving: false,
            esc_start_pressed: false,
            esc_start_just_pressed: false,
            jump_pressed: false,
            jump_just_pressed: false,
            enter_pressed: false,
            enter_just_pressed: false,
        }
    }

    /// Horizontal movement intent, in axis units (-63 to 63).
    pub open spec fn move_x(self) -> int {
        axis_clamped(self.right as int) - axis_clamped(self.left as int)
    }

    /// Vertical movement intent, in axis units (-63 to 63).
    pub open spec fn move_y(self) -> int {
        axis_clamped(self.up as int) - axis_clamped(self.down as int)
    }

    /// The control state a remote peer reconstructs from the dense
    /// encoding `d`, carrying over the previous state `self` for the
    /// edge-triggered flags.
    pub open spec fn spec_update_from_dense(self, d: u32) -> PlayerControl {
        let mx = dense_move_x(d);
        let my = dense_move_y(d);
        let moving = mx != 0 || my != 0;
        PlayerControl {
            left: (if mx < 0 { -mx } else { 0 }) as i64,
            right: (if mx > 0 { mx } else { 0 }) as i64,
            up: (if my > 0 { my } else { 0 }) as i64,
            down: (if my < 0 { -my } else { 0 }) as i64,
            left_pressed: mx < 0,
            right_pressed: mx > 0,
            up_pressed: my > 0,
            down_pressed: my < 0,
            moving,
            just_moved: !self.moving && moving,
            esc_start_pressed: dense_esc(d),
            esc_start_just_pressed: !self.esc_start_pressed && dense_esc(d),
            jump_pressed: dense_jump(d),
            jump_just_pressed: !self.jump_pressed && dense_jump(d),
            enter_pressed: dense_enter(d),
            enter_just_pressed: !self.enter_pressed && dense_enter(d),
        }
    }

    /// Converts this control to its dense wire form.
    pub fn get_dense_input(&self) -> (r: DensePlayerControl)
        ensures
            r.0 == dense_encode(self.move_x(), self.move_y(), self.jump_pressed,
                self.esc_start_pressed, self.enter_pressed),
    {
        let lc = clamp_i64(self.left, 0, AXIS_MAX);
        let rc = clamp_i64(self.right, 0, AXIS_MAX);
        let uc = clamp_i64(self.up, 0, AXIS_MAX);
        let dc = clamp_i64(self.down, 0, AXIS_MAX);
        DensePlayerControl::new(
            Vec2 { x: rc - lc, y: uc - dc },
            self.jump_pressed,
            self.esc_start_pressed,
            self.enter_pressed,
        )
    }

    /// Replaces this control with the state decoded from a remote peer's
    /// dense packet, deriving the edge-triggered flags from the state it
    /// replaces.
    pub fn update_from_dense(&mut self, new_control: &DensePlayerControl)
        ensures
            *final(self) == old(self).spec_update_from_dense(new_control.0),
    {
        let md = new_control.move_direction();
        let mx = md.x;
        let my = md.y;
        proof {
            lemma_dense_move_bounds(new_control.0);
        }
        self.left = if mx < 0 { -mx } else { 0 };
        self.right = if mx > 0 { mx } else { 0 };
        self.up = if my > 0 { my } else { 0 };
        self.down = if my < 0 { -my } else { 0 };

        self.left_pressed = self.left > 0;
        self.right_pressed = self.right > 0;
        self.up_pressed = self.up > 0;
        self.down_pressed = self.down > 0;

        let was_moving = self.moving;
        self.moving = mx != 0 || my != 0;
        self.just_moved = !was_moving && self.moving;

        let was_jumping = self.jump_pressed;
        self.jump_pressed = new_control.jump_pressed();
        self.jump_just_pressed = !was_jumping && self.jump_pressed;

        let was_esc_start = self.esc_start_pressed;
        self.esc_start_pressed = new_control.esc_start_pressed();
        self.esc_start_just_pressed = !was_esc_start && self.esc_start_pressed;

        let was_enter = self.enter_pressed;
        self.enter_pressed = new_control.enter_pressed();
        self.enter_just_pressed = !was_enter && self.enter_pressed;
    }
}

impl Default for PlayerControl {
    fn default() -> (r: Self)
        ensures
            r == PlayerControl::empty_spec(),
    {
        PlayerControl {
            left: 0,
            right: 0,
            up: 0,
            down: 0,
            left_pressed: false,
            right_pressed: false,
            up_pressed: false,
            down_pressed: false,
            just_moved: false,
            moving: false,
            esc_start_pressed: false,
            esc_start_just_pressed: false,
            jump_pressed: false,
            jump_just_pressed: false,
            enter_pressed: false,
            enter_just_pressed: false,
        }
    }
}

/// A compact representation of a player control: one unsigned 32-bit
/// value per player per tick. Bits 0 to 5 hold the magnitude of the
/// horizontal movement, bits 6 to 11 the magnitude of the vertical
/// movement, bit 12 and bit 13 their signs, bit 16 the jump flag, bit 17
/// the escape/start flag and bit 18 the enter flag; the rest are zero.
#[derive(Clone, Copy, Debug, Default, PartialEq, Eq, Structural)]
pub struct DensePlayerControl(pub u32);

/// The movement direction `(mx, my)` with the flags packed into one u32.
/// Out-of-range movement components are clamped to the quantized range.
pub open spec fn dense_encode(mx: int, my: int, jump: bool, esc: bool, enter: bool) -> u32 {
    let cx = clamp_i(mx, -AXIS_MAX as int, AXIS_MAX as int);
    let cy = clamp_i(my, -AXIS_MAX as int, AXIS_MAX as int);
    let ax = iabs(cx) as u32;
    let ay = iabs(cy) as u32;
    let sx: u32 = if cx < 0 { 4096 } else { 0 };
    let sy: u32 = if cy < 0 { 8192 } else { 0 };
    let jb: u32 = if jump { 65536 } else { 0 };
    let eb: u32 = if esc { 131072 } else { 0 };
    let nb: u32 = if enter { 262144 } else { 0 };
    ax | (ay << 6u32) | sx | sy | jb | eb | nb
}

/// Horizontal movement decoded from the packed value, in axis units.
pub open spec fn dense_move_x(d: u32) -> int {
    let m = (d & 63) as int;
    if d & 4096 != 0 {
        -m
    } else {
        m
    }
}

/// Vertical movement decoded from the packed value, in axis units.
pub open spec fn dense_move_y(d: u32) -> int {
    let m = ((d >> 6u32) & 63) as int;
    if d & 8192 != 0 {
        -m
    } else {
        m
    }
}

/// The jump flag of the packed value.
pub open spec fn dense_jump(d: u32) -> bool {
    d & 65536 != 0
}

/// The escape/start flag of the packed value.
pub open spec fn dense_esc(d: u32) -> bool {
    d & 131072 != 0
}

/// The enter flag of the packed value.
pub open spec fn dense_enter(d: u32) -> bool {
    d & 262144 != 0
}

/// The decoded movement components always lie in the quantized range.
pub proof fn lemma_dense_move_bounds(d: u32)
    ensures
        -63 <= dense_move_x(d) <= 63,
        -63 <= dense_move_y(d) <= 63,
{
    assert(d & 63 < 64 && (d >> 6u32) & 63 < 64) by (bit_vector);
}

/// Decoding an encoded control reproduces the movement direction exactly
/// (movement intents are already quantized to the wire precision) and all
/// three flags exactly; every bit outside the format stays zero.
pub proof fn lemma_dense_round_trip(mx: int, my: int, jump: bool, esc: bool, enter: bool)
    requires
        -63 <= mx <= 63,
        -63 <= my <= 63,
    ensures
        dense_move_x(dense_encode(mx, my, jump, esc, enter)) == mx,
        dense_move_y(dense_encode(mx, my, jump, esc, enter)) == my,
        dense_jump(dense_encode(mx, my, jump, esc, enter)) == jump,
        dense_esc(dense_encode(mx, my, jump, esc, enter)) == esc,
        dense_enter(dense_encode(mx, my, jump, esc, enter)) == enter,
        dense_encode(mx, my, jump, esc, enter) & 0xfff8c000 == 0,
{
    let ax = iabs(mx) as u32;
    let ay = iabs(my) as u32;
    let sx: u32 = if mx < 0 { 4096 } else { 0 };
    let sy: u32 = if my < 0 { 8192 } else { 0 };
    let jb: u32 = if jump { 65536 } else { 0 };
    let eb: u32 = if esc { 131072 } else { 0 };
    let nb: u32 = if enter { 262144 } else { 0 };
    let enc = ax | (ay << 6u32) | sx | sy | jb | eb | nb;
    assert((enc & 63) == ax
        && ((enc >> 6u32) & 63) == ay
        && (enc & 4096) == sx
        && (enc & 8192) == sy
        && (enc & 65536) == jb
        && (enc & 131072) == eb
        && (enc & 262144) == nb
        && (enc & 0xfff8c000) == 0) by (bit_vector)
        requires
            ax < 64,
            ay < 64,
            sx == 4096 || sx == 0,
            sy == 8192 || sy == 0,
            jb == 65536 || jb == 0,
            eb == 131072 || eb == 0,
            nb == 262144 || nb == 0,
            enc == ax | (ay << 6u32) | sx | sy | jb | eb | nb,
    ;
}

/// The wire invariant at the control level: decoding an encoded control
/// reproduces the movement intent exactly (intents are already quantized
/// to the wire precision) and all three button flags exactly, whatever
/// prior state the receiver held.
pub proof fn lemma_control_wire_round_trip(c: PlayerControl, prev: PlayerControl)
    ensures
        ({
            let d = dense_encode(c.move_x(), c.move_y(), c.jump_pressed, c.esc_start_pressed,
                c.enter_pressed);
            let r = prev.spec_update_from_dense(d);
            &&& r.move_x() == c.move_x()
            &&& r.move_y() == c.move_y()
            &&& r.jump_pressed == c.jump_pressed
            &&& r.esc_start_pressed == c.esc_start_pressed
            &&& r.enter_pressed == c.enter_pressed
        }),
{
    lemma_dense_round_trip(c.move_x(), c.move_y(), c.jump_pressed, c.esc_start_pressed,
        c.enter_pressed);
}

impl DensePlayerControl {
    /// Packs a movement direction (in axis units, clamped to [-63, 63])
    /// and the three button flags into the wire form.
    pub fn new(move_direction: Vec2, jump_pressed: bool, esc_start_pressed: bool,
        enter_pressed: bool) -> (r: Self)
        ensures
            r.0 == dense_encode(move_direction.x as int, move_direction.y as int,
                jump_pressed, esc_start_pressed, enter_pressed),
    {
        let cx = clamp_i64(move_direction.x, -AXIS_MAX, AXIS_MAX);
        let cy = clamp_i64(move_direction.y, -AXIS_MAX, AXIS_MAX);
        let ax: u32 = (if cx < 0 { -cx } else { cx }) as u32;
        let ay: u32 = (if cy < 0 { -cy } else { cy }) as u32;
        let sx: u32 = if cx < 0 { 4096 } else { 0 };
        let sy: u32 = if cy < 0 { 8192 } else { 0 };
        let jb: u32 = if jump_pressed { 65536 } else { 0 };
        let eb: u32 = if esc_start_pressed { 131072 } else { 0 };
        let nb: u32 = if enter_pressed { 262144 } else { 0 };
        DensePlayerControl(ax | (ay << 6u32) | sx | sy | jb | eb | nb)
    }

    /// The movement direction carried by the packet, in axis units.
    pub fn move_direction(&self) -> (r: Vec2)
        ensures
            r.x == dense_move_x(self.0),
            r.y == dense_move_y(self.0),
    {
        let m = (self.0 & 63) as i64;
        let x: i64 = if self.0 & 4096 != 0 { -m } else { m };
        let n = ((self.0 >> 6u32) & 63) as i64;
        let y: i64 = if self.0 & 8192 != 0 { -n } else { n };
        Vec2 { x, y }
    }

    /// True if the jump button is pressed.
    pub fn jump_pressed(&self) -> (r: bool)
        ensures
            r == dense_jump(self.0),
    {
        (self.0 & 65536) != 0
    }

    /// True if the escape/start button is pressed.
    pub fn esc_start_pressed(&self) -> (r: bool)
        ensures
            r == dense_esc(self.0),
    {
        (self.0 & 131072) != 0
    }

    /// True if the enter button is pressed.
    pub fn enter_pressed(&self) -> (r: bool)
        ensures
            r == dense_enter(self.0),
    {
        (self.0 & 262144) != 0
    }
}

/// One frame of raw device state, already joined over keyboard and
/// gamepads: which of the seven mapped controls are held down. The host
/// translates device events to this form; everything derived from it is
/// computed here.
#[derive(Clone, Copy, Debug, PartialEq, Eq, Structural)]
pub struct RawControlState {
    pub left: bool,
    pub right: bool,
    pub up: bool,
    pub down: bool,
    pub jump: bool,
    pub esc_start: bool,
    pub enter: bool,
}

/// The control state after applying one frame of raw device state on top
/// of `c`: axes follow the held directions at full deflection, the
/// pressed flags follow the raw state, and the derived flags are left for
/// `update_just_pressed`.
pub open spec fn spec_apply_raw(c: PlayerControl, raw: RawControlState) -> PlayerControl {
    PlayerControl {
        left: if raw.left { AXIS_MAX } else { 0 },
        right: if raw.right { AXIS_MAX } else { 0 },
        up: if raw.up { AXIS_MAX } else { 0 },
        down: if raw.down { AXIS_MAX } else { 0 },
        left_pressed: raw.left,
        right_pressed: raw.right,
        up_pressed: raw.up,
        down_pressed: raw.down,
        jump_pressed: raw.jump,
        esc_start_pressed: raw.esc_start,
        enter_pressed: raw.enter,
        ..c
    }
}

/// The control state with its edge-triggered flags recomputed against the
/// previous frame's state `last`.
pub open spec fn spec_just_pressed(c: PlayerControl, last: PlayerControl) -> PlayerControl {
    let moving = c.left > 0 || c.right > 0 || c.up > 0 || c.down > 0;
    PlayerControl {
        esc_start_just_pressed: c.esc_start_pressed && !last.esc_start_pressed,
        moving,
        jump_just_pressed: c.jump_pressed && !last.jump_pressed,
        just_moved: moving && !last.moving,
        enter_just_pressed: c.enter_pressed && !last.enter_pressed,
        ..c
    }
}

/// Collects a player's input, keeping exactly one prior snapshot to
/// derive the edge-triggered flags.
#[derive(Clone, Copy, Debug, PartialEq, Eq, Structural)]
pub struct PlayerInputCollector {
    pub current_controls: PlayerControl,
    pub last_controls: PlayerControl,
}

impl PlayerInputCollector {
    /// The current player controls.
    pub fn get_current_controls(&self) -> (r: &PlayerControl)
        ensures
            *r == self.current_controls,
    {
        &self.current_controls
    }

    /// Recomputes the "just pressed" flags against the previous frame.
    pub fn update_just_pressed(&mut self)
        ensures
            final(self).current_controls
                == spec_just_pressed(old(self).current_controls, old(self).last_controls),
            final(self).last_controls == old(self).last_controls,
    {
        let last = self.last_controls;
        self.current_controls.esc_start_just_pressed = self.current_controls.esc_start_pressed
            && !last.esc_start_pressed;
        self.current_controls.moving = self.current_controls.left > 0
            || self.current_controls.right > 0 || self.current_controls.up > 0
            || self.current_controls.down > 0;
        self.current_controls.jump_just_pressed = self.current_controls.jump_pressed
            && !last.jump_pressed;
        self.current_controls.just_moved = self.current_controls.moving && !last.moving;
        self.current_controls.enter_just_pressed = self.current_controls.enter_pressed
            && !last.enter_pressed;
    }

    /// Advances to the next frame, retaining the current state as the
    /// prior snapshot.
    pub fn advance_frame(&mut self)
        ensures
            final(self).last_controls == old(self).current_controls,
            final(self).current_controls == old(self).current_controls,
    {
        self.last_controls = self.current_controls;
    }

    /// Applies one frame of raw device state to the current controls.
    pub fn apply_inputs(&mut self, raw: &RawControlState)
        ensures
            final(self).current_controls == spec_apply_raw(old(self).current_controls, *raw),
            final(self).last_controls == old(self).last_controls,
    {
        self.current_controls.left_pressed = raw.left;
        self.current_controls.right_pressed = raw.right;
        self.current_controls.up_pressed = raw.up;
        self.current_controls.down_pressed = raw.down;
        self.current_controls.jump_pressed = raw.jump;
        self.current_controls.esc_start_pressed = raw.esc_start;
        self.current_controls.enter_pressed = raw.enter;
        self.current_controls.left = if raw.left { AXIS_MAX } else { 0 };
        self.current_controls.right = if raw.right { AXIS_MAX } else { 0 };
        self.current_controls.up = if raw.up { AXIS_MAX } else { 0 };
        self.current_controls.down = if raw.down { AXIS_MAX } else { 0 };
    }

    /// The current control state; the collector keeps one joined state
    /// for all sources.
    pub fn get_control(&self, _player_idx: usize, _control_source: ControlSource)
        -> (r: &PlayerControl)
        ensures
            *r == self.current_controls,
    {
        &self.current_controls
    }
}

impl Default for PlayerInputCollector {
    fn default() -> (r: Self)
        ensures
            r.current_controls == PlayerControl::empty_spec(),
            r.last_controls == PlayerControl::empty_spec(),
    {
        PlayerInputCollector {
            current_controls: PlayerControl::default(),
            last_controls: PlayerControl::default(),
        }
    }
}

/// The frozen input vector of one tick: one control per player.
#[derive(Clone, Copy, Debug, PartialEq, Eq)]
pub struct MatchInputs {
    pub players: [PlayerControl; 2],
}

impl MatchInputs {
    /// Copies the collector's current state into both player slots.
    pub fn update_controls(&mut self, collector: &mut PlayerInputCollector)
        ensures
            final(self).players[0] == old(collector).current_controls,
            final(self).players[1] == old(collector).current_controls,
            *final(collector) == *old(collector),
    {
        let c = *collector.get_current_controls();
        self.players = [c, c];
    }

    /// The control source of a player; all players share one source.
    pub fn get_control_source(&self, _player_idx: usize) -> (r: Option<ControlSource>)
        ensures
            r == Some(ControlSource::KeyboardAndGamepads),
    {
        Some(ControlSource::KeyboardAndGamepads)
    }

    /// The control state of the given player.
    pub fn get_control(&self, player_idx: usize) -> (r: &PlayerControl)
        requires
            player_idx < 2,
        ensures
            *r == self.players[player_idx as int],
    {
        &self.players[player_idx]
    }

    /// A mutable borrow of the control state of the given player.
    pub fn get_control_mut(&mut self, player_idx: usize) -> (r: &mut PlayerControl)
        requires
            player_idx < 2,
        ensures
            *r == old(self).players[player_idx as int],
            final(self).players[player_idx as int] == *final(r),
            final(self).players[1 - player_idx as int]
                == old(self).players[1 - player_idx as int],
    {
        &mut self.players[player_idx]
    }

    /// Replaces the control state of the given player.
    pub fn set_control(&mut self, player_idx: usize, control: PlayerControl)
        requires
            player_idx < 2,
        ensures
            final(self).players[player_idx as int] == control,
            final(self).players[1 - player_idx as int]
                == old(self).players[1 - player_idx as int],
    {
        if player_idx == 0 {
            self.players = [control, self.players[1]];
        } else {
            self.players = [self.players[0], control];
        }
    }
}

impl Default for MatchInputs {
    fn default() -> (r: Self)
        ensures
            r.players[0] == PlayerControl::empty_spec(),
            r.players[1] == PlayerControl::empty_spec(),
    {
        MatchInputs { players: [PlayerControl::default(), PlayerControl::default()] }
    }
}

} // verus!
