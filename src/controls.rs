use vstd::prelude::*;

verus! {

/// The camera scale starts at this many scale steps (a scale of one).
pub const SCALE_STEPS_START: i64 = 20;

/// The camera scale stays strictly below this many scale steps.
pub const SCALE_STEPS_MAX: i64 = 500;

/// The light intensity starts at this many intensity steps.
pub const LIGHT_STEPS_START: i64 = 25;

/// The light intensity stays strictly above this many intensity steps.
pub const LIGHT_STEPS_MIN: i64 = 25;

/// The light intensity stays strictly below this many intensity steps.
pub const LIGHT_STEPS_MAX: i64 = 75;

/// A direction to move the camera in.
#[derive(Debug, Clone, Copy, PartialEq, Eq, Structural)]
pub enum Compass {
    North,
    South,
    West,
    East,
}

/// A direction to zoom the camera in.
#[derive(Debug, Clone, Copy, PartialEq, Eq, Structural)]
pub enum Zoom {
    In,
    Out,
}

/// The keys the viewer reacts to; every other key is `Other`.
#[derive(Debug, Clone, Copy, PartialEq, Eq, Structural)]
pub enum Key {
    Escape,
    W,
    S,
    A,
    D,
    Up,
    Down,
    Left,
    Right,
    R,
    F,
    K,
    L,
    T,
    Space,
    Other,
}

/// What happened to a key.
#[derive(Debug, Clone, Copy, PartialEq, Eq, Structural)]
pub enum KeyAction {
    Press,
    Repeat,
    Release,
}

/// What the viewer must do after a key event.
#[derive(Debug, Clone, Copy, PartialEq, Eq, Structural)]
pub enum KeyOutcome {
    /// Close the window.
    Close,
    /// Resize the window back and forth so that it redraws.
    Refresh,
    /// The camera changed: rebuild the view matrix.
    CameraChanged,
    /// The light intensity may have changed.
    LightChanged,
    /// Switch between drawing triangles and line loops.
    DrawModeToggled,
    /// Nothing to do.
    Ignored,
}

/// The viewer's camera and light, counted in whole steps: rotation and
/// translation in camera steps per axis, scale in scale steps, light
/// intensity in intensity steps. The renderer turns steps into amounts.
#[derive(Debug, Clone, Copy, PartialEq, Eq, Structural)]
pub struct ViewState {
    pub rotation_x: i64,
    pub rotation_y: i64,
    pub rotation_z: i64,
    pub translation_x: i64,
    pub translation_y: i64,
    pub translation_z: i64,
    pub scale: i64,
    pub light_intensity: i64,
    pub draw_loops: bool,
}

/// `v + d`, or `v` where that leaves the range of `i64`.
pub open spec fn shifted(v: i64, d: int) -> i64 {
    if i64::MIN <= v + d <= i64::MAX {
        (v + d) as i64
    } else {
        v
    }
}

/// `v + d` where that lies strictly between `lo` and `hi`, else `v`.
pub open spec fn bounded_step(v: i64, d: int, lo: int, hi: int) -> i64 {
    if lo < v + d < hi {
        (v + d) as i64
    } else {
        v
    }
}

/// The translation steps of one move towards `dir`, as `(x, y)`.
pub open spec fn compass_steps(dir: Compass) -> (int, int) {
    match dir {
        Compass::North => (0, -1),
        Compass::South => (0, 1),
        Compass::West => (1, 0),
        Compass::East => (-1, 0),
    }
}

/// The scale steps of one zoom towards `dir`.
pub open spec fn zoom_steps(dir: Zoom) -> int {
    match dir {
        Zoom::In => 1,
        Zoom::Out => -1,
    }
}

/// 1 for clockwise, -1 otherwise.
pub open spec fn turn_sign(cw: bool) -> int {
    if cw {
        1
    } else {
        -1
    }
}

impl ViewState {
    /// A camera with no rotation or translation at scale one, and the light
    /// at its starting intensity, drawing triangles.
    pub fn new() -> (r: ViewState)
        ensures
            r == (ViewState {
                rotation_x: 0,
                rotation_y: 0,
                rotation_z: 0,
                translation_x: 0,
                translation_y: 0,
                translation_z: 0,
                scale: SCALE_STEPS_START,
                light_intensity: LIGHT_STEPS_START,
                draw_loops: false,
            }),
    {
        ViewState {
            rotation_x: 0,
            rotation_y: 0,
            rotation_z: 0,
            translation_x: 0,
            translation_y: 0,
            translation_z: 0,
            scale: SCALE_STEPS_START,
            light_intensity: LIGHT_STEPS_START,
            draw_loops: false,
        }
    }

    /// The camera rotated by the given steps about each axis.
    pub open spec fn rotated(self, x: int, y: int, z: int) -> ViewState {
        ViewState {
            rotation_x: shifted(self.rotation_x, x),
            rotation_y: shifted(self.rotation_y, y),
            rotation_z: shifted(self.rotation_z, z),
            ..self
        }
    }

    /// The camera translated by the given steps along each axis.
    pub open spec fn translated(self, x: int, y: int, z: int) -> ViewState {
        ViewState {
            translation_x: shifted(self.translation_x, x),
            translation_y: shifted(self.translation_y, y),
            translation_z: shifted(self.translation_z, z),
            ..self
        }
    }

    /// The camera scale changed by `d` steps, unless that leaves `(0, SCALE_STEPS_MAX)`.
    pub open spec fn scaled(self, d: int) -> ViewState {
        ViewState { scale: bounded_step(self.scale, d, 0, SCALE_STEPS_MAX as int), ..self }
    }

    /// The light intensity changed by `d` steps, unless that leaves
    /// `(LIGHT_STEPS_MIN, LIGHT_STEPS_MAX)`.
    pub open spec fn lit(self, d: int) -> ViewState {
        ViewState {
            light_intensity: bounded_step(
                self.light_intensity,
                d,
                LIGHT_STEPS_MIN as int,
                LIGHT_STEPS_MAX as int,
            ),
            ..self
        }
    }

    /// The state after a key event, and what the viewer must do.
    pub open spec fn after_key(self, key: Key, action: KeyAction, shift: bool) -> (ViewState, KeyOutcome) {
        let pressed = action == KeyAction::Press;
        let held = action == KeyAction::Press || action == KeyAction::Repeat;
        match key {
            Key::Escape => if pressed {
                (self, KeyOutcome::Close)
            } else {
                (self, KeyOutcome::Ignored)
            },
            Key::W => (self.translated(0, -1, 0), KeyOutcome::CameraChanged),
            Key::S => (self.translated(0, 1, 0), KeyOutcome::CameraChanged),
            Key::A => (self.translated(1, 0, 0), KeyOutcome::CameraChanged),
            Key::D => (self.translated(-1, 0, 0), KeyOutcome::CameraChanged),
            Key::Up => if shift {
                (self.rotated(0, 0, 1), KeyOutcome::CameraChanged)
            } else {
                (self.rotated(1, 0, 0), KeyOutcome::CameraChanged)
            },
            Key::Down => if shift {
                (self.rotated(0, 0, -1), KeyOutcome::CameraChanged)
            } else {
                (self.rotated(-1, 0, 0), KeyOutcome::CameraChanged)
            },
            Key::Left => (self.rotated(0, 1, 0), KeyOutcome::CameraChanged),
            Key::Right => (self.rotated(0, -1, 0), KeyOutcome::CameraChanged),
            Key::R => if held {
                (self.scaled(1), KeyOutcome::CameraChanged)
            } else {
                (self, KeyOutcome::Ignored)
            },
            Key::F => if held {
                (self.scaled(-1), KeyOutcome::CameraChanged)
            } else {
                (self, KeyOutcome::Ignored)
            },
            Key::K => if held {
                (self.lit(-1), KeyOutcome::LightChanged)
            } else {
                (self, KeyOutcome::Ignored)
            },
            Key::L => if held {
                (self.lit(1), KeyOutcome::LightChanged)
            } else {
                (self, KeyOutcome::Ignored)
            },
            Key::T => if pressed {
                (ViewState { draw_loops: !self.draw_loops, ..self }, KeyOutcome::DrawModeToggled)
            } else {
                (self, KeyOutcome::Ignored)
            },
            Key::Space => if pressed {
                (self, KeyOutcome::Refresh)
            } else {
                (self, KeyOutcome::Ignored)
            },
            Key::Other => (self, KeyOutcome::Ignored),
        }
    }

    /// Rotates the camera by the given steps about each axis.
    pub fn rotate_camera(&mut self, x: i64, y: i64, z: i64)
        ensures
            *final(self) == old(self).rotated(x as int, y as int, z as int),
    {
        self.rotation_x = shift(self.rotation_x, x);
        self.rotation_y = shift(self.rotation_y, y);
        self.rotation_z = shift(self.rotation_z, z);
    }

    /// One rotation step about the x axis, clockwise or not.
    pub fn rotate_x(&mut self, cw: bool)
        ensures
            *final(self) == old(self).rotated(turn_sign(cw), 0, 0),
    {
        let sign: i64 = if cw { 1 } else { -1 };
        self.rotate_camera(sign, 0, 0);
    }

    /// One rotation step about the y axis, clockwise or not.
    pub fn rotate_y(&mut self, cw: bool)
        ensures
            *final(self) == old(self).rotated(0, turn_sign(cw), 0),
    {
        let sign: i64 = if cw { 1 } else { -1 };
        self.rotate_camera(0, sign, 0);
    }

    /// One rotation step about the z axis, clockwise or not.
    pub fn rotate_z(&mut self, cw: bool)
        ensures
            *final(self) == old(self).rotated(0, 0, turn_sign(cw)),
    {
        let sign: i64 = if cw { 1 } else { -1 };
        self.rotate_camera(0, 0, sign);
    }

    /// Translates the camera by the given steps along each axis.
    pub fn translate_camera(&mut self, x: i64, y: i64, z: i64)
        ensures
            *final(self) == old(self).translated(x as int, y as int, z as int),
    {
        self.translation_x = shift(self.translation_x, x);
        self.translation_y = shift(self.translation_y, y);
        self.translation_z = shift(self.translation_z, z);
    }

    /// One translation step towards `dir`.
    pub fn move_camera(&mut self, dir: Compass)
        ensures
            *final(self) == old(self).translated(compass_steps(dir).0, compass_steps(dir).1, 0),
    {
        let (x, y) = compass_delta(dir);
        self.translate_camera(x, y, 0);
    }

    /// Changes the camera scale by `d` steps, unless that would leave
    /// `(0, SCALE_STEPS_MAX)`.
    pub fn scale_camera(&mut self, d: i64)
        ensures
            *final(self) == old(self).scaled(d as int),
    {
        self.scale = step_within(self.scale, d, 0, SCALE_STEPS_MAX);
    }

    /// One scale step towards `dir`.
    pub fn zoom(&mut self, dir: Zoom)
        ensures
            *final(self) == old(self).scaled(zoom_steps(dir)),
    {
        let d: i64 = match dir {
            Zoom::In => 1,
            Zoom::Out => -1,
        };
        self.scale_camera(d);
    }

    /// Changes the light intensity by `d` steps, unless that would leave
    /// `(LIGHT_STEPS_MIN, LIGHT_STEPS_MAX)`.
    pub fn adjust_light_intensity(&mut self, d: i64)
        ensures
            *final(self) == old(self).lit(d as int),
    {
        self.light_intensity = step_within(self.light_intensity, d, LIGHT_STEPS_MIN, LIGHT_STEPS_MAX);
    }

    /// Applies a key event to the view and says what the viewer must do; see `after_key`.
    pub fn handle_key_event(&mut self, key: Key, action: KeyAction, shift: bool) -> (r: KeyOutcome)
        ensures
            (*final(self), r) == old(self).after_key(key, action, shift),
    {
        let pressed = match action {
            KeyAction::Press => true,
            _ => false,
        };
        let held = match action {
            KeyAction::Press | KeyAction::Repeat => true,
            KeyAction::Release => false,
        };
        match key {
            Key::Escape => if pressed {
                KeyOutcome::Close
            } else {
                KeyOutcome::Ignored
            },
            Key::W => {
                self.move_camera(Compass::North);
                KeyOutcome::CameraChanged
            },
            Key::S => {
                self.move_camera(Compass::South);
                KeyOutcome::CameraChanged
            },
            Key::A => {
                self.move_camera(Compass::West);
                KeyOutcome::CameraChanged
            },
            Key::D => {
                self.move_camera(Compass::East);
                KeyOutcome::CameraChanged
            },
            Key::Up => {
                if shift {
                    self.rotate_z(true);
                } else {
                    self.rotate_x(true);
                }
                KeyOutcome::CameraChanged
            },
            Key::Down => {
                if shift {
                    self.rotate_z(false);
                } else {
                    self.rotate_x(false);
                }
                KeyOutcome::CameraChanged
            },
            Key::Left => {
                self.rotate_y(true);
                KeyOutcome::CameraChanged
            },
            Key::Right => {
                self.rotate_y(false);
                KeyOutcome::CameraChanged
            },
            Key::R => if held {
                self.zoom(Zoom::In);
                KeyOutcome::CameraChanged
            } else {
                KeyOutcome::Ignored
            },
            Key::F => if held {
                self.zoom(Zoom::Out);
                KeyOutcome::CameraChanged
            } else {
                KeyOutcome::Ignored
            },
            Key::K => if held {
                self.adjust_light_intensity(-1);
                KeyOutcome::LightChanged
            } else {
                KeyOutcome::Ignored
            },
            Key::L => if held {
                self.adjust_light_intensity(1);
                KeyOutcome::LightChanged
            } else {
                KeyOutcome::Ignored
            },
            Key::T => if pressed {
                self.draw_loops = !self.draw_loops;
                KeyOutcome::DrawModeToggled
            } else {
                KeyOutcome::Ignored
            },
            Key::Space => if pressed {
                KeyOutcome::Refresh
            } else {
                KeyOutcome::Ignored
            },
            Key::Other => KeyOutcome::Ignored,
        }
    }
}

/// The translation steps of one move towards `dir`; see `compass_steps`.
pub fn compass_delta(dir: Compass) -> (r: (i64, i64))
    ensures
        r.0 == compass_steps(dir).0,
        r.1 == compass_steps(dir).1,
{
    match dir {
        Compass::North => (0, -1),
        Compass::South => (0, 1),
        Compass::West => (1, 0),
        Compass::East => (-1, 0),
    }
}

/// `v + d`, or `v` where that leaves the range of `i64`.
fn shift(v: i64, d: i64) -> (r: i64)
    ensures
        r == shifted(v, d as int),
{
    let s: i128 = v as i128 + d as i128;
    if i64::MIN as i128 <= s && s <= i64::MAX as i128 {
        s as i64
    } else {
        v
    }
}

/// `v + d` where that lies strictly between `lo` and `hi`, else `v`.
fn step_within(v: i64, d: i64, lo: i64, hi: i64) -> (r: i64)
    ensures
        r == bounded_step(v, d as int, lo as int, hi as int),
{
    let s: i128 = v as i128 + d as i128;
    if lo as i128 <= s - 1 && s + 1 <= hi as i128 {
        s as i64
    } else {
        v
    }
}

} // verus!
