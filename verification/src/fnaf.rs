//! The night-shift survival game: two doors, two lights, a draining
//! battery, a clock that runs from midnight to six and a bear that comes to
//! one of the doors.
use vstd::prelude::*;
use crate::miami::{PixelRect, min_i, max_i};

verus! {

/// The parts of the office whose sprites are shown or hidden.
#[derive(Clone, Copy, PartialEq, Eq, Debug, Structural)]
pub enum Environment {
    Room,
    LDoor,
    RDoor,
    LWhitelight,
    RWhitelight,
    LRedlight,
    RRedlight,
    LLight,
    RLight,
    Faz,
    LBear,
    RBear,
}

/// Which doors are open and which lights are on.
#[derive(Clone, Copy, PartialEq, Eq, Debug, Structural)]
pub struct EnvironmentData {
    pub left_door_open: bool,
    pub right_door_open: bool,
    pub left_light_on: bool,
    pub right_light_on: bool,
}

impl EnvironmentData {
    /// The office at the start of the night: doors open, lights off.
    pub fn new() -> (r: Self)
        ensures
            r.left_door_open,
            r.right_door_open,
            !r.left_light_on,
            !r.right_light_on,
    {
        EnvironmentData {
            left_door_open: true,
            right_door_open: true,
            left_light_on: false,
            right_light_on: false,
        }
    }
}

impl Default for EnvironmentData {
    /// Doors closed and lights off.
    fn default() -> (r: Self)
        ensures
            !r.left_door_open,
            !r.right_door_open,
            !r.left_light_on,
            !r.right_light_on,
    {
        EnvironmentData {
            left_door_open: false,
            right_door_open: false,
            left_light_on: false,
            right_light_on: false,
        }
    }
}

/// Which of the office's buttons lie under the mouse cursor.
#[derive(Clone, Copy, PartialEq, Eq, Debug, Structural)]
pub struct FnafPointer {
    /// Freddy's nose.
    pub faz: bool,
    /// The left door button.
    pub red_left: bool,
    /// The right door button.
    pub red_right: bool,
    /// The left light button.
    pub white_left: bool,
    /// The right light button.
    pub white_right: bool,
}

/// Whether the bear is at a door, and at which one.
#[derive(Clone, Copy, PartialEq, Eq, Debug, Structural)]
pub struct BearPresence {
    pub bear_here: bool,
    pub right: bool,
}

/// The one-shot sounds of the office.
#[derive(Clone, Copy, PartialEq, Eq, Debug, Structural)]
pub enum FnafSound {
    Faz,
    OpenDoor,
    CloseDoor,
    Light,
    Ur,
}

/// How each sprite of the office changes in one frame: `Some(true)` shows
/// it, `Some(false)` hides it, `None` leaves it as it was.
#[derive(Clone, Copy, PartialEq, Eq, Debug, Structural)]
pub struct FnafScene {
    pub l_door: Option<bool>,
    pub r_door: Option<bool>,
    pub l_redlight: Option<bool>,
    pub r_redlight: Option<bool>,
    pub l_whitelight: Option<bool>,
    pub r_whitelight: Option<bool>,
    pub l_light: Option<bool>,
    pub r_light: Option<bool>,
    pub l_bear: Option<bool>,
    pub r_bear: Option<bool>,
}

impl FnafScene {
    /// No sprite changes.
    pub open spec fn spec_unchanged() -> FnafScene {
        FnafScene {
            l_door: None,
            r_door: None,
            l_redlight: None,
            r_redlight: None,
            l_whitelight: None,
            r_whitelight: None,
            l_light: None,
            r_light: None,
            l_bear: None,
            r_bear: None,
        }
    }

    /// The change this scene makes to the sprite of `env`.
    pub open spec fn change_of(self, env: Environment) -> Option<bool> {
        match env {
            Environment::LDoor => self.l_door,
            Environment::RDoor => self.r_door,
            Environment::LRedlight => self.l_redlight,
            Environment::RRedlight => self.r_redlight,
            Environment::LWhitelight => self.l_whitelight,
            Environment::RWhitelight => self.r_whitelight,
            Environment::LLight => self.l_light,
            Environment::RLight => self.r_light,
            Environment::LBear => self.l_bear,
            Environment::RBear => self.r_bear,
            _ => None,
        }
    }

    /// The change this scene makes to the sprite of `env`.
    pub fn visibility_of(&self, env: Environment) -> (r: Option<bool>)
        ensures
            r == self.change_of(env),
    {
        match env {
            Environment::LDoor => self.l_door,
            Environment::RDoor => self.r_door,
            Environment::LRedlight => self.l_redlight,
            Environment::RRedlight => self.r_redlight,
            Environment::LWhitelight => self.l_whitelight,
            Environment::RWhitelight => self.r_whitelight,
            Environment::LLight => self.l_light,
            Environment::RLight => self.r_light,
            Environment::LBear => self.l_bear,
            Environment::RBear => self.r_bear,
            _ => None,
        }
    }
}

/// What a frame of mouse handling in the office changes.
pub struct RectsEffects {
    pub scene: FnafScene,
    /// The sounds to start, in order.
    pub sounds: Vec<FnafSound>,
    /// Whether the buzzing of the lights stops.
    pub stop_light_audio: bool,
}

/// A click on Freddy's nose, when it is the first button under the cursor.
pub open spec fn clicks_faz(p: FnafPointer, pressed: bool) -> bool {
    pressed && p.faz
}

/// A click on the left door button.
pub open spec fn clicks_left_door(p: FnafPointer, pressed: bool) -> bool {
    pressed && !p.faz && p.red_left
}

/// A click on the right door button.
pub open spec fn clicks_right_door(p: FnafPointer, pressed: bool) -> bool {
    pressed && !p.faz && !p.red_left && p.red_right
}

/// The cursor is on the right light button and not on the left one.
pub open spec fn on_right_light(p: FnafPointer) -> bool {
    !p.white_left && p.white_right
}

/// The bear stands at the left door.
pub open spec fn bear_left(b: BearPresence) -> bool {
    b.bear_here && !b.right
}

/// The bear stands at the right door.
pub open spec fn bear_right(b: BearPresence) -> bool {
    b.bear_here && b.right
}

/// The sounds a frame starts, in order: the nose or a door, then the light
/// and the bear's growl when a light is switched on.
pub open spec fn rects_sounds(env: EnvironmentData, p: FnafPointer, pressed: bool, bear: BearPresence) -> Seq<FnafSound> {
    let first: Seq<FnafSound> = if clicks_faz(p, pressed) {
        seq![FnafSound::Faz]
    } else if clicks_left_door(p, pressed) {
        seq![if env.left_door_open { FnafSound::OpenDoor } else { FnafSound::CloseDoor }]
    } else if clicks_right_door(p, pressed) {
        seq![if env.right_door_open { FnafSound::OpenDoor } else { FnafSound::CloseDoor }]
    } else {
        seq![]
    };
    let light: Seq<FnafSound> = if pressed && p.white_left {
        if bear_left(bear) { seq![FnafSound::Light, FnafSound::Ur] } else { seq![FnafSound::Light] }
    } else if pressed && on_right_light(p) {
        if bear_right(bear) { seq![FnafSound::Light, FnafSound::Ur] } else { seq![FnafSound::Light] }
    } else {
        seq![]
    };
    first + light
}

/// The doors and lights after a frame of mouse handling.
pub open spec fn spec_env_after(env: EnvironmentData, pointer: FnafPointer, pressed: bool, released: bool) -> EnvironmentData {
    EnvironmentData {
        left_door_open: env.left_door_open != clicks_left_door(pointer, pressed),
        right_door_open: env.right_door_open != clicks_right_door(pointer, pressed),
        left_light_on: if pointer.white_left && released {
            false
        } else if pointer.white_left && pressed {
            true
        } else {
            env.left_light_on
        },
        right_light_on: if on_right_light(pointer) && released {
            false
        } else if on_right_light(pointer) && pressed {
            true
        } else {
            env.right_light_on
        },
    }
}

/// The office's answer to the mouse: the nose honks; a door button toggles
/// its door, whose sprite and red lamp show while it is closed; holding a
/// light button lights the corridor and shows the bear if it stands there;
/// releasing the button turns the light off again.
pub fn handle_rects(
    env: &mut EnvironmentData,
    pointer: FnafPointer,
    pressed: bool,
    released: bool,
    bear: BearPresence,
) -> (r: RectsEffects)
    ensures
        *final(env) == spec_env_after(*old(env), pointer, pressed, released),
        clicks_left_door(pointer, pressed) ==> r.scene.l_door == Some(!final(env).left_door_open),
        clicks_right_door(pointer, pressed) ==> r.scene.r_door == Some(!final(env).right_door_open),
        final(env).left_door_open == (old(env).left_door_open != clicks_left_door(pointer, pressed)),
        final(env).right_door_open == (old(env).right_door_open != clicks_right_door(pointer, pressed)),
        final(env).left_light_on == (if pointer.white_left && released {
            false
        } else if pointer.white_left && pressed {
            true
        } else {
            old(env).left_light_on
        }),
        final(env).right_light_on == (if on_right_light(pointer) && released {
            false
        } else if on_right_light(pointer) && pressed {
            true
        } else {
            old(env).right_light_on
        }),
        r.scene.l_door == (if clicks_left_door(pointer, pressed) { Some(old(env).left_door_open) } else { None }),
        r.scene.l_redlight == r.scene.l_door,
        r.scene.r_door == (if clicks_right_door(pointer, pressed) { Some(old(env).right_door_open) } else { None }),
        r.scene.r_redlight == r.scene.r_door,
        r.scene.l_whitelight == (if pointer.white_left && released {
            Some(false)
        } else if pointer.white_left && pressed {
            Some(true)
        } else {
            None
        }),
        r.scene.l_light == (if pointer.white_left && released {
            Some(false)
        } else if pointer.white_left && pressed && !bear_left(bear) {
            Some(true)
        } else {
            None
        }),
        r.scene.l_bear == (if pointer.white_left && released {
            Some(false)
        } else if pointer.white_left && pressed && bear_left(bear) {
            Some(true)
        } else {
            None
        }),
        r.scene.r_whitelight == (if on_right_light(pointer) && released {
            Some(false)
        } else if on_right_light(pointer) && pressed {
            Some(true)
        } else {
            None
        }),
        r.scene.r_light == (if on_right_light(pointer) && released {
            Some(false)
        } else if on_right_light(pointer) && pressed && !bear_right(bear) {
            Some(true)
        } else {
            None
        }),
        r.scene.r_bear == (if on_right_light(pointer) && released {
            Some(false)
        } else if on_right_light(pointer) && pressed && bear_right(bear) {
            Some(true)
        } else {
            None
        }),
        r.sounds@ == rects_sounds(*old(env), pointer, pressed, bear),
        r.stop_light_audio == ((pointer.white_left || pointer.white_right) && released),
{
    let mut scene = FnafScene {
        l_door: None,
        r_door: None,
        l_redlight: None,
        r_redlight: None,
        l_whitelight: None,
        r_whitelight: None,
        l_light: None,
        r_light: None,
        l_bear: None,
        r_bear: None,
    };
    let mut sounds: Vec<FnafSound> = Vec::new();
    let mut stop_light_audio = false;
    if pressed {
        if pointer.faz {
            sounds.push(FnafSound::Faz);
        } else if pointer.red_left {
            if env.left_door_open {
                sounds.push(FnafSound::OpenDoor);
                scene.l_door = Some(true);
                scene.l_redlight = Some(true);
            } else {
                sounds.push(FnafSound::CloseDoor);
                scene.l_door = Some(false);
                scene.l_redlight = Some(false);
            }
            env.left_door_open = !env.left_door_open;
        } else if pointer.red_right {
            if env.right_door_open {
                sounds.push(FnafSound::OpenDoor);
                scene.r_door = Some(true);
                scene.r_redlight = Some(true);
            } else {
                sounds.push(FnafSound::CloseDoor);
                scene.r_door = Some(false);
                scene.r_redlight = Some(false);
            }
            env.right_door_open = !env.right_door_open;
        }
    }
    let ghost first = sounds@;
    if pointer.white_left {
        if pressed {
            env.left_light_on = true;
            sounds.push(FnafSound::Light);
            scene.l_whitelight = Some(true);
            if !bear.bear_here || bear.right {
                scene.l_light = Some(true);
            }
            if bear.bear_here && !bear.right {
                scene.l_bear = Some(true);
                sounds.push(FnafSound::Ur);
            }
        }
        if released {
            env.left_light_on = false;
            stop_light_audio = true;
            scene.l_whitelight = Some(false);
            scene.l_light = Some(false);
            scene.l_bear = Some(false);
        }
    } else if pointer.white_right {
        if pressed {
            env.right_light_on = true;
            sounds.push(FnafSound::Light);
            scene.r_whitelight = Some(true);
            if !bear.bear_here || !bear.right {
                scene.r_light = Some(true);
            }
            if bear.bear_here && bear.right {
                scene.r_bear = Some(true);
                sounds.push(FnafSound::Ur);
            }
        }
        if released {
            env.right_light_on = false;
            stop_light_audio = true;
            scene.r_whitelight = Some(false);
            scene.r_light = Some(false);
            scene.r_bear = Some(false);
        }
    }
    assert(sounds@ =~= rects_sounds(*old(env), pointer, pressed, bear));
    RectsEffects { scene, sounds, stop_light_audio }
}

/// What drains the battery: the number of closed doors and of lights on.
pub fn discharge_sources(env: &EnvironmentData) -> (r: (u32, u32))
    ensures
        r.0 == (if env.left_door_open { 0int } else { 1int }) + (if env.right_door_open { 0int } else { 1int }),
        r.1 == (if env.left_light_on { 1int } else { 0int }) + (if env.right_light_on { 1int } else { 0int }),
{
    let mut doors: u32 = 0;
    let mut lights: u32 = 0;
    if !env.left_door_open {
        doors = doors + 1;
    }
    if !env.right_door_open {
        doors = doors + 1;
    }
    if env.left_light_on {
        lights = lights + 1;
    }
    if env.right_light_on {
        lights = lights + 1;
    }
    (doors, lights)
}

/// The hour the office clock shows after `periods` whole twenty-second
/// periods of the night, and whether the night is survived: midnight (12)
/// first, then one to five, and six o'clock ends the night. After the sixth
/// period the clock is no longer updated.
pub fn faz_clock(periods: u32) -> (r: Option<(usize, bool)>)
    ensures
        periods == 0 ==> r == Some((12usize, false)),
        1 <= periods <= 5 ==> r == Some((periods as usize, false)),
        periods == 6 ==> r == Some((6usize, true)),
        periods > 6 ==> r is None,
{
    if periods == 0 {
        Some((12, false))
    } else if periods <= 5 {
        Some((periods as usize, false))
    } else if periods == 6 {
        Some((6, true))
    } else {
        None
    }
}

/// The suffix after the hour: noon-like twelve reads "PM", the rest "AM".
pub fn time_suffix(hour: usize) -> (r: &'static str)
    ensures
        hour == 12 ==> r@ == " PM"@,
        hour != 12 ==> r@ == " AM"@,
{
    if hour == 12 {
        " PM"
    } else {
        " AM"
    }
}

/// Whether the door on the bear's side is open, so that the bear's patience
/// runs out.
pub fn bear_door_open(env: &EnvironmentData, bear_on_right: bool) -> (r: bool)
    ensures
        r == ((env.left_door_open && !bear_on_right) || (env.right_door_open && bear_on_right)),
{
    (env.left_door_open && !bear_on_right) || (env.right_door_open && bear_on_right)
}

/// The mouse cursor in the world, in hundredths of a pixel, when it is over
/// the window.
#[derive(Clone, Copy, Debug)]
pub struct MousePos(pub Option<(i32, i32)>);

/// The office's buttons, in hundredths of a pixel of the world.
#[derive(Clone, Copy, PartialEq, Eq, Debug, Structural)]
pub struct Rects {
    pub red_right: PixelRect,
    pub red_left: PixelRect,
    pub white_right: PixelRect,
    pub white_left: PixelRect,
    pub faz: PixelRect,
}

/// Whether a rectangle holds a point, borders included.
pub open spec fn rect_contains(r: PixelRect, x: int, y: int) -> bool {
    r.min_x <= x <= r.max_x && r.min_y <= y <= r.max_y
}

/// The rectangle with the given corners.
pub open spec fn corners(x0: i32, y0: i32, x1: i32, y1: i32) -> PixelRect {
    PixelRect { min_x: min_i(x0, x1), min_y: min_i(y0, y1), max_x: max_i(x0, x1), max_y: max_i(y0, y1) }
}

/// Where the buttons are drawn on the office's picture.
pub open spec fn spec_rects() -> Rects {
    Rects {
        red_left: corners(-80952i32, -3675i32, -74472i32, 6770i32),
        red_right: corners(74955i32, -3579i32, 81339i32, 7544i32),
        white_left: corners(-80758i32, -18570i32, -74568i32, -9381i32),
        white_right: corners(75052i32, -18086i32, 80371i32, -9091i32),
        faz: corners(-15668i32, 9575i32, -12767i32, 11606i32),
    }
}

/// The buttons of the office.
pub fn init_rects() -> (r: Rects)
    ensures
        r == spec_rects(),
{
    Rects {
        red_left: PixelRect::new(-80952, -3675, -74472, 6770),
        red_right: PixelRect::new(74955, -3579, 81339, 7544),
        white_left: PixelRect::new(-80758, -18570, -74568, -9381),
        white_right: PixelRect::new(75052, -18086, 80371, -9091),
        faz: PixelRect::new(-15668, 9575, -12767, 11606),
    }
}

/// Whether `r` holds the point `(x, y)`.
pub fn contains(r: &PixelRect, x: i32, y: i32) -> (b: bool)
    ensures
        b == rect_contains(*r, x as int, y as int),
{
    r.min_x <= x && x <= r.max_x && r.min_y <= y && y <= r.max_y
}

impl Rects {
    /// Which buttons lie under the cursor; none when the cursor is not over
    /// the window.
    pub fn pointer(&self, mouse: &MousePos) -> (p: FnafPointer)
        ensures
            mouse.0 is None ==> p == (FnafPointer { faz: false, red_left: false, red_right: false, white_left: false, white_right: false }),
            mouse.0 matches Some(m) ==> p == (FnafPointer {
                faz: rect_contains(self.faz, m.0 as int, m.1 as int),
                red_left: rect_contains(self.red_left, m.0 as int, m.1 as int),
                red_right: rect_contains(self.red_right, m.0 as int, m.1 as int),
                white_left: rect_contains(self.white_left, m.0 as int, m.1 as int),
                white_right: rect_contains(self.white_right, m.0 as int, m.1 as int),
            }),
    {
        match mouse.0 {
            None => FnafPointer { faz: false, red_left: false, red_right: false, white_left: false, white_right: false },
            Some((x, y)) => FnafPointer {
                faz: contains(&self.faz, x, y),
                red_left: contains(&self.red_left, x, y),
                red_right: contains(&self.red_right, x, y),
                white_left: contains(&self.white_left, x, y),
                white_right: contains(&self.white_right, x, y),
            },
        }
    }
}

/// Marks the debugging sprite of the office.
#[derive(Clone, Copy, PartialEq, Eq, Debug, Default, Structural)]
pub struct DbgSprite;

/// Marks the text that shows the battery's charge.
#[derive(Clone, Copy, PartialEq, Eq, Debug, Default, Structural)]
pub struct BatteryText;

/// Marks the text that shows the hour.
#[derive(Clone, Copy, PartialEq, Eq, Debug, Default, Structural)]
pub struct TimeText;

/// Marks the text after the hour: AM or PM.
#[derive(Clone, Copy, PartialEq, Eq, Debug, Default, Structural)]
pub struct TimeText1;

/// Marks the buzzing of a light, which stops when the light goes off.
#[derive(Clone, Copy, PartialEq, Eq, Debug, Default, Structural)]
pub struct LightAudio;

/// Marks the picture shown when the night is lost.
#[derive(Clone, Copy, PartialEq, Eq, Debug, Default, Structural)]
pub struct Lobster;

/// Marks the picture shown when the night is survived.
#[derive(Clone, Copy, PartialEq, Eq, Debug, Default, Structural)]
pub struct Winscreen;

/// How fast a closed door drains the battery: 1.25 percent a second, in
/// millionths of a percent per millisecond.
pub const DOOR_DISCHARGE: u64 = 1250;

/// How fast a light that is on drains the battery: 0.4 percent a second,
/// in millionths of a percent per millisecond.
pub const WINDOW_DISCHARGE: u64 = 400;

/// The battery's charge, in millionths of a percent.
#[derive(Clone, Copy, PartialEq, Eq, Debug, Structural)]
pub struct Battery {
    pub charge: i64,
}

impl Battery {
    /// A full battery.
    pub fn full() -> (r: Self)
        ensures
            r.charge == 100_000_000,
    {
        Battery { charge: 100_000_000 }
    }
}

/// The battery drain of `dt_ms` milliseconds with the doors and lights of
/// `env`.
pub open spec fn spec_discharge(env: EnvironmentData, dt_ms: int) -> int {
    ((if env.left_door_open { 0int } else { DOOR_DISCHARGE as int }) + (if env.right_door_open { 0int } else { DOOR_DISCHARGE as int })
        + (if env.left_light_on { WINDOW_DISCHARGE as int } else { 0int }) + (if env.right_light_on { WINDOW_DISCHARGE as int } else { 0int }))
        * dt_ms
}

/// Drain the battery for `dt_ms` milliseconds: each closed door and each
/// light on draws its share; the night is lost when the battery is empty.
pub fn handle_game_logic(battery: &mut Battery, env: &EnvironmentData, dt_ms: u32) -> (defeat: bool)
    requires
        old(battery).charge - 3300 * (u32::MAX as int) >= i64::MIN,
    ensures
        final(battery).charge == old(battery).charge - spec_discharge(*env, dt_ms as int),
        defeat == (final(battery).charge <= 0),
{
    let (doors, lights) = discharge_sources(env);
    let rate: u64 = (doors as u64) * DOOR_DISCHARGE + (lights as u64) * WINDOW_DISCHARGE;
    assert(rate <= 3300);
    assert(rate * (dt_ms as u64) <= 3300 * (u32::MAX as int)) by (nonlinear_arith)
        requires
            rate <= 3300,
            dt_ms <= u32::MAX,
    ;
    let drain: u64 = rate * (dt_ms as u64);
    assert(drain == spec_discharge(*env, dt_ms as int)) by (nonlinear_arith)
        requires
            drain == rate * dt_ms,
            rate == (if env.left_door_open { 0int } else { DOOR_DISCHARGE as int }) + (if env.right_door_open { 0int } else { DOOR_DISCHARGE as int })
                + (if env.left_light_on { WINDOW_DISCHARGE as int } else { 0int }) + (if env.right_light_on { WINDOW_DISCHARGE as int } else { 0int }),
    ;
    battery.charge = battery.charge - (drain as i64);
    battery.charge <= 0
}

/// How long the bear stays away before its first visit, in milliseconds.
pub const BEAR_INITIAL_DELAY: u64 = 2000;

/// How long the bear waits at an open door before it strikes, in
/// milliseconds.
pub const BEAR_KILL_DELAY: u64 = 10000;

/// The bear: the time since the night began (until its first visit), the
/// times until it comes, until it leaves and the time it has waited at an
/// open door, all in milliseconds; whether it is at a door, and at which.
#[derive(Clone, Copy, PartialEq, Eq, Debug, Structural)]
pub struct BearData {
    pub initial_delay: u64,
    pub bear_until_comes: i64,
    pub bear_until_leaves: i64,
    pub bear_until_kills: u64,
    pub bear_here: bool,
    pub right: bool,
}

impl Default for BearData {
    /// The bear at the start of the night: away, with nothing counted.
    fn default() -> (r: Self)
        ensures
            r == (BearData {
                initial_delay: 0,
                bear_until_comes: 0,
                bear_until_leaves: 0,
                bear_until_kills: 0,
                bear_here: false,
                right: false,
            }),
    {
        BearData { initial_delay: 0, bear_until_comes: 0, bear_until_leaves: 0, bear_until_kills: 0, bear_here: false, right: false }
    }
}

impl BearData {
    /// Whether the bear is at a door, and at which one.
    pub fn presence(&self) -> (r: BearPresence)
        ensures
            r == (BearPresence { bear_here: self.bear_here, right: self.right }),
    {
        BearPresence { bear_here: self.bear_here, right: self.right }
    }
}

/// The chance draws of the bear: how long it will stay away when it
/// leaves, how long it will stay when it comes, and at which door.
#[derive(Clone, Copy, PartialEq, Eq, Debug, Structural)]
pub struct BearRolls {
    pub comes_in: u32,
    pub leaves_in: u32,
    pub right: bool,
}

/// What the bear does in a frame.
#[derive(Clone, Copy, PartialEq, Eq, Debug, Structural)]
pub enum BearEvent {
    Nothing,
    /// It leaves the door it stood at.
    Left,
    /// It comes to a door.
    Arrived,
}

/// The waiting at the door, counted on while the door on the bear's side is
/// open and started over when it is closed.
pub open spec fn spec_kill_wait(kills: u64, env: EnvironmentData, right: bool, dt_ms: u32) -> u64 {
    if (env.left_door_open && !right) || (env.right_door_open && right) {
        if kills + dt_ms > u64::MAX { u64::MAX } else { (kills + dt_ms) as u64 }
    } else {
        0
    }
}

/// The bear after a frame, with what happened and whether the night is
/// lost.
pub open spec fn spec_handle_faz(bear: BearData, env: EnvironmentData, dt_ms: u32, rolls: BearRolls) -> (BearData, (BearEvent, bool)) {
    if bear.initial_delay <= BEAR_INITIAL_DELAY {
        (BearData { initial_delay: (bear.initial_delay + dt_ms) as u64, ..bear }, (BearEvent::Nothing, false))
    } else if bear.bear_here {
        let leaves = bear.bear_until_leaves <= 0;
        let kills = spec_kill_wait(if leaves { 0 } else { bear.bear_until_kills }, env, bear.right, dt_ms);
        (
            if leaves {
                BearData { bear_here: false, bear_until_kills: kills, bear_until_comes: rolls.comes_in as i64, ..bear }
            } else {
                BearData { bear_until_leaves: (bear.bear_until_leaves - dt_ms) as i64, bear_until_kills: kills, ..bear }
            },
            (if leaves { BearEvent::Left } else { BearEvent::Nothing }, kills >= BEAR_KILL_DELAY),
        )
    } else if bear.bear_until_comes <= 0 {
        (BearData { bear_here: true, right: rolls.right, bear_until_leaves: rolls.leaves_in as i64, ..bear }, (BearEvent::Arrived, false))
    } else {
        (BearData { bear_until_comes: (bear.bear_until_comes - dt_ms) as i64, ..bear }, (BearEvent::Nothing, false))
    }
}

/// One frame of the bear, `dt_ms` milliseconds long, with the chance draws
/// of `rolls`: at first it stays away a little; then, away, it counts down
/// to its visit and comes to the door of `rolls.right` for `rolls.leaves_in`
/// milliseconds; at a door it counts down to its leave and then stays away
/// for `rolls.comes_in` milliseconds. While the door on its side is open it
/// waits, and after waiting long enough the night is lost. Returns what
/// happened and whether the night is lost.
pub fn handle_faz(bear: &mut BearData, env: &EnvironmentData, dt_ms: u32, rolls: BearRolls) -> (r: (BearEvent, bool))
    ensures
        (*final(bear), r) == spec_handle_faz(*old(bear), *env, dt_ms, rolls),
{
    if bear.initial_delay <= BEAR_INITIAL_DELAY {
        bear.initial_delay = bear.initial_delay + (dt_ms as u64);
        return (BearEvent::Nothing, false);
    }
    if bear.bear_here {
        let mut event = BearEvent::Nothing;
        if bear.bear_until_leaves <= 0 {
            bear.bear_here = false;
            bear.bear_until_kills = 0;
            bear.bear_until_comes = rolls.comes_in as i64;
            event = BearEvent::Left;
        } else {
            bear.bear_until_leaves = bear.bear_until_leaves - (dt_ms as i64);
        }
        if bear_door_open(env, bear.right) {
            bear.bear_until_kills = bear.bear_until_kills.saturating_add(dt_ms as u64);
        } else {
            bear.bear_until_kills = 0;
        }
        let defeat = bear.bear_until_kills >= BEAR_KILL_DELAY;
        (event, defeat)
    } else {
        if bear.bear_until_comes <= 0 {
            bear.bear_here = true;
            bear.right = rolls.right;
            bear.bear_until_leaves = rolls.leaves_in as i64;
            (BearEvent::Arrived, false)
        } else {
            bear.bear_until_comes = bear.bear_until_comes - (dt_ms as i64);
            (BearEvent::Nothing, false)
        }
    }
}

/// The chance draws for a frame of the bear: it stays away twenty to thirty
/// seconds, stays ten to twenty seconds, and picks either door.
pub fn roll_bear() -> (r: BearRolls)
    ensures
        20000 <= r.comes_in < 30000,
        10000 <= r.leaves_in < 20000,
{
    let comes_in = 20000 + crate::miami::random_below_u32(10000);
    let leaves_in = 10000 + crate::miami::random_below_u32(10000);
    let right = crate::miami::random_below_u32(2) == 1;
    BearRolls { comes_in, leaves_in, right }
}

/// The night's clock: when the night began, in milliseconds since the game
/// started, once it is known, and the hour on show.
#[derive(Clone, Copy, PartialEq, Eq, Debug, Structural)]
pub struct FazTime {
    pub start_time: Option<u64>,
    pub time_to_show: usize,
}

impl FazTime {
    /// The clock before the first frame: midnight.
    pub fn new() -> (r: Self)
        ensures
            r.start_time is None,
            r.time_to_show == 12,
    {
        FazTime { start_time: None, time_to_show: 12 }
    }
}

/// How long each hour of the night lasts, in milliseconds.
pub const FAZ_HOUR: u64 = 20000;

/// One frame of the clock at `now_ms`: the first frame notes the start of
/// the night; later frames show the hour of the twenty-second periods
/// since then, and the night is survived when six o'clock comes. Returns
/// whether the night is survived.
pub fn handle_faz_time(t: &mut FazTime, now_ms: u64) -> (win: bool)
    ensures
        old(t).start_time is None ==> !win && *final(t) == (FazTime { start_time: Some(now_ms), ..*old(t) }),
        old(t).start_time matches Some(start) ==> {
            let periods = if now_ms >= start { (now_ms - start) / (FAZ_HOUR as int) } else { 0int };
            &&& final(t).start_time == old(t).start_time
            &&& periods == 0 ==> final(t).time_to_show == 12 && !win
            &&& 1 <= periods <= 5 ==> final(t).time_to_show == periods && !win
            &&& periods == 6 ==> final(t).time_to_show == 6 && win
            &&& periods > 6 ==> final(t).time_to_show == old(t).time_to_show && !win
        },
{
    match t.start_time {
        None => {
            t.start_time = Some(now_ms);
            false
        },
        Some(start) => {
            let elapsed = now_ms.saturating_sub(start);
            let periods = elapsed / FAZ_HOUR;
            if periods > 6 {
                return false;
            }
            match faz_clock(periods as u32) {
                Some((hour, won)) => {
                    t.time_to_show = hour;
                    won
                },
                None => false,
            }
        },
    }
}

/// What the lost-night screen does in a frame.
#[derive(Clone, Copy, PartialEq, Eq, Debug, Structural)]
pub enum DefeatStep {
    /// The lobster shows up, with its sound.
    Show,
    /// A screenshot is taken on the way out.
    Screenshot,
    Wait,
}

/// The lost-night screen, `timer_ms` milliseconds after it began (zero on
/// its first frame): the lobster appears at once, and after a second a
/// screenshot is taken unless one is already awaited.
pub fn defeat(timer_ms: u64, awaiting: bool) -> (r: DefeatStep)
    ensures
        r == (if timer_ms == 0 {
            DefeatStep::Show
        } else if timer_ms > 1000 && !awaiting {
            DefeatStep::Screenshot
        } else {
            DefeatStep::Wait
        }),
{
    if timer_ms == 0 {
        DefeatStep::Show
    } else if timer_ms > 1000 && !awaiting {
        DefeatStep::Screenshot
    } else {
        DefeatStep::Wait
    }
}

/// What the survived-night screen does in a frame.
#[derive(Clone, Copy, PartialEq, Eq, Debug, Structural)]
pub enum WinStep {
    /// The picture shows up, with a cheer.
    Show,
    /// The next game begins.
    Next(crate::states::AppState),
    Wait,
}

/// The survived-night screen, `timer_ms` milliseconds after it began (zero
/// on its first frame): the picture appears at once, and after two seconds
/// the game moves on to the next one.
pub fn win(timer_ms: u64) -> (r: WinStep)
    ensures
        r == (if timer_ms == 0 {
            WinStep::Show
        } else if timer_ms > 2000 {
            WinStep::Next(crate::states::AppState::FakeEnd)
        } else {
            WinStep::Wait
        }),
{
    if timer_ms == 0 {
        WinStep::Show
    } else if timer_ms > 2000 {
        WinStep::Next(crate::states::AppState::FakeEnd)
    } else {
        WinStep::Wait
    }
}

/// A door button clicked twice leaves its door as it was, and the other
/// door is never touched by it.
pub proof fn lemma_door_click_twice(env: EnvironmentData, pointer: FnafPointer)
    requires
        clicks_left_door(pointer, true),
    ensures
        spec_env_after(spec_env_after(env, pointer, true, false), pointer, true, false).left_door_open == env.left_door_open,
        spec_env_after(env, pointer, true, false).left_door_open == !env.left_door_open,
        spec_env_after(env, pointer, true, false).right_door_open == env.right_door_open,
{
}

/// While the door on the bear's side is closed, the bear cannot strike:
/// its waiting starts over and the night goes on.
pub proof fn lemma_closed_door_is_safe(bear: BearData, env: EnvironmentData, dt_ms: u32, rolls: BearRolls)
    requires
        bear.bear_here,
        !((env.left_door_open && !bear.right) || (env.right_door_open && bear.right)),
    ensures
        !spec_handle_faz(bear, env, dt_ms, rolls).1.1,
        bear.initial_delay > BEAR_INITIAL_DELAY ==> spec_handle_faz(bear, env, dt_ms, rolls).0.bear_until_kills == 0,
{
}

/// The bear's round of a night, frame by frame. While its first delay
/// runs, only that delay advances. Away, it stays away and counts down by
/// the frame's length until its countdown is used up, and only then comes
/// to the door of the roll, to stay as long as the roll says. At a door it
/// counts down its stay and, once that is used up, leaves to stay away as
/// long as the roll says. The night can only be lost while the bear is at
/// a door that is open, and it is lost once the bear has waited there long
/// enough.
pub proof fn lemma_bear_round(bear: BearData, env: EnvironmentData, dt_ms: u32, rolls: BearRolls)
    ensures
        bear.initial_delay <= BEAR_INITIAL_DELAY ==> {
            let (b, (ev, lost)) = spec_handle_faz(bear, env, dt_ms, rolls);
            &&& ev == BearEvent::Nothing && !lost
            &&& b.initial_delay == bear.initial_delay + dt_ms
            &&& b.bear_here == bear.bear_here && b.right == bear.right
            &&& b.bear_until_comes == bear.bear_until_comes
            &&& b.bear_until_leaves == bear.bear_until_leaves
            &&& b.bear_until_kills == bear.bear_until_kills
        },
        bear.initial_delay > BEAR_INITIAL_DELAY && !bear.bear_here && bear.bear_until_comes > 0 ==> {
            let (b, (ev, lost)) = spec_handle_faz(bear, env, dt_ms, rolls);
            &&& ev == BearEvent::Nothing && !lost
            &&& !b.bear_here
            &&& b.bear_until_comes == bear.bear_until_comes - dt_ms
            &&& b.right == bear.right && b.initial_delay == bear.initial_delay
        },
        bear.initial_delay > BEAR_INITIAL_DELAY && !bear.bear_here && bear.bear_until_comes <= 0 ==> {
            let (b, (ev, lost)) = spec_handle_faz(bear, env, dt_ms, rolls);
            &&& ev == BearEvent::Arrived && !lost
            &&& b.bear_here && b.right == rolls.right
            &&& b.bear_until_leaves == rolls.leaves_in
        },
        bear.initial_delay > BEAR_INITIAL_DELAY && bear.bear_here && bear.bear_until_leaves > 0 ==> {
            let (b, (ev, lost)) = spec_handle_faz(bear, env, dt_ms, rolls);
            &&& ev == BearEvent::Nothing
            &&& b.bear_here && b.right == bear.right
            &&& b.bear_until_leaves == bear.bear_until_leaves - dt_ms
        },
        bear.initial_delay > BEAR_INITIAL_DELAY && bear.bear_here && bear.bear_until_leaves <= 0 ==> {
            let (b, (ev, lost)) = spec_handle_faz(bear, env, dt_ms, rolls);
            &&& ev == BearEvent::Left
            &&& !b.bear_here
            &&& b.bear_until_comes == rolls.comes_in
        },
        spec_handle_faz(bear, env, dt_ms, rolls).1.1 ==> {
            &&& bear.initial_delay > BEAR_INITIAL_DELAY && bear.bear_here
            &&& if bear.right { env.right_door_open } else { env.left_door_open }
            &&& spec_handle_faz(bear, env, dt_ms, rolls).0.bear_until_kills >= BEAR_KILL_DELAY
        },
        bear.initial_delay > BEAR_INITIAL_DELAY && bear.bear_here && bear.bear_until_leaves > 0
            && (if bear.right { env.right_door_open } else { env.left_door_open })
            && bear.bear_until_kills + dt_ms >= BEAR_KILL_DELAY ==> spec_handle_faz(bear, env, dt_ms, rolls).1.1,
{
}

/// The battery never charges: each frame drains it by a nonnegative amount,
/// nothing at all with both doors open and both lights off, and most with
/// both doors closed and both lights on.
pub proof fn lemma_battery_drains(env: EnvironmentData, dt_ms: u32)
    ensures
        spec_discharge(env, dt_ms as int) >= 0,
        spec_discharge(env, dt_ms as int) <= 3300 * (dt_ms as int),
        env.left_door_open && env.right_door_open && !env.left_light_on && !env.right_light_on ==> spec_discharge(env, dt_ms as int) == 0,
        !env.left_door_open && !env.right_door_open && env.left_light_on && env.right_light_on ==> spec_discharge(env, dt_ms as int) == 3300 * (dt_ms as int),
{
    let rate = (if env.left_door_open { 0int } else { DOOR_DISCHARGE as int }) + (if env.right_door_open { 0int } else { DOOR_DISCHARGE as int })
        + (if env.left_light_on { WINDOW_DISCHARGE as int } else { 0int }) + (if env.right_light_on { WINDOW_DISCHARGE as int } else { 0int });
    assert(0 <= rate <= 3300);
    assert(rate * (dt_ms as int) >= 0 && rate * (dt_ms as int) <= 3300 * (dt_ms as int)) by (nonlinear_arith)
        requires
            0 <= rate <= 3300,
            dt_ms >= 0,
    ;
}

/// The phone message at the start of the night: how long the night has
/// run, in milliseconds, and whether the message already played.
#[derive(Clone, Copy, PartialEq, Eq, Debug, Structural)]
pub struct MemTimer {
    pub timer: u64,
    pub disable: bool,
}

/// A frame of `dt_ms` milliseconds of the phone message: it plays once,
/// within the first five seconds of the night. Returns whether it starts
/// now.
pub fn play_mem(m: &mut MemTimer, dt_ms: u32) -> (play: bool)
    ensures
        ({
            let t = if old(m).timer + dt_ms > u64::MAX { u64::MAX as int } else { old(m).timer + dt_ms };
            &&& play == (t < 5000 && !old(m).disable)
            &&& *final(m) == (MemTimer { timer: t as u64, disable: old(m).disable || play })
        }),
{
    m.timer = m.timer.saturating_add(dt_ms as u64);
    if m.timer < 5000 && !m.disable {
        m.disable = true;
        true
    } else {
        false
    }
}

} // verus!
