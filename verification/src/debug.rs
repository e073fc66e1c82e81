//! Debug view state: flags toggled by single key presses, the free camera's key input,
//! and the grid size of the terrain view.
use vstd::prelude::*;

verus! {

/// The debug switches of the terrain renderer.
#[derive(Debug, Clone, Copy, PartialEq, Eq, Structural)]
pub struct DebugTerrain {
    pub wireframe: bool,
    pub show_data_lod: bool,
    pub show_geometry_lod: bool,
    pub show_tile_tree: bool,
    pub show_pixels: bool,
    pub show_uv: bool,
    pub show_normals: bool,
    pub morph: bool,
    pub blend: bool,
    pub tile_tree_lod: bool,
    pub lighting: bool,
    pub sample_grad: bool,
    pub high_precision: bool,
    pub freeze: bool,
    pub test1: bool,
    pub test2: bool,
    pub test3: bool,
}

impl Default for DebugTerrain {
    fn default() -> (r: Self)
        ensures
            r == (DebugTerrain {
                wireframe: false,
                show_data_lod: false,
                show_geometry_lod: false,
                show_tile_tree: false,
                show_pixels: false,
                show_uv: false,
                show_normals: false,
                morph: true,
                blend: true,
                tile_tree_lod: false,
                lighting: true,
                sample_grad: true,
                high_precision: true,
                freeze: false,
                test1: false,
                test2: false,
                test3: false,
            }),
    {
        DebugTerrain {
            wireframe: false,
            show_data_lod: false,
            show_geometry_lod: false,
            show_tile_tree: false,
            show_pixels: false,
            show_uv: false,
            show_normals: false,
            morph: true,
            blend: true,
            tile_tree_lod: false,
            lighting: true,
            sample_grad: true,
            high_precision: true,
            freeze: false,
            test1: false,
            test2: false,
            test3: false,
        }
    }
}

/// The keys that toggle a debug switch.
#[derive(Debug, Clone, Copy, PartialEq, Eq, Structural)]
pub enum DebugKey {
    F1,
    F2,
    KeyR,
    KeyT,
    KeyY,
    KeyU,
    KeyI,
    KeyO,
    KeyP,
    BracketLeft,
    BracketRight,
    Backslash,
    Semicolon,
    KeyF,
    Digit1,
    Digit2,
    Digit3,
}

/// The keys in the order in which their switches are examined.
pub open spec fn debug_keys() -> Seq<DebugKey> {
    seq![
        DebugKey::F1,
        DebugKey::F2,
        DebugKey::KeyR,
        DebugKey::KeyT,
        DebugKey::KeyY,
        DebugKey::KeyU,
        DebugKey::KeyI,
        DebugKey::KeyO,
        DebugKey::KeyP,
        DebugKey::BracketLeft,
        DebugKey::BracketRight,
        DebugKey::Backslash,
        DebugKey::Semicolon,
        DebugKey::KeyF,
        DebugKey::Digit1,
        DebugKey::Digit2,
        DebugKey::Digit3,
    ]
}

fn key_at(i: usize) -> (r: DebugKey)
    requires
        i < 17,
    ensures
        r == debug_keys()[i as int],
{
    match i {
        0 => DebugKey::F1,
        1 => DebugKey::F2,
        2 => DebugKey::KeyR,
        3 => DebugKey::KeyT,
        4 => DebugKey::KeyY,
        5 => DebugKey::KeyU,
        6 => DebugKey::KeyI,
        7 => DebugKey::KeyO,
        8 => DebugKey::KeyP,
        9 => DebugKey::BracketLeft,
        10 => DebugKey::BracketRight,
        11 => DebugKey::Backslash,
        12 => DebugKey::Semicolon,
        13 => DebugKey::KeyF,
        14 => DebugKey::Digit1,
        15 => DebugKey::Digit2,
        _ => DebugKey::Digit3,
    }
}

/// The switch that `key` toggles.
#[verifier::opaque]
pub open spec fn debug_flag(d: DebugTerrain, key: DebugKey) -> bool {
    match key {
        DebugKey::F1 => d.wireframe,
        DebugKey::F2 => d.show_data_lod,
        DebugKey::KeyR => d.show_geometry_lod,
        DebugKey::KeyT => d.show_tile_tree,
        DebugKey::KeyY => d.show_pixels,
        DebugKey::KeyU => d.show_uv,
        DebugKey::KeyI => d.show_normals,
        DebugKey::KeyO => d.morph,
        DebugKey::KeyP => d.blend,
        DebugKey::BracketLeft => d.tile_tree_lod,
        DebugKey::BracketRight => d.lighting,
        DebugKey::Backslash => d.sample_grad,
        DebugKey::Semicolon => d.high_precision,
        DebugKey::KeyF => d.freeze,
        DebugKey::Digit1 => d.test1,
        DebugKey::Digit2 => d.test2,
        DebugKey::Digit3 => d.test3,
    }
}

/// `d` with the switch of `key` set to `value`.
#[verifier::opaque]
pub open spec fn with_debug_flag(d: DebugTerrain, key: DebugKey, value: bool) -> DebugTerrain {
    match key {
        DebugKey::F1 => DebugTerrain { wireframe: value, ..d },
        DebugKey::F2 => DebugTerrain { show_data_lod: value, ..d },
        DebugKey::KeyR => DebugTerrain { show_geometry_lod: value, ..d },
        DebugKey::KeyT => DebugTerrain { show_tile_tree: value, ..d },
        DebugKey::KeyY => DebugTerrain { show_pixels: value, ..d },
        DebugKey::KeyU => DebugTerrain { show_uv: value, ..d },
        DebugKey::KeyI => DebugTerrain { show_normals: value, ..d },
        DebugKey::KeyO => DebugTerrain { morph: value, ..d },
        DebugKey::KeyP => DebugTerrain { blend: value, ..d },
        DebugKey::BracketLeft => DebugTerrain { tile_tree_lod: value, ..d },
        DebugKey::BracketRight => DebugTerrain { lighting: value, ..d },
        DebugKey::Backslash => DebugTerrain { sample_grad: value, ..d },
        DebugKey::Semicolon => DebugTerrain { high_precision: value, ..d },
        DebugKey::KeyF => DebugTerrain { freeze: value, ..d },
        DebugKey::Digit1 => DebugTerrain { test1: value, ..d },
        DebugKey::Digit2 => DebugTerrain { test2: value, ..d },
        DebugKey::Digit3 => DebugTerrain { test3: value, ..d },
    }
}

/// `"on"` or `"off"`.
pub open spec fn on_off(value: bool) -> Seq<char> {
    if value {
        "on"@
    } else {
        "off"@
    }
}

/// The message logged when the switch of `key` is set to `value`.
#[verifier::opaque]
pub open spec fn toggle_message(key: DebugKey, value: bool) -> Seq<char> {
    match key {
        DebugKey::F1 => "Toggled the wireframe view "@ + on_off(value) + "."@,
        DebugKey::F2 => "Toggled the terrain data LOD view "@ + on_off(value) + "."@,
        DebugKey::KeyR => "Toggled the terrain geometry LOD view "@ + on_off(value) + "."@,
        DebugKey::KeyT => "Toggled the tile tree LOD view "@ + on_off(value) + "."@,
        DebugKey::KeyY => "Toggled the pixel view "@ + on_off(value) + "."@,
        DebugKey::KeyU => "Toggled the uv view "@ + on_off(value) + "."@,
        DebugKey::KeyI => "Toggled the normals view "@ + on_off(value) + "."@,
        DebugKey::KeyO => "Morphing: "@ + on_off(value) + "."@,
        DebugKey::KeyP => "Blending: "@ + on_off(value) + "."@,
        DebugKey::BracketLeft => "Tile tree lod: "@ + on_off(value) + "."@,
        DebugKey::BracketRight => "Lighting: "@ + on_off(value) + "."@,
        DebugKey::Backslash => "Texture sampling using gradients: "@ + on_off(value) + "."@,
        DebugKey::Semicolon => "Toggled high precision coordinates "@ + on_off(value) + "."@,
        DebugKey::KeyF => (if value {
            "Froze"@
        } else {
            "Unfroze"@
        }) + " the view frustum."@,
        DebugKey::Digit1 => "Debug flag 1: "@ + on_off(value) + "."@,
        DebugKey::Digit2 => "Debug flag 2: "@ + on_off(value) + "."@,
        DebugKey::Digit3 => "Debug flag 3: "@ + on_off(value) + "."@,
    }
}

fn on_off_str(value: bool) -> (r: &'static str)
    ensures
        r@ == on_off(value),
{
    if value {
        "on"
    } else {
        "off"
    }
}

fn message_for(key: DebugKey, value: bool) -> (r: String)
    ensures
        r@ == toggle_message(key, value),
{
    reveal(toggle_message);
    if key == DebugKey::KeyF {
        let mut m = String::from_str(if value {
            "Froze"
        } else {
            "Unfroze"
        });
        m.append(" the view frustum.");
        return m;
    }
    let prefix = match key {
        DebugKey::F1 => "Toggled the wireframe view ",
        DebugKey::F2 => "Toggled the terrain data LOD view ",
        DebugKey::KeyR => "Toggled the terrain geometry LOD view ",
        DebugKey::KeyT => "Toggled the tile tree LOD view ",
        DebugKey::KeyY => "Toggled the pixel view ",
        DebugKey::KeyU => "Toggled the uv view ",
        DebugKey::KeyI => "Toggled the normals view ",
        DebugKey::KeyO => "Morphing: ",
        DebugKey::KeyP => "Blending: ",
        DebugKey::BracketLeft => "Tile tree lod: ",
        DebugKey::BracketRight => "Lighting: ",
        DebugKey::Backslash => "Texture sampling using gradients: ",
        DebugKey::Semicolon => "Toggled high precision coordinates ",
        DebugKey::KeyF => "",
        DebugKey::Digit1 => "Debug flag 1: ",
        DebugKey::Digit2 => "Debug flag 2: ",
        DebugKey::Digit3 => "Debug flag 3: ",
    };
    let mut m = String::from_str(prefix);
    m.append(on_off_str(value));
    m.append(".");
    m
}

impl DebugTerrain {
    pub fn flag(&self, key: DebugKey) -> (r: bool)
        ensures
            r == debug_flag(*self, key),
    {
        reveal(debug_flag);
        match key {
            DebugKey::F1 => self.wireframe,
            DebugKey::F2 => self.show_data_lod,
            DebugKey::KeyR => self.show_geometry_lod,
            DebugKey::KeyT => self.show_tile_tree,
            DebugKey::KeyY => self.show_pixels,
            DebugKey::KeyU => self.show_uv,
            DebugKey::KeyI => self.show_normals,
            DebugKey::KeyO => self.morph,
            DebugKey::KeyP => self.blend,
            DebugKey::BracketLeft => self.tile_tree_lod,
            DebugKey::BracketRight => self.lighting,
            DebugKey::Backslash => self.sample_grad,
            DebugKey::Semicolon => self.high_precision,
            DebugKey::KeyF => self.freeze,
            DebugKey::Digit1 => self.test1,
            DebugKey::Digit2 => self.test2,
            DebugKey::Digit3 => self.test3,
        }
    }

    /// A copy with the switch of `key` set to `value`.
    pub fn with_flag(&self, key: DebugKey, value: bool) -> (r: Self)
        ensures
            r == with_debug_flag(*self, key, value),
    {
        reveal(with_debug_flag);
        match key {
            DebugKey::F1 => DebugTerrain { wireframe: value, ..*self },
            DebugKey::F2 => DebugTerrain { show_data_lod: value, ..*self },
            DebugKey::KeyR => DebugTerrain { show_geometry_lod: value, ..*self },
            DebugKey::KeyT => DebugTerrain { show_tile_tree: value, ..*self },
            DebugKey::KeyY => DebugTerrain { show_pixels: value, ..*self },
            DebugKey::KeyU => DebugTerrain { show_uv: value, ..*self },
            DebugKey::KeyI => DebugTerrain { show_normals: value, ..*self },
            DebugKey::KeyO => DebugTerrain { morph: value, ..*self },
            DebugKey::KeyP => DebugTerrain { blend: value, ..*self },
            DebugKey::BracketLeft => DebugTerrain { tile_tree_lod: value, ..*self },
            DebugKey::BracketRight => DebugTerrain { lighting: value, ..*self },
            DebugKey::Backslash => DebugTerrain { sample_grad: value, ..*self },
            DebugKey::Semicolon => DebugTerrain { high_precision: value, ..*self },
            DebugKey::KeyF => DebugTerrain { freeze: value, ..*self },
            DebugKey::Digit1 => DebugTerrain { test1: value, ..*self },
            DebugKey::Digit2 => DebugTerrain { test2: value, ..*self },
            DebugKey::Digit3 => DebugTerrain { test3: value, ..*self },
        }
    }

    /// Flips the switch of `key` and returns the message that reports its new state.
    pub fn toggle(&mut self, key: DebugKey) -> (r: String)
        ensures
            *final(self) == with_debug_flag(*old(self), key, !debug_flag(*old(self), key)),
            r@ == toggle_message(key, !debug_flag(*old(self), key)),
    {
        let value = !self.flag(key);
        *self = self.with_flag(key, value);
        message_for(key, value)
    }
}

/// The switches after examining the first `n` keys of `debug_keys()` against `pressed`.
pub open spec fn toggled(d: DebugTerrain, pressed: Seq<DebugKey>, n: nat) -> DebugTerrain
    decreases n,
{
    if n == 0 {
        d
    } else {
        let before = toggled(d, pressed, (n - 1) as nat);
        let key = debug_keys()[n - 1];
        if pressed.contains(key) {
            with_debug_flag(before, key, !debug_flag(before, key))
        } else {
            before
        }
    }
}

/// The messages logged while examining the first `n` keys of `debug_keys()`.
pub open spec fn toggle_messages(d: DebugTerrain, pressed: Seq<DebugKey>, n: nat) -> Seq<Seq<char>>
    decreases n,
{
    if n == 0 {
        Seq::empty()
    } else {
        let before = toggled(d, pressed, (n - 1) as nat);
        let key = debug_keys()[n - 1];
        if pressed.contains(key) {
            toggle_messages(d, pressed, (n - 1) as nat).push(
                toggle_message(key, !debug_flag(before, key)),
            )
        } else {
            toggle_messages(d, pressed, (n - 1) as nat)
        }
    }
}

fn contains_key(keys: &[DebugKey], key: DebugKey) -> (r: bool)
    ensures
        r == keys@.contains(key),
{
    let mut i: usize = 0;
    while i < keys.len()
        invariant
            i <= keys@.len(),
            forall|j: int| 0 <= j < i ==> keys@[j] != key,
        decreases keys@.len() - i,
    {
        if keys[i] == key {
            assert(keys@[i as int] == key);
            return true;
        }
        i = i + 1;
    }
    false
}

/// Flips the switch of every key in `just_pressed`, examining the keys in the order of
/// `debug_keys()`, and returns the messages that report the new states, in that order.
#[verifier::rlimit(40)]
pub fn toggle_debug(just_pressed: &[DebugKey], debug_terrain: &mut DebugTerrain) -> (r: Vec<String>)
    ensures
        *final(debug_terrain) == toggled(*old(debug_terrain), just_pressed@, 17),
        r@.map_values(|s: String| s@) == toggle_messages(*old(debug_terrain), just_pressed@, 17),
{
    let mut messages: Vec<String> = Vec::new();
    let mut i: usize = 0;
    while i < 17
        invariant
            i <= 17,
            *debug_terrain == toggled(*old(debug_terrain), just_pressed@, i as nat),
            messages@.map_values(|s: String| s@) == toggle_messages(
                *old(debug_terrain),
                just_pressed@,
                i as nat,
            ),
        decreases 17 - i,
    {
        let key = key_at(i);
        if contains_key(just_pressed, key) {
            let m = debug_terrain.toggle(key);
            let ghost before = messages@;
            messages.push(m);
            assert(messages@.map_values(|s: String| s@) =~= before.map_values(|s: String| s@).push(
                m@,
            ));
        }
        i = i + 1;
    }
    messages
}

/// Which movement keys of the free camera are held.
#[derive(Debug, Clone, Copy, PartialEq, Eq, Structural)]
pub struct CameraKeys {
    /// Arrow left or A.
    pub left: bool,
    /// Arrow right or D.
    pub right: bool,
    /// Page up or E.
    pub up: bool,
    /// Page down or Q.
    pub down: bool,
    /// Arrow up or W.
    pub forward: bool,
    /// Arrow down or S.
    pub backward: bool,
    /// Home.
    pub slow_down: bool,
    /// End.
    pub speed_up: bool,
}

/// `1` when `b` holds, else `0`.
pub open spec fn unit(b: bool) -> int {
    if b {
        1
    } else {
        0
    }
}

fn unit_i8(b: bool) -> (r: i8)
    ensures
        r == unit(b),
{
    if b {
        1
    } else {
        0
    }
}

impl CameraKeys {
    /// The direction of travel in camera space: x to the right, y up, z backwards.
    pub fn translation_direction(&self) -> (r: (i8, i8, i8))
        ensures
            r.0 == unit(self.right) - unit(self.left),
            r.1 == unit(self.up) - unit(self.down),
            r.2 == unit(self.backward) - unit(self.forward),
    {
        (
            unit_i8(self.right) - unit_i8(self.left),
            unit_i8(self.up) - unit_i8(self.down),
            unit_i8(self.backward) - unit_i8(self.forward),
        )
    }

    /// The direction in which the travel speed changes.
    pub fn acceleration(&self) -> (r: i8)
        ensures
            r == unit(self.speed_up) - unit(self.slow_down),
    {
        unit_i8(self.speed_up) - unit_i8(self.slow_down)
    }
}

/// The state of the cursor and free camera after the controller is switched.
#[derive(Debug, Clone, Copy, PartialEq, Eq, Structural)]
pub struct ControllerSwitch {
    pub enabled: bool,
    /// The cursor is confined to the window while the controller is enabled.
    pub cursor_confined: bool,
    pub cursor_visible: bool,
}

/// Switches the free camera controller on or off.
pub fn switch_controller(enabled: bool) -> (r: (ControllerSwitch, String))
    ensures
        r.0.enabled == !enabled,
        r.0.cursor_confined == !enabled,
        r.0.cursor_visible == enabled,
        r.1@ == "Controller, "@ + (if !enabled {
            "\"Enabled\""@
        } else {
            "\"Disabled\""@
        }),
{
    let now = !enabled;
    let mut m = String::from_str("Controller, ");
    m.append(if now {
        "\"Enabled\""
    } else {
        "\"Disabled\""
    });
    (ControllerSwitch { enabled: now, cursor_confined: now, cursor_visible: !now }, m)
}

/// What one frame of the free camera controller decides from the keys just pressed.
#[derive(Debug, Clone, Copy, PartialEq, Eq, Structural)]
pub struct CameraFrame {
    /// Whether the controller is enabled after the frame; Z switches it.
    pub enabled: bool,
    /// Whether the application is asked to exit; Escape asks it.
    pub exit: bool,
    /// Whether the camera is moved and turned in this frame: only while it is enabled.
    pub moves: bool,
}

/// The decisions of one frame of the free camera controller, given whether it was enabled
/// and whether Z and Escape were just pressed.
pub fn camera_frame(enabled: bool, switch_pressed: bool, escape_pressed: bool) -> (r: CameraFrame)
    ensures
        r.enabled == (enabled != switch_pressed),
        r.exit == escape_pressed,
        r.moves == r.enabled,
{
    let now = if switch_pressed {
        switch_controller(enabled).0.enabled
    } else {
        enabled
    };
    CameraFrame { enabled: now, exit: escape_pressed, moves: now }
}

/// The grid size of a terrain view after the keys that shrink (G) and grow (H) it: it
/// shrinks by two while it is above two, and grows by two.
pub fn adjust_grid_size(grid_size: u32, shrink: bool, grow: bool) -> (r: u32)
    requires
        grow ==> grid_size + 2 <= u32::MAX,
    ensures
        r == grid_size - (if shrink && grid_size > 2 {
            2int
        } else {
            0
        }) + (if grow {
            2int
        } else {
            0
        }),
{
    let mut g = grid_size;
    if shrink && g > 2 {
        g = g - 2;
    }
    if grow {
        g = g + 2;
    }
    g
}

/// The position of `key` in `debug_keys()`.
pub open spec fn key_index(key: DebugKey) -> int {
    match key {
        DebugKey::F1 => 0,
        DebugKey::F2 => 1,
        DebugKey::KeyR => 2,
        DebugKey::KeyT => 3,
        DebugKey::KeyY => 4,
        DebugKey::KeyU => 5,
        DebugKey::KeyI => 6,
        DebugKey::KeyO => 7,
        DebugKey::KeyP => 8,
        DebugKey::BracketLeft => 9,
        DebugKey::BracketRight => 10,
        DebugKey::Backslash => 11,
        DebugKey::Semicolon => 12,
        DebugKey::KeyF => 13,
        DebugKey::Digit1 => 14,
        DebugKey::Digit2 => 15,
        DebugKey::Digit3 => 16,
    }
}

/// Each key stands in `debug_keys()` at its own position.
pub proof fn lemma_key_positions()
    ensures
        debug_keys().len() == 17,
        forall|i: int| 0 <= i < 17 ==> key_index(#[trigger] debug_keys()[i]) == i,
        forall|k: DebugKey| #[trigger] debug_keys()[key_index(k)] == k,
{
    assert(debug_keys()[0] == DebugKey::F1);
    assert(debug_keys()[1] == DebugKey::F2);
    assert(debug_keys()[2] == DebugKey::KeyR);
    assert(debug_keys()[3] == DebugKey::KeyT);
    assert(debug_keys()[4] == DebugKey::KeyY);
    assert(debug_keys()[5] == DebugKey::KeyU);
    assert(debug_keys()[6] == DebugKey::KeyI);
    assert(debug_keys()[7] == DebugKey::KeyO);
    assert(debug_keys()[8] == DebugKey::KeyP);
    assert(debug_keys()[9] == DebugKey::BracketLeft);
    assert(debug_keys()[10] == DebugKey::BracketRight);
    assert(debug_keys()[11] == DebugKey::Backslash);
    assert(debug_keys()[12] == DebugKey::Semicolon);
    assert(debug_keys()[13] == DebugKey::KeyF);
    assert(debug_keys()[14] == DebugKey::Digit1);
    assert(debug_keys()[15] == DebugKey::Digit2);
    assert(debug_keys()[16] == DebugKey::Digit3);
    assert forall|k: DebugKey| #[trigger] debug_keys()[key_index(k)] == k by {
        match k {
            DebugKey::F1 => {},
            DebugKey::F2 => {},
            DebugKey::KeyR => {},
            DebugKey::KeyT => {},
            DebugKey::KeyY => {},
            DebugKey::KeyU => {},
            DebugKey::KeyI => {},
            DebugKey::KeyO => {},
            DebugKey::KeyP => {},
            DebugKey::BracketLeft => {},
            DebugKey::BracketRight => {},
            DebugKey::Backslash => {},
            DebugKey::Semicolon => {},
            DebugKey::KeyF => {},
            DebugKey::Digit1 => {},
            DebugKey::Digit2 => {},
            DebugKey::Digit3 => {},
        }
    }
}

/// Setting one switch leaves the others as they were.
pub proof fn lemma_with_debug_flag(d: DebugTerrain, key: DebugKey, value: bool, other: DebugKey)
    ensures
        debug_flag(with_debug_flag(d, key, value), other) == (if other == key {
            value
        } else {
            debug_flag(d, other)
        }),
{
    reveal(debug_flag);
    reveal(with_debug_flag);
    match key {
        DebugKey::F1 => {},
        DebugKey::F2 => {},
        DebugKey::KeyR => {},
        DebugKey::KeyT => {},
        DebugKey::KeyY => {},
        DebugKey::KeyU => {},
        DebugKey::KeyI => {},
        DebugKey::KeyO => {},
        DebugKey::KeyP => {},
        DebugKey::BracketLeft => {},
        DebugKey::BracketRight => {},
        DebugKey::Backslash => {},
        DebugKey::Semicolon => {},
        DebugKey::KeyF => {},
        DebugKey::Digit1 => {},
        DebugKey::Digit2 => {},
        DebugKey::Digit3 => {},
    }
}

/// After the first `n` keys are examined, the switch of `key` has flipped exactly when
/// `key` is among them and was pressed.
pub proof fn lemma_toggled_prefix(d: DebugTerrain, pressed: Seq<DebugKey>, n: nat, key: DebugKey)
    requires
        n <= 17,
    ensures
        debug_flag(toggled(d, pressed, n), key) == (debug_flag(d, key) != (pressed.contains(key)
            && key_index(key) < n)),
    decreases n,
{
    lemma_key_positions();
    if n > 0 {
        lemma_toggled_prefix(d, pressed, (n - 1) as nat, key);
        let before = toggled(d, pressed, (n - 1) as nat);
        let k = debug_keys()[n - 1];
        assert(key_index(k) == n - 1);
        lemma_with_debug_flag(before, k, !debug_flag(before, k), key);
        if key == k {
        } else {
            assert(key_index(key) != n - 1);
        }
    }
}

/// Two states with the same switches are the same state.
pub proof fn lemma_flags_determine(a: DebugTerrain, b: DebugTerrain)
    requires
        forall|k: DebugKey| debug_flag(a, k) == debug_flag(b, k),
    ensures
        a == b,
{
    reveal(debug_flag);
    assert(debug_flag(a, DebugKey::F1) == debug_flag(b, DebugKey::F1));
    assert(debug_flag(a, DebugKey::F2) == debug_flag(b, DebugKey::F2));
    assert(debug_flag(a, DebugKey::KeyR) == debug_flag(b, DebugKey::KeyR));
    assert(debug_flag(a, DebugKey::KeyT) == debug_flag(b, DebugKey::KeyT));
    assert(debug_flag(a, DebugKey::KeyY) == debug_flag(b, DebugKey::KeyY));
    assert(debug_flag(a, DebugKey::KeyU) == debug_flag(b, DebugKey::KeyU));
    assert(debug_flag(a, DebugKey::KeyI) == debug_flag(b, DebugKey::KeyI));
    assert(debug_flag(a, DebugKey::KeyO) == debug_flag(b, DebugKey::KeyO));
    assert(debug_flag(a, DebugKey::KeyP) == debug_flag(b, DebugKey::KeyP));
    assert(debug_flag(a, DebugKey::BracketLeft) == debug_flag(b, DebugKey::BracketLeft));
    assert(debug_flag(a, DebugKey::BracketRight) == debug_flag(b, DebugKey::BracketRight));
    assert(debug_flag(a, DebugKey::Backslash) == debug_flag(b, DebugKey::Backslash));
    assert(debug_flag(a, DebugKey::Semicolon) == debug_flag(b, DebugKey::Semicolon));
    assert(debug_flag(a, DebugKey::KeyF) == debug_flag(b, DebugKey::KeyF));
    assert(debug_flag(a, DebugKey::Digit1) == debug_flag(b, DebugKey::Digit1));
    assert(debug_flag(a, DebugKey::Digit2) == debug_flag(b, DebugKey::Digit2));
    assert(debug_flag(a, DebugKey::Digit3) == debug_flag(b, DebugKey::Digit3));
}

} // verus!
