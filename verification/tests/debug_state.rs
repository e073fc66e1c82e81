use terrain_preprocess::debug::{adjust_grid_size, camera_frame, switch_controller, toggle_debug, CameraKeys, DebugKey, DebugTerrain};

#[test]
fn debug_defaults() {
    let d = DebugTerrain::default();
    assert!(!d.wireframe && !d.show_data_lod && !d.freeze && !d.test1);
    assert!(d.morph && d.blend && d.lighting && d.sample_grad && d.high_precision);
}

#[test]
fn toggles_flip_pressed_switches_and_report_them_in_key_order() {
    let mut d = DebugTerrain::default();
    let messages = toggle_debug(&[DebugKey::KeyF, DebugKey::F1, DebugKey::KeyO], &mut d);
    assert!(d.wireframe);
    assert!(!d.morph);
    assert!(d.freeze);
    assert!(!d.show_uv);
    assert_eq!(
        messages,
        vec![
            "Toggled the wireframe view on.".to_string(),
            "Morphing: off.".to_string(),
            "Froze the view frustum.".to_string(),
        ]
    );
    let messages = toggle_debug(&[DebugKey::KeyF, DebugKey::KeyF, DebugKey::Digit3], &mut d);
    assert!(!d.freeze);
    assert!(d.test3);
    assert_eq!(messages, vec!["Unfroze the view frustum.".to_string(), "Debug flag 3: on.".to_string()]);
    assert!(toggle_debug(&[], &mut d).is_empty());
}

#[test]
fn single_toggle() {
    let mut d = DebugTerrain::default();
    assert_eq!(d.toggle(DebugKey::Backslash), "Texture sampling using gradients: off.");
    assert!(!d.sample_grad);
    assert_eq!(d.toggle(DebugKey::Semicolon), "Toggled high precision coordinates off.");
    assert_eq!(d.toggle(DebugKey::F2), "Toggled the terrain data LOD view on.");
    assert!(d.flag(DebugKey::F2));
}

#[test]
fn camera_keys() {
    let keys = CameraKeys {
        left: true,
        right: false,
        up: true,
        down: true,
        forward: true,
        backward: false,
        slow_down: false,
        speed_up: true,
    };
    assert_eq!(keys.translation_direction(), (-1, 0, -1));
    assert_eq!(keys.acceleration(), 1);
    let (s, m) = switch_controller(false);
    assert!(s.enabled && s.cursor_confined && !s.cursor_visible);
    assert_eq!(m, "Controller, \"Enabled\"");
    let (s, m) = switch_controller(true);
    assert!(!s.enabled && !s.cursor_confined && s.cursor_visible);
    assert_eq!(m, "Controller, \"Disabled\"");
}

#[test]
fn grid_size_steps_by_two() {
    assert_eq!(adjust_grid_size(8, true, false), 6);
    assert_eq!(adjust_grid_size(2, true, false), 2);
    assert_eq!(adjust_grid_size(2, false, true), 4);
    assert_eq!(adjust_grid_size(8, true, true), 8);
}

#[test]
fn toggling_twice_restores_the_switches() {
    let start = DebugTerrain::default();
    let mut d = start;
    d.toggle(DebugKey::KeyP);
    d.toggle(DebugKey::KeyP);
    assert_eq!(d, start);
    toggle_debug(&[DebugKey::F1, DebugKey::Digit2], &mut d);
    toggle_debug(&[DebugKey::Digit2, DebugKey::F1], &mut d);
    assert_eq!(d, start);
}

#[test]
fn camera_frame_escape_asks_to_exit() {
    let f = camera_frame(true, false, true);
    assert!(f.exit && f.enabled && f.moves);
    let f = camera_frame(false, false, true);
    assert!(f.exit && !f.enabled && !f.moves);
    assert!(!camera_frame(true, false, false).exit);
}

#[test]
fn camera_frame_disabled_controller_does_not_move() {
    let f = camera_frame(false, false, false);
    assert!(!f.enabled && !f.moves && !f.exit);
}

#[test]
fn camera_frame_z_switches_the_controller() {
    let f = camera_frame(false, true, false);
    assert!(f.enabled && f.moves);
    let f = camera_frame(true, true, false);
    assert!(!f.enabled && !f.moves);
}
