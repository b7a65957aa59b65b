use volleyball_sim::input::DensePlayerControl;
use volleyball_sim::input::MatchInputs;
use volleyball_sim::input::PlayerControl;
use volleyball_sim::input::PlayerInputCollector;
use volleyball_sim::input::RawControlState;
use volleyball_sim::math::Vec2;

fn raw_empty() -> RawControlState {
    RawControlState {
        left: false,
        right: false,
        up: false,
        down: false,
        jump: false,
        esc_start: false,
        enter: false,
    }
}

#[test]
fn dense_encode_scenario() {
    // jump=true, esc=false, enter=true, movement full right.
    let d = DensePlayerControl::new(Vec2 { x: 63, y: 0 }, true, false, true);
    assert_eq!(d.0, 63 | (1 << 16) | (1 << 18));
    assert!(d.jump_pressed());
    assert!(!d.esc_start_pressed());
    assert!(d.enter_pressed());
    assert!(d.move_direction().x > 0);
    assert_eq!(d.move_direction(), Vec2 { x: 63, y: 0 });
}

#[test]
fn dense_round_trip_negative_movement() {
    let d = DensePlayerControl::new(Vec2 { x: -63, y: 17 }, false, true, false);
    assert_eq!(d.move_direction(), Vec2 { x: -63, y: 17 });
    assert!(!d.jump_pressed());
    assert!(d.esc_start_pressed());
    assert!(!d.enter_pressed());
}

#[test]
fn dense_round_trip_all_quantized_x() {
    for mx in -63..=63i64 {
        let d = DensePlayerControl::new(Vec2 { x: mx, y: -mx / 2 }, mx % 2 == 0, false, true);
        let md = d.move_direction();
        assert_eq!(md.x, mx);
        assert_eq!(md.y, -mx / 2);
        assert_eq!(d.jump_pressed(), mx % 2 == 0);
        assert!(d.enter_pressed());
    }
}

#[test]
fn dense_reserved_bits_stay_zero() {
    for mx in [-63i64, -1, 0, 1, 63] {
        for flags in 0..8u32 {
            let d = DensePlayerControl::new(
                Vec2 { x: mx, y: -mx },
                flags & 1 != 0,
                flags & 2 != 0,
                flags & 4 != 0,
            );
            assert_eq!(d.0 & 0xfff8c000, 0);
        }
    }
}

#[test]
fn dense_encode_clamps_out_of_range() {
    let d = DensePlayerControl::new(Vec2 { x: 1000, y: -1000 }, false, false, false);
    assert_eq!(d.move_direction(), Vec2 { x: 63, y: -63 });
}

#[test]
fn get_dense_input_uses_quantized_axes() {
    let mut c = PlayerControl::default();
    c.left = 63;
    c.up = 40;
    c.jump_pressed = true;
    let d = c.get_dense_input();
    assert_eq!(d.move_direction(), Vec2 { x: -63, y: 40 });
    assert!(d.jump_pressed());
    assert!(!d.enter_pressed());
}

#[test]
fn update_from_dense_sets_axes_and_edges() {
    let d = DensePlayerControl::new(Vec2 { x: 63, y: 0 }, true, false, true);
    let mut c = PlayerControl::default();
    c.update_from_dense(&d);
    assert_eq!(c.right, 63);
    assert_eq!(c.left, 0);
    assert!(c.right_pressed);
    assert!(!c.left_pressed);
    assert!(c.moving);
    assert!(c.just_moved);
    assert!(c.jump_pressed);
    assert!(c.jump_just_pressed);
    assert!(!c.esc_start_pressed);
    assert!(c.enter_pressed);
    assert!(c.enter_just_pressed);

    // A second identical packet: held buttons are no longer "just pressed".
    c.update_from_dense(&d);
    assert!(c.jump_pressed);
    assert!(!c.jump_just_pressed);
    assert!(!c.enter_just_pressed);
    assert!(!c.just_moved);
}

#[test]
fn collector_edge_triggers() {
    let mut col = PlayerInputCollector::default();
    let mut raw = raw_empty();
    raw.jump = true;
    raw.right = true;
    col.apply_inputs(&raw);
    col.update_just_pressed();
    assert!(col.get_current_controls().jump_just_pressed);
    assert!(col.get_current_controls().just_moved);
    assert!(col.get_current_controls().moving);
    assert_eq!(col.get_current_controls().right, 63);
    col.advance_frame();

    // The same state held on the next frame is not an edge.
    col.apply_inputs(&raw);
    col.update_just_pressed();
    assert!(col.get_current_controls().jump_pressed);
    assert!(!col.get_current_controls().jump_just_pressed);
    assert!(!col.get_current_controls().just_moved);
}

#[test]
fn match_inputs_update_and_access() {
    let mut col = PlayerInputCollector::default();
    let mut raw = raw_empty();
    raw.left = true;
    col.apply_inputs(&raw);
    let mut inputs = MatchInputs::default();
    inputs.update_controls(&mut col);
    assert_eq!(inputs.get_control(0).left, 63);
    assert_eq!(inputs.get_control(1).left, 63);

    let mut c = PlayerControl::default();
    c.enter_pressed = true;
    inputs.set_control(1, c);
    assert!(inputs.get_control(1).enter_pressed);
    assert!(!inputs.get_control(0).enter_pressed);

    inputs.get_control_mut(0).jump_pressed = true;
    assert!(inputs.get_control(0).jump_pressed);
    assert!(!inputs.get_control(1).jump_pressed);
}
