use std::sync::Arc;

use novadraw::color_hex::{hex_is_readable, hex_pair, hex_rgba, HexRgba};
use novadraw::demo::{get_digit_index, key_action, AppKey, DemoAction, SceneSelector};
use novadraw::editor::{FillRole, InteractiveState, StrokeRole};
use novadraw::graphics_state::GraphicsStateStack;
use novadraw::render_style::{FillRule, LineCap, LineJoin};
use novadraw::window_proxy::WinitWindowProxy;
use novadraw::editor::{editor_key_action, editor_key_event, scene_for_digit, EditorAction, KeyStep, SceneType};
use novadraw::editor::{MouseButton, PlatformButton, PointerEventType};
use novadraw::interaction::{plan_interaction, InteractionStep, PointerAction};
use novadraw::update_schedule::{should_schedule_update, UpdateSchedule};


fn unit(channel: u8) -> f64 {
    channel as f64 / 255.0
}

#[test]
fn test_hex_6_digits() {
    let red = hex_rgba("#ff0000".as_bytes());
    assert!((unit(red.r) - 1.0).abs() < 1e-10);
    assert!((unit(red.g) - 0.0).abs() < 1e-10);
    assert!((unit(red.b) - 0.0).abs() < 1e-10);
    assert!((unit(red.a) - 1.0).abs() < 1e-10);
}

#[test]
fn test_hex_8_digits() {
    let red_half = hex_rgba("#ff000080".as_bytes());
    assert!((unit(red_half.r) - 1.0).abs() < 1e-10);
    assert!((unit(red_half.a) - 128.0 / 255.0).abs() < 1e-10);
}

#[test]
fn hex_edge_cases() {
    assert_eq!(hex_rgba("3498db".as_bytes()), HexRgba { r: 0x34, g: 0x98, b: 0xdb, a: 255 });
    assert_eq!(hex_rgba("##AbCdEf".as_bytes()), HexRgba { r: 0xab, g: 0xcd, b: 0xef, a: 255 });
    assert_eq!(hex_rgba("#zz+ff0".as_bytes()), HexRgba { r: 0, g: 0x0f, b: 0xf0, a: 255 });
    assert_eq!(hex_rgba("#1234567".as_bytes()), HexRgba { r: 0x12, g: 0x34, b: 0x56, a: 255 });
    assert_eq!(hex_rgba("#112233zz".as_bytes()), HexRgba { r: 0x11, g: 0x22, b: 0x33, a: 255 });
    assert_eq!(hex_pair(b'-', b'1'), None);
    assert_eq!(hex_pair(b'+', b'a'), Some(10));
    assert!(!hex_is_readable("#fff".as_bytes()));
    assert!(hex_is_readable("#ffffff".as_bytes()));
    assert!(hex_is_readable("é0000".as_bytes()));
    assert_eq!(hex_rgba("é0000".as_bytes()), HexRgba { r: 0, g: 0, b: 0, a: 255 });
    assert!(!hex_is_readable("0é000".as_bytes()));
}

#[test]
fn hex_pairs_agree_with_std() {
    for a in 0u8..=255 {
        for b in [b'0', b'7', b'a', b'F', b'g', b'+', b'-', b' '] {
            let bytes = [a, b];
            let ours = hex_pair(a, b);
            let theirs = std::str::from_utf8(&bytes).ok().and_then(|s| u8::from_str_radix(s, 16).ok());
            if a < 128 {
                assert_eq!(ours, theirs, "pair {:?}", bytes);
            } else {
                assert_eq!(ours, None);
            }
        }
    }
}

#[test]
fn style_defaults() {
    assert_eq!(LineCap::default(), LineCap::Butt);
    assert_eq!(LineJoin::default(), LineJoin::Miter);
    assert_eq!(FillRule::default(), FillRule::NonZero);
}

#[test]
fn state_stack_push_restore_pop() {
    let mut g = GraphicsStateStack::new((1.0f64, 0usize));
    g.set_current((2.0, 1));
    g.push_state();
    g.set_current((7.0, 2));
    assert_eq!(*g.current(), (7.0, 2));
    g.restore_state();
    assert_eq!(*g.current(), (2.0, 1));
    assert_eq!(g.depth(), 1);
    g.set_current((9.0, 3));
    g.pop_state();
    assert_eq!(*g.current(), (2.0, 1));
    assert_eq!(g.depth(), 0);
    g.pop_state();
    g.restore_state();
    assert_eq!(*g.current(), (2.0, 1));
    assert_eq!(g.last_saved(), None);
}

#[test]
fn interactive_state_click_and_exit() {
    let mut s = InteractiveState::new();
    assert_eq!(s.fill_role(), FillRole::Normal);
    s.on_mouse_entered();
    assert_eq!(s.fill_role(), FillRole::Hover);
    s.on_mouse_pressed();
    assert_eq!(s.fill_role(), FillRole::Pressed);
    s.on_mouse_released();
    assert!(s.selected);
    assert_eq!(s.stroke_role(), StrokeRole::Selected);
    s.on_mouse_pressed();
    s.on_mouse_exited();
    assert_eq!(s.fill_role(), FillRole::Normal);
    assert!(s.selected);
    s.on_mouse_released();
    assert!(!s.selected);
}

#[test]
fn digit_keys_and_actions() {
    assert_eq!(get_digit_index(&AppKey::Digit0), Some(0));
    assert_eq!(get_digit_index(&AppKey::Digit9), Some(9));
    assert_eq!(get_digit_index(&AppKey::KeyI), None);
    assert_eq!(key_action(&AppKey::Escape), DemoAction::Exit);
    assert_eq!(key_action(&AppKey::KeyI), DemoAction::ToggleRenderMode);
    assert_eq!(key_action(&AppKey::Digit3), DemoAction::SwitchScene(3));
    assert_eq!(key_action(&AppKey::Other), DemoAction::Ignore);
}

#[test]
fn scene_selector_switches_within_range() {
    let mut s = SceneSelector::new(vec!["a", "b"]);
    assert_eq!(s.scene_count(), 2);
    assert_eq!(s.current_scene_name(), Some("a"));
    assert!(s.switch_scene(1));
    assert_eq!(s.current_scene_name(), Some("b"));
    assert!(!s.switch_scene(5));
    assert_eq!(s.current_scene_name(), Some("b"));
    assert!(!s.use_iterative_render());
    s.toggle_render_mode();
    assert!(s.use_iterative_render());
    let empty = SceneSelector::new(Vec::new());
    assert_eq!(empty.current_scene_name(), None);
}

#[test]
fn window_proxy_shares_the_window() {
    let w = Arc::new(String::from("window"));
    let p = WinitWindowProxy::new(Arc::clone(&w));
    assert!(Arc::ptr_eq(p.window(), &w));
    let c = p.clone_window();
    assert!(Arc::ptr_eq(&c, &w));
    assert_eq!(Arc::strong_count(&w), 3);
}

#[test]
fn editor_keys_pick_scenes_and_probes() {
    assert_eq!(editor_key_action(&AppKey::Digit0, SceneType::Nested), EditorAction::SwitchScene(SceneType::BasicAnchors));
    assert_eq!(editor_key_action(&AppKey::Digit9, SceneType::Nested), EditorAction::SwitchScene(SceneType::DpiTest));
    assert_eq!(editor_key_action(&AppKey::KeyT, SceneType::BoundsTranslate), EditorAction::TranslateContents);
    assert_eq!(editor_key_action(&AppKey::KeyT, SceneType::ZOrder), EditorAction::Ignore);
    assert_eq!(editor_key_action(&AppKey::KeyH, SceneType::ZOrder), EditorAction::HoverProbe);
    assert_eq!(editor_key_action(&AppKey::KeyM, SceneType::ZOrder), EditorAction::MoveProbe);
    assert_eq!(editor_key_action(&AppKey::KeyC, SceneType::ZOrder), EditorAction::ClickProbe);
    assert_eq!(editor_key_action(&AppKey::Escape, SceneType::ZOrder), EditorAction::Exit);
    assert_eq!(editor_key_action(&AppKey::KeyI, SceneType::ZOrder), EditorAction::ToggleRenderMode);
    assert_eq!(editor_key_action(&AppKey::Other, SceneType::ZOrder), EditorAction::Ignore);
    assert_eq!(scene_for_digit(6), Some(SceneType::ClipTest));
    assert_eq!(scene_for_digit(10), None);
    assert_eq!(key_action(&AppKey::KeyT), DemoAction::Ignore);
}

#[test]
fn mouse_buttons_map_to_platform_events() {
    assert_eq!(MouseButton::Middle.platform_button(), PlatformButton::Center);
    assert_eq!(MouseButton::Left.press_event(), PointerEventType::LeftMouseDown);
    assert_eq!(MouseButton::Right.release_event(), PointerEventType::RightMouseUp);
    assert_eq!(MouseButton::Middle.press_event(), PointerEventType::OtherMouseDown);
}

#[test]
fn interaction_scripts_expand_to_actions() {
    let steps: Vec<InteractionStep<(i32, i32), u8>> = vec![
        InteractionStep::Move((1, 2)),
        InteractionStep::Hover { input: (3, 4), duration_ms: 50 },
        InteractionStep::Click { input: (5, 6), button: 0 },
        InteractionStep::Wait { duration_ms: 7 },
        InteractionStep::Press { input: (8, 9), button: 1 },
        InteractionStep::Release { input: (8, 9), button: 1 },
    ];
    let plan = plan_interaction(&steps);
    assert_eq!(
        plan,
        vec![
            PointerAction::Move((1, 2)),
            PointerAction::Move((3, 4)),
            PointerAction::Sleep(50),
            PointerAction::Press((5, 6), 0),
            PointerAction::Release((5, 6), 0),
            PointerAction::Sleep(7),
            PointerAction::Press((8, 9), 1),
            PointerAction::Release((8, 9), 1),
        ]
    );
    let traced = plan.iter().filter(|a| !matches!(a, PointerAction::Sleep(_))).count();
    assert_eq!(traced, 6);
    assert!(plan_interaction::<(i32, i32), u8>(&[]).is_empty());
}

#[test]
fn update_requests_are_merged() {
    let mut s = UpdateSchedule::new();
    assert!(!s.is_update_queued());
    assert!(!s.should_run_update(false));
    assert!(s.should_run_update(true));
    assert!(s.request_update());
    assert!(!s.request_update());
    assert!(s.is_update_queued());
    assert!(s.should_run_update(false));
    assert!(!s.finish_update(false));
    assert!(!s.is_update_queued());
    assert!(s.finish_update(true));
    assert!(!s.request_update());
    assert!(should_schedule_update(false, true));
    assert!(!should_schedule_update(true, true));
    assert!(!should_schedule_update(false, false));
}

#[test]
fn editor_key_events_switch_redraw_and_ignore_releases() {
    let digits = [
        AppKey::Digit0, AppKey::Digit1, AppKey::Digit2, AppKey::Digit3, AppKey::Digit4,
        AppKey::Digit5, AppKey::Digit6, AppKey::Digit7, AppKey::Digit8, AppKey::Digit9,
    ];
    let scenes = [
        SceneType::BasicAnchors, SceneType::Nested, SceneType::NestedWithRoot, SceneType::ZOrder,
        SceneType::Visibility, SceneType::BoundsTranslate, SceneType::ClipTest,
        SceneType::EllipseTest, SceneType::LineTest, SceneType::DpiTest,
    ];
    for n in 0..10 {
        let step = editor_key_event(&digits[n], true, true, false, SceneType::ZOrder);
        assert_eq!(step, KeyStep { action: EditorAction::SwitchScene(scenes[n]), redraw: true, scene: scenes[n] });
        let released = editor_key_event(&digits[n], false, true, false, SceneType::ZOrder);
        assert_eq!(released, KeyStep { action: EditorAction::Ignore, redraw: false, scene: SceneType::ZOrder });
        let no_system = editor_key_event(&digits[n], true, false, false, SceneType::ZOrder);
        assert_eq!(no_system, KeyStep { action: EditorAction::Ignore, redraw: false, scene: SceneType::ZOrder });
    }
    let esc = editor_key_event(&AppKey::Escape, true, false, false, SceneType::Nested);
    assert_eq!(esc, KeyStep { action: EditorAction::Exit, redraw: false, scene: SceneType::Nested });
    let esc_up = editor_key_event(&AppKey::Escape, false, true, false, SceneType::Nested);
    assert_eq!(esc_up.action, EditorAction::Ignore);
    let t = editor_key_event(&AppKey::KeyT, true, true, true, SceneType::BoundsTranslate);
    assert_eq!(t, KeyStep { action: EditorAction::TranslateContents, redraw: true, scene: SceneType::BoundsTranslate });
    let t_empty = editor_key_event(&AppKey::KeyT, true, true, false, SceneType::BoundsTranslate);
    assert_eq!(t_empty.action, EditorAction::Ignore);
    assert!(!t_empty.redraw);
    let i = editor_key_event(&AppKey::KeyI, true, true, false, SceneType::Nested);
    assert_eq!(i, KeyStep { action: EditorAction::ToggleRenderMode, redraw: true, scene: SceneType::Nested });
    let h = editor_key_event(&AppKey::KeyH, true, true, false, SceneType::Nested);
    assert_eq!(h, KeyStep { action: EditorAction::HoverProbe, redraw: false, scene: SceneType::Nested });
    let other = editor_key_event(&AppKey::Other, true, true, false, SceneType::Nested);
    assert_eq!(other.action, EditorAction::Ignore);
}
