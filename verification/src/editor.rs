//! Editor vocabulary: the demo scenes, mouse buttons, and the pointer state
//! of an interactive figure.

use vstd::prelude::*;

use crate::demo::{digit_of, get_digit_index, AppKey};

verus! {

/// The demo scenes the editor can show.
#[derive(Debug, Clone, Copy, PartialEq, Eq, Structural)]
pub enum SceneType {
    BasicAnchors,
    Nested,
    NestedWithRoot,
    ZOrder,
    Visibility,
    BoundsTranslate,
    ClipTest,
    EllipseTest,
    LineTest,
    DpiTest,
}

/// The scene that digit key `d` shows in the editor.
pub open spec fn scene_of_digit(d: usize) -> Option<SceneType> {
    if d == 0 {
        Some(SceneType::BasicAnchors)
    } else if d == 1 {
        Some(SceneType::Nested)
    } else if d == 2 {
        Some(SceneType::NestedWithRoot)
    } else if d == 3 {
        Some(SceneType::ZOrder)
    } else if d == 4 {
        Some(SceneType::Visibility)
    } else if d == 5 {
        Some(SceneType::BoundsTranslate)
    } else if d == 6 {
        Some(SceneType::ClipTest)
    } else if d == 7 {
        Some(SceneType::EllipseTest)
    } else if d == 8 {
        Some(SceneType::LineTest)
    } else if d == 9 {
        Some(SceneType::DpiTest)
    } else {
        None
    }
}

/// The scene that digit key `d` shows in the editor, for `d` from 0 to 9.
pub fn scene_for_digit(d: usize) -> (s: Option<SceneType>)
    ensures
        s == scene_of_digit(d),
{
    match d {
        0 => Some(SceneType::BasicAnchors),
        1 => Some(SceneType::Nested),
        2 => Some(SceneType::NestedWithRoot),
        3 => Some(SceneType::ZOrder),
        4 => Some(SceneType::Visibility),
        5 => Some(SceneType::BoundsTranslate),
        6 => Some(SceneType::ClipTest),
        7 => Some(SceneType::EllipseTest),
        8 => Some(SceneType::LineTest),
        9 => Some(SceneType::DpiTest),
        _ => None,
    }
}

/// What a key press asks of the editor window.
#[derive(Debug, Clone, Copy, PartialEq, Eq, Structural)]
pub enum EditorAction {
    /// Close the window.
    Exit,
    /// Show this scene.
    SwitchScene(SceneType),
    /// Move the scene's contents by 10 units right and down.
    TranslateContents,
    /// Switch between recursive and iterative rendering.
    ToggleRenderMode,
    /// Hover over the probe point for a while.
    HoverProbe,
    /// Move the pointer to the probe point.
    MoveProbe,
    /// Click the probe point.
    ClickProbe,
    /// Nothing to do.
    Ignore,
}

/// What pressing `key` asks of the editor while it shows `current`: digits
/// pick scenes, T moves the contents only in the translation scene.
pub open spec fn editor_action_of(key: AppKey, current: SceneType) -> EditorAction {
    match key {
        AppKey::Escape => EditorAction::Exit,
        AppKey::KeyI => EditorAction::ToggleRenderMode,
        AppKey::KeyT => if current == SceneType::BoundsTranslate {
            EditorAction::TranslateContents
        } else {
            EditorAction::Ignore
        },
        AppKey::KeyH => EditorAction::HoverProbe,
        AppKey::KeyM => EditorAction::MoveProbe,
        AppKey::KeyC => EditorAction::ClickProbe,
        _ => match digit_of(key) {
            Some(d) => match scene_of_digit(d) {
                Some(s) => EditorAction::SwitchScene(s),
                None => EditorAction::Ignore,
            },
            None => EditorAction::Ignore,
        },
    }
}

/// Maps a pressed key to what the editor window does.
pub fn editor_key_action(key: &AppKey, current: SceneType) -> (a: EditorAction)
    ensures
        a == editor_action_of(*key, current),
{
    match key {
        AppKey::Escape => EditorAction::Exit,
        AppKey::KeyI => EditorAction::ToggleRenderMode,
        AppKey::KeyT => {
            if current == SceneType::BoundsTranslate {
                EditorAction::TranslateContents
            } else {
                EditorAction::Ignore
            }
        },
        AppKey::KeyH => EditorAction::HoverProbe,
        AppKey::KeyM => EditorAction::MoveProbe,
        AppKey::KeyC => EditorAction::ClickProbe,
        _ => match get_digit_index(key) {
            Some(d) => match scene_for_digit(d) {
                Some(s) => EditorAction::SwitchScene(s),
                None => EditorAction::Ignore,
            },
            None => EditorAction::Ignore,
        },
    }
}

/// What one keyboard event does to the editor window: the action taken,
/// whether a redraw is requested, and the scene shown afterwards.
#[derive(Debug, Clone, Copy, PartialEq, Eq, Structural)]
pub struct KeyStep {
    pub action: EditorAction,
    pub redraw: bool,
    pub scene: SceneType,
}

/// The step for a keyboard event on `key`. Only presses count. Escape
/// closes the window in any case; every other key needs a running editor
/// system. A scene switch and a change of render mode request a redraw, a
/// translation requests one only when the scene has contents to move, and
/// the probe keys request none.
pub open spec fn key_step_of(
    key: AppKey,
    pressed: bool,
    has_system: bool,
    has_contents: bool,
    current: SceneType,
) -> KeyStep {
    let ignored = KeyStep { action: EditorAction::Ignore, redraw: false, scene: current };
    if !pressed {
        ignored
    } else {
        match editor_action_of(key, current) {
            EditorAction::Exit => KeyStep { action: EditorAction::Exit, redraw: false, scene: current },
            EditorAction::Ignore => ignored,
            a => if !has_system {
                ignored
            } else {
                match a {
                    EditorAction::SwitchScene(s) => KeyStep { action: a, redraw: true, scene: s },
                    EditorAction::ToggleRenderMode => KeyStep { action: a, redraw: true, scene: current },
                    EditorAction::TranslateContents => if has_contents {
                        KeyStep { action: a, redraw: true, scene: current }
                    } else {
                        ignored
                    },
                    _ => KeyStep { action: a, redraw: false, scene: current },
                }
            },
        }
    }
}

/// Handles one keyboard event in the editor window: `pressed` tells a press
/// from a release, `has_system` whether the editor system is running, and
/// `has_contents` whether the current scene has contents to translate.
pub fn editor_key_event(
    key: &AppKey,
    pressed: bool,
    has_system: bool,
    has_contents: bool,
    current: SceneType,
) -> (step: KeyStep)
    ensures
        step == key_step_of(*key, pressed, has_system, has_contents, current),
        !pressed ==> step == (KeyStep { action: EditorAction::Ignore, redraw: false, scene: current }),
        step.action is SwitchScene ==> step.redraw && step.scene == step.action->0,
        !(step.action is SwitchScene) ==> step.scene == current,
        step.action is Exit <==> pressed && *key == AppKey::Escape,
{
    let ignored = KeyStep { action: EditorAction::Ignore, redraw: false, scene: current };
    if !pressed {
        return ignored;
    }
    let action = editor_key_action(key, current);
    match action {
        EditorAction::Exit => KeyStep { action, redraw: false, scene: current },
        EditorAction::Ignore => ignored,
        _ => {
            if !has_system {
                ignored
            } else {
                match action {
                    EditorAction::SwitchScene(s) => KeyStep { action, redraw: true, scene: s },
                    EditorAction::ToggleRenderMode => KeyStep { action, redraw: true, scene: current },
                    EditorAction::TranslateContents => {
                        if has_contents {
                            KeyStep { action, redraw: true, scene: current }
                        } else {
                            ignored
                        }
                    },
                    _ => KeyStep { action, redraw: false, scene: current },
                }
            }
        },
    }
}

/// With the editor system running, pressing digit key `d` (0 to 9) shows
/// scene `d`, requests a redraw and does not close the window; releasing
/// the same key changes nothing and requests no redraw.
pub proof fn law_digit_press_switches_scene(key: AppKey, has_contents: bool, current: SceneType)
    requires
        digit_of(key) is Some,
    ensures
        ({
            let step = key_step_of(key, true, true, has_contents, current);
            &&& Some(step.scene) == scene_of_digit(digit_of(key)->0)
            &&& step.action == EditorAction::SwitchScene(step.scene)
            &&& step.redraw
            &&& !(step.action is Exit)
        }),
        key_step_of(key, false, true, has_contents, current) == (KeyStep {
            action: EditorAction::Ignore,
            redraw: false,
            scene: current,
        }),
{
}

/// With the editor system running, digit key n shows the n-th scene of
/// the editor (in the order the scenes are declared) and requests a redraw,
/// whatever scene is shown before.
pub proof fn law_digit_keys_pick_scenes(has_contents: bool, current: SceneType)
    ensures
        key_step_of(AppKey::Digit0, true, true, has_contents, current) == (KeyStep {
            action: EditorAction::SwitchScene(SceneType::BasicAnchors),
            redraw: true,
            scene: SceneType::BasicAnchors,
        }),
        key_step_of(AppKey::Digit1, true, true, has_contents, current) == (KeyStep {
            action: EditorAction::SwitchScene(SceneType::Nested),
            redraw: true,
            scene: SceneType::Nested,
        }),
        key_step_of(AppKey::Digit2, true, true, has_contents, current) == (KeyStep {
            action: EditorAction::SwitchScene(SceneType::NestedWithRoot),
            redraw: true,
            scene: SceneType::NestedWithRoot,
        }),
        key_step_of(AppKey::Digit3, true, true, has_contents, current) == (KeyStep {
            action: EditorAction::SwitchScene(SceneType::ZOrder),
            redraw: true,
            scene: SceneType::ZOrder,
        }),
        key_step_of(AppKey::Digit4, true, true, has_contents, current) == (KeyStep {
            action: EditorAction::SwitchScene(SceneType::Visibility),
            redraw: true,
            scene: SceneType::Visibility,
        }),
        key_step_of(AppKey::Digit5, true, true, has_contents, current) == (KeyStep {
            action: EditorAction::SwitchScene(SceneType::BoundsTranslate),
            redraw: true,
            scene: SceneType::BoundsTranslate,
        }),
        key_step_of(AppKey::Digit6, true, true, has_contents, current) == (KeyStep {
            action: EditorAction::SwitchScene(SceneType::ClipTest),
            redraw: true,
            scene: SceneType::ClipTest,
        }),
        key_step_of(AppKey::Digit7, true, true, has_contents, current) == (KeyStep {
            action: EditorAction::SwitchScene(SceneType::EllipseTest),
            redraw: true,
            scene: SceneType::EllipseTest,
        }),
        key_step_of(AppKey::Digit8, true, true, has_contents, current) == (KeyStep {
            action: EditorAction::SwitchScene(SceneType::LineTest),
            redraw: true,
            scene: SceneType::LineTest,
        }),
        key_step_of(AppKey::Digit9, true, true, has_contents, current) == (KeyStep {
            action: EditorAction::SwitchScene(SceneType::DpiTest),
            redraw: true,
            scene: SceneType::DpiTest,
        }),
{
}

/// What every other pressed key does. With the system running, H, M and C
/// run the hover, move and click probes without a redraw, I toggles the
/// render mode and redraws, and T translates the contents and redraws only
/// in the translation scene and only when there are contents. Escape closes
/// the window whether or not the system runs. Without the system, no other
/// key does anything; a released key never does anything; and a key that
/// is none of these is ignored.
pub proof fn law_key_steps(key: AppKey, pressed: bool, has_system: bool, has_contents: bool, current: SceneType)
    ensures
        key_step_of(AppKey::KeyH, true, true, has_contents, current) == (KeyStep {
            action: EditorAction::HoverProbe,
            redraw: false,
            scene: current,
        }),
        key_step_of(AppKey::KeyM, true, true, has_contents, current) == (KeyStep {
            action: EditorAction::MoveProbe,
            redraw: false,
            scene: current,
        }),
        key_step_of(AppKey::KeyC, true, true, has_contents, current) == (KeyStep {
            action: EditorAction::ClickProbe,
            redraw: false,
            scene: current,
        }),
        key_step_of(AppKey::KeyI, true, true, has_contents, current) == (KeyStep {
            action: EditorAction::ToggleRenderMode,
            redraw: true,
            scene: current,
        }),
        key_step_of(AppKey::KeyT, true, true, true, SceneType::BoundsTranslate) == (KeyStep {
            action: EditorAction::TranslateContents,
            redraw: true,
            scene: SceneType::BoundsTranslate,
        }),
        current != SceneType::BoundsTranslate || !has_contents ==> key_step_of(
            AppKey::KeyT,
            true,
            true,
            has_contents,
            current,
        ) == (KeyStep { action: EditorAction::Ignore, redraw: false, scene: current }),
        key_step_of(AppKey::Escape, true, has_system, has_contents, current) == (KeyStep {
            action: EditorAction::Exit,
            redraw: false,
            scene: current,
        }),
        key != AppKey::Escape ==> key_step_of(key, true, false, has_contents, current) == (KeyStep {
            action: EditorAction::Ignore,
            redraw: false,
            scene: current,
        }),
        key_step_of(key, false, has_system, has_contents, current) == (KeyStep {
            action: EditorAction::Ignore,
            redraw: false,
            scene: current,
        }),
        key_step_of(AppKey::Other, pressed, has_system, has_contents, current) == (KeyStep {
            action: EditorAction::Ignore,
            redraw: false,
            scene: current,
        }),
{
}

/// The ten digit keys show the ten scenes, each a different one.
pub proof fn law_digits_pick_every_scene(d: usize, e: usize, s: SceneType)
    ensures
        d <= 9 <==> scene_of_digit(d) is Some,
        d <= 9 && e <= 9 && d != e ==> scene_of_digit(d) != scene_of_digit(e),
        exists|k: usize| k <= 9 && #[trigger] scene_of_digit(k) == Some(s),
{
    match s {
        SceneType::BasicAnchors => assert(scene_of_digit(0) == Some(s)),
        SceneType::Nested => assert(scene_of_digit(1) == Some(s)),
        SceneType::NestedWithRoot => assert(scene_of_digit(2) == Some(s)),
        SceneType::ZOrder => assert(scene_of_digit(3) == Some(s)),
        SceneType::Visibility => assert(scene_of_digit(4) == Some(s)),
        SceneType::BoundsTranslate => assert(scene_of_digit(5) == Some(s)),
        SceneType::ClipTest => assert(scene_of_digit(6) == Some(s)),
        SceneType::EllipseTest => assert(scene_of_digit(7) == Some(s)),
        SceneType::LineTest => assert(scene_of_digit(8) == Some(s)),
        SceneType::DpiTest => assert(scene_of_digit(9) == Some(s)),
    }
}

/// A mouse button.
#[derive(Debug, Clone, Copy, PartialEq, Eq, Structural)]
pub enum MouseButton {
    Left,
    Right,
    Middle,
}

/// The button identifiers of the platform's event system.
#[derive(Debug, Clone, Copy, PartialEq, Eq, Structural)]
pub enum PlatformButton {
    Left,
    Right,
    Center,
}

/// The kinds of synthetic pointer events posted to the platform.
#[derive(Debug, Clone, Copy, PartialEq, Eq, Structural)]
pub enum PointerEventType {
    MouseMoved,
    LeftMouseDown,
    LeftMouseUp,
    RightMouseDown,
    RightMouseUp,
    OtherMouseDown,
    OtherMouseUp,
}

impl MouseButton {
    /// The platform button for this button; the middle one is the centre.
    pub fn platform_button(&self) -> (b: PlatformButton)
        ensures
            b == match *self {
                MouseButton::Left => PlatformButton::Left,
                MouseButton::Right => PlatformButton::Right,
                MouseButton::Middle => PlatformButton::Center,
            },
    {
        match self {
            MouseButton::Left => PlatformButton::Left,
            MouseButton::Right => PlatformButton::Right,
            MouseButton::Middle => PlatformButton::Center,
        }
    }

    /// The event that presses this button.
    pub fn press_event(&self) -> (e: PointerEventType)
        ensures
            e == match *self {
                MouseButton::Left => PointerEventType::LeftMouseDown,
                MouseButton::Right => PointerEventType::RightMouseDown,
                MouseButton::Middle => PointerEventType::OtherMouseDown,
            },
    {
        match self {
            MouseButton::Left => PointerEventType::LeftMouseDown,
            MouseButton::Right => PointerEventType::RightMouseDown,
            MouseButton::Middle => PointerEventType::OtherMouseDown,
        }
    }

    /// The event that releases this button.
    pub fn release_event(&self) -> (e: PointerEventType)
        ensures
            e == match *self {
                MouseButton::Left => PointerEventType::LeftMouseUp,
                MouseButton::Right => PointerEventType::RightMouseUp,
                MouseButton::Middle => PointerEventType::OtherMouseUp,
            },
    {
        match self {
            MouseButton::Left => PointerEventType::LeftMouseUp,
            MouseButton::Right => PointerEventType::RightMouseUp,
            MouseButton::Middle => PointerEventType::OtherMouseUp,
        }
    }
}

/// Which fill an interactive figure paints with.
#[derive(Debug, Clone, Copy, PartialEq, Eq, Structural)]
pub enum FillRole {
    Normal,
    Hover,
    Pressed,
}

/// Which outline an interactive figure paints with.
#[derive(Debug, Clone, Copy, PartialEq, Eq, Structural)]
pub enum StrokeRole {
    Normal,
    Selected,
}

/// How the pointer relates to an interactive figure.
#[derive(Debug, Clone, Copy, PartialEq, Eq, Structural)]
pub struct InteractiveState {
    pub hovered: bool,
    pub pressed: bool,
    pub selected: bool,
}

/// The fill for a state: pressed wins over hovered.
pub open spec fn fill_role_of(s: InteractiveState) -> FillRole {
    if s.pressed {
        FillRole::Pressed
    } else if s.hovered {
        FillRole::Hover
    } else {
        FillRole::Normal
    }
}

/// The outline for a state.
pub open spec fn stroke_role_of(s: InteractiveState) -> StrokeRole {
    if s.selected {
        StrokeRole::Selected
    } else {
        StrokeRole::Normal
    }
}

impl InteractiveState {
    /// Not hovered, not pressed, not selected.
    pub fn new() -> (s: Self)
        ensures
            s == (InteractiveState { hovered: false, pressed: false, selected: false }),
    {
        InteractiveState { hovered: false, pressed: false, selected: false }
    }

    /// A button went down on the figure.
    pub fn on_mouse_pressed(&mut self)
        ensures
            *final(self) == (InteractiveState { pressed: true, ..*old(self) }),
    {
        self.pressed = true;
    }

    /// A button went up on the figure: the press ends and the selection
    /// flips.
    pub fn on_mouse_released(&mut self)
        ensures
            *final(self) == (InteractiveState {
                pressed: false,
                selected: !old(self).selected,
                ..*old(self)
            }),
    {
        self.pressed = false;
        self.selected = !self.selected;
    }

    /// The pointer entered the figure.
    pub fn on_mouse_entered(&mut self)
        ensures
            *final(self) == (InteractiveState { hovered: true, ..*old(self) }),
    {
        self.hovered = true;
    }

    /// The pointer left the figure, which also ends a press.
    pub fn on_mouse_exited(&mut self)
        ensures
            *final(self) == (InteractiveState { hovered: false, pressed: false, ..*old(self) }),
    {
        self.hovered = false;
        self.pressed = false;
    }

    pub fn fill_role(&self) -> (r: FillRole)
        ensures
            r == fill_role_of(*self),
    {
        if self.pressed {
            FillRole::Pressed
        } else if self.hovered {
            FillRole::Hover
        } else {
            FillRole::Normal
        }
    }

    pub fn stroke_role(&self) -> (r: StrokeRole)
        ensures
            r == stroke_role_of(*self),
    {
        if self.selected {
            StrokeRole::Selected
        } else {
            StrokeRole::Normal
        }
    }
}

/// The state after a press.
pub open spec fn after_press(s: InteractiveState) -> InteractiveState {
    InteractiveState { pressed: true, ..s }
}

/// The state after a release.
pub open spec fn after_release(s: InteractiveState) -> InteractiveState {
    InteractiveState { pressed: false, selected: !s.selected, ..s }
}

/// The state after the pointer leaves.
pub open spec fn after_exit(s: InteractiveState) -> InteractiveState {
    InteractiveState { hovered: false, pressed: false, ..s }
}

/// A click (press then release) flips the selection and leaves the figure
/// unpressed; two clicks bring the selection back.
pub proof fn law_click_toggles_selection(s: InteractiveState)
    ensures
        after_release(after_press(s)).selected == !s.selected,
        !after_release(after_press(s)).pressed,
        after_release(after_press(after_release(after_press(s)))).selected == s.selected,
{
}

/// A figure the pointer has left is painted with its normal fill.
pub proof fn law_exit_resets_fill(s: InteractiveState)
    ensures
        fill_role_of(after_exit(s)) == FillRole::Normal,
        stroke_role_of(after_exit(s)) == stroke_role_of(s),
{
}

} // verus!
