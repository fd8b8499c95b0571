//! Keyboard handling and scene choice of the demo application shell.

use vstd::prelude::*;

verus! {

/// The physical keys the demo shell and the editor react to.
#[derive(Debug, Clone, Copy, PartialEq, Eq, Structural)]
pub enum AppKey {
    Escape,
    KeyI,
    KeyT,
    KeyH,
    KeyM,
    KeyC,
    Digit0,
    Digit1,
    Digit2,
    Digit3,
    Digit4,
    Digit5,
    Digit6,
    Digit7,
    Digit8,
    Digit9,
    /// Any other key.
    Other,
}

/// The digit that a digit key stands for.
pub open spec fn digit_of(key: AppKey) -> Option<usize> {
    match key {
        AppKey::Digit0 => Some(0),
        AppKey::Digit1 => Some(1),
        AppKey::Digit2 => Some(2),
        AppKey::Digit3 => Some(3),
        AppKey::Digit4 => Some(4),
        AppKey::Digit5 => Some(5),
        AppKey::Digit6 => Some(6),
        AppKey::Digit7 => Some(7),
        AppKey::Digit8 => Some(8),
        AppKey::Digit9 => Some(9),
        _ => None,
    }
}

/// The scene index (0 to 9) that a digit key selects.
pub fn get_digit_index(key: &AppKey) -> (d: Option<usize>)
    ensures
        d == digit_of(*key),
{
    match key {
        AppKey::Digit0 => Some(0),
        AppKey::Digit1 => Some(1),
        AppKey::Digit2 => Some(2),
        AppKey::Digit3 => Some(3),
        AppKey::Digit4 => Some(4),
        AppKey::Digit5 => Some(5),
        AppKey::Digit6 => Some(6),
        AppKey::Digit7 => Some(7),
        AppKey::Digit8 => Some(8),
        AppKey::Digit9 => Some(9),
        _ => None,
    }
}

/// What a key press asks of the demo shell.
#[derive(Debug, Clone, Copy, PartialEq, Eq, Structural)]
pub enum DemoAction {
    /// Close the application.
    Exit,
    /// Switch between recursive and iterative rendering.
    ToggleRenderMode,
    /// Show the scene with this index.
    SwitchScene(usize),
    /// Nothing to do.
    Ignore,
}

/// What pressing `key` asks for.
pub open spec fn action_of(key: AppKey) -> DemoAction {
    match key {
        AppKey::Escape => DemoAction::Exit,
        AppKey::KeyI => DemoAction::ToggleRenderMode,
        _ => match digit_of(key) {
            Some(d) => DemoAction::SwitchScene(d),
            None => DemoAction::Ignore,
        },
    }
}

/// Maps a pressed key to what the shell does: Escape exits, I toggles the
/// render mode, a digit switches scenes.
pub fn key_action(key: &AppKey) -> (a: DemoAction)
    ensures
        a == action_of(*key),
{
    match key {
        AppKey::Escape => DemoAction::Exit,
        AppKey::KeyI => DemoAction::ToggleRenderMode,
        _ => match get_digit_index(key) {
            Some(d) => DemoAction::SwitchScene(d),
            None => DemoAction::Ignore,
        },
    }
}

/// Every digit key switches to the scene numbered by its digit, Escape
/// exits, I toggles the render mode, and no other key does anything.
pub proof fn law_keys_pick_actions()
    ensures
        action_of(AppKey::Digit0) == DemoAction::SwitchScene(0),
        action_of(AppKey::Digit1) == DemoAction::SwitchScene(1),
        action_of(AppKey::Digit2) == DemoAction::SwitchScene(2),
        action_of(AppKey::Digit3) == DemoAction::SwitchScene(3),
        action_of(AppKey::Digit4) == DemoAction::SwitchScene(4),
        action_of(AppKey::Digit5) == DemoAction::SwitchScene(5),
        action_of(AppKey::Digit6) == DemoAction::SwitchScene(6),
        action_of(AppKey::Digit7) == DemoAction::SwitchScene(7),
        action_of(AppKey::Digit8) == DemoAction::SwitchScene(8),
        action_of(AppKey::Digit9) == DemoAction::SwitchScene(9),
        action_of(AppKey::Escape) == DemoAction::Exit,
        action_of(AppKey::KeyI) == DemoAction::ToggleRenderMode,
        forall|k: AppKey| #[trigger] action_of(k) is SwitchScene ==> digit_of(k) == Some(action_of(k)->0),
        action_of(AppKey::KeyT) == DemoAction::Ignore,
        action_of(AppKey::KeyH) == DemoAction::Ignore,
        action_of(AppKey::KeyM) == DemoAction::Ignore,
        action_of(AppKey::KeyC) == DemoAction::Ignore,
        action_of(AppKey::Other) == DemoAction::Ignore,
{
}

/// The named scenes of a demo, which one is shown, and how it is rendered.
#[derive(Debug)]
pub struct SceneSelector {
    names: Vec<&'static str>,
    current_scene_idx: usize,
    use_iterative_render: bool,
}

impl SceneSelector {
    pub closed spec fn names_spec(&self) -> Seq<&'static str> {
        self.names@
    }

    pub closed spec fn current_spec(&self) -> usize {
        self.current_scene_idx
    }

    pub closed spec fn iterative_spec(&self) -> bool {
        self.use_iterative_render
    }

    /// Starts on the first scene, rendering recursively.
    pub fn new(names: Vec<&'static str>) -> (s: Self)
        ensures
            s.names_spec() == names@,
            s.current_spec() == 0,
            !s.iterative_spec(),
    {
        SceneSelector { names, current_scene_idx: 0, use_iterative_render: false }
    }

    /// Shows scene `idx` when there is one; returns whether it switched.
    pub fn switch_scene(&mut self, idx: usize) -> (switched: bool)
        ensures
            switched == (idx < old(self).names_spec().len()),
            final(self).names_spec() == old(self).names_spec(),
            final(self).iterative_spec() == old(self).iterative_spec(),
            final(self).current_spec() == if switched {
                idx
            } else {
                old(self).current_spec()
            },
    {
        if idx < self.names.len() {
            self.current_scene_idx = idx;
            true
        } else {
            false
        }
    }

    /// The name of the scene shown, if there is such a scene.
    pub fn current_scene_name(&self) -> (n: Option<&'static str>)
        ensures
            n == if self.current_spec() < self.names_spec().len() {
                Some(self.names_spec()[self.current_spec() as int])
            } else {
                None
            },
    {
        if self.current_scene_idx < self.names.len() {
            Some(self.names[self.current_scene_idx])
        } else {
            None
        }
    }

    /// How many scenes there are.
    pub fn scene_count(&self) -> (n: usize)
        ensures
            n == self.names_spec().len(),
    {
        self.names.len()
    }

    /// Whether scenes are rendered iteratively.
    pub fn use_iterative_render(&self) -> (b: bool)
        ensures
            b == self.iterative_spec(),
    {
        self.use_iterative_render
    }

    /// Switches between recursive and iterative rendering.
    pub fn toggle_render_mode(&mut self)
        ensures
            final(self).iterative_spec() == !old(self).iterative_spec(),
            final(self).names_spec() == old(self).names_spec(),
            final(self).current_spec() == old(self).current_spec(),
    {
        self.use_iterative_render = !self.use_iterative_render;
    }
}

/// A digit key only ever switches to scenes 0 to 9, and no other key
/// switches scenes.
pub proof fn law_only_digits_switch(key: AppKey)
    ensures
        action_of(key) matches DemoAction::SwitchScene(d) ==> d <= 9 && digit_of(key) == Some(d),
        digit_of(key) is None ==> !(action_of(key) is SwitchScene),
{
}

} // verus!
