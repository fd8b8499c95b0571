//! Interaction tools: the decisions that selection, creation and marquee
//! tools take on each input.
//!
//! Pointer positions and hit tests are worked out by the caller; a tool
//! receives what they came to (the block under the pointer, whether the
//! dragged rectangle is large enough) and answers with its result and the
//! change it asks of the scene.

use vstd::prelude::*;

verus! {

/// The state of an interaction tool.
#[derive(Debug, Clone, Copy, PartialEq, Eq, Structural)]
pub enum ToolState {
    Inactive,
    Ready,
    Dragging,
    Creating,
}

/// What handling an input came to.
#[derive(Debug, Clone)]
pub struct ToolResult {
    pub handled: bool,
    pub needs_redraw: bool,
    pub cursor: Option<&'static str>,
}

/// Not handled, nothing to redraw, no cursor change.
pub open spec fn no_result() -> ToolResult {
    ToolResult { handled: false, needs_redraw: false, cursor: None }
}

/// Handled, nothing to redraw.
pub open spec fn handled_result() -> ToolResult {
    ToolResult { handled: true, needs_redraw: false, cursor: None }
}

/// Handled, and the view must be redrawn.
pub open spec fn redraw_result() -> ToolResult {
    ToolResult { handled: true, needs_redraw: true, cursor: None }
}

/// Not handled, but the cursor becomes `cursor`.
pub open spec fn cursor_result(cursor: &'static str) -> ToolResult {
    ToolResult { handled: false, needs_redraw: false, cursor: Some(cursor) }
}

impl ToolResult {
    pub fn none() -> (r: Self)
        ensures
            r == no_result(),
    {
        Self { handled: false, needs_redraw: false, cursor: None }
    }

    pub fn handled() -> (r: Self)
        ensures
            r == handled_result(),
    {
        Self { handled: true, needs_redraw: false, cursor: None }
    }

    pub fn handled_with_redraw() -> (r: Self)
        ensures
            r == redraw_result(),
    {
        Self { handled: true, needs_redraw: true, cursor: None }
    }

    pub fn with_cursor(cursor: &'static str) -> (r: Self)
        ensures
            r == cursor_result(cursor),
    {
        Self { handled: false, needs_redraw: false, cursor: Some(cursor) }
    }
}

/// An input event, without its pointer position.
#[derive(Debug, Clone, Copy, PartialEq, Eq, Structural)]
pub enum ToolInput {
    MouseDown { button: u32 },
    MouseMove { button: u32 },
    MouseUp { button: u32 },
    KeyDown { key_code: u32 },
    KeyUp { key_code: u32 },
    Wheel,
}

/// The change a tool asks of the scene after an input.
#[derive(Debug, Clone, Copy, PartialEq, Eq, Structural)]
pub enum SceneRequest<B> {
    /// Leave the scene as it is.
    Nothing,
    /// Make this block the only selected one.
    Select(B),
    /// Deselect everything.
    ClearSelection,
    /// Select the blocks inside the dragged rectangle.
    SelectInRect,
    /// Create a rectangle over the dragged rectangle.
    CreateRectangle,
}

/// A tool's answer to an input.
#[derive(Debug, Clone)]
pub struct ToolOutcome<B> {
    pub result: ToolResult,
    pub request: SceneRequest<B>,
}

/// Behaviour common to all tools.
pub trait Tool {
    /// The tool's name.
    fn get_name(&self) -> &str;
    /// A short help text.
    fn get_tooltip(&self) -> &str;
    /// Makes the tool ready to take input.
    fn activate(&mut self);
    /// Puts the tool out of use.
    fn deactivate(&mut self);
}

/// Selects and drags blocks.
#[derive(Debug)]
pub struct SelectionTool<B> {
    state: ToolState,
    active_block_id: Option<B>,
}

impl<B> SelectionTool<B> {
    /// A dragging tool holds the block it drags.
    #[verifier::type_invariant]
    closed spec fn dragging_has_block(&self) -> bool {
        self.state == ToolState::Dragging ==> self.active_block_id is Some
    }
}

impl<B: Copy> SelectionTool<B> {
    pub closed spec fn state_spec(&self) -> ToolState {
        self.state
    }

    /// The block being dragged, if any.
    pub closed spec fn active_spec(&self) -> Option<B> {
        self.active_block_id
    }

    /// A tool that is dragging always knows which block it drags. Every
    /// selection tool keeps this (see `dragging_has_block`).
    pub open spec fn wf(&self) -> bool {
        self.state_spec() == ToolState::Dragging ==> self.active_spec() is Some
    }

    pub fn new() -> (t: Self)
        ensures
            t.wf(),
            t.state_spec() == ToolState::Ready,
            t.active_spec() == None::<B>,
    {
        Self { state: ToolState::Ready, active_block_id: None }
    }

    pub fn state(&self) -> (s: ToolState)
        ensures
            s == self.state_spec(),
            self.wf(),
    {
        proof {
            use_type_invariant(self);
        }
        self.state
    }

    pub fn active_block_id(&self) -> (a: Option<B>)
        ensures
            a == self.active_spec(),
    {
        self.active_block_id
    }

    /// Handles an input; `hit` is the block under the pointer.
    ///
    /// A left press on a block starts dragging it and selects it alone; a
    /// left press elsewhere clears the selection. Moving while dragging asks
    /// for a redraw; otherwise the cursor shows whether a block is under the
    /// pointer. A release ends any drag. Other inputs are not handled.
    pub fn handle_input(&mut self, input: ToolInput, hit: Option<B>) -> (out: ToolOutcome<B>)
        ensures
            final(self).wf(),
            match input {
                ToolInput::MouseDown { button } => if button == 0 {
                    match hit {
                        Some(h) => {
                            &&& final(self).state_spec() == ToolState::Dragging
                            &&& final(self).active_spec() == Some(h)
                            &&& out.result == redraw_result()
                            &&& out.request == SceneRequest::Select(h)
                        },
                        None => {
                            &&& final(self).state_spec() == old(self).state_spec()
                            &&& final(self).active_spec() == old(self).active_spec()
                            &&& out.result == redraw_result()
                            &&& out.request == SceneRequest::<B>::ClearSelection
                        },
                    }
                } else {
                    &&& final(self).state_spec() == old(self).state_spec()
                    &&& final(self).active_spec() == old(self).active_spec()
                    &&& out.result == no_result()
                    &&& out.request == SceneRequest::<B>::Nothing
                },
                ToolInput::MouseMove { .. } => {
                    &&& final(self).state_spec() == old(self).state_spec()
                    &&& final(self).active_spec() == old(self).active_spec()
                    &&& out.request == SceneRequest::<B>::Nothing
                    &&& out.result == if old(self).state_spec() == ToolState::Dragging {
                        redraw_result()
                    } else if hit is Some {
                        cursor_result("pointer")
                    } else {
                        cursor_result("default")
                    }
                },
                ToolInput::MouseUp { .. } => {
                    &&& final(self).state_spec() == ToolState::Ready
                    &&& final(self).active_spec() == None::<B>
                    &&& out.result == handled_result()
                    &&& out.request == SceneRequest::<B>::Nothing
                },
                _ => {
                    &&& final(self).state_spec() == old(self).state_spec()
                    &&& final(self).active_spec() == old(self).active_spec()
                    &&& out.result == no_result()
                    &&& out.request == SceneRequest::<B>::Nothing
                },
            },
    {
        proof {
            use_type_invariant(&*self);
        }
        match input {
            ToolInput::MouseDown { button } => {
                if button == 0 {
                    match hit {
                        Some(hit_id) => {
                            self.active_block_id = Some(hit_id);
                            self.state = ToolState::Dragging;
                            ToolOutcome { result: ToolResult::handled_with_redraw(), request: SceneRequest::Select(hit_id) }
                        },
                        None => {
                            ToolOutcome { result: ToolResult::handled_with_redraw(), request: SceneRequest::ClearSelection }
                        },
                    }
                } else {
                    ToolOutcome { result: ToolResult::none(), request: SceneRequest::Nothing }
                }
            },
            ToolInput::MouseMove { .. } => {
                if self.state == ToolState::Dragging {
                    ToolOutcome { result: ToolResult::handled_with_redraw(), request: SceneRequest::Nothing }
                } else if hit.is_some() {
                    ToolOutcome { result: ToolResult::with_cursor("pointer"), request: SceneRequest::Nothing }
                } else {
                    ToolOutcome { result: ToolResult::with_cursor("default"), request: SceneRequest::Nothing }
                }
            },
            ToolInput::MouseUp { .. } => {
                self.state = ToolState::Ready;
                self.active_block_id = None;
                ToolOutcome { result: ToolResult::handled(), request: SceneRequest::Nothing }
            },
            _ => ToolOutcome { result: ToolResult::none(), request: SceneRequest::Nothing },
        }
    }
}

impl<B: Copy> Default for SelectionTool<B> {
    fn default() -> (t: Self)
        ensures
            t.wf(),
            t.state_spec() == ToolState::Ready,
            t.active_spec() == None::<B>,
    {
        Self::new()
    }
}

impl<B: Copy> Tool for SelectionTool<B> {
    fn get_name(&self) -> (r: &str)
        ensures
            r@ == "Selection Tool"@,
    {
        "Selection Tool"
    }

    fn get_tooltip(&self) -> (r: &str)
        ensures
            r@ == "Select and move objects"@,
    {
        "Select and move objects"
    }

    fn activate(&mut self)
        ensures
            final(self).state_spec() == ToolState::Ready,
            final(self).active_spec() == old(self).active_spec(),
            final(self).wf(),
    {
        self.state = ToolState::Ready;
    }

    fn deactivate(&mut self)
        ensures
            final(self).state_spec() == ToolState::Inactive,
            final(self).active_spec() == None::<B>,
            final(self).wf(),
    {
        self.state = ToolState::Inactive;
        self.active_block_id = None;
    }
}

/// Creates rectangles by dragging.
#[derive(Debug)]
pub struct RectangleCreationTool {
    state: ToolState,
}

impl RectangleCreationTool {
    pub closed spec fn state_spec(&self) -> ToolState {
        self.state
    }

    pub fn new() -> (t: Self)
        ensures
            t.state_spec() == ToolState::Ready,
    {
        Self { state: ToolState::Ready }
    }

    pub fn state(&self) -> (s: ToolState)
        ensures
            s == self.state_spec(),
    {
        self.state
    }

    /// Handles an input; `large_enough` says whether the rectangle dragged
    /// from the press to this input is wider and taller than 5 units.
    ///
    /// A left press starts creating; moves are handled; a release after a
    /// press asks for a rectangle when it is large enough, and any release
    /// makes the tool ready and asks for a redraw.
    pub fn handle_input<B>(&mut self, input: ToolInput, large_enough: bool) -> (out: ToolOutcome<B>)
        ensures
            match input {
                ToolInput::MouseDown { button } => if button == 0 {
                    &&& final(self).state_spec() == ToolState::Creating
                    &&& out.result == handled_result()
                    &&& out.request == SceneRequest::<B>::Nothing
                } else {
                    &&& final(self).state_spec() == old(self).state_spec()
                    &&& out.result == no_result()
                    &&& out.request == SceneRequest::<B>::Nothing
                },
                ToolInput::MouseMove { .. } => {
                    &&& final(self).state_spec() == old(self).state_spec()
                    &&& out.result == handled_result()
                    &&& out.request == SceneRequest::<B>::Nothing
                },
                ToolInput::MouseUp { .. } => {
                    &&& final(self).state_spec() == ToolState::Ready
                    &&& out.result == redraw_result()
                    &&& out.request == if old(self).state_spec() == ToolState::Creating && large_enough {
                        SceneRequest::<B>::CreateRectangle
                    } else {
                        SceneRequest::<B>::Nothing
                    }
                },
                _ => {
                    &&& final(self).state_spec() == old(self).state_spec()
                    &&& out.result == no_result()
                    &&& out.request == SceneRequest::<B>::Nothing
                },
            },
    {
        match input {
            ToolInput::MouseDown { button } => {
                if button == 0 {
                    self.state = ToolState::Creating;
                    ToolOutcome { result: ToolResult::handled(), request: SceneRequest::Nothing }
                } else {
                    ToolOutcome { result: ToolResult::none(), request: SceneRequest::Nothing }
                }
            },
            ToolInput::MouseMove { .. } => {
                ToolOutcome { result: ToolResult::handled(), request: SceneRequest::Nothing }
            },
            ToolInput::MouseUp { .. } => {
                let request = if self.state == ToolState::Creating && large_enough {
                    SceneRequest::CreateRectangle
                } else {
                    SceneRequest::Nothing
                };
                self.state = ToolState::Ready;
                ToolOutcome { result: ToolResult::handled_with_redraw(), request }
            },
            _ => ToolOutcome { result: ToolResult::none(), request: SceneRequest::Nothing },
        }
    }
}

impl Default for RectangleCreationTool {
    fn default() -> (t: Self)
        ensures
            t.state_spec() == ToolState::Ready,
    {
        Self::new()
    }
}

impl Tool for RectangleCreationTool {
    fn get_name(&self) -> (r: &str)
        ensures
            r@ == "Rectangle Tool"@,
    {
        "Rectangle Tool"
    }

    fn get_tooltip(&self) -> (r: &str)
        ensures
            r@ == "Create rectangles"@,
    {
        "Create rectangles"
    }

    fn activate(&mut self)
        ensures
            final(self).state_spec() == ToolState::Ready,
    {
        self.state = ToolState::Ready;
    }

    fn deactivate(&mut self)
        ensures
            final(self).state_spec() == ToolState::Inactive,
    {
        self.state = ToolState::Inactive;
    }
}

/// Selects the blocks inside a dragged rectangle.
#[derive(Debug)]
pub struct MarqueeTool {
    state: ToolState,
}

impl MarqueeTool {
    pub closed spec fn state_spec(&self) -> ToolState {
        self.state
    }

    pub fn new() -> (t: Self)
        ensures
            t.state_spec() == ToolState::Ready,
    {
        Self { state: ToolState::Ready }
    }

    pub fn state(&self) -> (s: ToolState)
        ensures
            s == self.state_spec(),
    {
        self.state
    }

    /// Handles an input; `large_enough` says whether the rectangle dragged
    /// from the press to this input is wider and taller than 5 units.
    ///
    /// Any press starts a marquee and clears the selection; moves are
    /// handled; a release selects inside the marquee when it is large
    /// enough, makes the tool ready and asks for a redraw.
    pub fn handle_input<B>(&mut self, input: ToolInput, large_enough: bool) -> (out: ToolOutcome<B>)
        ensures
            match input {
                ToolInput::MouseDown { .. } => {
                    &&& final(self).state_spec() == ToolState::Dragging
                    &&& out.result == handled_result()
                    &&& out.request == SceneRequest::<B>::ClearSelection
                },
                ToolInput::MouseMove { .. } => {
                    &&& final(self).state_spec() == old(self).state_spec()
                    &&& out.result == handled_result()
                    &&& out.request == SceneRequest::<B>::Nothing
                },
                ToolInput::MouseUp { .. } => {
                    &&& final(self).state_spec() == ToolState::Ready
                    &&& out.result == redraw_result()
                    &&& out.request == if large_enough {
                        SceneRequest::<B>::SelectInRect
                    } else {
                        SceneRequest::<B>::Nothing
                    }
                },
                _ => {
                    &&& final(self).state_spec() == old(self).state_spec()
                    &&& out.result == no_result()
                    &&& out.request == SceneRequest::<B>::Nothing
                },
            },
    {
        match input {
            ToolInput::MouseDown { .. } => {
                self.state = ToolState::Dragging;
                ToolOutcome { result: ToolResult::handled(), request: SceneRequest::ClearSelection }
            },
            ToolInput::MouseMove { .. } => {
                ToolOutcome { result: ToolResult::handled(), request: SceneRequest::Nothing }
            },
            ToolInput::MouseUp { .. } => {
                let request = if large_enough {
                    SceneRequest::SelectInRect
                } else {
                    SceneRequest::Nothing
                };
                self.state = ToolState::Ready;
                ToolOutcome { result: ToolResult::handled_with_redraw(), request }
            },
            _ => ToolOutcome { result: ToolResult::none(), request: SceneRequest::Nothing },
        }
    }
}

impl Default for MarqueeTool {
    fn default() -> (t: Self)
        ensures
            t.state_spec() == ToolState::Ready,
    {
        Self::new()
    }
}

impl Tool for MarqueeTool {
    fn get_name(&self) -> (r: &str)
        ensures
            r@ == "Marquee Tool"@,
    {
        "Marquee Tool"
    }

    fn get_tooltip(&self) -> (r: &str)
        ensures
            r@ == "Marquee selection"@,
    {
        "Marquee selection"
    }

    fn activate(&mut self)
        ensures
            final(self).state_spec() == ToolState::Ready,
    {
        self.state = ToolState::Ready;
    }

    fn deactivate(&mut self)
        ensures
            final(self).state_spec() == ToolState::Inactive,
    {
        self.state = ToolState::Inactive;
    }
}

} // verus!
