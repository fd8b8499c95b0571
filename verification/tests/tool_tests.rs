use novadraw::tool::{
    MarqueeTool, RectangleCreationTool, SceneRequest, SelectionTool, Tool, ToolInput, ToolResult, ToolState,
};

fn same(a: &ToolResult, b: &ToolResult) -> bool {
    a.handled == b.handled && a.needs_redraw == b.needs_redraw && a.cursor == b.cursor
}

#[test]
fn tool_result_constructors() {
    let n = ToolResult::none();
    assert!(!n.handled && !n.needs_redraw && n.cursor.is_none());
    let h = ToolResult::handled();
    assert!(h.handled && !h.needs_redraw && h.cursor.is_none());
    let r = ToolResult::handled_with_redraw();
    assert!(r.handled && r.needs_redraw && r.cursor.is_none());
    let c = ToolResult::with_cursor("pointer");
    assert!(!c.handled && !c.needs_redraw && c.cursor == Some("pointer"));
}

#[test]
fn selection_drag_gesture() {
    let mut tool: SelectionTool<u64> = SelectionTool::new();
    assert_eq!(tool.state(), ToolState::Ready);

    let out = tool.handle_input(ToolInput::MouseDown { button: 0 }, Some(7));
    assert!(same(&out.result, &ToolResult::handled_with_redraw()));
    assert_eq!(out.request, SceneRequest::Select(7));
    assert_eq!(tool.state(), ToolState::Dragging);
    assert_eq!(tool.active_block_id(), Some(7));

    let out = tool.handle_input(ToolInput::MouseMove { button: 0 }, None);
    assert!(same(&out.result, &ToolResult::handled_with_redraw()));

    let out = tool.handle_input(ToolInput::MouseUp { button: 0 }, None);
    assert!(same(&out.result, &ToolResult::handled()));
    assert_eq!(tool.state(), ToolState::Ready);
    assert_eq!(tool.active_block_id(), None);
}

#[test]
fn selection_hover_and_miss() {
    let mut tool: SelectionTool<u64> = SelectionTool::new();
    let out = tool.handle_input(ToolInput::MouseMove { button: 0 }, Some(3));
    assert_eq!(out.result.cursor, Some("pointer"));
    let out = tool.handle_input(ToolInput::MouseMove { button: 0 }, None);
    assert_eq!(out.result.cursor, Some("default"));

    let out = tool.handle_input(ToolInput::MouseDown { button: 0 }, None);
    assert_eq!(out.request, SceneRequest::ClearSelection);
    assert_eq!(tool.state(), ToolState::Ready);

    let out = tool.handle_input(ToolInput::MouseDown { button: 2 }, Some(3));
    assert!(same(&out.result, &ToolResult::none()));
    assert_eq!(out.request, SceneRequest::Nothing);

    let out = tool.handle_input(ToolInput::KeyDown { key_code: 13 }, Some(3));
    assert!(same(&out.result, &ToolResult::none()));
}

#[test]
fn selection_activation() {
    let mut tool: SelectionTool<u64> = SelectionTool::new();
    tool.handle_input(ToolInput::MouseDown { button: 0 }, Some(1));
    tool.deactivate();
    assert_eq!(tool.state(), ToolState::Inactive);
    assert_eq!(tool.active_block_id(), None);
    tool.activate();
    assert_eq!(tool.state(), ToolState::Ready);
    assert_eq!(tool.get_name(), "Selection Tool");
    assert_eq!(tool.get_tooltip(), "Select and move objects");
}

#[test]
fn rectangle_creation_needs_a_press_and_a_large_drag() {
    let mut tool = RectangleCreationTool::new();
    let out = tool.handle_input::<u64>(ToolInput::MouseUp { button: 0 }, true);
    assert_eq!(out.request, SceneRequest::Nothing);

    tool.handle_input::<u64>(ToolInput::MouseDown { button: 0 }, false);
    assert_eq!(tool.state(), ToolState::Creating);
    let out = tool.handle_input::<u64>(ToolInput::MouseUp { button: 0 }, false);
    assert_eq!(out.request, SceneRequest::Nothing);
    assert!(same(&out.result, &ToolResult::handled_with_redraw()));

    tool.handle_input::<u64>(ToolInput::MouseDown { button: 0 }, false);
    let out = tool.handle_input::<u64>(ToolInput::MouseUp { button: 0 }, true);
    assert_eq!(out.request, SceneRequest::CreateRectangle);
    assert_eq!(tool.state(), ToolState::Ready);
    assert_eq!(tool.get_name(), "Rectangle Tool");
}

#[test]
fn marquee_selects_on_large_release() {
    let mut tool = MarqueeTool::new();
    let out = tool.handle_input::<u64>(ToolInput::MouseDown { button: 1 }, false);
    assert_eq!(out.request, SceneRequest::ClearSelection);
    assert_eq!(tool.state(), ToolState::Dragging);
    let out = tool.handle_input::<u64>(ToolInput::MouseUp { button: 1 }, true);
    assert_eq!(out.request, SceneRequest::SelectInRect);
    assert_eq!(tool.state(), ToolState::Ready);
    let out = tool.handle_input::<u64>(ToolInput::MouseUp { button: 1 }, false);
    assert_eq!(out.request, SceneRequest::Nothing);
    tool.deactivate();
    assert_eq!(tool.state(), ToolState::Inactive);
    assert_eq!(tool.get_tooltip(), "Marquee selection");
}
