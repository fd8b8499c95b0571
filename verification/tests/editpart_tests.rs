use novadraw::editpart::{EditPart, EditPartId, EditPartRegistry, GraphicalEditPart};

#[test]
fn graphical_edit_part_flags_and_children() {
    let mut registry = EditPartRegistry::new();
    let a = registry.register(GraphicalEditPart::new(EditPartId::default(), 1, "a"));
    let b = registry.register(GraphicalEditPart::new(EditPartId::default(), 2, "b"));
    assert_ne!(a, b);

    let child_a = GraphicalEditPart::new(a, 1, "a");
    let child_b = GraphicalEditPart::new(b, 2, "b");
    let mut parent = GraphicalEditPart::new(EditPartId::default(), 9, "root");
    assert!(parent.is_visible());
    assert!(!parent.is_selected());
    assert_eq!(parent.get_name(), "root");
    assert_eq!(parent.block_id(), 9);
    assert_eq!(parent.parent(), None);

    parent.add_child(&child_a);
    parent.add_child(&child_b);
    parent.add_child(&child_a);
    assert_eq!(parent.children(), &[a, b, a]);
    parent.remove_child(a);
    assert_eq!(parent.children(), &[b]);
    parent.remove_child(a);
    assert_eq!(parent.children(), &[b]);

    parent.set_selected(true);
    parent.set_visible(false);
    parent.set_parent(Some(b));
    parent.activate();
    parent.refresh(&());
    parent.deactivate();
    assert!(parent.is_selected());
    assert!(!parent.is_visible());
    assert_eq!(parent.parent(), Some(b));
}

#[test]
fn registry_finds_parts_by_id_and_block() {
    let mut registry = EditPartRegistry::default();
    assert!(registry.is_empty());
    let id = registry.register(GraphicalEditPart::new(EditPartId::default(), 42, "part"));
    assert_eq!(registry.len(), 1);
    assert_eq!(registry.get(id).map(|p| p.block_id()), Some(42));
    assert_eq!(registry.get_by_block(42).map(|p| p.get_name().to_string()), Some("part".to_string()));
    assert!(registry.get_by_block(7).is_none());

    registry.get_by_block_mut(42).unwrap().set_selected(true);
    assert!(registry.get(id).unwrap().is_selected());
    registry.get_mut(id).unwrap().set_visible(false);
    assert!(!registry.get_by_block(42).unwrap().is_visible());

    registry.unregister(id);
    assert!(registry.is_empty());
    assert!(registry.get(id).is_none());
    assert!(registry.get_by_block(42).is_none());
    registry.unregister(id);
    assert_eq!(registry.len(), 0);
}

#[test]
fn reregistering_a_block_points_it_at_the_newest_part() {
    let mut registry = EditPartRegistry::new();
    let first = registry.register(GraphicalEditPart::new(EditPartId::default(), 5, "first"));
    let second = registry.register(GraphicalEditPart::new(EditPartId::default(), 5, "second"));
    assert_eq!(registry.get_by_block(5).unwrap().get_name(), "second");
    registry.unregister(first);
    assert!(registry.get_by_block(5).is_none());
    assert!(registry.get(second).is_some());
    assert_eq!(registry.len(), 1);
}
