use web::geometry::{point2, size2, SvgPoint, SvgRect, SvgSize};
use web::scene::{PlaceError, Svg};
use web::shapes::{Circle, Rect, Renderable};
use web::state::RenderingState;
use web::visual::{HostNode, Visual};

fn circle_scene(state: &RenderingState, radius: i64) -> Svg {
    Circle::new(point2(0, 0), radius).render(state).unwrap()
}

#[test]
fn empty_scene_has_nothing() {
    let scene = Svg::empty();
    assert_eq!(scene.elements.len(), 0);
    assert_eq!(scene.size, size2(0, 0));
    assert_eq!(scene.listener_count(), 0);
}

#[test]
fn concrete_scenario_circle_place() {
    // A circle of radius 5 renders as a (10, 10) scene; placed at (3, 4) into
    // an empty scene, the parent's bounds reach (13, 14) and its one visual is
    // a group translated by exactly (3, 4).
    let state = RenderingState::new();
    let scene = circle_scene(&state, 5);
    assert_eq!(scene.size, size2(10, 10));
    assert_eq!(scene.elements.len(), 1);

    let mut parent = Svg::empty();
    parent.place(point2(3, 4), scene);
    assert_eq!(parent.size, size2(13, 14));
    assert_eq!(parent.elements.len(), 1);
    match &parent.elements[0] {
        Visual::Group { transform, children } => {
            assert_eq!(*transform, Some(SvgPoint { x: 3, y: 4 }));
            assert_eq!(children.len(), 1);
            assert_eq!(
                children[0],
                Visual::Circle { cx: 0, cy: 0, radius: 5, fill: None, stroke: None }
            );
        }
        other => panic!("expected a translated group, got {:?}", other),
    }
}

#[test]
fn bounds_grow_monotonically() {
    let state = RenderingState::new();
    let mut parent = Svg::empty();

    parent.place(point2(3, 4), circle_scene(&state, 5));
    assert_eq!(parent.size, size2(13, 14));

    // A smaller child never shrinks the bounds.
    parent.place(point2(0, 0), circle_scene(&state, 1));
    assert_eq!(parent.size, size2(13, 14));

    // A farther child grows each axis to its far edge.
    parent.place(point2(20, 1), circle_scene(&state, 2));
    assert_eq!(parent.size, size2(24, 14));

    // The bounds cover every placed child: width >= child width + offset x.
    assert!(parent.size.width >= 10 + 3 && parent.size.height >= 10 + 4);
    assert!(parent.size.width >= 2 + 0 && parent.size.height >= 2 + 0);
    assert!(parent.size.width >= 4 + 20 && parent.size.height >= 4 + 1);
}

#[test]
fn negative_offset_keeps_size_non_negative() {
    let state = RenderingState::new();
    let mut parent = Svg::empty();
    parent.place(point2(-100, -100), circle_scene(&state, 5));
    assert_eq!(parent.size, size2(0, 0));
}

#[test]
fn place_at_splices_at_index() {
    let state = RenderingState::new();
    let mut parent = Svg::empty();
    parent.place(point2(0, 0), circle_scene(&state, 1));
    parent.place(point2(0, 0), circle_scene(&state, 2));
    assert_eq!(parent.elements.len(), 2);

    // Splicing at index 1 puts the child exactly there and shifts the visual
    // previously at 1 up to index 2.
    let r = parent.place_at(1, point2(7, 8), circle_scene(&state, 3));
    assert_eq!(r, Ok(()));
    assert_eq!(parent.elements.len(), 3);

    let radius_of = |v: &Visual| -> i64 {
        match v {
            Visual::Group { children, .. } => match &children[0] {
                Visual::Circle { radius, .. } => *radius,
                other => panic!("expected a circle, got {:?}", other),
            },
            other => panic!("expected a group, got {:?}", other),
        }
    };
    assert_eq!(radius_of(&parent.elements[0]), 1);
    assert_eq!(radius_of(&parent.elements[1]), 3);
    assert_eq!(radius_of(&parent.elements[2]), 2);
}

#[test]
fn place_at_rejects_out_of_range_index() {
    let state = RenderingState::new();
    let mut parent = Svg::empty();
    parent.place(point2(0, 0), circle_scene(&state, 1));

    let r = parent.place_at(2, point2(0, 0), circle_scene(&state, 3));
    assert_eq!(r, Err(PlaceError::InvalidPlacement));
    // The scene is untouched.
    assert_eq!(parent.elements.len(), 1);
    assert_eq!(parent.size, size2(2, 2));
}

#[test]
fn translate_sets_exact_transform() {
    let state = RenderingState::new();
    let translated = circle_scene(&state, 5).translate(point2(10, 20));
    assert_eq!(translated.elements.len(), 1);
    match &translated.elements[0] {
        Visual::Group { transform, .. } => assert_eq!(*transform, Some(SvgPoint { x: 10, y: 20 })),
        other => panic!("expected a group, got {:?}", other),
    }
    assert_eq!(translated.size, size2(10, 10));
}

#[test]
fn translate_at_origin_is_not_elided() {
    let state = RenderingState::new();
    let translated = circle_scene(&state, 5).translate(point2(0, 0));
    match &translated.elements[0] {
        Visual::Group { transform, .. } => assert_eq!(*transform, Some(SvgPoint { x: 0, y: 0 })),
        other => panic!("expected a group, got {:?}", other),
    }
}

#[test]
fn group_wraps_in_order() {
    let state = RenderingState::new();
    let mut parent = Svg::empty();
    parent.place(point2(0, 0), circle_scene(&state, 1));
    parent.place(point2(0, 0), circle_scene(&state, 2));
    let g = parent.group();
    match g {
        Visual::Group { transform, children } => {
            assert_eq!(transform, None);
            assert_eq!(children.len(), 2);
        }
        other => panic!("expected a group, got {:?}", other),
    }
    assert_eq!(parent.elements.len(), 0);
}

#[test]
fn listeners_accumulate_across_event_and_place() {
    let state = RenderingState::new();

    // Scene A: one visual, one listener.
    let mut scene_a = circle_scene(&state, 1).event(11);
    assert_eq!(scene_a.listener_count(), 1);

    // Scene B: two visuals, so one registration per visual.
    let mut scene_b = Svg::empty();
    scene_b.place(point2(0, 0), circle_scene(&state, 2));
    scene_b.place(point2(0, 0), circle_scene(&state, 3));
    let scene_b = scene_b.event(22);
    assert_eq!(scene_b.listener_count(), 2);

    // Placing B into A combines the listener sets: |A| + |B|.
    let b_count = scene_b.listener_count();
    let a_count = scene_a.listener_count();
    scene_a.place(point2(5, 5), scene_b);
    assert_eq!(scene_a.listener_count(), a_count + b_count);
}

#[test]
fn event_on_empty_scene_registers_nothing() {
    let scene = Svg::empty().event(9);
    assert_eq!(scene.listener_count(), 0);
}

#[test]
fn mount_replaces_previous_content() {
    let state = RenderingState::new();
    let mut host = HostNode::new();

    let mut scene_x = Svg::empty();
    scene_x.place(point2(0, 0), circle_scene(&state, 1));
    scene_x.place(point2(0, 0), circle_scene(&state, 2));
    scene_x.mount(&mut host);
    assert_eq!(host.children.len(), 2);

    let scene_y = Rect::new(SvgRect { origin: point2(0, 0), size: size2(4, 4) })
        .render(&state)
        .unwrap();
    scene_y.mount(&mut host);
    // Only Y's visuals remain, in order.
    assert_eq!(host.children.len(), 1);
    assert_eq!(
        host.children[0],
        Visual::Rect { x: 0, y: 0, width: 4, height: 4, fill: None, stroke: None }
    );
}
