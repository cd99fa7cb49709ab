use web::geometry::{point2, size2, SvgPoint, SvgRect};
use web::shapes::{Circle, Rect, Renderable, Text};
use web::state::{RenderingState, TEXT_HEIGHT};
use web::visual::{TextStyle, Visual};

#[test]
fn rect_materializes_its_fields() {
    let state = RenderingState::new();
    let rect = Rect::new(SvgRect { origin: point2(1, 2), size: size2(3, 4) });
    assert_eq!(rect.size(&state), Some(size2(3, 4)));
    assert_eq!(
        rect.element(),
        Visual::Rect { x: 1, y: 2, width: 3, height: 4, fill: None, stroke: None }
    );
}

#[test]
fn rect_styles_are_optional_not_sentinels() {
    let rect = Rect::new(SvgRect { origin: point2(0, 0), size: size2(1, 1) })
        .fill("red")
        .stroke("#00f");
    match rect.element() {
        Visual::Rect { fill, stroke, .. } => {
            assert_eq!(fill, Some("red"));
            assert_eq!(stroke, Some("#00f"));
        }
        other => panic!("expected a rect, got {:?}", other),
    }
}

#[test]
fn circle_size_is_twice_the_radius() {
    let state = RenderingState::new();
    let circle = Circle::new(point2(7, 9), 5);
    assert_eq!(circle.size(&state), Some(size2(10, 10)));
    assert_eq!(
        circle.element(),
        Visual::Circle { cx: 7, cy: 9, radius: 5, fill: None, stroke: None }
    );
}

#[test]
fn circle_setters_fill_and_stroke() {
    let circle = Circle::new(point2(0, 0), 1).fill("cyan").stroke("black");
    match circle.element() {
        Visual::Circle { fill, stroke, .. } => {
            assert_eq!(fill, Some("cyan"));
            assert_eq!(stroke, Some("black"));
        }
        other => panic!("expected a circle, got {:?}", other),
    }
}

#[test]
fn text_defaults_to_origin_and_black() {
    let text = Text::new("hi", TextStyle::Mono);
    assert_eq!(text.origin, SvgPoint { x: 0, y: 0 });
    assert_eq!(text.colour, "#000");
    match text.element() {
        Visual::Text { x, y, content, style, colour } => {
            assert_eq!((x, y), (0, 0));
            assert_eq!(content, "hi");
            assert_eq!(style, TextStyle::Mono);
            assert_eq!(colour, "#000");
        }
        other => panic!("expected a text, got {:?}", other),
    }
}

#[test]
fn text_setters_override_origin_and_colour() {
    let text = Text::new("hi", TextStyle::Comment).origin(point2(5, 6)).colour("grey");
    match text.element() {
        Visual::Text { x, y, colour, .. } => {
            assert_eq!((x, y), (5, 6));
            assert_eq!(colour, "grey");
        }
        other => panic!("expected a text, got {:?}", other),
    }
}

#[test]
fn text_size_comes_from_the_cache() {
    let mut state = RenderingState::new();
    let text = Text::new("Hello", TextStyle::Mono);
    // Not measured yet: sizing reports nothing and the caller must measure.
    assert_eq!(text.size(&state), None);
    assert!(text.render(&state).is_none());

    state.record_text_width("Hello", 42);
    assert_eq!(text.size(&state), Some(size2(42, TEXT_HEIGHT)));
    let scene = text.render(&state).unwrap();
    assert_eq!(scene.size, size2(42, TEXT_HEIGHT));
    assert_eq!(scene.elements.len(), 1);
    assert_eq!(scene.listener_count(), 0);
}

#[test]
fn render_produces_single_visual_scene() {
    let state = RenderingState::new();
    let scene = Circle::new(point2(0, 0), 2).render(&state).unwrap();
    assert_eq!(scene.elements.len(), 1);
    assert_eq!(scene.size, size2(4, 4));
    assert_eq!(scene.listener_count(), 0);
}

#[test]
fn each_text_style_has_its_font() {
    assert_eq!(TextStyle::Mono.css_font(), "16px Input Sans");
    assert_eq!(TextStyle::Comment.css_font(), "italic 16px Helvetica Neue");
}
