use view_wrapper::adapters::{Guarded, Wrapped};
use view_wrapper::component::{Component, NameLog, Widget};
use view_wrapper::event::{Direction, Event, EventResult, Selector};
use view_wrapper::geometry::{Rect, Vec2};
use view_wrapper::leaf::Leaf;
use view_wrapper::printer::Printer;
use view_wrapper::wrapper::ViewWrapper;

fn button(name: &str) -> Leaf {
    Leaf::new(name, Vec2::new(10, 3))
}

fn by_name(name: &str) -> Selector {
    Selector::Name(name.to_string())
}

#[test]
fn negotiated_size_is_the_childs() {
    let mut w = Wrapped::new(button("b"));
    assert_eq!(w.required_size(Vec2::new(20, 5)), Vec2::new(10, 3));
}

#[test]
fn dispatch_while_child_is_held_is_ignored() {
    let mut g = Guarded::new(button("b"));
    g.hold();
    assert!(g.is_held());
    assert_eq!(g.on_event(Event::Key('a')), EventResult::Ignored);
    g.release();
    assert_eq!(g.on_event(Event::Key('a')), EventResult::Consumed(None));
}

#[test]
fn nested_search_visits_button_once() {
    let mut w = Wrapped::new(Wrapped::new(button("ok-button")));
    let mut log = NameLog::new();
    w.call_on_any(&by_name("ok-button"), &mut log);
    assert_eq!(log.len(), 1);
    assert_eq!(log.names, vec!["ok-button".to_string()]);
}

#[test]
fn nested_search_for_other_name_visits_nothing() {
    let mut w = Wrapped::new(Wrapped::new(button("ok-button")));
    let mut log = NameLog::new();
    w.call_on_any(&by_name("cancel"), &mut log);
    assert_eq!(log.len(), 0);
}

#[test]
fn repeated_searches_append_in_order() {
    let mut w = Wrapped::new(Guarded::new(button("ok")));
    let mut log = NameLog::new();
    w.call_on_any(&by_name("ok"), &mut log);
    w.call_on_any(&by_name("no"), &mut log);
    w.call_on_any(&by_name("ok"), &mut log);
    assert_eq!(log.names, vec!["ok".to_string(), "ok".to_string()]);
}

#[test]
fn every_operation_matches_the_child() {
    let mut direct = button("b");
    let mut w = Wrapped::new(button("b"));

    let mut p1 = Printer::new(Vec2::new(8, 2));
    let mut p2 = Printer::new(Vec2::new(8, 2));
    direct.draw(&mut p1);
    w.draw(&mut p2);
    assert_eq!(p1.strokes.len(), 1);
    assert_eq!(p2.strokes.len(), 1);
    assert_eq!(p2.strokes[0].text, p1.strokes[0].text);
    assert_eq!(p2.strokes[0].at, p1.strokes[0].at);
    assert_eq!(p2.strokes[0].text, "b");

    assert_eq!(w.required_size(Vec2::new(3, 3)), direct.required_size(Vec2::new(3, 3)));
    assert_eq!(w.on_event(Event::Key('x')), direct.on_event(Event::Key('x')));
    assert_eq!(w.on_event(Event::Mouse(Vec2::new(1, 1))), EventResult::Ignored);
    assert_eq!(w.needs_relayout(), direct.needs_relayout());
    assert!(w.needs_relayout());
    w.layout(Vec2::new(10, 3));
    direct.layout(Vec2::new(10, 3));
    assert_eq!(w.needs_relayout(), direct.needs_relayout());
    assert!(!w.needs_relayout());
    assert_eq!(w.take_focus(Direction::Down), direct.take_focus(Direction::Down));
    assert_eq!(w.focus_view(&by_name("b")), direct.focus_view(&by_name("b")));
    assert_eq!(w.focus_view(&by_name("c")), direct.focus_view(&by_name("c")));
    assert_eq!(w.important_area(Vec2::new(4, 2)), direct.important_area(Vec2::new(4, 2)));
    assert_eq!(
        w.important_area(Vec2::new(4, 2)),
        Rect { top_left: Vec2::new(0, 0), size: Vec2::new(4, 2) }
    );
}

#[test]
fn unavailable_child_gives_neutral_results() {
    let mut g = Guarded::new(button("b"));
    g.hold();
    let mut p = Printer::new(Vec2::new(8, 2));
    g.draw(&mut p);
    assert!(p.strokes.is_empty());
    assert_eq!(g.required_size(Vec2::new(20, 5)), Vec2::zero());
    assert_eq!(g.on_event(Event::Key('a')), EventResult::Ignored);
    g.layout(Vec2::new(10, 3));
    assert!(!g.take_focus(Direction::Absolute));
    let mut log = NameLog::new();
    g.call_on_any(&by_name("b"), &mut log);
    assert_eq!(log.len(), 0);
    assert_eq!(g.focus_view(&by_name("b")), Err(()));
    assert!(g.needs_relayout());
    assert_eq!(g.important_area(Vec2::new(4, 2)), Rect::from_point(Vec2::zero()));
    assert_eq!(g.important_area(Vec2::new(4, 2)).size, Vec2::new(0, 0));

    // Nothing reached the child while it was held.
    g.release();
    assert!(g.needs_relayout());
    assert!(!g.view.focused);
}

#[test]
fn unavailable_child_needs_relayout_even_when_laid_out() {
    let mut g = Guarded::new(button("b"));
    g.layout(Vec2::new(10, 3));
    assert!(!g.needs_relayout());
    g.hold();
    assert!(g.needs_relayout());
}

#[test]
fn unwrap_returns_the_forwarded_child() {
    let mut w = Wrapped::new(button("b"));
    w.layout(Vec2::new(10, 3));
    assert!(w.take_focus(Direction::Up));
    match w.into_inner() {
        Ok(leaf) => {
            assert_eq!(leaf.name, "b");
            assert_eq!(leaf.size, Vec2::new(10, 3));
            assert!(leaf.focused);
            assert!(!leaf.stale);
        }
        Err(_) => panic!("a plain wrapper gives its child back"),
    }
}

#[test]
fn unwrap_of_guarded_fails_and_keeps_the_wrapper() {
    let mut g = Guarded::new(button("b"));
    g.layout(Vec2::new(10, 3));
    match g.into_inner() {
        Ok(_) => panic!("a guarded wrapper keeps its child"),
        Err(mut back) => {
            assert!(!back.needs_relayout());
            assert_eq!(back.required_size(Vec2::new(20, 5)), Vec2::new(10, 3));
            assert!(back.take_focus(Direction::Left));
            assert!(back.view.focused);
        }
    }
}

#[test]
fn focus_view_through_two_wrappers() {
    let mut w = Wrapped::new(Guarded::new(button("ok-button")));
    assert_eq!(w.focus_view(&by_name("missing")), Err(()));
    assert!(!w.view.view.focused);
    assert_eq!(w.focus_view(&by_name("ok-button")), Ok(()));
    assert!(w.view.view.focused);
}

#[test]
fn held_inner_wrapper_blocks_outer_operations() {
    let mut w = Wrapped::new(Guarded::new(button("ok-button")));
    w.view.hold();
    assert_eq!(w.required_size(Vec2::new(20, 5)), Vec2::zero());
    assert_eq!(w.focus_view(&by_name("ok-button")), Err(()));
    let mut log = NameLog::new();
    w.call_on_any(&by_name("ok-button"), &mut log);
    assert_eq!(log.len(), 0);
}

#[test]
fn inner_getters_reach_the_child() {
    let mut w = Wrapped::new(button("b"));
    assert_eq!(w.get_inner().name, "b");
    w.get_inner_mut().size = Vec2::new(2, 1);
    assert_eq!(w.required_size(Vec2::new(20, 5)), Vec2::new(2, 1));
}

#[test]
fn selector_matches_exact_name_only() {
    let s = by_name("ok");
    assert!(s.matches_name(&"ok".to_string()));
    assert!(!s.matches_name(&"ok ".to_string()));
    assert!(!s.matches_name(&String::new()));
}

#[test]
fn printer_keeps_strokes_in_order() {
    let mut p = Printer::new(Vec2::new(5, 5));
    p.print(Vec2::new(1, 2), "ab");
    p.print(Vec2::new(0, 0), "c");
    assert_eq!(p.size, Vec2::new(5, 5));
    assert_eq!(p.strokes.len(), 2);
    assert_eq!(p.strokes[0].text, "ab");
    assert_eq!(p.strokes[0].at, Vec2::new(1, 2));
    assert_eq!(p.strokes[1].text, "c");
}

#[test]
fn geometry_constructors() {
    assert_eq!(Vec2::zero(), Vec2 { x: 0, y: 0 });
    let r = Rect::from_point(Vec2::new(3, 4));
    assert_eq!(r.top_left, Vec2::new(3, 4));
    assert_eq!(r.size, Vec2::zero());
}
