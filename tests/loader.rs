use image_grid::dispatcher::{Dispatcher, NextAction, Widget};
use image_grid::loader::{admitted, FileStep, ImageLoader, PatternKind};

#[test]
fn loader_limits_count() {
    let mut loader = ImageLoader::new();
    assert!(loader.has_room(1_000_000));
    loader.max(2);
    assert!(loader.has_room(0));
    assert!(loader.has_room(1));
    assert!(!loader.has_room(2));
    loader.max(0);
    assert!(!loader.has_room(0));
}

#[test]
fn filters_select_paths() {
    let mut loader = ImageLoader::new();
    loader.only(r"\.png$");
    loader.filter("thumb");
    let filters = loader.compile_filters().unwrap();
    assert!(filters.admits("pictures/cat.png"));
    assert!(!filters.admits("pictures/cat.jpg"));
    assert!(!filters.admits("pictures/thumb_cat.png"));
    let open = ImageLoader::new().compile_filters().unwrap();
    assert!(open.admits("anything"));
}

#[test]
fn every_inclusion_pattern_must_match() {
    let mut loader = ImageLoader::new();
    loader.only("cat");
    loader.only("dog");
    let filters = loader.compile_filters().unwrap();
    assert!(filters.admits("cat_and_dog.png"));
    assert!(!filters.admits("cat.png"));
}

#[test]
fn bad_filter_pattern_is_reported() {
    let mut loader = ImageLoader::new();
    loader.only("(");
    loader.filter("ok");
    loader.filter("[z-a]");
    let e = loader.compile_filters().unwrap_err();
    assert_eq!(e.kind, PatternKind::Filter);
    assert_eq!(e.pattern, "[z-a]");
}

#[test]
fn bad_only_pattern_is_reported() {
    let mut loader = ImageLoader::new();
    loader.filter("fine");
    loader.only("good");
    loader.only("(unclosed");
    let e = loader.compile_filters().unwrap_err();
    assert_eq!(e.kind, PatternKind::Only);
    assert_eq!(e.pattern, "(unclosed");
}

#[test]
fn file_steps_follow_limit_then_kind_then_patterns() {
    let mut loader = ImageLoader::new();
    assert_eq!(loader.file_step(0, false, true), FileStep::Load);
    assert_eq!(loader.file_step(5, true, true), FileStep::Skip);
    assert_eq!(loader.file_step(5, false, false), FileStep::Skip);
    loader.max(2);
    assert_eq!(loader.file_step(1, false, true), FileStep::Load);
    assert_eq!(loader.file_step(2, false, true), FileStep::Stop);
    assert_eq!(loader.file_step(2, true, false), FileStep::Stop);
}

#[test]
fn filters_with_anchors_and_classes() {
    let mut loader = ImageLoader::new();
    loader.filter("^tmp/");
    loader.only("[0-9]{3}");
    let filters = loader.compile_filters().unwrap();
    assert!(filters.admits("shots/img_042.png"));
    assert!(!filters.admits("shots/img_42.png"));
    assert!(!filters.admits("tmp/img_042.png"));
    assert!(filters.admits("a/tmp/img_042.png"));
}

#[test]
fn admission_from_hits() {
    assert!(admitted(&vec![], &vec![]));
    assert!(admitted(&vec![true, true], &vec![false]));
    assert!(!admitted(&vec![true, false], &vec![]));
    assert!(!admitted(&vec![true], &vec![false, true]));
}

struct Screen {
    name: &'static str,
    next: fn() -> NextAction<Screen>,
}

impl Widget for Screen {
    fn next(&self) -> NextAction<Screen> {
        (self.next)()
    }
}

fn stay() -> NextAction<Screen> {
    NextAction::Stay
}

fn push_viewer() -> NextAction<Screen> {
    NextAction::Push(Screen { name: "viewer", next: stay })
}

fn replace_with_help() -> NextAction<Screen> {
    NextAction::Replace(Screen { name: "help", next: stay })
}

fn pop() -> NextAction<Screen> {
    NextAction::Pop
}

#[test]
fn dispatcher_switches_widgets() {
    let mut d = Dispatcher::new(Screen { name: "grid", next: push_viewer });
    d.update();
    assert_eq!(d.widget.name, "viewer");
    assert_eq!(d.parent.as_ref().unwrap().name, "grid");
    d.update();
    assert_eq!(d.widget.name, "viewer");
    d.apply(replace_with_help());
    assert_eq!(d.widget.name, "help");
    assert_eq!(d.parent.as_ref().unwrap().name, "grid");
    d.widget.next = pop;
    d.update();
    assert_eq!(d.widget.name, "help");
}
