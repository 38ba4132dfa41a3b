use image_sorter::action::Action;
use image_sorter::app::{App, Opt};
use image_sorter::binding::{PathKind, Target};
use image_sorter::discover::Entry;

const PNG: [u8; 8] = [0x89, 0x50, 0x4E, 0x47, 0x0D, 0x0A, 0x1A, 0x0A];

fn s(text: &str) -> String {
    text.to_string()
}

fn image(path: &str) -> Entry {
    Entry::File { path: s(path), head: Some(PNG.to_vec()) }
}

fn session(images: &[&str], folders: &[(char, &str, PathKind)]) -> App {
    let opt = Opt {
        bind: folders
            .iter()
            .map(|(key, path, kind)| (*key, Target { path: s(path), kind: *kind }))
            .collect(),
        input: images.iter().map(|path| image(path)).collect(),
        recurse: false,
        output: s("sort.sh"),
        tick_rate: 1000,
    };
    App::new(opt).unwrap()
}

fn steps(actions: &[Action]) -> usize {
    actions.iter().map(|action| action.queue_step()).sum()
}

#[test]
fn queue_step_is_one_for_skip_move_delete() {
    assert_eq!(Action::Skip(s("a")).queue_step(), 1);
    assert_eq!(Action::Move(s("a"), s("b")).queue_step(), 1);
    assert_eq!(Action::Delete(s("a")).queue_step(), 1);
}

#[test]
fn queue_step_is_zero_for_rename_mkdir() {
    assert_eq!(Action::Rename(s("a")).queue_step(), 0);
    assert_eq!(Action::MkDir(s("a")).queue_step(), 0);
}

#[test]
fn only_mkdir_is_not_poppable() {
    assert!(Action::Skip(s("a")).is_poppable());
    assert!(Action::Move(s("a"), s("b")).is_poppable());
    assert!(Action::Rename(s("a")).is_poppable());
    assert!(Action::Delete(s("a")).is_poppable());
    assert!(!Action::MkDir(s("a")).is_poppable());
}

#[test]
fn default_session_is_empty() {
    let app = App::default();
    assert_eq!(app.current(), 0);
    assert!(app.images().is_empty());
    assert!(app.actions().is_empty());
    assert_eq!(app.current_image(), None);
    assert!(!app.enable_input());
    assert_eq!(app.output(), "");
}

#[test]
fn new_session_stands_at_its_first_image() {
    let app = session(&["/in/a.png", "/in/b.png"], &[]);
    assert_eq!(app.images(), &vec![s("/in/a.png"), s("/in/b.png")]);
    assert_eq!(app.current(), 0);
    assert_eq!(app.current_image(), Some(s("/in/a.png")));
    assert_eq!(app.output(), "sort.sh");
}

#[test]
fn push_appends_and_advances_by_the_step() {
    let mut app = session(&["/in/a.png", "/in/b.png"], &[]);
    app.push_action(Action::Skip(s("/in/a.png")));
    assert_eq!(app.current(), 1);
    assert_eq!(app.current_image(), Some(s("/in/b.png")));
    app.push_action(Action::Rename(s("c.png")));
    assert_eq!(app.current(), 1);
    app.push_action(Action::Move(s("/in/b.png"), s("/out")));
    assert_eq!(app.current(), 2);
    assert_eq!(app.current_image(), None);
    assert_eq!(
        app.actions(),
        &vec![
            Action::Skip(s("/in/a.png")),
            Action::Rename(s("c.png")),
            Action::Move(s("/in/b.png"), s("/out")),
        ]
    );
}

#[test]
fn push_past_the_last_image_is_ignored() {
    let mut app = session(&["/in/a.png"], &[]);
    app.push_action(Action::Delete(s("/in/a.png")));
    assert_eq!(app.current(), 1);
    app.push_action(Action::Skip(s("/in/a.png")));
    app.push_action(Action::Move(s("/in/a.png"), s("/out")));
    app.push_action(Action::Delete(s("/in/a.png")));
    assert_eq!(app.current(), 1);
    assert_eq!(app.actions(), &vec![Action::Delete(s("/in/a.png"))]);
}

#[test]
fn actions_without_a_step_are_taken_past_the_last_image() {
    let mut app = session(&[], &[]);
    app.push_action(Action::Rename(s("n.png")));
    app.push_action(Action::MkDir(s("/out")));
    assert_eq!(app.current(), 0);
    assert_eq!(
        app.actions(),
        &vec![Action::Rename(s("n.png")), Action::MkDir(s("/out"))]
    );
}

#[test]
fn cursor_is_the_sum_of_the_steps_after_any_run() {
    let mut app = session(&["/in/a.png", "/in/b.png", "/in/c.png"], &[('x', "/out", PathKind::Missing)]);
    let n = app.images().len();
    let run: Vec<Option<Action>> = vec![
        Some(Action::Skip(s("/in/a.png"))),
        None,
        None,
        Some(Action::Rename(s("r.png"))),
        Some(Action::Move(s("/in/a.png"), s("/out"))),
        Some(Action::Delete(s("/in/b.png"))),
        None,
        Some(Action::Skip(s("/in/b.png"))),
        Some(Action::Skip(s("/in/c.png"))),
        Some(Action::Skip(s("/in/c.png"))),
        Some(Action::Rename(s("late.png"))),
        None,
        None,
        None,
        None,
        None,
        None,
        None,
    ];
    for op in run {
        match op {
            Some(action) => app.push_action(action),
            None => app.pop_action(),
        }
        assert_eq!(app.current(), steps(app.actions()));
        assert!(app.current() <= n);
    }
    assert_eq!(app.actions(), &vec![Action::MkDir(s("/out"))]);
    assert_eq!(app.current(), 0);
}

#[test]
fn pop_on_an_empty_queue_changes_nothing() {
    let mut app = session(&["/in/a.png"], &[]);
    for _ in 0..5 {
        app.pop_action();
        assert_eq!(app.current(), 0);
        assert!(app.actions().is_empty());
    }
    assert_eq!(app.current_image(), Some(s("/in/a.png")));
}

#[test]
fn skip_then_pop_restores_queue_and_cursor() {
    let mut app = session(&["/in/a.png", "/in/b.png"], &[('x', "/out", PathKind::Missing)]);
    app.push_action(Action::Delete(s("/in/a.png")));
    let actions = app.actions().clone();
    let current = app.current();
    for image in ["/in/a.png", "/in/b.png", "/elsewhere/z.jpg", ""] {
        app.push_action(Action::Skip(s(image)));
        assert_eq!(app.current(), current + 1);
        app.pop_action();
        assert_eq!(app.actions(), &actions);
        assert_eq!(app.current(), current);
    }
}

#[test]
fn skip_then_pop_past_the_last_image_takes_back_an_older_action() {
    let mut app = session(&["/in/a.png"], &[]);
    app.push_action(Action::Delete(s("/in/a.png")));
    app.push_action(Action::Skip(s("/in/a.png")));
    app.pop_action();
    assert!(app.actions().is_empty());
    assert_eq!(app.current(), 0);
}

#[test]
fn pop_walks_back_over_a_rename() {
    let mut app = session(&["/in/a.png"], &[]);
    app.push_action(Action::Rename(s("n.png")));
    app.push_action(Action::Move(s("/in/a.png"), s("/out")));
    app.pop_action();
    assert_eq!(app.actions(), &vec![Action::Rename(s("n.png"))]);
    assert_eq!(app.current(), 0);
    app.pop_action();
    assert!(app.actions().is_empty());
    assert_eq!(app.current(), 0);
}

#[test]
fn mkdir_is_never_popped() {
    let mut app = session(
        &["/in/a.png", "/in/b.png"],
        &[('a', "/out/a", PathKind::Missing), ('b', "/out/b", PathKind::Missing)],
    );
    let seeded = vec![Action::MkDir(s("/out/a")), Action::MkDir(s("/out/b"))];
    assert_eq!(app.actions(), &seeded);
    assert_eq!(app.current(), 0);
    for _ in 0..3 {
        app.pop_action();
    }
    assert_eq!(app.actions(), &seeded);
    app.push_action(Action::Skip(s("/in/a.png")));
    app.push_action(Action::Delete(s("/in/b.png")));
    for _ in 0..10 {
        app.pop_action();
    }
    assert_eq!(app.actions(), &seeded);
    assert_eq!(app.current(), 0);
}

#[test]
fn pop_stops_at_a_mkdir_at_the_tail() {
    let mut app = session(&["/in/a.png"], &[]);
    app.push_action(Action::Skip(s("/in/a.png")));
    app.push_action(Action::MkDir(s("/late")));
    app.pop_action();
    app.pop_action();
    assert_eq!(
        app.actions(),
        &vec![Action::Skip(s("/in/a.png")), Action::MkDir(s("/late"))]
    );
    assert_eq!(app.current(), 1);
}

#[test]
fn script_of_the_session_leaves_the_queue() {
    let mut app = session(&["/in/x.png"], &[('a', "/out/a", PathKind::Missing)]);
    app.push_action(Action::Move(s("/in/x.png"), s("/out/a")));
    let before = app.actions().clone();
    assert_eq!(
        app.script(),
        "#!/bin/sh\nmkdir -p \"/out/a\"\nmv \"/in/x.png\" \"/out/a\""
    );
    assert_eq!(app.actions(), &before);
    assert_eq!(app.current(), 1);
}
