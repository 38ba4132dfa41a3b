use image_sorter::action::Action;
use image_sorter::script::{line_of, script_of};

fn s(text: &str) -> String {
    text.to_string()
}

#[test]
fn script_of_mkdir_and_move() {
    let actions = vec![
        Action::MkDir(s("/out/a")),
        Action::Move(s("/in/x.png"), s("/out/a")),
    ];
    assert_eq!(
        script_of(&actions),
        "#!/bin/sh\nmkdir -p \"/out/a\"\nmv \"/in/x.png\" \"/out/a\""
    );
}

#[test]
fn script_of_rename_then_move() {
    let actions = vec![
        Action::Rename(s("new.png")),
        Action::Move(s("/in/x.png"), s("/out/a")),
    ];
    assert_eq!(
        line_of(&actions, 1),
        Some(s("mv \"/in/x.png\" \"/out/a/new.png\""))
    );
    assert_eq!(line_of(&actions, 0), None);
    assert_eq!(
        script_of(&actions),
        "#!/bin/sh\nmv \"/in/x.png\" \"/out/a/new.png\""
    );
}

#[test]
fn script_of_empty_queue_is_the_shebang() {
    assert_eq!(script_of(&Vec::new()), "#!/bin/sh");
}

#[test]
fn skip_and_rename_have_no_line() {
    let actions = vec![
        Action::Skip(s("/in/a.png")),
        Action::Rename(s("b.png")),
        Action::Skip(s("/in/c.png")),
    ];
    assert_eq!(script_of(&actions), "#!/bin/sh");
    assert_eq!(line_of(&actions, 0), None);
    assert_eq!(line_of(&actions, 1), None);
}

#[test]
fn delete_becomes_rm() {
    let actions = vec![Action::Delete(s("/in/old one.jpg"))];
    assert_eq!(script_of(&actions), "#!/bin/sh\nrm \"/in/old one.jpg\"");
}

#[test]
fn paths_with_blanks_are_quoted() {
    let actions = vec![
        Action::MkDir(s("/my pictures/best of")),
        Action::Move(s("/in/a b.png"), s("/my pictures/best of")),
    ];
    assert_eq!(
        script_of(&actions),
        "#!/bin/sh\nmkdir -p \"/my pictures/best of\"\nmv \"/in/a b.png\" \"/my pictures/best of\""
    );
}

#[test]
fn a_rename_names_only_the_move_right_behind_it() {
    let actions = vec![
        Action::Rename(s("n.png")),
        Action::Skip(s("/in/a.png")),
        Action::Move(s("/in/b.png"), s("/out")),
        Action::Rename(s("m.png")),
        Action::Rename(s("k.png")),
        Action::Move(s("/in/c.png"), s("/out")),
        Action::Move(s("/in/d.png"), s("/out")),
    ];
    assert_eq!(
        script_of(&actions),
        "#!/bin/sh\nmv \"/in/b.png\" \"/out\"\nmv \"/in/c.png\" \"/out/k.png\"\nmv \"/in/d.png\" \"/out\""
    );
}

#[test]
fn line_of_a_place_outside_the_queue() {
    let actions = vec![Action::MkDir(s("/out"))];
    assert_eq!(line_of(&actions, 0), Some(s("mkdir -p \"/out\"")));
    assert_eq!(line_of(&actions, 1), None);
    assert_eq!(line_of(&actions, usize::MAX), None);
}
