use image_sorter::paths::{file_name_chars, is_named_like_image, join, strip_trailing_slash};
use image_sorter::shorten::shorten_path;
use image_sorter::text::{chars_of, text_of};

fn name(path: &str) -> Option<String> {
    file_name_chars(path).map(|chars| chars.into_iter().collect())
}

fn s(text: &str) -> String {
    text.to_string()
}

#[test]
fn file_name_is_what_follows_the_last_slash() {
    assert_eq!(name("/in/x.png"), Some(s("x.png")));
    assert_eq!(name("x.png"), Some(s("x.png")));
    assert_eq!(name("/a/b/c/d e.jpeg"), Some(s("d e.jpeg")));
    assert_eq!(name("/in/.hidden"), Some(s(".hidden")));
    assert_eq!(name("a/..."), Some(s("...")));
    assert_eq!(name("/été/ça.png"), Some(s("ça.png")));
}

#[test]
fn some_paths_have_no_file_name() {
    assert_eq!(name(""), None);
    assert_eq!(name("/"), None);
    assert_eq!(name("/in/"), None);
    assert_eq!(name(".."), None);
    assert_eq!(name("/in/.."), None);
    assert_eq!(name("."), None);
    assert_eq!(name("/in/."), None);
}

#[test]
fn names_of_images() {
    assert!(is_named_like_image("a.png"));
    assert!(is_named_like_image("a.jpg"));
    assert!(is_named_like_image("a.jpeg"));
    assert!(is_named_like_image("/in/my picture.v2.png"));
    assert!(is_named_like_image("..png"));
    assert!(is_named_like_image("/in/é.jpg"));
}

#[test]
fn names_of_other_things() {
    assert!(!is_named_like_image(""));
    assert!(!is_named_like_image("png"));
    assert!(!is_named_like_image(".png"));
    assert!(!is_named_like_image("/in/.jpeg"));
    assert!(!is_named_like_image("a.PNG"));
    assert!(!is_named_like_image("a.JPG"));
    assert!(!is_named_like_image("a.gif"));
    assert!(!is_named_like_image("a.png "));
    assert!(!is_named_like_image("a.png/b"));
    assert!(!is_named_like_image("a.jpe"));
    assert!(!is_named_like_image("ajpg"));
    assert!(!is_named_like_image("a.xpng"));
}

#[test]
fn join_puts_a_slash_between() {
    assert_eq!(join("/out/a", "new.png"), "/out/a/new.png");
    assert_eq!(join("out", "n"), "out/n");
    assert_eq!(join("", ""), "/");
}

#[test]
fn strip_takes_one_slash_off_the_end() {
    assert_eq!(strip_trailing_slash("/out/a/"), "/out/a");
    assert_eq!(strip_trailing_slash("/out/a"), "/out/a");
    assert_eq!(strip_trailing_slash("/out/a//"), "/out/a/");
    assert_eq!(strip_trailing_slash("/"), "");
    assert_eq!(strip_trailing_slash(""), "");
}

#[test]
fn chars_and_text_go_both_ways() {
    assert_eq!(chars_of("aé\u{1F600}"), vec!['a', 'é', '\u{1F600}']);
    assert_eq!(text_of(&vec!['a', 'é', '\u{1F600}']), "aé\u{1F600}");
    assert_eq!(text_of(&chars_of("")), "");
}

#[test]
fn shorten_path_keeps_the_first_letter_of_each_level_but_the_last() {
    assert_eq!(shorten_path("/home/me/pictures/best", None), "/h/m/p/best");
    assert_eq!(shorten_path("/home/me/pictures/best/", None), "/h/m/p/best");
    assert_eq!(shorten_path("/home/me/.config/sorter", None), "/h/m/.c/sorter");
}

#[test]
fn shorten_path_puts_a_tilde_for_the_home_directory() {
    assert_eq!(shorten_path("/home/me/pictures/best", Some("/home/me")), "~/p/best");
    assert_eq!(shorten_path("/home/me/pictures/best/", Some("/home/me")), "~/p/best");
    assert_eq!(shorten_path("/srv/pictures", Some("/home/me")), "/s/pictures");
}
