use groovy::browser::{sort_listing, BrowserState, DirEntryItem};

fn entry(name: &str, path: &str, is_dir: bool) -> DirEntryItem {
    DirEntryItem { name: name.to_string(), path: path.to_string(), is_dir }
}

fn names(b: &BrowserState) -> Vec<String> {
    b.entries.iter().map(|e| e.name.clone()).collect()
}

fn sample() -> BrowserState {
    BrowserState::new(
        "/home/user/music".to_string(),
        vec![
            entry("b.mp3", "/home/user/music/b.mp3", false),
            entry("Zeta", "/home/user/music/Zeta", true),
            entry("A.txt", "/home/user/music/A.txt", false),
            entry("alpha", "/home/user/music/alpha", true),
        ],
    )
}

#[test]
fn listing_puts_directories_first_then_names_without_case() {
    let b = sample();
    assert_eq!(names(&b), vec!["alpha", "Zeta", "A.txt", "b.mp3"]);
    assert_eq!(b.selected, 0);
    assert!(b.popup.is_none());
    assert_eq!(b.current_dir, "/home/user/music");
}

#[test]
fn sorting_an_empty_listing_gives_nothing() {
    assert!(sort_listing(Vec::new()).is_empty());
}

#[test]
fn sorting_keeps_every_entry() {
    let sorted = sort_listing(vec![
        entry("c", "/c", false),
        entry("B", "/B", false),
        entry("a", "/a", false),
        entry("B", "/B2", false),
    ]);
    let paths: Vec<&str> = sorted.iter().map(|e| e.path.as_str()).collect();
    assert_eq!(paths, vec!["/a", "/B", "/B2", "/c"]);
}

#[test]
fn entries_that_compare_equal_keep_their_order() {
    let sorted = sort_listing(vec![
        entry("b", "/1", false),
        entry("B", "/2", false),
        entry("a", "/3", false),
        entry("b", "/4", false),
    ]);
    let paths: Vec<&str> = sorted.iter().map(|e| e.path.as_str()).collect();
    assert_eq!(paths, vec!["/3", "/1", "/2", "/4"]);
}

#[test]
fn highlight_stops_at_both_ends() {
    let mut b = sample();
    b.move_up();
    assert_eq!(b.selected, 0);
    for _ in 0..10 {
        b.move_down();
    }
    assert_eq!(b.selected, 3);
    b.move_up();
    assert_eq!(b.selected, 2);
}

#[test]
fn highlight_on_an_empty_listing_stays_put() {
    let mut b = BrowserState::new("/empty".to_string(), Vec::new());
    b.move_down();
    assert_eq!(b.selected, 0);
}

#[test]
fn entering_a_directory_changes_the_current_directory() {
    let mut b = sample();
    assert!(b.enter_selected());
    assert_eq!(b.current_dir, "/home/user/music/alpha");
    b.refresh(vec![entry("x.mp3", "/home/user/music/alpha/x.mp3", false)]);
    assert_eq!(names(&b), vec!["x.mp3"]);
    assert!(!b.enter_selected());
    assert_eq!(b.current_dir, "/home/user/music/alpha");
}

#[test]
fn going_up_reaches_the_parent_and_stops_at_the_root() {
    let mut b = BrowserState::new("/home/user".to_string(), Vec::new());
    assert!(b.go_to_parent());
    assert_eq!(b.current_dir, "/home");
    assert!(b.go_to_parent());
    assert_eq!(b.current_dir, "/");
    assert!(!b.go_to_parent());
    assert_eq!(b.current_dir, "/");
}

#[test]
fn popup_edits_and_confirms_a_trimmed_path() {
    let mut b = sample();
    b.popup_push_char('x');
    assert!(b.popup.is_none());
    b.open_popup();
    for c in "  /tmpx  ".chars() {
        b.popup_push_char(c);
    }
    assert_eq!(b.popup.as_ref().unwrap().input, "  /tmpx  ");
    b.popup_backspace();
    b.popup_backspace();
    b.popup_backspace();
    assert_eq!(b.popup.as_ref().unwrap().input, "  /tmp");
    assert_eq!(b.popup_target(), Some("/tmp".to_string()));
    // not a directory: the popup stays open with its input
    assert!(!b.popup_confirm(false));
    assert_eq!(b.popup.as_ref().unwrap().input, "  /tmp");
    assert_eq!(b.current_dir, "/home/user/music");
    assert!(b.popup_confirm(true));
    assert_eq!(b.current_dir, "/tmp");
    assert!(b.popup.is_none());
}

#[test]
fn backspace_on_an_empty_popup_does_nothing() {
    let mut b = sample();
    b.open_popup();
    b.popup_backspace();
    assert_eq!(b.popup.as_ref().unwrap().input, "");
    b.close_popup();
    assert!(b.popup.is_none());
    assert!(!b.popup_confirm(true));
}
