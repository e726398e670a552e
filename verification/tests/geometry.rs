use relais::address::{normalize, resolve};
use relais::error::Error;
use relais::text::{find, matches_at, remove_first, same_text, starts_with};
use relais::view::util::{
    ctrl_fits, ctrl_pos, ctrl_size, window_pos, Position, Size, CTRL_HEIGHT, CTRL_WIDTH, OFFSET_X,
    OFFSET_Y, WINDOW_MIN_INNER_HEIGHT, WINDOW_MIN_INNER_WIDTH,
};

#[test]
fn fixed_measures() {
    assert_eq!((OFFSET_X, OFFSET_Y), (40, 0));
    assert_eq!((CTRL_WIDTH, CTRL_HEIGHT), (40, 360));
    assert_eq!((WINDOW_MIN_INNER_WIDTH, WINDOW_MIN_INNER_HEIGHT), (360, 200));
}

#[test]
fn content_window_stands_right_of_its_control_window() {
    assert_eq!(ctrl_pos(Position { x: 100, y: 50 }), Position { x: 140, y: 50 });
    assert_eq!(ctrl_pos(Position { x: -40, y: -7 }), Position { x: 0, y: -7 });
    assert_eq!(ctrl_pos(Position { x: i32::MAX - 40, y: 0 }), Position { x: i32::MAX, y: 0 });
}

#[test]
fn control_window_stands_left_of_its_content_window() {
    assert_eq!(window_pos(Position { x: 140, y: 50 }), Position { x: 100, y: 50 });
    assert_eq!(window_pos(Position { x: 0, y: i32::MIN }), Position { x: -40, y: i32::MIN });
    assert_eq!(window_pos(Position { x: i32::MIN + 40, y: 0 }), Position { x: i32::MIN, y: 0 });
}

#[test]
fn the_two_positions_undo_each_other() {
    for p in [Position { x: 0, y: 0 }, Position { x: -500, y: 77 }, Position { x: 1920, y: -3 }] {
        assert_eq!(window_pos(ctrl_pos(p)), p);
        assert_eq!(ctrl_pos(window_pos(p)), p);
    }
}

#[test]
fn whether_a_control_window_has_a_place() {
    assert!(ctrl_fits(Position { x: 0, y: 0 }));
    assert!(ctrl_fits(Position { x: i32::MIN + 40, y: 0 }));
    assert!(!ctrl_fits(Position { x: i32::MIN + 39, y: 0 }));
    assert!(!ctrl_fits(Position { x: i32::MIN, y: 0 }));
}

#[test]
fn control_window_size_keeps_the_frame() {
    let outer = Size { width: 56, height: 399 };
    let inner = Size { width: 40, height: 360 };
    assert_eq!(ctrl_size(outer, inner), Some(Size { width: 56, height: 399 }));
    let outer = Size { width: 216, height: 139 };
    let inner = Size { width: 200, height: 100 };
    assert_eq!(ctrl_size(outer, inner), Some(Size { width: 56, height: 399 }));
    let same = Size { width: 10, height: 10 };
    assert_eq!(ctrl_size(same, same), Some(Size { width: 40, height: 360 }));
}

#[test]
fn control_window_size_of_impossible_sizes_is_none() {
    let small = Size { width: 10, height: 10 };
    let wide = Size { width: 11, height: 10 };
    let tall = Size { width: 10, height: 11 };
    assert_eq!(ctrl_size(small, wide), None);
    assert_eq!(ctrl_size(small, tall), None);
    let huge = Size { width: u32::MAX, height: 10 };
    let none = Size { width: 0, height: 0 };
    assert_eq!(ctrl_size(huge, none), None);
    let edge = Size { width: u32::MAX - 40, height: u32::MAX - 360 };
    assert_eq!(ctrl_size(edge, none), Some(Size { width: u32::MAX, height: u32::MAX }));
    let over = Size { width: 0, height: u32::MAX - 359 };
    assert_eq!(ctrl_size(over, none), None);
}

#[test]
fn text_search() {
    assert!(matches_at("abcabc", "bc", 1));
    assert!(matches_at("abcabc", "bc", 4));
    assert!(!matches_at("abcabc", "bc", 0));
    assert!(!matches_at("abcabc", "bc", 5));
    assert!(!matches_at("abcabc", "bc", 100));
    assert!(matches_at("abc", "", 3));
    assert!(!matches_at("abc", "", 4));
    assert_eq!(find("abcabc", "bc"), Some(1));
    assert_eq!(find("abcabc", "cb"), None);
    assert_eq!(find("abc", ""), Some(0));
    assert_eq!(find("", ""), Some(0));
    assert_eq!(find("", "a"), None);
    assert_eq!(find("ééa", "a"), Some(2));
    assert!(starts_with("http://x", "http"));
    assert!(!starts_with("htt", "http"));
    assert!(!starts_with(" http", "http"));
    assert!(same_text("abc", "abc"));
    assert!(!same_text("abc", "abd"));
    assert!(!same_text("abc", "ab"));
    assert!(same_text("", ""));
    assert_eq!(remove_first("a--b--c", "--"), "ab--c");
    assert_eq!(remove_first("abc", "x"), "abc");
    assert_eq!(remove_first("abc", "abc"), "");
}

#[test]
fn addresses_are_normalized() {
    assert_eq!(normalize("example.com"), "https://example.com");
    assert_eq!(normalize("http://example.com"), "http://example.com");
    assert_eq!(normalize("https://example.com"), "https://example.com");
    assert_eq!(normalize("httpexample"), "httpexample");
    assert_eq!(normalize("HTTP://example.com"), "https://HTTP://example.com");
    assert_eq!(normalize(""), "https://");
    assert_eq!(normalize("ftp://example.com"), "https://ftp://example.com");
}

#[test]
fn addresses_are_resolved_by_the_parser() {
    assert_eq!(resolve("example.com"), Ok(String::from("https://example.com/")));
    assert_eq!(resolve("http://EXAMPLE.com/a b"), Ok(String::from("http://example.com/a%20b")));
    assert_eq!(resolve("http://example.com:80/"), Ok(String::from("http://example.com/")));
    assert_eq!(resolve("httpexample"), Err(Error::InvalidUrl));
    assert_eq!(resolve(""), Err(Error::InvalidUrl));
    assert_eq!(resolve("http://[:::1]"), Err(Error::InvalidUrl));
}
