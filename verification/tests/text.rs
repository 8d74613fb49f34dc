use pumpkin_net::text::{contains_char, contains_text, replace, split_first};

#[test]
fn replacing() {
    assert_eq!(replace("a{x}b{x}", "{x}", "y"), "ayby");
    assert_eq!(replace("aaaa", "aa", "b"), "bb");
    assert_eq!(replace("aaa", "aa", "b"), "ba");
    assert_eq!(replace("abc", "x", "y"), "abc");
    assert_eq!(replace("{x}", "{x}", "{x}{x}"), "{x}{x}");
    assert_eq!(replace("", "x", "y"), "");
    assert_eq!(replace("äxä", "x", "ö"), "äöä");
}

#[test]
fn searching() {
    assert!(contains_text("a..b", ".."));
    assert!(!contains_text("a.b.", ".."));
    assert!(contains_text("..", ".."));
    assert!(!contains_text(".", ".."));
    assert!(contains_char("a%b", '%'));
    assert!(!contains_char("ab", '%'));
}

#[test]
fn splitting() {
    assert_eq!(split_first("a,b,c", ',', 4), ["a", "b", "c"]);
    assert_eq!(split_first("a,b,c,d,e", ',', 4), ["a", "b", "c", "d"]);
    assert_eq!(split_first("", ',', 4), [""]);
    assert_eq!(split_first(",", ',', 4), ["", ""]);
}
