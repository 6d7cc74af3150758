use picrust::helpers::path::{is_absolute, join_path, lowercase_extension, relative_to};
use picrust::json::{
    array_of_strings, empty_object, get_array_len, get_bool, get_elements, get_optional_str,
    get_optional_u64, get_present, get_str, get_u32, get_u64, is_object, object, parse,
    parse_or_empty, string, to_text,
};
use picrust::pattern::{first_groups, is_match};
use picrust::text::{
    char_count, concat3, ends_with, i32_to_string, is_blank, join, lines, pad_left,
    starts_with, str_eq, truncate_chars, u64_to_string, usize_to_string,
};

fn json(text: &str) -> serde_json::Value {
    serde_json::from_str(text).unwrap()
}

#[test]
fn json_is_parsed_and_printed() {
    assert_eq!(parse("{\"a\": [1, 2]}"), Some(json("{\"a\":[1,2]}")));
    assert_eq!(parse("{\"a\": "), None);
    assert_eq!(parse(""), None);
    assert_eq!(parse_or_empty("[1]"), json("[1]"));
    assert_eq!(parse_or_empty("{\"loc"), json("{}"));
    assert_eq!(empty_object(), json("{}"));
    assert_eq!(to_text(&json("{ \"b\" : \"x y\", \"a\" : [ true, null ] }")), "{\"a\":[true,null],\"b\":\"x y\"}");
    assert_eq!(to_text(&empty_object()), "{}");
    assert_eq!(to_text(&string("q\"t")), "\"q\\\"t\"");
}

#[test]
fn members_are_read_by_kind() {
    let v = json("{\"s\":\"text\",\"n\":42,\"neg\":-1,\"f\":1.5,\"b\":true,\"z\":null,\"a\":[1,\"x\"],\"o\":{\"k\":\"v\"},\"big\":4294967296}");
    assert_eq!(get_str(&v, "s"), Some("text".to_string()));
    assert_eq!(get_str(&v, "n"), None);
    assert_eq!(get_str(&v, "missing"), None);
    assert_eq!(get_u64(&v, "n"), Some(42));
    assert_eq!(get_u64(&v, "neg"), None);
    assert_eq!(get_u64(&v, "f"), None);
    assert_eq!(get_u64(&v, "s"), None);
    assert_eq!(get_u32(&v, "n"), Some(42));
    assert_eq!(get_u32(&v, "big"), None);
    assert_eq!(get_u64(&v, "big"), Some(4294967296));
    assert_eq!(get_bool(&v, "b"), Some(true));
    assert_eq!(get_bool(&v, "n"), None);
    assert_eq!(get_array_len(&v, "a"), Some(2));
    assert_eq!(get_array_len(&v, "o"), None);
    assert_eq!(get_elements(&v, "a"), Some(vec![json("1"), json("\"x\"")]));
    assert_eq!(get_optional_str(&v, "s"), Ok(Some("text".to_string())));
    assert_eq!(get_optional_str(&v, "z"), Ok(None));
    assert_eq!(get_optional_str(&v, "missing"), Ok(None));
    assert_eq!(get_optional_str(&v, "n"), Err(()));
    assert_eq!(get_optional_u64(&v, "n"), Ok(Some(42)));
    assert_eq!(get_optional_u64(&v, "z"), Ok(None));
    assert_eq!(get_optional_u64(&v, "s"), Err(()));
    assert_eq!(get_present(&v, "z"), None);
    assert_eq!(get_present(&v, "o"), Some(json("{\"k\":\"v\"}")));
    assert!(is_object(&v));
    assert!(!is_object(&json("[]")));
    // A value that is no object has no members.
    assert_eq!(get_str(&json("[\"s\"]"), "s"), None);
    assert_eq!(get_str(&json("\"s\""), "s"), None);
}

#[test]
fn json_values_are_built() {
    assert_eq!(string("x"), json("\"x\""));
    assert_eq!(array_of_strings(&vec!["a".to_string(), "b".to_string()]), json("[\"a\",\"b\"]"));
    assert_eq!(array_of_strings(&Vec::new()), json("[]"));
    let built = object(vec![
        ("k".to_string(), string("first")),
        ("n".to_string(), picrust::json::number(7)),
        ("k".to_string(), picrust::json::boolean(false)),
        ("l".to_string(), picrust::json::array(vec![json("null")])),
    ]);
    // Of two members with one key the later one stays.
    assert_eq!(built, json("{\"k\":false,\"n\":7,\"l\":[null]}"));
}

#[test]
fn texts_are_compared_and_joined() {
    assert!(str_eq("abc", "abc"));
    assert!(!str_eq("abc", "abd"));
    assert!(!str_eq("abc", "ab"));
    assert!(starts_with("data: x", "data: "));
    assert!(!starts_with("dat", "data: "));
    assert!(starts_with("x", ""));
    assert!(ends_with("/base/", "/"));
    assert!(!ends_with("/base", "/"));
    assert_eq!(picrust::text::concat("ab", "cd"), "abcd");
    assert_eq!(concat3("a", "", "c"), "ac");
    assert_eq!(join(&Vec::new(), ", "), "");
    assert_eq!(join(&vec!["a".to_string()], ", "), "a");
    assert_eq!(join(&vec!["a".to_string(), String::new(), "c".to_string()], ", "), "a, , c");
    assert_eq!(lines("a\r\nb\n\nc"), vec!["a", "b", "", "c"]);
    assert!(lines("").is_empty());
    assert!(is_blank(" \t\n"));
    assert!(!is_blank(" x "));
}

#[test]
fn numbers_are_written_in_decimal() {
    assert_eq!(u64_to_string(0), "0");
    assert_eq!(u64_to_string(9), "9");
    assert_eq!(u64_to_string(10), "10");
    assert_eq!(u64_to_string(u64::MAX), "18446744073709551615");
    assert_eq!(usize_to_string(2000), "2000");
    assert_eq!(i32_to_string(0), "0");
    assert_eq!(i32_to_string(-7), "-7");
    assert_eq!(i32_to_string(i32::MAX), "2147483647");
    assert_eq!(i32_to_string(i32::MIN), "-2147483648");
    assert_eq!(pad_left("7", 6), "     7");
    assert_eq!(pad_left("123456", 6), "123456");
    assert_eq!(pad_left("1234567", 6), "1234567");
    assert_eq!(pad_left("é", 3), "  é");
    assert_eq!(pad_left("", 0), "");
}

#[test]
fn texts_are_cut_by_characters() {
    assert_eq!(char_count("héllo"), 5);
    assert_eq!(truncate_chars("héllo".to_string(), 2, "..."), "hé...");
    assert_eq!(truncate_chars("héllo".to_string(), 5, "..."), "héllo");
    assert_eq!(truncate_chars("héllo".to_string(), 0, "!"), "!");
    assert_eq!(truncate_chars(String::new(), 0, "!"), "");
}

#[test]
fn paths_are_joined_and_told_apart() {
    assert!(is_absolute("/a"));
    assert!(!is_absolute("a/b"));
    assert!(!is_absolute(""));
    assert_eq!(join_path("/base", "x/y"), "/base/x/y");
    assert_eq!(join_path("/base/", "x"), "/base/x");
    assert_eq!(join_path("/base", "/x"), "/x");
    assert_eq!(join_path("", "x"), "x");
    assert_eq!(join_path(".", "x"), "./x");
    assert_eq!(lowercase_extension("/a/b.TXT"), Some("txt".to_string()));
    assert_eq!(lowercase_extension("/a/b"), None);
    assert_eq!(lowercase_extension("/a/.hidden"), None);
    assert_eq!(lowercase_extension("/a.d/b.tar.GZ"), Some("gz".to_string()));
    assert_eq!(relative_to("/repo/src/a.rs", "/repo"), "src/a.rs");
    assert_eq!(relative_to("/repository/a.rs", "/repo"), "/repository/a.rs");
}

#[test]
fn patterns_are_matched() {
    assert_eq!(is_match("^a+$", "aaa"), Some(true));
    assert_eq!(is_match("^a+$", "aab"), Some(false));
    assert_eq!(is_match("a", "bab"), Some(true));
    assert_eq!(is_match("(", "x"), None);
    assert_eq!(
        first_groups("<t>(.*?)</t>", "<t>a</t> and <t>b c</t><t></t>"),
        Some(vec!["a".to_string(), "b c".to_string(), String::new()])
    );
    assert_eq!(first_groups("x(y)?", "x xy"), Some(vec!["y".to_string()]));
    assert_eq!(first_groups("[", "x"), None);
}
