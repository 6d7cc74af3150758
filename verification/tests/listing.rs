use picrust::helpers::listing::{
    byte_size_text, entry_before, format_entry, list_directory, name_before, place_of,
    read_directory, size_unit, sort_entries, ListedEntry, SizeUnit,
};
use picrust::llm::ContentBlock;

fn file(name: &str, size_text: &str) -> ListedEntry {
    ListedEntry { name: name.to_string(), is_dir: false, size_text: size_text.to_string() }
}

fn dir(name: &str) -> ListedEntry {
    ListedEntry { name: name.to_string(), is_dir: true, size_text: String::new() }
}

fn names(entries: &[ListedEntry]) -> Vec<String> {
    entries.iter().map(|e| e.name.clone()).collect()
}

#[test]
fn names_are_ordered_character_by_character() {
    assert!(name_before("a", "b"));
    assert!(!name_before("b", "a"));
    assert!(!name_before("same", "same"));
    assert!(name_before("", "a"));
    assert!(!name_before("a", ""));
    assert!(!name_before("", ""));
    assert!(name_before("abc", "abd"));
    assert!(name_before("ab", "abc"));
    assert!(!name_before("abc", "ab"));
    assert!(name_before("Zebra", "apple"));
    assert!(name_before("file10", "file2"));
    assert!(name_before("z", "é"));
    assert!(name_before("é", "日本"));
}

#[test]
fn names_are_ordered_as_strings_are() {
    let samples = [
        "", "a", "A", "ab", "abc", "abd", "b", "B", "_x", ".hidden", "file1", "file10", "file2",
        "é", "e", "日本", "日本語", "z", "~", "😀", "Cargo.toml", "src", "README.md",
    ];
    for a in samples.iter() {
        for b in samples.iter() {
            assert_eq!(name_before(a, b), a < b, "{:?} before {:?}", a, b);
        }
    }
}

#[test]
fn a_directory_is_listed_before_a_file() {
    assert!(entry_before(&dir("zzz"), &file("aaa", "1 B")));
    assert!(!entry_before(&file("aaa", "1 B"), &dir("zzz")));
    assert!(entry_before(&dir("a"), &dir("b")));
    assert!(!entry_before(&dir("b"), &dir("a")));
    assert!(entry_before(&file("a", ""), &file("b", "")));
    assert!(!entry_before(&file("a", "1"), &file("a", "2")));
}

#[test]
fn an_entry_takes_its_place_behind_its_equals() {
    let ordered = vec![dir("b"), dir("d"), file("a", ""), file("c", "")];
    assert_eq!(place_of(&ordered, &dir("a")), 0);
    assert_eq!(place_of(&ordered, &dir("b")), 1);
    assert_eq!(place_of(&ordered, &dir("c")), 1);
    assert_eq!(place_of(&ordered, &dir("e")), 2);
    assert_eq!(place_of(&ordered, &file("a", "")), 3);
    assert_eq!(place_of(&ordered, &file("b", "")), 3);
    assert_eq!(place_of(&ordered, &file("z", "")), 4);
    assert_eq!(place_of(&Vec::new(), &file("z", "")), 0);
}

#[test]
fn entries_are_sorted_directories_first_then_by_name() {
    let entries = vec![
        file("main.rs", "120 B"),
        dir("tests"),
        file("Cargo.toml", "300 B"),
        dir("src"),
        file("a.txt", "1 B"),
        dir(".git"),
    ];
    let ordered = sort_entries(&entries);
    assert_eq!(names(&ordered), vec![".git", "src", "tests", "Cargo.toml", "a.txt", "main.rs"]);
    assert!(ordered[0].is_dir && ordered[1].is_dir && ordered[2].is_dir);
    assert_eq!(ordered[3].size_text, "300 B");
    assert_eq!(ordered[5].size_text, "120 B");
    assert_eq!(entries.len(), 6);
}

#[test]
fn sorting_agrees_with_a_stable_sort() {
    let build = || {
        vec![
            file("b", "first"),
            dir("x"),
            file("a", "1"),
            file("b", "second"),
            dir("c"),
            file("", "0"),
            dir("x"),
            file("B", "2"),
            file("b", "third"),
            file("é", "3"),
        ]
    };
    let ordered = sort_entries(&build());
    let mut expected = build();
    expected.sort_by(|a, b| match (a.is_dir, b.is_dir) {
        (true, false) => std::cmp::Ordering::Less,
        (false, true) => std::cmp::Ordering::Greater,
        _ => a.name.cmp(&b.name),
    });
    assert_eq!(ordered.len(), expected.len());
    for (got, want) in ordered.iter().zip(expected.iter()) {
        assert_eq!(got.name, want.name);
        assert_eq!(got.is_dir, want.is_dir);
        assert_eq!(got.size_text, want.size_text);
    }
}

#[test]
fn sorting_nothing_gives_nothing() {
    assert!(sort_entries(&Vec::new()).is_empty());
    let one = sort_entries(&vec![file("only", "9 B")]);
    assert_eq!(names(&one), vec!["only"]);
}

#[test]
fn sizes_are_worded_by_unit() {
    assert!(matches!(size_unit(0), SizeUnit::Bytes));
    assert!(matches!(size_unit(1023), SizeUnit::Bytes));
    assert!(matches!(size_unit(1024), SizeUnit::Kilobytes));
    assert!(matches!(size_unit(1024 * 1024 - 1), SizeUnit::Kilobytes));
    assert!(matches!(size_unit(1024 * 1024), SizeUnit::Megabytes));
    assert!(matches!(size_unit(1024 * 1024 * 1024 - 1), SizeUnit::Megabytes));
    assert!(matches!(size_unit(1024 * 1024 * 1024), SizeUnit::Gigabytes));
    assert!(matches!(size_unit(u64::MAX), SizeUnit::Gigabytes));
}

#[test]
fn a_size_in_bytes_is_right_aligned() {
    assert_eq!(byte_size_text(0), "       0 B");
    assert_eq!(byte_size_text(512), "     512 B");
    assert_eq!(byte_size_text(1023), "    1023 B");
    assert_eq!(byte_size_text(512), format!("{:>8} B", 512));
    assert_eq!(byte_size_text(123456789), "123456789 B");
}

#[test]
fn an_entry_line_has_mark_size_and_name() {
    assert_eq!(format_entry(&dir("src")), "DIR                src\n");
    assert_eq!(format_entry(&file("a.txt", "     512 B")), "            512 B  a.txt\n");
    assert_eq!(
        format_entry(&file("big.bin", "    1.5 MB")),
        format!("{} {:>12}  {}\n", "    ", "    1.5 MB", "big.bin")
    );
    assert_eq!(
        format_entry(&file("wide", "a size text that is wide")),
        "     a size text that is wide  wide\n"
    );
    // A directory shows no size, whatever it was given.
    let odd = ListedEntry { name: "d".to_string(), is_dir: true, size_text: "9 B".to_string() };
    assert_eq!(format_entry(&odd), format!("{} {:>12}  {}\n", "DIR ", "", "d"));
}

#[test]
fn an_empty_directory_says_so() {
    assert_eq!(list_directory("empty", &Vec::new()), "Directory: empty\n\n(empty directory)\n");
}

#[test]
fn a_directory_is_listed_in_order() {
    let entries = vec![
        file("notes.txt", "     512 B"),
        dir("src"),
        file("Cargo.toml", "    1.2 KB"),
        dir("docs"),
    ];
    let expected = "Directory: project\n\n\
                    DIR                docs\n\
                    DIR                src\n\
                    \x20          1.2 KB  Cargo.toml\n\
                    \x20           512 B  notes.txt\n";
    let worded = format!(
        "Directory: {}\n\n{} {:>12}  {}\n{} {:>12}  {}\n{} {:>12}  {}\n{} {:>12}  {}\n",
        "project", "DIR ", "", "docs", "DIR ", "", "src", "    ", "    1.2 KB", "Cargo.toml",
        "    ", "     512 B", "notes.txt"
    );
    assert_eq!(expected, worded);
    assert_eq!(list_directory("project", &entries), expected);
}

#[test]
fn an_attached_directory_is_one_text_block() {
    let blocks = read_directory("d", &vec![file("f", "       1 B")]);
    assert_eq!(blocks.len(), 1);
    match &blocks[0] {
        ContentBlock::Text { text } => {
            assert_eq!(text, "Directory: d\n\n              1 B  f\n");
        }
        _ => panic!("expected a text block"),
    }
}
