use gitup::order::{sorted_names, str_less};

#[test]
fn strings_compare_lexicographically() {
    assert!(str_less("apple", "banana"));
    assert!(!str_less("banana", "apple"));
    assert!(str_less("work", "work2"));
    assert!(!str_less("work", "work"));
    assert!(str_less("", "a"));
    assert!(!str_less("a", ""));
    assert!(str_less("Zed", "alpha"));
    assert!(str_less("z", "é"));
}

#[test]
fn names_come_out_sorted() {
    let names: Vec<String> = ["work", "personal", "alt", "work2", "Open", "é"].iter().map(|s| s.to_string()).collect();
    let mut expected = names.clone();
    expected.sort();
    assert_eq!(sorted_names(&names), expected);
    assert_eq!(sorted_names(&Vec::new()), Vec::<String>::new());
}
