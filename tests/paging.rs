use elodon::paging::{lines_of, split_pages, turn_page, PageButton};

#[test]
fn lines_split_at_newlines() {
    assert_eq!(lines_of("a\nb"), vec!["a", "b"]);
    assert_eq!(lines_of(""), vec![""]);
    assert_eq!(lines_of("a\n"), vec!["a", ""]);
    assert_eq!(lines_of("\n\n"), vec!["", "", ""]);
}

#[test]
fn pages_of_two_lines() {
    assert_eq!(split_pages("1\n2\n3\n4\n5", 2), vec!["1\n2", "3\n4", "5"]);
    assert_eq!(split_pages("1\n2\n", 2), vec!["1\n2"]);
    assert_eq!(split_pages("", 3), Vec::<String>::new());
    assert_eq!(split_pages("only", 27), vec!["only"]);
}

#[test]
fn page_turning_wraps() {
    assert_eq!(turn_page(0, 3, PageButton::Next, true), 1);
    assert_eq!(turn_page(2, 3, PageButton::Next, true), 0);
    assert_eq!(turn_page(0, 3, PageButton::Previous, true), 2);
    assert_eq!(turn_page(2, 3, PageButton::Previous, true), 1);
    assert_eq!(turn_page(1, 3, PageButton::Other, true), 1);
    assert_eq!(turn_page(1, 3, PageButton::Next, false), 1);
}
