use auravibe::error::{push_decimal, NavigationError};

#[test]
fn display_names_the_page_or_index() {
    let unknown = NavigationError::UnknownPage {
        page_type: "app::Home",
    };
    assert_eq!(unknown.to_string(), "page app::Home is not in this router");
    let range = NavigationError::IndexOutOfRange { index: 9, len: 2 };
    assert_eq!(
        range.to_string(),
        "page index 9 is out of range (the router has 2 pages)"
    );
}

#[test]
fn decimals_are_written_without_leading_zeros() {
    let mut out = String::from("n=");
    push_decimal(&mut out, 0);
    out.push(',');
    push_decimal(&mut out, 1207);
    out.push(',');
    push_decimal(&mut out, usize::MAX);
    assert_eq!(out, format!("n=0,1207,{}", usize::MAX));
}

#[test]
fn a_large_index_is_printed_in_full() {
    let e = NavigationError::IndexOutOfRange { index: 100_000, len: 0 };
    assert_eq!(
        e.to_string(),
        "page index 100000 is out of range (the router has 0 pages)"
    );
}
