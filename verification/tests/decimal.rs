use rocksdb::decimal::push_decimal;

fn render(n: usize) -> String {
    let mut s = String::new();
    push_decimal(&mut s, n);
    s
}

#[test]
fn decimal_of_small_and_large_numbers() {
    assert_eq!(render(0), "0");
    assert_eq!(render(7), "7");
    assert_eq!(render(10), "10");
    assert_eq!(render(32), "32");
    assert_eq!(render(1234567), "1234567");
    assert_eq!(render(usize::MAX), usize::MAX.to_string());
}

#[test]
fn decimal_appends_after_existing_text() {
    let mut s = String::from("got ");
    push_decimal(&mut s, 905);
    assert_eq!(s, "got 905");
}
