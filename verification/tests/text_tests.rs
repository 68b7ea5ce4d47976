use brewman::text::{
    chars_lt, chars_of, join_strings, push_i32, push_usize, str_contains, trim_str,
};

fn decimal(n: usize) -> String {
    let mut s = String::new();
    push_usize(&mut s, n);
    s
}

#[test]
fn decimal_numbers() {
    assert_eq!(decimal(0), "0");
    assert_eq!(decimal(7), "7");
    assert_eq!(decimal(1234567890), "1234567890");
    assert_eq!(decimal(usize::MAX), usize::MAX.to_string());
    let mut s = String::from("x");
    push_i32(&mut s, i32::MIN);
    assert_eq!(s, "x-2147483648");
}

#[test]
fn trimming() {
    assert_eq!(trim_str("  a b \t\n"), "a b");
    assert_eq!(trim_str("\u{3000}x\u{a0}"), "x");
    assert_eq!(trim_str("   "), "");
    assert_eq!(trim_str(""), "");
}

#[test]
fn searching() {
    assert!(str_contains("Upgrade failed (see)", "failed"));
    assert!(str_contains("Error: x", "Error"));
    assert!(!str_contains("all good", "Error"));
    assert!(str_contains("abc", ""));
    assert!(!str_contains("ab", "abc"));
}

#[test]
fn joining() {
    let v = vec!["a".to_string(), "b".to_string(), "c".to_string()];
    assert_eq!(join_strings(&v, ", "), "a, b, c");
    assert_eq!(join_strings(&vec![], ", "), "");
    assert_eq!(join_strings(&vec!["x".to_string()], ", "), "x");
}

#[test]
fn order_of_names() {
    let a = chars_of("abc");
    let b = chars_of("abd");
    let p = chars_of("ab");
    assert!(chars_lt(&a, &b));
    assert!(!chars_lt(&b, &a));
    assert!(chars_lt(&p, &a));
    assert!(!chars_lt(&a, &a));
    assert!(chars_lt(&chars_of("Z"), &chars_of("a")));
}

#[test]
fn characters_in_order() {
    let v = chars_of("héllo → x");
    assert_eq!(v.len(), 9);
    assert_eq!(v[1], 'é');
    assert_eq!(v.iter().collect::<String>(), "héllo → x");
}
