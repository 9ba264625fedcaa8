use agenthost::ex::{Example, Model, MyStruct};
use agenthost::text::{parse_unsigned, str_contains, usize_to_decimal};

#[test]
fn decimals() {
    assert_eq!(usize_to_decimal(0), "0");
    assert_eq!(usize_to_decimal(1024), "1024");
    assert_eq!(usize_to_decimal(usize::MAX), usize::MAX.to_string());
}

#[test]
fn unsigned_parsing() {
    assert_eq!(parse_unsigned("65535", 65535), Some(65535));
    assert_eq!(parse_unsigned("65536", 65535), None);
    assert_eq!(parse_unsigned("007", 65535), Some(7));
    assert_eq!(parse_unsigned("+", 65535), None);
    assert_eq!(parse_unsigned("1 ", 65535), None);
    assert_eq!(parse_unsigned(&usize::MAX.to_string(), usize::MAX), Some(usize::MAX));
}

#[test]
fn contains() {
    assert!(str_contains("abc", "bc"));
    assert!(str_contains("abc", ""));
    assert!(!str_contains("abc", "cd"));
}

#[test]
fn examples() {
    assert_eq!(Example::new(5).value, 10);
    let s = MyStruct::new(3);
    assert_eq!((s.x, s.y), (3, 0));
    let t = MyStruct::new_with_y(3, 4);
    assert_eq!((t.x, t.y), (3, 4));
    assert_eq!(Model::new("m".to_string()).name, "m");
}
