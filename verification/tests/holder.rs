use once_option::OnceOption;

#[test]
fn construction_reports_presence() {
    let full: OnceOption<u32> = OnceOption(1912);
    assert!(full.is_some());
    assert!(!full.is_none());

    let empty: OnceOption<u32> = OnceOption::empty();
    assert!(!empty.is_some());
    assert!(empty.is_none());

    let defaulted: OnceOption<u32> = OnceOption::default();
    assert!(defaulted.is_none());
}

#[test]
fn take_removes_the_value() {
    let mut x = OnceOption(2);
    let y: i32 = x.take();
    assert!(x.is_none());
    assert_eq!(y, 2);
}

#[test]
fn expect_returns_the_value() {
    let x = OnceOption("value");
    assert_eq!(x.expect("fruits are healthy"), "value");
}

#[test]
fn expect_none_on_empty_returns() {
    let x: OnceOption<u32> = OnceOption::empty();
    x.expect_none("holder should be empty");
}

#[test]
fn unwrap_returns_the_value() {
    let x = OnceOption(67u8);
    assert_eq!(x.unwrap(), 67);
}

#[test]
fn replace_swaps_and_returns_old() {
    let mut x = OnceOption(2);
    let old: i32 = x.replace(5);
    assert_eq!(old, 2);
    assert!(x.is_some());
    assert_eq!(x.take(), 5);
}

#[test]
fn conversion_from_option() {
    let full: OnceOption<u8> = Some(67u8).into();
    assert!(full.is_some());
    assert_eq!(*full.deref(), 67);

    let empty: OnceOption<u8> = OnceOption::from(None);
    assert!(empty.is_none());
}

#[test]
fn conversion_from_value() {
    let o: OnceOption<u8> = 67.into();
    assert_eq!(*o.deref(), 67);
}

#[test]
fn full_lifecycle() {
    let mut x = OnceOption(2);
    assert_eq!(*x.deref(), 2);
    let old: i32 = x.replace(5);
    assert_eq!(old, 2);
    assert_eq!(x.take(), 5);
    assert!(x.is_none());
}

#[test]
fn hash_key_usable() {
    let mut m = std::collections::HashMap::new();
    m.insert(OnceOption(1u32), "one");
    m.insert(OnceOption::<u32>::empty(), "none");
    assert_eq!(m.get(&OnceOption(1u32)), Some(&"one"));
    assert_eq!(m.get(&OnceOption::<u32>::empty()), Some(&"none"));
}
