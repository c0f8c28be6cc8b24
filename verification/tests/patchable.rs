use derive_patch::patchable::PatchableField;

#[test]
fn patchable_compare() {
    assert!(!12u8.compare(&6u8));
    assert!(4u8.compare(&4u8));
}

#[test]
fn compare_is_exact_on_scalars() {
    assert!((-3i64).compare(&-3i64));
    assert!(!(-3i64).compare(&3i64));
    assert!(u128::MAX.compare(&u128::MAX));
    assert!(!true.compare(&false));
    assert!('a'.compare(&'a'));
    assert!(!'a'.compare(&'b'));
}

#[test]
fn compare_on_strings() {
    assert!(String::from("abc").compare(&String::from("abc")));
    assert!(!String::from("abc").compare(&String::from("abd")));
    assert!(!String::from("abc").compare(&String::from("ab")));
    assert!(String::new().compare(&String::new()));
}

#[test]
fn compare_on_options_and_results() {
    assert!(Some(3u8).compare(&Some(3u8)));
    assert!(!Some(3u8).compare(&Some(4u8)));
    assert!(!Some(3u8).compare(&None));
    assert!(None::<u8>.compare(&None));
    let ok: Result<u8, String> = Ok(1);
    let other_ok: Result<u8, String> = Ok(2);
    let err: Result<u8, String> = Err(String::from("e"));
    assert!(ok.compare(&Ok(1)));
    assert!(!ok.compare(&other_ok));
    assert!(!ok.compare(&err));
    assert!(err.compare(&Err(String::from("e"))));
    assert!(!err.compare(&Err(String::from("f"))));
}

#[test]
fn compare_on_vectors() {
    assert!(vec![1u32, 2, 3].compare(&vec![1u32, 2, 3]));
    assert!(!vec![1u32, 2, 3].compare(&vec![1u32, 2, 4]));
    assert!(!vec![1u32, 2, 3].compare(&vec![1u32, 2]));
    assert!(!vec![1u32, 2].compare(&vec![1u32, 2, 3]));
    assert!(Vec::<u32>::new().compare(&Vec::new()));
}

#[test]
fn compare_on_tuples() {
    assert!((1u8, 'x').compare(&(1u8, 'x')));
    assert!(!(1u8, 'x').compare(&(1u8, 'y')));
    assert!(!(1u8, 'x').compare(&(2u8, 'x')));
    assert!((1u8, 'x', true).compare(&(1u8, 'x', true)));
    assert!(!(1u8, 'x', true).compare(&(1u8, 'x', false)));
    assert!((1u8, 'x', true, 7i16).compare(&(1u8, 'x', true, 7i16)));
    assert!(!(1u8, 'x', true, 7i16).compare(&(1u8, 'x', true, 8i16)));
}

#[test]
fn copy_gives_an_equal_value() {
    assert_eq!(17u16.copy(), 17u16);
    assert_eq!(String::from("abc").copy(), String::from("abc"));
    assert_eq!(Some(String::from("x")).copy(), Some(String::from("x")));
    assert_eq!(None::<u8>.copy(), None);
    assert_eq!(vec![1u8, 2, 3].copy(), vec![1u8, 2, 3]);
    assert_eq!((1u8, String::from("a")).copy(), (1u8, String::from("a")));
    let ok: Result<u8, char> = Ok(4);
    assert_eq!(ok.copy(), Ok(4));
    let err: Result<u8, char> = Err('e');
    assert_eq!(err.copy(), Err('e'));
}

#[test]
fn copy_is_independent_of_its_source() {
    let source = vec![String::from("a"), String::from("b")];
    let mut twin = source.copy();
    twin.push(String::from("c"));
    assert_eq!(source.len(), 2);
    assert_eq!(twin.len(), 3);
}

#[test]
fn debug_text_of_integers() {
    assert_eq!(0u8.debug_text(), "0");
    assert_eq!(255u8.debug_text(), "255");
    assert_eq!((-128i8).debug_text(), "-128");
    assert_eq!(65535u16.debug_text(), "65535");
    assert_eq!((-7i16).debug_text(), "-7");
    assert_eq!(4294967295u32.debug_text(), "4294967295");
    assert_eq!((-2147483648i32).debug_text(), "-2147483648");
    assert_eq!(u64::MAX.debug_text(), "18446744073709551615");
    assert_eq!(i64::MIN.debug_text(), "-9223372036854775808");
    assert_eq!(u128::MAX.debug_text(), "340282366920938463463374607431768211455");
    assert_eq!(i128::MIN.debug_text(), "-170141183460469231731687303715884105728");
    assert_eq!(i128::MAX.debug_text(), "170141183460469231731687303715884105727");
    assert_eq!(10usize.debug_text(), "10");
    assert_eq!((-10isize).debug_text(), "-10");
}

#[test]
fn debug_text_of_scalars_and_strings() {
    assert_eq!(true.debug_text(), "true");
    assert_eq!(false.debug_text(), "false");
    assert_eq!('a'.debug_text(), "'a'");
    assert_eq!('\n'.debug_text(), "'\\n'");
    assert_eq!('\''.debug_text(), "'\\''");
    assert_eq!(String::from("abc").debug_text(), "\"abc\"");
    assert_eq!(String::new().debug_text(), "\"\"");
    assert_eq!(String::from("a\"b\n").debug_text(), "\"a\\\"b\\n\"");
}

#[test]
fn debug_text_of_compound_values() {
    assert_eq!(Some(1u8).debug_text(), "Some(1)");
    assert_eq!(None::<u8>.debug_text(), "None");
    assert_eq!(Some(Some(String::from("x"))).debug_text(), "Some(Some(\"x\"))");
    let ok: Result<i8, char> = Ok(-1);
    let err: Result<i8, char> = Err('e');
    assert_eq!(ok.debug_text(), "Ok(-1)");
    assert_eq!(err.debug_text(), "Err('e')");
    assert_eq!(Vec::<u8>::new().debug_text(), "[]");
    assert_eq!(vec![7u8].debug_text(), "[7]");
    assert_eq!(vec![1u8, 2, 3].debug_text(), "[1, 2, 3]");
    assert_eq!(vec![vec![1u8], vec![], vec![2, 3]].debug_text(), "[[1], [], [2, 3]]");
    assert_eq!((1u8, 'x').debug_text(), "(1, 'x')");
    assert_eq!((1u8, 'x', true).debug_text(), "(1, 'x', true)");
    assert_eq!((1u8, 'x', true, -4i64).debug_text(), "(1, 'x', true, -4)");
}

#[test]
fn debug_text_is_what_the_debug_format_prints() {
    let a = vec![Some(String::from("a\tb")), None, Some(String::new())];
    assert_eq!(a.debug_text(), format!("{:?}", a));
    let b: (Result<u8, String>, Vec<(i32, char)>, bool) =
        (Err(String::from("no")), vec![(-1, 'q'), (2, '\u{e9}')], false);
    assert_eq!(b.debug_text(), format!("{:?}", b));
    let c: Option<(u128, i128, usize, isize)> = Some((u128::MAX, i128::MIN, 0, -1));
    assert_eq!(c.debug_text(), format!("{:?}", c));
    let d: Vec<Vec<Option<bool>>> = vec![vec![], vec![Some(true), None]];
    assert_eq!(d.debug_text(), format!("{:?}", d));
}
