use pdf_writer::{Destination, FileSpec, Name, Obj, Real, Ref, Str};

#[test]
fn empty_dictionary_closes_at_once() {
    let mut buf = Vec::new();
    Obj::new(&mut buf).begin_dict().finish();
    assert_eq!(buf, b"<<>>");
}

#[test]
fn pairs_stand_in_call_order() {
    let mut buf = Vec::new();
    let mut dict = Obj::new(&mut buf).begin_dict();
    dict.pair(Name(b"B"), 2).pair(Name(b"A"), true).pair(Name(b"C"), Str(b"x"));
    dict.finish();
    assert_eq!(buf, b"<<\n  /B 2\n  /A true\n  /C (x)\n>>");
}

#[test]
fn closing_delimiter_is_written_once() {
    for n in 0..5 {
        let mut buf = Vec::new();
        let mut dict = Obj::new(&mut buf).begin_dict();
        for i in 0..n {
            dict.pair(Name(b"K"), i);
        }
        dict.finish();
        let closers = buf.windows(2).filter(|w| w == b">>").count();
        assert_eq!(closers, 1);
        assert!(buf.ends_with(b">>"));
    }
}

#[test]
fn duplicate_keys_are_kept() {
    let mut buf = Vec::new();
    let mut dict = Obj::new(&mut buf).begin_dict();
    dict.pair(Name(b"D"), 1).pair(Name(b"D"), 2);
    dict.finish();
    assert_eq!(buf, b"<<\n  /D 1\n  /D 2\n>>");
}

#[test]
fn pairs_from_a_slice() {
    let mut buf = b"x".to_vec();
    let mut dict = Obj::new(&mut buf).begin_dict();
    dict.pairs(&[(Name(b"First"), 1), (Name(b"Second"), -2), (Name(b"Third"), 3)]);
    dict.pair(Name(b"Last"), false);
    dict.finish();
    assert_eq!(buf, b"x<<\n  /First 1\n  /Second -2\n  /Third 3\n  /Last false\n>>");
}

#[test]
fn no_pairs_from_an_empty_slice() {
    let mut buf = Vec::new();
    let mut dict = Obj::new(&mut buf).begin_dict();
    let none: [(Name, i32); 0] = [];
    dict.pairs(&none);
    dict.finish();
    assert_eq!(buf, b"<<>>");
}

#[test]
fn scalar_through_a_key_then_more_pairs() {
    let mut buf = Vec::new();
    let mut dict = Obj::new(&mut buf).begin_dict();
    dict.key(Name(b"Name")).write_scalar(Name(b"Value"));
    dict.pair(Name(b"After"), 1);
    dict.finish();
    assert_eq!(buf, b"<<\n  /Name /Value\n  /After 1\n>>");
    let nested = buf.windows(6).position(|w| w == b"/Value").unwrap();
    let later = buf.windows(6).position(|w| w == b"/After").unwrap();
    assert!(nested + 6 <= later);
}

#[test]
fn nested_dictionaries_indent_by_two() {
    let mut buf = Vec::new();
    let mut outer = Obj::new(&mut buf).begin_dict();
    outer.pair(Name(b"A"), 1);
    let mut inner = outer.key(Name(b"B")).begin_dict();
    inner.pair(Name(b"C"), 2);
    inner.key(Name(b"D")).begin_dict().finish();
    inner.finish();
    outer.pair(Name(b"E"), 3);
    outer.finish();
    assert_eq!(
        buf,
        b"<<\n  /A 1\n  /B <<\n    /C 2\n    /D <<>>\n  >>\n  /E 3\n>>"
    );
}

#[test]
fn cursor_at_an_indentation() {
    let mut buf = Vec::new();
    let mut dict = Obj::direct(&mut buf, 4).begin_dict();
    dict.pair(Name(b"K"), 0);
    dict.finish();
    assert_eq!(buf, b"<<\n      /K 0\n    >>");
}

#[test]
fn indentation_stops_at_255() {
    let mut buf = Vec::new();
    let mut dict = Obj::direct(&mut buf, 254).begin_dict();
    dict.key(Name(b"K")).begin_dict().finish();
    dict.finish();
    let mut expected = b"<<\n".to_vec();
    expected.extend(vec![b' '; 255]);
    expected.extend(b"/K <<>>\n");
    expected.extend(vec![b' '; 254]);
    expected.extend(b">>");
    assert_eq!(buf, expected);

    let mut deep = Vec::new();
    let mut dict = Obj::direct(&mut deep, 255).begin_dict();
    dict.pair(Name(b"K"), 1);
    dict.finish();
    let mut expected = b"<<\n".to_vec();
    expected.extend(vec![b' '; 255]);
    expected.extend(b"/K 1\n");
    expected.extend(vec![b' '; 255]);
    expected.extend(b">>");
    assert_eq!(deep, expected);
}

#[test]
fn arrays_separate_items_by_a_space() {
    let mut buf = Vec::new();
    Obj::new(&mut buf).begin_array().finish();
    assert_eq!(buf, b"[]");

    let mut buf = Vec::new();
    let mut array = Obj::new(&mut buf).begin_array();
    array.item(1).item(Name(b"N")).item(Ref::new(4));
    array.push().begin_array().finish();
    array.push().write_scalar(true);
    array.finish();
    assert_eq!(buf, b"[1 /N 4 0 R [] true]");
}

#[test]
fn dictionary_inside_an_array() {
    let mut buf = Vec::new();
    let mut array = Obj::new(&mut buf).begin_array();
    let mut dict = array.push().begin_dict();
    dict.pair(Name(b"K"), 1);
    dict.finish();
    array.finish();
    assert_eq!(buf, b"[<<\n  /K 1\n>>]");
}

#[test]
fn destination_fit() {
    let mut buf = Vec::new();
    Destination::start(Obj::new(&mut buf), Ref::new(3)).fit();
    assert_eq!(buf, b"[3 0 R /Fit]");
}

#[test]
fn destination_xyz() {
    let mut buf = Vec::new();
    Destination::start(Obj::new(&mut buf), Ref::new(12)).xyz(
        Real::parse(b"10.5").unwrap(),
        Real::parse(b"-20").unwrap(),
        Real::parse(b"1.25"),
    );
    assert_eq!(buf, b"[12 0 R /XYZ 10.5 -20 1.25]");

    let mut buf = Vec::new();
    Destination::start(Obj::new(&mut buf), Ref::new(1)).xyz(
        Real::parse(b"0").unwrap(),
        Real::parse(b"792").unwrap(),
        None,
    );
    assert_eq!(buf, b"[1 0 R /XYZ 0 792 0]");
}

#[test]
fn file_specification() {
    let mut buf = Vec::new();
    let mut file = FileSpec::new(Obj::new(&mut buf));
    file.file_system(Name(b"URL")).path(Str(b"a (1).pdf")).volatile(true);
    file.finish();
    assert_eq!(
        buf,
        b"<<\n  /Type /Filespec\n  /FS /URL\n  /F (a \\(1\\).pdf)\n  /V true\n>>"
    );
}
