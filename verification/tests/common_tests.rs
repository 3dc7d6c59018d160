use aviutl2::common::{
    ensure_minimum_aviutl2_version, format_file_filters, minimum_aviutl2_version,
    registered_effect_name, AviUtl2Version, CWString, FileFilter, Yc48,
};

#[test]
fn test_format_file_filters() {
    let filters = vec![
        FileFilter {
            name: "Image Files".to_string(),
            extensions: vec!["png".to_string(), "jpg".to_string()],
        },
        FileFilter {
            name: "All Files".to_string(),
            extensions: vec![],
        },
    ];
    let formatted = format_file_filters(&filters);
    let expected = "Image Files (.png, .jpg)\x00*.png;*.jpg\x00All Files (*)\x00*\x00";
    assert_eq!(formatted, expected);
}

#[test]
fn test_aviutl2_version() {
    let version = AviUtl2Version::new(2, 0, 15, 0);
    assert_eq!(version.0, 2001500);
    assert_eq!(version.major(), 2);
    assert_eq!(version.minor(), 0);
    assert_eq!(version.patch(), 15);
    assert_eq!(version.build(), 0);

    let version_from_u32: AviUtl2Version = 2001500u32.into();
    assert_eq!(version_from_u32, version);

    let u32_from_version: u32 = version.into();
    assert_eq!(u32_from_version, 2001500);
}

#[test]
fn test_cwstring_new() {
    let s = "Hello, world!";
    let cwstring = CWString::new(s).unwrap();
    assert_eq!(cwstring.to_string_lossy(), s);
    let mut expected: Vec<u16> = s.encode_utf16().collect();
    expected.push(0);
    assert_eq!(cwstring.as_slice(), expected.as_slice());

    let s_with_nul = "Hello\0world!";
    let err = CWString::new(s_with_nul).unwrap_err();
    assert_eq!(err.nul_position(), 5);
}

#[test]
fn cwstring_error_keeps_the_units() {
    let err = CWString::new("a\0b").unwrap_err();
    assert_eq!(err.message(), "String contains null byte");
    assert_eq!(err.into_vec(), vec![0x61, 0, 0x62]);
}

#[test]
fn cwstring_encodes_surrogate_pairs() {
    let w = CWString::new("a\u{1F600}").unwrap();
    assert_eq!(w.as_slice(), &[0x61, 0xD83D, 0xDE00, 0]);
    assert_eq!(w.to_string_lossy(), "a\u{1F600}");
}

#[test]
fn version_parts_round_trip() {
    let v = AviUtl2Version::new(3, 12, 34, 56);
    assert_eq!(v.0, 3123456);
    assert_eq!((v.major(), v.minor(), v.patch(), v.build()), (3, 12, 34, 56));
}

#[test]
fn version_display_text() {
    assert_eq!(AviUtl2Version::new(2, 0, 15, 0).to_display_string(), "2.00beta15");
    assert_eq!(AviUtl2Version::new(2, 0, 30, 1).to_display_string(), "2.00beta30a");
    assert_eq!(AviUtl2Version::new(2, 3, 5, 26).to_display_string(), "2.03beta5z");
    assert_eq!(AviUtl2Version::new(2, 3, 5, 27).to_display_string(), "2.03beta5");
}

#[test]
fn minimum_version_check() {
    assert!(ensure_minimum_aviutl2_version(minimum_aviutl2_version()).is_ok());
    assert!(ensure_minimum_aviutl2_version(AviUtl2Version(2003002)).is_ok());
    let err = ensure_minimum_aviutl2_version(AviUtl2Version(2001500)).unwrap_err();
    assert_eq!(err.version, AviUtl2Version(2001500));
    assert_eq!(
        err.message(),
        "AviUtl2 version 2.00beta15 is not supported. 2.00beta30a or higher is required."
    );
}

#[test]
fn effect_name_in_debug_and_release() {
    assert_eq!(registered_effect_name("Blur", false), "Blur");
    assert_eq!(registered_effect_name("Blur", true), "Blur (Debug)");
}

#[test]
fn yc48_from_yuy2_values() {
    let (a, b) = Yc48::from_yuy2((16, 128, 54, 128));
    assert_eq!(a, Yc48 { y: 0, cb: 0, cr: 0 });
    assert_eq!(b, Yc48 { y: 355, cb: 0, cr: 0 });
    let white = Yc48 { y: 4096, cb: 0, cr: 0 };
    assert_eq!(Yc48::from_yuy2((235, 128, 235, 128)), (white, white));
    let (a, b) = Yc48::from_yuy2((16, 240, 16, 16));
    assert_eq!(a, Yc48 { y: 0, cb: 2048, cr: -2048 });
    assert_eq!(b, a);
    let (a, _) = Yc48::from_yuy2((0, 0, 255, 255));
    assert_eq!(a, Yc48 { y: -299, cb: -2340, cr: 2322 });
}

#[test]
fn yc48_to_yuy2_values() {
    let zero = Yc48 { y: 0, cb: 0, cr: 0 };
    assert_eq!(zero.to_yuy2(Yc48 { y: 100, cb: 0, cr: 0 }), (16, 128, 21, 128));
    let edge = Yc48 { y: 147, cb: 2623, cr: -6729 };
    assert_eq!(edge.to_yuy2(Yc48 { y: -149, cb: 0, cr: 0 }), (23, 255, 8, 0));
    let white = Yc48 { y: 4096, cb: 0, cr: 0 };
    assert_eq!(white.to_yuy2(white), (235, 128, 235, 128));
    let extreme = Yc48 { y: i16::MAX, cb: i16::MIN, cr: i16::MAX };
    assert_eq!(extreme.to_yuy2(Yc48 { y: i16::MIN, cb: 0, cr: 0 }), (255, 0, 0, 255));
}

#[test]
fn yuy2_round_trips_through_yc48() {
    for y in 0..=255u8 {
        for c in [0u8, 16, 100, 128, 200, 240, 255] {
            let (a, b) = Yc48::from_yuy2((y, c, 200, c));
            let (y1, u, _, v) = a.to_yuy2(b);
            assert_eq!((y1, u, v), (y, c, c));
        }
    }
}

#[test]
fn yc48_rgb_values() {
    let zero = Yc48 { y: 0, cb: 0, cr: 0 };
    assert_eq!(zero.from_rgb((0, 0, 0)), zero);
    assert_eq!(zero.from_rgb((3, 2, 1)), Yc48 { y: 35, cb: -11, cr: 9 });
    assert_eq!(zero.from_rgb((255, 255, 255)), Yc48 { y: 4096, cb: 0, cr: 0 });
    assert_eq!(zero.from_rgb((255, 0, 0)), Yc48 { y: 1225, cb: -691, cr: 2048 });
    assert_eq!(zero.to_rgb(), (0, 0, 0));
    assert_eq!(Yc48 { y: 4096, cb: 0, cr: 0 }.to_rgb(), (255, 255, 255));
    assert_eq!(Yc48 { y: 4096, cb: 1024, cr: 0 }.to_rgb(), (255, 233, 255));
    assert_eq!(Yc48 { y: 0, cb: 0, cr: -2048 }.to_rgb(), (0, 91, 0));
    assert_eq!(Yc48 { y: 2048, cb: 100, cr: 1000 }.to_rgb(), (215, 81, 139));
    assert_eq!(Yc48 { y: 1000, cb: 0, cr: -500 }.to_rgb(), (19, 85, 63));
}

#[test]
fn cwstring_clone_keeps_units() {
    let s = CWString::new("abc").unwrap();
    let t = s.clone();
    assert_eq!(t.as_slice(), s.as_slice());
    assert_eq!(t.as_slice(), &[97u16, 98, 99, 0]);
}

#[test]
fn cwstring_round_trips_and_refuses_nul_beyond_the_bmp() {
    let s = "音🎉x";
    let w = CWString::new(s).unwrap();
    assert_eq!(w.to_string_lossy(), s);
    assert_eq!(w.as_slice().len(), 5);
    let err = CWString::new("🎉\0").unwrap_err();
    assert_eq!(err.nul_position(), 2);
    assert_eq!(err.into_vec(), vec![0xD83C, 0xDF89, 0]);
}
