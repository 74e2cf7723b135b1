use sanzu_ffmpeg::codec::{codec_id_from_raw, CodecDescriptor};
use sanzu_ffmpeg::error::{push_int_decimal, HelperError};
use sanzu_ffmpeg::frame::{PlaneTable, NUM_PLANES};
use sanzu_ffmpeg::handle::NativeHandle;
use sanzu_ffmpeg::status::{check_c_text, check_option_text, make_writable_result, set_option_result};
use sanzu_ffmpeg::translate::{describe_status, first_nul, DESCRIPTION_BUF_LEN};

fn filled_buffer(text: &[u8]) -> Vec<u8> {
    let mut buf = vec![0u8; DESCRIPTION_BUF_LEN];
    buf[..text.len()].copy_from_slice(text);
    buf
}

#[test]
fn decimal_text_of_codes() {
    let cases: [(i32, &str); 6] = [
        (0, "0"),
        (7, "7"),
        (27, "27"),
        (-22, "-22"),
        (i32::MAX, "2147483647"),
        (i32::MIN, "-2147483648"),
    ];
    for (n, want) in cases {
        let mut s = String::from("x=");
        push_int_decimal(&mut s, n);
        assert_eq!(s, format!("x={}", want));
    }
}

#[test]
fn message_of_each_variant() {
    let e = HelperError::AllocationFailed { routine: "av_packet_alloc".to_string() };
    assert_eq!(e.message(), "Error in av_packet_alloc");
    let e = HelperError::LookupFailed { name: "h265x".to_string() };
    assert_eq!(e.message(), "CodecNotFound: h265x");
    assert_eq!(HelperError::EncodingFailed.message(), "Error in CString");
    let e = HelperError::NativeStatus {
        label: "set_option".to_string(),
        code: -22,
        description: Some("Invalid argument".to_string()),
    };
    assert_eq!(e.message(), "EncoderError set_option Invalid argument");
    let e = HelperError::NativeStatus { label: "set_option".to_string(), code: -22, description: None };
    assert_eq!(e.message(), "set_option Undefined error -22");
}

#[test]
fn translator_uses_description_when_lookup_succeeds() {
    let buf = filled_buffer(b"Invalid argument");
    let e = describe_status("set_option", -22, 0, &buf);
    match &e {
        HelperError::NativeStatus { label, code, description } => {
            assert_eq!(label, "set_option");
            assert_eq!(*code, -22);
            assert_eq!(description.as_deref(), Some("Invalid argument"));
        }
        other => panic!("unexpected {:?}", other),
    }
    let text = e.message();
    assert!(text.contains("set_option"));
    assert!(text.contains("Invalid argument"));
}

#[test]
fn translator_falls_back_to_raw_code() {
    let buf = filled_buffer(b"Error number -1234567 occurred");
    let e = describe_status("av_frame_make", -1234567, -22, &buf);
    assert!(matches!(e, HelperError::NativeStatus { description: None, .. }));
    let text = e.message();
    assert_eq!(text, "av_frame_make Undefined error -1234567");
    assert!(!text.is_empty());
}

#[test]
fn translator_falls_back_without_terminator() {
    let buf = vec![b'a'; DESCRIPTION_BUF_LEN];
    let e = describe_status("set_option", -1, 0, &buf);
    assert_eq!(e.message(), "set_option Undefined error -1");
}

#[test]
fn translator_replaces_invalid_utf8() {
    let buf = filled_buffer(&[b'o', b'k', 0xff, b'!']);
    let e = describe_status("set_option", -5, 0, &buf);
    match e {
        HelperError::NativeStatus { description: Some(d), .. } => assert_eq!(d, "ok\u{fffd}!"),
        other => panic!("unexpected {:?}", other),
    }
}

#[test]
fn first_nul_positions() {
    assert_eq!(first_nul(b""), None);
    assert_eq!(first_nul(b"abc"), None);
    assert_eq!(first_nul(b"\0abc"), Some(0));
    assert_eq!(first_nul(b"ab\0c\0"), Some(2));
}

#[test]
fn c_text_rejects_embedded_nul() {
    assert!(check_c_text("preset").is_ok());
    assert!(check_c_text("").is_ok());
    assert!(matches!(check_c_text("pre\0set"), Err(HelperError::EncodingFailed)));
    assert!(matches!(check_option_text("pre\0set", "fast"), Err(HelperError::EncodingFailed)));
    assert!(matches!(check_option_text("preset", "fa\0st"), Err(HelperError::EncodingFailed)));
    assert!(check_option_text("preset", "fast").is_ok());
}

#[test]
fn option_status_rules() {
    let buf = filled_buffer(b"Option not found");
    assert!(set_option_result(0, 0, &buf).is_ok());
    match set_option_result(-1414549496, 0, &buf) {
        Err(HelperError::NativeStatus { label, code, description }) => {
            assert_eq!(label, "set_option");
            assert_eq!(code, -1414549496);
            assert_eq!(description.as_deref(), Some("Option not found"));
        }
        other => panic!("unexpected {:?}", other),
    }
    assert!(set_option_result(1, 0, &buf).is_err());
}

#[test]
fn make_writable_status_rules() {
    let buf = filled_buffer(b"Cannot allocate memory");
    assert!(make_writable_result(0, 0, &buf).is_ok());
    assert!(make_writable_result(3, 0, &buf).is_ok());
    match make_writable_result(-12, 0, &buf) {
        Err(e) => assert_eq!(e.message(), "EncoderError av_frame_make Cannot allocate memory"),
        Ok(()) => panic!("negative status accepted"),
    }
}

#[test]
fn null_allocation_gives_no_handle() {
    for routine in ["avcodec_alloc_context3", "av_packet_alloc", "av_frame_alloc", "av_parser_init"] {
        match NativeHandle::from_alloc(0, routine) {
            Err(e) => assert_eq!(e.message(), format!("Error in {}", routine)),
            Ok(h) => panic!("handle from null: {:?}", h),
        }
    }
}

#[test]
fn handle_released_exactly_once() {
    let mut h = NativeHandle::from_alloc(0x7f00_1000, "av_frame_alloc").unwrap();
    assert!(h.is_live());
    assert_eq!(h.addr(), 0x7f00_1000);
    assert_eq!(h.take_for_release(), Some(0x7f00_1000));
    assert!(!h.is_live());
    assert_eq!(h.take_for_release(), None);
    assert_eq!(h.take_for_release(), None);
}

#[test]
fn codec_id_sign_extension() {
    assert_eq!(codec_id_from_raw(27), 27);
    assert_eq!(codec_id_from_raw(0), 0);
    assert_eq!(codec_id_from_raw(32767), 32767);
    assert_eq!(codec_id_from_raw(32768), -32768);
    assert_eq!(codec_id_from_raw(65535), -1);
    assert_eq!(codec_id_from_raw(65536 + 27), 27);
    assert_eq!(codec_id_from_raw(70000), 4464);
    assert_eq!(codec_id_from_raw(-1), -1);
    assert_eq!(codec_id_from_raw(i32::MIN), 0);
    for raw in [-70000i32, 86018, 0x15000, 123456789] {
        assert_eq!(codec_id_from_raw(raw), raw as i16 as i32);
    }
}

#[test]
fn codec_lookup_outcomes() {
    let c = CodecDescriptor::from_lookup("h264", 0x5000, 27).unwrap();
    assert_eq!(c.id(), 27);
    assert_eq!(c.addr(), 0x5000);
    match CodecDescriptor::from_lookup("no_such_codec", 0, 0) {
        Err(HelperError::LookupFailed { name }) => assert_eq!(name, "no_such_codec"),
        other => panic!("unexpected {:?}", other),
    }
    assert!(CodecDescriptor::check_name("libx264").is_ok());
    assert!(matches!(CodecDescriptor::check_name("x\0"), Err(HelperError::EncodingFailed)));
}

#[test]
fn plane_table_single_plane_assignment() {
    assert!(PlaneTable::from_parts(vec![0; 4], vec![0; NUM_PLANES]).is_none());
    let data: Vec<usize> = (1..=8).map(|i| i * 0x100).collect();
    let lines: Vec<i32> = (1..=8).collect();
    let mut t = PlaneTable::from_parts(data, lines).unwrap();
    t.assign_single_plane(0xabc0, 7680);
    assert_eq!(t.data(), &vec![0xabc0, 0, 0, 0x400, 0x500, 0x600, 0x700, 0x800]);
    assert_eq!(t.linesize(), &vec![7680, 0, 0, 4, 5, 6, 7, 8]);
    assert_eq!(t.plane_span(0, 1920), (0xabc0, 1920));
    assert_eq!(t.plane_span(5, 16), (0x600, 16));
}

#[test]
fn encoder_context_option_scenario() {
    CodecDescriptor::check_name("h264").unwrap();
    let codec = CodecDescriptor::from_lookup("h264", 0x1000, 27).unwrap();
    assert_eq!(codec.id(), 27);
    let mut ctx = NativeHandle::from_alloc(0x2000, "avcodec_alloc_context3").unwrap();
    check_option_text("preset", "fast").unwrap();
    let buf = vec![0u8; DESCRIPTION_BUF_LEN];
    set_option_result(0, 0, &buf).unwrap();
    let mut frees = 0;
    while let Some(addr) = ctx.take_for_release() {
        assert_eq!(addr, 0x2000);
        frees += 1;
    }
    assert_eq!(frees, 1);
}
