use base64::Engine;
use clubhouse::capture::{encode_pixels, transport_text, CaptureSession, RawImage, Report, Task};
use clubhouse::store::Target;

fn image_file(raw: RawImage) -> Vec<u8> {
    let session = CaptureSession::for_screen().on(Report::Captured(raw)).on(Report::StoreReady(1));
    match session.pending() {
        Task::WriteFile { bytes, .. } => bytes.clone(),
        other => panic!("asked for {:?}", other),
    }
}

fn text_in_result(bytes: Vec<u8>) -> String {
    let session = CaptureSession::with_encoding(Target::Screen, Ok(bytes))
        .on(Report::StoreReady(1))
        .on(Report::Written(String::from("p")))
        .on(Report::Recognized(String::from("t")));
    match session.into_outcome() {
        Some(Ok(result)) => result.image_base64,
        _ => panic!("the capture did not succeed"),
    }
}

#[test]
fn image_file_is_a_png() {
    let file = image_file(RawImage { width: 1, height: 1, rgba: vec![1, 2, 3, 4] });
    assert_eq!(&file[..8], &[137, 80, 78, 71, 13, 10, 26, 10]);
    assert_ne!(file, vec![1, 2, 3, 4]);
    assert_eq!(image::guess_format(&file).unwrap(), image::ImageFormat::Png);
}

#[test]
fn image_file_keeps_every_pixel() {
    let rgba: Vec<u8> = vec![
        255, 0, 0, 255, 0, 255, 0, 255, 0, 0, 255, 255,
        10, 20, 30, 40, 0, 0, 0, 0, 255, 255, 255, 1,
    ];
    let file = image_file(RawImage { width: 3, height: 2, rgba: rgba.clone() });
    let decoded = image::load_from_memory(&file).unwrap();
    assert_eq!(decoded.width(), 3);
    assert_eq!(decoded.height(), 2);
    assert_eq!(decoded.color(), image::ColorType::Rgba8);
    assert_eq!(decoded.into_rgba8().into_raw(), rgba);
}

#[test]
fn image_file_is_the_same_for_the_same_pixels() {
    let first = image_file(RawImage { width: 2, height: 2, rgba: vec![9; 16] });
    let second = image_file(RawImage { width: 2, height: 2, rgba: vec![9; 16] });
    assert_eq!(first, second);
    let other = image_file(RawImage { width: 2, height: 2, rgba: vec![8; 16] });
    assert_ne!(first, other);
}

#[test]
fn transport_text_is_padded_standard_base64() {
    assert_eq!(text_in_result(vec![b'M']), "TQ==");
    assert_eq!(text_in_result(vec![b'M', b'a']), "TWE=");
    assert_eq!(text_in_result(vec![b'M', b'a', b'n']), "TWFu");
    assert_eq!(text_in_result(b"hello world~".to_vec()), "aGVsbG8gd29ybGR+");
    assert_eq!(text_in_result(vec![0xfb, 0xff]), "+/8=");
}

#[test]
fn transport_text_has_four_characters_for_every_three_bytes_begun() {
    for len in 1usize..40 {
        let text = text_in_result(vec![0xa5; len]);
        assert_eq!(text.len(), 4 * ((len + 2) / 3));
    }
}

#[test]
fn transport_text_decodes_to_the_image_file() {
    let raw = RawImage { width: 2, height: 1, rgba: vec![1, 2, 3, 4, 5, 6, 7, 8] };
    let session = CaptureSession::for_screen().on(Report::Captured(raw)).on(Report::StoreReady(1));
    let written: Vec<u8> = match session.pending() {
        Task::WriteFile { bytes, .. } => bytes.clone(),
        other => panic!("asked for {:?}", other),
    };
    let session = session
        .on(Report::Written(String::from("p")))
        .on(Report::Recognized(String::from("t")));
    let result = match session.into_outcome() {
        Some(Ok(result)) => result,
        _ => panic!("the capture did not succeed"),
    };
    let decoded = base64::engine::general_purpose::STANDARD.decode(&result.image_base64).unwrap();
    assert_eq!(decoded, written);
    let pixels = image::load_from_memory(&decoded).unwrap().into_rgba8().into_raw();
    assert_eq!(pixels, vec![1, 2, 3, 4, 5, 6, 7, 8]);
}

#[test]
fn transport_text_of_given_bytes() {
    assert_eq!(transport_text(&Vec::new()), Some(String::new()));
    assert_eq!(transport_text(&vec![0]), Some(String::from("AA==")));
    assert_eq!(transport_text(&b"Man".to_vec()), Some(String::from("TWFu")));
    assert_eq!(transport_text(&vec![255, 255, 255, 255]), Some(String::from("/////w==")));
}

#[test]
fn encode_pixels_of_a_whole_buffer_gives_a_png() {
    let encoded = encode_pixels(RawImage { width: 1, height: 2, rgba: vec![7; 8] });
    match encoded {
        Some(Ok(file)) => {
            assert_eq!(&file[..8], &[137, 80, 78, 71, 13, 10, 26, 10]);
            let decoded = image::load_from_memory(&file).unwrap();
            assert_eq!((decoded.width(), decoded.height()), (1, 2));
            assert_eq!(decoded.into_rgba8().into_raw(), vec![7; 8]);
        },
        other => panic!("encoded as {:?}", other),
    }
}

#[test]
fn encode_pixels_of_a_misshapen_buffer_gives_nothing() {
    assert_eq!(encode_pixels(RawImage { width: 1, height: 2, rgba: vec![7; 7] }), None);
    assert_eq!(encode_pixels(RawImage { width: 1, height: 2, rgba: vec![7; 9] }), None);
    assert_eq!(encode_pixels(RawImage { width: 0, height: 2, rgba: vec![7; 8] }), None);
    assert_eq!(encode_pixels(RawImage { width: 65536, height: 65536, rgba: Vec::new() }), None);
}

#[test]
fn encode_pixels_without_pixels_is_refused() {
    for (width, height) in [(0u32, 0u32), (0, 5), (5, 0)] {
        match encode_pixels(RawImage { width, height, rgba: Vec::new() }) {
            Some(Err(account)) => assert!(!account.is_empty()),
            other => panic!("encoded as {:?}", other),
        }
    }
}

#[test]
fn encode_pixels_of_rows_too_long_to_count_gives_nothing() {
    let width: u32 = 1 << 30;
    let encoded = encode_pixels(RawImage { width, height: 0, rgba: Vec::new() });
    if 4 * (width as u128) <= usize::MAX as u128 {
        assert!(matches!(encoded, Some(Err(_))));
    } else {
        assert_eq!(encoded, None);
    }
}
