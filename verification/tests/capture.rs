use base64::Engine;
use desktop_control::capture::{
    capture_screen, package_capture, select_display, Display, Frame, Geometry,
};
use desktop_control::error::CommandError;

fn gradient(width: u32, height: u32) -> Frame {
    let mut pixels: Vec<u8> = Vec::with_capacity((width * height * 4) as usize);
    for y in 0..height {
        for x in 0..width {
            pixels.push((x % 256) as u8);
            pixels.push((y % 256) as u8);
            pixels.push(((x + y) % 256) as u8);
            pixels.push(255);
        }
    }
    Frame::new(width, height, pixels).unwrap()
}

fn decoded_dimensions(text: &str) -> (u32, u32) {
    let bytes = base64::engine::general_purpose::STANDARD.decode(text).unwrap();
    let picture = image::load_from_memory(&bytes).unwrap();
    (picture.width(), picture.height())
}

#[test]
fn no_display_is_an_error() {
    assert_eq!(select_display(&Vec::new()), Err(CommandError::NoDisplay));
}

#[test]
fn first_of_two_displays_is_chosen() {
    let displays = vec![
        Display { x: 0, y: 0, scale_factor_bits: 2.0f32.to_bits() },
        Display { x: 1920, y: 0, scale_factor_bits: 1.0f32.to_bits() },
    ];
    assert_eq!(select_display(&displays), Ok(0));
    assert_eq!(select_display(&displays[1..].to_vec()), Ok(0));
}

#[test]
fn frame_wants_four_bytes_a_pixel() {
    assert!(Frame::new(2, 3, vec![0; 24]).is_some());
    assert!(Frame::new(2, 3, vec![0; 23]).is_none());
    assert!(Frame::new(2, 3, vec![0; 25]).is_none());
    assert!(Frame::new(0, 3, Vec::new()).is_none());
    assert!(Frame::new(3, 0, Vec::new()).is_none());
    let frame = Frame::new(1, 1, vec![1, 2, 3, 4]).unwrap();
    assert_eq!((frame.width, frame.height), (1, 1));
    assert_eq!(frame.pixels, vec![1, 2, 3, 4]);
}

#[test]
fn capture_of_large_frame_at_scale_two() {
    let display = Display { x: -1500, y: 40, scale_factor_bits: 2.0f32.to_bits() };
    let frame = gradient(3000, 2000);
    let scale = f32::from_bits(display.scale_factor_bits);
    let logical_width = (frame.width as f32 / scale) as u32;
    let logical_height = (frame.height as f32 / scale) as u32;
    let result = capture_screen(&display, &frame, logical_width, logical_height).unwrap();
    assert_eq!((result.original_width, result.original_height), (3000, 2000));
    assert_eq!((result.logical_width, result.logical_height), (1500, 1000));
    assert_eq!((result.scaled_width, result.scaled_height), (1024, 683));
    assert!(result.scaled_width.max(result.scaled_height) <= 1024);
    assert_eq!(f32::from_bits(result.scale_factor_bits), 2.0);
    assert_eq!((result.x_offset, result.y_offset), (-1500, 40));
    assert_eq!(decoded_dimensions(&result.image), (1024, 683));
}

#[test]
fn capture_round_trip_keeps_reported_dimensions() {
    let display = Display { x: 0, y: 0, scale_factor_bits: 1.0f32.to_bits() };
    for (width, height) in [(640, 480), (300, 900), (1024, 1024), (1, 1)] {
        let frame = gradient(width, height);
        let result = capture_screen(&display, &frame, width, height).unwrap();
        assert_eq!(
            decoded_dimensions(&result.image),
            (result.scaled_width, result.scaled_height)
        );
        assert!(!result.image.contains('\n'));
    }
}

#[test]
fn tall_frame_is_bounded_by_its_height() {
    let display = Display { x: 0, y: 0, scale_factor_bits: 1.0f32.to_bits() };
    let result = capture_screen(&display, &gradient(1000, 2048), 1000, 2048).unwrap();
    assert_eq!((result.scaled_width, result.scaled_height), (500, 1024));
}

#[test]
fn package_keeps_the_frame_as_it_is() {
    let display = Display { x: 7, y: -9, scale_factor_bits: 1.5f32.to_bits() };
    let geometry = Geometry {
        original_width: 48,
        original_height: 30,
        logical_width: 32,
        logical_height: 20,
    };
    let result = package_capture(&display, &geometry, &gradient(16, 10)).unwrap();
    assert_eq!((result.original_width, result.original_height), (48, 30));
    assert_eq!((result.logical_width, result.logical_height), (32, 20));
    assert_eq!((result.scaled_width, result.scaled_height), (16, 10));
    assert_eq!(result.scale_factor_bits, 1.5f32.to_bits());
    assert_eq!((result.x_offset, result.y_offset), (7, -9));
    assert_eq!(decoded_dimensions(&result.image), (16, 10));
    let bytes = base64::engine::general_purpose::STANDARD.decode(&result.image).unwrap();
    assert_eq!(&bytes[..3], &[0xff, 0xd8, 0xff]);
}

#[test]
fn frame_too_wide_for_the_encoder_fails() {
    let display = Display { x: 0, y: 0, scale_factor_bits: 1.0f32.to_bits() };
    let geometry = Geometry {
        original_width: 65536,
        original_height: 1,
        logical_width: 65536,
        logical_height: 1,
    };
    let frame = Frame::new(65536, 1, vec![0; 65536 * 4]).unwrap();
    match package_capture(&display, &geometry, &frame) {
        Err(CommandError::ProviderOperation { action, .. }) => assert_eq!(action, "encode image"),
        other => panic!("unexpected outcome: {:?}", other.map(|r| r.scaled_width)),
    }
}
