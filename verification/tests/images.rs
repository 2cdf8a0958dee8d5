use signal_setup::pem::{pem_to_der, trim_text};
use signal_setup::qr::{
    adjust_brightness_contrast, apply_threshold, bytes_per_pixel, invert, qr_attempts, qr_failure_text, GrayImage,
    QrAttempt,
};

fn image(pixels: Vec<u8>) -> GrayImage {
    GrayImage { width: pixels.len() as u32, height: 1, pixels }
}

#[test]
fn pixel_operations() {
    let g = image(vec![0, 100, 128, 129, 255]);
    assert_eq!(invert(&g).pixels, vec![255, 155, 127, 126, 0]);
    assert_eq!(apply_threshold(&g, 128).pixels, vec![0, 0, 0, 255, 255]);
}

#[test]
fn contrast_matches_float_scaling() {
    let all: Vec<u8> = (0..=255).collect();
    let g = image(all.clone());
    for (b, num, den, c) in [(20i32, 3i32, 2i32, 1.5f32), (-20, 3, 2, 1.5), (0, 2, 1, 2.0)] {
        let out = adjust_brightness_contrast(&g, b, num, den).pixels;
        for (i, v) in all.iter().enumerate() {
            let expected = (((*v as i32 - 128) as f32 * c) as i32 + 128 + b).clamp(0, 255) as u8;
            assert_eq!(out[i], expected);
        }
    }
}

#[test]
fn attempt_order() {
    let small = qr_attempts(640, 480);
    assert_eq!(small.len(), 19);
    assert!(small[0] == QrAttempt::Plain);
    assert!(small[1] == QrAttempt::Inverted);
    assert!(small[18] == QrAttempt::BlurredThreshold { threshold: 128 });
    let large = qr_attempts(1920, 1080);
    assert_eq!(large.len(), 20);
    assert!(large[18] == QrAttempt::Downscaled);
    assert!(qr_failure_text().starts_with("Could not decode QR code."));
    assert_eq!(bytes_per_pixel(400, 10, 10), Ok(4));
    assert_eq!(bytes_per_pixel(300, 10, 10), Ok(3));
    assert_eq!(bytes_per_pixel(200, 10, 10), Err(2));
}

#[test]
fn pem_decoding() {
    let pem = "-----BEGIN CERTIFICATE-----\r\nAAEC\r\nAwQF\r\n-----END CERTIFICATE-----\r\n";
    assert_eq!(pem_to_der(pem).unwrap(), vec![0, 1, 2, 3, 4, 5]);
    let pem = "-----BEGIN CERTIFICATE-----\n  AAEC\nAwQF  \n-----END CERTIFICATE-----";
    assert_eq!(pem_to_der(pem).unwrap(), vec![0, 1, 2, 3, 4, 5]);
    let pem = "-----BEGIN CERTIFICATE-----\nAAEC \nAwQF\n-----END CERTIFICATE-----";
    assert!(pem_to_der(pem).is_none());
    let pem = "-----BEGIN X-----\n\u{a0}AAECAwQF\n-----END X-----\n";
    assert_eq!(pem_to_der(pem).unwrap(), vec![0, 1, 2, 3, 4, 5]);
    assert_eq!(trim_text(" \t x y \n"), "x y");
    assert_eq!(trim_text("   "), "");
}
