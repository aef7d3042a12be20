use image::ImageEncoder;
use imgpress::config::{CompressionMode, CompressionOptions};
use imgpress::outcome::OutcomeStatus;
use imgpress::strategy::{process_file_data, FileAction};

/// A w × h fully-opaque gradient, PNG-encoded with fast settings so the
/// original stream leaves room for real optimization.
fn gradient_png(w: u32, h: u32) -> Vec<u8> {
    let mut img = image::RgbaImage::new(w, h);
    for y in 0..h {
        for x in 0..w {
            let r = (x * 2) as u8;
            let g = (y * 2) as u8;
            let b = ((x + y) / 2) as u8;
            img.put_pixel(x, y, image::Rgba([r, g, b, 255]));
        }
    }
    let mut out = Vec::new();
    let enc = image::codecs::png::PngEncoder::new_with_quality(
        &mut out,
        image::codecs::png::CompressionType::Fast,
        image::codecs::png::FilterType::NoFilter,
    );
    enc.write_image(img.as_raw(), w, h, image::ExtendedColorType::Rgba8)
        .unwrap();
    out
}

fn gradient_jpeg(w: u32, h: u32) -> Vec<u8> {
    let mut img = image::RgbImage::new(w, h);
    for y in 0..h {
        for x in 0..w {
            img.put_pixel(x, y, image::Rgb([(x * 3) as u8, (y * 3) as u8, 128]));
        }
    }
    let mut out = std::io::Cursor::new(Vec::new());
    let mut enc = image::codecs::jpeg::JpegEncoder::new_with_quality(&mut out, 75);
    enc.encode_image(&img).unwrap();
    out.into_inner()
}

fn has_chunk(data: &[u8], name: &[u8; 4]) -> bool {
    data.windows(4).any(|w| w == name)
}

#[test]
fn lossy_png_shrinks_opaque_image() {
    let data = gradient_png(100, 100);
    let opts = CompressionOptions { mode: CompressionMode::Lossy, quality: 80 };
    let action = process_file_data("img.png".to_string(), data.len() as u64, &data, &opts);
    match action {
        FileAction::Write(bytes, outcome) => {
            assert!(bytes.len() < data.len());
            assert_eq!(outcome.status, OutcomeStatus::Success);
            assert_eq!(outcome.file_path, "img.png");
            assert_eq!(outcome.original_size, data.len() as u64);
            assert_eq!(outcome.compressed_size, bytes.len() as u64);
            assert!(outcome.saved_before > 0);
            assert_eq!(
                outcome.original_size,
                outcome.compressed_size + outcome.saved_before
            );
            // every input pixel is opaque, so no transparency chunk is written
            assert!(!has_chunk(&bytes, b"tRNS"));
            let out = image::load_from_memory(&bytes).unwrap();
            assert_eq!((out.width(), out.height()), (100, 100));
        }
        FileAction::Finish(outcome) => {
            panic!("expected a write, got {:?}", outcome);
        }
    }
}

#[test]
fn lossless_png_preserves_pixels() {
    let data = gradient_png(80, 60);
    let opts = CompressionOptions { mode: CompressionMode::Lossless, quality: 80 };
    let action = process_file_data("img.png".to_string(), data.len() as u64, &data, &opts);
    match action {
        FileAction::Write(bytes, outcome) => {
            assert_eq!(outcome.status, OutcomeStatus::Success);
            assert!(bytes.len() < data.len());
            let before = image::load_from_memory(&data).unwrap().to_rgba8();
            let after = image::load_from_memory(&bytes).unwrap().to_rgba8();
            assert_eq!(before.dimensions(), after.dimensions());
            assert_eq!(before.as_raw(), after.as_raw());
        }
        FileAction::Finish(outcome) => {
            panic!("expected a write, got {:?}", outcome);
        }
    }
}

#[test]
fn lossy_falls_back_to_lossless_when_range_rejected() {
    // a quality target the quantizer cannot accept aborts quantization, and
    // the lossy request must then produce exactly the lossless result
    let data = gradient_png(64, 64);
    let lossy = CompressionOptions { mode: CompressionMode::Lossy, quality: 200 };
    let lossless = CompressionOptions { mode: CompressionMode::Lossless, quality: 200 };
    let a = process_file_data("img.png".to_string(), data.len() as u64, &data, &lossy);
    let b = process_file_data("img.png".to_string(), data.len() as u64, &data, &lossless);
    match (a, b) {
        (FileAction::Write(ba, oa), FileAction::Write(bb, ob)) => {
            assert_eq!(ba, bb);
            assert_eq!(oa, ob);
        }
        (FileAction::Finish(oa), FileAction::Finish(ob)) => {
            assert_eq!(oa, ob);
        }
        _ => panic!("lossy and lossless outcomes diverged"),
    }
}

#[test]
fn jpeg_lossless_ignores_configured_quality() {
    let data = gradient_jpeg(64, 48);
    let low = CompressionOptions { mode: CompressionMode::Lossless, quality: 20 };
    let high = CompressionOptions { mode: CompressionMode::Lossless, quality: 80 };
    let a = process_file_data("pic.jpg".to_string(), data.len() as u64, &data, &low);
    let b = process_file_data("pic.jpg".to_string(), data.len() as u64, &data, &high);
    match (a, b) {
        (FileAction::Write(ba, oa), FileAction::Write(bb, ob)) => {
            assert_eq!(ba, bb);
            assert_eq!(oa, ob);
        }
        (FileAction::Finish(oa), FileAction::Finish(ob)) => {
            assert_eq!(oa, ob);
            assert_eq!(oa.status, OutcomeStatus::Success);
        }
        _ => panic!("the two lossless runs diverged"),
    }
}

#[test]
fn jpeg_lossy_reencodes() {
    let data = gradient_jpeg(64, 48);
    let opts = CompressionOptions { mode: CompressionMode::Lossy, quality: 10 };
    let action = process_file_data("pic.jpeg".to_string(), data.len() as u64, &data, &opts);
    match action {
        FileAction::Write(bytes, outcome) => {
            assert_eq!(outcome.status, OutcomeStatus::Success);
            assert_ne!(bytes, data);
            let out = image::load_from_memory(&bytes).unwrap();
            assert_eq!((out.width(), out.height()), (64, 48));
        }
        FileAction::Finish(outcome) => {
            // quality 10 on a 75-quality source all but surely shrinks it,
            // but a no-op skip would still be a success with zero savings
            assert_eq!(outcome.status, OutcomeStatus::Success);
            assert_eq!(outcome.saved_before, 0);
        }
    }
}

#[test]
fn unsupported_extension_is_an_error_without_write() {
    let data = vec![1u8, 2, 3, 4];
    let opts = CompressionOptions { mode: CompressionMode::Lossy, quality: 80 };
    let action = process_file_data("anim.gif".to_string(), 123, &data, &opts);
    match action {
        FileAction::Finish(outcome) => {
            assert_eq!(outcome.status, OutcomeStatus::Error);
            assert_eq!(outcome.error.as_deref(), Some("Unsupported format"));
            assert_eq!(outcome.original_size, 0);
            assert_eq!(outcome.compressed_size, 0);
            assert_eq!(outcome.saved_before, 0);
        }
        FileAction::Write(_, _) => panic!("no write may be attempted for an unsupported format"),
    }
}

#[test]
fn garbage_png_bytes_fail_lossy() {
    let data = vec![0u8; 64];
    let opts = CompressionOptions { mode: CompressionMode::Lossy, quality: 80 };
    let action = process_file_data("bad.png".to_string(), 64, &data, &opts);
    match action {
        FileAction::Finish(outcome) => {
            assert_eq!(outcome.status, OutcomeStatus::Error);
            assert!(outcome.error.is_some());
        }
        FileAction::Write(_, _) => panic!("garbage bytes must not produce a write"),
    }
}

#[test]
fn garbage_png_bytes_fail_lossless() {
    let data = vec![0u8; 64];
    let opts = CompressionOptions { mode: CompressionMode::Lossless, quality: 80 };
    let action = process_file_data("bad.png".to_string(), 64, &data, &opts);
    match action {
        FileAction::Finish(outcome) => {
            assert_eq!(outcome.status, OutcomeStatus::Error);
            assert!(outcome.error.is_some());
        }
        FileAction::Write(_, _) => panic!("garbage bytes must not produce a write"),
    }
}

#[test]
fn garbage_jpeg_bytes_fail() {
    let data = vec![7u8; 32];
    let opts = CompressionOptions { mode: CompressionMode::Lossy, quality: 50 };
    let action = process_file_data("bad.jpg".to_string(), 32, &data, &opts);
    match action {
        FileAction::Finish(outcome) => {
            assert_eq!(outcome.status, OutcomeStatus::Error);
            assert!(outcome.error.is_some());
            assert_eq!(outcome.original_size, 0);
        }
        FileAction::Write(_, _) => panic!("garbage bytes must not produce a write"),
    }
}

#[test]
fn incompressible_candidate_is_a_skip() {
    // with a reported size of 1 byte no candidate can be strictly smaller,
    // so the outcome must be a skip with zero savings
    let data = gradient_png(16, 16);
    let opts = CompressionOptions { mode: CompressionMode::Lossless, quality: 80 };
    let action = process_file_data("img.png".to_string(), 1, &data, &opts);
    match action {
        FileAction::Finish(outcome) => {
            assert_eq!(outcome.status, OutcomeStatus::Success);
            assert_eq!(outcome.original_size, 1);
            assert_eq!(outcome.compressed_size, 1);
            assert_eq!(outcome.saved_before, 0);
        }
        FileAction::Write(_, _) => panic!("a candidate at least as large must not be written"),
    }
}
