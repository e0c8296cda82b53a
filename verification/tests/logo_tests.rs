use axplat_aarch64::simplefb::{center_offsets, decode_png, show_logo};

fn adler32(data: &[u8]) -> u32 {
    let mut s1: u32 = 1;
    let mut s2: u32 = 0;
    for &b in data {
        s1 = (s1 + b as u32) % 65521;
        s2 = (s2 + s1) % 65521;
    }
    (s2 << 16) | s1
}

fn chunk(kind: &[u8; 4], payload: &[u8]) -> Vec<u8> {
    let mut out = Vec::new();
    out.extend_from_slice(&(payload.len() as u32).to_be_bytes());
    out.extend_from_slice(kind);
    out.extend_from_slice(payload);
    // Chunk CRC; the decoder does not verify it.
    out.extend_from_slice(&[0, 0, 0, 0]);
    out
}

/// A minimal PNG: 8-bit samples, one stored (uncompressed) deflate
/// block holding the filtered rows.
fn tiny_png(width: u32, height: u32, color_type: u8, rows: &[u8]) -> Vec<u8> {
    let mut png = vec![0x89, b'P', b'N', b'G', 0x0D, 0x0A, 0x1A, 0x0A];
    let mut ihdr = Vec::new();
    ihdr.extend_from_slice(&width.to_be_bytes());
    ihdr.extend_from_slice(&height.to_be_bytes());
    ihdr.extend_from_slice(&[8, color_type, 0, 0, 0]);
    png.extend_from_slice(&chunk(b"IHDR", &ihdr));
    let mut zlib = vec![0x78, 0x01];
    zlib.push(0x01); // final stored block
    zlib.extend_from_slice(&(rows.len() as u16).to_le_bytes());
    zlib.extend_from_slice(&(!(rows.len() as u16)).to_le_bytes());
    zlib.extend_from_slice(rows);
    zlib.extend_from_slice(&adler32(rows).to_be_bytes());
    png.extend_from_slice(&chunk(b"IDAT", &zlib));
    png.extend_from_slice(&chunk(b"IEND", &[]));
    png
}

#[test]
fn decode_rejects_garbage() {
    assert!(decode_png(&vec![1, 2, 3, 4]).is_none());
    assert!(decode_png(&Vec::new()).is_none());
    assert!(show_logo(1920, 1200, &vec![0xFF; 16]).is_none());
}

#[test]
fn decode_rgb_packs_channels() {
    // One RGB pixel (10, 20, 30); row = filter byte 0 then samples.
    let png = tiny_png(1, 1, 2, &[0, 10, 20, 30]);
    let (w, h, data) = decode_png(&png).expect("valid PNG");
    assert_eq!((w, h), (1, 1));
    assert_eq!(data, vec![0x0A141E]);
}

#[test]
fn decode_rgba_blends_over_white() {
    // One RGBA pixel (10, 20, 30, 128), blended over white:
    // channel -> (c * 128 + 255 * 127) / 255.
    let png = tiny_png(1, 1, 6, &[0, 10, 20, 30, 128]);
    let (w, h, data) = decode_png(&png).expect("valid PNG");
    assert_eq!((w, h), (1, 1));
    let blend = |c: u32| (c * 128 + 255 * 127) / 255;
    let expected = (blend(10) << 16) | (blend(20) << 8) | blend(30);
    assert_eq!(data, vec![expected]);
}

#[test]
fn decode_gray_alpha_blends_over_white() {
    // One gray+alpha pixel (100, 128).
    let png = tiny_png(1, 1, 4, &[0, 100, 128]);
    let (w, h, data) = decode_png(&png).expect("valid PNG");
    assert_eq!((w, h), (1, 1));
    let v = (100u32 * 128 + 255 * 127) / 255;
    let expected = (v << 16) | (v << 8) | v;
    assert_eq!(data, vec![expected]);
}

#[test]
fn decode_two_by_one_keeps_order() {
    // Two RGB pixels: red then blue.
    let png = tiny_png(2, 1, 2, &[0, 255, 0, 0, 0, 0, 255]);
    let (w, h, data) = decode_png(&png).expect("valid PNG");
    assert_eq!((w, h), (2, 1));
    assert_eq!(data, vec![0xFF0000, 0x0000FF]);
}

#[test]
fn center_offsets_centre_the_image() {
    assert_eq!(center_offsets(1920, 1200, 300, 100), (810, 550));
    assert_eq!(center_offsets(1920, 1200, 1920, 1200), (0, 0));
    // An image larger than the screen starts at the origin.
    assert_eq!(center_offsets(100, 100, 300, 50), (0, 25));
}

#[test]
fn show_logo_places_decoded_image() {
    let png = tiny_png(2, 1, 2, &[0, 255, 0, 0, 0, 0, 255]);
    let placement = show_logo(1920, 1200, &png).expect("valid PNG");
    assert_eq!(placement.width, 2);
    assert_eq!(placement.height, 1);
    assert_eq!(placement.x_offset, (1920 - 2) / 2);
    assert_eq!(placement.y_offset, (1200 - 1) / 2);
    assert_eq!(placement.pixels, vec![0xFF0000, 0x0000FF]);
}
