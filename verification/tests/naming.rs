use squish::formats::{
    choose_encoder, format_ext_for, keep_ext_with, keep_format_ext, is_image_ext, is_lower_image_ext, make_output_path,
    mode_suffix, output_ext, output_file_name, Encoder,
};
use squish::text::{
    chars_of, decimal_string, is_white, str_eq, trim_space, underscore_separators,
    without_leading_dots,
};

#[test]
fn image_extensions_ignore_letter_case() {
    assert!(is_image_ext("JPG"));
    assert!(is_image_ext("jpeg"));
    assert!(is_image_ext("Png"));
    assert!(is_image_ext("WEBP"));
    assert!(is_image_ext("bmp"));
    assert!(is_image_ext("TIF"));
    assert!(is_image_ext("tiff"));
    assert!(is_image_ext("GIF"));
}

#[test]
fn other_extensions_are_not_images() {
    assert!(!is_image_ext("txt"));
    assert!(!is_image_ext(""));
    assert!(!is_image_ext("zip"));
    assert!(!is_image_ext("jpgx"));
    assert!(!is_lower_image_ext("JPG"));
    assert!(is_lower_image_ext("jpg"));
}

#[test]
fn suffix_per_mode() {
    assert_eq!(mode_suffix("keep_format"), "_compressed");
    assert_eq!(mode_suffix("to_webp_lossless"), "_lossless");
    assert_eq!(mode_suffix("to_webp_lossy"), "_webp");
    assert_eq!(mode_suffix("convert_compress"), "_optimized");
    assert_eq!(mode_suffix("something_else"), "_optimized");
}

#[test]
fn keep_format_keeps_the_source_extension() {
    assert_eq!(output_ext("keep_format", "jpeg", None), "jpg");
    assert_eq!(output_ext("keep_format", "jpg", None), "jpg");
    assert_eq!(output_ext("keep_format", "png", Some("webp")), "png");
    assert_eq!(output_ext("keep_format", "webp", None), "webp");
}

#[test]
fn keep_format_writes_other_sources_as_png() {
    assert_eq!(output_ext("keep_format", "bmp", None), "png");
    assert_eq!(output_ext("keep_format", "gif", None), "png");
    assert_eq!(output_ext("keep_format", "tif", None), "png");
    assert_eq!(output_ext("keep_format", "tiff", Some("jpg")), "png");
    assert_eq!(keep_format_ext("jpeg"), "jpg");
    assert_eq!(keep_format_ext("GIF"), "png");
    assert_eq!(keep_format_ext(""), "png");
    assert_eq!(
        make_output_path("/out", "scans/page.tiff", "tiff", "keep_format", None),
        "/out/scans/page_compressed.png"
    );
    assert_eq!(choose_encoder(keep_format_ext("gif").as_str(), 80, false), Encoder::Png);
}

#[test]
fn keep_format_keeps_jpeg_png_and_webp_in_any_letter_case() {
    assert_eq!(keep_format_ext("JPG"), "JPG");
    assert_eq!(keep_format_ext("JPEG"), "JPEG");
    assert_eq!(keep_format_ext("Png"), "Png");
    assert_eq!(keep_format_ext("WEBP"), "WEBP");
    assert_eq!(keep_ext_with("JPG", "jpg"), "JPG");
    assert_eq!(keep_ext_with("JPG", "gif"), "png");
    assert_eq!(output_ext("keep_format", "JPG", None), "JPG");
    assert_eq!(output_ext("keep_format", "WEBP", Some("png")), "WEBP");
    assert_eq!(
        make_output_path("/out", "cam/IMG_1.JPG", "JPG", "keep_format", None),
        "/out/cam/IMG_1_compressed.JPG"
    );
    assert_eq!(choose_encoder(&keep_format_ext("JPG").to_lowercase(), 75, false), Encoder::Jpeg { quality: 75 });
}

#[test]
fn webp_modes_write_webp() {
    assert_eq!(output_ext("to_webp_lossless", "png", None), "webp");
    assert_eq!(output_ext("to_webp_lossy", "jpg", Some("png")), "webp");
    assert_eq!(output_ext("unknown", "jpg", Some("png")), "webp");
}

#[test]
fn convert_compress_uses_the_requested_format() {
    assert_eq!(output_ext("convert_compress", "png", Some("JPEG")), "jpg");
    assert_eq!(output_ext("convert_compress", "png", Some("jpg")), "jpg");
    assert_eq!(output_ext("convert_compress", "jpg", Some("PNG")), "png");
    assert_eq!(output_ext("convert_compress", "jpg", Some("gif")), "webp");
    assert_eq!(output_ext("convert_compress", "jpg", None), "webp");
    assert_eq!(format_ext_for("jpeg"), "jpg");
    assert_eq!(format_ext_for("tiff"), "webp");
}

#[test]
fn output_file_names_join_stem_suffix_and_extension() {
    assert_eq!(output_file_name("photo", "jpeg", "keep_format", None), "photo_compressed.jpg");
    assert_eq!(output_file_name("a", "png", "to_webp_lossy", None), "a_webp.webp");
}

#[test]
fn output_paths_mirror_the_relative_folder() {
    assert_eq!(
        make_output_path("/out", "sub/photo.JPEG", "jpeg", "keep_format", None),
        "/out/sub/photo_compressed.jpg"
    );
    assert_eq!(
        make_output_path("/out", "a.png", "png", "convert_compress", None),
        "/out/a_optimized.webp"
    );
    assert_eq!(
        make_output_path("/out", "x/y/pic.gif", "gif", "to_webp_lossless", None),
        "/out/x/y/pic_lossless.webp"
    );
    assert_eq!(
        make_output_path("/out", "deep/pic.tar.png", "png", "convert_compress", Some("png")),
        "/out/deep/pic.tar_optimized.png"
    );
}

#[test]
fn encoder_follows_the_output_extension() {
    assert_eq!(choose_encoder("webp", 80, true), Encoder::WebpLossless);
    assert_eq!(choose_encoder("webp", 80, false), Encoder::WebpLossy { quality: 80 });
    assert_eq!(choose_encoder("jpg", 70, true), Encoder::Jpeg { quality: 70 });
    assert_eq!(choose_encoder("jpeg", 60, false), Encoder::Jpeg { quality: 60 });
    assert_eq!(choose_encoder("png", 60, false), Encoder::Png);
    assert_eq!(choose_encoder("bmp", 60, true), Encoder::Png);
}

#[test]
fn text_helpers() {
    assert!(str_eq("abc", "abc"));
    assert!(!str_eq("abc", "abd"));
    assert_eq!(without_leading_dots("..jpg"), "jpg");
    assert_eq!(without_leading_dots("jpg"), "jpg");
    assert_eq!(without_leading_dots("..."), "");
    assert_eq!(without_leading_dots(".a.b"), "a.b");
    assert_eq!(underscore_separators("small file-x"), "small_file_x");
    assert_eq!(chars_of("aé"), vec!['a', 'é']);
}

#[test]
fn decimal_numbers() {
    assert_eq!(decimal_string(0), "0");
    assert_eq!(decimal_string(7), "7");
    assert_eq!(decimal_string(10), "10");
    assert_eq!(decimal_string(1234567), "1234567");
    assert_eq!(decimal_string(u64::MAX), u64::MAX.to_string());
}

#[test]
fn trimming_matches_str_trim() {
    let samples = [
        "  x y \t",
        "\u{3000}name\u{00A0}",
        "\u{2028}\u{2009}a b\u{205F}\n",
        "   ",
        "",
        "plain",
        "\u{200B}zero width\u{200B}",
        "\u{85}x\u{1680}",
    ];
    for s in samples {
        assert_eq!(trim_space(s), s.trim());
    }
    for c in ['\t', ' ', '\u{85}', '\u{A0}', '\u{2000}', '\u{200A}', '\u{3000}', 'a', '\u{200B}', '\u{180E}'] {
        assert_eq!(is_white(c), c.is_whitespace());
    }
}

#[test]
fn white_space_set_matches_every_char() {
    for u in 0..=0x10FFFFu32 {
        if let Some(c) = char::from_u32(u) {
            assert_eq!(is_white(c), c.is_whitespace(), "code point {:#x}", u);
        }
    }
}
