use squish::options::{
    plan_encode, preset_defaults_lower, resolve_preset_defaults, resolve_settings,
    settings_with_defaults, ConvertOptions, EncodeSettings,
};

fn options(mode: &str, preset: &str) -> ConvertOptions {
    ConvertOptions {
        mode: mode.to_string(),
        preset: preset.to_string(),
        output_format: None,
        quality: None,
        lossless: None,
        max_width: None,
        max_height: None,
        target_kb: None,
        strip_metadata: None,
    }
}

#[test]
fn presets_match_the_table() {
    assert_eq!(resolve_preset_defaults("Lossless"), (100, true, None));
    assert_eq!(resolve_preset_defaults("Balanced"), (82, false, Some(2000)));
    assert_eq!(resolve_preset_defaults("Small File"), (68, false, Some(1600)));
}

#[test]
fn preset_names_ignore_case_spaces_and_hyphens() {
    assert_eq!(resolve_preset_defaults("small-file"), (68, false, Some(1600)));
    assert_eq!(resolve_preset_defaults("SMALL_FILE"), (68, false, Some(1600)));
    assert_eq!(resolve_preset_defaults("LOSSLESS"), (100, true, None));
    assert_eq!(resolve_preset_defaults("whatever"), (82, false, Some(2000)));
    assert_eq!(resolve_preset_defaults(""), (82, false, Some(2000)));
    assert_eq!(preset_defaults_lower("small file"), (68, false, Some(1600)));
    assert_eq!(preset_defaults_lower("Lossless"), (82, false, Some(2000)));
}

#[test]
fn preset_fills_unset_options() {
    let s = resolve_settings(&options("keep_format", "Small File"));
    assert_eq!(
        s,
        EncodeSettings { quality: 68, lossless: false, max_width: Some(1600), max_height: None, target_kb: None }
    );
}

#[test]
fn explicit_options_win_over_the_preset() {
    let mut o = options("convert_compress", "Lossless");
    o.quality = Some(50);
    o.lossless = Some(false);
    o.max_width = Some(640);
    o.max_height = Some(480);
    o.target_kb = Some(200);
    let s = resolve_settings(&o);
    assert_eq!(
        s,
        EncodeSettings {
            quality: 50,
            lossless: false,
            max_width: Some(640),
            max_height: Some(480),
            target_kb: Some(200)
        }
    );
}

#[test]
fn lossless_webp_mode_is_always_lossless() {
    let mut o = options("to_webp_lossless", "Balanced");
    o.lossless = Some(false);
    let s = resolve_settings(&o);
    assert!(s.lossless);
    assert_eq!(s.quality, 82);
    let t = settings_with_defaults(&options("to_webp_lossy", "x"), (10, false, None));
    assert_eq!(
        t,
        EncodeSettings { quality: 10, lossless: false, max_width: None, max_height: None, target_kb: None }
    );
}

#[test]
fn webp_kept_as_webp_is_warned() {
    let p = plan_encode("in/pic.WEBP", "out/pic_compressed.webp", &options("keep_format", "Balanced"));
    assert_eq!(p.source_ext, "webp");
    assert_eq!(p.out_ext, "webp");
    assert_eq!(p.warnings, vec!["Source is already WebP. Re-encoded with current settings.".to_string()]);
    assert_eq!(p.output_dir, "out");
    assert_eq!(p.source_label, ".webp");
    assert_eq!(p.output_label, ".webp");
}

#[test]
fn other_conversions_are_not_warned() {
    let p = plan_encode("in/pic.webp", "out/pic_webp.webp", &options("to_webp_lossy", "Balanced"));
    assert!(p.warnings.is_empty());
    let q = plan_encode("pic.JPG", "pic_optimized.webp", &options("convert_compress", "Balanced"));
    assert!(q.warnings.is_empty());
    assert_eq!(q.source_ext, "jpg");
    assert_eq!(q.source_label, ".jpg");
    assert_eq!(q.output_dir, "");
    let r = plan_encode("noext", "plain", &options("keep_format", "Balanced"));
    assert_eq!(r.source_ext, "");
    assert_eq!(r.source_label, ".");
    assert_eq!(r.output_label, ".");
}
