//! Conversion options, presets, and the settings an image is encoded with.
use vstd::prelude::*;
use crate::paths::{extension, extension_of, or_empty, parent, parent_of};
use crate::text::{join2, lowercase, owned, str_eq, to_lower, underscore_separators, underscored};

verus! {

/// The options of a conversion, as the user chose them.
#[derive(Clone, Debug)]
pub struct ConvertOptions {
    /// `keep_format`, `to_webp_lossless`, `to_webp_lossy` or `convert_compress`.
    pub mode: String,
    /// `Lossless`, `Balanced` or `Small File` (letter case, spaces and hyphens do not matter).
    pub preset: String,
    /// The output format for `convert_compress`.
    pub output_format: Option<String>,
    /// Quality (1 to 100), overriding the preset's.
    pub quality: Option<u8>,
    /// Lossless encoding, overriding the preset's.
    pub lossless: Option<bool>,
    /// Largest output width, overriding the preset's.
    pub max_width: Option<u32>,
    /// Largest output height.
    pub max_height: Option<u32>,
    /// Target file size in KiB.
    pub target_kb: Option<u32>,
    /// Whether to strip metadata (re-encoding writes none in any case).
    pub strip_metadata: Option<bool>,
}

/// The preset name as it is matched: lowercased, with spaces and hyphens as underscores.
pub open spec fn preset_key(preset: Seq<char>) -> Seq<char> {
    underscored(lowercase(preset))
}

/// The quality, lossless flag and largest width of a preset, by its matched name:
/// `lossless` is (100, lossless, no limit), `small_file` is (68, lossy, 1600), and every
/// other name is Balanced, (82, lossy, 2000).
pub open spec fn preset_defaults(key: Seq<char>) -> (u8, bool, Option<u32>) {
    if key == "lossless"@ {
        (100, true, None)
    } else if key == "small_file"@ {
        (68, false, Some(1600))
    } else {
        (82, false, Some(2000))
    }
}

/// The defaults of the preset whose name, already lowercased, is `lower`.
pub fn preset_defaults_lower(lower: &str) -> (r: (u8, bool, Option<u32>))
    ensures
        r == preset_defaults(underscored(lower@)),
{
    let key = underscore_separators(lower);
    if str_eq(key.as_str(), "lossless") {
        (100, true, None)
    } else if str_eq(key.as_str(), "small_file") {
        (68, false, Some(1600))
    } else {
        (82, false, Some(2000))
    }
}

/// The quality, lossless flag and largest width of preset `preset`.
pub fn resolve_preset_defaults(preset: &str) -> (r: (u8, bool, Option<u32>))
    ensures
        r == preset_defaults(preset_key(preset@)),
{
    let lower = to_lower(preset);
    preset_defaults_lower(lower.as_str())
}

/// The settings an image is encoded with.
#[derive(Clone, Copy, Debug, PartialEq, Eq)]
pub struct EncodeSettings {
    /// Encoding quality (for the first attempt, when there is a target size).
    pub quality: u8,
    /// Whether WebP output is lossless.
    pub lossless: bool,
    /// Largest output width.
    pub max_width: Option<u32>,
    /// Largest output height.
    pub max_height: Option<u32>,
    /// Target file size in KiB.
    pub target_kb: Option<u32>,
}

/// The settings for options `opts` over preset defaults `defaults`: each option that is set
/// wins over the preset, and the lossless WebP mode is always lossless.
pub open spec fn settings_from(opts: ConvertOptions, defaults: (u8, bool, Option<u32>)) -> EncodeSettings {
    EncodeSettings {
        quality: match opts.quality {
            Some(q) => q,
            None => defaults.0,
        },
        lossless: match opts.lossless {
            Some(l) => l,
            None => defaults.1,
        } || opts.mode@ == "to_webp_lossless"@,
        max_width: match opts.max_width {
            Some(w) => Some(w),
            None => defaults.2,
        },
        max_height: opts.max_height,
        target_kb: opts.target_kb,
    }
}

/// The settings for options `opts` over the given preset defaults.
pub fn settings_with_defaults(opts: &ConvertOptions, defaults: (u8, bool, Option<u32>)) -> (r:
    EncodeSettings)
    ensures
        r == settings_from(*opts, defaults),
{
    let (preset_quality, preset_lossless, preset_max_w) = defaults;
    let quality = match opts.quality {
        Some(q) => q,
        None => preset_quality,
    };
    let lossless = match opts.lossless {
        Some(l) => l,
        None => preset_lossless,
    } || str_eq(opts.mode.as_str(), "to_webp_lossless");
    let max_width = match opts.max_width {
        Some(w) => Some(w),
        None => preset_max_w,
    };
    EncodeSettings {
        quality,
        lossless,
        max_width,
        max_height: opts.max_height,
        target_kb: opts.target_kb,
    }
}

/// The settings for options `opts`, over the defaults of its preset.
pub fn resolve_settings(opts: &ConvertOptions) -> (r: EncodeSettings)
    ensures
        r == settings_from(*opts, preset_defaults(preset_key(opts.preset@))),
{
    let defaults = resolve_preset_defaults(opts.preset.as_str());
    settings_with_defaults(opts, defaults)
}

/// The warning given when a WebP source is re-encoded as WebP while keeping its format.
pub open spec fn rewebp_text() -> Seq<char> {
    "Source is already WebP. Re-encoded with current settings."@
}

/// Whether re-encoding a source with extension `source_ext` into `out_ext` under `mode`
/// re-encodes WebP as WebP in the keep-format mode.
pub open spec fn rewebp(source_ext: Seq<char>, out_ext: Seq<char>, mode: Seq<char>) -> bool {
    source_ext == "webp"@ && out_ext == "webp"@ && mode == "keep_format"@
}

/// Everything about encoding one file that follows from its paths and the options.
#[derive(Clone, Debug)]
pub struct EncodePlan {
    /// The source's extension, lowercased (empty when it has none).
    pub source_ext: String,
    /// The output's extension, lowercased (empty when it has none).
    pub out_ext: String,
    /// The encoding settings.
    pub settings: EncodeSettings,
    /// Warnings known before encoding.
    pub warnings: Vec<String>,
    /// The folder that receives the output file.
    pub output_dir: String,
    /// The source's extension as reported: a dot and `source_ext`.
    pub source_label: String,
    /// The output's extension as reported: a dot and `out_ext`.
    pub output_label: String,
}

/// The lowercased extension of path `p`, empty when it has none.
pub open spec fn lower_ext(p: Seq<char>) -> Seq<char> {
    lowercase(or_empty(extension_of(p)))
}

/// The lowercased extension of path `p`, empty when it has none.
pub fn lower_extension(p: &str) -> (r: String)
    ensures
        r@ == lower_ext(p@),
{
    let e = match extension(p) {
        Some(e) => e,
        None => String::new(),
    };
    to_lower(e.as_str())
}

/// The plan for encoding the file at `source` into the file at `output` with options `opts`.
pub fn plan_encode(source: &str, output: &str, opts: &ConvertOptions) -> (r: EncodePlan)
    ensures
        r.source_ext@ == lower_ext(source@),
        r.out_ext@ == lower_ext(output@),
        r.settings == settings_from(*opts, preset_defaults(preset_key(opts.preset@))),
        r.warnings.deep_view() == (if rewebp(lower_ext(source@), lower_ext(output@), opts.mode@) {
            seq![rewebp_text()]
        } else {
            Seq::<Seq<char>>::empty()
        }),
        r.output_dir@ == match parent_of(output@) {
            Some(d) => d,
            None => "."@,
        },
        r.source_label@ == "."@ + lower_ext(source@),
        r.output_label@ == "."@ + lower_ext(output@),
{
    let source_ext = lower_extension(source);
    let out_ext = lower_extension(output);
    let settings = resolve_settings(opts);
    let mut warnings: Vec<String> = Vec::new();
    if str_eq(source_ext.as_str(), "webp") && str_eq(out_ext.as_str(), "webp") && str_eq(
        opts.mode.as_str(),
        "keep_format",
    ) {
        warnings.push(owned("Source is already WebP. Re-encoded with current settings."));
        assert(warnings.deep_view() =~= seq![rewebp_text()]);
    } else {
        assert(warnings.deep_view() =~= Seq::<Seq<char>>::empty());
    }
    let output_dir = match parent(output) {
        Some(d) => d,
        None => owned("."),
    };
    let source_label = join2(".", source_ext.as_str());
    let output_label = join2(".", out_ext.as_str());
    EncodePlan { source_ext, out_ext, settings, warnings, output_dir, source_label, output_label }
}

/// Options that are set win over the preset; the lossless WebP mode always encodes losslessly;
/// the size limits and the target size are the ones asked for.
pub proof fn lemma_options_override_preset(opts: ConvertOptions, defaults: (u8, bool, Option<u32>))
    ensures
        ({
            let s = settings_from(opts, defaults);
            &&& opts.quality matches Some(q) ==> s.quality == q
            &&& opts.quality is None ==> s.quality == defaults.0
            &&& opts.lossless == Some(true) ==> s.lossless
            &&& opts.mode@ == "to_webp_lossless"@ ==> s.lossless
            &&& opts.mode@ != "to_webp_lossless"@ ==> (opts.lossless matches Some(l) ==> s.lossless == l)
            &&& opts.mode@ != "to_webp_lossless"@ ==> (opts.lossless is None ==> s.lossless == defaults.1)
            &&& opts.lossless is None ==> (defaults.1 ==> s.lossless)
            &&& opts.max_width matches Some(w) ==> s.max_width == Some(w)
            &&& opts.max_width is None ==> s.max_width == defaults.2
            &&& s.max_height == opts.max_height
            &&& s.target_kb == opts.target_kb
        }),
{
}

/// The presets: `lossless` is quality 100, lossless, with no width limit; `small_file` is
/// quality 68, lossy, at most 1600 wide; every other name is Balanced: quality 82, lossy, at
/// most 2000 wide. Preset names ignore spaces versus hyphens versus underscores.
pub proof fn lemma_preset_table(key: Seq<char>)
    ensures
        key == "lossless"@ ==> preset_defaults(key) == (100u8, true, None::<u32>),
        key == "small_file"@ ==> preset_defaults(key) == (68u8, false, Some(1600u32)),
        key != "lossless"@ && key != "small_file"@ ==> preset_defaults(key) == (
            82u8,
            false,
            Some(2000u32),
        ),
        preset_defaults(key).0 >= 68,
        preset_defaults(key).1 <==> key == "lossless"@,
        preset_defaults(key).2 is None <==> key == "lossless"@,
{
    reveal_strlit("lossless");
    reveal_strlit("small_file");
    assert("lossless"@.len() == 8 && "small_file"@.len() == 10);
}

/// Spaces, hyphens and underscores in a preset name are one and the same: every other
/// character is kept, in place, and the name keeps its length.
pub proof fn lemma_preset_separators(name: Seq<char>)
    ensures
        underscored(name).len() == name.len(),
        forall|i: int|
            0 <= i < name.len() ==> (#[trigger] underscored(name)[i] == '_' <==> (name[i] == ' '
                || name[i] == '-' || name[i] == '_')),
        forall|i: int|
            0 <= i < name.len() && name[i] != ' ' && name[i] != '-' ==> #[trigger] underscored(
                name,
            )[i] == name[i],
{
}

/// With the Lossless preset and no explicit lossless option, a conversion is lossless; with
/// any other preset it is lossless only when asked for or in the lossless WebP mode. Unset
/// quality and width come from the preset.
pub proof fn lemma_preset_settings(opts: ConvertOptions)
    ensures
        ({
            let key = preset_key(opts.preset@);
            let s = settings_from(opts, preset_defaults(key));
            &&& key == "lossless"@ && opts.lossless is None ==> s.lossless
            &&& key == "lossless"@ && opts.quality is None ==> s.quality == 100
            &&& key == "lossless"@ && opts.max_width is None ==> s.max_width is None
            &&& key != "lossless"@ && opts.mode@ != "to_webp_lossless"@ ==> (s.lossless <==> opts.lossless == Some(true))
            &&& key == "small_file"@ && opts.quality is None ==> s.quality == 68
            &&& key == "small_file"@ && opts.max_width is None ==> s.max_width == Some(1600u32)
            &&& key != "lossless"@ && key != "small_file"@ && opts.quality is None ==> s.quality == 82
            &&& key != "lossless"@ && key != "small_file"@ && opts.max_width is None ==> s.max_width
                == Some(2000u32)
        }),
{
    lemma_preset_table(preset_key(opts.preset@));
}

/// The WebP re-encoding warning is given exactly when a WebP source is kept as WebP: one
/// warning then, none otherwise.
pub proof fn lemma_rewebp_warning(source_ext: Seq<char>, out_ext: Seq<char>, mode: Seq<char>)
    ensures
        rewebp(source_ext, out_ext, mode) <==> (source_ext == "webp"@ && out_ext == "webp"@ && mode
            == "keep_format"@),
        rewebp_text().len() > 0,
{
    reveal_strlit("Source is already WebP. Re-encoded with current settings.");
}

} // verus!
