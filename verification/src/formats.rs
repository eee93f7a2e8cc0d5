//! File formats: which extensions are images, what a conversion mode writes, how output files
//! are named, and which encoder writes an output extension.
use vstd::prelude::*;
use crate::paths::{file_stem, file_stem_of, join, joined, or_empty, parent, parent_of};
use crate::text::{lowercase, owned, str_eq, to_lower};
use vstd::string::StringExecFns;

verus! {

/// Whether a lowercase extension names a supported input format.
pub open spec fn image_ext_name(ext: Seq<char>) -> bool {
    ||| ext == "jpg"@
    ||| ext == "jpeg"@
    ||| ext == "png"@
    ||| ext == "webp"@
    ||| ext == "bmp"@
    ||| ext == "tif"@
    ||| ext == "tiff"@
    ||| ext == "gif"@
}

/// Whether an already lowercased extension names a supported input format.
pub fn is_lower_image_ext(lower: &str) -> (r: bool)
    ensures
        r == image_ext_name(lower@),
{
    str_eq(lower, "jpg") || str_eq(lower, "jpeg") || str_eq(lower, "png") || str_eq(lower, "webp")
        || str_eq(lower, "bmp") || str_eq(lower, "tif") || str_eq(lower, "tiff") || str_eq(
        lower,
        "gif",
    )
}

/// Whether an extension (in any letter case) names a supported input format:
/// JPG, JPEG, PNG, WebP, BMP, TIF, TIFF or GIF.
pub fn is_image_ext(ext: &str) -> (r: bool)
    ensures
        r == image_ext_name(lowercase(ext@)),
{
    let lower = to_lower(ext);
    is_lower_image_ext(lower.as_str())
}

/// The suffix that a conversion mode adds to output file names.
pub open spec fn suffix_for(mode: Seq<char>) -> Seq<char> {
    if mode == "keep_format"@ {
        "_compressed"@
    } else if mode == "to_webp_lossless"@ {
        "_lossless"@
    } else if mode == "to_webp_lossy"@ {
        "_webp"@
    } else {
        "_optimized"@
    }
}

/// The suffix that conversion mode `mode` adds to output file names.
pub fn mode_suffix(mode: &str) -> (r: &'static str)
    ensures
        r@ == suffix_for(mode@),
{
    if str_eq(mode, "keep_format") {
        "_compressed"
    } else if str_eq(mode, "to_webp_lossless") {
        "_lossless"
    } else if str_eq(mode, "to_webp_lossy") {
        "_webp"
    } else {
        "_optimized"
    }
}

/// The output extension for a lowercased requested format: JPEG, PNG, or else WebP.
pub open spec fn format_ext(format_lower: Seq<char>) -> Seq<char> {
    if format_lower == "jpg"@ || format_lower == "jpeg"@ {
        "jpg"@
    } else if format_lower == "png"@ {
        "png"@
    } else {
        "webp"@
    }
}

/// The text of an optional string slice.
pub open spec fn opt_text(o: Option<&str>) -> Option<Seq<char>> {
    match o {
        Some(s) => Some(s@),
        None => None,
    }
}

/// Whether a lowercased extension names a format that the encoders write: JPEG, PNG or WebP.
pub open spec fn written_format_name(lower: Seq<char>) -> bool {
    lower == "jpg"@ || lower == "jpeg"@ || lower == "png"@ || lower == "webp"@
}

/// The output extension that keeps the format of a source with extension `source_ext`, whose
/// lowercased form is `lower`: `jpeg` becomes `jpg`; a JPEG, PNG or WebP extension (in any
/// letter case) stays as it is written; every other source is written as PNG, the format its
/// encoder writes.
pub open spec fn keep_ext_from(source_ext: Seq<char>, lower: Seq<char>) -> Seq<char> {
    if source_ext == "jpeg"@ {
        "jpg"@
    } else if source_ext == "jpg"@ || source_ext == "png"@ || source_ext == "webp"@ {
        source_ext
    } else if written_format_name(lower) {
        source_ext
    } else {
        "png"@
    }
}

/// The output extension that keeps the format of a source with extension `source_ext`.
pub open spec fn keep_ext(source_ext: Seq<char>) -> Seq<char> {
    keep_ext_from(source_ext, lowercase(source_ext))
}

/// The output extension that keeps the format of a source with extension `source_ext`, whose
/// lowercased form is `lower`.
pub fn keep_ext_with(source_ext: &str, lower: &str) -> (r: String)
    ensures
        r@ == keep_ext_from(source_ext@, lower@),
{
    if str_eq(source_ext, "jpeg") {
        owned("jpg")
    } else if str_eq(source_ext, "jpg") || str_eq(source_ext, "png") || str_eq(source_ext, "webp") {
        owned(source_ext)
    } else if str_eq(lower, "jpg") || str_eq(lower, "jpeg") || str_eq(lower, "png") || str_eq(
        lower,
        "webp",
    ) {
        owned(source_ext)
    } else {
        owned("png")
    }
}

/// The output extension that keeps the format of a source with extension `source_ext`.
pub fn keep_format_ext(source_ext: &str) -> (r: String)
    ensures
        r@ == keep_ext(source_ext@),
{
    let lower = to_lower(source_ext);
    keep_ext_with(source_ext, lower.as_str())
}

/// The extension of the files that conversion mode `mode` writes for a source with
/// extension `source_ext`, when the requested output format is `requested`.
pub open spec fn ext_for(mode: Seq<char>, source_ext: Seq<char>, requested: Option<Seq<char>>) -> Seq<
    char,
> {
    if mode == "keep_format"@ {
        keep_ext(source_ext)
    } else if mode == "to_webp_lossless"@ || mode == "to_webp_lossy"@ {
        "webp"@
    } else if mode == "convert_compress"@ {
        format_ext(
            lowercase(
                match requested {
                    Some(f) => f,
                    None => "webp"@,
                },
            ),
        )
    } else {
        "webp"@
    }
}

/// The output extension for an already lowercased requested format.
pub fn format_ext_for(format_lower: &str) -> (r: &'static str)
    ensures
        r@ == format_ext(format_lower@),
{
    if str_eq(format_lower, "jpg") || str_eq(format_lower, "jpeg") {
        "jpg"
    } else if str_eq(format_lower, "png") {
        "png"
    } else {
        "webp"
    }
}

/// The extension of the files that conversion mode `mode` writes for a source with extension
/// `source_ext`: JPEG, PNG or WebP by the source's format when keeping the format (any other
/// source as PNG), WebP for the WebP modes, the requested format (WebP unless JPEG or PNG is
/// asked for) when converting, and WebP for any other mode.
pub fn output_ext(mode: &str, source_ext: &str, output_format: Option<&str>) -> (r: String)
    ensures
        r@ == ext_for(mode@, source_ext@, opt_text(output_format)),
{
    if str_eq(mode, "keep_format") {
        keep_format_ext(source_ext)
    } else if str_eq(mode, "to_webp_lossless") || str_eq(mode, "to_webp_lossy") {
        owned("webp")
    } else if str_eq(mode, "convert_compress") {
        let requested = match output_format {
            Some(f) => f,
            None => "webp",
        };
        let lower = to_lower(requested);
        owned(format_ext_for(lower.as_str()))
    } else {
        owned("webp")
    }
}

/// The name of an output file: the source's stem, the mode's suffix, a dot and the output
/// extension.
pub open spec fn output_file_text(
    stem: Seq<char>,
    mode: Seq<char>,
    source_ext: Seq<char>,
    requested: Option<Seq<char>>,
) -> Seq<char> {
    stem + suffix_for(mode) + "."@ + ext_for(mode, source_ext, requested)
}

/// The path of the output file for the source at `relative` (a path relative to the scanned
/// folder): the output file name in the same relative folder under `output_root`.
pub open spec fn output_path_text(
    output_root: Seq<char>,
    relative: Seq<char>,
    source_ext: Seq<char>,
    mode: Seq<char>,
    requested: Option<Seq<char>>,
) -> Seq<char> {
    joined(
        joined(output_root, or_empty(parent_of(relative))),
        output_file_text(or_empty(file_stem_of(relative)), mode, source_ext, requested),
    )
}

/// The name of an output file whose source has the stem `stem`.
pub fn output_file_name(stem: &str, source_ext: &str, mode: &str, output_format: Option<&str>) -> (r:
    String)
    ensures
        r@ == output_file_text(stem@, mode@, source_ext@, opt_text(output_format)),
{
    let ext = output_ext(mode, source_ext, output_format);
    let suffix = mode_suffix(mode);
    let r = owned(stem).concat(suffix).concat(".").concat(ext.as_str());
    r
}

/// The path of the output file for the source at `relative` (relative to the scanned
/// folder), under `output_root`.
pub fn make_output_path(
    output_root: &str,
    relative: &str,
    source_ext: &str,
    mode: &str,
    output_format: Option<&str>,
) -> (r: String)
    ensures
        r@ == output_path_text(output_root@, relative@, source_ext@, mode@, opt_text(output_format)),
{
    let stem = match file_stem(relative) {
        Some(s) => s,
        None => String::new(),
    };
    let folder = match parent(relative) {
        Some(p) => p,
        None => String::new(),
    };
    let name = output_file_name(stem.as_str(), source_ext, mode, output_format);
    let dir = join(output_root, folder.as_str());
    join(dir.as_str(), name.as_str())
}

/// The encoder that writes an output file.
#[derive(Clone, Copy, Debug, PartialEq, Eq)]
pub enum Encoder {
    /// Lossless WebP.
    WebpLossless,
    /// Lossy WebP at the given quality.
    WebpLossy { quality: u8 },
    /// JPEG at the given quality (from an RGB copy of the image).
    Jpeg { quality: u8 },
    /// PNG.
    Png,
}

/// The encoder for output extension `ext`: WebP (lossless or at `quality`), JPEG at
/// `quality`, and PNG for every other extension.
pub open spec fn encoder_for(ext: Seq<char>, quality: u8, lossless: bool) -> Encoder {
    if ext == "webp"@ {
        if lossless {
            Encoder::WebpLossless
        } else {
            Encoder::WebpLossy { quality }
        }
    } else if ext == "jpg"@ || ext == "jpeg"@ {
        Encoder::Jpeg { quality }
    } else {
        Encoder::Png
    }
}

/// Chooses the encoder for output extension `ext`.
pub fn choose_encoder(ext: &str, quality: u8, lossless: bool) -> (r: Encoder)
    ensures
        r == encoder_for(ext@, quality, lossless),
{
    if str_eq(ext, "webp") {
        if lossless {
            Encoder::WebpLossless
        } else {
            Encoder::WebpLossy { quality }
        }
    } else if str_eq(ext, "jpg") || str_eq(ext, "jpeg") {
        Encoder::Jpeg { quality }
    } else {
        Encoder::Png
    }
}

/// Every mode writes JPEG, PNG or WebP. Outside the keep-format mode the extension is `jpg`,
/// `png` or `webp`. Keeping the format turns `jpeg` into `jpg`, keeps every other JPEG, PNG or
/// WebP extension as it is written (in any letter case), and writes every other source as
/// `png`.
pub proof fn lemma_output_formats(mode: Seq<char>, source_ext: Seq<char>, requested: Option<Seq<char>>)
    ensures
        ({
            let ext = ext_for(mode, source_ext, requested);
            let keep = mode == "keep_format"@;
            let canonical = source_ext == "jpeg"@ || source_ext == "jpg"@ || source_ext == "png"@
                || source_ext == "webp"@;
            &&& (ext == "jpg"@ || ext == "png"@ || ext == "webp"@) || (keep && ext == source_ext
                && written_format_name(lowercase(source_ext)))
            &&& !keep ==> (ext == "jpg"@ || ext == "png"@ || ext == "webp"@)
            &&& keep && source_ext == "jpeg"@ ==> ext == "jpg"@
            &&& keep && (source_ext == "jpg"@ || source_ext == "png"@ || source_ext == "webp"@)
                ==> ext == source_ext
            &&& keep && source_ext != "jpeg"@ && written_format_name(lowercase(source_ext)) ==> ext
                == source_ext
            &&& keep && !canonical && !written_format_name(lowercase(source_ext)) ==> ext == "png"@
        }),
{
    reveal_strlit("jpg");
    reveal_strlit("jpeg");
    reveal_strlit("png");
    reveal_strlit("webp");
    assert("jpeg"@.len() == 4);
    assert("jpg"@.len() == 3 && "png"@.len() == 3);
    assert("webp"@[0] == 'w' && "jpg"@[0] == 'j' && "png"@[0] == 'p');
}

/// The encoder for a JPEG, PNG or WebP extension (as lowercased) writes that very format:
/// JPEG at the given quality, PNG, and WebP that is lossless exactly when asked for and
/// otherwise lossy at the given quality. Every other extension is written as PNG.
pub proof fn lemma_encoder_writes_named_format(lower: Seq<char>, quality: u8, lossless: bool)
    ensures
        ({
            let enc = encoder_for(lower, quality, lossless);
            &&& (lower == "jpg"@ || lower == "jpeg"@) ==> enc == Encoder::Jpeg { quality }
            &&& lower == "png"@ ==> enc == Encoder::Png
            &&& lower == "webp"@ && lossless ==> enc == Encoder::WebpLossless
            &&& lower == "webp"@ && !lossless ==> enc == Encoder::WebpLossy { quality }
            &&& lower != "webp"@ && lower != "jpg"@ && lower != "jpeg"@ ==> enc == Encoder::Png
            &&& (enc == Encoder::WebpLossless) <==> (lower == "webp"@ && lossless)
            &&& enc matches Encoder::WebpLossy { quality: q } ==> q == quality && !lossless
            &&& enc matches Encoder::Jpeg { quality: q } ==> q == quality
        }),
{
    reveal_strlit("jpg");
    reveal_strlit("jpeg");
    reveal_strlit("png");
    reveal_strlit("webp");
    assert("jpeg"@.len() == 4);
    assert("jpg"@.len() == 3 && "png"@.len() == 3);
    assert("webp"@[0] == 'w' && "jpg"@[0] == 'j' && "png"@[0] == 'p');
}

/// The input formats: exactly the extensions `jpg`, `jpeg`, `png`, `webp`, `bmp`, `tif`,
/// `tiff` and `gif` (as lowercased) are images.
pub proof fn lemma_image_extensions(ext: Seq<char>)
    ensures
        image_ext_name(ext) <==> set![
            "jpg"@,
            "jpeg"@,
            "png"@,
            "webp"@,
            "bmp"@,
            "tif"@,
            "tiff"@,
            "gif"@,
        ].contains(ext),
        image_ext_name(ext) ==> 3 <= ext.len() <= 4,
{
    reveal_strlit("jpg");
    reveal_strlit("jpeg");
    reveal_strlit("png");
    reveal_strlit("webp");
    reveal_strlit("bmp");
    reveal_strlit("tif");
    reveal_strlit("tiff");
    reveal_strlit("gif");
}

/// What each mode writes: the two WebP modes and every unknown mode write `webp`; converting
/// writes `jpg` when the lowercased requested format is `jpg` or `jpeg`, `png` when it is
/// `png`, and `webp` otherwise, no request counting as a request for `webp`.
pub proof fn lemma_mode_outputs(mode: Seq<char>, source_ext: Seq<char>, requested: Option<Seq<char>>)
    ensures
        (mode == "to_webp_lossless"@ || mode == "to_webp_lossy"@) ==> ext_for(mode, source_ext, requested)
            == "webp"@,
        (mode != "keep_format"@ && mode != "to_webp_lossless"@ && mode != "to_webp_lossy"@ && mode
            != "convert_compress"@) ==> ext_for(mode, source_ext, requested) == "webp"@,
        ext_for("convert_compress"@, source_ext, None) == ext_for(
            "convert_compress"@,
            source_ext,
            Some("webp"@),
        ),
        requested matches Some(f) ==> {
            let l = lowercase(f);
            let e = ext_for("convert_compress"@, source_ext, requested);
            &&& (l == "jpg"@ || l == "jpeg"@) ==> e == "jpg"@
            &&& l == "png"@ ==> e == "png"@
            &&& (l != "jpg"@ && l != "jpeg"@ && l != "png"@) ==> e == "webp"@
        },
        ext_for("keep_format"@, source_ext, requested) == ext_for("keep_format"@, source_ext, None),
        mode != "convert_compress"@ ==> ext_for(mode, source_ext, requested) == ext_for(mode, source_ext, None),
{
    reveal_strlit("keep_format");
    reveal_strlit("to_webp_lossless");
    reveal_strlit("to_webp_lossy");
    reveal_strlit("convert_compress");
    assert("keep_format"@.len() == 11 && "to_webp_lossy"@.len() == 13);
    assert("to_webp_lossless"@[0] == 't' && "convert_compress"@[0] == 'c');
    reveal_strlit("jpg");
    reveal_strlit("jpeg");
    reveal_strlit("png");
    assert("jpeg"@.len() == 4 && "jpg"@.len() == 3 && "png"@.len() == 3);
    assert("jpg"@[0] == 'j' && "png"@[0] == 'p');
}

/// The suffix of each mode: `_compressed` when keeping the format, `_lossless` and `_webp` for
/// the two WebP modes, and `_optimized` for converting and for every other mode. Different
/// known modes get different suffixes.
pub proof fn lemma_mode_suffixes(mode: Seq<char>)
    ensures
        mode == "keep_format"@ ==> suffix_for(mode) == "_compressed"@,
        mode == "to_webp_lossless"@ ==> suffix_for(mode) == "_lossless"@,
        mode == "to_webp_lossy"@ ==> suffix_for(mode) == "_webp"@,
        (mode != "keep_format"@ && mode != "to_webp_lossless"@ && mode != "to_webp_lossy"@) ==> suffix_for(mode)
            == "_optimized"@,
        suffix_for(mode).len() > 0 && suffix_for(mode)[0] == '_',
{
    reveal_strlit("keep_format");
    reveal_strlit("to_webp_lossless");
    reveal_strlit("to_webp_lossy");
    reveal_strlit("_compressed");
    reveal_strlit("_lossless");
    reveal_strlit("_webp");
    reveal_strlit("_optimized");
    assert("keep_format"@.len() == 11 && "to_webp_lossy"@.len() == 13 && "to_webp_lossless"@.len() == 16);
}

/// How output files are named in each mode: the source's stem, then `_compressed.` and the
/// kept extension, `_lossless.webp`, `_webp.webp`, or `_optimized.` and the converted
/// extension.
pub proof fn lemma_output_names(stem: Seq<char>, source_ext: Seq<char>, requested: Option<Seq<char>>)
    ensures
        output_file_text(stem, "keep_format"@, source_ext, requested) == stem + "_compressed."@
            + keep_ext(source_ext),
        output_file_text(stem, "to_webp_lossless"@, source_ext, requested) == stem
            + "_lossless.webp"@,
        output_file_text(stem, "to_webp_lossy"@, source_ext, requested) == stem + "_webp.webp"@,
        output_file_text(stem, "convert_compress"@, source_ext, requested) == stem + "_optimized."@
            + ext_for("convert_compress"@, source_ext, requested),
        output_file_text(stem, "convert_compress"@, source_ext, requested).len() > stem.len() + 11,
{
    reveal_strlit("keep_format");
    reveal_strlit("to_webp_lossless");
    reveal_strlit("to_webp_lossy");
    reveal_strlit("convert_compress");
    reveal_strlit("_compressed");
    reveal_strlit("_compressed.");
    reveal_strlit("_lossless");
    reveal_strlit("_lossless.webp");
    reveal_strlit("_webp");
    reveal_strlit("_webp.webp");
    reveal_strlit("_optimized");
    reveal_strlit("_optimized.");
    reveal_strlit(".");
    reveal_strlit("webp");
    assert("keep_format"@.len() == 11 && "to_webp_lossy"@.len() == 13 && "to_webp_lossless"@.len() == 16);
    assert("to_webp_lossless"@[0] == 't' && "convert_compress"@[0] == 'c');
    assert(stem + "_compressed"@ + "."@ + keep_ext(source_ext) =~= stem + "_compressed."@ + keep_ext(
        source_ext,
    ));
    assert(stem + "_lossless"@ + "."@ + "webp"@ =~= stem + "_lossless.webp"@);
    assert(stem + "_webp"@ + "."@ + "webp"@ =~= stem + "_webp.webp"@);
    assert(stem + "_optimized"@ + "."@ + ext_for("convert_compress"@, source_ext, requested)
        =~= stem + "_optimized."@ + ext_for("convert_compress"@, source_ext, requested));
    lemma_mode_outputs("convert_compress"@, source_ext, requested);
    lemma_output_formats("convert_compress"@, source_ext, requested);
    reveal_strlit("jpg");
    reveal_strlit("png");
}

} // verus!
