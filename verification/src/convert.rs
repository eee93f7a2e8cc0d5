//! A conversion request: its options and where each of its images is written.
use vstd::prelude::*;
use crate::formats::{make_output_path, output_path_text};
use crate::options::ConvertOptions;
use crate::paths::{extension, extension_of};
use crate::text::{
    join2, lemma_strip_extra_dot, lemma_strip_leading_dots, lowercase, strip_leading_dots, to_lower,
    without_leading_dots,
};

verus! {

/// An image to convert, as a scan reported it.
#[derive(Clone, Debug)]
pub struct ScannedImageInput {
    /// The image's path.
    pub source: String,
    /// The image's path relative to the scanned folder.
    pub relative: String,
    /// The image's extension, usually after a dot.
    pub source_ext: String,
}

/// A request to convert scanned images.
#[derive(Clone, Debug)]
pub struct ConvertRequest {
    /// The images to convert.
    pub images: Vec<ScannedImageInput>,
    /// The folder that output goes to.
    pub output_root: String,
    /// The conversion mode.
    pub mode: String,
    /// The preset name.
    pub preset: String,
    /// The output format for `convert_compress`.
    pub output_format: Option<String>,
    /// Quality, overriding the preset's.
    pub quality: Option<u8>,
    /// Lossless encoding, overriding the preset's.
    pub lossless: Option<bool>,
    /// Largest output width, overriding the preset's.
    pub max_width: Option<u32>,
    /// Largest output height.
    pub max_height: Option<u32>,
    /// Target file size in KiB.
    pub target_kb: Option<u32>,
    /// Whether to strip metadata.
    pub strip_metadata: Option<bool>,
}

/// The text of an optional string.
pub open spec fn opt_string_text(o: Option<String>) -> Option<Seq<char>> {
    match o {
        Some(s) => Some(s@),
        None => None,
    }
}

/// A copy of an optional string.
fn copy_opt(o: &Option<String>) -> (r: Option<String>)
    ensures
        r == *o,
{
    match o {
        Some(s) => Some(s.clone()),
        None => None,
    }
}

impl ConvertRequest {
    /// The conversion options of this request.
    pub fn options(&self) -> (r: ConvertOptions)
        ensures
            r.mode == self.mode,
            r.preset == self.preset,
            r.output_format == self.output_format,
            r.quality == self.quality,
            r.lossless == self.lossless,
            r.max_width == self.max_width,
            r.max_height == self.max_height,
            r.target_kb == self.target_kb,
            r.strip_metadata == self.strip_metadata,
    {
        ConvertOptions {
            mode: self.mode.clone(),
            preset: self.preset.clone(),
            output_format: copy_opt(&self.output_format),
            quality: self.quality,
            lossless: self.lossless,
            max_width: self.max_width,
            max_height: self.max_height,
            target_kb: self.target_kb,
            strip_metadata: self.strip_metadata,
        }
    }
}

/// A reported extension as conversion uses it: without leading dots, lowercased.
pub open spec fn normalized_ext(ext: Seq<char>) -> Seq<char> {
    lowercase(strip_leading_dots(ext))
}

/// A reported extension without its leading dots, lowercased.
pub fn item_source_ext(ext: &str) -> (r: String)
    ensures
        r@ == normalized_ext(ext@),
{
    let bare = without_leading_dots(ext);
    to_lower(bare.as_str())
}

/// The path that the image `item` of request `req` is written to.
pub fn item_output_path(req: &ConvertRequest, item: &ScannedImageInput) -> (r: String)
    ensures
        r@ == output_path_text(
            req.output_root@,
            item.relative@,
            normalized_ext(item.source_ext@),
            req.mode@,
            opt_string_text(req.output_format),
        ),
{
    let ext = item_source_ext(item.source_ext.as_str());
    let format = match &req.output_format {
        Some(f) => Some(f.as_str()),
        None => None,
    };
    make_output_path(
        req.output_root.as_str(),
        item.relative.as_str(),
        ext.as_str(),
        req.mode.as_str(),
        format,
    )
}

/// The extension of path `p` after a dot, as a failed conversion reports its output; empty
/// when `p` has no extension.
pub open spec fn dotted_ext(p: Seq<char>) -> Seq<char> {
    match extension_of(p) {
        Some(e) => "."@ + e,
        None => Seq::empty(),
    }
}

/// The extension of the output path `p` as a failed conversion reports it.
pub fn failure_output_ext(p: &str) -> (r: String)
    ensures
        r@ == dotted_ext(p@),
{
    match extension(p) {
        Some(e) => join2(".", e.as_str()),
        None => String::new(),
    }
}

/// A reported extension means the same with or without a leading dot, and whatever is
/// normalized is the lowercased extension without any leading dot.
pub proof fn lemma_normalized_ext(ext: Seq<char>)
    ensures
        normalized_ext(seq!['.'] + ext) == normalized_ext(ext),
        ({
            let k = ext.len() - strip_leading_dots(ext).len();
            &&& normalized_ext(ext) == lowercase(ext.skip(k))
            &&& forall|j: int| 0 <= j < k ==> ext[j] == '.'
            &&& ext.skip(k).len() > 0 ==> ext.skip(k)[0] != '.'
        }),
{
    lemma_strip_extra_dot(ext);
    lemma_strip_leading_dots(ext);
}

/// A failed conversion reports no extension when the output path has none, and otherwise a
/// dot followed by exactly the path's extension.
pub proof fn lemma_dotted_ext(p: Seq<char>)
    ensures
        extension_of(p) is None ==> dotted_ext(p).len() == 0,
        extension_of(p) matches Some(e) ==> dotted_ext(p).len() == e.len() + 1 && dotted_ext(p)[0]
            == '.' && dotted_ext(p).skip(1) == e,
{
    reveal_strlit(".");
    if let Some(e) = extension_of(p) {
        assert(dotted_ext(p).skip(1) =~= e);
    }
}

} // verus!
