//! Scanning a source: what the source is, where output goes, and which files are images.
use vstd::prelude::*;
use crate::formats::{image_ext_name, is_image_ext, lemma_image_extensions};
use crate::options::{lower_ext, lower_extension};
use crate::paths::{
    extension, extension_of, file_name, file_name_of, file_stem, file_stem_of, join, joined, or_empty, parent,
    parent_of, path_le, path_sorted, sort_paths, strip_prefix, stripped_of,
};
use crate::text::{join2, lowercase, owned, str_eq, trim_space, trimmed};

verus! {

/// A request to scan a source folder or zip file.
#[derive(Clone, Debug)]
pub struct ScanRequest {
    /// The folder or zip file to scan.
    pub source_path: String,
    /// The folder under which the output folder is made.
    pub output_base_path: String,
    /// The name of the output folder.
    pub output_folder_name: String,
}

/// How many images a scan found.
#[derive(Clone, Copy, Debug, PartialEq, Eq)]
pub struct ScanCounts {
    /// The number of images found.
    pub total_images: usize,
}

/// An image found by a scan.
#[derive(Clone, Debug)]
pub struct ScannedImage {
    /// The image's path.
    pub source: String,
    /// The image's path relative to the scanned folder.
    pub relative: String,
    /// The image's extension, lowercased, after a dot.
    pub source_ext: String,
}

/// What a scan found.
#[derive(Clone, Debug)]
pub struct ScanResult {
    /// The folder that was scanned (the extraction folder, for a zip file).
    pub working_folder: String,
    /// The folder that output will go to.
    pub output_root: String,
    /// How many images were found.
    pub counts: ScanCounts,
    /// The images, in path order.
    pub images: Vec<ScannedImage>,
}

/// Where the images of a source are read from.
#[derive(Clone, Debug)]
pub enum SourcePlan {
    /// The source is a folder: scan it as it is. `label` is its name.
    Folder { folder: String, label: String },
    /// The source is a zip file: extract `archive` into `extract_root` and scan that.
    /// `label` is the archive's stem.
    Zip { archive: String, extract_root: String, label: String },
}

/// The error for a source that does not exist.
pub open spec fn missing_source_text() -> Seq<char> {
    "Source path does not exist."@
}

/// The error for a source that is neither a folder nor a zip file.
pub open spec fn bad_source_text() -> Seq<char> {
    "Source must be a folder or a .zip file."@
}

/// The folder a zip file at `p` is extracted into: `<stem>__extracted` beside it.
pub open spec fn extract_root_text(p: Seq<char>) -> Seq<char> {
    joined(
        match parent_of(p) {
            Some(d) => d,
            None => "."@,
        },
        or_empty(file_stem_of(p)) + "__extracted"@,
    )
}

/// Decides how to read the source at `source_path`, given whether it exists, is a folder, and
/// is a file: a folder is scanned in place, a file with the extension `zip` (in any letter
/// case) is extracted first, and anything else is refused.
pub fn plan_source(source_path: &str, exists: bool, is_dir: bool, is_file: bool) -> (r: Result<
    SourcePlan,
    String,
>)
    ensures
        match r {
            Ok(SourcePlan::Folder { folder, label }) => {
                &&& exists && is_dir
                &&& folder@ == source_path@
                &&& label@ == or_empty(file_name_of(source_path@))
            },
            Ok(SourcePlan::Zip { archive, extract_root, label }) => {
                &&& exists && !is_dir && is_file
                &&& lower_ext(source_path@) == "zip"@
                &&& archive@ == source_path@
                &&& extract_root@ == extract_root_text(source_path@)
                &&& label@ == or_empty(file_stem_of(source_path@))
            },
            Err(e) => if !exists {
                e@ == missing_source_text()
            } else {
                &&& !is_dir
                &&& !(is_file && lower_ext(source_path@) == "zip"@)
                &&& e@ == bad_source_text()
            },
        },
{
    if !exists {
        return Err(owned("Source path does not exist."));
    }
    if is_dir {
        let label = match file_name(source_path) {
            Some(n) => n,
            None => String::new(),
        };
        return Ok(SourcePlan::Folder { folder: owned(source_path), label });
    }
    if is_file {
        let ext = lower_extension(source_path);
        if str_eq(ext.as_str(), "zip") {
            let stem = match file_stem(source_path) {
                Some(s) => s,
                None => String::new(),
            };
            let dir = match parent(source_path) {
                Some(d) => d,
                None => owned("."),
            };
            let name = join2(stem.as_str(), "__extracted");
            let extract_root = join(dir.as_str(), name.as_str());
            return Ok(SourcePlan::Zip { archive: owned(source_path), extract_root, label: stem });
        }
    }
    Err(owned("Source must be a folder or a .zip file."))
}

/// The error for an output base that is not an existing folder.
pub open spec fn bad_base_text() -> Seq<char> {
    "Output base path does not exist or is not a directory."@
}

/// The error for an output folder name that is blank.
pub open spec fn missing_name_text() -> Seq<char> {
    "Output folder name is required."@
}

/// The output folder for a scan: the trimmed folder name under the output base. It is
/// refused when the base is not an existing folder (`base_is_dir` false) or the trimmed name
/// is empty.
pub fn output_root_for(base_is_dir: bool, output_base: &str, folder_name: &str) -> (r: Result<
    String,
    String,
>)
    ensures
        match r {
            Ok(root) => base_is_dir && trimmed(folder_name@).len() > 0 && root@ == joined(
                output_base@,
                trimmed(folder_name@),
            ),
            Err(e) => if !base_is_dir {
                e@ == bad_base_text()
            } else {
                trimmed(folder_name@).len() == 0 && e@ == missing_name_text()
            },
        },
{
    if !base_is_dir {
        return Err(owned("Output base path does not exist or is not a directory."));
    }
    let name = trim_space(folder_name);
    if name.as_str().is_empty() {
        return Err(owned("Output folder name is required."));
    }
    Ok(join(output_base, name.as_str()))
}

/// Whether the file at path `p` is an image by its extension.
pub open spec fn is_image_path(p: Seq<char>) -> bool {
    image_ext_name(lower_ext(p))
}

/// A file is scanned as an image exactly when its extension, lowercased, is `jpg`, `jpeg`,
/// `png`, `webp`, `bmp`, `tif`, `tiff` or `gif`; a file without an extension never is.
pub proof fn lemma_scan_keeps_images(p: Seq<char>)
    ensures
        is_image_path(p) <==> set![
            "jpg"@,
            "jpeg"@,
            "png"@,
            "webp"@,
            "bmp"@,
            "tif"@,
            "tiff"@,
            "gif"@,
        ].contains(lowercase(or_empty(extension_of(p)))),
{
    lemma_image_extensions(lower_ext(p));
}

/// The image files among `files`, in their order.
pub open spec fn image_paths(files: Seq<Seq<char>>) -> Seq<Seq<char>> {
    files.filter(|p: Seq<char>| is_image_path(p))
}

/// The image files among `files` (the files found under the scanned folder), sorted by path.
pub fn find_images(files: &Vec<String>) -> (r: Vec<String>)
    ensures
        r.deep_view() == path_sorted(image_paths(files.deep_view())),
        r.deep_view().to_multiset() == image_paths(files.deep_view()).to_multiset(),
        forall|i: int| 0 <= i < r.len() ==> is_image_path(#[trigger] r.deep_view()[i]),
        forall|i: int, j: int|
            0 <= i <= j < r.len() ==> path_le(#[trigger] r.deep_view()[i], #[trigger] r.deep_view()[j]),
        files.deep_view().no_duplicates() ==> r.deep_view().no_duplicates(),
{
    let ghost all = files.deep_view();
    let mut kept: Vec<String> = Vec::new();
    let n = files.len();
    for i in 0..n
        invariant
            n == files.len(),
            all == files.deep_view(),
            kept.deep_view() == image_paths(all.take(i as int)),
            forall|k: int|
                0 <= k < kept.len() ==> exists|j: int|
                    0 <= j < i && all[j] == #[trigger] kept.deep_view()[k],
            all.no_duplicates() ==> kept.deep_view().no_duplicates(),
    {
        let f = &files[i];
        let ext = match extension(f.as_str()) {
            Some(e) => e,
            None => String::new(),
        };
        let ghost before = kept.deep_view();
        proof {
            reveal(Seq::filter);
            assert(all.take(i + 1).drop_last() =~= all.take(i as int));
            assert(all.take(i + 1).last() == f@);
        }
        if is_image_ext(ext.as_str()) {
            kept.push(f.clone());
            assert(kept.deep_view() =~= before.push(f@));
            assert forall|k: int| 0 <= k < kept.len() implies exists|j: int|
                0 <= j < i + 1 && all[j] == #[trigger] kept.deep_view()[k] by {
                if k == kept.len() - 1 {
                    assert(all[i as int] == kept.deep_view()[k]);
                } else {
                    assert(kept.deep_view()[k] == before[k]);
                }
            }
            proof {
                if all.no_duplicates() {
                    assert forall|k: int| 0 <= k < before.len() implies before[k] != f@ by {
                        assert(kept.deep_view()[k] == before[k]);
                        let j = choose|j: int| 0 <= j < i && all[j] == before[k];
                    }
                }
            }
        }
    }
    assert(all.take(n as int) =~= all);
    let r = sort_paths(kept);
    proof {
        let filtered = image_paths(all);
        assert forall|i: int| 0 <= i < r.len() implies is_image_path(#[trigger] r.deep_view()[i]) by {
            let x = r.deep_view()[i];
            assert(r.deep_view().contains(x));
            r.deep_view().to_multiset_ensures();
            filtered.to_multiset_ensures();
            assert(r.deep_view().to_multiset().count(x) > 0);
            assert(filtered.to_multiset().count(x) > 0);
            assert(filtered.contains(x));
            let k = choose|k: int| 0 <= k < filtered.len() && filtered[k] == x;
            all.lemma_filter_pred(|p: Seq<char>| is_image_path(p), k);
        }
        if all.no_duplicates() {
            let kv = image_paths(all);
            kv.lemma_multiset_has_no_duplicates();
            assert forall|x: Seq<char>| r.deep_view().to_multiset().contains(x) implies r.deep_view().to_multiset().count(x) == 1 by {
            }
            r.deep_view().lemma_multiset_has_no_duplicates_conv();
        }
    }
    r
}

/// What a scan reports for the image at `p` under the scanned folder `root`: its path, its
/// path relative to `root` (the whole path when `root` is not a prefix), and a dot with its
/// lowercased extension.
pub open spec fn scanned_text(p: Seq<char>, root: Seq<char>) -> (Seq<char>, Seq<char>, Seq<char>) {
    (
        p,
        match stripped_of(p, root) {
            Some(rel) => rel,
            None => p,
        },
        "."@ + lower_ext(p),
    )
}

/// The view of a scanned image: its path, relative path and extension.
pub open spec fn image_view(img: ScannedImage) -> (Seq<char>, Seq<char>, Seq<char>) {
    (img.source@, img.relative@, img.source_ext@)
}

/// What a scan reports for the image at `path` under the scanned folder `root`.
pub fn scanned_image(path: &str, root: &str) -> (r: ScannedImage)
    ensures
        image_view(r) == scanned_text(path@, root@),
{
    let relative = match strip_prefix(path, root) {
        Some(rel) => rel,
        None => owned(path),
    };
    let ext = lower_extension(path);
    let source_ext = join2(".", ext.as_str());
    ScannedImage { source: owned(path), relative, source_ext }
}

/// The report of a scan of `working_folder` whose files (found under it, in any order) are
/// `files`, with output going to `output_root`.
pub fn scan_folder(working_folder: &str, output_root: String, files: &Vec<String>) -> (r: ScanResult)
    ensures
        r.working_folder@ == working_folder@,
        r.output_root@ == output_root@,
        r.counts.total_images == r.images.len(),
        r.images.len() == path_sorted(image_paths(files.deep_view())).len(),
        forall|i: int|
            0 <= i < r.images.len() ==> image_view(#[trigger] r.images[i]) == scanned_text(
                path_sorted(image_paths(files.deep_view()))[i],
                working_folder@,
            ),
{
    let found = find_images(files);
    let n = found.len();
    let mut images: Vec<ScannedImage> = Vec::new();
    for i in 0..n
        invariant
            n == found.len(),
            images.len() == i,
            forall|j: int|
                0 <= j < i ==> image_view(#[trigger] images[j]) == scanned_text(
                    found.deep_view()[j],
                    working_folder@,
                ),
    {
        let img = scanned_image(found[i].as_str(), working_folder);
        images.push(img);
    }
    let total = images.len();
    ScanResult {
        working_folder: owned(working_folder),
        output_root,
        counts: ScanCounts { total_images: total },
        images,
    }
}

} // verus!
