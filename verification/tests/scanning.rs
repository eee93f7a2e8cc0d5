use squish::paths::{extension, file_stem};
use squish::convert::{failure_output_ext, item_output_path, item_source_ext, ConvertRequest, ScannedImageInput};
use squish::scan::{find_images, output_root_for, plan_source, scan_folder, scanned_image, SourcePlan};

fn strings(v: &[&str]) -> Vec<String> {
    v.iter().map(|s| s.to_string()).collect()
}

#[test]
fn missing_source_is_refused() {
    assert_eq!(plan_source("/nowhere", false, false, false).unwrap_err(), "Source path does not exist.");
}

#[test]
fn folder_source_is_scanned_in_place() {
    match plan_source("/data/photos", true, true, false).unwrap() {
        SourcePlan::Folder { folder, label } => {
            assert_eq!(folder, "/data/photos");
            assert_eq!(label, "photos");
        }
        other => panic!("unexpected {:?}", other),
    }
}

#[test]
fn zip_source_is_extracted_beside_it() {
    match plan_source("/data/Holiday.ZIP", true, false, true).unwrap() {
        SourcePlan::Zip { archive, extract_root, label } => {
            assert_eq!(archive, "/data/Holiday.ZIP");
            assert_eq!(extract_root, "/data/Holiday__extracted");
            assert_eq!(label, "Holiday");
        }
        other => panic!("unexpected {:?}", other),
    }
}

#[test]
fn other_files_are_refused() {
    assert_eq!(
        plan_source("/data/notes.txt", true, false, true).unwrap_err(),
        "Source must be a folder or a .zip file."
    );
    assert_eq!(
        plan_source("/data/odd.zip", true, false, false).unwrap_err(),
        "Source must be a folder or a .zip file."
    );
}

#[test]
fn output_root_needs_a_base_folder_and_a_name() {
    assert_eq!(
        output_root_for(false, "/out", "name").unwrap_err(),
        "Output base path does not exist or is not a directory."
    );
    assert_eq!(output_root_for(true, "/out", "   ").unwrap_err(), "Output folder name is required.");
    assert_eq!(output_root_for(true, "/out", "").unwrap_err(), "Output folder name is required.");
    assert_eq!(output_root_for(true, "/out", "  squished \n").unwrap(), "/out/squished");
    assert_eq!(output_root_for(true, "/out", "\u{3000}\u{2003}").unwrap_err(), "Output folder name is required.");
}

#[test]
fn images_are_filtered_and_sorted() {
    let files = strings(&["/r/b/z.png", "/r/a.txt", "/r/a/B.JPG", "/r/c.gif", "/r/noext", "/r/a/a.webp"]);
    let found = find_images(&files);
    assert_eq!(found, strings(&["/r/a/B.JPG", "/r/a/a.webp", "/r/b/z.png", "/r/c.gif"]));
    assert!(find_images(&Vec::new()).is_empty());
}

#[test]
fn paths_sort_by_component() {
    let found = find_images(&strings(&["a.b/c.png", "a/b.png", "a/a.png"]));
    assert_eq!(found, strings(&["a/a.png", "a/b.png", "a.b/c.png"]));
}

#[test]
fn scanned_images_are_relative_to_the_root() {
    let img = scanned_image("/root/sub/x.PNG", "/root");
    assert_eq!(img.source, "/root/sub/x.PNG");
    assert_eq!(img.relative, "sub/x.PNG");
    assert_eq!(img.source_ext, ".png");
    let other = scanned_image("/elsewhere/y.jpg", "/root");
    assert_eq!(other.relative, "/elsewhere/y.jpg");
}

#[test]
fn scan_counts_the_images() {
    let files = strings(&["/r/2.png", "/r/readme.md", "/r/1.jpeg"]);
    let result = scan_folder("/r", "/out/x".to_string(), &files);
    assert_eq!(result.working_folder, "/r");
    assert_eq!(result.output_root, "/out/x");
    assert_eq!(result.counts.total_images, 2);
    assert_eq!(result.images.len(), 2);
    assert_eq!(result.images[0].relative, "1.jpeg");
    assert_eq!(result.images[0].source_ext, ".jpeg");
    assert_eq!(result.images[1].source, "/r/2.png");
}

#[test]
fn hidden_files_have_no_extension() {
    let found = find_images(&strings(&["/r/.png", "/r/x.tar.png", "/r/x.png.txt"]));
    assert_eq!(found, strings(&["/r/x.tar.png"]));
}

fn request(mode: &str, format: Option<&str>) -> ConvertRequest {
    ConvertRequest {
        images: vec![],
        output_root: "/out".to_string(),
        mode: mode.to_string(),
        preset: "Balanced".to_string(),
        output_format: format.map(|f| f.to_string()),
        quality: Some(70),
        lossless: None,
        max_width: Some(100),
        max_height: None,
        target_kb: Some(5),
        strip_metadata: Some(true),
    }
}

#[test]
fn conversion_normalizes_the_reported_extension() {
    assert_eq!(item_source_ext(".JPEG"), "jpeg");
    assert_eq!(item_source_ext("png"), "png");
    assert_eq!(item_source_ext("..Gif"), "gif");
}

#[test]
fn conversion_output_paths() {
    let item = ScannedImageInput {
        source: "/r/sub/p.JPEG".to_string(),
        relative: "sub/p.JPEG".to_string(),
        source_ext: ".JPEG".to_string(),
    };
    assert_eq!(item_output_path(&request("keep_format", None), &item), "/out/sub/p_compressed.jpg");
    assert_eq!(item_output_path(&request("convert_compress", Some("png")), &item), "/out/sub/p_optimized.png");
}

#[test]
fn request_options_copy_every_field() {
    let o = request("convert_compress", Some("png")).options();
    assert_eq!(o.mode, "convert_compress");
    assert_eq!(o.preset, "Balanced");
    assert_eq!(o.output_format, Some("png".to_string()));
    assert_eq!(o.quality, Some(70));
    assert_eq!(o.lossless, None);
    assert_eq!(o.max_width, Some(100));
    assert_eq!(o.max_height, None);
    assert_eq!(o.target_kb, Some(5));
    assert_eq!(o.strip_metadata, Some(true));
}

#[test]
fn failed_conversions_report_the_output_extension() {
    assert_eq!(failure_output_ext("/out/p_webp.webp"), ".webp");
    assert_eq!(failure_output_ext("/out/p_webp.WebP"), ".WebP");
    assert_eq!(failure_output_ext("/out/plain"), "");
}

#[test]
fn stem_and_extension_follow_std_path() {
    let samples = [
        "a", ".a", "a.", "a.b.c", "..", "...", ".a.b", "dir/.hidden", "dir/", "/", "", "a/b.tar.gz",
        "x/..", "a/./b.c", "é.ß", "dir/photo.JPEG", "..x", "a..", "./a.b", "dir/.",
    ];
    for s in samples {
        let p = std::path::Path::new(s);
        assert_eq!(
            file_stem(s),
            p.file_stem().map(|x| x.to_string_lossy().into_owned()),
            "stem of {:?}",
            s
        );
        assert_eq!(
            extension(s),
            p.extension().map(|x| x.to_string_lossy().into_owned()),
            "extension of {:?}",
            s
        );
    }
}

#[test]
fn listed_duplicates_stay_duplicates() {
    let found = find_images(&strings(&["/r/a.png", "/r/a.png", "/r/b.gif"]));
    assert_eq!(found, strings(&["/r/a.png", "/r/a.png", "/r/b.gif"]));
}
