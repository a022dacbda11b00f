use datalint_core::errors::DatalintError;
use datalint_core::format::common::is_json_file;
use datalint_core::models::Split;
use datalint_core::paths::relative_dir;
use datalint_core::scanner::{
    channel_count, contains_chars, has_extension_in, image_extension_list, infer_split,
    is_image_file, process_image, scan_images, select_image_paths, split_of_lowered,
    DecodedImage,
};
use image::{DynamicImage, GrayImage, ImageFormat, RgbImage};
use std::io::Cursor;

fn encode(img: DynamicImage, format: ImageFormat) -> Vec<u8> {
    let mut buf = Vec::new();
    img.write_to(&mut Cursor::new(&mut buf), format).unwrap();
    buf
}

fn rgb_jpeg(w: u32, h: u32) -> Vec<u8> {
    encode(DynamicImage::ImageRgb8(RgbImage::new(w, h)), ImageFormat::Jpeg)
}

fn gray_png(w: u32, h: u32) -> Vec<u8> {
    encode(DynamicImage::ImageLuma8(GrayImage::new(w, h)), ImageFormat::Png)
}

#[test]
fn split_single_keyword() {
    assert_eq!(infer_split("train"), Split::Train);
    assert_eq!(infer_split("images/val/cats"), Split::Val);
    assert_eq!(infer_split("test"), Split::Test);
}

#[test]
fn split_is_case_insensitive() {
    assert_eq!(infer_split("Data/TRAIN"), Split::Train);
    assert_eq!(infer_split("VaL"), Split::Val);
    assert_eq!(infer_split("My_Test_Set"), Split::Test);
}

#[test]
fn split_none_or_several_is_unknown() {
    assert_eq!(infer_split(""), Split::Unknown);
    assert_eq!(infer_split("misc"), Split::Unknown);
    assert_eq!(infer_split("trainval"), Split::Unknown);
    assert_eq!(infer_split("train/test"), Split::Unknown);
}

#[test]
fn split_of_lowered_text() {
    assert_eq!(split_of_lowered("a/validation"), Split::Val);
    assert_eq!(split_of_lowered("a/TRAIN"), Split::Unknown);
}

#[test]
fn split_names() {
    assert_eq!(Split::Train.as_str(), "train");
    assert_eq!(Split::Val.as_str(), "val");
    assert_eq!(Split::Test.as_str(), "test");
    assert_eq!(Split::Unknown.as_str(), "unknown");
}

#[test]
fn substring_search() {
    let s: Vec<char> = "abcabd".chars().collect();
    assert!(contains_chars(&s, &"abd".chars().collect()));
    assert!(!contains_chars(&s, &"abe".chars().collect()));
    assert!(contains_chars(&s, &Vec::new()));
    assert!(!contains_chars(&Vec::new(), &"a".chars().collect()));
}

#[test]
fn image_extensions_any_case() {
    assert!(is_image_file("root/train/a.jpg"));
    assert!(is_image_file("root/train/a.JPEG"));
    assert!(is_image_file("b.Png"));
    assert!(is_image_file("x/y.tif"));
    assert!(!is_image_file("notes.txt"));
    assert!(!is_image_file("archive.json"));
    assert!(!is_image_file("noextension"));
    assert!(!is_image_file(".png"));
}

#[test]
fn extension_filter_is_configurable() {
    let mut allowed = image_extension_list();
    assert_eq!(allowed.len(), 10);
    assert!(!has_extension_in("a/b.raw", &allowed));
    allowed.push("raw".to_string());
    assert!(has_extension_in("a/b.RAW", &allowed));
}

#[test]
fn json_files() {
    assert!(is_json_file("labels/instances.json"));
    assert!(!is_json_file("labels/instances.JSON"));
    assert!(!is_json_file("labels/instances.yaml"));
    assert!(!is_json_file("json"));
}

#[test]
fn candidate_selection_keeps_order() {
    let paths = vec![
        "r/a.png".to_string(),
        "r/readme.md".to_string(),
        "r/b.JPG".to_string(),
        "r/c".to_string(),
    ];
    assert_eq!(select_image_paths(&paths), vec!["r/a.png".to_string(), "r/b.JPG".to_string()]);
}

#[test]
fn relative_directory() {
    assert_eq!(relative_dir("root/a/b/c.png", "root"), "a/b");
    assert_eq!(relative_dir("root/c.png", "root"), "");
    assert_eq!(relative_dir("other/c.png", "root"), "");
}

#[test]
fn channel_counts() {
    let d = |c: bool, a: bool| DecodedImage { width: 1, height: 1, has_color: c, has_alpha: a };
    assert_eq!(channel_count(d(false, false)), 1);
    assert_eq!(channel_count(d(false, true)), 1);
    assert_eq!(channel_count(d(true, false)), 3);
    assert_eq!(channel_count(d(true, true)), 4);
}

#[test]
fn three_file_dataset() {
    let a = rgb_jpeg(10, 10);
    let b = gray_png(4, 4);
    let c: Vec<u8> = Vec::new();
    let outcomes = vec![
        process_image("ds/train/a.jpg", "ds", a.len() as u64, &a),
        process_image("ds/val/b.png", "ds", b.len() as u64, &b),
        process_image("ds/misc/c.png", "ds", 0, &c),
    ];
    let records = scan_images("ds", true, &outcomes).unwrap();
    assert_eq!(records.len(), 3);

    let ra = &records[0];
    assert_eq!(ra.name, "a");
    assert_eq!(ra.filename, "a.jpg");
    assert_eq!(ra.extension.as_deref(), Some("jpg"));
    assert_eq!(ra.relative_path, "train");
    assert_eq!(ra.split, Split::Train);
    assert_eq!((ra.width, ra.height, ra.channels), (Some(10), Some(10), Some(3)));
    assert!(!ra.is_corrupted);
    assert_eq!(ra.id, None);
    assert_eq!(ra.file_size, a.len() as u64);

    let rb = &records[1];
    assert_eq!(rb.split, Split::Val);
    assert_eq!((rb.width, rb.height, rb.channels), (Some(4), Some(4), Some(1)));
    assert!(!rb.is_corrupted);

    let rc = &records[2];
    assert_eq!(rc.split, Split::Unknown);
    assert_eq!(rc.extension.as_deref(), Some("png"));
    assert_eq!((rc.width, rc.height, rc.channels), (None, None, None));
    assert!(rc.is_corrupted);
}

#[test]
fn garbage_bytes_are_corrupted() {
    let data = b"definitely not an image".to_vec();
    let r = process_image("ds/train/x.PNG", "ds", data.len() as u64, &data).unwrap();
    assert!(r.is_corrupted);
    assert_eq!((r.width, r.height, r.channels), (None, None, None));
    assert_eq!(r.extension.as_deref(), Some("png"));
    assert_eq!(r.split, Split::Train);
}

#[test]
fn identical_bytes_identical_hash() {
    let data = gray_png(3, 2);
    let r1 = process_image("ds/train/one.png", "ds", 1, &data).unwrap();
    let r2 = process_image("elsewhere/test/copy.bmp", "other", 2, &data).unwrap();
    assert_eq!(r1.file_hash, r2.file_hash);
    assert_eq!(r1.file_hash.len(), 16);
    let r3 = process_image("ds/train/two.png", "ds", 1, &gray_png(2, 3)).unwrap();
    assert_ne!(r1.file_hash, r3.file_hash);
}

#[test]
fn path_without_file_name_is_refused() {
    let data = Vec::new();
    assert!(matches!(process_image("ds/..", "ds", 0, &data), Err(DatalintError::Core(_))));
}

#[test]
fn missing_root_is_not_found() {
    let r = scan_images("/no/such/dir", false, &Vec::new());
    assert_eq!(r.unwrap_err(), DatalintError::NotFound("/no/such/dir".to_string()));
}

#[test]
fn empty_dataset_has_no_records() {
    let r = scan_images("ds", true, &Vec::new()).unwrap();
    assert!(r.is_empty());
}

#[test]
fn failed_files_are_left_out() {
    let data = gray_png(2, 2);
    let outcomes = vec![
        Err(DatalintError::Io("unreadable".to_string())),
        process_image("ds/val/ok.png", "ds", data.len() as u64, &data),
    ];
    let records = scan_images("ds", true, &outcomes).unwrap();
    assert_eq!(records.len(), 1);
    assert_eq!(records[0].filename, "ok.png");
}
