use imgup::image::is_image;
use imgup::options::{process_path, not_image_message, BaseOption, Decision};

#[test]
fn accepts_each_allowed_extension() {
    assert!(is_image("photo.jpg"));
    assert!(is_image("photo.jpeg"));
    assert!(is_image("photo.png"));
    assert!(is_image("photo.gif"));
    assert!(is_image("photo.bmp"));
}

#[test]
fn accepts_mixed_case_extensions() {
    assert!(is_image("photo.JPG"));
    assert!(is_image("photo.JpEg"));
    assert!(is_image("photo.PnG"));
    assert!(is_image("photo.GIF"));
    assert!(is_image("photo.Bmp"));
}

#[test]
fn accepts_with_directories() {
    assert!(is_image("/home/user/pics/cat.png"));
    assert!(is_image("a/b/c/d.jpeg"));
}

#[test]
fn rejects_other_extensions() {
    assert!(!is_image("notes.txt"));
    assert!(!is_image("setup.exe"));
    assert!(!is_image("archive.tar.gz"));
    assert!(!is_image("photo.jpg.bak"));
}

#[test]
fn rejects_without_extension() {
    assert!(!is_image("photo"));
    assert!(!is_image("dir.png/photo"));
    assert!(!is_image(""));
}

#[test]
fn rejects_hidden_file_whose_name_is_only_an_extension() {
    assert!(!is_image(".png"));
    assert!(!is_image("dir/.jpg"));
}

#[test]
fn rejects_trailing_dot() {
    assert!(!is_image("photo."));
}

#[test]
fn upload_mode_uploads_only_images() {
    assert_eq!(process_path(BaseOption::PicUpload, "cat.png"), Decision::StartUpload);
    assert_eq!(process_path(BaseOption::PicUpload, "cat.txt"), Decision::RejectNotImage);
}

#[test]
fn md5_mode_accepts_any_file() {
    assert_eq!(process_path(BaseOption::FileMD5, "cat.txt"), Decision::ComputeMd5);
    assert_eq!(process_path(BaseOption::FileMD5, "cat.png"), Decision::ComputeMd5);
}

#[test]
fn not_image_message_names_the_path() {
    assert_eq!(not_image_message("cat.txt"), "Not a image file: cat.txt");
}
