use imgup::options::BaseOption;

#[test]
fn default_mode_is_picture_upload() {
    assert_eq!(BaseOption::default(), BaseOption::PicUpload);
}

#[test]
fn hints_for_both_modes() {
    assert_eq!(
        BaseOption::PicUpload.hint(),
        "上传图片到github，将Markdown链接写入剪贴板"
    );
    assert_eq!(
        BaseOption::FileMD5.hint(),
        "计算文件 md5，并生成文件，同时写入剪贴板"
    );
}

#[test]
fn button_labels_for_both_modes() {
    assert_eq!(BaseOption::PicUpload.button_txt(), "Upload Image");
    assert_eq!(BaseOption::FileMD5.button_txt(), "Select File");
}

#[test]
fn names_for_both_modes() {
    assert_eq!(BaseOption::PicUpload.name(), "PicUpload");
    assert_eq!(BaseOption::FileMD5.name(), "FileMD5");
}
