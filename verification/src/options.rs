//! The two modes the tool offers, the texts shown for them, and the
//! decision taken when a file is dropped or selected.

use vstd::prelude::*;
use crate::image::is_image;
use crate::image::spec_is_image;

verus! {

/// Which of the two functions of the tool is selected: uploading a picture
/// to GitHub, or computing a file's MD5 digest.
#[derive(Debug, Clone, Copy, PartialEq, Eq, Structural)]
pub enum BaseOption {
    PicUpload,
    FileMD5,
}

impl Default for BaseOption {
    /// Picture upload is the mode the tool starts in.
    fn default() -> (r: Self)
        ensures
            r == BaseOption::PicUpload,
    {
        BaseOption::PicUpload
    }
}

impl BaseOption {
    /// The hint line shown beside the mode picker.
    pub fn hint(&self) -> (r: &'static str)
        ensures
            *self == BaseOption::PicUpload ==> r@ == "上传图片到github，将Markdown链接写入剪贴板"@,
            *self == BaseOption::FileMD5 ==> r@ == "计算文件 md5，并生成文件，同时写入剪贴板"@,
    {
        match self {
            BaseOption::PicUpload => "上传图片到github，将Markdown链接写入剪贴板",
            BaseOption::FileMD5 => "计算文件 md5，并生成文件，同时写入剪贴板",
        }
    }

    /// The label of the file-selection button in each mode.
    pub fn button_txt(&self) -> (r: &'static str)
        ensures
            *self == BaseOption::PicUpload ==> r@ == "Upload Image"@,
            *self == BaseOption::FileMD5 ==> r@ == "Select File"@,
    {
        match self {
            BaseOption::PicUpload => "Upload Image",
            BaseOption::FileMD5 => "Select File",
        }
    }

    /// The plain name of the mode, as shown in the mode picker.
    pub fn name(&self) -> (r: &'static str)
        ensures
            *self == BaseOption::PicUpload ==> r@ == "PicUpload"@,
            *self == BaseOption::FileMD5 ==> r@ == "FileMD5"@,
    {
        match self {
            BaseOption::PicUpload => "PicUpload",
            BaseOption::FileMD5 => "FileMD5",
        }
    }
}

/// What one dropped or selected path leads to in the current mode.
#[derive(Debug, Clone, Copy, PartialEq, Eq, Structural)]
pub enum Decision {
    /// Upload the file as a picture.
    StartUpload,
    /// Refuse the file: picture upload was selected, but the path is not
    /// an image. No upload request is built and nothing is sent.
    RejectNotImage,
    /// Compute the file's MD5 digest.
    ComputeMd5,
}

/// Decides what to do with a path: in picture-upload mode only paths on
/// the image allow-list are uploaded, everything else is refused before
/// any network work; in MD5 mode every file is accepted.
pub fn process_path(option: BaseOption, path: &str) -> (r: Decision)
    ensures
        option == BaseOption::PicUpload && spec_is_image(path@) ==> r == Decision::StartUpload,
        option == BaseOption::PicUpload && !spec_is_image(path@) ==> r
            == Decision::RejectNotImage,
        option == BaseOption::FileMD5 ==> r == Decision::ComputeMd5,
{
    match option {
        BaseOption::PicUpload => {
            if is_image(path) {
                Decision::StartUpload
            } else {
                Decision::RejectNotImage
            }
        },
        BaseOption::FileMD5 => Decision::ComputeMd5,
    }
}

/// The text shown when a non-image path is refused in picture-upload mode.
pub fn not_image_message(path: &str) -> (r: String)
    ensures
        r@ == "Not a image file: "@ + path@,
{
    String::from_str("Not a image file: ").concat(path)
}

} // verus!
