//! The media store: where images live, how large one may be, under which
//! name an upload is stored, and in which steps it is saved. The steps ask
//! their driver for the time, the directory and the write, one at a time;
//! the driver touches the disk.

use vstd::prelude::*;
use vstd::string::StringExecFns;

verus! {

/// The largest image that is accepted, in bytes: 3 MiB.
pub const MAX_IMAGE_BYTES: usize = 3 * 1024 * 1024;

/// The two directories of the media store.
#[derive(Debug, Clone, Copy, PartialEq, Eq, Structural)]
pub enum Directory {
    /// Profile images of users.
    Profiles,
    /// Images of posts.
    Posts,
}

impl Directory {
    /// The directory's path, relative to the service's working directory.
    pub open spec fn location(self) -> Seq<char> {
        match self {
            Directory::Profiles => "files/usersProfiles"@,
            Directory::Posts => "files/userPost"@,
        }
    }

    /// The directory's path, relative to the service's working directory.
    pub fn path(self) -> (path: &'static str)
        ensures
            path@ == self.location(),
    {
        match self {
            Directory::Profiles => "files/usersProfiles",
            Directory::Posts => "files/userPost",
        }
    }
}

/// An image as it was uploaded: its bytes and the name that the client gave it.
#[derive(Debug, Clone, PartialEq, Eq)]
pub struct Upload {
    pub bytes: Vec<u8>,
    pub filename: String,
}

/// An upload, as contracts see it.
pub ghost struct UploadView {
    pub bytes: Seq<u8>,
    pub filename: Seq<char>,
}

impl View for Upload {
    type V = UploadView;

    open spec fn view(&self) -> UploadView {
        UploadView { bytes: self.bytes@, filename: self.filename@ }
    }
}

/// The view of each upload.
pub open spec fn upload_views(uploads: Seq<Upload>) -> Seq<UploadView> {
    uploads.map_values(|upload: Upload| upload@)
}

/// The message with which an image over the size limit is refused.
pub open spec fn size_refusal() -> Seq<char> {
    "File size should be less than 3MB"@
}

/// The size rule: an image of more than [`MAX_IMAGE_BYTES`] bytes is refused.
pub open spec fn size_verdict(bytes: nat) -> Result<(), Seq<char>> {
    if bytes > MAX_IMAGE_BYTES {
        Err(size_refusal())
    } else {
        Ok(())
    }
}

/// Applies the size rule to an image of `bytes` bytes.
pub fn check_size(bytes: usize) -> (r: Result<(), String>)
    ensures
        crate::validation::verdict(r) == size_verdict(bytes as nat),
{
    if bytes > MAX_IMAGE_BYTES {
        Err("File size should be less than 3MB".to_owned())
    } else {
        Ok(())
    }
}

/// The decimal digit `d`, for `d` below ten.
pub open spec fn digit(d: nat) -> Seq<char> {
    if d == 0 {
        "0"@
    } else if d == 1 {
        "1"@
    } else if d == 2 {
        "2"@
    } else if d == 3 {
        "3"@
    } else if d == 4 {
        "4"@
    } else if d == 5 {
        "5"@
    } else if d == 6 {
        "6"@
    } else if d == 7 {
        "7"@
    } else if d == 8 {
        "8"@
    } else {
        "9"@
    }
}

/// `n` in decimal, without leading zeros.
pub open spec fn decimal(n: nat) -> Seq<char>
    decreases n,
{
    if n < 10 {
        digit(n)
    } else {
        decimal(n / 10) + digit(n % 10)
    }
}

/// The decimal digit `d`.
fn digit_text(d: u64) -> (text: &'static str)
    requires
        d < 10,
    ensures
        text@ == digit(d as nat),
{
    if d == 0 {
        "0"
    } else if d == 1 {
        "1"
    } else if d == 2 {
        "2"
    } else if d == 3 {
        "3"
    } else if d == 4 {
        "4"
    } else if d == 5 {
        "5"
    } else if d == 6 {
        "6"
    } else if d == 7 {
        "7"
    } else if d == 8 {
        "8"
    } else {
        "9"
    }
}

/// `n` in decimal, without leading zeros.
pub fn decimal_text(n: u64) -> (text: String)
    ensures
        text@ == decimal(n as nat),
    decreases n,
{
    if n < 10 {
        digit_text(n).to_owned()
    } else {
        let mut text = decimal_text(n / 10);
        text.append(digit_text(n % 10));
        text
    }
}

/// The name under which an upload is stored: the seconds since the epoch at
/// which it arrived, an underscore, and the name that the client gave it.
pub open spec fn stored(epoch_seconds: u64, given: Seq<char>) -> Seq<char> {
    decimal(epoch_seconds as nat) + "_"@ + given
}

/// The name under which an upload that arrived at `epoch_seconds` is stored.
/// Two uploads of one name within one second get one stored name.
pub fn stored_name(epoch_seconds: u64, given: &str) -> (name: String)
    ensures
        name@ == stored(epoch_seconds, given@),
{
    let mut name = decimal_text(epoch_seconds);
    name.append("_");
    name.append(given);
    name
}

/// What a save asks its driver to do.
#[derive(Debug, Clone, PartialEq, Eq)]
pub enum DiskRequest {
    /// Tell the time, in seconds since the epoch.
    ReadTime,
    /// Make sure that the directory is there, with the directories above it.
    CreateDirectory { directory: Directory },
    /// Create the file of this name in the directory and write the bytes to it.
    WriteFile { directory: Directory, name: String, bytes: Vec<u8> },
    /// The save has ended well: the stored name of each upload, in order.
    Saved { names: Vec<String> },
    /// The save has ended badly, for this reason.
    Failed { reason: String },
}

/// A request to the disk, as contracts see it.
pub ghost enum DiskRequestView {
    ReadTime,
    CreateDirectory { directory: Directory },
    WriteFile { directory: Directory, name: Seq<char>, bytes: Seq<u8> },
    Saved { names: Seq<Seq<char>> },
    Failed { reason: Seq<char> },
}

impl View for DiskRequest {
    type V = DiskRequestView;

    open spec fn view(&self) -> DiskRequestView {
        match *self {
            DiskRequest::ReadTime => DiskRequestView::ReadTime,
            DiskRequest::CreateDirectory { directory } => DiskRequestView::CreateDirectory { directory },
            DiskRequest::WriteFile { directory, name, bytes } => DiskRequestView::WriteFile {
                directory,
                name: name@,
                bytes: bytes@,
            },
            DiskRequest::Saved { names } => DiskRequestView::Saved { names: crate::models::texts(names@) },
            DiskRequest::Failed { reason } => DiskRequestView::Failed { reason: reason@ },
        }
    }
}

/// How the writing of a file ended.
#[derive(Debug, Clone, Copy, PartialEq, Eq, Structural)]
pub enum Written {
    /// The file holds the bytes.
    Whole,
    /// The file could not be created.
    NotCreated,
    /// The file was created, but not all bytes could be written.
    NotWritten,
}

/// What the driver of a save hands back.
#[derive(Debug, Clone, Copy, PartialEq, Eq, Structural)]
pub enum DiskAnswer {
    /// The time, where the clock tells one that is not before the epoch.
    Time { seconds: Option<u64> },
    /// Whether the directory is there now.
    Directory { created: bool },
    /// How the writing ended.
    File { written: Written },
}

/// Where the saving of the images of a post stands.
#[derive(Debug, Clone, PartialEq, Eq)]
pub enum ImagesSave {
    /// The directory was asked for.
    AwaitingDirectory { pending: Vec<Upload> },
    /// The time was asked for, to name the first of `pending`.
    AwaitingTime { pending: Vec<Upload>, saved: Vec<String> },
    /// The first of the uploads was handed over to be written as `name`.
    AwaitingWrite { pending: Vec<Upload>, saved: Vec<String>, name: String },
    /// The save has ended.
    Finished,
}

/// The state of a save of images, as contracts see it.
pub ghost enum ImagesSaveView {
    AwaitingDirectory { pending: Seq<UploadView> },
    AwaitingTime { pending: Seq<UploadView>, saved: Seq<Seq<char>> },
    AwaitingWrite { pending: Seq<UploadView>, saved: Seq<Seq<char>>, name: Seq<char> },
    Finished,
}

impl View for ImagesSave {
    type V = ImagesSaveView;

    open spec fn view(&self) -> ImagesSaveView {
        match *self {
            ImagesSave::AwaitingDirectory { pending } => ImagesSaveView::AwaitingDirectory {
                pending: upload_views(pending@),
            },
            ImagesSave::AwaitingTime { pending, saved } => ImagesSaveView::AwaitingTime {
                pending: upload_views(pending@),
                saved: crate::models::texts(saved@),
            },
            ImagesSave::AwaitingWrite { pending, saved, name } => ImagesSaveView::AwaitingWrite {
                pending: upload_views(pending@),
                saved: crate::models::texts(saved@),
                name: name@,
            },
            ImagesSave::Finished => ImagesSaveView::Finished,
        }
    }
}

/// A step of a save of images, as contracts see it.
pub open spec fn images_step_view(step: Option<(ImagesSave, DiskRequest)>) -> Option<
    (ImagesSaveView, DiskRequestView),
> {
    match step {
        Some((state, request)) => Some((state@, request@)),
        None => None,
    }
}

/// The step that ends a save of images with `reason`.
pub open spec fn images_failed(reason: Seq<char>) -> (ImagesSaveView, DiskRequestView) {
    (ImagesSaveView::Finished, DiskRequestView::Failed { reason })
}

/// What follows once the uploads before `pending` are written: the time
/// for the next one, or the end with every stored name.
pub open spec fn next_image(pending: Seq<UploadView>, saved: Seq<Seq<char>>) -> (ImagesSaveView, DiskRequestView) {
    if pending.len() > 0 {
        (ImagesSaveView::AwaitingTime { pending, saved }, DiskRequestView::ReadTime)
    } else {
        (ImagesSaveView::Finished, DiskRequestView::Saved { names: saved })
    }
}

/// How a save of images begins: the directory of the posts is asked for.
pub open spec fn images_start(uploads: Seq<UploadView>) -> (ImagesSaveView, DiskRequestView) {
    (
        ImagesSaveView::AwaitingDirectory { pending: uploads },
        DiskRequestView::CreateDirectory { directory: Directory::Posts },
    )
}

/// The step that `answer` causes in a save of images; `None` where
/// `answer` does not answer what `state` waits for. Each upload is named
/// by the time at which its turn comes. A failure ends the save; what was
/// written before stays.
pub open spec fn save_multiple_images_model(state: ImagesSaveView, answer: DiskAnswer) -> Option<
    (ImagesSaveView, DiskRequestView),
> {
    match state {
        ImagesSaveView::AwaitingDirectory { pending } => match answer {
            DiskAnswer::Directory { created } => if created {
                Some(next_image(pending, Seq::empty()))
            } else {
                Some(images_failed("Failed to create directory"@))
            },
            _ => None,
        },
        ImagesSaveView::AwaitingTime { pending, saved } => match answer {
            DiskAnswer::Time { seconds } => if pending.len() == 0 {
                None
            } else {
                match seconds {
                    None => Some(images_failed("Failed to get unix time"@)),
                    Some(now) => Some(
                        (
                            ImagesSaveView::AwaitingWrite {
                                pending: pending.drop_first(),
                                saved,
                                name: stored(now, pending[0].filename),
                            },
                            DiskRequestView::WriteFile {
                                directory: Directory::Posts,
                                name: stored(now, pending[0].filename),
                                bytes: pending[0].bytes,
                            },
                        ),
                    ),
                }
            },
            _ => None,
        },
        ImagesSaveView::AwaitingWrite { pending, saved, name } => match answer {
            DiskAnswer::File { written } => match written {
                Written::NotCreated => Some(images_failed("Failed to create image file"@)),
                Written::NotWritten => Some(images_failed("Failed to write image data"@)),
                Written::Whole => Some(next_image(pending, saved.push(name))),
            },
            _ => None,
        },
        ImagesSaveView::Finished => None,
    }
}

/// Ends a save of images with `reason`.
fn fail_images(reason: &str) -> (step: (ImagesSave, DiskRequest))
    ensures
        (step.0@, step.1@) == images_failed(reason@),
{
    (ImagesSave::Finished, DiskRequest::Failed { reason: reason.to_owned() })
}

/// Goes on to the next upload, or ends with every stored name.
fn continue_images(pending: Vec<Upload>, saved: Vec<String>) -> (step: (ImagesSave, DiskRequest))
    ensures
        (step.0@, step.1@) == next_image(upload_views(pending@), crate::models::texts(saved@)),
{
    if pending.len() > 0 {
        (ImagesSave::AwaitingTime { pending, saved }, DiskRequest::ReadTime)
    } else {
        (ImagesSave::Finished, DiskRequest::Saved { names: saved })
    }
}

impl ImagesSave {
    /// Begins the saving of the images of a post.
    pub fn start(uploads: Vec<Upload>) -> (step: (ImagesSave, DiskRequest))
        ensures
            (step.0@, step.1@) == images_start(upload_views(uploads@)),
    {
        (ImagesSave::AwaitingDirectory { pending: uploads }, DiskRequest::CreateDirectory { directory: Directory::Posts })
    }
}

/// Takes the saving of the images of a post one step further: the
/// directory is made, then each image in turn is named by the time and
/// written; the stored names come back in the order of the uploads. The
/// result is `None` where `answer` does not answer what `state` waits for.
pub fn save_multiple_images(state: ImagesSave, answer: DiskAnswer) -> (step: Option<(ImagesSave, DiskRequest)>)
    ensures
        images_step_view(step) == save_multiple_images_model(state@, answer),
{
    match state {
        ImagesSave::AwaitingDirectory { pending } => match answer {
            DiskAnswer::Directory { created } => {
                if created {
                    let saved: Vec<String> = Vec::new();
                    assert(crate::models::texts(saved@) =~= Seq::empty());
                    Some(continue_images(pending, saved))
                } else {
                    Some(fail_images("Failed to create directory"))
                }
            },
            _ => None,
        },
        ImagesSave::AwaitingTime { pending, saved } => match answer {
            DiskAnswer::Time { seconds } => {
                if pending.len() == 0 {
                    None
                } else {
                    match seconds {
                        None => Some(fail_images("Failed to get unix time")),
                        Some(now) => {
                            let mut pending = pending;
                            let ghost all = pending@;
                            let Upload { bytes, filename } = pending.remove(0);
                            let name = stored_name(now, filename.as_str());
                            proof {
                                assert(pending@ =~= all.drop_first());
                                assert(upload_views(pending@) =~= upload_views(all).drop_first());
                            }
                            Some(
                                (
                                    ImagesSave::AwaitingWrite { pending, saved, name: name.clone() },
                                    DiskRequest::WriteFile { directory: Directory::Posts, name, bytes },
                                ),
                            )
                        },
                    }
                }
            },
            _ => None,
        },
        ImagesSave::AwaitingWrite { pending, saved, name } => match answer {
            DiskAnswer::File { written } => match written {
                Written::NotCreated => Some(fail_images("Failed to create image file")),
                Written::NotWritten => Some(fail_images("Failed to write image data")),
                Written::Whole => {
                    let mut saved = saved;
                    let ghost before = saved@;
                    saved.push(name);
                    assert(crate::models::texts(saved@) =~= crate::models::texts(before).push(name@));
                    Some(continue_images(pending, saved))
                },
            },
            _ => None,
        },
        ImagesSave::Finished => None,
    }
}

/// Where the saving of a profile image stands.
#[derive(Debug, Clone, PartialEq, Eq)]
pub enum ProfileSave {
    /// The time was asked for, to name the image.
    AwaitingTime { upload: Upload },
    /// The directory was asked for.
    AwaitingDirectory { name: String, bytes: Vec<u8> },
    /// The image was handed over to be written as `name`.
    AwaitingWrite { name: String },
    /// The save has ended.
    Finished,
}

/// The state of a save of a profile image, as contracts see it.
pub ghost enum ProfileSaveView {
    AwaitingTime { upload: UploadView },
    AwaitingDirectory { name: Seq<char>, bytes: Seq<u8> },
    AwaitingWrite { name: Seq<char> },
    Finished,
}

impl View for ProfileSave {
    type V = ProfileSaveView;

    open spec fn view(&self) -> ProfileSaveView {
        match *self {
            ProfileSave::AwaitingTime { upload } => ProfileSaveView::AwaitingTime { upload: upload@ },
            ProfileSave::AwaitingDirectory { name, bytes } => ProfileSaveView::AwaitingDirectory {
                name: name@,
                bytes: bytes@,
            },
            ProfileSave::AwaitingWrite { name } => ProfileSaveView::AwaitingWrite { name: name@ },
            ProfileSave::Finished => ProfileSaveView::Finished,
        }
    }
}

/// A step of a save of a profile image, as contracts see it.
pub open spec fn profile_step_view(step: Option<(ProfileSave, DiskRequest)>) -> Option<
    (ProfileSaveView, DiskRequestView),
> {
    match step {
        Some((state, request)) => Some((state@, request@)),
        None => None,
    }
}

/// The step that ends a save of a profile image with `reason`.
pub open spec fn profile_failed(reason: Seq<char>) -> (ProfileSaveView, DiskRequestView) {
    (ProfileSaveView::Finished, DiskRequestView::Failed { reason })
}

/// How a save of a profile image begins: the time is asked for.
pub open spec fn profile_start(upload: UploadView) -> (ProfileSaveView, DiskRequestView) {
    (ProfileSaveView::AwaitingTime { upload }, DiskRequestView::ReadTime)
}

/// The step that `answer` causes in a save of a profile image; `None`
/// where `answer` does not answer what `state` waits for.
pub open spec fn save_profile_image_model(state: ProfileSaveView, answer: DiskAnswer) -> Option<
    (ProfileSaveView, DiskRequestView),
> {
    match state {
        ProfileSaveView::AwaitingTime { upload } => match answer {
            DiskAnswer::Time { seconds: None } => Some(profile_failed("Failed to get current time"@)),
            DiskAnswer::Time { seconds: Some(now) } => Some(
                (
                    ProfileSaveView::AwaitingDirectory { name: stored(now, upload.filename), bytes: upload.bytes },
                    DiskRequestView::CreateDirectory { directory: Directory::Profiles },
                ),
            ),
            _ => None,
        },
        ProfileSaveView::AwaitingDirectory { name, bytes } => match answer {
            DiskAnswer::Directory { created } => if created {
                Some(
                    (
                        ProfileSaveView::AwaitingWrite { name },
                        DiskRequestView::WriteFile { directory: Directory::Profiles, name, bytes },
                    ),
                )
            } else {
                Some(profile_failed("Failed to create upload directory"@))
            },
            _ => None,
        },
        ProfileSaveView::AwaitingWrite { name } => match answer {
            DiskAnswer::File { written } => match written {
                Written::NotCreated => Some(profile_failed("Failed to create image file"@)),
                Written::NotWritten => Some(profile_failed("Failed to write image file"@)),
                Written::Whole => Some(
                    (ProfileSaveView::Finished, DiskRequestView::Saved { names: seq![name] }),
                ),
            },
            _ => None,
        },
        ProfileSaveView::Finished => None,
    }
}

/// Ends a save of a profile image with `reason`.
fn fail_profile(reason: &str) -> (step: (ProfileSave, DiskRequest))
    ensures
        (step.0@, step.1@) == profile_failed(reason@),
{
    (ProfileSave::Finished, DiskRequest::Failed { reason: reason.to_owned() })
}

impl ProfileSave {
    /// Begins the saving of a profile image.
    pub fn start(upload: Upload) -> (step: (ProfileSave, DiskRequest))
        ensures
            (step.0@, step.1@) == profile_start(upload@),
    {
        (ProfileSave::AwaitingTime { upload }, DiskRequest::ReadTime)
    }
}

/// Takes the saving of a profile image one step further: the image is
/// named by the time, the directory is made, and the image is written;
/// the stored name comes back. The result is `None` where `answer` does
/// not answer what `state` waits for.
pub fn save_profile_image(state: ProfileSave, answer: DiskAnswer) -> (step: Option<(ProfileSave, DiskRequest)>)
    ensures
        profile_step_view(step) == save_profile_image_model(state@, answer),
{
    match state {
        ProfileSave::AwaitingTime { upload } => match answer {
            DiskAnswer::Time { seconds: None } => Some(fail_profile("Failed to get current time")),
            DiskAnswer::Time { seconds: Some(now) } => {
                let Upload { bytes, filename } = upload;
                let name = stored_name(now, filename.as_str());
                Some(
                    (
                        ProfileSave::AwaitingDirectory { name, bytes },
                        DiskRequest::CreateDirectory { directory: Directory::Profiles },
                    ),
                )
            },
            _ => None,
        },
        ProfileSave::AwaitingDirectory { name, bytes } => match answer {
            DiskAnswer::Directory { created } => {
                if created {
                    Some(
                        (
                            ProfileSave::AwaitingWrite { name: name.clone() },
                            DiskRequest::WriteFile { directory: Directory::Profiles, name, bytes },
                        ),
                    )
                } else {
                    Some(fail_profile("Failed to create upload directory"))
                }
            },
            _ => None,
        },
        ProfileSave::AwaitingWrite { name } => match answer {
            DiskAnswer::File { written } => match written {
                Written::NotCreated => Some(fail_profile("Failed to create image file")),
                Written::NotWritten => Some(fail_profile("Failed to write image file")),
                Written::Whole => {
                    let mut saved: Vec<String> = Vec::new();
                    saved.push(name);
                    assert(crate::models::texts(saved@) =~= seq![name@]);
                    Some((ProfileSave::Finished, DiskRequest::Saved { names: saved }))
                },
            },
            _ => None,
        },
        ProfileSave::Finished => None,
    }
}

} // verus!
