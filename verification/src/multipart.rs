//! The parts of a multi-part request and what a form reads out of them:
//! uploads under one field name, and the text of the other fields.

use vstd::prelude::*;
use crate::media::{check_size, size_verdict, upload_views, Upload, UploadView};
use crate::models::{optional_text, texts};
use crate::text::{same_text, trimmed};
use crate::validation::{image_type_verdict, Validator};

verus! {

/// The text that a lossy UTF-8 decoding makes of `bytes`: each maximal
/// invalid run becomes U+FFFD.
pub uninterp spec fn utf8_lossy(bytes: Seq<u8>) -> Seq<char>;

/// `String::from_utf8_lossy`, taken as an owned text. The text depends on
/// the bytes alone.
#[verifier::external_body]
fn lossy_text(bytes: &[u8]) -> (text: String)
    ensures
        text@ == utf8_lossy(bytes@),
{
    String::from_utf8_lossy(bytes).into_owned()
}

/// One part of a multi-part request: the field's name, the filename of its
/// content disposition where it has one, and its content.
#[derive(Debug, Clone, PartialEq, Eq)]
pub struct Part {
    pub name: String,
    pub filename: Option<String>,
    pub data: Vec<u8>,
}

/// A part, as contracts see it.
pub ghost struct PartView {
    pub name: Seq<char>,
    pub filename: Option<Seq<char>>,
    pub data: Seq<u8>,
}

impl View for Part {
    type V = PartView;

    open spec fn view(&self) -> PartView {
        PartView { name: self.name@, filename: optional_text(self.filename), data: self.data@ }
    }
}

/// The view of each part.
pub open spec fn part_views(parts: Seq<Part>) -> Seq<PartView> {
    parts.map_values(|part: Part| part@)
}

impl PartView {
    /// The part's content as text.
    pub open spec fn text(self) -> Seq<char> {
        utf8_lossy(self.data)
    }

    /// The name of the file that the part uploads; a part without one is
    /// taken as `unknown.jpg`.
    pub open spec fn upload_name(self) -> Seq<char> {
        match self.filename {
            Some(name) => name,
            None => "unknown.jpg"@,
        }
    }

    /// The part as an upload.
    pub open spec fn upload(self) -> UploadView {
        UploadView { bytes: self.data, filename: self.upload_name() }
    }

    /// Whether the part is accepted as an image: its type by its name, then its size.
    pub open spec fn upload_verdict(self) -> Result<(), Seq<char>> {
        if image_type_verdict(self.upload_name()) is Err {
            image_type_verdict(self.upload_name())
        } else {
            size_verdict(self.data.len())
        }
    }
}

/// The text of the last part of `parts` named `field`; empty where there is none.
pub open spec fn field_text(parts: Seq<PartView>, field: Seq<char>) -> Seq<char>
    decreases parts.len(),
{
    if parts.len() == 0 {
        Seq::empty()
    } else if parts.last().name == field {
        parts.last().text()
    } else {
        field_text(parts.drop_last(), field)
    }
}

/// Whether a part of `parts` is named `field`.
pub open spec fn field_named(parts: Seq<PartView>, field: Seq<char>) -> bool
    decreases parts.len(),
{
    parts.len() > 0 && (parts.last().name == field || field_named(parts.drop_last(), field))
}

/// The text that a form gives a field: the trimmed text of the last part
/// named `field`. A form without such a part gives none.
pub open spec fn named_text(parts: Seq<PartView>, field: Seq<char>) -> Option<Seq<char>> {
    if field_named(parts, field) {
        Some(trimmed(field_text(parts, field)))
    } else {
        None
    }
}

/// A stored text as a form overrides it: where a part is named `field`,
/// the trimmed text of the last such part; otherwise `current`.
pub open spec fn overridden(parts: Seq<PartView>, field: Seq<char>, current: Seq<char>) -> Seq<char> {
    if field_named(parts, field) {
        trimmed(field_text(parts, field))
    } else {
        current
    }
}

/// The trimmed texts of the parts of `parts` named `field`, in order, without
/// those that are empty after trimming.
pub open spec fn field_texts(parts: Seq<PartView>, field: Seq<char>) -> Seq<Seq<char>>
    decreases parts.len(),
{
    if parts.len() == 0 {
        Seq::empty()
    } else if parts.last().name == field && trimmed(parts.last().text()).len() > 0 {
        field_texts(parts.drop_last(), field).push(trimmed(parts.last().text()))
    } else {
        field_texts(parts.drop_last(), field)
    }
}

/// The uploads of the parts of `parts` named `field`, in order; or the
/// refusal of the first of them that is not accepted as an image.
pub open spec fn field_uploads(parts: Seq<PartView>, field: Seq<char>) -> Result<Seq<UploadView>, Seq<char>>
    decreases parts.len(),
{
    if parts.len() == 0 {
        Ok(Seq::empty())
    } else {
        match field_uploads(parts.drop_last(), field) {
            Err(refusal) => Err(refusal),
            Ok(uploads) => if parts.last().name != field {
                Ok(uploads)
            } else {
                match parts.last().upload_verdict() {
                    Err(refusal) => Err(refusal),
                    Ok(_) => Ok(uploads.push(parts.last().upload())),
                }
            },
        }
    }
}

/// A prefix of the parts, extended by the next part.
proof fn part_views_step(parts: Seq<Part>, i: int)
    requires
        0 <= i < parts.len(),
    ensures
        part_views(parts.take(i + 1)) == part_views(parts.take(i)).push(parts[i]@),
        part_views(parts.take(i + 1)).drop_last() == part_views(parts.take(i)),
        part_views(parts.take(i + 1)).last() == parts[i]@,
        part_views(parts.take(parts.len() as int)) == part_views(parts),
{
    assert(part_views(parts.take(i + 1)) =~= part_views(parts.take(i)).push(parts[i]@));
    assert(part_views(parts.take(i + 1)).drop_last() =~= part_views(parts.take(i)));
    assert(parts.take(parts.len() as int) =~= parts);
}

/// The text of the last part named `field`; empty where there is none.
pub fn field_value(parts: &Vec<Part>, field: &str) -> (value: String)
    ensures
        value@ == field_text(part_views(parts@), field@),
{
    let mut value = String::new();
    let mut i: usize = 0;
    assert(part_views(parts@.take(0)) =~= Seq::empty());
    while i < parts.len()
        invariant
            i <= parts.len(),
            value@ == field_text(part_views(parts@.take(i as int)), field@),
        decreases parts.len() - i,
    {
        proof {
            part_views_step(parts@, i as int);
        }
        if same_text(parts[i].name.as_str(), field) {
            value = lossy_text(parts[i].data.as_slice());
        }
        i = i + 1;
    }
    proof {
        if parts.len() > 0 {
            part_views_step(parts@, 0);
        } else {
            assert(parts@.take(0) =~= parts@);
        }
    }
    value
}

/// `current`, or what the form puts in its place: the trimmed text of the
/// last part named `field`, where there is one.
pub fn field_override(parts: &Vec<Part>, field: &str, current: String) -> (value: String)
    ensures
        value@ == overridden(part_views(parts@), field@, current@),
{
    let mut value = current;
    let mut i: usize = 0;
    assert(part_views(parts@.take(0)) =~= Seq::empty());
    while i < parts.len()
        invariant
            i <= parts.len(),
            value@ == overridden(part_views(parts@.take(i as int)), field@, current@),
        decreases parts.len() - i,
    {
        proof {
            part_views_step(parts@, i as int);
        }
        if same_text(parts[i].name.as_str(), field) {
            let text = lossy_text(parts[i].data.as_slice());
            value = text.as_str().trim().to_owned();
        }
        i = i + 1;
    }
    proof {
        if parts.len() > 0 {
            part_views_step(parts@, 0);
        } else {
            assert(parts@.take(0) =~= parts@);
        }
    }
    value
}

/// The text that the form gives `field`: the trimmed text of the last part
/// named `field`, where there is one.
pub fn field_entry(parts: &Vec<Part>, field: &str) -> (value: Option<String>)
    ensures
        optional_text(value) == named_text(part_views(parts@), field@),
{
    let mut value: Option<String> = None;
    let mut i: usize = 0;
    assert(part_views(parts@.take(0)) =~= Seq::empty());
    while i < parts.len()
        invariant
            i <= parts.len(),
            optional_text(value) == named_text(part_views(parts@.take(i as int)), field@),
        decreases parts.len() - i,
    {
        proof {
            part_views_step(parts@, i as int);
        }
        if same_text(parts[i].name.as_str(), field) {
            let text = lossy_text(parts[i].data.as_slice());
            value = Some(text.as_str().trim().to_owned());
        }
        i = i + 1;
    }
    proof {
        if parts.len() > 0 {
            part_views_step(parts@, 0);
        } else {
            assert(parts@.take(0) =~= parts@);
        }
    }
    value
}

/// The trimmed texts of the parts named `field`, in order, without the empty ones.
pub fn field_values(parts: &Vec<Part>, field: &str) -> (values: Vec<String>)
    ensures
        texts(values@) == field_texts(part_views(parts@), field@),
{
    let mut values: Vec<String> = Vec::new();
    let mut i: usize = 0;
    assert(part_views(parts@.take(0)) =~= Seq::empty());
    assert(texts(values@) =~= Seq::empty());
    while i < parts.len()
        invariant
            i <= parts.len(),
            texts(values@) == field_texts(part_views(parts@.take(i as int)), field@),
        decreases parts.len() - i,
    {
        proof {
            part_views_step(parts@, i as int);
        }
        if same_text(parts[i].name.as_str(), field) {
            let text = lossy_text(parts[i].data.as_slice());
            let kept = text.as_str().trim();
            if !kept.is_empty() {
                let ghost before = values@;
                values.push(kept.to_owned());
                assert(texts(values@) =~= texts(before).push(kept@));
            }
        }
        i = i + 1;
    }
    proof {
        if parts.len() > 0 {
            part_views_step(parts@, 0);
        } else {
            assert(parts@.take(0) =~= parts@);
        }
    }
    values
}

/// Reads one part as an upload, or says why it is not accepted as an image.
pub fn read_upload(part: Part) -> (r: Result<Upload, String>)
    ensures
        match r {
            Ok(upload) => part@.upload_verdict() is Ok && upload@ == part@.upload(),
            Err(refusal) => part@.upload_verdict() == Err::<(), Seq<char>>(refusal@),
        },
{
    let filename = match part.filename {
        Some(name) => name,
        None => "unknown.jpg".to_owned(),
    };
    match Validator::validate_image_type(filename.as_str()) {
        Err(refusal) => {
            return Err(refusal);
        },
        Ok(_) => {},
    }
    match check_size(part.data.len()) {
        Err(refusal) => {
            return Err(refusal);
        },
        Ok(_) => {},
    }
    Ok(Upload { bytes: part.data, filename })
}

/// The uploads of the parts named `field`, in order; or the refusal of the
/// first of them that is not accepted as an image.
pub fn take_uploads(parts: Vec<Part>, field: &str) -> (r: Result<Vec<Upload>, String>)
    ensures
        match r {
            Ok(uploads) => field_uploads(part_views(parts@), field@) == Ok::<Seq<UploadView>, Seq<char>>(
                upload_views(uploads@),
            ),
            Err(refusal) => field_uploads(part_views(parts@), field@) == Err::<Seq<UploadView>, Seq<char>>(
                refusal@,
            ),
        },
{
    let mut uploads: Vec<Upload> = Vec::new();
    let ghost all = parts@;
    assert(part_views(all.take(0)) =~= Seq::empty());
    assert(upload_views(uploads@) =~= Seq::empty());
    for part in it: parts
        invariant
            it.seq() == all,
            field_uploads(part_views(all.take(it.index())), field@) == Ok::<Seq<UploadView>, Seq<char>>(
                upload_views(uploads@),
            ),
    {
        proof {
            part_views_step(all, it.index());
        }
        if same_text(part.name.as_str(), field) {
            match read_upload(part) {
                Err(refusal) => {
                    proof {
                        refusal_persists(part_views(all), it.index() + 1, field@);
                        part_views_step(all, 0);
                        assert(part_views(all).take(it.index() + 1) =~= part_views(all.take(it.index() + 1)));
                    }
                    return Err(refusal);
                },
                Ok(upload) => {
                    let ghost before = uploads@;
                    uploads.push(upload);
                    assert(upload_views(uploads@) =~= upload_views(before).push(upload@));
                },
            }
        }
    }
    proof {
        if all.len() > 0 {
            part_views_step(all, 0);
        } else {
            assert(all.take(0) =~= all);
        }
    }
    Ok(uploads)
}

/// Once a prefix of the parts is refused, every longer prefix is refused
/// for the same reason.
proof fn refusal_persists(parts: Seq<PartView>, n: int, field: Seq<char>)
    requires
        0 <= n <= parts.len(),
        field_uploads(parts.take(n), field) is Err,
    ensures
        field_uploads(parts, field) == field_uploads(parts.take(n), field),
    decreases parts.len(),
{
    if n == parts.len() {
        assert(parts.take(n) =~= parts);
    } else {
        assert(parts.drop_last().take(n) =~= parts.take(n));
        refusal_persists(parts.drop_last(), n, field);
    }
}

} // verus!
