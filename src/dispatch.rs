//! Choosing what to paste, and the single-item paths.
use crate::image_file::{file_name_text, image_file_name_now, rgba_len_matches, LocalTime};
use vstd::prelude::*;

verus! {

/// An image as the clipboard holds it: RGBA pixels, four bytes each, row by
/// row.
pub struct RawImage {
    pub width: u32,
    pub height: u32,
    pub bytes: Vec<u8>,
}

/// The clipboard content a paste works on.
pub enum ClipboardContent {
    FileList(Vec<String>),
    Image(RawImage),
    Text(String),
}

/// A failure that ends a paste.
#[derive(Clone, Copy, Debug, PartialEq, Eq, Structural)]
pub enum PasteError {
    /// The clipboard holds no file list, image or text.
    UnsupportedContent,
    /// The image's bytes are not exactly its RGBA pixels.
    BufferSizeMismatch,
    /// The local year cannot be written with four digits.
    TimestampOutOfRange,
}

pub open spec fn error_text(e: PasteError) -> Seq<char> {
    match e {
        PasteError::UnsupportedContent => "クリップボードに画像またはテキストが見つかりません"@,
        PasteError::BufferSizeMismatch => "クリップボードから取得した画像データの処理に失敗しました"@,
        PasteError::TimestampOutOfRange => "画像ファイル名の作成に失敗しました"@,
    }
}

impl PasteError {
    /// The message key under which the error is shown to the user.
    pub fn source_text(&self) -> (r: &'static str)
        ensures
            r@ == error_text(*self),
    {
        match self {
            PasteError::UnsupportedContent => "クリップボードに画像またはテキストが見つかりません",
            PasteError::BufferSizeMismatch => "クリップボードから取得した画像データの処理に失敗しました",
            PasteError::TimestampOutOfRange => "画像ファイル名の作成に失敗しました",
        }
    }
}

/// Picks the content to paste: a non-empty file list first, then an image,
/// then text.
pub fn select_content(files: Option<Vec<String>>, image: Option<RawImage>, text: Option<String>) -> (r:
    Result<ClipboardContent, PasteError>)
    ensures
        files is Some && files.unwrap()@.len() > 0 ==> r == Ok::<ClipboardContent, PasteError>(
            ClipboardContent::FileList(files.unwrap()),
        ),
        !(files is Some && files.unwrap()@.len() > 0) && image is Some ==> r == Ok::<
            ClipboardContent,
            PasteError,
        >(ClipboardContent::Image(image.unwrap())),
        !(files is Some && files.unwrap()@.len() > 0) && image is None && text is Some ==> r
            == Ok::<ClipboardContent, PasteError>(ClipboardContent::Text(text.unwrap())),
        !(files is Some && files.unwrap()@.len() > 0) && image is None && text is None ==> r
            == Err::<ClipboardContent, PasteError>(PasteError::UnsupportedContent),
{
    if let Some(f) = files {
        if f.len() > 0 {
            return Ok(ClipboardContent::FileList(f));
        }
    }
    if let Some(i) = image {
        Ok(ClipboardContent::Image(i))
    } else if let Some(t) = text {
        Ok(ClipboardContent::Text(t))
    } else {
        Err(PasteError::UnsupportedContent)
    }
}

/// The name of the file a clipboard image of `width` by `height` pixels,
/// given as `len` bytes, is saved under now. The bytes must be exactly the
/// image's RGBA pixels.
pub fn image_file_for(width: u32, height: u32, len: usize, supports_webp: bool) -> (r: Result<
    String,
    PasteError,
>)
    ensures
        len as int != width as int * height as int * 4 ==> r == Err::<String, PasteError>(
            PasteError::BufferSizeMismatch,
        ),
        len as int == width as int * height as int * 4 ==> (r is Err ==> r == Err::<
            String,
            PasteError,
        >(PasteError::TimestampOutOfRange)),
        r matches Ok(s) ==> exists|t: LocalTime|
            t.wf() && 0 <= t.year <= 9999 && s@ == file_name_text(t, supports_webp),
{
    if !rgba_len_matches(width, height, len) {
        return Err(PasteError::BufferSizeMismatch);
    }
    match image_file_name_now(supports_webp) {
        Some(name) => Ok(name),
        None => Err(PasteError::TimestampOutOfRange),
    }
}

/// Type name, effect name and item name of the host's text object.
pub const TEXT_OBJECT_NAME: &'static str = "テキスト";

/// A text object to create: its type, where, and the effect item that holds
/// its text.
pub struct TextObject {
    pub kind: String,
    pub layer: usize,
    pub frame: usize,
    pub effect: String,
    pub item: String,
    pub text: String,
}

/// The text object that pasting `text` at `(layer, frame)` creates.
pub fn text_object(text: String, layer: usize, frame: usize) -> (r: TextObject)
    ensures
        r.kind@ == TEXT_OBJECT_NAME@,
        r.effect@ == TEXT_OBJECT_NAME@,
        r.item@ == TEXT_OBJECT_NAME@,
        r.layer == layer,
        r.frame == frame,
        r.text == text,
{
    TextObject {
        kind: String::from_str(TEXT_OBJECT_NAME),
        layer,
        frame,
        effect: String::from_str(TEXT_OBJECT_NAME),
        item: String::from_str(TEXT_OBJECT_NAME),
        text,
    }
}

/// The message key of the first line of a batch's failure report.
pub const FAILED_FILES_HEADER: &'static str = "以下のファイルの貼り付けに失敗しました:";

/// The lines that list failed files: `- <file>: <reason>` each.
pub open spec fn failure_lines(lines: Seq<(Seq<char>, Seq<char>)>) -> Seq<char>
    decreases lines.len(),
{
    if lines.len() == 0 {
        Seq::empty()
    } else {
        failure_lines(lines.drop_last()) + seq!['-', ' '] + lines.last().0 + seq![':', ' ']
            + lines.last().1 + seq!['\n']
    }
}

pub open spec fn line_views(lines: Seq<(String, String)>) -> Seq<(Seq<char>, Seq<char>)> {
    lines.map_values(|l: (String, String)| (l.0@, l.1@))
}

/// The message of a batch in which some files failed: the header on a line of
/// its own, then one line per file with its reason.
pub fn failure_report(header: &str, lines: &Vec<(String, String)>) -> (r: String)
    ensures
        r@ == header@ + seq!['\n'] + failure_lines(line_views(lines@)),
{
    proof {
        reveal_strlit("\n");
        reveal_strlit("- ");
        reveal_strlit(": ");
    }
    let mut s = String::from_str(header);
    s.append("\n");
    let mut i: usize = 0;
    while i < lines.len()
        invariant
            i <= lines@.len(),
            s@ == header@ + seq!['\n'] + failure_lines(line_views(lines@.take(i as int))),
        decreases lines@.len() - i,
    {
        let ghost before = s@;
        s.append("- ");
        s.append(lines[i].0.as_str());
        s.append(": ");
        s.append(lines[i].1.as_str());
        s.append("\n");
        proof {
            reveal_strlit("- ");
            reveal_strlit(": ");
            reveal_strlit("\n");
            let t = line_views(lines@.take(i + 1));
            assert(t.drop_last() =~= line_views(lines@.take(i as int)));
            assert(t.last() == (lines@[i as int].0@, lines@[i as int].1@));
            assert(s@ =~= before + seq!['-', ' '] + t.last().0 + seq![':', ' '] + t.last().1
                + seq!['\n']);
        }
        i = i + 1;
    }
    assert(lines@.take(lines@.len() as int) =~= lines@);
    s
}

} // verus!
