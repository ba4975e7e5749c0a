use clipboard_aux2::batch::{can_place_at, FailureReason, FileBatch, FileFailure, Reply, Request};
use clipboard_aux2::dispatch::{
    failure_report, image_file_for, select_content, text_object, ClipboardContent, PasteError,
    RawImage, TEXT_OBJECT_NAME,
};
use clipboard_aux2::image_file::{image_file_name, rgba_len_matches, LocalTime, WEBP_PROBE_PATH};
use clipboard_aux2::save_dir::{
    choose_save_location, resolve_save_location, SaveLocation, IMAGE_FOLDER_NAME,
    PICTURES_FOLDER_NAME, SAVE_FOLDER_KEY,
};

/// A timeline held in memory: objects as (layer, first frame, last frame).
struct Timeline {
    objects: Vec<(usize, usize, usize)>,
}

impl Timeline {
    fn next_start(&self, layer: usize, frame: usize) -> Option<usize> {
        self.objects
            .iter()
            .filter(|o| o.0 == layer && o.2 >= frame)
            .map(|o| o.1)
            .min()
    }
}

/// Runs a batch of `files` against `timeline`; a file is accepted where
/// `supported` says so. Returns the created (index, layer, frame) and the outcome.
fn run_batch(
    timeline: &mut Timeline,
    files: &[&str],
    supported: &dyn Fn(&str) -> bool,
    layer: usize,
    frame: usize,
) -> (Vec<(usize, usize, usize)>, Result<usize, Vec<FileFailure>>) {
    let mut batch = FileBatch::new(files.len(), layer, frame);
    let mut created = vec![];
    loop {
        match batch.request() {
            Request::ProbeSlot { layer, frame } => {
                let free = can_place_at(timeline.next_start(layer, frame), frame);
                batch.advance(Reply::Slot(Some(free)));
            }
            Request::CheckFormat { index } => {
                batch.advance(Reply::Format(Some(supported(files[index]))));
            }
            Request::Create { index, layer, frame } => {
                timeline.objects.push((layer, frame, frame + 30));
                created.push((index, layer, frame));
                batch.advance(Reply::Created(true));
            }
            Request::Finished => break,
        }
    }
    (created, batch.finish())
}

fn any_file(_: &str) -> bool {
    true
}

#[test]
fn files_on_empty_timeline_take_consecutive_layers() {
    let mut t = Timeline { objects: vec![] };
    let (created, outcome) = run_batch(&mut t, &["a.png", "b.png", "c.mp4"], &any_file, 2, 10);
    assert_eq!(created, vec![(0, 2, 10), (1, 3, 10), (2, 4, 10)]);
    assert_eq!(outcome, Ok(3));
}

#[test]
fn occupied_layer_is_skipped() {
    let mut t = Timeline { objects: vec![(2, 5, 20)] };
    let (created, outcome) = run_batch(&mut t, &["a.png"], &any_file, 2, 10);
    assert_eq!(created, vec![(0, 3, 10)]);
    assert_eq!(outcome, Ok(1));
}

#[test]
fn smallest_free_layer_is_chosen() {
    // Layer 3 holds an object that starts after the frame, so the frame is free there.
    let mut t = Timeline { objects: vec![(1, 10, 12), (2, 0, 40), (3, 11, 50)] };
    let (created, _) = run_batch(&mut t, &["a.png", "b.png"], &any_file, 1, 10);
    assert_eq!(created, vec![(0, 3, 10), (1, 4, 10)]);
}

#[test]
fn unsupported_file_is_reported_and_others_placed() {
    let mut t = Timeline { objects: vec![] };
    let files = ["one.png", "two.xyz", "three.png"];
    let (created, outcome) =
        run_batch(&mut t, &files, &|f: &str| !f.ends_with(".xyz"), 0, 0);
    assert_eq!(created, vec![(0, 0, 0), (2, 1, 0)]);
    let failures = outcome.unwrap_err();
    assert_eq!(
        failures,
        vec![FileFailure { index: 1, reason: FailureReason::UnsupportedFormat }]
    );
    let lines: Vec<(String, String)> = failures
        .iter()
        .map(|f| (files[f.index].to_string(), f.reason.source_text().to_string()))
        .collect();
    let message = failure_report("failed:", &lines);
    assert_eq!(message, "failed:\n- two.xyz: 対応していないファイル形式です\n");
    assert!(!message.contains("one.png") && !message.contains("three.png"));
}

#[test]
fn failed_creation_keeps_the_layer() {
    let mut batch = FileBatch::new(2, 4, 7);
    batch.advance(Reply::Slot(Some(true)));
    batch.advance(Reply::Format(Some(true)));
    assert_eq!(batch.request(), Request::Create { index: 0, layer: 4, frame: 7 });
    batch.advance(Reply::Created(false));
    assert_eq!(batch.request(), Request::ProbeSlot { layer: 4, frame: 7 });
    batch.advance(Reply::Slot(Some(true)));
    batch.advance(Reply::Format(Some(true)));
    assert_eq!(batch.request(), Request::Create { index: 1, layer: 4, frame: 7 });
    batch.advance(Reply::Created(true));
    assert_eq!(batch.request(), Request::Finished);
    assert_eq!(
        batch.finish(),
        Err(vec![FileFailure { index: 0, reason: FailureReason::CreationFailed }])
    );
}

#[test]
fn failed_queries_are_recorded_per_file() {
    let mut batch = FileBatch::new(2, 0, 0);
    batch.advance(Reply::Slot(None));
    batch.advance(Reply::Slot(Some(true)));
    batch.advance(Reply::Format(None));
    assert_eq!(batch.request(), Request::Finished);
    assert_eq!(
        batch.finish(),
        Err(vec![
            FileFailure { index: 0, reason: FailureReason::PlacementFailed },
            FileFailure { index: 1, reason: FailureReason::FormatQueryFailed },
        ])
    );
}

#[test]
fn mismatched_reply_changes_nothing() {
    let mut batch = FileBatch::new(1, 3, 3);
    batch.advance(Reply::Created(true));
    assert_eq!(batch.request(), Request::ProbeSlot { layer: 3, frame: 3 });
}

#[test]
fn last_layer_cannot_be_passed() {
    let mut batch = FileBatch::new(1, usize::MAX, 0);
    batch.advance(Reply::Slot(Some(false)));
    assert_eq!(
        batch.finish(),
        Err(vec![FileFailure { index: 0, reason: FailureReason::PlacementFailed }])
    );
}

#[test]
fn empty_batch_is_finished() {
    let batch = FileBatch::new(0, 1, 1);
    assert_eq!(batch.request(), Request::Finished);
    assert_eq!(batch.finish(), Ok(0));
}

#[test]
fn slot_is_free_unless_an_object_has_started() {
    assert!(can_place_at(None, 10));
    assert!(can_place_at(Some(11), 10));
    assert!(!can_place_at(Some(10), 10));
    assert!(!can_place_at(Some(3), 10));
}

fn s(x: &str) -> Option<String> {
    Some(x.to_string())
}

#[test]
fn configured_folder_wins_over_project() {
    let r = choose_save_location(s("D:/out"), s("C:/proj"), s("C:/pics"), s("C:/home"));
    assert_eq!(r, Some(SaveLocation::Configured("D:/out".to_string())));
}

#[test]
fn project_folder_without_configuration() {
    let r = choose_save_location(None, s("C:/proj"), s("C:/pics"), s("C:/home"));
    assert_eq!(r, Some(SaveLocation::BesideProject("C:/proj".to_string())));
    let r = choose_save_location(s(""), s("C:/proj"), None, None);
    assert_eq!(r, Some(SaveLocation::BesideProject("C:/proj".to_string())));
    assert_eq!(r.unwrap().subfolders(), vec![IMAGE_FOLDER_NAME.to_string()]);
}

#[test]
fn pictures_then_home_fallback() {
    let r = choose_save_location(None, None, s("C:/pics"), s("C:/home"));
    assert_eq!(r, Some(SaveLocation::InPictures("C:/pics".to_string())));
    let r = choose_save_location(s(""), None, None, s("C:/home")).unwrap();
    assert_eq!(r, SaveLocation::InHome("C:/home".to_string()));
    assert_eq!(r.base(), "C:/home");
    assert_eq!(
        r.subfolders(),
        vec![PICTURES_FOLDER_NAME.to_string(), IMAGE_FOLDER_NAME.to_string()]
    );
    assert_eq!(choose_save_location(None, None, None, None), None);
}

#[test]
fn resolve_follows_precedence() {
    assert_eq!(
        resolve_save_location(s("D:/out"), s("C:/proj")),
        Some(SaveLocation::Configured("D:/out".to_string()))
    );
    assert_eq!(
        resolve_save_location(s(""), s("C:/proj")),
        Some(SaveLocation::BesideProject("C:/proj".to_string()))
    );
    match resolve_save_location(None, None) {
        None | Some(SaveLocation::InPictures(_)) | Some(SaveLocation::InHome(_)) => {}
        other => panic!("unexpected location {:?}", other),
    }
    assert_eq!(SAVE_FOLDER_KEY, "save_image_to");
}

fn matches_name_pattern(name: &str, ext: &str) -> bool {
    let b = name.as_bytes();
    let stem = "clipboard_".len();
    name.starts_with("clipboard_")
        && name.len() == stem + 15 + 1 + ext.len()
        && b[stem..stem + 8].iter().all(|c| c.is_ascii_digit())
        && b[stem + 8] == b'_'
        && b[stem + 9..stem + 15].iter().all(|c| c.is_ascii_digit())
        && name.ends_with(&format!(".{}", ext))
}

#[test]
fn red_two_by_two_image_gets_timestamped_name() {
    let red: Vec<u8> = [255u8, 0, 0, 255].repeat(4);
    let name = image_file_for(2, 2, red.len(), true).unwrap();
    assert!(matches_name_pattern(&name, "webp"), "{}", name);
    let name = image_file_for(2, 2, red.len(), false).unwrap();
    assert!(matches_name_pattern(&name, "png"), "{}", name);
}

#[test]
fn file_name_of_a_fixed_time() {
    let t = LocalTime { year: 2024, month: 3, day: 7, hour: 9, minute: 5, second: 59 };
    assert_eq!(image_file_name(&t, true), Some("clipboard_20240307_090559.webp".to_string()));
    assert_eq!(image_file_name(&t, false), Some("clipboard_20240307_090559.png".to_string()));
    let early = LocalTime { year: 987, month: 12, day: 31, hour: 23, minute: 0, second: 0 };
    assert_eq!(image_file_name(&early, false), Some("clipboard_09871231_230000.png".to_string()));
    let late = LocalTime { year: 10000, ..t };
    assert_eq!(image_file_name(&late, false), None);
    assert_eq!(WEBP_PROBE_PATH, "z:/test.webp");
}

#[test]
fn buffer_must_fill_the_image_exactly() {
    assert!(rgba_len_matches(2, 2, 16));
    assert!(!rgba_len_matches(2, 2, 15));
    assert!(!rgba_len_matches(2, 2, 17));
    assert!(rgba_len_matches(0, 5, 0));
    assert!(!rgba_len_matches(u32::MAX, u32::MAX, usize::MAX));
    assert_eq!(image_file_for(2, 2, 17, true), Err(PasteError::BufferSizeMismatch));
}

#[test]
fn text_only_clipboard_makes_one_text_object() {
    let content = select_content(None, None, s("hello")).unwrap();
    let text = match content {
        ClipboardContent::Text(t) => t,
        _ => panic!("expected text"),
    };
    let obj = text_object(text, 3, 120);
    assert_eq!(obj.text, "hello");
    assert_eq!(obj.kind, TEXT_OBJECT_NAME);
    assert_eq!(obj.effect, TEXT_OBJECT_NAME);
    assert_eq!(obj.item, TEXT_OBJECT_NAME);
    assert_eq!((obj.layer, obj.frame), (3, 120));
}

#[test]
fn empty_clipboard_is_unsupported() {
    let r = select_content(None, None, None);
    assert!(matches!(r, Err(PasteError::UnsupportedContent)));
    let r = select_content(Some(vec![]), None, None);
    assert!(matches!(r, Err(PasteError::UnsupportedContent)));
    assert_eq!(
        PasteError::UnsupportedContent.source_text(),
        "クリップボードに画像またはテキストが見つかりません"
    );
}

#[test]
fn files_come_before_image_and_text() {
    let image = RawImage { width: 1, height: 1, bytes: vec![0, 0, 0, 255] };
    let r = select_content(Some(vec!["a.png".to_string()]), Some(image), s("t"));
    assert!(matches!(r, Ok(ClipboardContent::FileList(ref f)) if f == &vec!["a.png".to_string()]));
    let image = RawImage { width: 1, height: 1, bytes: vec![0, 0, 0, 255] };
    let r = select_content(Some(vec![]), Some(image), s("t"));
    assert!(matches!(r, Ok(ClipboardContent::Image(ref i)) if i.width == 1));
}

#[test]
fn report_lists_every_failure_in_order() {
    let lines = vec![
        ("a.png".to_string(), "x".to_string()),
        ("b.png".to_string(), "y".to_string()),
    ];
    assert_eq!(failure_report("h", &lines), "h\n- a.png: x\n- b.png: y\n");
    assert_eq!(failure_report("h", &vec![]), "h\n");
    assert_eq!(FailureReason::CreationFailed.source_text(), "オブジェクトの作成に失敗しました");
}
