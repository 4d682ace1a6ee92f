use cloud_files::handlers::file::{
    delete_file, get_file, get_file_exist, post_file, rename_file, rename_paths, PartHead, Upload,
    UploadAction, UploadEvent, UploadFailure, UploadReply,
};
use cloud_files::handlers::{account_folder, dotted_path, join, plain_path};
use cloud_files::middleware::CanUpload;
use cloud_files::models::Rename;
use cloud_files::reserr::ResErr;
use cloud_files::utils::WalkFailed;

fn uploader(size: u32) -> CanUpload {
    CanUpload {
        id: 1,
        name: "dave".to_string(),
        email: "dave@example.com".to_string(),
        pass: String::new(),
        size,
        path: "/dave".to_string(),
        status: 3,
    }
}

fn named(name: &str) -> UploadEvent {
    UploadEvent::Part(PartHead::Named(name.to_string()))
}

/// Feeds `events` to a new upload and returns it with the steps that it
/// asked for on the way, the first one included.
fn feed(quota: u32, target: &str, events: Vec<UploadEvent>) -> (Upload, Vec<UploadAction>) {
    let mut upload = post_file(&uploader(quota), "cloud", target.to_string());
    let mut asked = vec![upload.action()];
    for event in events {
        assert!(event.answers(upload.action()));
        upload = upload.step(event);
        asked.push(upload.action());
    }
    (upload, asked)
}

#[test]
fn the_paths_of_the_handlers_are_put_together_as_written() {
    assert_eq!(account_folder("cloud", "/dave"), "./cloud/dave");
    assert_eq!(join("./cloud/dave", "docs"), "./cloud/dave/docs");
    assert_eq!(join("a", ""), "a/");
    assert_eq!(dotted_path("cloud", "/dave", "docs/a.txt"), "./cloud/dave/docs/a.txt");
    assert_eq!(plain_path("cloud", "/dave", "docs/a.txt"), "cloud/dave/docs/a.txt");
    assert_eq!(plain_path("", "", ""), "/");
}

#[test]
fn an_upload_starts_by_asking_for_a_part() {
    let upload = post_file(&uploader(100), "cloud", "docs".to_string());
    assert_eq!(upload.action(), UploadAction::NextPart);
    assert_eq!(upload.quota(), 100);
    assert_eq!(upload.main_folder(), "./cloud/dave");
    assert_eq!(upload.target_dir(), "./cloud/dave/docs");
    assert_eq!(upload.filename(), "");
    assert_eq!(upload.outcome(), None);
}

#[test]
fn a_body_without_parts_is_saved() {
    let (upload, _) = feed(100, "docs", vec![UploadEvent::BodyEnded]);
    assert_eq!(upload.action(), UploadAction::Finish);
    assert_eq!(upload.outcome(), Some(Ok(UploadReply::Saved)));
}

#[test]
fn a_part_without_content_disposition_ends_the_upload_with_a_bad_request() {
    let (upload, asked) = feed(100, "docs", vec![UploadEvent::Part(PartHead::NoDisposition)]);
    assert_eq!(asked, vec![UploadAction::NextPart, UploadAction::Finish]);
    assert_eq!(
        upload.outcome(),
        Some(Ok(UploadReply::BadRequest("cant find content disposition")))
    );
}

#[test]
fn a_part_without_a_filename_ends_the_upload_with_a_bad_request() {
    let (upload, asked) = feed(100, "docs", vec![UploadEvent::Part(PartHead::NoFilename)]);
    assert_eq!(asked, vec![UploadAction::NextPart, UploadAction::Finish]);
    assert_eq!(upload.outcome(), Some(Ok(UploadReply::BadRequest("cant find filename"))));
}

#[test]
fn an_account_that_cannot_be_measured_is_an_internal_error() {
    let (upload, asked) =
        feed(100, "docs", vec![named("a.txt"), UploadEvent::Measured(Err(WalkFailed))]);
    assert_eq!(asked, vec![UploadAction::NextPart, UploadAction::Measure, UploadAction::Finish]);
    assert_eq!(upload.outcome(), Some(Err(UploadFailure::Unmeasured)));
}

#[test]
fn an_account_over_its_quota_is_rejected_before_anything_is_written() {
    let (upload, asked) = feed(100, "docs", vec![named("a.txt"), UploadEvent::Measured(Ok(101))]);
    assert_eq!(asked, vec![UploadAction::NextPart, UploadAction::Measure, UploadAction::Finish]);
    assert!(!asked.contains(&UploadAction::Create));
    assert!(!asked.contains(&UploadAction::NextChunk));
    assert!(!asked.contains(&UploadAction::Write));
    assert_eq!(upload.outcome(), Some(Err(UploadFailure::QuotaExceeded)));
}

#[test]
fn an_account_at_its_quota_may_still_upload() {
    let (upload, asked) = feed(100, "docs", vec![named("a.txt"), UploadEvent::Measured(Ok(100))]);
    assert_eq!(asked, vec![UploadAction::NextPart, UploadAction::Measure, UploadAction::Probe]);
    assert_eq!(upload.outcome(), None);
    let (upload, _) = feed(0, "docs", vec![named("a.txt"), UploadEvent::Measured(Ok(0))]);
    assert_eq!(upload.action(), UploadAction::Probe);
}

#[test]
fn a_target_that_climbs_out_of_the_account_is_rejected_before_the_disk_is_touched() {
    let (upload, asked) =
        feed(100, "../../etc/passwd", vec![named("x"), UploadEvent::Measured(Ok(1))]);
    assert_eq!(asked, vec![UploadAction::NextPart, UploadAction::Measure, UploadAction::Finish]);
    assert_eq!(upload.outcome(), Some(Err(UploadFailure::PathRejected("you cant use '..' in path"))));
}

#[test]
fn a_target_that_is_not_on_disk_is_rejected() {
    let (upload, asked) = feed(
        100,
        "nowhere",
        vec![named("a.txt"), UploadEvent::Measured(Ok(1)), UploadEvent::Probed(false)],
    );
    assert_eq!(
        asked,
        vec![
            UploadAction::NextPart,
            UploadAction::Measure,
            UploadAction::Probe,
            UploadAction::Finish
        ]
    );
    assert_eq!(upload.outcome(), Some(Err(UploadFailure::PathRejected("path dont exist"))));
}

#[test]
fn the_file_is_created_below_the_target_under_the_name_of_the_part() {
    let (upload, _) = feed(
        100,
        "docs",
        vec![named("a.txt"), UploadEvent::Measured(Ok(1)), UploadEvent::Probed(true)],
    );
    assert_eq!(upload.action(), UploadAction::Create);
    assert_eq!(upload.file_path(), "./cloud/dave/docs/a.txt");
    assert_eq!(upload.filename(), "a.txt");
}

#[test]
fn a_file_that_cannot_be_created_is_an_internal_error() {
    let (upload, _) = feed(
        100,
        "docs",
        vec![
            named("a.txt"),
            UploadEvent::Measured(Ok(1)),
            UploadEvent::Probed(true),
            UploadEvent::Created(false),
        ],
    );
    assert_eq!(upload.outcome(), Some(Err(UploadFailure::NotCreated)));
}

#[test]
fn a_chunk_that_cannot_be_read_or_written_is_an_internal_error() {
    let open = || {
        vec![
            named("a.txt"),
            UploadEvent::Measured(Ok(1)),
            UploadEvent::Probed(true),
            UploadEvent::Created(true),
        ]
    };
    let mut events = open();
    events.push(UploadEvent::Chunk(false));
    let (upload, _) = feed(100, "docs", events);
    assert_eq!(upload.outcome(), Some(Err(UploadFailure::StreamBroken)));
    let mut events = open();
    events.push(UploadEvent::Chunk(true));
    events.push(UploadEvent::Written(false));
    let (upload, _) = feed(100, "docs", events);
    assert_eq!(upload.outcome(), Some(Err(UploadFailure::StreamBroken)));
}

#[test]
fn two_parts_are_written_chunk_by_chunk_and_each_is_measured() {
    let (upload, asked) = feed(
        100,
        "docs",
        vec![
            named("a.txt"),
            UploadEvent::Measured(Ok(10)),
            UploadEvent::Probed(true),
            UploadEvent::Created(true),
            UploadEvent::Chunk(true),
            UploadEvent::Written(true),
            UploadEvent::Chunk(true),
            UploadEvent::Written(true),
            UploadEvent::PartEnded,
            named("b.txt"),
            UploadEvent::Measured(Ok(60)),
            UploadEvent::Probed(true),
            UploadEvent::Created(true),
            UploadEvent::PartEnded,
            UploadEvent::BodyEnded,
        ],
    );
    assert_eq!(
        asked,
        vec![
            UploadAction::NextPart,
            UploadAction::Measure,
            UploadAction::Probe,
            UploadAction::Create,
            UploadAction::NextChunk,
            UploadAction::Write,
            UploadAction::NextChunk,
            UploadAction::Write,
            UploadAction::NextChunk,
            UploadAction::NextPart,
            UploadAction::Measure,
            UploadAction::Probe,
            UploadAction::Create,
            UploadAction::NextChunk,
            UploadAction::NextPart,
            UploadAction::Finish,
        ]
    );
    assert_eq!(upload.filename(), "b.txt");
    assert_eq!(upload.outcome(), Some(Ok(UploadReply::Saved)));
}

#[test]
fn a_later_part_is_rejected_when_the_account_has_gone_over_its_quota() {
    let (upload, asked) = feed(
        100,
        "docs",
        vec![
            named("a.txt"),
            UploadEvent::Measured(Ok(100)),
            UploadEvent::Probed(true),
            UploadEvent::Created(true),
            UploadEvent::Chunk(true),
            UploadEvent::Written(true),
            UploadEvent::PartEnded,
            named("empty.txt"),
            UploadEvent::Measured(Ok(140)),
        ],
    );
    assert_eq!(asked.iter().filter(|a| **a == UploadAction::Create).count(), 1);
    assert_eq!(upload.outcome(), Some(Err(UploadFailure::QuotaExceeded)));
}

#[test]
fn an_event_answers_the_step_that_it_reports_on() {
    assert!(UploadEvent::BodyEnded.answers(UploadAction::NextPart));
    assert!(named("a").answers(UploadAction::NextPart));
    assert!(!named("a").answers(UploadAction::Measure));
    assert!(UploadEvent::Measured(Ok(1)).answers(UploadAction::Measure));
    assert!(UploadEvent::Probed(true).answers(UploadAction::Probe));
    assert!(UploadEvent::Created(true).answers(UploadAction::Create));
    assert!(UploadEvent::Chunk(true).answers(UploadAction::NextChunk));
    assert!(UploadEvent::PartEnded.answers(UploadAction::NextChunk));
    assert!(!UploadEvent::PartEnded.answers(UploadAction::NextPart));
    assert!(UploadEvent::Written(true).answers(UploadAction::Write));
    assert!(!UploadEvent::Written(true).answers(UploadAction::Finish));
    assert!(!UploadEvent::BodyEnded.answers(UploadAction::Finish));
}

#[test]
fn the_file_handlers_answer_with_their_words() {
    assert_eq!(get_file_exist(true), Ok("file exist"));
    assert_eq!(get_file_exist(false), Err(ResErr::BadClientData("file dont exist")));
    assert_eq!(rename_file(true), Ok("renamed"));
    assert_eq!(rename_file(false), Err(ResErr::BadClientData("can not be renamed")));
    assert_eq!(get_file(true), Ok(()));
    assert_eq!(get_file(false), Err(ResErr::BadClientData("file not found")));
    assert_eq!(delete_file(true), Ok("file deleted"));
    assert_eq!(delete_file(false), Err(ResErr::BadClientData("file not found")));
}

#[test]
fn a_file_is_renamed_within_the_directory_of_the_account() {
    let rename = Rename { name: "new.txt".to_string() };
    let (old, new) = rename_paths(&uploader(1), "cloud", "old.txt", &rename);
    assert_eq!(old, "./cloud/dave/old.txt");
    assert_eq!(new, "./cloud/dave/new.txt");
}

#[test]
fn every_failure_of_an_upload_is_answered_in_its_class_and_words() {
    let table = [
        (UploadFailure::Unmeasured, ResErr::InternalError("folder size counter is broaken")),
        (UploadFailure::QuotaExceeded, ResErr::BadClientData("you dont have size")),
        (
            UploadFailure::PathRejected("you cant use '..' in path"),
            ResErr::BadClientData("you cant use '..' in path"),
        ),
        (UploadFailure::PathRejected("path dont exist"), ResErr::BadClientData("path dont exist")),
        (UploadFailure::NotCreated, ResErr::InternalError("field creating file")),
        (UploadFailure::StreamBroken, ResErr::InternalError("field stream of bytes")),
    ];
    for (failure, error) in table.iter() {
        assert_eq!(failure.into_response(), *error);
    }
    assert_eq!(UploadFailure::QuotaExceeded.into_response().status_code(), 400);
    assert_eq!(UploadFailure::StreamBroken.into_response().status_code(), 500);
}
