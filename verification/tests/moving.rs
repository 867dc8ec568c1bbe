use folder_sorter::category::{classify, Category};
use folder_sorter::config::{watched_folder, FOLDER_VARIABLE};
use folder_sorter::error::{error_line, Disposition, ErrorKind, Phase};
use folder_sorter::mover::{
    destination_path, moved_line, plan_move, subdirectory_path, MovePlan, Outcome, Report, Step,
};
use folder_sorter::path::file_name;
use folder_sorter::snapshot::FileSnapshot;
use folder_sorter::watcher::{Event, Poll, Watcher};

fn event(path: &str) -> Event {
    Event::Added(path.to_string())
}

/// Runs the steps of `plan` with the given outcomes, and returns the final
/// report with the names of the steps that were tried.
fn carry_out(
    plan: &MovePlan,
    create: Outcome,
    rename: Outcome,
    cause: &str,
) -> (Report, Vec<&'static str>) {
    let mut tried = Vec::new();
    let mut step = plan.first_step();
    loop {
        let outcome = match step {
            Step::CreateSubdirectory => {
                tried.push("create");
                create
            }
            Step::Rename => {
                tried.push("rename");
                rename
            }
            Step::Finished(report) => return (report, tried),
        };
        step = plan.advance(step, outcome, cause);
    }
}

#[test]
fn subdirectory_paths() {
    assert_eq!(subdirectory_path("root", Category::Text), "root/text_files");
    assert_eq!(subdirectory_path("root", Category::Image), "root/image_files");
    assert_eq!(subdirectory_path("root", Category::Zip), "root/zip_files");
    assert_eq!(subdirectory_path("/home/u/dl", Category::Other), "/home/u/dl/other_files");
}

#[test]
fn destination_keeps_the_file_name() {
    assert_eq!(destination_path("root/report.txt", "root/text_files"), "root/text_files/report.txt");
    assert_eq!(destination_path("report.txt", "elsewhere"), "elsewhere/report.txt");
    for source in ["root/a.txt", "root/b.tar.gz", "c", "x/y/z.png"] {
        let destination = destination_path(source, "root/anywhere");
        assert_eq!(file_name(&destination), file_name(source));
        assert_eq!(classify(&destination), classify(source));
    }
}

#[test]
fn moved_line_names_source_and_destination() {
    assert_eq!(
        moved_line("root/report.txt", "root/text_files/report.txt"),
        "Moved root/report.txt to root/text_files/report.txt"
    );
}

#[test]
fn plan_for_a_text_file() {
    let plan = plan_move("root", &event("root/report.txt"));
    assert_eq!(
        plan,
        MovePlan {
            source: "root/report.txt".to_string(),
            category: Category::Text,
            subdirectory: "root/text_files".to_string(),
            destination: "root/text_files/report.txt".to_string(),
        }
    );
}

#[test]
fn plan_for_each_category() {
    assert_eq!(plan_move("r", &event("r/a.jpg")).destination, "r/image_files/a.jpg");
    assert_eq!(plan_move("r", &event("r/a.jpeg")).destination, "r/image_files/a.jpeg");
    assert_eq!(plan_move("r", &event("r/a.png")).destination, "r/image_files/a.png");
    assert_eq!(plan_move("r", &event("r/a.zip")).destination, "r/zip_files/a.zip");
    assert_eq!(plan_move("r", &event("r/a.txt")).destination, "r/text_files/a.txt");
    assert_eq!(plan_move("r", &event("r/a")).destination, "r/other_files/a");
    assert_eq!(plan_move("r", &event("r/a.TXT")).destination, "r/other_files/a.TXT");
}

#[test]
fn new_text_file_is_moved_and_logged() {
    let mut watcher = Watcher::start(Poll::Listed(FileSnapshot::new())).unwrap();
    let current = FileSnapshot::from_paths(vec!["root/report.txt".to_string()]);
    let events = watcher.observe(Poll::Listed(current)).unwrap();
    assert_eq!(events, vec![event("root/report.txt")]);
    let plan = plan_move("root", &events[0]);
    assert_eq!(plan.subdirectory, "root/text_files");
    assert_eq!(plan.destination, "root/text_files/report.txt");
    let (report, tried) = carry_out(&plan, Outcome::Done, Outcome::Done, "");
    assert_eq!(tried, vec!["create", "rename"]);
    assert_eq!(report.failure, None);
    assert_eq!(report.line, "Moved root/report.txt to root/text_files/report.txt");
}

#[test]
fn archive_tar_gz_goes_to_other_files() {
    let mut watcher = Watcher::start(Poll::Listed(FileSnapshot::new())).unwrap();
    let current = FileSnapshot::from_paths(vec!["root/archive.tar.gz".to_string()]);
    let events = watcher.observe(Poll::Listed(current)).unwrap();
    let plan = plan_move("root", &events[0]);
    assert_eq!(plan.category, Category::Other);
    assert_eq!(plan.subdirectory, "root/other_files");
    assert_eq!(plan.destination, "root/other_files/archive.tar.gz");
    let (report, _) = carry_out(&plan, Outcome::AlreadyExists, Outcome::Done, "");
    assert_eq!(report.failure, None);
    assert_eq!(report.line, "Moved root/archive.tar.gz to root/other_files/archive.tar.gz");
}

#[test]
fn existing_subdirectory_is_no_failure() {
    let plan = plan_move("root", &event("root/a.zip"));
    let step = plan.advance(plan.first_step(), Outcome::AlreadyExists, "File exists");
    assert_eq!(step, Step::Rename);
}

#[test]
fn failed_subdirectory_abandons_the_move() {
    let plan = plan_move("root", &event("root/a.zip"));
    let (report, tried) = carry_out(&plan, Outcome::Failed, Outcome::Done, "Permission denied");
    assert_eq!(tried, vec!["create"]);
    assert_eq!(report.failure, Some(ErrorKind::SubdirectoryCreate));
    assert_eq!(report.line, "Failed to create subdirectory root/zip_files: Permission denied");
}

#[test]
fn vanished_file_is_reported_and_the_next_is_moved() {
    let mut watcher = Watcher::start(Poll::Listed(FileSnapshot::new())).unwrap();
    let current =
        FileSnapshot::from_paths(vec!["root/gone.txt".to_string(), "root/here.png".to_string()]);
    let events = watcher.observe(Poll::Listed(current)).unwrap();
    assert_eq!(events.len(), 2);

    let plan = plan_move("root", &events[0]);
    let (report, tried) =
        carry_out(&plan, Outcome::Done, Outcome::Failed, "No such file or directory");
    assert_eq!(tried, vec!["create", "rename"]);
    assert_eq!(report.failure, Some(ErrorKind::Move));
    assert_eq!(report.line, "Failed to move file root/gone.txt: No such file or directory");
    assert_eq!(
        report.failure.unwrap().disposition(Phase::Running),
        Disposition::AbandonEvent
    );

    let plan = plan_move("root", &events[1]);
    let (report, _) = carry_out(&plan, Outcome::AlreadyExists, Outcome::Done, "");
    assert_eq!(report.failure, None);
    assert_eq!(report.line, "Moved root/here.png to root/image_files/here.png");
}

#[test]
fn rename_that_finds_its_target_is_a_failure() {
    let plan = plan_move("root", &event("root/a.txt"));
    let step = plan.advance(Step::Rename, Outcome::AlreadyExists, "File exists");
    assert_eq!(
        step,
        Step::Finished(Report {
            failure: Some(ErrorKind::Move),
            line: "Failed to move file root/a.txt: File exists".to_string(),
        })
    );
}

#[test]
fn finished_stays_finished() {
    let plan = plan_move("root", &event("root/a.txt"));
    let done = plan.advance(Step::Rename, Outcome::Done, "");
    let expected = Step::Finished(Report {
        failure: None,
        line: "Moved root/a.txt to root/text_files/a.txt".to_string(),
    });
    assert_eq!(done, expected);
    assert_eq!(plan.advance(done, Outcome::Failed, "late"), expected);
}

#[test]
fn missing_folder_at_startup_aborts() {
    let kind = match Watcher::start(Poll::Unreadable) {
        Ok(_) => panic!("a watcher was started on a folder that cannot be read"),
        Err(kind) => kind,
    };
    assert_eq!(kind, ErrorKind::DirectoryRead);
    assert_eq!(kind.disposition(Phase::Startup), Disposition::Abort);
}

#[test]
fn dispositions() {
    for phase in [Phase::Startup, Phase::Running] {
        assert_eq!(ErrorKind::Configuration.disposition(phase), Disposition::Abort);
        assert_eq!(ErrorKind::Channel.disposition(phase), Disposition::Abort);
        assert_eq!(ErrorKind::SubdirectoryCreate.disposition(phase), Disposition::AbandonEvent);
        assert_eq!(ErrorKind::Move.disposition(phase), Disposition::AbandonEvent);
    }
    assert_eq!(ErrorKind::DirectoryRead.disposition(Phase::Startup), Disposition::Abort);
    assert_eq!(ErrorKind::DirectoryRead.disposition(Phase::Running), Disposition::SkipPoll);
}

#[test]
fn error_lines_name_operation_subject_and_cause() {
    assert_eq!(
        error_line(ErrorKind::Configuration, "DOWNLOAD_FOLDER_PATH", "not set"),
        "Failed to read environment variable DOWNLOAD_FOLDER_PATH: not set"
    );
    assert_eq!(
        error_line(ErrorKind::DirectoryRead, "root", "not found"),
        "Failed to read directory root: not found"
    );
    assert_eq!(
        error_line(ErrorKind::SubdirectoryCreate, "root/zip_files", "denied"),
        "Failed to create subdirectory root/zip_files: denied"
    );
    assert_eq!(
        error_line(ErrorKind::Move, "root/a.txt", "cross-device link"),
        "Failed to move file root/a.txt: cross-device link"
    );
    assert_eq!(
        error_line(ErrorKind::Channel, "root/a.txt", "receiver is gone"),
        "Failed to pass on event root/a.txt: receiver is gone"
    );
}

#[test]
fn operations() {
    assert_eq!(ErrorKind::Configuration.operation(), "Failed to read environment variable");
    assert_eq!(ErrorKind::DirectoryRead.operation(), "Failed to read directory");
    assert_eq!(ErrorKind::SubdirectoryCreate.operation(), "Failed to create subdirectory");
    assert_eq!(ErrorKind::Move.operation(), "Failed to move file");
    assert_eq!(ErrorKind::Channel.operation(), "Failed to pass on event");
}

#[test]
fn folder_comes_from_the_setting() {
    assert_eq!(FOLDER_VARIABLE, "DOWNLOAD_FOLDER_PATH");
    assert_eq!(watched_folder(Some("/home/u/dl".to_string())), Ok("/home/u/dl".to_string()));
    assert_eq!(watched_folder(Some("relative/dl".to_string())), Ok("relative/dl".to_string()));
    assert_eq!(watched_folder(None), Err(ErrorKind::Configuration));
}
