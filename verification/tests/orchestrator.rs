use limonium::archive::{Backup, Backup_Result, ConfigError};
use limonium::date::Date;
use limonium::ensurer::Program;
use limonium::followup::{parse_answer, FollowUp, Stage};
use limonium::format::BackupFormat;
use limonium::orchestrator::{BackupAction, BackupError, BackupEvent, BackupPhase, BackupRun};
use limonium::text::holds_name;

fn backup(format: BackupFormat, level: Option<i64>) -> Backup {
    Backup::new("hub".to_string(), "world:plugins".to_string(), "/backups".to_string(), format, Some("logs".to_string()), level)
}

fn day() -> Date {
    Date::from_parts(2023, 10, 19).unwrap()
}

fn exited(success: bool, stdout: &str, stderr: &str) -> BackupEvent {
    BackupEvent::Exited { success, stdout: stdout.to_string(), stderr: stderr.to_string() }
}

fn run_until_listing(format: BackupFormat) -> BackupRun {
    let (mut run, first) = BackupRun::begin(backup(format, None), day(), None);
    let mut action = first;
    while let BackupAction::Probe(_) = action {
        action = run.on_event(BackupEvent::Probed(true));
    }
    run.on_event(BackupEvent::Completed);
    run.on_event(BackupEvent::Exists(false));
    run.on_event(BackupEvent::Completed);
    run.on_event(exited(true, "", ""));
    run.on_event(exited(true, "aaaa  /backups/.lmtmp/hub-10-19-2023.tar.zst\n", ""));
    assert_eq!(run.on_event(BackupEvent::Completed), BackupAction::ListFiles("/backups".to_string()));
    assert_eq!(run.phase, BackupPhase::Listing);
    run
}

#[test]
fn level_25_for_tar_zst_ends_the_run_before_anything_is_asked_for() {
    let (run, action) = BackupRun::begin(backup(BackupFormat::TarZst, Some(25)), day(), None);
    assert_eq!(run.phase, BackupPhase::Failed);
    assert_eq!(
        action,
        BackupAction::Fail(BackupError::Config(ConfigError::LevelOutOfRange { min: 1, max: 22 }))
    );
    let (run, action) = BackupRun::begin(backup(BackupFormat::TarGz, Some(5)), day(), Some("pigz".to_string()));
    assert_eq!(run.phase, BackupPhase::Failed);
    assert_eq!(action, BackupAction::Fail(BackupError::Config(ConfigError::LevelWithOverride)));
}

#[test]
fn a_backup_from_the_first_probe_to_the_result() {
    let (mut run, action) = BackupRun::begin(backup(BackupFormat::TarZst, Some(20)), day(), None);
    assert_eq!(action, BackupAction::Probe(Program::Tar));
    assert_eq!(run.phase, BackupPhase::ProbingTools { next: 0 });
    assert_eq!(run.on_event(BackupEvent::Probed(true)), BackupAction::Probe(Program::Zstd));
    assert_eq!(run.on_event(BackupEvent::Probed(true)), BackupAction::Probe(Program::Sha256Sum));
    assert_eq!(run.on_event(BackupEvent::Probed(true)), BackupAction::EnsureDirectory("/backups".to_string()));
    assert_eq!(run.on_event(BackupEvent::Completed), BackupAction::CheckExists("/backups/.lmtmp".to_string()));
    assert_eq!(run.workspace(), "/backups/.lmtmp");
    assert_eq!(run.on_event(BackupEvent::Exists(false)), BackupAction::CreateDirectory("/backups/.lmtmp".to_string()));
    match run.on_event(BackupEvent::Completed) {
        BackupAction::Run(c) => {
            assert_eq!(c.program, "tar");
            assert_eq!(
                c.args,
                vec![
                    "--exclude=logs",
                    "-I",
                    "zstd --ultra -20",
                    "-cf",
                    "/backups/.lmtmp/hub-10-19-2023.tar.zst",
                    "world",
                    "plugins"
                ]
            );
            assert_eq!(c.current_dir, None);
        }
        other => panic!("unexpected action {:?}", other),
    }
    assert_eq!(run.phase, BackupPhase::Archiving);
    match run.on_event(exited(true, "", "tar: removing leading `/'")) {
        BackupAction::Run(c) => {
            assert_eq!(c.program, "sha256sum");
            assert_eq!(c.args, vec!["/backups/.lmtmp/hub-10-19-2023.tar.zst"]);
        }
        other => panic!("unexpected action {:?}", other),
    }
    let line = "aaaa  /backups/.lmtmp/hub-10-19-2023.tar.zst\n";
    assert_eq!(
        run.on_event(exited(true, line, "")),
        BackupAction::WriteFile {
            path: "/backups/.lmtmp/hub-10-19-2023_hash.txt".to_string(),
            contents: line.to_string(),
        }
    );
    assert_eq!(run.on_event(BackupEvent::Completed), BackupAction::ListFiles("/backups".to_string()));
    let listing = vec![
        "hub-10-19-2023-1-bundle.tar.zst".to_string(),
        "hub-10-18-2023-1-bundle.tar.zst".to_string(),
    ];
    match run.on_event(BackupEvent::Listing(listing)) {
        BackupAction::Run(c) => {
            assert_eq!(c.program, "tar");
            assert_eq!(
                c.args,
                vec![
                    "--zstd",
                    "-cf",
                    "/backups/hub-10-19-2023-2-bundle.tar.zst",
                    "-C",
                    "/backups/.lmtmp",
                    "hub-10-19-2023.tar.zst",
                    "hub-10-19-2023_hash.txt"
                ]
            );
        }
        other => panic!("unexpected action {:?}", other),
    }
    assert_eq!(run.phase, BackupPhase::Bundling { seq: 2 });
    assert_eq!(
        run.on_event(exited(true, "", "")),
        BackupAction::RemoveWorkspace {
            payload: "/backups/.lmtmp/hub-10-19-2023.tar.zst".to_string(),
            sidecar: "/backups/.lmtmp/hub-10-19-2023_hash.txt".to_string(),
            workspace: "/backups/.lmtmp".to_string(),
        }
    );
    match run.on_event(BackupEvent::Completed) {
        BackupAction::Run(c) => {
            assert_eq!(c.program, "sha256sum");
            assert_eq!(c.args, vec!["/backups/hub-10-19-2023-2-bundle.tar.zst"]);
        }
        other => panic!("unexpected action {:?}", other),
    }
    assert_eq!(
        run.on_event(exited(true, "bbbb  /backups/hub-10-19-2023-2-bundle.tar.zst\n", "")),
        BackupAction::Finish(Backup_Result {
            file_name: "hub-10-19-2023-2-bundle.tar.zst".to_string(),
            file_path: "/backups/hub-10-19-2023-2-bundle.tar.zst".to_string(),
            sha256_hash: "bbbb".to_string(),
        })
    );
    assert_eq!(run.phase, BackupPhase::Finished);
    assert_eq!(run.on_event(BackupEvent::Completed), BackupAction::Fail(BackupError::UnexpectedEvent));
    assert_eq!(run.phase, BackupPhase::Failed);
}

#[test]
fn a_missing_program_ends_the_run_before_anything_is_touched() {
    for (format, programs) in [
        (BackupFormat::TarGz, vec![Program::Tar, Program::Gzip, Program::Sha256Sum]),
        (BackupFormat::TarZst, vec![Program::Tar, Program::Zstd, Program::Sha256Sum]),
        (BackupFormat::Zip, vec![Program::Zip, Program::Sha256Sum]),
    ] {
        for missing in 0..programs.len() {
            let (mut run, mut action) = BackupRun::begin(backup(format, None), day(), None);
            for (i, program) in programs.iter().enumerate() {
                assert_eq!(action, BackupAction::Probe(*program));
                action = run.on_event(BackupEvent::Probed(i != missing));
                if i == missing {
                    break;
                }
            }
            assert_eq!(action, BackupAction::Fail(BackupError::ToolMissing(programs[missing])));
            assert_eq!(run.phase, BackupPhase::Failed);
        }
    }
}

#[test]
fn a_stale_workspace_ends_the_run() {
    let (mut run, _) = BackupRun::begin(backup(BackupFormat::Zip, None), day(), None);
    run.on_event(BackupEvent::Probed(true));
    run.on_event(BackupEvent::Probed(true));
    run.on_event(BackupEvent::Completed);
    assert_eq!(
        run.on_event(BackupEvent::Exists(true)),
        BackupAction::Fail(BackupError::StaleWorkspace("/backups/.lmtmp".to_string()))
    );
    assert_eq!(run.phase, BackupPhase::Failed);
}

fn removal(format: &str) -> BackupAction {
    BackupAction::RemoveWorkspace {
        payload: format!("/backups/.lmtmp/hub-10-19-2023.{}", format),
        sidecar: "/backups/.lmtmp/hub-10-19-2023_hash.txt".to_string(),
        workspace: "/backups/.lmtmp".to_string(),
    }
}

#[test]
fn a_bundle_of_the_computed_name_is_never_overwritten() {
    let mut run = run_until_listing(BackupFormat::TarZst);
    let listing = vec!["hub-10-19-2023-2-bundle.tar.zst".to_string()];
    assert_eq!(run.on_event(BackupEvent::Listing(listing)), removal("tar.zst"));
    assert_eq!(run.phase, BackupPhase::Aborting);
    assert_eq!(
        run.on_event(BackupEvent::Completed),
        BackupAction::Fail(BackupError::NamingCollision("/backups/hub-10-19-2023-2-bundle.tar.zst".to_string()))
    );
    assert_eq!(run.phase, BackupPhase::Failed);
    assert_eq!(run.failure, None);
}

#[test]
fn failures_of_programs_and_of_the_file_system() {
    let (mut run, _) = BackupRun::begin(backup(BackupFormat::Zip, None), day(), None);
    run.on_event(BackupEvent::Probed(true));
    run.on_event(BackupEvent::Probed(true));
    assert_eq!(
        run.on_event(BackupEvent::IoFailed("read-only file system".to_string())),
        BackupAction::Fail(BackupError::Io("read-only file system".to_string()))
    );
    let (mut run, _) = BackupRun::begin(backup(BackupFormat::Zip, None), day(), None);
    run.on_event(BackupEvent::Probed(true));
    run.on_event(BackupEvent::Probed(true));
    run.on_event(BackupEvent::Completed);
    run.on_event(BackupEvent::Exists(false));
    run.on_event(BackupEvent::Completed);
    assert_eq!(run.on_event(exited(false, "", "zip error: Nothing to do!")), removal("zip"));
    assert_eq!(run.failure, Some(BackupError::ArchiveFailure("zip error: Nothing to do!".to_string())));
    assert_eq!(
        run.on_event(BackupEvent::IoFailed("busy".to_string())),
        BackupAction::Fail(BackupError::ArchiveFailure("zip error: Nothing to do!".to_string()))
    );
    assert_eq!(run.phase, BackupPhase::Failed);
    let (mut run, _) = BackupRun::begin(backup(BackupFormat::Zip, None), day(), None);
    run.on_event(BackupEvent::Probed(true));
    run.on_event(BackupEvent::Probed(true));
    run.on_event(BackupEvent::Completed);
    run.on_event(BackupEvent::Exists(false));
    run.on_event(BackupEvent::Completed);
    run.on_event(exited(true, "", ""));
    assert_eq!(run.on_event(exited(false, "", "no such file")), removal("zip"));
    assert_eq!(run.on_event(BackupEvent::Completed), BackupAction::Fail(BackupError::HashFailure));
    let (mut run, _) = BackupRun::begin(backup(BackupFormat::Zip, None), day(), None);
    run.on_event(BackupEvent::Probed(true));
    run.on_event(BackupEvent::Probed(true));
    run.on_event(BackupEvent::Completed);
    run.on_event(BackupEvent::Exists(false));
    run.on_event(BackupEvent::Completed);
    run.on_event(exited(true, "", ""));
    run.on_event(exited(true, "aaaa  file\n", ""));
    assert_eq!(run.on_event(BackupEvent::IoFailed("disk full".to_string())), removal("zip"));
    assert_eq!(
        run.on_event(BackupEvent::Completed),
        BackupAction::Fail(BackupError::Io("disk full".to_string()))
    );
    let mut run = run_until_listing(BackupFormat::TarGz);
    run.on_event(BackupEvent::Listing(Vec::new()));
    assert_eq!(run.phase, BackupPhase::Bundling { seq: 1 });
    assert_eq!(run.on_event(exited(false, "", "tar: write error")), removal("tar.gz"));
    assert_eq!(
        run.on_event(BackupEvent::Completed),
        BackupAction::Fail(BackupError::ArchiveFailure("tar: write error".to_string()))
    );
    let mut run = run_until_listing(BackupFormat::TarGz);
    run.on_event(BackupEvent::Listing(Vec::new()));
    run.on_event(exited(true, "", ""));
    assert_eq!(
        run.on_event(BackupEvent::IoFailed("directory not empty".to_string())),
        BackupAction::Fail(BackupError::Io("directory not empty".to_string()))
    );
    let mut run = run_until_listing(BackupFormat::TarGz);
    assert_eq!(run.on_event(BackupEvent::Probed(true)), removal("tar.gz"));
    assert_eq!(run.phase, BackupPhase::Aborting);
    assert_eq!(run.on_event(BackupEvent::Completed), BackupAction::Fail(BackupError::UnexpectedEvent));
    assert_eq!(run.phase, BackupPhase::Failed);
}

#[test]
fn a_failed_listing_removes_the_workspace_and_keeps_its_reason() {
    for format in [BackupFormat::TarGz, BackupFormat::TarZst, BackupFormat::Zip] {
        let mut run = run_until_listing(format);
        assert_eq!(run.on_event(BackupEvent::IoFailed("permission denied".to_string())), removal(format.extension()));
        assert_eq!(run.phase, BackupPhase::Aborting);
        assert_eq!(run.failure, Some(BackupError::Io("permission denied".to_string())));
        assert_eq!(
            run.on_event(BackupEvent::Completed),
            BackupAction::Fail(BackupError::Io("permission denied".to_string()))
        );
        assert_eq!(run.phase, BackupPhase::Failed);
        assert_eq!(run.failure, None);
    }
}

#[test]
fn nothing_that_is_reported_leaves_the_workspace_behind() {
    let events = || {
        vec![
            BackupEvent::Probed(true),
            BackupEvent::Exists(false),
            BackupEvent::Completed,
            BackupEvent::IoFailed("x".to_string()),
            exited(false, "", "x"),
            BackupEvent::Listing(vec!["hub-10-19-2023-1-bundle.tar.gz".to_string()]),
        ]
    };
    for steps in 0..5 {
        for event in events() {
            let (mut run, _) = BackupRun::begin(backup(BackupFormat::TarGz, None), day(), None);
            for _ in 0..3 {
                run.on_event(BackupEvent::Probed(true));
            }
            run.on_event(BackupEvent::Completed);
            run.on_event(BackupEvent::Exists(false));
            run.on_event(BackupEvent::Completed);
            assert_eq!(run.phase, BackupPhase::Archiving);
            let on_the_way = [
                exited(true, "", ""),
                exited(true, "aaaa  payload\n", ""),
                BackupEvent::Completed,
                BackupEvent::Listing(Vec::new()),
            ];
            for step in on_the_way.iter().take(steps) {
                run.on_event(step.clone());
            }
            assert!(run.phase.in_workspace());
            let action = run.on_event(event);
            assert_ne!(run.phase, BackupPhase::Failed);
            if !run.phase.in_workspace() && !matches!(run.phase, BackupPhase::CleaningUp { .. }) {
                assert_eq!(run.phase, BackupPhase::Aborting);
                assert_eq!(action, removal("tar.gz"));
            }
        }
    }
}

#[test]
fn zip_bundles_run_in_the_workspace() {
    let mut run = run_until_listing(BackupFormat::Zip);
    match run.on_event(BackupEvent::Listing(Vec::new())) {
        BackupAction::Run(c) => {
            assert_eq!(c.program, "zip");
            assert_eq!(
                c.args,
                vec!["-r", "/backups/hub-10-19-2023-1-bundle.zip", "hub-10-19-2023.zip", "hub-10-19-2023_hash.txt"]
            );
            assert_eq!(c.current_dir, Some("/backups/.lmtmp".to_string()));
        }
        other => panic!("unexpected action {:?}", other),
    }
}

#[test]
fn a_failed_hash_of_the_bundle_leaves_the_bundle() {
    let mut run = run_until_listing(BackupFormat::TarGz);
    run.on_event(BackupEvent::Listing(Vec::new()));
    run.on_event(exited(true, "", ""));
    run.on_event(BackupEvent::Completed);
    assert_eq!(run.phase, BackupPhase::HashingBundle { seq: 1 });
    assert_eq!(run.on_event(exited(false, "", "")), BackupAction::Fail(BackupError::HashFailure));
    let mut stray = run_until_listing(BackupFormat::TarGz);
    stray.phase = BackupPhase::Aborting;
    assert_eq!(stray.on_event(BackupEvent::Completed), BackupAction::Fail(BackupError::UnexpectedEvent));
}

#[test]
fn holds_name_looks_for_the_whole_name() {
    let files = vec!["a.zip".to_string(), "b.zip".to_string()];
    assert!(holds_name(&files, "b.zip"));
    assert!(!holds_name(&files, "b"));
    assert!(!holds_name(&Vec::new(), ""));
}

fn stages(plan: FollowUp, answer: bool, upload_ok: bool) -> Vec<Stage> {
    let mut seen = Vec::new();
    let mut last = None;
    let mut ok = true;
    loop {
        let next = plan.next_stage(last, ok);
        if next == Stage::End {
            return seen;
        }
        seen.push(next);
        ok = match next {
            Stage::Confirm => answer,
            Stage::Upload => upload_ok,
            _ => true,
        };
        last = Some(next);
    }
}

#[test]
fn follow_up_stages_in_order() {
    let all = FollowUp { prune_local: true, upload: true, ask_before_upload: true, prune_remote: true, delete_after_upload: true };
    assert_eq!(
        stages(all, true, true),
        vec![Stage::PruneLocal, Stage::Confirm, Stage::Upload, Stage::PruneRemote, Stage::DeleteLocal]
    );
    assert_eq!(stages(all, false, true), vec![Stage::PruneLocal, Stage::Confirm]);
    assert_eq!(stages(all, true, false), vec![Stage::PruneLocal, Stage::Confirm, Stage::Upload]);
    let quiet = FollowUp { ask_before_upload: false, prune_remote: false, ..all };
    assert_eq!(stages(quiet, true, true), vec![Stage::PruneLocal, Stage::Upload, Stage::DeleteLocal]);
    let local = FollowUp { upload: false, ..all };
    assert_eq!(stages(local, true, true), vec![Stage::PruneLocal]);
    let none = FollowUp { prune_local: false, upload: false, ask_before_upload: false, prune_remote: false, delete_after_upload: false };
    assert_eq!(stages(none, true, true), Vec::<Stage>::new());
    assert_eq!(all.next_stage(Some(Stage::PruneLocal), false), Stage::Confirm);
    assert_eq!(all.next_stage(Some(Stage::PruneRemote), false), Stage::DeleteLocal);
    assert_eq!(all.next_stage(Some(Stage::DeleteLocal), true), Stage::End);
    assert_eq!(all.next_stage(Some(Stage::End), true), Stage::End);
}

#[test]
fn answers_to_the_question() {
    assert_eq!(parse_answer("y"), Some(true));
    assert_eq!(parse_answer("Y\n"), Some(true));
    assert_eq!(parse_answer("  yEs \r\n"), Some(true));
    assert_eq!(parse_answer("n"), Some(false));
    assert_eq!(parse_answer("NO\n"), Some(false));
    assert_eq!(parse_answer(""), None);
    assert_eq!(parse_answer("\n"), None);
    assert_eq!(parse_answer("yes please"), None);
    assert_eq!(parse_answer("ye"), None);
    assert_eq!(parse_answer("nope"), None);
    assert_eq!(parse_answer("y e s"), None);
}
