use termusic::download::{
    choose_dir, download_args, target_dir, DownloadArg, DownloadJob, JobPhase, JobStep,
    ToolResult, TransferState, SETTLE_SECONDS,
};

fn emitted(steps: &[JobStep]) -> Vec<TransferState> {
    let mut states = Vec::new();
    for step in steps {
        if let JobStep::Emit(state) = step {
            states.push(state.clone());
        }
    }
    states
}

fn job() -> DownloadJob {
    DownloadJob::new("/music".to_string(), "https://www.youtube.com/watch?v=abc".to_string())
}

#[test]
fn a_new_job_is_idle() {
    let job = job();
    assert_eq!(job.phase(), &JobPhase::Idle);
    assert_eq!(job.dir(), "/music");
    assert_eq!(job.url(), "https://www.youtube.com/watch?v=abc");
}

#[test]
fn a_good_download_runs_succeeds_and_completes_with_the_path() {
    let mut job = job();
    let mut states = Vec::new();

    let steps = job.start();
    assert_eq!(steps, vec![JobStep::Emit(TransferState::Running), JobStep::RunTool]);
    assert_eq!(job.phase(), &JobPhase::Running);
    states.extend(emitted(&steps));

    let steps = job.tool_exited(ToolResult::Success, "x [ffmpeg] Destination: My Song.mp3 y");
    assert_eq!(
        steps,
        vec![
            JobStep::Tag("/music/My Song.mp3".to_string()),
            JobStep::Emit(TransferState::Success),
            JobStep::Settle(5),
        ]
    );
    assert_eq!(job.phase(), &JobPhase::Settling(Some("/music/My Song.mp3".to_string())));
    states.extend(emitted(&steps));

    let steps = job.settled();
    assert_eq!(
        steps,
        vec![JobStep::Emit(TransferState::Completed(Some("/music/My Song.mp3".to_string())))]
    );
    assert_eq!(job.phase(), &JobPhase::Completed);
    states.extend(emitted(&steps));

    assert_eq!(
        states,
        vec![
            TransferState::Running,
            TransferState::Success,
            TransferState::Completed(Some("/music/My Song.mp3".to_string())),
        ]
    );
}

#[test]
fn a_download_without_a_recovered_path_completes_with_none() {
    let mut job = job();
    let mut states = emitted(&job.start());
    let steps = job.resolved(ToolResult::Success, None);
    assert_eq!(steps, vec![JobStep::Emit(TransferState::Success), JobStep::Settle(5)]);
    assert_eq!(job.phase(), &JobPhase::Settling(None));
    states.extend(emitted(&steps));
    states.extend(emitted(&job.settled()));
    assert_eq!(
        states,
        vec![TransferState::Running, TransferState::Success, TransferState::Completed(None)]
    );
}

#[test]
fn a_failed_download_reports_the_error_and_completes_with_none() {
    for result in [ToolResult::IoError, ToolResult::Failure] {
        let mut job = job();
        let mut states = emitted(&job.start());
        let steps = job.tool_exited(result, "[ffmpeg] Destination: My Song.mp3");
        assert_eq!(steps, vec![JobStep::Emit(TransferState::ErrDownload), JobStep::Settle(5)]);
        assert_eq!(job.phase(), &JobPhase::Settling(None));
        states.extend(emitted(&steps));
        states.extend(emitted(&job.settled()));
        assert_eq!(
            states,
            vec![TransferState::Running, TransferState::ErrDownload, TransferState::Completed(None)]
        );
        assert_eq!(job.phase(), &JobPhase::Completed);
    }
}

#[test]
fn a_failed_download_forgets_a_path_it_is_handed() {
    let mut job = job();
    job.start();
    let steps = job.resolved(ToolResult::Failure, Some("/music/x.mp3".to_string()));
    assert_eq!(steps, vec![JobStep::Emit(TransferState::ErrDownload), JobStep::Settle(5)]);
    assert_eq!(job.settled(), vec![JobStep::Emit(TransferState::Completed(None))]);
}

#[test]
fn a_log_without_marker_completes_without_a_path() {
    for output in ["nothing to see", "", "[ffmpeg] Destination: broken\n.mp3", ".mp3"] {
        let mut job = job();
        let mut states = emitted(&job.start());
        let steps = job.tool_exited(ToolResult::Success, output);
        assert_eq!(steps, vec![JobStep::Emit(TransferState::Success), JobStep::Settle(5)]);
        assert_eq!(job.phase(), &JobPhase::Settling(None));
        states.extend(emitted(&steps));
        let steps = job.settled();
        assert_eq!(steps, vec![JobStep::Emit(TransferState::Completed(None))]);
        states.extend(emitted(&steps));
        assert_eq!(
            states,
            vec![TransferState::Running, TransferState::Success, TransferState::Completed(None)]
        );
    }
}

#[test]
fn a_marker_with_an_empty_name_still_names_a_file() {
    let mut job = job();
    job.start();
    let steps = job.tool_exited(ToolResult::Success, "[ffmpeg] Destination: .mp3");
    assert_eq!(steps[0], JobStep::Tag("/music/.mp3".to_string()));
    assert_eq!(
        job.settled(),
        vec![JobStep::Emit(TransferState::Completed(Some("/music/.mp3".to_string())))]
    );
}

#[test]
fn signals_out_of_turn_change_nothing() {
    let mut job = job();
    assert_eq!(job.settled(), vec![]);
    assert_eq!(job.tool_exited(ToolResult::Success, "[ffmpeg] Destination: a.mp3"), vec![]);
    assert_eq!(job.resolved(ToolResult::Failure, None), vec![]);
    assert_eq!(job.phase(), &JobPhase::Idle);

    job.start();
    assert_eq!(job.start(), vec![]);
    assert_eq!(job.settled(), vec![]);
    assert_eq!(job.phase(), &JobPhase::Running);

    job.tool_exited(ToolResult::Success, "[ffmpeg] Destination: a.mp3");
    assert_eq!(job.start(), vec![]);
    assert_eq!(job.tool_exited(ToolResult::Failure, ""), vec![]);
    assert_eq!(job.phase(), &JobPhase::Settling(Some("/music/a.mp3".to_string())));

    job.settled();
    assert_eq!(job.start(), vec![]);
    assert_eq!(job.tool_exited(ToolResult::Failure, ""), vec![]);
    assert_eq!(job.settled(), vec![]);
    assert_eq!(job.phase(), &JobPhase::Completed);
}

#[test]
fn the_settle_time_is_five_seconds() {
    assert_eq!(SETTLE_SECONDS, 5);
    assert_eq!(job().settle(), 5);
}

#[test]
fn the_settle_time_can_be_set() {
    let mut job = job().with_settle(0);
    assert_eq!(job.settle(), 0);
    assert_eq!(job.dir(), "/music");
    assert_eq!(job.phase(), &JobPhase::Idle);
    job.start();
    let steps = job.tool_exited(ToolResult::Failure, "");
    assert_eq!(steps, vec![JobStep::Emit(TransferState::ErrDownload), JobStep::Settle(0)]);

    let mut job = DownloadJob::new("d".to_string(), "u".to_string()).with_settle(9);
    job.start();
    let steps = job.tool_exited(ToolResult::Success, "[ffmpeg] Destination: a.mp3");
    assert_eq!(
        steps,
        vec![
            JobStep::Tag("d/a.mp3".to_string()),
            JobStep::Emit(TransferState::Success),
            JobStep::Settle(9),
        ]
    );
}

#[test]
fn the_command_line_is_fixed() {
    let flag = |name: &str| DownloadArg { flag: name.to_string(), value: None };
    let with = |name: &str, value: &str| DownloadArg {
        flag: name.to_string(),
        value: Some(value.to_string()),
    };
    assert_eq!(
        download_args(),
        vec![
            flag("--extract-audio"),
            with("--audio-format", "mp3"),
            flag("--add-metadata"),
            flag("--embed-thumbnail"),
            with("--metadata-from-title", "%(artist) - %(title)s"),
            flag("--write-sub"),
            flag("--all-subs"),
            with("--convert-subs", "lrc"),
            with("--output", "%(title).90s.%(ext)s"),
        ]
    );
}

#[test]
fn the_directory_follows_the_selection() {
    assert_eq!(choose_dir(None, false, None), "");
    assert_eq!(choose_dir(None, true, Some("/x".to_string())), "");
    assert_eq!(choose_dir(Some("/music/rock"), true, Some("/music".to_string())), "/music/rock");
    assert_eq!(choose_dir(Some("/music/a.mp3"), false, Some("/music".to_string())), "/music");
    assert_eq!(choose_dir(Some("/"), false, None), "");
}

#[test]
fn the_directory_of_a_file_is_the_one_that_holds_it() {
    assert_eq!(target_dir(None, false), "");
    assert_eq!(target_dir(Some("music/rock"), true), "music/rock");
    assert_eq!(target_dir(Some("music/rock/a.mp3"), false), "music/rock");
    assert_eq!(target_dir(Some("a.mp3"), false), "");
    assert_eq!(target_dir(Some(""), false), "");
}
