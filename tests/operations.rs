use stem_splitter::{
    accepts, app_data_dir_result, download_invocation, download_result, export_result,
    is_space, join_path, output_fields, plan_export, separated_files, separation_invocation,
    separation_result, source_from_host, source_of, suggested_file_name, trim, with_prefix,
    AudioInfo, DownloadJob, Event, Request, SeparatedFiles, SeparationJob, Stage, Step,
    ToolOutput,
};

fn output(success: bool, stdout: &str, stderr: &str) -> ToolOutput {
    ToolOutput { success, stdout: stdout.to_string(), stderr: stderr.to_string() }
}

fn done_audio(s: Step<AudioInfo>) -> Result<AudioInfo, String> {
    match s {
        Step::Done(r) => r,
        Step::Next(_) => panic!("expected an outcome"),
    }
}

fn done_files(s: Step<SeparatedFiles>) -> Result<SeparatedFiles, String> {
    match s {
        Step::Done(r) => r,
        Step::Next(_) => panic!("expected an outcome"),
    }
}

fn err_text<T>(r: Result<T, String>) -> String {
    match r {
        Ok(_) => panic!("expected an error"),
        Err(e) => e,
    }
}

#[test]
fn end_to_end_download_record() {
    let out = output(true, "/tmp/x/My Song.mp3\nMy Song\n3:45\n", "");
    let info = done_audio(download_result("https://youtu.be/abc", &out)).unwrap();
    assert_eq!(info.file_path, "/tmp/x/My Song.mp3");
    assert_eq!(info.title, "My Song");
    assert_eq!(info.duration, "3:45");
    assert_eq!(info.source, "youtu.be");
}

#[test]
fn source_is_host_or_unknown() {
    assert_eq!(source_of("https://www.youtube.com/watch?v=x"), "www.youtube.com");
    assert_eq!(source_of("not a url"), "Unknown");
    assert_eq!(source_of(""), "Unknown");
    assert_eq!(source_of("mailto:someone@example.com"), "Unknown");
    assert_eq!(source_from_host(Some("a.b".to_string())), "a.b");
    assert_eq!(source_from_host(None), "Unknown");
}

#[test]
fn short_output_is_parse_error() {
    let out = output(true, "/tmp/a.mp3\n\n   \nTitle\n", "");
    assert_eq!(err_text(done_audio(download_result("u", &out))), "Failed to parse yt-dlp output");
    let empty = output(true, "", "");
    assert_eq!(err_text(done_audio(download_result("u", &empty))), "Failed to parse yt-dlp output");
}

#[test]
fn failed_download_forwards_stderr() {
    let out = output(false, "", "ERROR: no video");
    assert_eq!(err_text(done_audio(download_result("u", &out))), "yt-dlp failed: ERROR: no video");
}

#[test]
fn blank_lines_and_spaces_are_skipped() {
    let out = output(true, "\n  /a b.mp3 \r\n\n\tT\n 1:00\nextra\n", "");
    let info = done_audio(download_result("u", &out)).unwrap();
    assert_eq!(info.file_path, "/a b.mp3");
    assert_eq!(info.title, "T");
    assert_eq!(info.duration, "1:00");
    assert_eq!(info.source, "Unknown");
}

#[test]
fn fields_and_trim() {
    assert_eq!(output_fields("a\n\n b \n"), vec!["a".to_string(), "b".to_string()]);
    assert_eq!(output_fields(""), Vec::<String>::new());
    assert_eq!(trim("\u{3000} x y\t"), "x y");
    assert!(is_space('\u{85}'));
    assert!(!is_space('x'));
}

#[test]
fn download_arguments() {
    let inv = download_invocation("https://youtu.be/abc", "/out");
    assert_eq!(inv.program, "yt-dlp");
    assert_eq!(
        inv.args,
        vec![
            "-x", "--audio-format", "mp3", "--audio-quality", "0", "-o",
            "/out/%(title)s.%(ext)s", "--print", "after_move:filepath", "--print", "title",
            "--print", "duration_string", "https://youtu.be/abc",
        ]
    );
}

#[test]
fn separation_paths() {
    let f = separated_files("/out", "htdemucs", "song");
    assert_eq!(f.vocals, "/out/htdemucs/song/vocals.wav");
    assert_eq!(f.no_vocals, "/out/htdemucs/song/no_vocals.wav");
    assert_eq!(f.drums, "/out/htdemucs/song/drums.wav");
    assert_eq!(f.bass, "/out/htdemucs/song/bass.wav");
    assert_eq!(f.other, "/out/htdemucs/song/other.wav");
}

fn run_separation(file_path: &str, out: ToolOutput) -> Result<SeparatedFiles, String> {
    let (mut job, first) = SeparationJob::new(file_path.to_string(), "/out".to_string(), "htdemucs".to_string());
    assert!(matches!(first, Step::Next(Request::Probe(_))));
    assert!(matches!(job.step(Event::Probed(true)), Step::Next(Request::CreateDir(_))));
    match job.step(Event::DirCreated(Ok(()))) {
        Step::Done(r) => r,
        Step::Next(Request::Run(inv)) => {
            assert_eq!(inv.program, "demucs");
            assert_eq!(inv.args, vec!["-n", "htdemucs", "-o", "/out", file_path]);
            done_files(job.step(Event::Ran(Ok(out))))
        }
        Step::Next(_) => panic!("unexpected request"),
    }
}

#[test]
fn separation_job_end_to_end() {
    let f = run_separation("/in/song.mp3", output(true, "", "")).unwrap();
    assert_eq!(f.vocals, "/out/htdemucs/song/vocals.wav");
    assert_eq!(f.other, "/out/htdemucs/song/other.wav");
}

#[test]
fn separation_without_file_name_is_invalid() {
    assert_eq!(err_text(run_separation("", output(true, "", ""))), "Invalid file path");
    assert_eq!(err_text(run_separation("/", output(true, "", ""))), "Invalid file path");
}

#[test]
fn separation_failure_forwards_stderr() {
    let r = separation_result("/out", "m", "s", &output(false, "", "bad model"));
    assert_eq!(err_text(done_files(r)), "Demucs failed: bad model");
    let inv = separation_invocation("/a.mp3", "/o", "m");
    assert_eq!(inv.args, vec!["-n", "m", "-o", "/o", "/a.mp3"]);
}

#[test]
fn missing_tools_are_reported() {
    let (mut d, _) = DownloadJob::new("u".to_string(), "/o".to_string());
    assert_eq!(err_text(done_audio(d.step(Event::Probed(false)))), "yt-dlp not installed. Install: pip install yt-dlp");
    assert_eq!(d.stage, Stage::Over);
    assert!(!accepts(d.stage, &Event::Ran(Ok(output(true, "", "")))));
    let (mut s, _) = SeparationJob::new("".to_string(), "/o".to_string(), "m".to_string());
    assert_eq!(err_text(done_files(s.step(Event::Probed(false)))), "Demucs not installed. Install: pip install demucs");
}

#[test]
fn download_job_errors() {
    let (mut d, _) = DownloadJob::new("u".to_string(), "/o".to_string());
    assert!(matches!(d.step(Event::Probed(true)), Step::Next(Request::CreateDir(ref p)) if p == "/o"));
    assert_eq!(err_text(done_audio(d.step(Event::DirCreated(Err("denied".to_string()))))), "Failed to create directory: denied");
    let (mut d, _) = DownloadJob::new("u".to_string(), "/o".to_string());
    d.step(Event::Probed(true));
    assert!(matches!(d.step(Event::DirCreated(Ok(()))), Step::Next(Request::Run(_))));
    assert_eq!(err_text(done_audio(d.step(Event::Ran(Err("boom".to_string()))))), "yt-dlp execution failed: boom");
}

#[test]
fn export_steps() {
    assert_eq!(suggested_file_name("vocals"), "vocals.wav");
    assert_eq!(err_text(plan_export("/a.wav".to_string(), None)), "Save cancelled");
    let c = plan_export("/a.wav".to_string(), Some("/b.wav".to_string())).unwrap();
    assert_eq!((c.from.as_str(), c.to.as_str()), ("/a.wav", "/b.wav"));
    assert_eq!(export_result(Ok(())), Ok(()));
    assert_eq!(export_result(Err("no space".to_string())), Err("Failed to save file: no space".to_string()));
    assert_eq!(app_data_dir_result(None), Err("Failed to get app data directory".to_string()));
    assert_eq!(app_data_dir_result(Some("/d".to_string())), Ok("/d".to_string()));
}

#[test]
fn path_joining() {
    assert_eq!(join_path("/out/", "m"), "/out/m");
    assert_eq!(join_path("", "m"), "m");
    assert_eq!(join_path("/out", "/abs"), "/abs");
    assert_eq!(with_prefix("a: ", "b"), "a: b");
}
