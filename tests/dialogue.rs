use video_to_audio::session::{job_from_lines, InputError, Job, Prompt, Session, Step, TRANSCODER};
use video_to_audio::text::clean_path;

fn job(first: Option<&str>, second: Option<&str>) -> Job {
    match job_from_lines(first, second) {
        Ok(j) => j,
        Err(e) => panic!("unexpected error {:?}", e),
    }
}

#[test]
fn padded_paths_are_trimmed() {
    let j = job(Some("  /tmp/in.mp4\n"), Some("/tmp/out.mp3\n"));
    assert_eq!(j.video_path, "/tmp/in.mp4");
    assert_eq!(j.output_path, "/tmp/out.mp3");
}

#[test]
fn empty_source_line_is_passed_on() {
    let j = job(Some("\n"), Some("out.mp3"));
    assert_eq!(j.video_path, "");
    assert_eq!(j.output_path, "out.mp3");
    let k = job(Some(""), Some("out.mp3"));
    assert_eq!(k.video_path, "");
    assert_eq!(k.output_path, "out.mp3");
}

#[test]
fn closed_before_first_line_fails() {
    assert_eq!(job_from_lines(None, None).unwrap_err(), InputError::VideoPathUnread);
    assert_eq!(job_from_lines(None, Some("out.mp3")).unwrap_err(), InputError::VideoPathUnread);
}

#[test]
fn closed_before_second_line_fails() {
    assert_eq!(job_from_lines(Some("in.mp4\n"), None).unwrap_err(), InputError::OutputPathUnread);
}

#[test]
fn non_empty_lines_are_forwarded_trimmed() {
    let j = job(Some("movie.mkv"), Some("\t sound.ogg \r\n"));
    assert_eq!(j.video_path, "movie.mkv");
    assert_eq!(j.output_path, "sound.ogg");
}

#[test]
fn inner_whitespace_is_kept() {
    let j = job(Some(" My Videos/clip one.mp4 \n"), Some("a b.mp3"));
    assert_eq!(j.video_path, "My Videos/clip one.mp4");
    assert_eq!(j.output_path, "a b.mp3");
}

#[test]
fn trimming_strips_unicode_white_space() {
    assert_eq!(clean_path("\u{3000}\u{a0}clip.mp4\u{2028}\u{85}"), "clip.mp4");
    assert_eq!(clean_path("\u{b}\u{c}x\u{2009}"), "x");
}

#[test]
fn trimming_keeps_other_characters() {
    assert_eq!(clean_path("\u{200b}a\u{200b}"), "\u{200b}a\u{200b}");
    assert_eq!(clean_path("plain"), "plain");
}

#[test]
fn trimming_changes_padded_line() {
    assert_ne!(clean_path("  a \n"), "  a \n");
    assert_eq!(clean_path("  a \n"), "a");
}

#[test]
fn blank_line_trims_to_empty() {
    assert_eq!(clean_path(" \t\r\n"), "");
    assert_eq!(clean_path(""), "");
}

#[test]
fn prompts_read_as_asked() {
    assert_eq!(Prompt::VideoPath.text(), "Enter video path:");
    assert_eq!(Prompt::OutputPath.text(), "Enter output path:");
}

#[test]
fn errors_share_one_message() {
    assert_eq!(InputError::VideoPathUnread.message(), "Failed to read input");
    assert_eq!(InputError::OutputPathUnread.message(), "Failed to read input");
}

#[test]
fn session_asks_then_runs() {
    let s = Session::new();
    assert_eq!(s.prompt(), Prompt::VideoPath);
    let next = match s.advance(Some(" in.mp4\n")) {
        Step::Ask(n) => n,
        other => panic!("unexpected step {:?}", other),
    };
    assert_eq!(next.prompt(), Prompt::OutputPath);
    match next.advance(Some("out.mp3\n")) {
        Step::Run(j) => {
            assert_eq!(j.video_path, "in.mp4");
            assert_eq!(j.output_path, "out.mp3");
        }
        other => panic!("unexpected step {:?}", other),
    }
}

#[test]
fn session_fails_on_closed_input() {
    assert!(matches!(Session::new().advance(None), Step::Fail(InputError::VideoPathUnread)));
    let next = match Session::new().advance(Some("in.mp4")) {
        Step::Ask(n) => n,
        other => panic!("unexpected step {:?}", other),
    };
    assert!(matches!(next.advance(None), Step::Fail(InputError::OutputPathUnread)));
}

#[test]
fn tool_arguments_name_both_paths() {
    let j = job(Some("/tmp/in.mp4"), Some("/tmp/out.mp3"));
    assert_eq!(j.tool_arguments(), vec!["-i", "/tmp/in.mp4", "-vn", "/tmp/out.mp3"]);
    assert_eq!(TRANSCODER, "ffmpeg");
}
