use vidspeed::ffmpeg::{ffmpeg_args, ffmpeg_outcome, video_filter, FfmpegFailure};
use vidspeed::paths::{
    attachment_name, content_disposition, default_output_path, output_path, processed_output_path,
    speed_file_name, upload_input_path,
};
use vidspeed::server::listen_address;

#[test]
fn default_output_sits_next_to_the_input() {
    assert_eq!(default_output_path("myvideo.mp4", "2"), "myvideo_speed2x_noaudio.mp4");
    assert_eq!(
        default_output_path("/videos/lecture.mov", "1.5"),
        "/videos/lecture_speed1.5x_noaudio.mp4"
    );
    assert_eq!(
        default_output_path("clips/a.b.mkv", "0.5"),
        "clips/a.b_speed0.5x_noaudio.mp4"
    );
}

#[test]
fn default_output_for_a_path_without_parent() {
    assert_eq!(default_output_path("/", "2"), "./_speed2x_noaudio.mp4");
    assert_eq!(default_output_path("", "2"), "./_speed2x_noaudio.mp4");
}

#[test]
fn requested_output_is_kept() {
    assert_eq!(output_path("in.mp4", Some("/tmp/out.mp4"), "2"), "/tmp/out.mp4");
    assert_eq!(output_path("in.mp4", None, "3"), "in_speed3x_noaudio.mp4");
}

#[test]
fn speed_file_name_shape() {
    assert_eq!(speed_file_name("talk", "1.25"), "talk_speed1.25x_noaudio.mp4");
}

#[test]
fn upload_and_output_paths() {
    assert_eq!(upload_input_path("./uploads", "abc"), "./uploads/abc.mp4");
    assert_eq!(upload_input_path("./uploads/", "abc"), "./uploads/abc.mp4");
    assert_eq!(processed_output_path("./processed", "abc"), "./processed/abc_out.mp4");
}

#[test]
fn attachment_names() {
    assert_eq!(attachment_name(Some("holiday.webm"), "2"), "holiday_speed2x_noaudio.mp4");
    assert_eq!(attachment_name(None, "4"), "video_speed4x_noaudio.mp4");
    assert_eq!(attachment_name(Some("dir/clip.mov"), "1.5"), "clip_speed1.5x_noaudio.mp4");
    assert_eq!(
        content_disposition("clip_speed2x_noaudio.mp4"),
        "attachment; filename=\"clip_speed2x_noaudio.mp4\""
    );
}

#[test]
fn ffmpeg_command_strips_audio() {
    let args = ffmpeg_args("in.mp4", "out.mp4", &video_filter("0.5"));
    assert_eq!(
        args,
        vec![
            "-i", "in.mp4", "-filter:v", "setpts=0.5*PTS", "-an", "-c:v", "libx264", "-preset",
            "medium", "-crf", "23", "-f", "mp4", "-y", "out.mp4"
        ]
    );
    assert!(args.iter().any(|a| a == "-an"));
    let mkv = ffmpeg_args("in.mp4", "out.mkv", "setpts=1*PTS");
    let f = mkv.iter().position(|a| a == "-f").unwrap();
    assert_eq!(mkv[f + 1], "mp4");
    assert_eq!(args.last().unwrap(), "out.mp4");
}

#[test]
fn ffmpeg_exit_outcomes() {
    assert_eq!(ffmpeg_outcome(true, Some(0)), Ok(()));
    assert_eq!(ffmpeg_outcome(false, Some(1)), Err(FfmpegFailure { code: 1 }));
    assert_eq!(ffmpeg_outcome(false, None), Err(FfmpegFailure { code: -1 }));
}

#[test]
fn ffmpeg_failure_message() {
    assert_eq!(
        FfmpegFailure { code: -1 }.message(),
        "Video processing failed (ffmpeg exit code -1). Re-run with RUST_LOG=debug or set stderr to Stdio::inherit() to see ffmpeg output."
    );
    assert!(FfmpegFailure { code: 234 }.message().contains("exit code 234)"));
}

#[test]
fn listen_address_joins_host_and_port() {
    assert_eq!(listen_address("0.0.0.0", 3000), "0.0.0.0:3000");
    assert_eq!(listen_address("localhost", 0), "localhost:0");
}
