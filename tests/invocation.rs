use screen_recorder::config::RecorderConfig;
use screen_recorder::invocation::{decimal, encoder_invocation};

#[test]
fn decimal_values() {
    assert_eq!(decimal(0), "0");
    assert_eq!(decimal(7), "7");
    assert_eq!(decimal(10), "10");
    assert_eq!(decimal(1920), "1920");
    assert_eq!(decimal(u32::MAX), "4294967295");
}

#[test]
fn invocation_without_audio() {
    let config = RecorderConfig::new("out/a.mp4".to_string(), 30, None).with_quality(18);
    let args = encoder_invocation(&config, 1920, 1080, false);
    let expected = [
        "-y", "-f", "rawvideo", "-pix_fmt", "rgb24", "-s", "1920x1080", "-r", "30", "-i", "-",
        "-c:v", "libx264", "-crf", "18", "-pix_fmt", "yuv420p", "out/a.mp4",
    ];
    assert_eq!(args, expected.iter().map(|s| s.to_string()).collect::<Vec<_>>());
}

#[test]
fn invocation_with_audio() {
    let config = RecorderConfig::new("b.mkv".to_string(), 60, Some("mic.monitor".to_string()));
    let args = encoder_invocation(&config, 800, 600, true);
    let expected = [
        "-y", "-f", "rawvideo", "-pix_fmt", "rgb24", "-s", "800x600", "-r", "60", "-i", "-",
        "-f", "pulse", "-i", "mic.monitor",
        "-c:v", "libx264", "-crf", "23", "-pix_fmt", "yuv420p", "b.mkv",
    ];
    assert_eq!(args, expected.iter().map(|s| s.to_string()).collect::<Vec<_>>());
}
