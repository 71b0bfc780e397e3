use pleme_notifications::discord::{capitalize_service, format_duration, truncate_tag};
use pleme_notifications::TimeSpan;

#[test]
fn test_truncate_tag() {
    assert_eq!(truncate_tag("short", 10), "short");
    assert_eq!(truncate_tag("sha256:abc123def456", 10), "sha256:...");
}

#[test]
fn test_capitalize_service() {
    assert_eq!(capitalize_service("lilitu-backend"), "Lilitu Backend");
    assert_eq!(capitalize_service("hanabi"), "Hanabi");
}

#[test]
fn test_format_duration() {
    assert_eq!(format_duration(TimeSpan::from_millis(42)), "`42ms`");
    assert_eq!(format_duration(TimeSpan::from_millis(1200)), "`1.2s`");
}

#[test]
fn truncate_tag_edges() {
    assert_eq!(truncate_tag("exactly10!", 10), "exactly10!");
    assert_eq!(truncate_tag("abcdef", 2), "...");
    assert_eq!(truncate_tag("", 0), "");
    assert_eq!(truncate_tag("héllo wörld", 8), "héll...");
}

#[test]
fn truncated_tags_fit_their_limit() {
    for tag in ["a", "sha256:0123456789abcdef0123456789abcdef0123456789", "registry/image:v1.2.3"] {
        for max in 3..30usize {
            assert!(truncate_tag(tag, max).len() <= max);
        }
    }
}

#[test]
fn capitalize_service_edges() {
    assert_eq!(capitalize_service(""), "");
    assert_eq!(capitalize_service("a--b"), "A  B");
    assert_eq!(capitalize_service("-x-"), " X ");
    assert_eq!(capitalize_service("straße-dienst"), "Straße Dienst");
    assert_eq!(capitalize_service("ßeta"), "SSeta");
}

#[test]
fn format_duration_edges() {
    assert_eq!(format_duration(TimeSpan::zero()), "`0ms`");
    assert_eq!(format_duration(TimeSpan::from_millis(999)), "`999ms`");
    assert_eq!(format_duration(TimeSpan::from_millis(1000)), "`1.0s`");
    assert_eq!(format_duration(TimeSpan::from_parts(0, 999_999_999)), "`999ms`");
    assert_eq!(format_duration(TimeSpan::from_secs(65)), "`65.0s`");
}
