use yt_point::video::extract_video_id;

#[test]
fn bare_video_identifiers_pass_through() {
    assert_eq!(extract_video_id("dQw4w9WgXcQ").unwrap(), "dQw4w9WgXcQ");
    assert_eq!(extract_video_id("  dQw4w9WgXcQ\n").unwrap(), "dQw4w9WgXcQ");
    assert_eq!(extract_video_id("a-b_c123XYZ").unwrap(), "a-b_c123XYZ");
}

#[test]
fn watch_urls_yield_the_v_parameter() {
    assert_eq!(
        extract_video_id("https://www.youtube.com/watch?v=dQw4w9WgXcQ").unwrap(),
        "dQw4w9WgXcQ"
    );
    assert_eq!(
        extract_video_id("https://m.youtube.com/watch?t=30&v=abcdefghijk").unwrap(),
        "abcdefghijk"
    );
}

#[test]
fn short_urls_yield_the_first_path_segment() {
    assert_eq!(
        extract_video_id("https://youtu.be/dQw4w9WgXcQ").unwrap(),
        "dQw4w9WgXcQ"
    );
    assert_eq!(
        extract_video_id("https://youtu.be/dQw4w9WgXcQ?t=42").unwrap(),
        "dQw4w9WgXcQ"
    );
}

#[test]
fn invalid_references_are_rejected() {
    let msg = "Invalid YouTube URL or video ID";
    assert_eq!(extract_video_id("").unwrap_err(), msg);
    assert_eq!(extract_video_id("tooshort").unwrap_err(), msg);
    assert_eq!(extract_video_id("https://example.com/watch?v=abcdefghijk").unwrap_err(), msg);
    assert_eq!(extract_video_id("https://www.youtube.com/watch?x=1").unwrap_err(), msg);
    assert_eq!(extract_video_id("not a url, and not eleven chars either").unwrap_err(), msg);
}
