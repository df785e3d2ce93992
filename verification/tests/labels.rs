use pomodoro_mindfullness::labels::{choose_display_name, percent_label, video_display_name};

#[test]
fn percent_labels() {
    assert_eq!(percent_label(0), "0%");
    assert_eq!(percent_label(7), "7%");
    assert_eq!(percent_label(60), "60%");
    assert_eq!(percent_label(100), "100%");
    assert_eq!(percent_label(u32::MAX), "4294967295%");
}

#[test]
fn percent_label_reads_back() {
    for p in [0u32, 1, 9, 10, 99, 100, 1234, 4000000000] {
        let text = percent_label(p);
        assert_eq!(text, format!("{}%", p));
        let digits = &text[..text.len() - 1];
        assert_eq!(digits.parse::<u32>().unwrap(), p);
    }
}

#[test]
fn display_name_picks_file_name() {
    assert_eq!(choose_display_name("/home/u/relax.mp4", Some("relax.mp4".to_string())), "relax.mp4");
    assert_eq!(choose_display_name("/", None), "/");
}

#[test]
fn video_display_names() {
    assert_eq!(video_display_name("relax.mp4"), "relax.mp4");
    assert_eq!(video_display_name("/home/u/videos/sea.webm"), "sea.webm");
    assert_eq!(video_display_name("/usr/bin/"), "bin");
    assert_eq!(video_display_name("/"), "/");
    assert_eq!(video_display_name("videos/.."), "videos/..");
    assert_eq!(video_display_name(""), "");
}

#[test]
fn video_display_name_of_dot_paths() {
    assert_eq!(video_display_name("a/b/.."), "a/b/..");
    assert_eq!(video_display_name(".."), "..");
    assert_eq!(video_display_name("/home/u/Videos/relax.mp4"), "relax.mp4");
    assert_eq!(video_display_name("../clip.mkv"), "clip.mkv");
}

#[test]
fn video_display_name_ignores_dot_and_trailing_separators() {
    assert_eq!(video_display_name("a/."), "a");
    assert_eq!(video_display_name("clips//sea.webm//"), "sea.webm");
    assert_eq!(video_display_name("."), ".");
    assert_eq!(video_display_name("./"), "./");
    assert_eq!(video_display_name("/./"), "/./");
    assert_eq!(video_display_name("//"), "//");
}
