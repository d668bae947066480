use kakaia::{archive_audio_path, archive_base, archive_directory, archive_text_path};

#[test]
fn directory_of_a_day() {
    assert_eq!(archive_directory(2020, 3, 7), "archive/2020/03/07/");
    assert_eq!(archive_directory(2026, 10, 28), "archive/2026/10/28/");
    assert_eq!(archive_directory(2020, 12, 31), "archive/2020/12/31/");
}

#[test]
fn directory_of_an_early_or_late_year() {
    assert_eq!(archive_directory(0, 1, 1), "archive/0000/01/01/");
    assert_eq!(archive_directory(7, 1, 1), "archive/0007/01/01/");
    assert_eq!(archive_directory(70, 1, 1), "archive/0070/01/01/");
    assert_eq!(archive_directory(700, 1, 1), "archive/0700/01/01/");
    assert_eq!(archive_directory(12345, 1, 1), "archive/12345/01/01/");
}

#[test]
fn base_of_a_time_of_day() {
    assert_eq!(
        archive_base("archive/2020/03/07/", 9, 5, 0),
        "archive/2020/03/07//audio-09-05-00"
    );
    assert_eq!(archive_base("archive/2020/03/07/", 23, 59, 59), "archive/2020/03/07//audio-23-59-59");
    assert_eq!(archive_base("", 0, 0, 60), "/audio-00-00-60");
    assert_eq!(archive_base("here", 100, 255, 7), "here/audio-100-255-07");
}

#[test]
fn paths_of_audio_and_transcript() {
    let base = archive_base(&archive_directory(2020, 3, 7), 12, 30, 5);
    assert_eq!(archive_audio_path(&base, "wav"), "archive/2020/03/07//audio-12-30-05.wav");
    assert_eq!(archive_audio_path(&base, "flac"), "archive/2020/03/07//audio-12-30-05.flac");
    assert_eq!(archive_text_path(&base), "archive/2020/03/07//audio-12-30-05.txt");
}
