use termi_player::player::audio_files;
use termi_player::player::file_extension;
use termi_player::player::is_audio_extension;
use termi_player::player::is_audio_file;
use termi_player::player::OpenTarget;
use termi_player::player::PlayerState;
use termi_player::player::TermiPlayer;

fn two_tracks() -> OpenTarget {
    OpenTarget::Directory(vec!["music/a.mp3".to_string(), "music/b.mp3".to_string()])
}

#[test]
fn audio_extensions() {
    assert!(is_audio_extension("mp3"));
    assert!(is_audio_extension("flac"));
    assert!(is_audio_extension("wav"));
    assert!(is_audio_extension("ogg"));
    assert!(!is_audio_extension("txt"));
    assert!(!is_audio_extension("MP3"));
    assert!(!is_audio_extension(""));
}

#[test]
fn audio_file_by_extension() {
    assert!(is_audio_file("/music/song.mp3"));
    assert!(is_audio_file("track.flac"));
    assert!(!is_audio_file("notes.txt"));
    assert!(!is_audio_file("/music/mp3"));
    assert!(!is_audio_file("archive.mp3.zip"));
}

#[test]
fn audio_files_keep_order() {
    let paths = vec![
        "d/z.ogg".to_string(),
        "d/cover.jpg".to_string(),
        "d/a.wav".to_string(),
        "d/readme".to_string(),
    ];
    assert_eq!(audio_files(&paths), vec!["d/z.ogg".to_string(), "d/a.wav".to_string()]);
}

#[test]
fn open_missing_path_fails() {
    let mut p = TermiPlayer::new();
    p.open("/nonexistent/path", OpenTarget::Missing);
    assert_eq!(p.state, PlayerState::Empty);
    assert_eq!(p.status, Some("Error: Failed to open.".to_string()));
    assert!(p.playlist.is_empty());
}

#[test]
fn open_directory_without_audio_fails() {
    let mut p = TermiPlayer::new();
    p.open("docs", OpenTarget::Directory(vec!["docs/a.txt".to_string()]));
    assert_eq!(p.state, PlayerState::Empty);
    assert!(p.status.is_some());
    assert!(p.playlist.is_empty());
}

#[test]
fn failed_open_discards_previous_playlist() {
    let mut p = TermiPlayer::new();
    p.open("music", two_tracks());
    p.finish_load(Ok(Some(180_000)));
    p.open("nowhere", OpenTarget::Missing);
    assert_eq!(p.state, PlayerState::Empty);
    assert!(p.playlist.is_empty());
    assert!(p.engine.is_paused());
}

#[test]
fn open_single_file() {
    let mut p = TermiPlayer::new();
    p.open("/music/song.flac", OpenTarget::File);
    assert_eq!(p.playlist, vec!["/music/song.flac".to_string()]);
    assert_eq!(p.state, PlayerState::Loading);
    assert_eq!(p.music.title, "song.flac");
    assert_eq!(p.current_track(), Some(&"/music/song.flac".to_string()));
    p.open("/music/notes.txt", OpenTarget::File);
    assert_eq!(p.state, PlayerState::Empty);
}

#[test]
fn playlist_scenario() {
    let mut p = TermiPlayer::new();
    p.open("music", two_tracks());
    p.finish_load(Ok(Some(180_000)));
    assert_eq!(p.state, PlayerState::Play);
    assert_eq!(p.music.title, "a.mp3");
    assert_eq!(p.current_position().1, 180);

    p.next();
    assert_eq!(p.current_track(), Some(&"music/b.mp3".to_string()));
    p.finish_load(Ok(Some(200_000)));
    assert_eq!(p.state, PlayerState::Play);
    assert_eq!(p.music.title, "b.mp3");
    assert_eq!(p.current_position(), (0, 200));

    p.pause();
    assert_eq!(p.state, PlayerState::Pause);
    assert!(p.engine.is_paused());

    p.previous();
    p.finish_load(Ok(Some(180_000)));
    assert_eq!(p.state, PlayerState::Play);
    assert_eq!(p.music.title, "a.mp3");
    assert_eq!(p.current_index, 0);
}

#[test]
fn next_wraps_around() {
    let mut p = TermiPlayer::new();
    p.open(
        "m",
        OpenTarget::Directory(vec!["m/1.mp3".to_string(), "m/2.mp3".to_string(), "m/3.mp3".to_string()]),
    );
    p.finish_load(Ok(None));
    let start = p.current_index;
    for _ in 0..3 {
        p.next();
        p.finish_load(Ok(None));
    }
    assert_eq!(p.current_index, start);
    p.next();
    assert_eq!(p.current_index, 1);
}

#[test]
fn previous_wraps_around() {
    let mut p = TermiPlayer::new();
    p.open(
        "m",
        OpenTarget::Directory(vec!["m/1.mp3".to_string(), "m/2.mp3".to_string(), "m/3.mp3".to_string()]),
    );
    p.finish_load(Ok(None));
    p.previous();
    assert_eq!(p.current_index, 2);
    assert_eq!(p.status, Some("Previous Music".to_string()));
    p.finish_load(Ok(None));
    p.previous();
    p.previous();
    assert_eq!(p.current_index, 0);
}

#[test]
fn single_track_next_reloads_it() {
    let mut p = TermiPlayer::new();
    p.open("one.wav", OpenTarget::File);
    p.finish_load(Ok(Some(5_000)));
    p.next();
    assert_eq!(p.current_index, 0);
    assert_eq!(p.state, PlayerState::Loading);
    p.finish_load(Ok(Some(5_000)));
    assert_eq!(p.current_position(), (0, 5));
}

#[test]
fn load_failure_leaves_player_ready() {
    let mut p = TermiPlayer::new();
    p.open("music", two_tracks());
    p.finish_load(Err("Error loading audio: bad data".to_string()));
    assert_eq!(p.state, PlayerState::Ready);
    assert_eq!(p.status, Some("Error loading audio: bad data".to_string()));
    assert!(p.engine.is_paused());
    p.toggle_play();
    assert_eq!(p.state, PlayerState::Play);
}

#[test]
fn update_outside_loading_changes_nothing() {
    let mut p = TermiPlayer::new();
    p.open("music", two_tracks());
    p.finish_load(Ok(Some(1_000)));
    p.finish_load(Err("late".to_string()));
    assert_eq!(p.state, PlayerState::Play);
    assert_eq!(p.status, Some("Playing".to_string()));
}

#[test]
fn toggle_play_switches() {
    let mut p = TermiPlayer::new();
    p.open("music", two_tracks());
    p.finish_load(Ok(Some(1_000)));
    p.toggle_play();
    assert_eq!(p.state, PlayerState::Pause);
    assert_eq!(p.status, Some("Pause".to_string()));
    p.toggle_play();
    assert_eq!(p.state, PlayerState::Play);
    assert!(!p.engine.is_paused());
}

#[test]
fn controls_do_nothing_when_empty() {
    let mut p = TermiPlayer::default();
    p.play();
    p.next();
    p.previous();
    p.toggle_play();
    assert_eq!(p.state, PlayerState::Empty);
    assert_eq!(p.status, None);
    assert_eq!(p.current_index, 0);
    assert_eq!(p.current_track(), None);
}

#[test]
fn request_open_discards_playlist() {
    let mut p = TermiPlayer::new();
    p.open("music", two_tracks());
    p.finish_load(Ok(Some(1_000)));
    p.request_open();
    assert_eq!(p.state, PlayerState::Empty);
    assert!(p.playlist.is_empty());
    assert!(p.engine.is_paused());
}

#[test]
fn player_volume() {
    let mut p = TermiPlayer::new();
    assert_eq!(p.engine.volume, 100);
    p.volume_up();
    assert_eq!(p.engine.volume, 100);
    p.volume_down();
    assert_eq!(p.engine.volume, 90);
}

#[test]
fn update_music_records_without_playing() {
    let mut p = TermiPlayer::new();
    p.open("music", two_tracks());
    p.next();
    p.update_music(Ok(Some(200_000)));
    assert_eq!(p.state, PlayerState::Ready);
    assert_eq!(p.status, Some("Loaded Music".to_string()));
    assert_eq!(p.music.title, "b.mp3");
    assert_eq!(p.engine.get_total_duration(), Some(200_000));
    assert_eq!(p.current_position(), (0, 200));
    assert!(p.engine.is_paused());
    p.play();
    assert_eq!(p.state, PlayerState::Play);
}

#[test]
fn update_music_failure_keeps_title() {
    let mut p = TermiPlayer::new();
    p.open("music", two_tracks());
    p.update_music(Err("Error loading audio: bad".to_string()));
    assert_eq!(p.state, PlayerState::Ready);
    assert_eq!(p.music.title, "a.mp3");
    assert_eq!(p.status, Some("Error loading audio: bad".to_string()));
}

#[test]
fn extension_of_file_names() {
    assert_eq!(file_extension("song.mp3"), Some("mp3".to_string()));
    assert_eq!(file_extension("a.b.ogg"), Some("ogg".to_string()));
    assert_eq!(file_extension("trailing."), Some("".to_string()));
    assert_eq!(file_extension(".hidden"), None);
    assert_eq!(file_extension("noext"), None);
    assert_eq!(file_extension(""), None);
    assert!(!is_audio_file("/music/.mp3"));
    assert!(is_audio_file("/music/.x.wav"));
}
