use doombox::shim::{
    file_mode, getenv, music_action, music_path, same_text, seek_origin, FileMode, MusicAction, SeekOrigin,
    MUSIC_VOLUME,
};

#[test]
fn read_modes() {
    assert_eq!(file_mode("r"), Some(FileMode::Read));
    assert_eq!(file_mode("rb"), Some(FileMode::Read));
}

#[test]
fn write_modes() {
    assert_eq!(file_mode("w"), Some(FileMode::Write));
    assert_eq!(file_mode("wb"), Some(FileMode::Write));
}

#[test]
fn other_modes_are_refused() {
    for mode in ["", "a", "r+", "w+", "rw", "br", "R", "rb ", " r", "wbx", "ab"] {
        assert_eq!(file_mode(mode), None);
    }
}

#[test]
fn seek_origins() {
    assert_eq!(seek_origin(0), Some(SeekOrigin::Begin));
    assert_eq!(seek_origin(1), Some(SeekOrigin::Current));
    assert_eq!(seek_origin(2), Some(SeekOrigin::End));
}

#[test]
fn other_seek_origins_are_refused() {
    for origin in [-1, 3, 4, 100, i32::MAX, i32::MIN] {
        assert_eq!(seek_origin(origin), None);
    }
}

#[test]
fn known_environment_variables() {
    assert_eq!(getenv("DOOMWADDIR"), Some("/cd/content"));
    assert_eq!(getenv("HOME"), Some("/ma"));
}

#[test]
fn other_environment_variables_are_not_set() {
    for var in ["", "PATH", "home", "Home", "DOOMWADDIR ", "DOOMWAD", "HOME2", "USER"] {
        assert_eq!(getenv(var), None);
    }
}

#[test]
fn music_paths() {
    assert_eq!(music_path("d_e1m1"), "/cd/content/midi/d_e1m1.mid");
    assert_eq!(music_path(""), "/cd/content/midi/.mid");
    assert_eq!(music_path("a/b"), "/cd/content/midi/a/b.mid");
}

#[test]
fn missing_music_is_muted() {
    assert_eq!(music_action(false, 0), MusicAction::Mute);
    assert_eq!(music_action(false, 1), MusicAction::Mute);
}

#[test]
fn found_music_plays_at_a_fifth_of_full_volume() {
    assert_eq!(MUSIC_VOLUME, 200);
    assert_eq!(music_action(true, 0), MusicAction::Play { volume: 200, looping: false });
    assert_eq!(music_action(true, 1), MusicAction::Play { volume: 200, looping: true });
    assert_eq!(music_action(true, -1), MusicAction::Play { volume: 200, looping: true });
    assert_eq!(music_action(true, 77), MusicAction::Play { volume: 200, looping: true });
}

#[test]
fn same_text_compares_whole_strings() {
    assert!(same_text("", ""));
    assert!(same_text("abc", "abc"));
    assert!(!same_text("abc", "abd"));
    assert!(!same_text("abc", "ab"));
    assert!(!same_text("", "a"));
}
