use catacomb::command::normalize_command_key;
use catacomb::media::{
    control_known_player, control_media, cork_app_audio, find_players, find_streams,
    is_controllable, mute_streams, player_listing, stream_listing, Player,
};
use catacomb::process::{return_home, shell, Invocation};
use catacomb::string_map::StringMap;
use catacomb::text::{
    clone_or_empty, contains_char, contains_text, is_white_space, joined, lines, opt_text_is,
    split_whitespace, starts_with, strip_prefix, text_is, trim_start,
};

fn key(command: &str) -> Option<String> {
    normalize_command_key(command)
}

fn line(invocation: &Invocation) -> Vec<&str> {
    let mut words = vec![invocation.program.as_str()];
    words.extend(invocation.arguments.iter().map(|a| a.as_str()));
    words
}

#[test]
fn white_space_is_that_of_std() {
    for number in 0..=0x10ffff_u32 {
        if let Some(c) = char::from_u32(number) {
            assert_eq!(is_white_space(c), c.is_whitespace(), "{number:x}");
        }
    }
}

#[test]
fn words_are_those_of_std() {
    for text in ["", "  ", "a", " a b ", "a\u{a0}b\tc\u{3000}", "\u{85}x\u{2028}y z", "ä ö"] {
        let expected: Vec<String> = text.split_whitespace().map(|s| s.to_string()).collect();
        assert_eq!(split_whitespace(text), expected);
    }
}

#[test]
fn lines_are_those_of_std() {
    for text in ["", "\n", "a", "a\n", "a\r\nb", "a\rb\n\nc\r", "\r\n\r\n", "x\n\r"] {
        let expected: Vec<String> = text.lines().map(|s| s.to_string()).collect();
        assert_eq!(lines(text), expected);
    }
}

#[test]
fn scanning_is_that_of_std() {
    for text in ["", "abc", "äbc", "aab", "aaab", " x "] {
        for part in ["", "a", "ab", "aab", "bc", "ä", "x ", "abcd"] {
            assert_eq!(contains_text(text, part), text.contains(part));
            assert_eq!(starts_with(text, part), text.starts_with(part));
            assert_eq!(strip_prefix(text, part), text.strip_prefix(part).map(|s| s.to_string()));
        }
        assert_eq!(trim_start(text), text.trim_start());
        assert_eq!(contains_char(text, 'b'), text.contains('b'));
    }
}

#[test]
fn texts_are_compared_and_joined() {
    assert!(text_is(&"home".to_string(), "home"));
    assert!(!text_is(&"home".to_string(), "Home"));
    assert!(opt_text_is(&Some("nav".to_string()), "nav"));
    assert!(!opt_text_is(&None, ""));
    assert_eq!(clone_or_empty(&None), "");
    assert_eq!(clone_or_empty(&Some("x".to_string())), "x");
    assert_eq!(joined("steam:", "10"), "steam:10");
}

#[test]
fn command_without_words_has_no_key() {
    assert_eq!(key(""), None);
    assert_eq!(key(" \t\n"), None);
}

#[test]
fn flatpaks_are_known_by_their_app_id() {
    assert_eq!(key("flatpak run --branch=stable org.x.App --flag"), Some("org.x.App".into()));
    assert_eq!(key("/usr/bin/flatpak run -p org.x.App"), Some("org.x.App".into()));
    assert_eq!(key("flatpak run --a.b plain"), Some("plain".into()));
    assert_eq!(key("flatpak run"), Some("run".into()));
    assert_eq!(key("/usr/bin/flatpak run"), Some("/usr/bin/flatpak".into()));
    assert_eq!(key("flatpak list"), Some("flatpak".into()));
}

#[test]
fn other_launchers_are_known_by_their_argument() {
    assert_eq!(key("gtk-launch firefox --new"), Some("firefox".into()));
    assert_eq!(key("gtk-launch"), Some("gtk-launch".into()));
    assert_eq!(key("steam -silent -applaunch 570 -x"), Some("steam:570".into()));
    assert_eq!(key("steam -applaunch"), Some("steam".into()));
    assert_eq!(key("steam"), Some("steam".into()));
    assert_eq!(key("  retroarch --verbose "), Some("retroarch".into()));
}

#[test]
fn keys_are_stable() {
    for command in ["flatpak run a.b", "steam -applaunch 1", "gtk-launch x", "sh -c y", "steam"] {
        let first = key(command).unwrap();
        assert_eq!(key(&first), Some(first.clone()));
    }
}

#[test]
fn string_map_replaces_values() {
    let mut map = StringMap::new();
    assert!(map.get("a").is_none());
    map.insert("a".into(), "1".into());
    map.insert("b".into(), "2".into());
    map.insert("a".into(), "3".into());
    assert_eq!(map.get("a").unwrap(), "3");
    assert_eq!(map.get("b").unwrap(), "2");
    assert_eq!(map.entries.len(), 2);
    assert_eq!(map.entries[0].key, "a");
}

const STREAMS: &str = "Sink Input #12\n\tDriver: x\n\tProperties:\n\
    \t\tpipewire.access.portal.app_id = \"org.jellyfin.App\"\n\
    Sink Input #13 extra\n\t\tapplication.name = \"org.jellyfin.App\"\n\
    Sink Input #\n\t\tpipewire.access.portal.app_id = \"org.jellyfin.App\"\n\
    Sink Input #14\r\n\t\tpipewire.access.portal.app_id = \"org.jellyfin.App\"\r\n";

#[test]
fn streams_are_found_by_their_portal_id() {
    assert_eq!(find_streams(STREAMS, "jellyfin"), vec!["12".to_string(), "14".to_string()]);
    assert_eq!(find_streams(STREAMS, "firefox"), Vec::<String>::new());
    assert_eq!(
        find_streams("pipewire.access.portal.app_id = \"x\"\nSink Input #1", "x"),
        Vec::<String>::new()
    );
}

#[test]
fn streams_are_muted_and_unmuted() {
    assert_eq!(line(&stream_listing()), vec!["pactl", "list", "sink-inputs"]);
    let streams = vec!["12".to_string()];
    assert_eq!(line(&mute_streams(&streams, true)[0]), vec![
        "pactl",
        "set-sink-input-mute",
        "12",
        "1"
    ]);
    let app = Some("org.jellyfin.App".to_string());
    let commands = cork_app_audio(&app, false, &STREAMS.as_bytes().to_vec());
    assert_eq!(commands.len(), 2);
    assert_eq!(line(&commands[1]), vec!["pactl", "set-sink-input-mute", "14", "0"]);
}

#[test]
fn invalid_output_is_decoded_with_replacements() {
    let mut bytes = b"Sink Input #".to_vec();
    bytes.push(0xff);
    bytes.extend_from_slice(b"\n  pipewire.access.portal.app_id = \"x\"\n");
    let commands = cork_app_audio(&Some("x".into()), true, &bytes);
    assert_eq!(commands.len(), 1);
    assert_eq!(commands[0].arguments[1], "\u{fffd}");
}

#[test]
fn unknown_applications_are_left_alone() {
    assert!(!is_controllable(&None));
    assert!(!is_controllable(&Some(String::new())));
    assert!(is_controllable(&Some("x".into())));
    let bytes = STREAMS.as_bytes().to_vec();
    assert!(cork_app_audio(&None, true, &bytes).is_empty());
    assert!(cork_app_audio(&Some(String::new()), true, &bytes).is_empty());
    assert!(control_media(&None, true, &b"player".to_vec()).is_empty());
    assert!(control_known_player(&Some(String::new()), true).is_empty());
}

#[test]
fn players_are_matched_in_lower_case() {
    assert_eq!(line(&player_listing()), vec!["playerctl", "-l"]);
    let app = Some("org.mozilla.FireFox".to_string());
    let output = b"Firefox\nvlc\norg.mozilla.firefox.instance1\n".to_vec();
    let commands = control_media(&app, true, &output);
    assert_eq!(commands.len(), 2);
    assert_eq!(line(&commands[0]), vec!["playerctl", "-p", "Firefox", "pause"]);
    assert_eq!(line(&commands[1]), vec![
        "playerctl",
        "-p",
        "org.mozilla.firefox.instance1",
        "pause"
    ]);
    let play = control_media(&app, false, &output);
    assert_eq!(play[0].arguments[2], "play");
}

#[test]
fn players_are_compared_in_the_case_given() {
    let players = vec![Player { name: "VLC".into(), lower: "vlc".into() }];
    assert_eq!(find_players(&players, "org.videolan.vlc"), vec!["VLC".to_string()]);
    assert_eq!(find_players(&players, "org.videolan.VLC"), Vec::<String>::new());
}

#[test]
fn known_player_is_controlled_by_name() {
    let commands = control_known_player(&Some("com.github.jellyfin.player".into()), false);
    assert_eq!(line(&commands[0]), vec!["playerctl", "-p", "jellyfinmediaplayer", "play"]);
    assert!(control_known_player(&Some("com.Jellyfin".into()), false).is_empty());
}

#[test]
fn commands_run_in_a_shell_and_lead_home() {
    assert_eq!(line(&shell("x | y")), vec!["sh", "-c", "x | y"]);
    assert_eq!(line(&return_home()), vec!["catacomb", "msg", "focus-role", "home"]);
}
