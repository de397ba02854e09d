use blue_music::playlist::PlayerMsg;
use blue_music::window::{classify, millis_to_minutes, unopened_report, Effect, FileKind, Icon, Msg, Request, Window};

#[test]
fn minutes_label() {
    assert_eq!(millis_to_minutes(0), "0:00");
    assert_eq!(millis_to_minutes(999), "0:00");
    assert_eq!(millis_to_minutes(65_000), "1:05");
    assert_eq!(millis_to_minutes(3_661_000), "61:01");
    assert_eq!(millis_to_minutes(599_999), "9:59");
    assert_eq!(millis_to_minutes(u64::MAX), "307445734561825:51");
}

#[test]
fn files_sorted_by_extension() {
    assert_eq!(classify(Some("flac".to_string())), FileKind::Song);
    assert_eq!(classify(Some("mp3".to_string())), FileKind::Ignored);
    assert_eq!(classify(Some("m3u".to_string())), FileKind::Ignored);
    assert_eq!(classify(Some("FLAC".to_string())), FileKind::Unsupported);
    assert_eq!(classify(Some("txt".to_string())), FileKind::Unsupported);
    assert_eq!(classify(None), FileKind::Ignored);
}

#[test]
fn report_lists_each_file() {
    assert_eq!(
        unopened_report(&vec!["a.txt".to_string(), "b.jpg".to_string()]),
        "Finished opening folder but could not open the following files:\na.txt\nb.jpg\n"
    );
    assert_eq!(
        unopened_report(&Vec::new()),
        "Finished opening folder but could not open the following files:\n"
    );
}

#[test]
fn window_follows_player_messages() {
    let mut w = Window::new();
    assert!(w.stopped);
    w.player_message(PlayerMsg::PlayerPlay);
    assert!(!w.stopped);
    assert_eq!(w.icon, Icon::Pause);
    w.player_message(PlayerMsg::PlayerTime(61_000));
    assert_eq!(w.elapsed_label(), "1:01");
    w.player_message(PlayerMsg::PlayerStop);
    assert!(w.stopped);
    assert_eq!(w.icon, Icon::Play);
    assert_eq!(w.current_time, 61_000);
}

#[test]
fn play_pause_button() {
    let mut w = Window::new();
    assert_eq!(w.play_pause(), Request::PlaySong);
    w.player_message(PlayerMsg::PlayerPlay);
    assert_eq!(w.play_pause(), Request::PauseSong);
    assert_eq!(w.icon, Icon::Play);
}

#[test]
fn stop_button_clears_time_and_cover() {
    let mut w = Window::new();
    w.started();
    assert!(w.cover_visible);
    w.set_duration(200_000);
    assert_eq!(w.duration_label(), "3:20");
    w.player_message(PlayerMsg::PlayerTime(5_000));
    assert_eq!(w.stop(), Request::StopSong);
    assert_eq!(w.current_time, 0);
    assert_eq!(w.current_duration, 0);
    assert!(!w.cover_visible);
    assert_eq!(w.icon, Icon::Play);
}

#[test]
fn window_messages_become_effects() {
    let mut w = Window::new();
    assert!(matches!(w.update(Msg::Open), Some(Effect::ShowOpenDialog)));
    assert!(matches!(w.update(Msg::Save), Some(Effect::ShowSaveDialog)));
    assert!(matches!(w.update(Msg::Next), Some(Effect::Playlist(Request::NextSong))));
    assert!(matches!(w.update(Msg::Previous), Some(Effect::Playlist(Request::PreviousSong))));
    assert!(matches!(w.update(Msg::Remove), Some(Effect::Playlist(Request::RemoveSong))));
    assert!(matches!(w.update(Msg::Quit), Some(Effect::Quit)));
    assert!(w.update(Msg::Changed).is_none());
    assert!(matches!(w.update(Msg::PlayPause), Some(Effect::Playlist(Request::PlaySong))));
    assert!(w.update(Msg::MsgRecv(PlayerMsg::PlayerPlay)).is_none());
    assert!(!w.stopped);
    assert!(matches!(w.update(Msg::PlayPause), Some(Effect::Playlist(Request::PauseSong))));
    assert!(w.update(Msg::Duration(90_000)).is_none());
    assert_eq!(w.current_duration, 90_000);
    assert!(w.update(Msg::Started).is_none());
    assert!(w.cover_visible);
    match w.update(Msg::Meta(vec!["T".to_string(), "A".to_string()])) {
        Some(Effect::ShowMeta(m)) => assert_eq!(m, vec!["T", "A"]),
        other => panic!("unexpected effect {:?}", other),
    }
    assert!(matches!(w.update(Msg::Stop), Some(Effect::Playlist(Request::StopSong))));
    assert_eq!(w.current_duration, 0);
    assert!(!w.cover_visible);
}
