use blue_music::player::{Action, Notice};
use blue_music::playlist::{row_for, Msg, Output, Playlist, PlayerMsg, Row, TagFields};

fn row(title: &str, path: &str) -> Row {
    Row {
        title: title.to_string(),
        artist: format!("{} artist", title),
        album: "Album".to_string(),
        genre: "Rock".to_string(),
        year: "1982".to_string(),
        track: "1 / ??".to_string(),
        path: path.to_string(),
    }
}

fn three() -> Playlist {
    let mut p = Playlist::new();
    p.add(row("One", "/m/1.flac"));
    p.add(row("Two", "/m/2.flac"));
    p.add(row("Three", "/m/3.flac"));
    p
}

fn loaded_path(outputs: &[Output]) -> Option<String> {
    match outputs.first() {
        Some(Output::Control(n)) => match n.first() {
            Some(Notice::Enqueue(Action::Load(p))) => Some(p.clone()),
            _ => None,
        },
        _ => None,
    }
}

#[test]
fn next_walks_forward_and_stops_at_the_end() {
    let mut p = three();
    let out = p.next();
    assert_eq!(p.selected(), Some(0));
    assert_eq!(loaded_path(&out), Some("/m/1.flac".to_string()));
    p.next();
    p.next();
    assert_eq!(p.selected(), Some(2));
    let none = p.next();
    assert!(none.is_empty());
    assert_eq!(p.selected(), Some(2));
    assert_eq!(p.path(), Some("/m/3.flac".to_string()));
}

#[test]
fn previous_walks_back_from_the_end() {
    let mut p = three();
    let out = p.previous();
    assert_eq!(p.selected(), Some(2));
    assert_eq!(loaded_path(&out), Some("/m/3.flac".to_string()));
    p.previous();
    p.previous();
    assert_eq!(p.selected(), Some(0));
    assert!(p.previous().is_empty());
    assert_eq!(p.selected(), Some(0));
}

#[test]
fn next_and_previous_on_an_empty_list_do_nothing() {
    let mut p = Playlist::new();
    assert!(p.next().is_empty());
    assert!(p.previous().is_empty());
    assert!(p.play().is_empty());
    assert_eq!(p.selected(), None);
}

#[test]
fn play_loads_and_announces_the_entry() {
    let mut p = three();
    p.select(Some(1));
    let out = p.play();
    assert_eq!(out.len(), 3);
    assert_eq!(loaded_path(&out), Some("/m/2.flac".to_string()));
    assert!(matches!(out[1], Output::SongStarted));
    match &out[2] {
        Output::SongMeta(m) => assert_eq!(m, &vec!["Two", "Two artist", "Album", "Rock", "1982"]),
        other => panic!("unexpected output {:?}", other),
    }
    assert_eq!(p.path(), Some("/m/2.flac".to_string()));
}

#[test]
fn play_passes_on_a_known_duration() {
    let mut p = three();
    assert!(p.duration_computed("/m/2.flac".to_string(), 200).is_empty());
    p.select(Some(1));
    let out = p.play();
    assert_eq!(out.len(), 4);
    assert!(matches!(out[1], Output::SongDuration(200000)));
}

#[test]
fn duration_of_the_playing_entry_is_passed_on() {
    let mut p = three();
    p.select(Some(0));
    p.play();
    let out = p.duration_computed("/m/1.flac".to_string(), 3);
    assert_eq!(out.len(), 1);
    assert!(matches!(out[0], Output::SongDuration(3000)));
    let capped = p.duration_computed("/m/1.flac".to_string(), u64::MAX);
    assert!(matches!(capped[0], Output::SongDuration(u64::MAX)));
    assert_eq!(p.duration_for(&"/m/1.flac".to_string()), Some(u64::MAX));
    assert_eq!(p.duration_for(&"/m/9.flac".to_string()), None);
    p.duration_computed("/m/1.flac".to_string(), 4);
    assert_eq!(p.duration_for(&"/m/1.flac".to_string()), Some(4000));
}

#[test]
fn play_after_pause_resumes_the_same_entry() {
    let mut p = three();
    p.select(Some(0));
    p.play();
    let paused = p.pause();
    assert!(matches!(&paused[0], Output::Control(n) if matches!(n[0], Notice::Send(PlayerMsg::PlayerStop))));
    let out = p.play();
    assert_eq!(out.len(), 1);
    match &out[0] {
        Output::Control(n) => {
            assert!(matches!(n[0], Notice::Send(PlayerMsg::PlayerPlay)));
            assert!(matches!(n[1], Notice::SetPlaying(true)));
        },
        other => panic!("unexpected output {:?}", other),
    }
}

#[test]
fn play_after_pause_on_another_entry_loads_it() {
    let mut p = three();
    p.select(Some(0));
    p.play();
    p.pause();
    p.select(Some(2));
    let out = p.play();
    assert_eq!(loaded_path(&out), Some("/m/3.flac".to_string()));
}

#[test]
fn stop_forgets_the_playing_entry() {
    let mut p = three();
    p.select(Some(0));
    p.play();
    let out = p.stop();
    assert_eq!(p.path(), None);
    match &out[0] {
        Output::Control(n) => assert_eq!(n.len(), 4),
        other => panic!("unexpected output {:?}", other),
    }
    match &p.stop()[0] {
        Output::Control(n) => assert_eq!(n.len(), 2),
        other => panic!("unexpected output {:?}", other),
    }
}

#[test]
fn skip_seeks_in_the_selected_entry() {
    let mut p = three();
    assert!(p.skip(1000).is_empty());
    p.select(Some(2));
    let out = p.skip(1000);
    match &out[0] {
        Output::Control(n) => assert!(matches!(&n[0], Notice::Enqueue(Action::Skip(path, 1000)) if path == "/m/3.flac")),
        other => panic!("unexpected output {:?}", other),
    }
}

#[test]
fn remove_selection_drops_the_row() {
    let mut p = three();
    p.remove_selection();
    assert_eq!(p.rows_list().len(), 3);
    p.select(Some(1));
    p.remove_selection();
    assert_eq!(p.selected(), None);
    let paths: Vec<&str> = p.rows_list().iter().map(|r| r.path.as_str()).collect();
    assert_eq!(paths, vec!["/m/1.flac", "/m/3.flac"]);
}

#[test]
fn selected_path_and_meta() {
    let mut p = three();
    assert_eq!(p.selected_path(), None);
    assert!(p.selected_meta().is_empty());
    p.select(Some(2));
    assert_eq!(p.selected_path(), Some("/m/3.flac".to_string()));
    assert_eq!(p.selected_meta(), vec!["Three", "Three artist", "Album", "Rock", "1982"]);
}

#[test]
fn columns_in_order() {
    let p = Playlist::new();
    let cols = p.create_columns();
    assert_eq!(cols.len(), 8);
    let titles: Vec<Option<&str>> = cols.iter().map(|c| c.title.as_deref()).collect();
    assert_eq!(
        titles,
        vec![None, Some("Title"), Some("Artist"), Some("Album"), Some("Genre"), Some("Year"), Some("Track"), None]
    );
    let indices: Vec<u32> = cols.iter().map(|c| c.index).collect();
    assert_eq!(indices, vec![0, 1, 2, 3, 4, 5, 6, 8]);
    assert!(cols[0].visible);
    assert!(!cols[7].visible);
}

#[test]
fn row_from_full_tags() {
    let tags = TagFields {
        title: Some("Africa".to_string()),
        artist: Some("Toto".to_string()),
        album: Some("Toto IV".to_string()),
        genre: Some("Rock".to_string()),
        year: Some("1982".to_string()),
        track: Some("10".to_string()),
    };
    let r = row_for("/m/africa.flac".to_string(), "africa".to_string(), Some(tags));
    assert_eq!(r.title, "Africa");
    assert_eq!(r.artist, "Toto");
    assert_eq!(r.album, "Toto IV");
    assert_eq!(r.genre, "Rock");
    assert_eq!(r.year, "1982");
    assert_eq!(r.track, "10 / ??");
    assert_eq!(r.path, "/m/africa.flac");
}

#[test]
fn row_from_missing_tags() {
    let tags = TagFields { title: None, artist: None, album: None, genre: None, year: None, track: None };
    let r = row_for("/m/x.flac".to_string(), "x".to_string(), Some(tags));
    assert_eq!(r.title, "x");
    assert_eq!(r.artist, "Unknown");
    assert_eq!(r.year, "Unknown");
    assert_eq!(r.track, "Unknown / ??");
    let bare = row_for("/m/y.flac".to_string(), "y".to_string(), None);
    assert_eq!(bare.title, "y");
    assert_eq!(bare.artist, "");
    assert_eq!(bare.track, "");
    assert_eq!(bare.path, "/m/y.flac");
}

#[test]
fn playlist_messages_dispatch() {
    let mut p = three();
    let add = p.update(Msg::AddSong("/m/4.flac".to_string()));
    assert!(matches!(&add[..], [Output::AddFile(path)] if path == "/m/4.flac"));
    let load = p.update(Msg::LoadSong("/m/list.m3u".to_string()));
    assert!(matches!(&load[..], [Output::ReadList(path)] if path == "/m/list.m3u"));
    let save = p.update(Msg::SaveSong("/m/out.m3u".to_string()));
    assert!(matches!(&save[..], [Output::WriteList(path)] if path == "/m/out.m3u"));
    assert!(p.update(Msg::SongStarted).is_empty());
    assert!(p.update(Msg::PlayerMsgRecv(PlayerMsg::PlayerPlay)).is_empty());
    let next = p.update(Msg::NextSong);
    assert_eq!(loaded_path(&next), Some("/m/1.flac".to_string()));
    let dur = p.update(Msg::DurationComputed("/m/1.flac".to_string(), 7));
    assert!(matches!(dur[0], Output::SongDuration(7000)));
    assert!(p.update(Msg::RemoveSong).is_empty());
    assert_eq!(p.rows_list().len(), 2);
    assert_eq!(p.selected(), None);
    let stop = p.update(Msg::StopSong);
    assert_eq!(stop.len(), 1);
    assert_eq!(p.path(), None);
}
