use blue_music::player::{Action, AudioLoop, Notice, Player, Step};
use blue_music::playlist::PlayerMsg;

const BLOCK: usize = 16;

fn crc8(data: &[u8]) -> u8 {
    let mut c: u8 = 0;
    for &b in data {
        c ^= b;
        for _ in 0..8 {
            c = if c & 0x80 != 0 { (c << 1) ^ 0x07 } else { c << 1 };
        }
    }
    c
}

fn crc16(data: &[u8]) -> u16 {
    let mut c: u16 = 0;
    for &b in data {
        c ^= (b as u16) << 8;
        for _ in 0..8 {
            c = if c & 0x8000 != 0 { (c << 1) ^ 0x8005 } else { c << 1 };
        }
    }
    c
}

fn left(frame: usize, i: usize) -> i16 {
    (frame * BLOCK + i) as i16
}

fn right(frame: usize, i: usize) -> i16 {
    -((frame * BLOCK + i) as i16)
}

/// A stereo 16-bit FLAC stream of `frames` frames of 16 samples each, stored
/// verbatim; the total sample count is declared where `declare_total` holds.
fn flac_stream(rate: u32, frames: usize, declare_total: bool) -> Vec<u8> {
    let mut out = b"fLaC".to_vec();
    out.push(0x80);
    out.extend_from_slice(&[0, 0, 34]);
    out.extend_from_slice(&(BLOCK as u16).to_be_bytes());
    out.extend_from_slice(&(BLOCK as u16).to_be_bytes());
    out.extend_from_slice(&[0, 0, 0, 0, 0, 0]);
    let total: u64 = if declare_total { (frames * BLOCK) as u64 } else { 0 };
    let packed: u64 = (rate as u64) << 44 | 1u64 << 41 | 15u64 << 36 | total;
    out.extend_from_slice(&packed.to_be_bytes());
    out.extend_from_slice(&[0u8; 16]);
    for f in 0..frames {
        let mut frame = vec![0xFF, 0xF8, 0x60, 0x18, f as u8, (BLOCK - 1) as u8];
        let c8 = crc8(&frame);
        frame.push(c8);
        for ch in 0..2 {
            frame.push(0x02);
            for i in 0..BLOCK {
                let s = if ch == 0 { left(f, i) } else { right(f, i) };
                frame.extend_from_slice(&s.to_be_bytes());
            }
        }
        let c16 = crc16(&frame);
        frame.extend_from_slice(&c16.to_be_bytes());
        out.extend_from_slice(&frame);
    }
    out
}

fn load(engine: &mut AudioLoop, data: Option<Vec<u8>>) -> Step {
    engine.step(Some((Action::Load("a.flac".to_string()), data)), false)
}

fn stops(events: &[PlayerMsg]) -> usize {
    events.iter().filter(|m| **m == PlayerMsg::PlayerStop).count()
}

#[test]
fn plays_a_file_to_its_end() {
    let mut engine = AudioLoop::new();
    let step = load(&mut engine, Some(flac_stream(1000, 4, true)));
    assert!(matches!(step, Step::Loaded { rate: 1000 }));
    assert_eq!(step.events(), vec![PlayerMsg::PlayerPlay]);
    let mut times = Vec::new();
    let mut events = Vec::new();
    loop {
        let step = engine.step(None, true);
        events.extend(step.events());
        match step {
            Step::Block { time, samples } => {
                assert_eq!(samples.len(), BLOCK);
                times.push(time);
            },
            Step::Finished => {
                assert!(step.stops_playing());
                assert!(step.waits());
                break;
            },
            other => panic!("unexpected step {:?}", other),
        }
    }
    assert_eq!(times, vec![0, 16, 32, 48]);
    assert_eq!(stops(&events), 1);
    assert_eq!(events.last(), Some(&PlayerMsg::PlayerStop));
    assert!(!engine.is_loaded());
    let again = load(&mut engine, Some(flac_stream(1000, 1, true)));
    assert!(matches!(again, Step::Loaded { rate: 1000 }));
    assert!(engine.is_loaded());
}

#[test]
fn seek_mid_playback_moves_the_time() {
    let data = flac_stream(16, 40, true);
    let mut engine = AudioLoop::new();
    load(&mut engine, Some(data.clone()));
    let first = engine.step(None, true);
    assert!(matches!(first, Step::Block { time: 0, .. }));
    let sought = engine.step(Some((Action::Skip("a.flac".to_string(), 30000), Some(data))), true);
    assert!(matches!(sought, Step::Sought));
    assert!(sought.events().is_empty());
    match engine.step(None, true) {
        Step::Block { time, .. } => assert!(time >= 29000 && time <= 31000),
        other => panic!("unexpected step {:?}", other),
    }
}

#[test]
fn commands_go_before_decoding() {
    let mut engine = AudioLoop::new();
    load(&mut engine, Some(flac_stream(1000, 4, true)));
    let step = engine.step(Some((Action::Stop, None)), true);
    assert!(matches!(step, Step::Unloaded));
    assert!(!engine.is_loaded());
    let idle = engine.step(None, true);
    assert!(matches!(idle, Step::Idle));
    assert!(idle.stops_playing());
    assert!(idle.events().is_empty());
}

#[test]
fn waits_when_not_playing() {
    let mut engine = AudioLoop::new();
    load(&mut engine, Some(flac_stream(1000, 4, true)));
    let step = engine.step(None, false);
    assert!(matches!(step, Step::Wait));
    assert!(step.waits());
    assert!(!step.stops_playing());
    assert!(engine.is_loaded());
}

#[test]
fn failed_load_leaves_nothing_loaded() {
    let mut engine = AudioLoop::new();
    load(&mut engine, Some(flac_stream(1000, 4, true)));
    let bad = load(&mut engine, Some(vec![9, 9, 9]));
    assert!(matches!(bad, Step::LoadFailed));
    assert!(bad.events().is_empty());
    assert!(!engine.is_loaded());
    let missing = load(&mut engine, None);
    assert!(matches!(missing, Step::LoadFailed));
    let good = load(&mut engine, Some(flac_stream(1000, 2, true)));
    assert!(matches!(good, Step::Loaded { rate: 1000 }));
    assert!(matches!(engine.step(None, true), Step::Block { time: 0, .. }));
}

#[test]
fn skip_without_a_file_is_ignored() {
    let mut engine = AudioLoop::new();
    let step = engine.step(Some((Action::Skip("a.flac".to_string(), 10), Some(flac_stream(1000, 1, true)))), false);
    assert!(matches!(step, Step::SkipIgnored));
}

#[test]
fn failed_seek_reports_its_error() {
    let data = flac_stream(1000, 2, true);
    let mut engine = AudioLoop::new();
    load(&mut engine, Some(data.clone()));
    let far = engine.step(Some((Action::Skip("a.flac".to_string(), 9000), Some(data))), true);
    assert!(matches!(far, Step::SeekFailed(blue_music::flac::DecodeError::SeekOutOfRange)));
    let unread = engine.step(Some((Action::Skip("a.flac".to_string(), 1), None)), true);
    assert!(matches!(unread, Step::SeekFailed(blue_music::flac::DecodeError::Unopenable)));
    assert!(matches!(engine.step(None, true), Step::Block { time: 0, .. }));
}

fn enqueued(notices: &[Notice]) -> Vec<String> {
    notices
        .iter()
        .filter_map(|n| match n {
            Notice::Enqueue(Action::Load(p)) => Some(format!("load {}", p)),
            Notice::Enqueue(Action::Skip(p, t)) => Some(format!("skip {} {}", p, t)),
            Notice::Enqueue(Action::Stop) => Some("stop".to_string()),
            _ => None,
        })
        .collect()
}

fn sent_stops(notices: &[Notice]) -> usize {
    notices.iter().filter(|n| matches!(n, Notice::Send(PlayerMsg::PlayerStop))).count()
}

#[test]
fn commands_are_queued_in_call_order() {
    let mut player = Player::new();
    let mut all = player.load("A".to_string());
    all.extend(player.skip("A".to_string(), 1500));
    all.extend(player.stop());
    assert_eq!(enqueued(&all), vec!["load A", "skip A 1500", "stop"]);
}

#[test]
fn stopping_twice_stops_once() {
    let mut player = Player::new();
    player.load("A".to_string());
    let mut all = player.stop();
    all.extend(player.stop());
    assert_eq!(sent_stops(&all), 1);
    let mut fresh = Player::new();
    let mut twice = fresh.stop();
    twice.extend(fresh.stop());
    assert_eq!(sent_stops(&twice), 1);
}

#[test]
fn stop_resets_time_and_pause() {
    let mut player = Player::new();
    player.pause();
    assert!(player.is_paused());
    let notices = player.stop();
    assert!(!player.is_paused());
    assert!(matches!(notices[0], Notice::Send(PlayerMsg::PlayerTime(0))));
    assert!(matches!(notices[1], Notice::Send(PlayerMsg::PlayerStop)));
    assert!(matches!(notices[2], Notice::Enqueue(Action::Stop)));
    assert!(matches!(notices[3], Notice::SetPlaying(false)));
}

#[test]
fn pause_and_resume_flip_the_flag_at_once() {
    let mut player = Player::new();
    let p = player.pause();
    assert!(player.is_paused());
    assert!(matches!(p[0], Notice::Send(PlayerMsg::PlayerStop)));
    assert!(matches!(p[1], Notice::SetPlaying(false)));
    assert_eq!(p.len(), 2);
    let r = player.resume();
    assert!(!player.is_paused());
    assert!(matches!(r[0], Notice::Send(PlayerMsg::PlayerPlay)));
    assert!(matches!(r[1], Notice::SetPlaying(true)));
    assert_eq!(r.len(), 2);
}

#[test]
fn load_queues_and_sets_playing() {
    let mut player = Player::new();
    let n = player.load("song.flac".to_string());
    assert_eq!(n.len(), 2);
    assert!(matches!(&n[0], Notice::Enqueue(Action::Load(p)) if p == "song.flac"));
    assert!(matches!(n[1], Notice::SetPlaying(true)));
}

#[test]
fn duration_through_the_player() {
    assert_eq!(Player::compute_duration(flac_stream(16, 3, true)), Ok(3));
}
