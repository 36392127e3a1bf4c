use mpd_wrapped::{ListenIterator, Song, SongListenRecord, SongStatus};

fn song(file: &str) -> Song {
    Song { file: file.to_string(), title: None, artist: None, duration: None, tags: Vec::new() }
}

fn status(file: &str, duration_ms: u64, elapsed_ms: u64) -> SongStatus {
    SongStatus { song: song(file), duration: duration_ms, elapsed: elapsed_ms }
}

fn current_file(t: &ListenIterator) -> Option<String> {
    t.current().map(|c| c.song().file.clone())
}

#[test]
fn time_threshold_counts_whatever_the_length() {
    assert!(ListenIterator::should_emit(20_000, 20_000));
    assert!(ListenIterator::should_emit(20_000, 600_000));
    assert!(ListenIterator::should_emit(20_000, 3_600_000));
    assert!(!ListenIterator::should_emit(19_999, 600_000));
}

#[test]
fn share_threshold_counts_below_twenty_seconds() {
    assert!(ListenIterator::should_emit(6_000, 10_000));
    assert!(ListenIterator::should_emit(12_000, 15_000));
    assert!(ListenIterator::should_emit(3, 5));
    assert!(!ListenIterator::should_emit(5_999, 10_000));
}

#[test]
fn short_span_of_known_length_does_not_count() {
    assert!(!ListenIterator::should_emit(10_000, 300_000));
    assert!(!ListenIterator::should_emit(19_000, 40_000));
    assert!(!ListenIterator::should_emit(0, 1_000));
}

#[test]
fn unknown_length_needs_twenty_seconds() {
    assert!(!ListenIterator::should_emit(19_999, 0));
    assert!(!ListenIterator::should_emit(0, 0));
    assert!(ListenIterator::should_emit(20_000, 0));
}

#[test]
fn restart_boundaries() {
    assert!(ListenIterator::is_restart(2_000, 5_000));
    assert!(!ListenIterator::is_restart(4_900, 4_900));
    assert!(!ListenIterator::is_restart(5_000, 60_000));
    assert!(ListenIterator::is_restart(4_999, 60_000));
    assert!(!ListenIterator::is_restart(0, 4_999));
}

#[test]
fn first_observation_opens_a_span() {
    let mut t = ListenIterator::new();
    assert!(t.current().is_none());
    assert!(t.observe_at(status("a", 200_000, 3_000), 100).is_none());
    let c = t.current().unwrap();
    assert_eq!(c.song().file, "a");
    assert_eq!(c.start(), 100);
    assert_eq!(c.max_elapsed(), 3_000);
}

#[test]
fn qualifying_track_change_emits_the_old_track() {
    let mut t = ListenIterator::new();
    assert!(t.observe_at(status("a", 200_000, 0), 10).is_none());
    assert!(t.observe_at(status("a", 200_000, 130_000), 140).is_none());
    let rec = t.observe_at(status("b", 100_000, 0), 150).unwrap();
    assert_eq!(rec.song.file, "a");
    assert_eq!(rec.start, 10);
    assert_eq!(current_file(&t), Some("b".to_string()));
    assert_eq!(t.current().unwrap().start(), 150);
    assert_eq!(t.current().unwrap().max_elapsed(), 0);
}

#[test]
fn non_qualifying_track_change_emits_nothing() {
    let mut t = ListenIterator::new();
    assert!(t.observe_at(status("a", 300_000, 0), 10).is_none());
    assert!(t.observe_at(status("a", 300_000, 10_000), 20).is_none());
    assert!(t.observe_at(status("b", 200_000, 0), 25).is_none());
    assert_eq!(current_file(&t), Some("b".to_string()));
    assert_eq!(t.current().unwrap().start(), 25);
}

#[test]
fn track_change_judges_by_the_new_duration() {
    // 15 s of the old track is 60% of the 25 s that the new observation reports.
    let mut t = ListenIterator::new();
    assert!(t.observe_at(status("a", 300_000, 15_000), 1).is_none());
    let rec = t.observe_at(status("b", 25_000, 0), 2);
    assert_eq!(rec.unwrap().start, 1);
}

#[test]
fn restart_after_qualifying_play_emits_the_first_play() {
    let mut t = ListenIterator::new();
    assert!(t.observe_at(status("a", 40_000, 0), 5).is_none());
    assert!(t.observe_at(status("a", 40_000, 25_000), 30).is_none());
    let rec = t.observe_at(status("a", 40_000, 1_000), 31).unwrap();
    assert_eq!(rec.song.file, "a");
    assert_eq!(rec.start, 5);
    let c = t.current().unwrap();
    assert_eq!(c.song().file, "a");
    assert_eq!(c.start(), 31);
    assert_eq!(c.max_elapsed(), 1_000);
}

#[test]
fn restart_before_qualifying_emits_nothing() {
    let mut t = ListenIterator::new();
    assert!(t.observe_at(status("a", 300_000, 8_000), 5).is_none());
    assert!(t.observe_at(status("a", 300_000, 1_000), 9).is_none());
    let c = t.current().unwrap();
    assert_eq!(c.start(), 9);
    assert_eq!(c.max_elapsed(), 1_000);
}

#[test]
fn backward_jump_keeps_the_high_water_mark() {
    let mut t = ListenIterator::new();
    assert!(t.observe_at(status("a", 300_000, 10_000), 1).is_none());
    assert!(t.observe_at(status("a", 300_000, 8_000), 3).is_none());
    let c = t.current().unwrap();
    assert_eq!(c.max_elapsed(), 10_000);
    assert_eq!(c.start(), 1);
    assert!(t.observe_at(status("a", 300_000, 12_000), 5).is_none());
    assert_eq!(t.current().unwrap().max_elapsed(), 12_000);
}

#[test]
fn records_follow_span_starts() {
    let mut t = ListenIterator::new();
    let steps: Vec<(&str, u64, u64)> = vec![
        ("a", 100_000, 0),
        ("a", 100_000, 70_000),
        ("b", 100_000, 0),
        ("b", 100_000, 30_000),
        ("b", 100_000, 1_000),
        ("b", 100_000, 25_000),
        ("c", 100_000, 0),
        ("c", 100_000, 2_000),
        ("d", 100_000, 0),
    ];
    let mut records: Vec<SongListenRecord> = Vec::new();
    for (i, (file, duration, elapsed)) in steps.into_iter().enumerate() {
        if let Some(r) = t.observe_at(status(file, duration, elapsed), 10 * i as i64) {
            records.push(r);
        }
    }
    let got: Vec<(String, i64)> = records.iter().map(|r| (r.song.file.clone(), r.start)).collect();
    assert_eq!(
        got,
        vec![("a".to_string(), 0), ("b".to_string(), 20), ("b".to_string(), 40)]
    );
    assert_eq!(t.current().unwrap().start(), 80);
}

#[test]
fn observe_stamps_spans_with_the_clock() {
    let mut t = ListenIterator::new();
    assert!(t.observe(status("a", 100_000, 90_000)).is_none());
    let start = t.current().unwrap().start();
    // 2020-01-01: the wall clock, not a constant or the position.
    assert!(start > 1_577_836_800);
    let rec = t.observe(status("b", 100_000, 0)).unwrap();
    assert_eq!(rec.start, start);
    assert!(t.current().unwrap().start() >= start);
}

#[test]
fn sample_needs_position_length_and_track() {
    let s = SongStatus::from_player(Some(1_500), Some(200_000), Some(song("a"))).unwrap();
    assert_eq!(s.elapsed, 1_500);
    assert_eq!(s.duration, 200_000);
    assert_eq!(s.song.file, "a");
    assert!(SongStatus::from_player(None, Some(200_000), Some(song("a"))).is_none());
    assert!(SongStatus::from_player(Some(1_500), None, Some(song("a"))).is_none());
    assert!(SongStatus::from_player(Some(1_500), Some(200_000), None).is_none());
}

#[test]
fn duplicate_keeps_every_field() {
    let s = Song {
        file: "x.flac".to_string(),
        title: Some("T".to_string()),
        artist: None,
        duration: Some(200),
        tags: vec![("Genre".to_string(), "Jazz".to_string())],
    };
    let d = s.duplicate();
    assert_eq!(format!("{:?}", d), format!("{:?}", s));
}

#[test]
fn observe_all_hands_out_listens_in_order() {
    let mut t = ListenIterator::new();
    let observations = vec![
        (status("a", 100_000, 0), 0),
        (status("a", 100_000, 70_000), 10),
        (status("b", 100_000, 0), 20),
        (status("b", 100_000, 30_000), 30),
        (status("b", 100_000, 1_000), 40),
        (status("b", 100_000, 25_000), 50),
        (status("c", 100_000, 0), 60),
        (status("c", 100_000, 2_000), 70),
        (status("d", 100_000, 0), 80),
    ];
    let records = t.observe_all(observations);
    let got: Vec<(String, i64)> = records.iter().map(|r| (r.song.file.clone(), r.start)).collect();
    assert_eq!(
        got,
        vec![("a".to_string(), 0), ("b".to_string(), 20), ("b".to_string(), 40)]
    );
    assert_eq!(current_file(&t), Some("d".to_string()));
    assert_eq!(t.current().unwrap().start(), 80);
    assert!(t.observe_all(Vec::new()).is_empty());
    assert_eq!(t.current().unwrap().start(), 80);
}
