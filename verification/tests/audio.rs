use groove_tui::audio::{find_device_named, gather_first_channel, AudioCommand, AudioThreadState};

#[test]
fn click_thread_follows_commands() {
    let mut s = AudioThreadState::new();
    assert!(!s.playing);
    assert_eq!(s.bpm, 120);
    assert!(s.apply(AudioCommand::Toggle));
    assert!(s.playing);
    assert!(s.apply(AudioCommand::SetBpm(90)));
    assert_eq!(s.bpm, 90);
    assert!(s.playing);
    assert!(!s.apply(AudioCommand::Quit));
    assert_eq!(s.bpm, 90);
}

#[test]
fn first_channel_is_gathered_into_blocks() {
    let data = [1, 10, 2, 20, 3, 30, 4, 40, 5, 50];
    let mut pending: Vec<i32> = Vec::new();
    let blocks = gather_first_channel(&data, 2, &mut pending, 2);
    assert_eq!(blocks, vec![vec![1, 2], vec![3, 4]]);
    assert_eq!(pending, vec![5]);
    let more = gather_first_channel(&[6, 60, 7, 70], 2, &mut pending, 2);
    assert_eq!(more, vec![vec![5, 6]]);
    assert_eq!(pending, vec![7]);
}

#[test]
fn blocks_from_a_short_pending_block_are_full() {
    let data: Vec<i32> = (0..100).collect();
    let mut pending = vec![-1];
    let blocks = gather_first_channel(&data, 3, &mut pending, 8);
    assert!(!blocks.is_empty());
    for b in &blocks {
        assert_eq!(b.len(), 8);
    }
    assert!(pending.len() < 8);
}

#[test]
fn mono_data_is_taken_whole() {
    let mut pending: Vec<i32> = Vec::new();
    let blocks = gather_first_channel(&[1, 2, 3], 1, &mut pending, 5);
    assert!(blocks.is_empty());
    assert_eq!(pending, vec![1, 2, 3]);
}

#[test]
fn devices_are_found_by_name() {
    let names = vec![None, Some("USB Mic".to_string()), Some("Line".to_string()), Some("Line".to_string())];
    assert_eq!(find_device_named(&names, "Line"), Some(2));
    assert_eq!(find_device_named(&names, "USB Mic"), Some(1));
    assert_eq!(find_device_named(&names, "Other"), None);
    assert_eq!(find_device_named(&Vec::new(), "Line"), None);
}
