use audio_tinkertoy::playback::{Transport, TransportCommand};

#[test]
fn transport_starts_stopped() {
    assert!(!Transport::new().is_playing());
}

#[test]
fn pressing_alternates_start_and_stop() {
    let mut t = Transport::new();
    assert_eq!(t.press(), TransportCommand::Start);
    assert!(t.is_playing());
    assert_eq!(t.press(), TransportCommand::Stop);
    assert!(!t.is_playing());
    assert_eq!(t.press(), TransportCommand::Start);
}
