use macropad_host::codec::EncoderEvent;
use macropad_host::date::DateProvider;
use macropad_host::encoder::{EncoderConsumer, EncoderPoll, EncoderWorker};
use macropad_host::media::{is_nothing_playing, MediaProvider, MediaSample};
use macropad_host::system::{cpu_percent, mebibytes, total_bytes, SystemProvider, SystemSample};
use tokio::sync::broadcast;

fn drain(rx: &mut broadcast::Receiver<Vec<u8>>) -> Vec<Vec<u8>> {
    let mut out = Vec::new();
    while let Ok(p) = rx.try_recv() {
        out.push(p);
    }
    out
}

#[test]
fn date_duplicate_sample_is_suppressed() {
    let (tx, mut rx) = broadcast::channel(16);
    let provider = DateProvider::new(tx);
    let mut worker = provider.start().expect("starts");
    assert!(worker.deliver((1, 1)));
    assert!(!worker.deliver((1, 1)));
    assert!(worker.deliver((2, 1)));
    assert_eq!(drain(&mut rx), vec![vec![0xAF, 1, 1], vec![0xAF, 2, 1]]);
}

#[test]
fn date_observe_reports_changes_only() {
    let (tx, _rx) = broadcast::channel(16);
    let provider = DateProvider::new(tx);
    let mut worker = provider.start().expect("starts");
    assert_eq!(worker.observe((5, 3)), Some(vec![0xAF, 5, 3]));
    assert_eq!(worker.observe((5, 3)), None);
    assert_eq!(worker.observe((5, 4)), Some(vec![0xAF, 5, 4]));
}

#[test]
fn date_poll_publishes_then_stops() {
    let (tx, mut rx) = broadcast::channel(16);
    let provider = DateProvider::new(tx);
    assert!(provider.start().is_some());
    provider.stop();
    let mut worker = provider.start().expect("restarts after stop");
    assert!(provider.start().is_none());
    assert!(worker.poll());
    let got = drain(&mut rx);
    assert_eq!(got.len(), 1);
    assert_eq!(got[0][0], 0xAF);
    assert!((1..=31).contains(&got[0][1]));
    assert!((1..=12).contains(&got[0][2]));
    assert!(worker.poll());
    assert!(drain(&mut rx).len() <= 1);
    provider.stop();
    assert!(!provider.is_running());
    assert!(!worker.poll());
    assert!(drain(&mut rx).is_empty());
}

#[test]
fn date_publish_without_subscriber_is_no_error() {
    let (tx, rx) = broadcast::channel::<Vec<u8>>(16);
    drop(rx);
    let provider = DateProvider::new(tx);
    let mut worker = provider.start().expect("starts");
    assert!(worker.deliver((9, 9)));
}

fn sample(cores: Vec<u32>, used: u64, total: u64, rx: Vec<u64>, tx: Vec<u64>) -> SystemSample {
    SystemSample {
        cpu_core_millionths: cores,
        ram_used: used,
        ram_total: total,
        net_rx_bytes: rx,
        net_tx_bytes: tx,
    }
}

#[test]
fn system_publishes_four_packets_every_cycle() {
    let (tx, mut rx) = broadcast::channel(16);
    let provider = SystemProvider::new(tx);
    let worker = provider.start().expect("starts");
    let s = sample(vec![50_400_000], 4096, 8192, vec![2 * 1048576], vec![1048576]);
    let expected = vec![vec![0xB0, 50], vec![0xB1, 50], vec![0xB2, 2], vec![0xB3, 1]];
    for _ in 0..2 {
        let packets = worker.observe(&s);
        assert_eq!(packets, expected);
        for p in packets {
            assert!(worker.publish(p));
        }
    }
    let got = drain(&mut rx);
    assert_eq!(got.len(), 8);
    assert_eq!(&got[..4], &expected[..]);
    assert_eq!(&got[4..], &expected[..]);
}

#[test]
fn system_aggregates_cores_and_interfaces() {
    assert_eq!(cpu_percent(&vec![50_000_000, 30_000_000]), 40);
    assert_eq!(cpu_percent(&vec![50_450_000]), 50);
    assert_eq!(cpu_percent(&vec![50_500_000]), 51);
    assert_eq!(cpu_percent(&vec![100_000_000, 100_000_000, 100_000_000, 500_000]), 75);
    assert_eq!(cpu_percent(&vec![]), 0);
    assert_eq!(total_bytes(&vec![u64::MAX, u64::MAX]), 2 * (u64::MAX as u128));
    assert_eq!(mebibytes(&vec![1048576, 524288, 524288]), 2);
    assert_eq!(mebibytes(&vec![1048575]), 0);
    assert_eq!(mebibytes(&vec![]), 0);

    let (tx, _rx) = broadcast::channel(16);
    let provider = SystemProvider::new(tx);
    let worker = provider.start().expect("starts");
    let s = sample(vec![], 0, 0, vec![300 * 1048576], vec![]);
    assert_eq!(
        worker.observe(&s),
        vec![vec![0xB0, 0], vec![0xB1, 0], vec![0xB2, 255], vec![0xB3, 0]]
    );
}

#[test]
fn media_output_meaning_nothing_playing() {
    assert!(is_nothing_playing(b""));
    assert!(is_nothing_playing(b"null\n"));
    assert!(is_nothing_playing(b"null"));
    assert!(is_nothing_playing(b"null\r\n"));
    assert!(is_nothing_playing(b"null \n\n"));
    assert!(is_nothing_playing(b" \t\n"));
    assert!(!is_nothing_playing(b"nul\n"));
    assert!(!is_nothing_playing(b"nulls"));
    assert!(!is_nothing_playing(b"nulL\n"));
    assert!(!is_nothing_playing(b"{\"artist\":\"A\"}"));
}

fn playing(artist: &str, title: &str) -> MediaSample {
    MediaSample::Playing { artist: artist.to_string(), title: title.to_string() }
}

#[test]
fn media_publishes_changes_only() {
    let (tx, _rx) = broadcast::channel(16);
    let provider = MediaProvider::new(tx);
    let mut worker = provider.start().expect("starts");

    let first = worker.observe(MediaSample::NothingPlaying);
    let mut artist = vec![0xAD, 9];
    artist.extend_from_slice(b"No Artist");
    let mut title = vec![0xAE, 8];
    title.extend_from_slice(b"No Title");
    assert_eq!(first, vec![artist, title]);
    assert!(worker.observe(MediaSample::NothingPlaying).is_empty());

    let change = worker.observe(playing("X", "Y"));
    assert_eq!(change, vec![vec![0xAD, 1, b'X'], vec![0xAE, 1, b'Y']]);
    assert!(worker.observe(playing("X", "Y")).is_empty());
    assert!(worker.observe(playing("X", "Y")).is_empty());

    assert!(worker.observe(MediaSample::Unavailable).is_empty());
    assert_eq!(worker.observe(playing("X", "Z")), vec![vec![0xAE, 1, b'Z']]);
    assert_eq!(worker.observe(playing("W", "Z")), vec![vec![0xAD, 1, b'W']]);
}

#[test]
fn media_packets_reach_subscribers_in_order() {
    let (tx, mut rx) = broadcast::channel(16);
    let provider = MediaProvider::new(tx);
    let mut worker = provider.start().expect("starts");
    for p in worker.observe(playing("X", "Y")) {
        assert!(worker.is_current());
        assert!(worker.publish(p));
    }
    assert_eq!(drain(&mut rx), vec![vec![0xAD, 1, b'X'], vec![0xAE, 1, b'Y']]);
    provider.stop();
    assert!(!worker.is_current());
}

#[test]
fn encoder_reacts_to_encoder_mode_only() {
    assert_eq!(
        EncoderWorker::react(&vec![0xB5, 3, 1]),
        Some(EncoderEvent { index: 3, mode: 1 })
    );
    assert_eq!(EncoderWorker::react(&vec![0xAF, 3, 1]), None);

    let (tx, _rx) = broadcast::channel(16);
    let consumer = EncoderConsumer::new(tx.clone());
    let mut worker = consumer.start().expect("starts");
    assert_eq!(worker.poll(), EncoderPoll::Idle);
    tx.send(vec![0xB5, 3, 1]).unwrap();
    assert_eq!(
        worker.poll(),
        EncoderPoll::Received {
            packet: vec![0xB5, 3, 1],
            event: Some(EncoderEvent { index: 3, mode: 1 })
        }
    );
    assert_eq!(worker.poll(), EncoderPoll::Idle);
    tx.send(vec![0xAD, 3, 1]).unwrap();
    assert_eq!(
        worker.poll(),
        EncoderPoll::Received { packet: vec![0xAD, 3, 1], event: None }
    );
    consumer.stop();
    tx.send(vec![0xB5, 4, 2]).unwrap();
    assert_eq!(worker.poll(), EncoderPoll::Stopped);
    assert!(!consumer.is_running());

    let mut again = consumer.start().expect("restarts after stop");
    tx.send(vec![0xB5, 4, 2]).unwrap();
    assert_eq!(
        again.poll(),
        EncoderPoll::Received {
            packet: vec![0xB5, 4, 2],
            event: Some(EncoderEvent { index: 4, mode: 2 })
        }
    );
    assert_eq!(worker.poll(), EncoderPoll::Stopped);
}
