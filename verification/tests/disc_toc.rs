use ode_artwork_downloader::disc::toc::{digit_sum, parse_msf, DiscTOC, TrackInfo};

#[test]
fn test_parse_msf() {
    assert_eq!(parse_msf("00:00:00"), Some(0));
    assert_eq!(parse_msf("00:02:00"), Some(150));
    assert_eq!(parse_msf("01:00:00"), Some(4500));
    assert_eq!(parse_msf("74:59:74"), Some((74 * 60 + 59) * 75 + 74));
}

#[test]
fn test_digit_sum() {
    assert_eq!(digit_sum(0), 0);
    assert_eq!(digit_sum(123), 6);
    assert_eq!(digit_sum(999), 27);
}

#[test]
fn test_toc_calculation() {
    let tracks = vec![
        TrackInfo {
            number: 1,
            offset: 0,
            track_type: "AUDIO".to_string(),
        },
        TrackInfo {
            number: 2,
            offset: 18901,
            track_type: "AUDIO".to_string(),
        },
    ];

    let toc = DiscTOC::from_tracks(tracks, 41000).unwrap();
    assert_eq!(toc.first_track, 1);
    assert_eq!(toc.last_track, 2);
    assert_eq!(toc.track_count(), 2);
}

fn two_track_toc() -> DiscTOC {
    let tracks = vec![
        TrackInfo {
            number: 1,
            offset: 0,
            track_type: "AUDIO".to_string(),
        },
        TrackInfo {
            number: 2,
            offset: 18901,
            track_type: "AUDIO".to_string(),
        },
    ];
    DiscTOC::from_tracks(tracks, 41000).unwrap()
}

#[test]
fn toc_offsets_are_biased_by_the_pregap() {
    let toc = two_track_toc();
    assert_eq!(toc.track_offsets, vec![150, 19051]);
    assert_eq!(toc.lead_out, 41150);
    assert!(DiscTOC::from_tracks(Vec::new(), 10).is_none());
}

#[test]
fn id_record_layout() {
    let toc = two_track_toc();
    let record = toc.id_record();
    assert_eq!(record.len(), 402);
    assert_eq!(record[0], 1);
    assert_eq!(record[1], 2);
    assert_eq!(&record[2..6], &41150u32.to_be_bytes());
    assert_eq!(&record[6..10], &150u32.to_be_bytes());
    assert_eq!(&record[10..14], &19051u32.to_be_bytes());
    assert!(record[14..].iter().all(|b| *b == 0));
}

#[test]
fn musicbrainz_id_is_deterministic_and_sensitive() {
    let toc = two_track_toc();
    let a = toc.calculate_musicbrainz_id();
    let b = two_track_toc().calculate_musicbrainz_id();
    assert_eq!(a, b);
    // 20 bytes of digest are 27 characters of unpadded base64
    assert_eq!(a.len(), 27);
    assert!(a
        .chars()
        .all(|c| c.is_ascii_alphanumeric() || c == '-' || c == '_'));
    let mut other = two_track_toc();
    other.track_offsets[1] = 19052;
    assert_ne!(other.calculate_musicbrainz_id(), a);
    let mut other = two_track_toc();
    other.lead_out = 41151;
    assert_ne!(other.calculate_musicbrainz_id(), a);
}

#[test]
fn musicbrainz_id_of_a_known_digest() {
    // the digest of the empty message, in URL-safe base64 without padding
    let digest: [u8; 20] = [
        0xda, 0x39, 0xa3, 0xee, 0x5e, 0x6b, 0x4b, 0x0d, 0x32, 0x55, 0xbf, 0xef, 0x95, 0x60, 0x18,
        0x90, 0xaf, 0xd8, 0x07, 0x09,
    ];
    assert_eq!(DiscTOC::id_of_digest(&digest), "2jmj7l5rSw0yVb_vlWAYkK_YBwk");
    assert_eq!(DiscTOC::id_of_digest(&[0xfb, 0xff]), "-_8");
}

#[test]
fn freedb_id_value() {
    let toc = two_track_toc();
    // offsets 150 and 19051 frames are 2 and 254 seconds: digit sums 2 and 11;
    // the length is 548 - 2 = 546 seconds; two tracks
    assert_eq!(toc.calculate_freedb_id(), "0d022202");
    let empty = DiscTOC {
        first_track: 1,
        last_track: 1,
        lead_out: 150,
        track_offsets: Vec::new(),
    };
    assert_eq!(empty.calculate_freedb_id(), "00000200");
}

#[test]
fn toc_times_and_text() {
    let toc = two_track_toc();
    assert_eq!(toc.total_seconds(), 548);
    assert_eq!(toc.total_time_string(), "09:08");
    assert_eq!(toc.to_toc_string(), "1+2+41150+150+19051");
    let long = DiscTOC {
        first_track: 1,
        last_track: 1,
        lead_out: 75 * 60 * 100,
        track_offsets: vec![150],
    };
    assert_eq!(long.total_time_string(), "100:00");
}

#[test]
fn msf_rejections() {
    assert_eq!(parse_msf("00:00"), None);
    assert_eq!(parse_msf("00:00:00:00"), None);
    assert_eq!(parse_msf("aa:00:00"), None);
    assert_eq!(parse_msf("00::00"), None);
    assert_eq!(parse_msf("-1:00:00"), None);
    assert_eq!(parse_msf(""), None);
    assert_eq!(parse_msf("+1:00:01"), Some(4501));
    assert_eq!(parse_msf("99999999:00:00"), None);
}

#[test]
fn digit_sum_of_large_numbers() {
    assert_eq!(digit_sum(4294967295), 4 + 2 + 9 + 4 + 9 + 6 + 7 + 2 + 9 + 5);
    assert_eq!(digit_sum(10), 1);
}

#[test]
fn length_of_the_base64_text() {
    assert_eq!(DiscTOC::id_of_digest(&[]), "");
    assert_eq!(DiscTOC::id_of_digest(&[0xFB]).len(), 2);
    assert_eq!(DiscTOC::id_of_digest(&[0xFB, 0xFF]), "-_8");
    assert_eq!(DiscTOC::id_of_digest(&[0xFB, 0xFF, 0xFE]), "-__-");
    assert_eq!(DiscTOC::id_of_digest(&[0u8; 4]).len(), 6);
}
