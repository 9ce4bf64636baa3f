use live_replay::hls::{
    after_parts, after_read, choose_variant, part_address, read_first_answer, read_refreshed_list,
    read_variant_list, AfterParts, AfterRead, CutLimits, FirstAnswer, HlsCursor, HlsFile, MediaList,
    MediaPart, PartRead, Variant,
};
use url::Url;

#[test]
fn test_url() -> Result<(), Box<dyn std::error::Error>> {
    let url = Url::parse("h://host.path/to/remote/resource.m3u8")?;
    let scheme = url.scheme();
    let new_url = url.join("http://path.host/remote/resource.ts")?;
    println!("{url}, {scheme}");
    println!("{new_url}, {scheme}");

    let part = MediaPart {
        uri: "http://path.host/remote/resource.ts".to_string(),
        discontinuity: false,
        duration_secs: 0,
        duration_bits: 0,
    };
    let address = part_address("h://host.path/to/remote/resource.m3u8", &part)?;
    assert_eq!(address, "http://path.host/remote/resource.ts");
    Ok(())
}

#[test]
fn it_works() -> Result<(), Box<dyn std::error::Error>> {
    Ok(())
}

const MASTER: &str = "#EXTM3U\n\
#EXT-X-STREAM-INF:BANDWIDTH=100,RESOLUTION=640x360\nlow.m3u8\n\
#EXT-X-STREAM-INF:BANDWIDTH=900\naudio.m3u8\n\
#EXT-X-STREAM-INF:BANDWIDTH=500,RESOLUTION=1280x720\nhigh.m3u8\n";

const MEDIA: &str = "#EXTM3U\n#EXT-X-VERSION:3\n#EXT-X-TARGETDURATION:5\n#EXT-X-MEDIA-SEQUENCE:7\n\
#EXTINF:4.5,\na.ts\n#EXT-X-DISCONTINUITY\n#EXTINF:3.0,\nb.ts\n";

fn media() -> MediaList {
    match read_first_answer("https://h/x/list.m3u8", MEDIA.as_bytes()) {
        FirstAnswer::Parts { media_url, list } => {
            assert_eq!(media_url, "https://h/x/list.m3u8");
            list
        }
        other => panic!("{other:?}"),
    }
}

fn variant(bandwidth: u64, resolution: Option<(u64, u64)>, is_i_frame: bool) -> Variant {
    Variant { uri: "v".to_string(), bandwidth, resolution, is_i_frame }
}

#[test]
fn the_best_variant_is_taken() {
    match read_first_answer("https://h/x/list.m3u8?k=1", MASTER.as_bytes()) {
        FirstAnswer::Fetch { media_url } => assert_eq!(media_url, "https://h/x/high.m3u8"),
        other => panic!("{other:?}"),
    }
    let size = Some((1, 1));
    assert_eq!(choose_variant(&vec![variant(1, size, false), variant(9, None, false)]), Ok(0));
    assert_eq!(choose_variant(&vec![variant(5, size, false), variant(5, size, false)]), Ok(1));
    assert_eq!(choose_variant(&vec![variant(9, size, true), variant(1, None, false)]), Ok(1));
    assert_eq!(
        choose_variant(&vec![variant(9, size, true)]),
        Err("HLS master playlist 没有可用视频变体。".to_string())
    );
}

#[test]
fn media_lists_are_read() {
    let list = media();
    assert_eq!((list.media_sequence, list.end_list), (7, false));
    assert_eq!(list.parts.len(), 2);
    assert_eq!((list.parts[0].uri.as_str(), list.parts[0].duration_secs), ("a.ts", 4));
    assert!(!list.parts[0].discontinuity && list.parts[1].discontinuity);
    assert_eq!(f32::from_bits(list.parts[0].duration_bits), 4.5);
    assert_eq!(
        part_address("https://h/x/list.m3u8", &list.parts[0]).unwrap(),
        "https://h/x/a.ts"
    );
    let ended = format!("{MEDIA}#EXT-X-ENDLIST\n");
    assert!(read_variant_list(ended.as_bytes()).unwrap().end_list);
    assert_eq!(read_refreshed_list(MEDIA.as_bytes()).unwrap().parts.len(), 2);
}

#[test]
fn unreadable_lists_are_reported() {
    match read_first_answer("https://h/x/list.m3u8", b"nothing") {
        FirstAnswer::Fail(message) => assert!(message.starts_with("Parsing playlist error: ")),
        other => panic!("{other:?}"),
    }
    assert!(matches!(read_first_answer("no address", MEDIA.as_bytes()), FirstAnswer::Fail(_)));
    assert!(read_variant_list(b"nothing")
        .unwrap_err()
        .starts_with("Unable to parse media playlist content: "));
    assert!(read_refreshed_list(b"nothing")
        .unwrap_err()
        .starts_with("Unable to refresh HLS playlist: "));
}

#[test]
fn every_part_is_fetched_once() {
    let mut cursor = HlsCursor { previous: 0 };
    let due: Vec<(usize, u64, bool)> =
        cursor.advance(&media()).iter().map(|d| (d.index, d.sequence, d.gap)).collect();
    assert_eq!(due, [(0, 7, false), (1, 8, false)]);
    assert_eq!(cursor.advance(&media()).len(), 0);
    let mut later = media();
    later.media_sequence = 8;
    let due: Vec<(usize, u64, bool)> =
        cursor.advance(&later).iter().map(|d| (d.index, d.sequence, d.gap)).collect();
    assert_eq!(due, [(1, 9, false)]);
    later.media_sequence = 20;
    assert!(cursor.advance(&later)[0].gap);
}

#[test]
fn a_list_is_asked_for_until_it_ends() {
    let mut list = media();
    assert_eq!(
        after_parts(&list),
        AfterParts::AskAgain { empty: false, last_duration_bits: Some(3.0f32.to_bits()) }
    );
    list.parts.clear();
    assert_eq!(after_parts(&list), AfterParts::AskAgain { empty: true, last_duration_bits: None });
    list.end_list = true;
    assert_eq!(after_parts(&list), AfterParts::Ended);
}

#[test]
fn parts_are_read_to_their_end() {
    let mut length = 5;
    assert!(matches!(after_read(&mut length, PartRead::Chunk(10), "u"), AfterRead::WriteAndGoOn));
    assert_eq!(length, 15);
    assert!(matches!(after_read(&mut length, PartRead::End, "u"), AfterRead::Complete));
    assert!(matches!(after_read(&mut length, PartRead::Failed("e".to_string()), "u"), AfterRead::Fail(m) if m == "e"));
    assert!(
        matches!(after_read(&mut length, PartRead::TimedOut, "u"), AfterRead::Fail(m) if m == "HLS segment read timed out: u")
    );
}

#[test]
fn files_are_cut_at_breaks_and_at_their_size() {
    let list = media();
    let size = CutLimits { bytes: Some(100), secs: None };
    let mut file = HlsFile { bytes: 10, secs: 1 };
    assert!(!file.before_part(&list.parts[0]));
    assert!(file.before_part(&list.parts[1]));
    assert_eq!(file, HlsFile::new());
    assert!(!file.after_part(&list.parts[0], 50, size));
    assert_eq!((file.bytes, file.secs), (50, 4));
    assert!(file.after_part(&list.parts[0], 50, size));
    assert_eq!(file, HlsFile::new());
    let length = CutLimits { bytes: None, secs: Some(7) };
    assert!(!file.after_part(&list.parts[0], 5_000, length));
    assert!(file.after_part(&list.parts[1], 5_000, length));
    let never = CutLimits { bytes: None, secs: None };
    assert!(!file.after_part(&list.parts[0], u64::MAX, never));
    assert!(!file.after_part(&list.parts[0], 1, never));
    assert_eq!(file.bytes, u64::MAX);
}
