use metamagic::decode;
use metamagic::fixture::epoch_millis;
use metamagic::fixture::round_to_tick;
use metamagic::generate_fixture;
use metamagic::write_metadata_file;
use metamagic::VideoMeta;

#[test]
fn fixture_has_the_fixed_values() {
    assert_eq!(
        generate_fixture(1_492_712_968_567),
        VideoMeta {
            fps: 10,
            format: "video/mp4".to_string(),
            res_y: 1232,
            res_x: 1640,
            capture_start: 1_492_712_968_567,
            logger_id: "internal_test".to_string(),
            device_id: "faux_device".to_string(),
            tick: 1_492_712_970_000,
        }
    );
}

#[test]
fn fixtures_differ_in_their_times_only() {
    let earlier = generate_fixture(1_234_567);
    let later = generate_fixture(1_235_001);
    assert_eq!(earlier.fps, later.fps);
    assert_eq!(earlier.format, later.format);
    assert_eq!(earlier.res_y, later.res_y);
    assert_eq!(earlier.res_x, later.res_x);
    assert_eq!(earlier.logger_id, later.logger_id);
    assert_eq!(earlier.device_id, later.device_id);
    assert!(earlier.capture_start <= later.capture_start);
    assert!(earlier.tick <= later.tick);
    assert_eq!(earlier.tick, 1_230_000);
    assert_eq!(later.tick, 1_240_000);
}

#[test]
fn tick_is_the_nearest_ten_seconds() {
    assert_eq!(round_to_tick(1_234_567), 1_230_000);
    assert_eq!(round_to_tick(1_235_001), 1_240_000);
    assert_eq!(round_to_tick(0), 0);
    assert_eq!(round_to_tick(4_999), 0);
    assert_eq!(round_to_tick(5_000), 10_000);
    assert_eq!(round_to_tick(14_999), 10_000);
    assert_eq!(round_to_tick(15_000), 20_000);
    assert_eq!(round_to_tick(20_000), 20_000);
}

#[test]
fn tick_of_the_latest_times() {
    assert_eq!(round_to_tick(u64::MAX), 18_446_744_073_709_550_000);
    assert_eq!(round_to_tick(18_446_744_073_709_549_999), 18_446_744_073_709_550_000);
    assert_eq!(round_to_tick(18_446_744_073_709_544_999), 18_446_744_073_709_540_000);
}

#[test]
fn epoch_millis_drops_what_is_below_a_millisecond() {
    assert_eq!(epoch_millis(0, 0), Some(0));
    assert_eq!(epoch_millis(1_492_712_968, 567_890_123), Some(1_492_712_968_567));
    assert_eq!(epoch_millis(1, 999_999), Some(1_000));
    assert_eq!(epoch_millis(1, 999_999_999), Some(1_999));
}

#[test]
fn epoch_millis_has_no_answer_past_64_bits() {
    assert_eq!(epoch_millis(18_446_744_073_709_551, 615_000_000), Some(u64::MAX));
    assert_eq!(epoch_millis(18_446_744_073_709_551, 616_000_000), None);
    assert_eq!(epoch_millis(18_446_744_073_709_552, 0), None);
    assert_eq!(epoch_millis(u64::MAX, 0), None);
}

#[test]
fn fixture_file_holds_the_document_of_the_fixture() {
    let text = write_metadata_file(1_492_712_968_567);
    assert_eq!(
        text,
        "{\"fps\":10,\"format\":\"video/mp4\",\"res_y\":1232,\"res_x\":1640,\
         \"capture_start\":1492712968567,\"logger_id\":\"internal_test\",\
         \"device_id\":\"faux_device\",\"tick\":1492712970000}"
    );
    assert_eq!(decode(&text), Ok(generate_fixture(1_492_712_968_567)));
}
