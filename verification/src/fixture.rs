//! The fixture: one well-formed record made of fixed values and the time at
//! which it is made, and the text of the file that holds it.

use crate::codec::encode;
use crate::codec::encodes;
use crate::record::Record;
use crate::record::VideoMeta;
use vstd::prelude::*;
use vstd::string::StringExecFns;

verus! {

/// The length of a tick, in milliseconds.
pub const TICK_LENGTH: u64 = 10_000;

/// The frame rate of the fixture.
pub const FIXTURE_FPS: u32 = 10;

/// The height of the fixture's frames.
pub const FIXTURE_RES_Y: u32 = 1232;

/// The width of the fixture's frames.
pub const FIXTURE_RES_X: u32 = 1640;

/// The time that lies whole seconds and a part of a second after the Unix
/// epoch, in milliseconds. What is left of the part below a millisecond is
/// dropped.
pub open spec fn millis_since_epoch(seconds: nat, subsec_nanos: nat) -> nat {
    seconds * 1000 + subsec_nanos / 1_000_000
}

/// The multiple of the tick length that lies nearest to a time. A time
/// half-way between two of them goes to the later one.
pub open spec fn nearest_tick(t: nat) -> nat {
    (t + 5_000) / 10_000 * 10_000
}

/// The fixture made at a given time, in milliseconds since the Unix epoch.
pub open spec fn fixture_record(now: nat) -> Record {
    Record {
        frame_rate: 10,
        format: "video/mp4"@,
        resolution_height: 1232,
        resolution_width: 1640,
        capture_start: now,
        logger_identifier: "internal_test"@,
        device_identifier: "faux_device"@,
        tick: nearest_tick(now),
    }
}

/// Turns a reading of the clock, whole seconds and nanoseconds since the
/// Unix epoch, into milliseconds. There is no answer where the milliseconds
/// do not fit in 64 bits.
pub fn epoch_millis(seconds: u64, subsec_nanos: u32) -> (millis: Option<u64>)
    ensures
        match millis {
            Some(m) => m == millis_since_epoch(seconds as nat, subsec_nanos as nat),
            None => millis_since_epoch(seconds as nat, subsec_nanos as nat) > u64::MAX,
        },
{
    let part: u64 = (subsec_nanos / 1_000_000) as u64;
    match seconds.checked_mul(1000) {
        Some(whole) => whole.checked_add(part),
        None => None,
    }
}

/// Rounds a time to the nearest tick.
pub fn round_to_tick(capture_start: u64) -> (tick: u64)
    ensures
        tick == nearest_tick(capture_start as nat),
        tick % TICK_LENGTH == 0,
        capture_start - 5_000 < tick <= capture_start + 5_000,
{
    let whole: u64 = capture_start / TICK_LENGTH;
    let rest: u64 = capture_start % TICK_LENGTH;
    if rest >= TICK_LENGTH / 2 {
        (whole + 1) * TICK_LENGTH
    } else {
        whole * TICK_LENGTH
    }
}

/// Makes the fixture for a capture that starts at the given time, in
/// milliseconds since the Unix epoch.
pub fn generate_fixture(now: u64) -> (fixture: VideoMeta)
    ensures
        fixture@ == fixture_record(now as nat),
{
    VideoMeta {
        fps: FIXTURE_FPS,
        format: String::from_str("video/mp4"),
        res_y: FIXTURE_RES_Y,
        res_x: FIXTURE_RES_X,
        capture_start: now,
        logger_id: String::from_str("internal_test"),
        device_id: String::from_str("faux_device"),
        tick: round_to_tick(now),
    }
}

/// Gives the text of the fixture file for a capture that starts at the
/// given time: the document of the fixture made at that time.
pub fn write_metadata_file(now: u64) -> (text: String)
    ensures
        encodes(fixture_record(now as nat), text@),
{
    let fixture = generate_fixture(now);
    encode(&fixture)
}

/// A tick is a multiple of the tick length, and no time is further from its
/// tick than half a tick length; just half-way, the tick is the later one.
pub proof fn lemma_nearest_tick(t: nat)
    ensures
        nearest_tick(t) % 10_000 == 0,
        t - 5_000 < nearest_tick(t) <= t + 5_000,
        t % 10_000 == 5_000 ==> nearest_tick(t) == t + 5_000,
{
}

/// Of two fixtures, the one made later starts no earlier and has no earlier
/// tick, and the two are alike in all else.
pub proof fn lemma_successive_fixtures(earlier: nat, later: nat)
    requires
        earlier <= later,
    ensures
        fixture_record(earlier).capture_start <= fixture_record(later).capture_start,
        fixture_record(earlier).tick <= fixture_record(later).tick,
        fixture_record(earlier).frame_rate == fixture_record(later).frame_rate,
        fixture_record(earlier).format == fixture_record(later).format,
        fixture_record(earlier).resolution_height == fixture_record(later).resolution_height,
        fixture_record(earlier).resolution_width == fixture_record(later).resolution_width,
        fixture_record(earlier).logger_identifier == fixture_record(later).logger_identifier,
        fixture_record(earlier).device_identifier == fixture_record(later).device_identifier,
{
}

} // verus!
