//! Queries over a collection of records: those of one device, and all of
//! them in the order of their starts.

use crate::record::VideoMeta;
use vstd::prelude::*;
use vstd::string::StringExecFns;

verus! {

/// The test that a record is of the device with the given identifier. The
/// identifiers are compared as they stand, character by character.
pub open spec fn of_device(id: Seq<char>) -> spec_fn(VideoMeta) -> bool {
    |m: VideoMeta| m.device_id@ == id
}

/// The test that a record's capture started at the given time.
pub open spec fn started_at(t: u64) -> spec_fn(VideoMeta) -> bool {
    |m: VideoMeta| m.capture_start == t
}

/// No record starts before one that stands in front of it.
pub open spec fn in_capture_order(s: Seq<VideoMeta>) -> bool {
    forall|i: int, j: int| 0 <= i <= j < s.len() ==> s[i].capture_start <= s[j].capture_start
}

/// For each start time, the two collections hold the same records of that
/// time, in the same order.
pub open spec fn same_at_each_start(a: Seq<VideoMeta>, b: Seq<VideoMeta>) -> bool {
    forall|t: u64| #![trigger started_at(t)] a.filter(started_at(t)) == b.filter(started_at(t))
}

/// `places` names, in rising order, the places of `all` from which the
/// records of `chosen` are taken, one for one; and every record of the
/// device in `all` stands at one of them.
pub open spec fn selects(
    all: Seq<VideoMeta>,
    id: Seq<char>,
    chosen: Seq<VideoMeta>,
    places: Seq<int>,
) -> bool {
    &&& places.len() == chosen.len()
    &&& forall|k: int|
        0 <= k < places.len() ==> 0 <= #[trigger] places[k] < all.len() && all[places[k]]
            == chosen[k]
    &&& forall|j: int, k: int| 0 <= j < k < places.len() ==> places[j] < places[k]
    &&& forall|i: int|
        0 <= i < all.len() && (#[trigger] all[i]).device_id@ == id ==> places.contains(i)
}

/// Gives the records of one device, copied, in the order in which the
/// collection holds them. Where the collection has none of that device the
/// result is empty.
pub fn get_by_device_id(device_id: &str, video_data: &Vec<VideoMeta>) -> (device_data: Vec<
    VideoMeta,
>)
    ensures
        device_data@ == video_data@.filter(of_device(device_id@)),
        forall|k: int|
            0 <= k < device_data.len() ==> (#[trigger] device_data[k]).device_id@ == device_id@,
        (forall|i: int| 0 <= i < video_data.len() ==> video_data[i].device_id@ != device_id@)
            ==> device_data.len() == 0,
{
    let wanted = String::from_str(device_id);
    let mut device_data: Vec<VideoMeta> = Vec::new();
    let mut i: usize = 0;
    while i < video_data.len()
        invariant
            i <= video_data.len(),
            wanted@ == device_id@,
            device_data@ == video_data@.take(i as int).filter(of_device(device_id@)),
        decreases video_data.len() - i,
    {
        proof {
            assert(video_data@.take(i + 1) =~= video_data@.take(i as int).push(
                video_data[i as int],
            ));
            video_data@.take(i as int).lemma_filter_push(
                video_data[i as int],
                of_device(device_id@),
            );
        }
        if video_data[i].device_id == wanted {
            device_data.push(video_data[i].clone());
        }
        i += 1;
    }
    proof {
        assert(video_data@.take(i as int) =~= video_data@);
        lemma_filter_is_of_device(video_data@, device_id@);
        lemma_filter_of_none(video_data@, device_id@);
    }
    device_data
}

/// Every record that the filter gives is of the device asked for.
pub proof fn lemma_filter_is_of_device(all: Seq<VideoMeta>, id: Seq<char>)
    ensures
        forall|k: int|
            0 <= k < all.filter(of_device(id)).len() ==> (#[trigger] all.filter(
                of_device(id),
            )[k]).device_id@ == id,
{
    assert forall|k: int| 0 <= k < all.filter(of_device(id)).len() implies (#[trigger] all.filter(
        of_device(id),
    )[k]).device_id@ == id by {
        all.lemma_filter_pred(of_device(id), k);
    }
}

/// Where no record is of the device asked for, the filter gives none.
pub proof fn lemma_filter_of_none(all: Seq<VideoMeta>, id: Seq<char>)
    ensures
        (forall|i: int| 0 <= i < all.len() ==> all[i].device_id@ != id) ==> all.filter(
            of_device(id),
        ).len() == 0,
    decreases all.len(),
{
    reveal(Seq::filter);
    if all.len() > 0 {
        lemma_filter_of_none(all.drop_last(), id);
        if forall|i: int| 0 <= i < all.len() ==> all[i].device_id@ != id {
            assert forall|i: int|
                0 <= i < all.drop_last().len() implies all.drop_last()[i].device_id@ != id by {
                assert(all.drop_last()[i] == all[i]);
            }
        }
    }
}

/// The filter takes each record of the device exactly once and keeps them
/// in the order of the collection: the places from which its records come
/// rise, and no record of the device is left out.
pub proof fn lemma_filter_selects(all: Seq<VideoMeta>, id: Seq<char>) -> (places: Seq<int>)
    ensures
        selects(all, id, all.filter(of_device(id)), places),
    decreases all.len(),
{
    reveal(Seq::filter);
    if all.len() == 0 {
        Seq::empty()
    } else {
        let front = all.drop_last();
        let last = all.len() - 1;
        let before = lemma_filter_selects(front, id);
        let places = if of_device(id)(all.last()) {
            before.push(last)
        } else {
            before
        };
        let chosen = all.filter(of_device(id));
        assert forall|i: int|
            0 <= i < all.len() && (#[trigger] all[i]).device_id@ == id implies places.contains(
            i,
        ) by {
            if i < last {
                assert(front[i] == all[i]);
                let k = choose|k: int| 0 <= k < before.len() && before[k] == i;
                assert(places[k] == i);
            } else {
                assert(places[places.len() - 1] == i);
            }
        }
        assert forall|k: int| 0 <= k < places.len() implies 0 <= #[trigger] places[k] < all.len()
            && all[places[k]] == chosen[k] by {
            if k < before.len() {
                assert(front[before[k]] == all[before[k]]);
            }
        }
        assert forall|j: int, k: int| 0 <= j < k < places.len() implies places[j] < places[k] by {
            assert(0 <= before[j] < front.len());
        }
        places
    }
}

/// Puts the records in the order of their starts, earliest first. Records
/// of one start keep the order in which they stood; no record is added,
/// dropped or changed.
pub fn sort_by_capture_start(video_data: &mut Vec<VideoMeta>)
    ensures
        final(video_data)@.len() == old(video_data)@.len(),
        in_capture_order(final(video_data)@),
        same_at_each_start(final(video_data)@, old(video_data)@),
{
    let n = video_data.len();
    let mut i: usize = 0;
    while i < n
        invariant
            i <= n,
            n == video_data.len(),
            n == old(video_data).len(),
            in_capture_order(video_data@.take(i as int)),
            same_at_each_start(video_data@.take(i as int), old(video_data)@.take(i as int)),
            video_data@.skip(i as int) == old(video_data)@.skip(i as int),
        decreases n - i,
    {
        let ghost before = video_data@;
        let start = video_data[i].capture_start;
        let mut j: usize = i;
        while j > 0 && video_data[j - 1].capture_start > start
            invariant
                j <= i < n,
                n == video_data.len(),
                video_data@ == before,
                forall|k: int| j <= k < i ==> video_data[k].capture_start > start,
            decreases j,
        {
            j -= 1;
        }
        let moved = video_data.remove(i);
        video_data.insert(j, moved);
        proof {
            let sorted = before.take(i as int);
            assert(before.skip(i as int)[0] == old(video_data)@.skip(i as int)[0]);
            assert(video_data@.take(i + 1) =~= sorted.insert(j as int, moved));
            assert(old(video_data)@.skip(i + 1) =~= old(video_data)@.skip(i as int).skip(1));
            assert(old(video_data)@.take(i + 1) =~= old(video_data)@.take(i as int).push(moved));
            assert forall|k: int| 0 <= k < j implies sorted[k].capture_start <= start by {
                assert(sorted[j - 1] == before[j - 1]);
            }
            assert forall|k: int| j <= k < sorted.len() implies sorted[k].capture_start
                > start by {
                assert(sorted[k] == before[k]);
            }
            lemma_insert_in_order(sorted, j as int, moved);
            lemma_push_at_each_start(sorted, old(video_data)@.take(i as int), moved);
        }
        i += 1;
    }
    proof {
        assert(video_data@.take(n as int) =~= video_data@);
        assert(old(video_data)@.take(n as int) =~= old(video_data)@);
    }
}

/// A record put into an ordered collection behind all that start no later
/// and before all that start later leaves the collection ordered, and
/// stands, among the records of its own start, where it would stand had it
/// been put at the end.
proof fn lemma_insert_in_order(s: Seq<VideoMeta>, j: int, x: VideoMeta)
    requires
        in_capture_order(s),
        0 <= j <= s.len(),
        forall|k: int| 0 <= k < j ==> s[k].capture_start <= x.capture_start,
        forall|k: int| j <= k < s.len() ==> s[k].capture_start > x.capture_start,
    ensures
        in_capture_order(s.insert(j, x)),
        same_at_each_start(s.insert(j, x), s.push(x)),
{
    let front = s.subrange(0, j);
    let back = s.subrange(j, s.len() as int);
    let t = s.insert(j, x);
    assert forall|a: int, b: int| 0 <= a <= b < t.len() implies t[a].capture_start
        <= t[b].capture_start by {
        assert(t[a] == if a < j {
            s[a]
        } else if a == j {
            x
        } else {
            s[a - 1]
        });
        assert(t[b] == if b < j {
            s[b]
        } else if b == j {
            x
        } else {
            s[b - 1]
        });
    }
    assert(s.push(x) =~= front + back.push(x));
    assert forall|u: u64| #![trigger started_at(u)]
        t.filter(started_at(u)) == s.push(x).filter(started_at(u)) by {
        let p = started_at(u);
        Seq::filter_distributes_over_add(front.push(x), back, p);
        Seq::filter_distributes_over_add(front, back.push(x), p);
        front.lemma_filter_push(x, p);
        back.lemma_filter_push(x, p);
        if p(x) {
            assert(back.all(|m: VideoMeta| !p(m))) by {
                assert forall|k: int| 0 <= k < back.len() implies !p(#[trigger] back[k]) by {
                    assert(back[k] == s[j + k]);
                }
            }
            back.lemma_all_neg_filter_empty(p);
            assert(front.filter(p).push(x) + back.filter(p) =~= front.filter(p) + back.filter(
                p,
            ).push(x));
        }
    }
}

/// Two collections that agree at each start still agree there when the
/// same record is put at the end of both.
proof fn lemma_push_at_each_start(a: Seq<VideoMeta>, b: Seq<VideoMeta>, x: VideoMeta)
    requires
        same_at_each_start(a, b),
    ensures
        same_at_each_start(a.push(x), b.push(x)),
{
    assert forall|u: u64| #![trigger started_at(u)]
        a.push(x).filter(started_at(u)) == b.push(x).filter(started_at(u)) by {
        a.lemma_filter_push(x, started_at(u));
        b.lemma_filter_push(x, started_at(u));
    }
}

/// What the last record of a collection means for the records of each
/// start: it is the last of those of its own start, and the others are
/// those of the collection without it.
proof fn lemma_last_at_each_start(s: Seq<VideoMeta>)
    requires
        s.len() > 0,
    ensures
        s.filter(started_at(s.last().capture_start)) == s.drop_last().filter(
            started_at(s.last().capture_start),
        ).push(s.last()),
        forall|t: u64|
            #![trigger started_at(t)]
            t != s.last().capture_start ==> s.filter(started_at(t)) == s.drop_last().filter(
                started_at(t),
            ),
{
    reveal(Seq::filter);
}

/// A start at which a collection holds a record is the start of one of its
/// records, and the other way round.
proof fn lemma_start_is_held(s: Seq<VideoMeta>, t: u64)
    ensures
        s.filter(started_at(t)).len() > 0 <==> exists|i: int|
            0 <= i < s.len() && (#[trigger] s[i]).capture_start == t,
{
    let held = s.filter(started_at(t));
    if held.len() > 0 {
        s.lemma_filter_pred(started_at(t), 0);
        assert(held.contains(held[0]));
        s.lemma_filter_contains_rev(started_at(t), held[0]);
        let i = choose|i: int| 0 <= i < s.len() && s[i] == held[0];
        assert(s[i].capture_start == t);
    }
    if exists|i: int| 0 <= i < s.len() && (#[trigger] s[i]).capture_start == t {
        let i = choose|i: int| 0 <= i < s.len() && (#[trigger] s[i]).capture_start == t;
        s.lemma_filter_contains(started_at(t), i);
    }
}

/// There is one way only to put a collection in order: two ordered
/// collections that hold, at each start, the same records in the same order
/// are the same collection.
pub proof fn lemma_order_is_unique(a: Seq<VideoMeta>, b: Seq<VideoMeta>)
    requires
        in_capture_order(a),
        in_capture_order(b),
        same_at_each_start(a, b),
    ensures
        a == b,
    decreases a.len(),
{
    if a.len() == 0 {
        if b.len() > 0 {
            // `b` holds a record at the start of its first, and `a` holds none.
            let t = b[0].capture_start;
            lemma_start_is_held(b, t);
            lemma_start_is_held(a, t);
            assert(a.filter(started_at(t)) == b.filter(started_at(t)));
        }
        assert(a =~= b);
    } else {
        // Each last record starts at the latest start of its collection, and
        // both collections hold a record at either of the two starts.
        let t = a.last().capture_start;
        lemma_start_is_held(a, t);
        lemma_start_is_held(b, t);
        assert(a.filter(started_at(t)) == b.filter(started_at(t)));
        assert(b.len() > 0);
        let u = b.last().capture_start;
        lemma_start_is_held(a, u);
        lemma_start_is_held(b, u);
        assert(a.filter(started_at(u)) == b.filter(started_at(u)));
        assert(t == u);
        // So the two last records are the last of the same records.
        lemma_last_at_each_start(a);
        lemma_last_at_each_start(b);
        let held = a.filter(started_at(t));
        assert(a.last() == held.last());
        assert(b.last() == held.last());
        assert(a.drop_last().filter(started_at(t)) =~= held.drop_last());
        assert(b.drop_last().filter(started_at(t)) =~= held.drop_last());
        assert forall|w: u64| #![trigger started_at(w)]
            a.drop_last().filter(started_at(w)) == b.drop_last().filter(started_at(w)) by {
            assert(a.filter(started_at(w)) == b.filter(started_at(w)));
        }
        lemma_order_is_unique(a.drop_last(), b.drop_last());
        assert(a =~= a.drop_last().push(a.last()));
        assert(b =~= b.drop_last().push(b.last()));
    }
}

} // verus!
