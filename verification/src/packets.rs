//! Which packets of a container are decoded.
//!
//! Only packets of the selected stream count. The first of them whose
//! timestamp reaches the end bound ends the sequence, and is itself left
//! out; of those before it, the ones whose timestamp is unknown or not
//! positive are discarded.

use vstd::prelude::*;

verus! {

/// What the pipeline reads of a packet: the stream it belongs to and its
/// presentation timestamp in that stream's raw units, if it has one.
#[derive(Clone, Copy, Debug, PartialEq, Eq, Structural)]
pub struct PacketMeta {
    pub stream: usize,
    pub pts: Option<i64>,
}

/// What is done with a packet.
#[derive(Clone, Copy, Debug, PartialEq, Eq, Structural)]
pub enum PacketAction {
    /// The packet belongs to another stream.
    Ignore,
    /// The packet's timestamp is unknown or not positive: it is discarded.
    Skip,
    /// The packet is handed to the decoder.
    Decode,
    /// The packet has reached the end bound: reading ends before it.
    Stop,
}

/// A packet of the selected stream whose timestamp has reached the end bound.
pub open spec fn spec_reaches_end(packet: PacketMeta, stream_idx: usize, end: Option<i64>) -> bool {
    &&& packet.stream == stream_idx
    &&& end.is_some()
    &&& packet.pts.is_some()
    &&& packet.pts.unwrap() >= end.unwrap()
}

/// The action for one packet, taken by itself.
pub open spec fn spec_classify(stream_idx: usize, end: Option<i64>, packet: PacketMeta)
    -> PacketAction {
    if packet.stream != stream_idx {
        PacketAction::Ignore
    } else if spec_reaches_end(packet, stream_idx, end) {
        PacketAction::Stop
    } else if packet.pts.is_some() && packet.pts.unwrap() > 0 {
        PacketAction::Decode
    } else {
        PacketAction::Skip
    }
}

/// The packet at `i` is decoded: it is fit to be, and no packet before it
/// has reached the end bound.
pub open spec fn spec_contributes(
    packets: Seq<PacketMeta>,
    stream_idx: usize,
    end: Option<i64>,
    i: int,
) -> bool {
    &&& 0 <= i < packets.len()
    &&& spec_classify(stream_idx, end, packets[i]) == PacketAction::Decode
    &&& forall|j: int| 0 <= j < i ==> !spec_reaches_end(#[trigger] packets[j], stream_idx, end)
}

/// Decides what is done with one packet, before it is consumed.
pub fn classify_packet(stream_idx: usize, end: Option<i64>, packet: PacketMeta) -> (action:
    PacketAction)
    ensures
        action == spec_classify(stream_idx, end, packet),
{
    if packet.stream != stream_idx {
        return PacketAction::Ignore;
    }
    match packet.pts {
        None => PacketAction::Skip,
        Some(pts) => {
            let at_end: bool = match end {
                Some(e) => pts >= e,
                None => false,
            };
            if at_end {
                PacketAction::Stop
            } else if pts > 0 {
                PacketAction::Decode
            } else {
                PacketAction::Skip
            }
        },
    }
}

/// Walks a sequence of packets in order and returns the positions of those
/// that are decoded, in increasing order.
pub fn select_packets(packets: &Vec<PacketMeta>, stream_idx: usize, end: Option<i64>) -> (selected:
    Vec<usize>)
    ensures
        forall|a: int, b: int| 0 <= a < b < selected@.len() ==> selected@[a] < selected@[b],
        forall|a: int|
            0 <= a < selected@.len() ==> spec_contributes(
                packets@,
                stream_idx,
                end,
                #[trigger] selected@[a] as int,
            ),
        forall|k: int|
            spec_contributes(packets@, stream_idx, end, k) ==> #[trigger] selected@.contains(
                k as usize,
            ),
{
    let mut selected: Vec<usize> = Vec::new();
    let mut i: usize = 0;
    let mut stopped: bool = false;
    while i < packets.len() && !stopped
        invariant
            i <= packets@.len(),
            stopped ==> i < packets@.len() && spec_reaches_end(packets@[i as int], stream_idx, end),
            forall|j: int| 0 <= j < i ==> !spec_reaches_end(#[trigger] packets@[j], stream_idx, end),
            forall|a: int, b: int| 0 <= a < b < selected@.len() ==> selected@[a] < selected@[b],
            forall|a: int|
                0 <= a < selected@.len() ==> (#[trigger] selected@[a]) < i && spec_contributes(
                    packets@,
                    stream_idx,
                    end,
                    selected@[a] as int,
                ),
            forall|k: int|
                0 <= k < i && spec_contributes(packets@, stream_idx, end, k)
                    ==> #[trigger] selected@.contains(k as usize),
        decreases packets@.len() - i + if stopped { 0int } else { 1int },
    {
        let action = classify_packet(stream_idx, end, packets[i]);
        match action {
            PacketAction::Stop => {
                stopped = true;
            },
            PacketAction::Decode => {
                let ghost before = selected@;
                selected.push(i);
                proof {
                    assert forall|k: int|
                        0 <= k < i + 1 && spec_contributes(
                            packets@,
                            stream_idx,
                            end,
                            k,
                        ) implies #[trigger] selected@.contains(k as usize) by {
                        if k < i {
                            assert(before.contains(k as usize));
                            let a = choose|a: int| 0 <= a < before.len() && before[a] == k as usize;
                            assert(selected@[a] == k as usize);
                        } else {
                            assert(selected@[before.len() as int] == k as usize);
                        }
                    }
                }
                i += 1;
            },
            _ => {
                i += 1;
            },
        }
    }
    selected
}

/// A decoded packet belongs to the selected stream, carries a positive
/// timestamp, and lies before the end bound where there is one.
pub proof fn lemma_contributing_packet(
    packets: Seq<PacketMeta>,
    stream_idx: usize,
    end: Option<i64>,
    i: int,
)
    requires
        spec_contributes(packets, stream_idx, end, i),
    ensures
        packets[i].stream == stream_idx,
        packets[i].pts.is_some(),
        packets[i].pts.unwrap() > 0,
        end.is_some() ==> packets[i].pts.unwrap() < end.unwrap(),
{
}

/// Once a packet of the selected stream has reached the end bound, neither
/// it nor any packet after it is decoded.
pub proof fn lemma_nothing_after_end(
    packets: Seq<PacketMeta>,
    stream_idx: usize,
    end: Option<i64>,
    stop: int,
    i: int,
)
    requires
        0 <= stop <= i < packets.len(),
        spec_reaches_end(packets[stop], stream_idx, end),
    ensures
        !spec_contributes(packets, stream_idx, end, i),
{
}

} // verus!
