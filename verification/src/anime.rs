//! The matrix display: device variants, pixel buffers and USB packets.

use vstd::prelude::*;

use crate::error::AnimeError;
use crate::text::str_eq;

verus! {

/// First byte of the payload inside a packet.
pub const BLOCK_START: usize = 7;

/// One past the last byte of the payload inside a packet.
pub const BLOCK_END: usize = 634;

/// Number of payload bytes carried by one packet.
pub const PANE_LEN: usize = 627;

/// Length of one USB packet.
pub const PACKET_LEN: usize = 640;

/// The physical matrix variants.
#[derive(Debug, Clone, Copy, PartialEq, Eq, Structural)]
pub enum AnimeType {
    GA401,
    GA402,
    GU604,
    Unknown,
}

impl AnimeType {
    /// Width of diagonal images.
    pub open spec fn spec_width(self) -> nat {
        match self {
            AnimeType::GU604 => 70,
            _ => 74,
        }
    }

    /// Height of diagonal images.
    pub open spec fn spec_height(self) -> nat {
        match self {
            AnimeType::GA401 => 36,
            AnimeType::GU604 => 43,
            _ => 39,
        }
    }

    /// Number of packets that carry one frame.
    pub open spec fn spec_panes(self) -> nat {
        match self {
            AnimeType::GA401 => 2,
            _ => 3,
        }
    }

    /// Number of usable payload bytes of one frame.
    pub open spec fn spec_data_length(self) -> nat {
        self.spec_panes() * 627
    }

    /// The width of diagonal images
    pub fn width(&self) -> (w: usize)
        ensures
            w == self.spec_width(),
    {
        match self {
            AnimeType::GU604 => 70,
            _ => 74,
        }
    }

    /// The height of diagonal images
    pub fn height(&self) -> (h: usize)
        ensures
            h == self.spec_height(),
    {
        match self {
            AnimeType::GA401 => 36,
            AnimeType::GU604 => 43,
            _ => 39,
        }
    }

    /// The number of packets that one frame is split into
    pub fn panes(&self) -> (n: usize)
        ensures
            n == self.spec_panes(),
    {
        match self {
            AnimeType::GA401 => 2,
            _ => 3,
        }
    }

    /// The length of usable data for this type
    pub fn data_length(&self) -> (len: usize)
        ensures
            len == self.spec_data_length(),
    {
        match self {
            AnimeType::GA401 => PANE_LEN * 2,
            _ => PANE_LEN * 3,
        }
    }
}

/// The variant that a model name stands for; `Unknown` for any other text.
pub open spec fn spec_anime_type_from_name(name: Seq<char>) -> AnimeType {
    if name == "ga401"@ || name == "GA401"@ {
        AnimeType::GA401
    } else if name == "ga402"@ || name == "GA402"@ {
        AnimeType::GA402
    } else if name == "gu604"@ || name == "GU604"@ {
        AnimeType::GU604
    } else {
        AnimeType::Unknown
    }
}

impl AnimeType {
    /// Reads a variant from its model name, all in small or all in capital
    /// letters. Any other text gives `Unknown`, never an error.
    pub fn from_str(s: &str) -> (res: Result<AnimeType, AnimeError>)
        ensures
            res == Ok::<AnimeType, AnimeError>(spec_anime_type_from_name(s@)),
    {
        if str_eq(s, "ga401") || str_eq(s, "GA401") {
            Ok(AnimeType::GA401)
        } else if str_eq(s, "ga402") || str_eq(s, "GA402") {
            Ok(AnimeType::GA402)
        } else if str_eq(s, "gu604") || str_eq(s, "GU604") {
            Ok(AnimeType::GU604)
        } else {
            Ok(AnimeType::Unknown)
        }
    }
}

/// The bytes that open the packet in slot `slot`.
pub open spec fn spec_prefix(slot: int) -> Seq<u8> {
    if slot == 0 {
        seq![0x5eu8, 0xc0u8, 0x02u8, 0x01u8, 0x00u8, 0x73u8, 0x02u8]
    } else if slot == 1 {
        seq![0x5eu8, 0xc0u8, 0x02u8, 0x74u8, 0x02u8, 0x73u8, 0x02u8]
    } else {
        seq![0x5eu8, 0xc0u8, 0x02u8, 0xe7u8, 0x04u8, 0x73u8, 0x02u8]
    }
}

/// The packet in slot `slot` for the payload `data`: the slot's prefix, the
/// slot's share of the payload, and zeroes up to the packet's length.
pub open spec fn spec_packet(data: Seq<u8>, slot: int) -> Seq<u8> {
    Seq::new(
        640,
        |i: int|
            if i < 7 {
                spec_prefix(slot)[i]
            } else if i < 634 {
                data[slot * 627 + (i - 7)]
            } else {
                0u8
            },
    )
}

/// The packets for a payload of `panes` panes, slot by slot.
pub open spec fn spec_packets(data: Seq<u8>, panes: nat) -> Seq<Seq<u8>> {
    Seq::new(panes, |slot: int| spec_packet(data, slot))
}

/// The payload that a sequence of packets carries: bytes 7 to 633 of each
/// packet, in order.
pub open spec fn spec_payload(packets: Seq<Seq<u8>>) -> Seq<u8> {
    Seq::new(packets.len() * 627, |k: int| packets[k / 627][7 + k % 627])
}

/// The views of a vector of packets.
pub open spec fn packet_views(packets: Seq<[u8; 640]>) -> Seq<Seq<u8>> {
    Seq::new(packets.len(), |i: int| packets[i]@)
}

/// First packet is for GA401 + GA402
pub fn usb_prefix1() -> (p: [u8; 7])
    ensures
        p@ == spec_prefix(0),
{
    let p: [u8; 7] = [0x5e, 0xc0, 0x02, 0x01, 0x00, 0x73, 0x02];
    assert(p@ =~= spec_prefix(0));
    p
}

/// Second packet is for GA401 + GA402
pub fn usb_prefix2() -> (p: [u8; 7])
    ensures
        p@ == spec_prefix(1),
{
    let p: [u8; 7] = [0x5e, 0xc0, 0x02, 0x74, 0x02, 0x73, 0x02];
    assert(p@ =~= spec_prefix(1));
    p
}

/// Third packet is for GA402 matrix
pub fn usb_prefix3() -> (p: [u8; 7])
    ensures
        p@ == spec_prefix(2),
{
    let p: [u8; 7] = [0x5e, 0xc0, 0x02, 0xe7, 0x04, 0x73, 0x02];
    assert(p@ =~= spec_prefix(2));
    p
}

/// The minimal data that travels to the device: the intensity bytes of one
/// frame and the variant they are meant for.
#[derive(Debug)]
pub struct AnimeDataBuffer {
    data: Vec<u8>,
    anime: AnimeType,
}

impl AnimeDataBuffer {
    /// The bytes held.
    pub closed spec fn spec_data(&self) -> Seq<u8> {
        self.data@
    }

    /// The variant that the bytes are meant for.
    pub closed spec fn spec_anime(&self) -> AnimeType {
        self.anime
    }

    /// The byte count matches the variant.
    pub open spec fn wf(&self) -> bool {
        self.spec_data().len() == self.spec_anime().spec_data_length()
    }

    /// An all-zero buffer of the right length for `anime`.
    pub fn new(anime: AnimeType) -> (buffer: Self)
        ensures
            buffer.wf(),
            buffer.spec_anime() == anime,
            buffer.spec_data() == Seq::new(anime.spec_data_length(), |i: int| 0u8),
    {
        let len = anime.data_length();
        let mut data: Vec<u8> = Vec::with_capacity(len);
        let mut i: usize = 0;
        while i < len
            invariant
                i <= len,
                data@ == Seq::new(i as nat, |k: int| 0u8),
            decreases len - i,
        {
            data.push(0u8);
            i += 1;
            assert(data@ =~= Seq::new(i as nat, |k: int| 0u8));
        }
        AnimeDataBuffer { data, anime }
    }

    /// The variant that the bytes are meant for.
    pub fn anime(&self) -> (anime: AnimeType)
        ensures
            anime == self.spec_anime(),
    {
        self.anime
    }

    /// Get the inner data buffer
    pub fn data(&self) -> (bytes: &[u8])
        ensures
            bytes@ == self.spec_data(),
    {
        self.data.as_slice()
    }

    /// Get a mutable slice of the inner buffer
    pub fn data_mut(&mut self) -> (bytes: &mut [u8])
        ensures
            bytes@ == old(self).spec_data(),
            final(self).spec_data() == final(bytes)@,
            final(self).spec_anime() == old(self).spec_anime(),
    {
        self.data.as_mut_slice()
    }

    /// Create from a vector of bytes, which must have the variant's length.
    pub fn from_vec(anime: AnimeType, data: Vec<u8>) -> (res: Result<Self, AnimeError>)
        ensures
            data@.len() == anime.spec_data_length() <==> res is Ok,
            res matches Ok(buffer) ==> buffer.wf() && buffer.spec_anime() == anime
                && buffer.spec_data() == data@,
            res matches Err(e) ==> e == AnimeError::DataBufferLength,
    {
        if data.len() != anime.data_length() {
            return Err(AnimeError::DataBufferLength);
        }
        Ok(AnimeDataBuffer { data, anime })
    }

    /// A buffer as it arrived from elsewhere: the length is not looked at
    /// here, it is checked when the buffer is turned into packets.
    pub fn from_parts(anime: AnimeType, data: Vec<u8>) -> (buffer: Self)
        ensures
            buffer.spec_anime() == anime,
            buffer.spec_data() == data@,
    {
        AnimeDataBuffer { data, anime }
    }
}

impl Clone for AnimeDataBuffer {
    fn clone(&self) -> (copy: Self)
        ensures
            copy.spec_data() == self.spec_data(),
            copy.spec_anime() == self.spec_anime(),
    {
        AnimeDataBuffer { data: self.data.clone(), anime: self.anime }
    }
}

/// Unfolding the payload of the packets made from `data` gives `data` back.
pub proof fn lemma_payload_of_packets(data: Seq<u8>, panes: nat)
    requires
        data.len() == panes * 627,
    ensures
        spec_packets(data, panes).len() == panes,
        spec_payload(spec_packets(data, panes)) == data,
{
    let packets = spec_packets(data, panes);
    let payload = spec_payload(packets);
    assert(payload.len() == data.len());
    assert forall|k: int| 0 <= k < payload.len() implies payload[k] == data[k] by {
        let slot = k / 627;
        let off = k % 627;
        assert(0 <= slot < panes && 0 <= off < 627 && slot * 627 + off == k) by (nonlinear_arith)
            requires
                0 <= k < panes * 627,
                slot == k / 627,
                off == k % 627,
        ;
        assert(packets[slot] == spec_packet(data, slot));
        assert(spec_packet(data, slot)[7 + off] == data[slot * 627 + (7 + off - 7)]);
    }
    assert(payload =~= data);
}

/// Builds the packet for slot `slot` from the payload `data`.
fn build_packet(data: &Vec<u8>, slot: usize) -> (packet: [u8; 640])
    requires
        slot < 3,
        (slot + 1) * 627 <= data@.len(),
    ensures
        packet@ == spec_packet(data@, slot as int),
{
    let prefix = if slot == 0 {
        usb_prefix1()
    } else if slot == 1 {
        usb_prefix2()
    } else {
        usb_prefix3()
    };
    let base: usize = slot * PANE_LEN;
    let mut packet: [u8; 640] = [0u8; 640];
    let mut i: usize = 0;
    while i < BLOCK_START
        invariant
            i <= 7,
            prefix@ == spec_prefix(slot as int),
            forall|k: int| 0 <= k < i ==> packet@[k] == spec_prefix(slot as int)[k],
            forall|k: int| i <= k < 640 ==> packet@[k] == 0u8,
        decreases 7 - i,
    {
        packet[i] = prefix[i];
        i += 1;
    }
    let mut j: usize = 0;
    while j < PANE_LEN
        invariant
            j <= 627,
            slot < 3,
            base == slot * 627,
            (slot + 1) * 627 <= data@.len(),
            forall|k: int| 0 <= k < 7 ==> packet@[k] == spec_prefix(slot as int)[k],
            forall|k: int| 7 <= k < 7 + j ==> packet@[k] == data@[slot * 627 + (k - 7)],
            forall|k: int| 7 + j <= k < 640 ==> packet@[k] == 0u8,
        decreases 627 - j,
    {
        packet[BLOCK_START + j] = data[base + j];
        j += 1;
    }
    assert(packet@ =~= spec_packet(data@, slot as int));
    packet
}

/// Splits a frame into the USB packets that carry it to the device.
///
/// Fails when the buffer's byte count is not that of its variant. Otherwise
/// there is one packet per pane, each opened by its slot's prefix and
/// carrying its pane of the payload in bytes 7 to 633.
pub fn encode(buffer: AnimeDataBuffer) -> (res: Result<Vec<[u8; 640]>, AnimeError>)
    ensures
        buffer.wf() <==> res is Ok,
        res matches Err(e) ==> e == AnimeError::DataBufferLength,
        res matches Ok(packets) ==> {
            &&& packets@.len() == buffer.spec_anime().spec_panes()
            &&& packet_views(packets@) == spec_packets(
                buffer.spec_data(),
                buffer.spec_anime().spec_panes(),
            )
            &&& forall|slot: int|
                0 <= slot < packets@.len() ==> (#[trigger] packets@[slot])@ == spec_packet(
                    buffer.spec_data(),
                    slot,
                )
            &&& spec_payload(packet_views(packets@)) == buffer.spec_data()
        },
{
    if buffer.data.len() != buffer.anime.data_length() {
        return Err(AnimeError::DataBufferLength);
    }
    let panes = buffer.anime.panes();
    let mut packets: Vec<[u8; 640]> = Vec::with_capacity(panes);
    let mut slot: usize = 0;
    while slot < panes
        invariant
            slot <= panes <= 3,
            buffer.data@.len() == panes * 627,
            packets@.len() == slot,
            forall|s: int| 0 <= s < slot ==> (#[trigger] packets@[s])@ == spec_packet(buffer.data@, s),
        decreases panes - slot,
    {
        let packet = build_packet(&buffer.data, slot);
        packets.push(packet);
        slot += 1;
    }
    proof {
        assert(packet_views(packets@) =~= spec_packets(buffer.data@, panes as nat));
        lemma_payload_of_packets(buffer.data@, panes as nat);
    }
    Ok(packets)
}

} // verus!
