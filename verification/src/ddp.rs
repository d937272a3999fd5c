//! DDP (Distributed Display Protocol) framing of a colour frame into UDP packets.
//!
//! Only RGB payloads are produced, since most LED controllers accept them.
use vstd::prelude::*;
use crate::color::{RGBPixel, rgb_bytes, push_rgb_range};
use crate::configs::{IssueView, ValidationError, ValidationWarning, result_view, warning_view};
use crate::wled_drgb::{socket_address, socket_address_text, unreachable_ip, unreachable_ip_error, resolution_view};

verus! {

/// Kind of data a DDP packet carries.
#[derive(Clone, Copy, Debug, PartialEq, Eq, Structural)]
pub enum DataType {
    Default,
    RGB,
    RGBW,
    HSV,
}

/// Wire code of a data type.
pub open spec fn data_type_code(t: DataType) -> u8 {
    match t {
        DataType::Default => 0x00,
        DataType::RGB => 0x01,
        DataType::RGBW => 0x02,
        DataType::HSV => 0x03,
    }
}

impl DataType {
    /// Wire code of the data type.
    pub fn code(&self) -> (c: u8)
        ensures
            c == data_type_code(*self),
    {
        match self {
            DataType::Default => 0x00,
            DataType::RGB => 0x01,
            DataType::RGBW => 0x02,
            DataType::HSV => 0x03,
        }
    }
}

/// Header of a DDP packet.
#[derive(Clone, Copy, Debug, PartialEq, Eq, Structural)]
pub struct PackageHeader {
    pub flags: u8,
    pub sequence_number: u8,
    pub data_type: u8,
    pub device_id: u8,
    pub offset: u32,
    pub data_length: u16,
}

pub const DEFAULT_MTU: u16 = 1500;
pub const APPROX_NETWORK_STACK_COSTS: u16 = 50;
pub const DEFAULT_PORT: u16 = 4048;
pub const DEFAULT_MAX_FPS: u16 = 30;

/// The flags byte with the push flag (bit 7) set or cleared.
pub open spec fn with_push(flags: u8, push: bool) -> u8 {
    if push {
        flags | 0x80
    } else {
        flags & 0x7f
    }
}

/// Big-endian bytes of a 32-bit value.
pub open spec fn be_u32(x: u32) -> Seq<u8> {
    seq![
        (x / 0x100_0000) as u8,
        ((x / 0x1_0000) % 0x100) as u8,
        ((x / 0x100) % 0x100) as u8,
        (x % 0x100) as u8,
    ]
}

/// Big-endian bytes of a 16-bit value.
pub open spec fn be_u16(x: u16) -> Seq<u8> {
    seq![(x / 0x100) as u8, (x % 0x100) as u8]
}

/// The ten bytes a header occupies on the wire.
pub open spec fn header_bytes(h: PackageHeader) -> Seq<u8> {
    seq![h.flags, h.sequence_number, h.data_type, h.device_id] + be_u32(h.offset) + be_u16(
        h.data_length,
    )
}

/// The header a fresh output starts with.
pub open spec fn initial_header() -> PackageHeader {
    PackageHeader {
        flags: 0b0100_0000,
        sequence_number: 1,
        data_type: data_type_code(DataType::RGB),
        device_id: 0x01,
        offset: 0,
        data_length: 0,
    }
}

/// Sequence number that follows `s`: 1, 2, ..., 15, 1, ...
pub open spec fn next_sequence(s: u8) -> u8 {
    ((s % 15) + 1) as u8
}

impl PackageHeader {
    /// Header of version 1 with push cleared, sequence 1, RGB data for device 1.
    pub fn new() -> (h: Self)
        ensures
            h == initial_header(),
    {
        Self {
            flags: 0b0100_0000,
            sequence_number: 1,
            data_type: DataType::RGB.code(),
            device_id: 0x01,
            offset: 0,
            data_length: 0,
        }
    }

    /// Set or clear the push flag (bit 7 of `flags`).
    pub fn set_push_flag(&mut self, is_push: bool)
        ensures
            *final(self) == (PackageHeader { flags: with_push(old(self).flags, is_push), ..*old(self) }),
    {
        if is_push {
            self.flags = self.flags | 0x80;
        } else {
            self.flags = self.flags & 0x7f;
        }
    }

    /// Append the header to `buf` in network byte order.
    pub fn write_to_buffer(&self, buf: &mut Vec<u8>)
        ensures
            final(buf)@ == old(buf)@ + header_bytes(*self),
    {
        buf.push(self.flags);
        buf.push(self.sequence_number);
        buf.push(self.data_type);
        buf.push(self.device_id);
        let o = self.offset;
        buf.push((o / 0x100_0000) as u8);
        buf.push(((o / 0x1_0000) % 0x100) as u8);
        buf.push(((o / 0x100) % 0x100) as u8);
        buf.push((o % 0x100) as u8);
        let l = self.data_length;
        buf.push((l / 0x100) as u8);
        buf.push((l % 0x100) as u8);
        assert(final(buf)@ =~= old(buf)@ + header_bytes(*self));
    }

    /// Advance the packet sequence number.
    pub fn tick(&mut self)
        ensures
            *final(self) == (PackageHeader {
                sequence_number: next_sequence(old(self).sequence_number),
                ..*old(self)
            }),
    {
        self.sequence_number = (self.sequence_number % 15) + 1;
    }
}

/// The sequence number always stays within 1..=15, and counts up through it cyclically.
pub proof fn lemma_sequence_cycle(s: u8)
    ensures
        1 <= next_sequence(s) <= 15,
        1 <= s < 15 ==> next_sequence(s) == s + 1,
        s == 15 ==> next_sequence(s) == 1,
{
}

/// Setting the push flag touches bit 7 only, and bit 7 then reads as the flag.
pub proof fn lemma_push_flag_bit(flags: u8, push: bool)
    ensures
        with_push(flags, push) & 0x7f == flags & 0x7f,
        (with_push(flags, push) & 0x80 != 0) == push,
        with_push(with_push(flags, false), push) == with_push(flags, push),
{
    assert((flags | 0x80) & 0x7f == flags & 0x7f) by (bit_vector);
    assert((flags & 0x7f) & 0x7f == flags & 0x7f) by (bit_vector);
    assert((flags | 0x80) & 0x80 != 0) by (bit_vector);
    assert((flags & 0x7f) & 0x80 == 0) by (bit_vector);
    assert((flags & 0x7f) | 0x80 == flags | 0x80) by (bit_vector);
}

/// Header of one packet of a frame sent with header `h`.
pub open spec fn packet_header(h: PackageHeader, pixels: nat, last: bool, offset: int) -> PackageHeader {
    PackageHeader {
        flags: with_push(h.flags, last),
        sequence_number: h.sequence_number,
        data_type: h.data_type,
        device_id: h.device_id,
        offset: offset as u32,
        data_length: (pixels * 3) as u16,
    }
}

/// One packet: header, then the pixels of the chunk.
pub open spec fn ddp_packet(h: PackageHeader, chunk: Seq<RGBPixel>, last: bool, offset: int) -> Seq<u8> {
    header_bytes(packet_header(h, chunk.len(), last, offset)) + rgb_bytes(chunk)
}

/// Pixels in the first packet of a frame of `n` pixels, at most `m` per packet.
pub open spec fn first_chunk_len(n: nat, m: nat) -> nat {
    if n < m {
        n
    } else {
        m
    }
}

/// The packets that carry `colors`, `m` pixels per packet, the first at byte `offset`.
pub open spec fn ddp_packets(h: PackageHeader, colors: Seq<RGBPixel>, m: nat, offset: int) -> Seq<Seq<u8>>
    decreases colors.len(),
{
    if colors.len() == 0 || m == 0 {
        Seq::empty()
    } else {
        let k = first_chunk_len(colors.len(), m);
        let rest = colors.skip(k as int);
        seq![ddp_packet(h, colors.take(k as int), rest.len() == 0, offset)] + ddp_packets(
            h,
            rest,
            m,
            offset + 3 * k,
        )
    }
}

/// Pixels in the last packet of a frame of `n > 0` pixels, at most `m > 0` per packet.
pub open spec fn last_chunk_len(n: nat, m: nat) -> nat
    decreases n,
{
    if n <= m || m == 0 {
        n
    } else {
        last_chunk_len((n - m) as nat, m)
    }
}

/// The header an output is left with after framing `n` pixels, `m` per packet.
pub open spec fn header_after_frame(h: PackageHeader, n: nat, m: nat) -> PackageHeader {
    PackageHeader {
        flags: with_push(h.flags, n > 0),
        offset: (3 * n) as u32,
        data_length: if n == 0 {
            h.data_length
        } else {
            (last_chunk_len(n, m) * 3) as u16
        },
        ..h
    }
}

/// Settings of the DDP output.
///
/// - `ip`: address or mDNS name of the strip
/// - `port`: UDP port of the strip
/// - `mtu`: network MTU, to split frames into packets that fit it
/// - `timeout`: time the strip waits for data
pub struct DdpConfig {
    pub ip: String,
    pub port: Option<u16>,
    pub mtu: Option<u16>,
    pub timeout: Option<u8>,
}

/// Largest number of whole pixels that fit a packet for the given MTU.
pub open spec fn max_pixels_for_mtu(mtu: Option<u16>) -> nat {
    ((mtu.unwrap_or(DEFAULT_MTU) - APPROX_NETWORK_STACK_COSTS) / 3) as nat
}

/// The pixels of a full packet fit in what the MTU leaves after the network stack's share,
/// and one more pixel would not.
pub proof fn lemma_max_pixels_fit_mtu(mtu: Option<u16>)
    requires
        mtu.unwrap_or(DEFAULT_MTU) >= APPROX_NETWORK_STACK_COSTS,
    ensures
        3 * max_pixels_for_mtu(mtu) <= mtu.unwrap_or(DEFAULT_MTU) - APPROX_NETWORK_STACK_COSTS,
        3 * (max_pixels_for_mtu(mtu) + 1) > mtu.unwrap_or(DEFAULT_MTU) - APPROX_NETWORK_STACK_COSTS,
{
}

/// The verdict on DDP settings, given the outcome of resolving the address: an address
/// that does not resolve rules them out; a zero time-out and an explicit MTU draw warnings.
pub open spec fn ddp_config_verdict(c: DdpConfig, resolution: Result<(), Seq<char>>) -> Result<Seq<IssueView>, IssueView> {
    let section = "ddp_config"@;
    match resolution {
        Err(reason) => Err(unreachable_ip(section, reason)),
        Ok(_) => {
            let t = if c.timeout.unwrap_or(100) == 0 {
                seq![IssueView::InvalidValue(section, "timeout"@, "With zero timeout led can work with errors."@)]
            } else {
                Seq::empty()
            };
            let m = if c.mtu is Some {
                seq![IssueView::InvalidValue(section, "mtu"@, "Setting another MTU can break protocol work. Be careful with it."@)]
            } else {
                Seq::empty()
            };
            Ok(t + m)
        },
    }
}

impl DdpConfig {
    /// `host:port` the output sends to (port 4048 when unset).
    pub fn address_text(&self) -> (r: String)
        ensures
            r@ == socket_address(self.ip@, self.port, DEFAULT_PORT),
    {
        socket_address_text(&self.ip, self.port, DEFAULT_PORT)
    }

    /// `host:port` that validation resolves (the port defaults to the WLED DRGB port there).
    pub fn validation_address_text(&self) -> (r: String)
        ensures
            r@ == socket_address(self.ip@, self.port, crate::wled_drgb::DEFAULT_PORT),
    {
        socket_address_text(&self.ip, self.port, crate::wled_drgb::DEFAULT_PORT)
    }

    /// Check the settings, given the outcome of resolving `validation_address_text()`
    /// (the error text when it failed).
    pub fn validate_with(&self, resolution: Result<(), String>) -> (r: Result<Vec<ValidationWarning>, ValidationError>)
        ensures
            result_view(r) == ddp_config_verdict(*self, resolution_view(resolution)),
    {
        let section = "ddp_config";
        match resolution {
            Err(reason) => {
                return Err(unreachable_ip_error(section, reason.as_str()));
            },
            Ok(_) => {},
        }
        let mut result: Vec<ValidationWarning> = Vec::new();
        let timeout = match self.timeout {
            Some(t) => t,
            None => 100,
        };
        if timeout == 0 {
            result.push(ValidationWarning::InvalidValue {
                section,
                field: "timeout",
                message: String::from_str("With zero timeout led can work with errors."),
            });
        }
        if self.mtu.is_some() {
            result.push(ValidationWarning::InvalidValue {
                section,
                field: "mtu",
                message: String::from_str("Setting another MTU can break protocol work. Be careful with it."),
            });
        }
        proof {
            let expected = ddp_config_verdict(*self, resolution_view(resolution))->Ok_0;
            assert(Seq::new(result@.len(), |i: int| warning_view(result@[i])) =~= expected);
        }
        Ok(result)
    }
}

/// Framing state of a DDP output: how many pixels go in a packet and the running header.
pub struct Ddp {
    pub max_pixels_per_package: usize,
    pub header: PackageHeader,
}

impl Ddp {
    /// Framing state for `config`: as many whole pixels per packet as the MTU leaves room for.
    pub fn new(config: &DdpConfig) -> (d: Self)
        requires
            config.mtu.unwrap_or(DEFAULT_MTU) >= APPROX_NETWORK_STACK_COSTS,
        ensures
            d.max_pixels_per_package == max_pixels_for_mtu(config.mtu),
            d.header == initial_header(),
    {
        let mtu = match config.mtu {
            Some(v) => v,
            None => DEFAULT_MTU,
        };
        let max_pixels_per_package: usize = ((mtu - APPROX_NETWORK_STACK_COSTS) / 3) as usize;
        Self { max_pixels_per_package, header: PackageHeader::new() }
    }

    /// Close a frame of `packets` packets of which the first `sent` went out: the sequence
    /// number advances only when every packet was sent; a frame cut short by a failed send
    /// keeps its sequence number.
    pub fn end_frame(&mut self, sent: usize, packets: usize)
        requires
            sent <= packets,
        ensures
            final(self).max_pixels_per_package == old(self).max_pixels_per_package,
            final(self).header == if sent == packets {
                PackageHeader {
                    sequence_number: next_sequence(old(self).header.sequence_number),
                    ..old(self).header
                }
            } else {
                old(self).header
            },
    {
        if sent == packets {
            self.header.tick();
        }
    }

    /// Split a frame into DDP packets, in the order they are to be sent.
    ///
    /// Every packet but the last has the push flag cleared; offsets count the
    /// payload bytes sent before the packet. The header is left as after sending
    /// the frame; the sequence number is advanced separately, by `end_frame`, once every
    /// packet went out.
    pub fn frame_packets(&mut self, colors: &[RGBPixel]) -> (packets: Vec<Vec<u8>>)
        requires
            old(self).max_pixels_per_package > 0,
            3 * colors@.len() <= u32::MAX,
        ensures
            packets@.len() == ddp_packets(
                old(self).header,
                colors@,
                old(self).max_pixels_per_package as nat,
                0,
            ).len(),
            forall|j: int|
                0 <= j < packets@.len() ==> #[trigger] packets@[j]@ == ddp_packets(
                    old(self).header,
                    colors@,
                    old(self).max_pixels_per_package as nat,
                    0,
                )[j],
            final(self).max_pixels_per_package == old(self).max_pixels_per_package,
            final(self).header == header_after_frame(
                old(self).header,
                colors@.len(),
                old(self).max_pixels_per_package as nat,
            ),
    {
        let ghost h = self.header;
        let m = self.max_pixels_per_package;
        let n = colors.len();
        let ghost full = ddp_packets(h, colors@, m as nat, 0);
        self.header.set_push_flag(false);
        self.header.offset = 0;
        proof {
            lemma_push_flag_bit(h.flags, false);
            assert(colors@.skip(0) =~= colors@);
        }
        let mut packets: Vec<Vec<u8>> = Vec::new();
        let ghost mut done: Seq<Seq<u8>> = Seq::empty();
        let mut start: usize = 0;
        while start < n
            invariant
                m == self.max_pixels_per_package,
                m > 0,
                n == colors@.len(),
                3 * n <= u32::MAX,
                start <= n,
                full == ddp_packets(h, colors@, m as nat, 0),
                done + ddp_packets(h, colors@.skip(start as int), m as nat, 3 * start) == full,
                packets@.len() == done.len(),
                forall|j: int| 0 <= j < done.len() ==> #[trigger] packets@[j]@ == done[j],
                self.header.sequence_number == h.sequence_number,
                self.header.data_type == h.data_type,
                self.header.device_id == h.device_id,
                self.header.offset == 3 * start,
                self.header.flags == with_push(h.flags, start == n && n > 0),
                start == 0 ==> self.header.data_length == h.data_length,
                start < n ==> last_chunk_len(n as nat, m as nat) == last_chunk_len(
                    (n - start) as nat,
                    m as nat,
                ),
                start == n && n > 0 ==> self.header.data_length == (last_chunk_len(
                    n as nat,
                    m as nat,
                ) * 3) as u16,
            decreases n - start,
        {
            let remaining = n - start;
            let len = if remaining < m {
                remaining
            } else {
                m
            };
            let end = start + len;
            let last = end == n;
            if last {
                self.header.set_push_flag(true);
                proof {
                    lemma_push_flag_bit(h.flags, true);
                }
            }
            self.header.data_length = (len * 3) as u16;
            let mut payload: Vec<u8> = Vec::new();
            self.header.write_to_buffer(&mut payload);
            push_rgb_range(&mut payload, colors, start, end);
            proof {
                let rest = colors@.skip(start as int);
                assert(rest.len() > 0);
                assert(first_chunk_len(rest.len(), m as nat) == len);
                assert(rest.take(len as int) =~= colors@.subrange(start as int, end as int));
                assert(rest.skip(len as int) =~= colors@.skip(end as int));
                assert(self.header == packet_header(h, len as nat, last, 3 * start));
                assert(payload@ =~= ddp_packet(
                    h,
                    colors@.subrange(start as int, end as int),
                    last,
                    3 * start,
                ));
                let tail = ddp_packets(h, colors@.skip(end as int), m as nat, 3 * end);
                assert(ddp_packets(h, rest, m as nat, 3 * start) =~= seq![payload@] + tail);
                assert(done.push(payload@) + tail =~= done + (seq![payload@] + tail));
                if !last {
                    assert(remaining > m);
                    assert(last_chunk_len(remaining as nat, m as nat) == last_chunk_len(
                        (remaining - m) as nat,
                        m as nat,
                    ));
                }
                done = done.push(payload@);
            }
            packets.push(payload);
            self.header.offset = self.header.offset + (len * 3) as u32;
            start = end;
        }
        packets
    }
}

/// Reassembling a frame: the payloads of its packets, headers stripped, are the frame's
/// pixel bytes in order, and each packet's offset field counts the bytes before it.
pub proof fn lemma_ddp_packets_reassemble(h: PackageHeader, colors: Seq<RGBPixel>, m: nat, offset: int)
    requires
        m > 0,
    ensures
        ddp_payloads(ddp_packets(h, colors, m, offset)) == rgb_bytes(colors),
    decreases colors.len(),
{
    let ps = ddp_packets(h, colors, m, offset);
    if colors.len() == 0 {
        assert(ps =~= Seq::<Seq<u8>>::empty());
        assert(rgb_bytes(colors) =~= Seq::<u8>::empty());
    } else {
        let k = first_chunk_len(colors.len(), m);
        let rest = colors.skip(k as int);
        let tail = ddp_packets(h, rest, m, offset + 3 * k);
        lemma_ddp_packets_reassemble(h, rest, m, offset + 3 * k);
        let p = ddp_packet(h, colors.take(k as int), rest.len() == 0, offset);
        assert(ps =~= seq![p] + tail);
        assert((seq![p] + tail).drop_first() =~= tail);
        assert(p.skip(10) =~= rgb_bytes(colors.take(k as int)));
        crate::color::lemma_rgb_bytes_concat(colors.take(k as int), rest);
        assert(colors.take(k as int) + rest =~= colors);
    }
}


/// In a frame only the last packet carries the push flag, each packet starts with the
/// header fields of the running header, and each carries between one and `m` whole pixels
/// (so it fits the MTU the pixel count was derived from).
pub proof fn lemma_ddp_packets_push_last(h: PackageHeader, colors: Seq<RGBPixel>, m: nat, offset: int, j: int)
    requires
        m > 0,
        0 <= j < ddp_packets(h, colors, m, offset).len(),
    ensures
        colors.len() > 0,
        13 <= ddp_packets(h, colors, m, offset)[j].len() <= 10 + 3 * m,
        ddp_packets(h, colors, m, offset)[j][0] == with_push(
            h.flags,
            j == ddp_packets(h, colors, m, offset).len() - 1,
        ),
        ddp_packets(h, colors, m, offset)[j][1] == h.sequence_number,
        (ddp_packets(h, colors, m, offset)[j][0] & 0x80 != 0) == (j == ddp_packets(
            h,
            colors,
            m,
            offset,
        ).len() - 1),
    decreases colors.len(),
{
    let ps = ddp_packets(h, colors, m, offset);
    let k = first_chunk_len(colors.len(), m);
    let rest = colors.skip(k as int);
    let tail = ddp_packets(h, rest, m, offset + 3 * k);
    let p = ddp_packet(h, colors.take(k as int), rest.len() == 0, offset);
    assert(ps =~= seq![p] + tail);
    crate::color::lemma_rgb_bytes_len(colors.take(k as int));
    if rest.len() > 0 {
        assert(tail.len() > 0);
    } else {
        assert(tail =~= Seq::<Seq<u8>>::empty());
    }
    if j > 0 {
        lemma_ddp_packets_push_last(h, rest, m, offset + 3 * k, j - 1);
        assert(ps[j] == tail[j - 1]);
    }
    lemma_push_flag_bit(h.flags, j == ps.len() - 1);
}

/// Concatenated payloads (packets without their ten-byte headers).
pub open spec fn ddp_payloads(packets: Seq<Seq<u8>>) -> Seq<u8>
    decreases packets.len(),
{
    if packets.len() == 0 {
        Seq::empty()
    } else {
        packets[0].skip(10) + ddp_payloads(packets.drop_first())
    }
}

} // verus!
