//! What the LED outputs have in common: device events and the byte streams they send.
use vstd::prelude::*;
use crate::color::{RGBPixel, rgb_bytes, push_rgb_bytes};

verus! {

/// Events reported by an output device.
#[derive(Clone, Debug, PartialEq, Eq)]
pub enum HardwareEvents {
    Disconnected,
    RetryNeeded,
    NoAccess,
    InternalError(String),
}

/// A device that shows colour frames.
pub trait HardwareOutput {
    /// Send a frame of colours to the device; on failure, the event that explains it.
    fn send_colors(&mut self, colors: &[RGBPixel]) -> Result<(), HardwareEvents>;

    /// Tell the device that the daemon is shutting down; on failure, a message.
    fn send_shutdown_signal(&mut self) -> Result<(), String>;
}

/// Kinds of I/O failure an output can meet (the `std::io::ErrorKind` values that matter
/// here; every other kind is `Other`).
#[derive(Clone, Copy, Debug, PartialEq, Eq, Structural)]
pub enum IoErrorKind {
    BrokenPipe,
    NotConnected,
    ConnectionReset,
    ConnectionAborted,
    AddrNotAvailable,
    NotFound,
    PermissionDenied,
    Interrupted,
    TimedOut,
    WouldBlock,
    ResourceBusy,
    ConnectionRefused,
    AddrInUse,
    Other,
}

/// Event for an I/O failure of a network or serial output: lost device, missing rights,
/// a transient condition worth a retry, or anything else with its message.
pub open spec fn io_event(kind: IoErrorKind, message: String) -> HardwareEvents {
    match kind {
        IoErrorKind::BrokenPipe | IoErrorKind::NotConnected | IoErrorKind::ConnectionReset
        | IoErrorKind::ConnectionAborted | IoErrorKind::AddrNotAvailable
        | IoErrorKind::NotFound => HardwareEvents::Disconnected,
        IoErrorKind::PermissionDenied => HardwareEvents::NoAccess,
        IoErrorKind::Interrupted | IoErrorKind::TimedOut | IoErrorKind::WouldBlock
        | IoErrorKind::ResourceBusy | IoErrorKind::ConnectionRefused
        | IoErrorKind::AddrInUse => HardwareEvents::RetryNeeded,
        IoErrorKind::Other => HardwareEvents::InternalError(message),
    }
}

/// Event for a failed write to a serial port: only a lost port, missing rights, an
/// interrupted call or a time-out are told apart.
pub open spec fn serial_io_event(kind: IoErrorKind, message: String) -> HardwareEvents {
    match kind {
        IoErrorKind::BrokenPipe | IoErrorKind::AddrNotAvailable
        | IoErrorKind::NotFound => HardwareEvents::Disconnected,
        IoErrorKind::PermissionDenied => HardwareEvents::NoAccess,
        IoErrorKind::Interrupted | IoErrorKind::TimedOut => HardwareEvents::RetryNeeded,
        _ => HardwareEvents::InternalError(message),
    }
}

/// The peer or the link is gone: the pipe or connection was broken, reset, aborted or
/// never made, or the device or its address disappeared.
pub open spec fn link_lost(kind: IoErrorKind) -> bool {
    kind == IoErrorKind::BrokenPipe || kind == IoErrorKind::NotConnected || kind
        == IoErrorKind::ConnectionReset || kind == IoErrorKind::ConnectionAborted || kind
        == IoErrorKind::AddrNotAvailable || kind == IoErrorKind::NotFound
}

/// A passing condition under which the same request may well succeed if repeated: an
/// interrupted call, a time-out, a resource not ready or busy, a host not yet listening,
/// an address still held.
pub open spec fn transient(kind: IoErrorKind) -> bool {
    kind == IoErrorKind::Interrupted || kind == IoErrorKind::TimedOut || kind
        == IoErrorKind::WouldBlock || kind == IoErrorKind::ResourceBusy || kind
        == IoErrorKind::ConnectionRefused || kind == IoErrorKind::AddrInUse
}

/// How an output reacts to an I/O failure: a lost link, and only that, is reported as a
/// lost device; a transient condition, and only that, as worth a retry; missing rights as
/// no access; anything else as an internal error that keeps the failure's message.
pub proof fn lemma_io_event_classes(kind: IoErrorKind, message: String)
    ensures
        io_event(kind, message) == HardwareEvents::Disconnected <==> link_lost(kind),
        io_event(kind, message) == HardwareEvents::RetryNeeded <==> transient(kind),
        io_event(kind, message) == HardwareEvents::NoAccess <==> kind == IoErrorKind::PermissionDenied,
        !link_lost(kind) && !transient(kind) && kind != IoErrorKind::PermissionDenied ==> io_event(
            kind,
            message,
        ) == HardwareEvents::InternalError(message),
{
}

/// A serial port reports a lost device or a retry only where a network output would, too.
pub proof fn lemma_serial_events_agree(kind: IoErrorKind, message: String)
    ensures
        serial_io_event(kind, message) == HardwareEvents::Disconnected ==> link_lost(kind),
        serial_io_event(kind, message) == HardwareEvents::RetryNeeded ==> transient(kind),
        serial_io_event(kind, message) == HardwareEvents::NoAccess <==> kind == IoErrorKind::PermissionDenied,
{
}

impl HardwareEvents {
    /// The event for an I/O failure of kind `kind` with text `message`.
    pub fn from_io_error(kind: IoErrorKind, message: String) -> (e: HardwareEvents)
        ensures
            e == io_event(kind, message),
    {
        match kind {
            IoErrorKind::BrokenPipe | IoErrorKind::NotConnected | IoErrorKind::ConnectionReset
            | IoErrorKind::ConnectionAborted | IoErrorKind::AddrNotAvailable
            | IoErrorKind::NotFound => HardwareEvents::Disconnected,
            IoErrorKind::PermissionDenied => HardwareEvents::NoAccess,
            IoErrorKind::Interrupted | IoErrorKind::TimedOut | IoErrorKind::WouldBlock
            | IoErrorKind::ResourceBusy | IoErrorKind::ConnectionRefused
            | IoErrorKind::AddrInUse => HardwareEvents::RetryNeeded,
            IoErrorKind::Other => HardwareEvents::InternalError(message),
        }
    }

    /// The event for a failed serial write of kind `kind` with text `message`.
    pub fn from_serial_io_error(kind: IoErrorKind, message: String) -> (e: HardwareEvents)
        ensures
            e == serial_io_event(kind, message),
    {
        match kind {
            IoErrorKind::BrokenPipe | IoErrorKind::AddrNotAvailable
            | IoErrorKind::NotFound => HardwareEvents::Disconnected,
            IoErrorKind::PermissionDenied => HardwareEvents::NoAccess,
            IoErrorKind::Interrupted | IoErrorKind::TimedOut => HardwareEvents::RetryNeeded,
            _ => HardwareEvents::InternalError(message),
        }
    }
}

/// The serial frame: the magic word `AD` ("AmbiData"), then the pixels.
pub open spec fn ambi_data_frame(colors: Seq<RGBPixel>) -> Seq<u8> {
    seq![0x41u8, 0x44u8] + rgb_bytes(colors)
}

/// The bytes a serial output sends to shut the device down: the word `SD` ("ShutDown").
pub open spec fn term_signal() -> Seq<u8> {
    seq![0x53u8, 0x44u8]
}

/// Replace the contents of `payload` by the serial frame for `colors`.
pub fn fill_ambi_data_frame(payload: &mut Vec<u8>, colors: &[RGBPixel])
    ensures
        final(payload)@ == ambi_data_frame(colors@),
{
    payload.clear();
    payload.push(0x41);
    payload.push(0x44);
    push_rgb_bytes(payload, colors);
    assert(final(payload)@ =~= ambi_data_frame(colors@));
}

/// The serial shutdown signal.
pub fn term_signal_bytes() -> (r: Vec<u8>)
    ensures
        r@ == term_signal(),
{
    let mut r: Vec<u8> = Vec::new();
    r.push(0x53);
    r.push(0x44);
    assert(r@ =~= term_signal());
    r
}

/// The DRGB datagram: protocol id 2, then the pixels.
pub open spec fn drgb_frame(colors: Seq<RGBPixel>) -> Seq<u8> {
    seq![0x02u8] + rgb_bytes(colors)
}

/// Replace the contents of `payload` by the DRGB datagram for `colors`.
pub fn fill_drgb_frame(payload: &mut Vec<u8>, colors: &[RGBPixel])
    ensures
        final(payload)@ == drgb_frame(colors@),
{
    payload.clear();
    payload.push(0x02);
    push_rgb_bytes(payload, colors);
    assert(final(payload)@ =~= drgb_frame(colors@));
}

/// A frame is three bytes per pixel after its preamble (two bytes for serial, one for
/// DRGB), and the pixels can be read back from it: in the serial frame pixel `i` occupies
/// bytes `2 + 3i .. 2 + 3i + 3`, in the datagram bytes `1 + 3i .. 1 + 3i + 3`.
pub proof fn lemma_frame_layout(colors: Seq<RGBPixel>, i: int)
    requires
        0 <= i < colors.len(),
    ensures
        ambi_data_frame(colors).len() == 2 + 3 * colors.len(),
        drgb_frame(colors).len() == 1 + 3 * colors.len(),
        ambi_data_frame(colors)[2 + 3 * i] == colors[i].red,
        ambi_data_frame(colors)[3 + 3 * i] == colors[i].green,
        ambi_data_frame(colors)[4 + 3 * i] == colors[i].blue,
        drgb_frame(colors)[1 + 3 * i] == colors[i].red,
        drgb_frame(colors)[2 + 3 * i] == colors[i].green,
        drgb_frame(colors)[3 + 3 * i] == colors[i].blue,
{
    crate::color::lemma_rgb_bytes_index(colors, 3 * i);
    crate::color::lemma_rgb_bytes_index(colors, 3 * i + 1);
    crate::color::lemma_rgb_bytes_index(colors, 3 * i + 2);
    assert((3 * i) / 3 == i);
    assert((3 * i + 1) / 3 == i);
    assert((3 * i + 2) / 3 == i);
}

} // verus!
