//! The WLED "DRGB" UDP protocol: settings, their validation and the framing state.
use vstd::prelude::*;
use crate::color::RGBPixel;
use crate::configs::{IssueView, ValidationError, ValidationWarning, result_view, warning_view};
use crate::hardware::{drgb_frame, fill_drgb_frame};
use crate::text::{decimal, push_decimal};

verus! {

pub const DEFAULT_PORT: u16 = 21324;
pub const DEFAULT_TIMEOUT: u8 = 2;
pub const DEFAULT_MAX_FPS: u16 = 30;

/// Settings of the WLED DRGB output.
///
/// - `ip`: address or mDNS name of the strip
/// - `port`: UDP port of the strip
/// - `timeout`: seconds the strip waits for data before it falls back
/// - `max_fps`: highest frame rate (depends on the network)
#[derive(Clone, Debug, PartialEq, Eq)]
pub struct WledDrgbConfig {
    pub ip: String,
    pub port: Option<u16>,
    pub timeout: Option<u8>,
    pub max_fps: Option<u16>,
}

/// `host:port` of the strip, the port defaulting to `default_port`.
pub open spec fn socket_address(ip: Seq<char>, port: Option<u16>, default_port: u16) -> Seq<char> {
    ip + ":"@ + decimal(port.unwrap_or(default_port) as nat)
}

/// Write `host:port`.
pub fn socket_address_text(ip: &String, port: Option<u16>, default_port: u16) -> (r: String)
    ensures
        r@ == socket_address(ip@, port, default_port),
{
    let mut r = ip.clone();
    r.append(":");
    let p: u16 = match port {
        Some(p) => p,
        None => default_port,
    };
    push_decimal(&mut r, p as u32);
    r
}

/// The error reported when the address of the strip cannot be resolved.
pub open spec fn unreachable_ip(section: Seq<char>, reason: Seq<char>) -> IssueView {
    IssueView::InvalidValue(section, "ip"@, "Ip can not be reached: "@ + reason + "."@)
}

/// Build that error.
pub fn unreachable_ip_error(section: &'static str, reason: &str) -> (e: ValidationError)
    ensures
        crate::configs::error_view(e) == unreachable_ip(section@, reason@),
{
    let mut message = String::from_str("Ip can not be reached: ");
    message.append(reason);
    message.append(".");
    ValidationError::InvalidValue { section, field: "ip", message }
}

/// The verdict on WLED settings, given the outcome of resolving the address: an address
/// that does not resolve rules them out; a zero time-out and a frame rate of 10 or less
/// draw warnings.
pub open spec fn wled_config_verdict(c: WledDrgbConfig, resolution: Result<(), Seq<char>>) -> Result<Seq<IssueView>, IssueView> {
    let section = "d_r_g_b_config"@;
    match resolution {
        Err(reason) => Err(unreachable_ip(section, reason)),
        Ok(_) => {
            let t = if c.timeout.unwrap_or(100) == 0 {
                seq![IssueView::InvalidValue(section, "timeout"@, "With zero timeout led can work with errors."@)]
            } else {
                Seq::empty()
            };
            let f = if c.max_fps.unwrap_or(60) <= 10 {
                seq![IssueView::InvalidValue(section, "max_fps"@, "With small FPS led can work kind of strange."@)]
            } else {
                Seq::empty()
            };
            Ok(t + f)
        },
    }
}

/// The text view of the outcome of resolving an address.
pub open spec fn resolution_view(r: Result<(), String>) -> Result<(), Seq<char>> {
    match r {
        Ok(_) => Ok(()),
        Err(e) => Err(e@),
    }
}

impl WledDrgbConfig {
    /// `host:port` to resolve for this strip.
    pub fn address_text(&self) -> (r: String)
        ensures
            r@ == socket_address(self.ip@, self.port, DEFAULT_PORT),
    {
        socket_address_text(&self.ip, self.port, DEFAULT_PORT)
    }

    /// Check the settings, given the outcome of resolving `address_text()` (the error
    /// text when it failed).
    pub fn validate_with(&self, resolution: Result<(), String>) -> (r: Result<Vec<ValidationWarning>, ValidationError>)
        ensures
            result_view(r) == wled_config_verdict(*self, resolution_view(resolution)),
    {
        let section = "d_r_g_b_config";
        match resolution {
            Err(reason) => {
                return Err(unreachable_ip_error(section, reason.as_str()));
            },
            Ok(_) => {},
        }
        let mut result: Vec<ValidationWarning> = Vec::new();
        let timeout = match self.timeout {
            Some(t) => t,
            None => 100,
        };
        if timeout == 0 {
            result.push(ValidationWarning::InvalidValue {
                section,
                field: "timeout",
                message: String::from_str("With zero timeout led can work with errors."),
            });
        }
        let ghost after_timeout = result@;
        let max_fps = match self.max_fps {
            Some(f) => f,
            None => 60,
        };
        if max_fps <= 10 {
            result.push(ValidationWarning::InvalidValue {
                section,
                field: "max_fps",
                message: String::from_str("With small FPS led can work kind of strange."),
            });
        }
        proof {
            let expected = wled_config_verdict(*self, resolution_view(resolution))->Ok_0;
            assert(Seq::new(result@.len(), |i: int| warning_view(result@[i])) =~= expected);
        }
        Ok(result)
    }
}

/// Framing state of a WLED DRGB output.
pub struct WledDrgb {
    pub timeout: u8,
}

impl WledDrgb {
    /// Output state for `config`: its time-out, 2 seconds when unset.
    pub fn new(config: &WledDrgbConfig) -> (d: Self)
        ensures
            d.timeout == config.timeout.unwrap_or(DEFAULT_TIMEOUT),
    {
        let timeout = match config.timeout {
            Some(t) => t,
            None => DEFAULT_TIMEOUT,
        };
        Self { timeout }
    }

    /// Replace the contents of `payload` by the datagram for `colors`.
    pub fn fill_payload(&self, payload: &mut Vec<u8>, colors: &[RGBPixel])
        ensures
            final(payload)@ == drgb_frame(colors@),
    {
        fill_drgb_frame(payload, colors);
    }
}

/// Settings of the frame-rate-limited DRGB output.
#[derive(Clone, Debug, PartialEq, Eq)]
pub struct DRGBConfig {
    pub ip: String,
    pub port: Option<u16>,
    pub timeout: Option<u8>,
    pub max_fps: Option<u16>,
}

/// Nanoseconds between frames at a rate of `max_fps` (30 when unset; at least 1).
pub open spec fn frame_interval_nanos(max_fps: Option<u16>) -> u64 {
    let fps = max_fps.unwrap_or(DEFAULT_MAX_FPS) as u64;
    (1_000_000_000u64 / if fps < 1 { 1u64 } else { fps }) as u64
}

/// Framing state of the frame-rate-limited DRGB output.
pub struct DRGB {
    pub timeout: u8,
    pub wait_nanos: u64,
}

impl DRGB {
    /// Output state for `config`: its time-out and the shortest time between two frames.
    pub fn new(config: &DRGBConfig) -> (d: Self)
        ensures
            d.timeout == config.timeout.unwrap_or(DEFAULT_TIMEOUT),
            d.wait_nanos == frame_interval_nanos(config.max_fps),
    {
        let timeout = match config.timeout {
            Some(t) => t,
            None => DEFAULT_TIMEOUT,
        };
        let fps: u64 = match config.max_fps {
            Some(f) => f as u64,
            None => DEFAULT_MAX_FPS as u64,
        };
        let divisor: u64 = if fps < 1 { 1 } else { fps };
        Self { timeout, wait_nanos: 1_000_000_000 / divisor }
    }

    /// `host:port` to resolve for this strip.
    pub fn address_text(config: &DRGBConfig) -> (r: String)
        ensures
            r@ == socket_address(config.ip@, config.port, DEFAULT_PORT),
    {
        socket_address_text(&config.ip, config.port, DEFAULT_PORT)
    }

    /// Whether a frame may go out `elapsed_nanos` after the previous one.
    pub fn frame_due(&self, elapsed_nanos: u64) -> (r: bool)
        ensures
            r == (elapsed_nanos >= self.wait_nanos),
    {
        elapsed_nanos >= self.wait_nanos
    }

    /// Replace the contents of `payload` by the datagram for `colors`.
    pub fn fill_payload(&self, payload: &mut Vec<u8>, colors: &[RGBPixel])
        ensures
            final(payload)@ == drgb_frame(colors@),
    {
        fill_drgb_frame(payload, colors);
    }
}

} // verus!
