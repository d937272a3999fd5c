//! Settings of the native serial protocol and their validation.
use vstd::prelude::*;
use crate::configs::{ConfigValidate, IssueView, ValidationError, ValidationWarning, result_view};
use crate::text::{blank, decimal, is_blank, push_decimal};

verus! {

/// Serial port settings.
///
/// - `port_path`: path of the device, such as `/dev/ttyUSB0`
/// - `baud_rate`: transfer speed
#[derive(Clone, Debug, PartialEq, Eq)]
pub struct ShinombraSerialConfig {
    pub port_path: String,
    pub baud_rate: u32,
}

/// The baud rates that common hardware supports.
pub open spec fn standard_baud_rate(b: u32) -> bool {
    b == 9600 || b == 19200 || b == 38400 || b == 57600 || b == 115200 || b == 230400 || b
        == 460800 || b == 921600
}

/// The verdict on serial settings, given whether the device path exists: an empty path,
/// a missing device or a zero baud rate rule them out; an unusual baud rate is a warning.
pub open spec fn serial_config_verdict(port_path: Seq<char>, path_exists: bool, baud_rate: u32) -> Result<Seq<IssueView>, IssueView> {
    let section = "serial_driver_config"@;
    if blank(port_path) {
        Err(IssueView::InvalidValue(section, "port_path"@, "Path to serial device cannot be empty (e.g., /dev/ttyUSB0)"@))
    } else if !path_exists {
        Err(IssueView::InvalidValue(section, "port_path"@, "Device path "@ + port_path + " does not exist"@))
    } else if baud_rate == 0 {
        Err(IssueView::InvalidValue(section, "baud_rate"@, "Baud rate must be greater than 0. Standard value is usually 115200"@))
    } else if standard_baud_rate(baud_rate) {
        Ok(Seq::empty())
    } else {
        Ok(seq![IssueView::InvalidValue(section, "baud_rate"@, "Non-standard baud rate detected: "@ + decimal(baud_rate as nat) + ". Ensure your hardware supports it."@)])
    }
}

/// Whether something exists at `path` on the file system (`std::path::Path::exists`).
#[verifier::external_body]
fn path_exists(path: &str) -> bool {
    std::path::Path::new(path).exists()
}

impl ShinombraSerialConfig {
    /// Check the settings, given whether the device path exists.
    pub fn validate_with(&self, path_exists: bool) -> (r: Result<Vec<ValidationWarning>, ValidationError>)
        ensures
            result_view(r) == serial_config_verdict(self.port_path@, path_exists, self.baud_rate),
    {
        let section = "serial_driver_config";
        if is_blank(self.port_path.as_str()) {
            return Err(ValidationError::InvalidValue {
                section,
                field: "port_path",
                message: String::from_str("Path to serial device cannot be empty (e.g., /dev/ttyUSB0)"),
            });
        }
        if !path_exists {
            let mut message = String::from_str("Device path ");
            message.append(self.port_path.as_str());
            message.append(" does not exist");
            return Err(ValidationError::InvalidValue { section, field: "port_path", message });
        }
        if self.baud_rate == 0 {
            return Err(ValidationError::InvalidValue {
                section,
                field: "baud_rate",
                message: String::from_str("Baud rate must be greater than 0. Standard value is usually 115200"),
            });
        }
        let mut warnings: Vec<ValidationWarning> = Vec::new();
        let b = self.baud_rate;
        if !(b == 9600 || b == 19200 || b == 38400 || b == 57600 || b == 115200 || b == 230400
            || b == 460800 || b == 921600) {
            let mut message = String::from_str("Non-standard baud rate detected: ");
            push_decimal(&mut message, b);
            message.append(". Ensure your hardware supports it.");
            warnings.push(ValidationWarning::InvalidValue { section, field: "baud_rate", message });
        }
        proof {
            let v = result_view(Ok::<Vec<ValidationWarning>, ValidationError>(warnings));
            assert(v == serial_config_verdict(self.port_path@, path_exists, self.baud_rate)) by {
                assert(Seq::new(warnings@.len(), |i: int| crate::configs::warning_view(warnings@[i]))
                    =~= serial_config_verdict(self.port_path@, path_exists, self.baud_rate)->Ok_0);
            }
        }
        Ok(warnings)
    }
}

impl ConfigValidate for ShinombraSerialConfig {
    /// Check the path (non-blank, existing device) and the baud rate (non-zero; a
    /// non-standard one draws a warning).
    fn validate(&self) -> (r: Result<Vec<ValidationWarning>, ValidationError>)
        ensures
            exists|found: bool|
                result_view(r) == serial_config_verdict(self.port_path@, found, self.baud_rate),
    {
        let found = path_exists(self.port_path.as_str());
        self.validate_with(found)
    }
}

} // verus!
