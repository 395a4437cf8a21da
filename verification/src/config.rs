//! Service configuration: the command-line option shapes of the two
//! backends, and the decision of how the hardware module is reached.
//! The transport edge parses arguments into these types and turns a
//! `ConnectorConfig` into an actual device connection.

use vstd::prelude::*;

verus! {

pub const DEFAULT_USB_TIMEOUT_MS: u64 = 30000;

pub const DEFAULT_HTTP_TIMEOUT_MS: u64 = 5000;

pub const API_TIMEOUT_SECS: u64 = 30;

/// Options of the cloud-KMS service.
#[derive(Debug)]
pub struct AwsOpt {
    pub cmd: AwsCommand,
}

/// What the cloud-KMS service is asked to do.
#[derive(Debug)]
pub enum AwsCommand {
    Serve,
}

/// How the hardware module is reached.
#[derive(Debug)]
pub enum YubiMode {
    Usb,
    Http,
    Mock,
}

/// Options of the hardware-module service.
#[derive(Debug)]
pub struct YubiOpt {
    pub mode: YubiMode,
    pub device_serial_id: Option<String>,
    pub http_address: Option<String>,
    pub http_port: Option<u16>,
    pub auth_key_id: u16,
    pub password: String,
    pub cmd: YubiCommand,
}

/// What the hardware-module service is asked to do.
#[derive(Debug)]
pub enum YubiCommand {
    Serve,
    GenerateKey { label: String, exportable: bool },
}

/// The connection settings the transport edge turns into a live
/// connector: USB with a serial and timeout, HTTP with address, port and
/// timeout, or the in-process mock device.
#[derive(Debug)]
pub enum ConnectorConfig {
    Usb { serial: String, timeout_ms: u64 },
    Http { addr: String, port: u16, timeout_ms: u64 },
    Mock,
}

/// What a newly generated signing key may do: sign only, or sign and
/// also leave the device under wrap.
#[derive(Debug, PartialEq, Eq, Structural)]
pub enum KeyCapabilities {
    SignOnly,
    SignAndExportable,
}

/// The capability set a newly generated key gets from the `exportable`
/// flag.
pub fn key_capabilities(exportable: bool) -> (r: KeyCapabilities)
    ensures
        r is SignAndExportable <==> exportable,
{
    if exportable {
        KeyCapabilities::SignAndExportable
    } else {
        KeyCapabilities::SignOnly
    }
}

/// Decides the connector settings from the options. USB mode needs the
/// device serial, HTTP mode the address and port; argument parsing
/// guarantees both, and callers check before calling.
pub fn create_connector(opt: &YubiOpt) -> (r: ConnectorConfig)
    requires
        opt.mode is Usb ==> opt.device_serial_id is Some,
        opt.mode is Http ==> opt.http_address is Some && opt.http_port is Some,
    ensures
        opt.mode is Usb ==> (r matches ConnectorConfig::Usb { serial, timeout_ms } && (
        opt.device_serial_id matches Some(s) && serial@ == s@) && timeout_ms
            == DEFAULT_USB_TIMEOUT_MS),
        opt.mode is Http ==> (r matches ConnectorConfig::Http { addr, port, timeout_ms } && (
        opt.http_address matches Some(a) && addr@ == a@) && (opt.http_port matches Some(p) && port
            == p) && timeout_ms == DEFAULT_HTTP_TIMEOUT_MS),
        opt.mode is Mock ==> r is Mock,
{
    match &opt.mode {
        YubiMode::Usb => {
            let serial = match &opt.device_serial_id {
                Some(s) => s.clone(),
                None => String::new(),
            };
            ConnectorConfig::Usb { serial, timeout_ms: DEFAULT_USB_TIMEOUT_MS }
        },
        YubiMode::Http => {
            let addr = match &opt.http_address {
                Some(a) => a.clone(),
                None => String::new(),
            };
            let port = match &opt.http_port {
                Some(p) => *p,
                None => 0,
            };
            ConnectorConfig::Http { addr, port, timeout_ms: DEFAULT_HTTP_TIMEOUT_MS }
        },
        YubiMode::Mock => ConnectorConfig::Mock,
    }
}

} // verus!
