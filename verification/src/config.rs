//! What the watcher is started with.

use vstd::prelude::*;
use crate::addr::IpAddress;

verus! {

/// The timeout, in milliseconds, where none is given.
pub const DEFAULT_TIMEOUT_MILLIS: u64 = 3000;

/// The settings as they are given on the command line.
#[derive(Debug)]
pub struct CmdArgs {
    /// The device's address, for example `192.168.1.10`.
    pub tv_ip: String,
    /// The package to start on the device, for example `org.xbmc.kodi`.
    pub package_name: String,
    /// A multicast group to listen on for the device's wake signal, for
    /// example `224.0.0.251:5353`. Without one the watcher polls.
    pub multicast_addr: Option<String>,
    /// The address of the one network interface that joins the multicast
    /// group, for example `192.168.1.2`. Without one the system chooses.
    pub if_addr: Option<String>,
    /// The bound on each connection attempt, in milliseconds, which is also
    /// the polling interval.
    pub timeout: u64,
}

impl CmdArgs {
    /// Settings for a device and a package, with the default timeout,
    /// without a multicast group and without a chosen interface.
    pub fn new(tv_ip: String, package_name: String) -> (r: CmdArgs)
        ensures
            r.tv_ip == tv_ip,
            r.package_name == package_name,
            r.multicast_addr is None,
            r.if_addr is None,
            r.timeout == DEFAULT_TIMEOUT_MILLIS,
    {
        CmdArgs {
            tv_ip,
            package_name,
            multicast_addr: None,
            if_addr: None,
            timeout: DEFAULT_TIMEOUT_MILLIS,
        }
    }
}

/// The device's address once read from text: the address, and the text that
/// stands for it in endpoints and URLs.
#[derive(Debug)]
pub struct DeviceAddress {
    pub ip: IpAddress,
    pub text: String,
}

} // verus!
