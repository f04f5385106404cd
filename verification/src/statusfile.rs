//! Tiny file-based IPC: the resident process publishes live device status and
//! the settings process reads it (the settings process has no HID thread of
//! its own). Writing and reading the JSON file is the program's job.

use crate::config::{app_dir, app_dir_of, join_path, path_join};
use crate::hidpp::device::DeviceStatus;
use vstd::prelude::*;

verus! {

pub struct SharedStatus {
    pub device: DeviceStatus,
    pub paused: bool,
}

impl Default for SharedStatus {
    fn default() -> (r: Self)
        ensures
            r.device.is_blank(),
            !r.paused,
    {
        SharedStatus { device: DeviceStatus::default(), paused: false }
    }
}

/// `%APPDATA%\Mushak\status.json`, when `APPDATA` is known.
pub fn path(appdata: Option<&str>) -> (r: Option<String>)
    ensures
        match appdata {
            Some(a) => r matches Some(p) && p@ == path_join(app_dir_of(a@), "status.json"@),
            None => r is None,
        },
{
    match app_dir(appdata) {
        Ok(dir) => Some(join_path(dir.as_str(), "status.json")),
        Err(_) => None,
    }
}

} // verus!
