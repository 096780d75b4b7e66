//! What an application says of itself when the client is set up.

use vstd::prelude::*;

verus! {

/// The identity of the application and of the machine it runs on. It goes,
/// unchanged, into every event and into the submission URL.
pub struct EventInfo {
    pub locale: String,
    pub os: String,
    pub os_version: String,
    pub device: String,
    pub arch: String,
    pub app_name: String,
    pub app_version: String,
    pub app_update_channel: String,
    pub app_build_id: String,
    pub app_platform: String,
}

impl EventInfo {
    pub fn new(
        locale: &str,
        os: &str,
        os_version: &str,
        device: &str,
        app_name: &str,
        app_version: &str,
        app_update_channel: &str,
        app_build_id: &str,
        app_platform: &str,
        arch: &str,
    ) -> (info: EventInfo)
        ensures
            info.locale@ == locale@,
            info.os@ == os@,
            info.os_version@ == os_version@,
            info.device@ == device@,
            info.arch@ == arch@,
            info.app_name@ == app_name@,
            info.app_version@ == app_version@,
            info.app_update_channel@ == app_update_channel@,
            info.app_build_id@ == app_build_id@,
            info.app_platform@ == app_platform@,
    {
        EventInfo {
            locale: locale.to_owned(),
            os: os.to_owned(),
            os_version: os_version.to_owned(),
            device: device.to_owned(),
            app_name: app_name.to_owned(),
            app_version: app_version.to_owned(),
            app_update_channel: app_update_channel.to_owned(),
            app_build_id: app_build_id.to_owned(),
            app_platform: app_platform.to_owned(),
            arch: arch.to_owned(),
        }
    }
}

} // verus!
