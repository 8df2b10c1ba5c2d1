//! Per-device settings: which automation rules are enabled for each pair of
//! earbuds. Loading and saving the on-disk file is the caller's business;
//! this module owns the lookup and update logic.

use vstd::prelude::*;
use vstd::string::StringExecFns;

verus! {

/// The settings of one device, each tri-state: absent means disabled.
#[derive(Debug, Clone)]
pub struct BudsConfig {
    pub address: String,
    pub default: Option<bool>,
    pub low_battery_notification: Option<bool>,
    pub auto_resume_music: Option<bool>,
    pub auto_pause_music: Option<bool>,
    pub smart_sink: Option<bool>,
    pub smart_touchpad: Option<bool>,
    pub hold_to_disconnect: Option<bool>,
}

pub open spec fn opt_flag(o: Option<bool>) -> bool {
    o == Some(true)
}

impl BudsConfig {
    /// A new device entry with every setting unset.
    pub fn new(address: String) -> (r: BudsConfig)
        ensures
            r.address@ == address@,
            r.default is None,
            r.low_battery_notification is None,
            r.auto_resume_music is None,
            r.auto_pause_music is None,
            r.smart_sink is None,
            r.smart_touchpad is None,
            r.hold_to_disconnect is None,
    {
        BudsConfig {
            address,
            default: None,
            low_battery_notification: None,
            auto_resume_music: None,
            auto_pause_music: None,
            smart_sink: None,
            smart_touchpad: None,
            hold_to_disconnect: None,
        }
    }

    pub open spec fn spec_auto_pause(self) -> bool {
        opt_flag(self.auto_pause_music)
    }

    pub open spec fn spec_auto_play(self) -> bool {
        opt_flag(self.auto_resume_music)
    }

    pub open spec fn spec_low_battery_notification(self) -> bool {
        opt_flag(self.low_battery_notification)
    }

    pub open spec fn spec_smart_touchpad(self) -> bool {
        opt_flag(self.smart_touchpad)
    }

    pub open spec fn spec_smart_sink(self) -> bool {
        opt_flag(self.smart_sink)
    }

    pub open spec fn spec_is_default(self) -> bool {
        opt_flag(self.default)
    }

    pub open spec fn spec_hold_to_disconnect(self) -> bool {
        opt_flag(self.hold_to_disconnect)
    }

    pub fn auto_pause(&self) -> (r: bool)
        ensures
            r == self.spec_auto_pause(),
    {
        self.auto_pause_music.unwrap_or(false)
    }

    pub fn auto_play(&self) -> (r: bool)
        ensures
            r == self.spec_auto_play(),
    {
        self.auto_resume_music.unwrap_or(false)
    }

    pub fn low_battery_notification(&self) -> (r: bool)
        ensures
            r == self.spec_low_battery_notification(),
    {
        self.low_battery_notification.unwrap_or(false)
    }

    pub fn smart_touchpad(&self) -> (r: bool)
        ensures
            r == self.spec_smart_touchpad(),
    {
        self.smart_touchpad.unwrap_or(false)
    }

    pub fn smart_sink(&self) -> (r: bool)
        ensures
            r == self.spec_smart_sink(),
    {
        self.smart_sink.unwrap_or(false)
    }

    pub fn is_default(&self) -> (r: bool)
        ensures
            r == self.spec_is_default(),
    {
        self.default.unwrap_or(false)
    }

    pub fn hold_to_disconnect(&self) -> (r: bool)
        ensures
            r == self.spec_hold_to_disconnect(),
    {
        self.hold_to_disconnect.unwrap_or(false)
    }
}

/// Every device's settings.
#[derive(Debug, Clone)]
pub struct Config {
    pub buds_settings: Vec<BudsConfig>,
}

/// Whether some entry carries the address.
pub open spec fn spec_has_device_config(s: Seq<BudsConfig>, addr: Seq<char>) -> bool {
    exists|i: int| 0 <= i < s.len() && s[i].address@ == addr
}

/// Two entries clash when they name the same address.
pub open spec fn unique_addresses(s: Seq<BudsConfig>) -> bool {
    forall|i: int, j: int|
        0 <= i < j < s.len() ==> s[i].address@ != s[j].address@
}

/// At most one entry is marked default.
pub open spec fn at_most_one_default(s: Seq<BudsConfig>) -> bool {
    forall|i: int, j: int|
        0 <= i < j < s.len() ==> !(s[i].spec_is_default() && s[j].spec_is_default())
}

impl Config {
    /// An empty settings table.
    pub fn new() -> (r: Config)
        ensures
            r.buds_settings@.len() == 0,
    {
        Config { buds_settings: Vec::new() }
    }

    /// Check the validity of the loaded settings: rejects a table where two
    /// entries are marked default or one device is configured twice.
    pub fn check_config(&self) -> (r: Result<(), String>)
        ensures
            r is Ok <==> (unique_addresses(self.buds_settings@) && at_most_one_default(
                self.buds_settings@,
            )),
    {
        let n = self.buds_settings.len();
        let mut i: usize = 0;
        while i < n
            invariant
                i <= n == self.buds_settings@.len(),
                forall|a: int, b: int|
                    0 <= a < b < self.buds_settings@.len() && b < i ==> self.buds_settings@[a]
                        .address@ != self.buds_settings@[b].address@,
                forall|a: int, b: int|
                    0 <= a < b < self.buds_settings@.len() && b < i ==> !(self.buds_settings@[a]
                        .spec_is_default() && self.buds_settings@[b].spec_is_default()),
            decreases n - i,
        {
            let mut j: usize = 0;
            while j < i
                invariant
                    j <= i < n == self.buds_settings@.len(),
                    forall|b: int|
                        0 <= b < j ==> self.buds_settings@[b].address@
                            != self.buds_settings@[i as int].address@,
                    forall|b: int|
                        0 <= b < j ==> !(self.buds_settings@[b].spec_is_default()
                            && self.buds_settings@[i as int].spec_is_default()),
                decreases i - j,
            {
                if self.buds_settings[j].address == self.buds_settings[i].address {
                    return Err(String::from_str("device configured more than once"));
                }
                if self.buds_settings[j].is_default() && self.buds_settings[i].is_default() {
                    return Err(String::from_str("more than one device is set to default"));
                }
                j += 1;
            }
            i += 1;
        }
        Ok(())
    }

    /// Look a device's settings up by address.
    pub fn get_device_config(&self, address: &String) -> (r: Option<&BudsConfig>)
        ensures
            r is Some <==> spec_has_device_config(self.buds_settings@, address@),
            match r {
                Some(c) => {
                    &&& c.address@ == address@
                    &&& exists|i: int|
                        0 <= i < self.buds_settings@.len() && self.buds_settings@[i] == *c
                },
                None => true,
            },
    {
        let n = self.buds_settings.len();
        let mut i: usize = 0;
        while i < n
            invariant
                i <= n == self.buds_settings@.len(),
                forall|k: int| 0 <= k < i ==> self.buds_settings@[k].address@ != address@,
            decreases n - i,
        {
            if self.buds_settings[i].address == *address {
                return Some(&self.buds_settings[i]);
            }
            i += 1;
        }
        None
    }

    /// Whether the table has an entry for the address.
    pub fn has_device_config(&self, address: &String) -> (r: bool)
        ensures
            r == spec_has_device_config(self.buds_settings@, address@),
    {
        self.get_device_config(address).is_some()
    }

    /// The position of a device's entry in the table.
    pub fn get_device_config_pos(&self, address: &String) -> (r: Option<usize>)
        ensures
            r is Some <==> spec_has_device_config(self.buds_settings@, address@),
            match r {
                Some(i) => i < self.buds_settings@.len() && self.buds_settings@[i as int].address@
                    == address@,
                None => true,
            },
    {
        let n = self.buds_settings.len();
        let mut i: usize = 0;
        while i < n
            invariant
                i <= n == self.buds_settings@.len(),
                forall|k: int| 0 <= k < i ==> self.buds_settings@[k].address@ != address@,
            decreases n - i,
        {
            if self.buds_settings[i].address == *address {
                return Some(i);
            }
            i += 1;
        }
        None
    }

    /// The entry marked default, if one is.
    pub fn get_default_device(&self) -> (r: Option<&BudsConfig>)
        ensures
            match r {
                Some(c) => c.spec_is_default() && exists|i: int|
                    0 <= i < self.buds_settings@.len() && self.buds_settings@[i] == *c,
                None => forall|i: int|
                    0 <= i < self.buds_settings@.len() ==> !self.buds_settings@[i]
                        .spec_is_default(),
            },
    {
        let n = self.buds_settings.len();
        let mut i: usize = 0;
        while i < n
            invariant
                i <= n == self.buds_settings@.len(),
                forall|k: int| 0 <= k < i ==> !self.buds_settings@[k].spec_is_default(),
            decreases n - i,
        {
            if self.buds_settings[i].is_default() {
                return Some(&self.buds_settings[i]);
            }
            i += 1;
        }
        None
    }

    /// Set the settings of one device. An existing entry is replaced; a new
    /// device is appended, marked default when it is the first one. The
    /// caller persists the table afterwards.
    pub fn set_device_config(&mut self, config: BudsConfig)
        ensures
            spec_has_device_config(old(self).buds_settings@, config.address@) ==> {
                &&& final(self).buds_settings@.len() == old(self).buds_settings@.len()
                &&& exists|i: int|
                    {
                        &&& 0 <= i < old(self).buds_settings@.len()
                        &&& old(self).buds_settings@[i].address@ == config.address@
                        &&& final(self).buds_settings@ == old(self).buds_settings@.update(
                            i,
                            config,
                        )
                    }
            },
            !spec_has_device_config(old(self).buds_settings@, config.address@) ==> {
                &&& old(self).buds_settings@.len() > 0 ==> final(self).buds_settings@ == old(
                    self,
                ).buds_settings@.push(config)
                &&& old(self).buds_settings@.len() == 0 ==> {
                    &&& final(self).buds_settings@.len() == 1
                    &&& final(self).buds_settings@[0] == (BudsConfig {
                        default: Some(true),
                        ..config
                    })
                }
            },
    {
        let pos = self.get_device_config_pos(&config.address);
        match pos {
            Some(i) => {
                self.buds_settings.set(i, config);
            },
            None => {
                let mut config = config;
                if self.buds_settings.len() == 0 {
                    config.default = Some(true);
                }
                self.buds_settings.push(config);
            },
        }
    }
}

} // verus!
