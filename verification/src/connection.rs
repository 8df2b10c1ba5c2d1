//! The shared device table: one record per connected address, and the
//! connection handler that keeps it in step with adapter events.

use vstd::prelude::*;

use crate::buds_config::{BudsConfig, Config};
use crate::buds_info::BudsInfo;

verus! {

/// Whether some record in the table carries the address.
pub open spec fn spec_has_data(s: Seq<BudsInfo>, addr: Seq<char>) -> bool {
    exists|i: int| 0 <= i < s.len() && s[i].inner.address@ == addr
}

/// The table's invariant: exactly one record exists per connected address.
pub open spec fn unique_data_addresses(s: Seq<BudsInfo>) -> bool {
    forall|i: int, j: int|
        0 <= i < j < s.len() ==> s[i].inner.address@ != s[j].inner.address@
}

/// The table with every record of the address dropped, order kept.
pub open spec fn drop_addr(s: Seq<BudsInfo>, addr: Seq<char>) -> Seq<BudsInfo>
    decreases s.len(),
{
    if s.len() == 0 {
        Seq::empty()
    } else if s[0].inner.address@ == addr {
        drop_addr(s.skip(1), addr)
    } else {
        seq![s[0]] + drop_addr(s.skip(1), addr)
    }
}

/// Dropping an address distributes over appending one record.
pub proof fn lemma_drop_addr_push(s: Seq<BudsInfo>, addr: Seq<char>, x: BudsInfo)
    ensures
        drop_addr(s.push(x), addr) == if x.inner.address@ == addr {
            drop_addr(s, addr)
        } else {
            drop_addr(s, addr).push(x)
        },
    decreases s.len(),
{
    if s.len() == 0 {
        assert(s.push(x).skip(1) =~= Seq::empty());
        assert(s =~= Seq::<BudsInfo>::empty());
        if x.inner.address@ != addr {
            assert(drop_addr(s.push(x), addr) =~= drop_addr(s, addr).push(x));
        }
    } else {
        assert(s.push(x).skip(1) =~= s.skip(1).push(x));
        lemma_drop_addr_push(s.skip(1), addr, x);
        if x.inner.address@ == addr {
            assert(drop_addr(s.push(x), addr) =~= drop_addr(s, addr));
        } else {
            if s[0].inner.address@ == addr {
                assert(drop_addr(s.push(x), addr) =~= drop_addr(s, addr).push(x));
            } else {
                assert(drop_addr(s.push(x), addr) =~= drop_addr(s, addr).push(x));
            }
        }
    }
}

/// No record of the address survives the drop, and other records are kept.
pub proof fn lemma_drop_addr_gone(s: Seq<BudsInfo>, addr: Seq<char>)
    ensures
        !spec_has_data(drop_addr(s, addr), addr),
        forall|i: int|
            0 <= i < drop_addr(s, addr).len() ==> spec_has_data(
                s,
                #[trigger] drop_addr(s, addr)[i].inner.address@,
            ),
    decreases s.len(),
{
    if s.len() > 0 {
        lemma_drop_addr_gone(s.skip(1), addr);
        assert forall|i: int| 0 <= i < drop_addr(s, addr).len() implies spec_has_data(
            s,
            #[trigger] drop_addr(s, addr)[i].inner.address@,
        ) by {
            if s[0].inner.address@ == addr {
                assert(spec_has_data(s.skip(1), drop_addr(s, addr)[i].inner.address@));
                let w = choose|k: int|
                    0 <= k < s.skip(1).len() && s.skip(1)[k].inner.address@ == drop_addr(
                        s,
                        addr,
                    )[i].inner.address@;
                assert(s[w + 1].inner.address@ == drop_addr(s, addr)[i].inner.address@);
            } else {
                if i == 0 {
                    assert(s[0].inner.address@ == drop_addr(s, addr)[0].inner.address@);
                } else {
                    assert(drop_addr(s, addr)[i] == drop_addr(s.skip(1), addr)[i - 1]);
                    let w = choose|k: int|
                        0 <= k < s.skip(1).len() && s.skip(1)[k].inner.address@ == drop_addr(
                            s.skip(1),
                            addr,
                        )[i - 1].inner.address@;
                    assert(s[w + 1].inner.address@ == drop_addr(s, addr)[i].inner.address@);
                }
            }
        }
    }
}

/// Law: dropping an address is idempotent — a second drop of the same
/// address changes nothing.
pub proof fn lemma_drop_addr_idempotent(s: Seq<BudsInfo>, addr: Seq<char>)
    ensures
        drop_addr(drop_addr(s, addr), addr) == drop_addr(s, addr),
    decreases s.len(),
{
    if s.len() == 0 {
        assert(drop_addr(drop_addr(s, addr), addr) =~= drop_addr(s, addr));
    } else if s[0].inner.address@ == addr {
        lemma_drop_addr_idempotent(s.skip(1), addr);
    } else {
        lemma_drop_addr_idempotent(s.skip(1), addr);
        let rest = drop_addr(s.skip(1), addr);
        assert((seq![s[0]] + rest).skip(1) =~= rest);
        assert(drop_addr(seq![s[0]] + rest, addr) =~= seq![s[0]] + drop_addr(rest, addr));
        assert(drop_addr(drop_addr(s, addr), addr) =~= drop_addr(s, addr));
    }
}

/// Shared data about every connected device.
pub struct ConnectionData {
    pub data: Vec<BudsInfo>,
}

impl ConnectionData {
    pub fn new() -> (r: ConnectionData)
        ensures
            r.data@.len() == 0,
    {
        ConnectionData { data: Vec::new() }
    }

    /// The position of the record with the address.
    pub fn get_device_pos(&self, addr: &String) -> (r: Option<usize>)
        ensures
            r is Some <==> spec_has_data(self.data@, addr@),
            match r {
                Some(i) => i < self.data@.len() && self.data@[i as int].inner.address@ == addr@,
                None => true,
            },
    {
        let n = self.data.len();
        let mut i: usize = 0;
        while i < n
            invariant
                i <= n == self.data@.len(),
                forall|k: int| 0 <= k < i ==> self.data@[k].inner.address@ != addr@,
            decreases n - i,
        {
            if self.data[i].inner.address == *addr {
                return Some(i);
            }
            i += 1;
        }
        None
    }

    /// The record for an address; an empty address resolves to the first
    /// device in the table.
    pub fn get_device(&self, addr: &String) -> (r: Option<&BudsInfo>)
        ensures
            match r {
                Some(b) => exists|i: int| 0 <= i < self.data@.len() && self.data@[i] == *b,
                None => true,
            },
            addr@.len() > 0 ==> (r is Some <==> spec_has_data(self.data@, addr@)),
            addr@.len() > 0 && r is Some ==> r->Some_0.inner.address@ == addr@,
            addr@.len() == 0 ==> (r is Some <==> self.data@.len() > 0),
            addr@.len() == 0 && self.data@.len() > 0 ==> r == Some(&self.data@[0]),
    {
        if addr.as_str().is_empty() {
            if self.data.len() > 0 {
                return Some(&self.data[0]);
            }
            return None;
        }
        match self.get_device_pos(addr) {
            Some(i) => Some(&self.data[i]),
            None => None,
        }
    }

    /// Whether the table can answer for a device at all: one as soon as
    /// any device is ready, zero otherwise. Callers only ever compare this
    /// against zero.
    pub fn get_device_count(&self) -> (r: usize)
        ensures
            (r == 1) <==> (exists|i: int| 0 <= i < self.data@.len() && self.data@[i].inner.ready),
            (r == 0) <==> !(exists|i: int| 0 <= i < self.data@.len() && self.data@[i].inner.ready),
    {
        let n = self.data.len();
        let mut i: usize = 0;
        while i < n
            invariant
                i <= n == self.data@.len(),
                forall|k: int| 0 <= k < i ==> !self.data@[k].inner.ready,
            decreases n - i,
        {
            if self.data[i].inner.ready {
                return 1;
            }
            i += 1;
        }
        0
    }

    /// Resolve the address a request names. An empty address falls back to
    /// the first connected device, or to the configured default device when
    /// none is connected. A named device must be ready to be addressed.
    pub fn get_device_address(&self, addr: &String, config: &Config) -> (r: Option<String>)
        requires
            unique_data_addresses(self.data@),
        ensures
            match r {
                Some(full) => addr@.len() > 0 ==> full@ == addr@,
                None => true,
            },
            addr@.len() > 0 ==> ((r is Some) <==> (exists|i: int|
                0 <= i < self.data@.len() && self.data@[i].inner.address@ == addr@
                    && self.data@[i].inner.ready)),
            addr@.len() == 0 && (exists|i: int|
                0 <= i < self.data@.len() && self.data@[i].inner.ready) ==> (r matches Some(f)
                && self.data@.len() > 0 && f@ == self.data@[0].inner.address@),
    {
        if addr.as_str().is_empty() {
            if self.get_device_count() == 0 {
                return match config.get_default_device() {
                    Some(dev) => Some(dev.address.clone()),
                    None => None,
                };
            }
            if self.data.len() > 0 {
                return Some(self.data[0].inner.address.clone());
            }
            return None;
        }

        match self.get_device_pos(addr) {
            Some(i) => {
                if !self.data[i].inner.ready {
                    None
                } else {
                    Some(self.data[i].inner.address.clone())
                }
            },
            None => {
                None
            },
        }
    }

    /// The record for an address, created fresh at the table's end when
    /// none exists yet — as a session does when its first data arrives.
    pub fn ensure_device(&mut self, addr: &String, model: crate::model::Model, now: u64) -> (pos:
        usize)
        ensures
            spec_has_data(old(self).data@, addr@) ==> {
                &&& final(self).data@ == old(self).data@
                &&& pos < final(self).data@.len()
                &&& final(self).data@[pos as int].inner.address@ == addr@
            },
            !spec_has_data(old(self).data@, addr@) ==> {
                &&& final(self).data@ == old(self).data@.push(final(self).data@.last())
                &&& pos == old(self).data@.len()
                &&& crate::buds_info::spec_fresh_record(
                    final(self).data@.last(),
                    addr@,
                    model,
                    now,
                )
            },
    {
        match self.get_device_pos(addr) {
            Some(p) => p,
            None => {
                let fresh = BudsInfo::new(addr.clone(), model, now);
                self.data.push(fresh);
                self.data.len() - 1
            },
        }
    }

    /// Drop every record of the address.
    pub fn remove_addr(&mut self, addr: &String)
        ensures
            final(self).data@ == drop_addr(old(self).data@, addr@),
    {
        let n = self.data.len();
        let mut kept: Vec<BudsInfo> = Vec::new();
        let mut i: usize = 0;
        proof {
            assert(old(self).data@.subrange(0, 0) =~= Seq::<BudsInfo>::empty());
            assert(kept@ =~= drop_addr(old(self).data@.subrange(0, 0), addr@));
        }
        while i < n
            invariant
                i <= n == self.data@.len(),
                self.data@ == old(self).data@,
                kept@ == drop_addr(old(self).data@.subrange(0, i as int), addr@),
            decreases n - i,
        {
            proof {
                lemma_drop_addr_push(old(self).data@.subrange(0, i as int), addr@, self.data@[
                    i as int
                ]);
                assert(old(self).data@.subrange(0, i as int).push(self.data@[i as int])
                    =~= old(self).data@.subrange(0, i as int + 1));
            }
            if !(self.data[i].inner.address == *addr) {
                let entry = self.data[i].clone_record();
                kept.push(entry);
            }
            i += 1;
        }
        proof {
            assert(old(self).data@.subrange(0, n as int) =~= old(self).data@);
        }
        self.data = kept;
    }
}

/// The list of tracked address names with every occurrence of one name
/// dropped, order kept.
pub open spec fn drop_name(s: Seq<String>, name: Seq<char>) -> Seq<String>
    decreases s.len(),
{
    if s.len() == 0 {
        Seq::empty()
    } else if s[0]@ == name {
        drop_name(s.skip(1), name)
    } else {
        seq![s[0]] + drop_name(s.skip(1), name)
    }
}

pub proof fn lemma_drop_name_push(s: Seq<String>, name: Seq<char>, x: String)
    ensures
        drop_name(s.push(x), name) == if x@ == name {
            drop_name(s, name)
        } else {
            drop_name(s, name).push(x)
        },
    decreases s.len(),
{
    if s.len() == 0 {
        assert(s.push(x).skip(1) =~= Seq::empty());
        assert(s =~= Seq::<String>::empty());
        if x@ != name {
            assert(drop_name(s.push(x), name) =~= drop_name(s, name).push(x));
        }
    } else {
        assert(s.push(x).skip(1) =~= s.skip(1).push(x));
        lemma_drop_name_push(s.skip(1), name, x);
        if x@ == name {
            assert(drop_name(s.push(x), name) =~= drop_name(s, name));
        } else {
            assert(drop_name(s.push(x), name) =~= drop_name(s, name).push(x));
        }
    }
}

/// Dropping a name is idempotent.
pub proof fn lemma_drop_name_idempotent(s: Seq<String>, name: Seq<char>)
    ensures
        drop_name(drop_name(s, name), name) == drop_name(s, name),
    decreases s.len(),
{
    if s.len() == 0 {
        assert(drop_name(drop_name(s, name), name) =~= drop_name(s, name));
    } else if s[0]@ == name {
        lemma_drop_name_idempotent(s.skip(1), name);
    } else {
        lemma_drop_name_idempotent(s.skip(1), name);
        let rest = drop_name(s.skip(1), name);
        assert((seq![s[0]] + rest).skip(1) =~= rest);
        assert(drop_name(seq![s[0]] + rest, name) =~= seq![s[0]] + drop_name(rest, name));
        assert(drop_name(drop_name(s, name), name) =~= drop_name(s, name));
    }
}

/// What the handler decides for one adapter connection event.
#[derive(Debug, Clone, Copy, PartialEq, Eq, Structural)]
pub enum ConnectionDecision {
    /// A disconnect: the session and its record were dropped.
    Removed,
    /// The address already runs a session; the event is ignored.
    AlreadyConnected,
    /// A new address: the caller should open its RFCOMM channel and, on
    /// success, register the device and start a session.
    TryConnect,
}

/// The connection handler keeps track of all connected devices and their
/// records, and guarantees at most one session per address.
pub struct ConnHandler {
    pub connected_devices: Vec<String>,
    pub connection_data: ConnectionData,
}

/// Whether a name is tracked.
pub open spec fn spec_tracks(s: Seq<String>, name: Seq<char>) -> bool {
    exists|i: int| 0 <= i < s.len() && s[i]@ == name
}

impl ConnHandler {
    /// A new connection handler around a device table.
    pub fn new(cd: ConnectionData) -> (r: ConnHandler)
        ensures
            r.connected_devices@.len() == 0,
            r.connection_data == cd,
    {
        ConnHandler { connected_devices: Vec::new(), connection_data: cd }
    }

    /// Whether a given device is connected.
    pub fn has_device(&self, dev: &String) -> (r: bool)
        ensures
            r == spec_tracks(self.connected_devices@, dev@),
    {
        let n = self.connected_devices.len();
        let mut i: usize = 0;
        while i < n
            invariant
                i <= n == self.connected_devices@.len(),
                forall|k: int| 0 <= k < i ==> self.connected_devices@[k]@ != dev@,
            decreases n - i,
        {
            if self.connected_devices[i] == *dev {
                return true;
            }
            i += 1;
        }
        false
    }

    /// Track a device.
    pub fn add_device(&mut self, dev: String)
        ensures
            final(self).connected_devices@ == old(self).connected_devices@.push(dev),
            final(self).connection_data == old(self).connection_data,
    {
        self.connected_devices.push(dev);
    }

    /// The position of a device in the tracked list.
    pub fn get_item_pos(&self, dev: &String) -> (r: Option<usize>)
        ensures
            r is Some <==> spec_tracks(self.connected_devices@, dev@),
            match r {
                Some(i) => i < self.connected_devices@.len() && self.connected_devices@[i as int]@
                    == dev@,
                None => true,
            },
    {
        let n = self.connected_devices.len();
        let mut i: usize = 0;
        while i < n
            invariant
                i <= n == self.connected_devices@.len(),
                forall|k: int| 0 <= k < i ==> self.connected_devices@[k]@ != dev@,
            decreases n - i,
        {
            if self.connected_devices[i] == *dev {
                return Some(i);
            }
            i += 1;
        }
        None
    }

    /// Retire a device: its record and its tracking entry go in one step,
    /// so the table cannot split-brain between the two.
    pub fn remove_device(&mut self, dev: &String)
        ensures
            final(self).connection_data.data@ == drop_addr(old(self).connection_data.data@, dev@),
            final(self).connected_devices@ == drop_name(old(self).connected_devices@, dev@),
    {
        self.connection_data.remove_addr(dev);

        let n = self.connected_devices.len();
        let mut kept: Vec<String> = Vec::new();
        let mut i: usize = 0;
        proof {
            assert(old(self).connected_devices@.subrange(0, 0) =~= Seq::<String>::empty());
            assert(kept@ =~= drop_name(old(self).connected_devices@.subrange(0, 0), dev@));
        }
        while i < n
            invariant
                i <= n == self.connected_devices@.len(),
                self.connected_devices@ == old(self).connected_devices@,
                kept@ == drop_name(old(self).connected_devices@.subrange(0, i as int), dev@),
            decreases n - i,
        {
            proof {
                lemma_drop_name_push(
                    old(self).connected_devices@.subrange(0, i as int),
                    dev@,
                    self.connected_devices@[i as int],
                );
                assert(old(self).connected_devices@.subrange(0, i as int).push(
                    self.connected_devices@[i as int],
                ) =~= old(self).connected_devices@.subrange(0, i as int + 1));
            }
            if !(self.connected_devices[i] == *dev) {
                let entry = self.connected_devices[i].clone();
                kept.push(entry);
            }
            i += 1;
        }
        proof {
            assert(old(self).connected_devices@.subrange(0, n as int)
                =~= old(self).connected_devices@);
        }
        self.connected_devices = kept;
    }

    /// Consume one connection event. A disconnect retires the address — a
    /// second disconnect for the same address is a no-op, since nothing of
    /// it remains. A connect for a tracked address is ignored; a new
    /// address is handed back for the caller to open RFCOMM.
    pub fn handle_connection_event(&mut self, addr: &String, connected: bool) -> (r:
        ConnectionDecision)
        ensures
            !connected ==> {
                &&& r == ConnectionDecision::Removed
                &&& final(self).connection_data.data@ == drop_addr(
                    old(self).connection_data.data@,
                    addr@,
                )
                &&& final(self).connected_devices@ == drop_name(
                    old(self).connected_devices@,
                    addr@,
                )
            },
            connected && spec_tracks(old(self).connected_devices@, addr@) ==> {
                &&& r == ConnectionDecision::AlreadyConnected
                &&& *final(self) == *old(self)
            },
            connected && !spec_tracks(old(self).connected_devices@, addr@) ==> {
                &&& r == ConnectionDecision::TryConnect
                &&& *final(self) == *old(self)
            },
    {
        if !connected {
            self.remove_device(addr);
            return ConnectionDecision::Removed;
        }
        if self.has_device(addr) {
            return ConnectionDecision::AlreadyConnected;
        }
        ConnectionDecision::TryConnect
    }

    /// Record a device whose RFCOMM channel just opened: track it and make
    /// sure its settings entry exists. Returns whether the settings changed
    /// and need persisting.
    pub fn register_device(&mut self, addr: &String, config: &mut Config) -> (r: bool)
        ensures
            final(self).connected_devices@ == old(self).connected_devices@.push(
                final(self).connected_devices@.last(),
            ),
            final(self).connected_devices@.last()@ == addr@,
            final(self).connection_data == old(self).connection_data,
            r == !crate::buds_config::spec_has_device_config(old(config).buds_settings@, addr@),
            !r ==> *final(config) == *old(config),
    {
        self.add_device(addr.clone());
        if !config.has_device_config(addr) {
            config.set_device_config(BudsConfig::new(addr.clone()));
            return true;
        }
        false
    }
}

/// Law: two consecutive disconnect events for one address remove its
/// session and record exactly once; the second changes nothing.
pub proof fn lemma_disconnect_idempotent(data: Seq<BudsInfo>, names: Seq<String>, addr: Seq<char>)
    ensures
        drop_addr(drop_addr(data, addr), addr) == drop_addr(data, addr),
        drop_name(drop_name(names, addr), addr) == drop_name(names, addr),
{
    lemma_drop_addr_idempotent(data, addr);
    lemma_drop_name_idempotent(names, addr);
}

impl BudsInfo {
    /// A field-for-field copy of the record.
    pub fn clone_record(&self) -> (r: BudsInfo)
        ensures
            r == *self,
    {
        BudsInfo {
            inner: crate::buds_info::BudsInfoInner {
                address: self.inner.address.clone(),
                ready: self.inner.ready,
                batt_left: self.inner.batt_left,
                batt_right: self.inner.batt_right,
                batt_case: self.inner.batt_case,
                placement_left: self.inner.placement_left,
                placement_right: self.inner.placement_right,
                equalizer_type: self.inner.equalizer_type,
                touchpads_blocked: self.inner.touchpads_blocked,
                noise_reduction: self.inner.noise_reduction,
                did_battery_notify: self.inner.did_battery_notify,
                touchpad_option_left: self.inner.touchpad_option_left,
                touchpad_option_right: self.inner.touchpad_option_right,
                paused_music_earlier: self.inner.paused_music_earlier,
                debug: self.inner.debug,
                model: self.inner.model,
                ambient_sound_enabled: self.inner.ambient_sound_enabled,
                ambient_sound_volume: self.inner.ambient_sound_volume,
                extra_high_ambient_volume: self.inner.extra_high_ambient_volume,
                tab_lock_status: self.inner.tab_lock_status,
            },
            last_debug: self.last_debug,
            left_tp_hold_count: self.left_tp_hold_count,
            right_tp_hold_count: self.right_tp_hold_count,
            last_tp_update: self.last_tp_update,
        }
    }
}

} // verus!
