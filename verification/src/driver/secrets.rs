//! The node's keys: its device key, up to four network keys and up to four
//! application keys, each bound to a network key.

use vstd::prelude::*;
use crate::error::DriverError;
use crate::keys::{ApplicationKey, DeviceKey, NetworkKey};
use crate::models::configuration::{AppKeyIndex, NetKeyIndex};

use crate::driver::provisioning_pdu::ProvisioningData;

verus! {

/// The number of key slots of each table.
pub const KEY_SLOTS: usize = 4;

/// Refers to a stored network key: its index and identifier.
#[derive(Copy, Clone, Debug, PartialEq, Eq, Structural)]
pub struct NetworkKeyHandle {
    pub index: u16,
    pub nid: u8,
}

/// Refers to a stored application key: its index and identifier.
#[derive(Copy, Clone, Debug, PartialEq, Eq, Structural)]
pub struct ApplicationKeyHandle {
    pub index: u16,
    pub aid: u8,
}

/// The indexes of the slots of `keys` holding a key with identifier `id`.
pub open spec fn matching_indexes<T>(keys: Seq<Option<T>>, id: spec_fn(T) -> u8, want: u8, upto: int) -> Seq<u16>
    decreases upto,
{
    if upto <= 0 {
        Seq::empty()
    } else {
        matching_indexes(keys, id, want, upto - 1) + match keys[upto - 1] {
            Some(k) => if id(k) == want {
                seq![(upto - 1) as u16]
            } else {
                Seq::empty()
            },
            None => Seq::empty(),
        }
    }
}

/// Every index that `matching_indexes` lists is below its bound and names a
/// filled slot.
pub proof fn lemma_matching_indexes_valid<T>(keys: Seq<Option<T>>, id: spec_fn(T) -> u8, want: u8, upto: int)
    requires
        0 <= upto <= keys.len(),
        upto <= 0x10000,
    ensures
        forall|i: int| 0 <= i < matching_indexes(keys, id, want, upto).len() ==> {
            let k = #[trigger] matching_indexes(keys, id, want, upto)[i];
            &&& k < upto
            &&& keys[k as int] is Some
        },
    decreases upto,
{
    if upto > 0 {
        lemma_matching_indexes_valid(keys, id, want, upto - 1);
        let prev = matching_indexes(keys, id, want, upto - 1);
        let all = matching_indexes(keys, id, want, upto);
        assert forall|i: int| 0 <= i < all.len() implies ({
            let k = #[trigger] all[i];
            &&& k < upto
            &&& keys[k as int] is Some
        }) by {
            if i < prev.len() {
                assert(all[i] == prev[i]);
            }
        }
    }
}

/// Up to four network keys.
pub struct NetworkKeys {
    keys: Vec<Option<NetworkKey>>,
}

impl NetworkKeys {
    /// The slots.
    pub closed spec fn slots(&self) -> Seq<Option<NetworkKey>> {
        self.keys@
    }

    pub open spec fn wf(&self) -> bool {
        self.slots().len() == 4
    }

    /// Four empty slots.
    pub fn new() -> (r: NetworkKeys)
        ensures
            r.wf(),
            r.slots() == seq![None::<NetworkKey>, None, None, None],
    {
        let mut keys = Vec::new();
        keys.push(None);
        keys.push(None);
        keys.push(None);
        keys.push(None);
        let r = NetworkKeys { keys };
        assert(r.slots() =~= seq![None::<NetworkKey>, None, None, None]);
        r
    }

    /// The table of a freshly provisioned node: its network key in slot 0.
    pub fn from_network_key(network_key: [u8; 16]) -> (r: NetworkKeys)
        ensures
            r.wf(),
            r.slots()[0] matches Some(k) && k.bytes() == network_key@,
            r.slots()[1] is None && r.slots()[2] is None && r.slots()[3] is None,
    {
        let mut keys = NetworkKeys::new();
        let _ = keys.set(0, NetworkKey::new(network_key));
        keys
    }

    /// The handles of the stored keys with identifier `nid`, in slot order.
    pub fn by_nid(&self, nid: u8) -> (r: Vec<NetworkKeyHandle>)
        requires
            self.wf(),
        ensures
            r@.map_values(|h: NetworkKeyHandle| h.index) == matching_indexes(self.slots(), |k: NetworkKey| k.spec_nid(), nid, 4),
            forall|i: int| 0 <= i < r@.len() ==> (#[trigger] r@[i]).nid == nid,
    {
        let mut r: Vec<NetworkKeyHandle> = Vec::new();
        let mut i: usize = 0;
        while i < self.keys.len()
            invariant
                self.wf(),
                i <= 4,
                r@.map_values(|h: NetworkKeyHandle| h.index) == matching_indexes(self.slots(), |k: NetworkKey| k.spec_nid(), nid, i as int),
                forall|j: int| 0 <= j < r@.len() ==> (#[trigger] r@[j]).nid == nid,
            decreases 4 - i,
        {
            let ghost before = r@;
            match &self.keys[i] {
                Some(key) => {
                    if key.nid() == nid {
                        r.push(NetworkKeyHandle { index: i as u16, nid });
                    }
                },
                None => {},
            }
            assert(r@.map_values(|h: NetworkKeyHandle| h.index) =~= matching_indexes(self.slots(), |k: NetworkKey| k.spec_nid(), nid, i + 1));
            i = i + 1;
        }
        r
    }

    /// Stores a key in slot `index`; there are only four slots.
    pub fn set(&mut self, index: u8, network_key: NetworkKey) -> (r: Result<(), DriverError>)
        requires
            old(self).wf(),
        ensures
            final(self).wf(),
            index >= 4 ==> r == Err::<(), DriverError>(DriverError::InsufficientSpace) && final(self).slots() == old(self).slots(),
            index < 4 ==> r is Ok && final(self).slots() == old(self).slots().update(index as int, Some(network_key)),
    {
        if index as usize >= KEY_SLOTS {
            return Err(DriverError::InsufficientSpace);
        }
        self.keys.set(index as usize, Some(network_key));
        Ok(())
    }

    /// The key in slot `index`.
    pub fn get(&self, index: u8) -> (r: Result<NetworkKey, DriverError>)
        requires
            self.wf(),
            index < 4,
        ensures
            match self.slots()[index as int] {
                Some(k) => r == Ok::<NetworkKey, DriverError>(k),
                None => r == Err::<NetworkKey, DriverError>(DriverError::InvalidKeyHandle),
            },
    {
        match &self.keys[index as usize] {
            Some(k) => Ok(*k),
            None => Err(DriverError::InvalidKeyHandle),
        }
    }
}

/// Up to four application keys, each with the network key it is bound to.
pub struct ApplicationKeys {
    keys: Vec<Option<(NetKeyIndex, ApplicationKey)>>,
}

impl ApplicationKeys {
    /// The slots.
    pub closed spec fn slots(&self) -> Seq<Option<(NetKeyIndex, ApplicationKey)>> {
        self.keys@
    }

    pub open spec fn wf(&self) -> bool {
        self.slots().len() == 4
    }

    /// Four empty slots.
    pub fn new() -> (r: ApplicationKeys)
        ensures
            r.wf(),
            forall|i: int| 0 <= i < 4 ==> (#[trigger] r.slots()[i]) is None,
    {
        let mut keys = Vec::new();
        keys.push(None);
        keys.push(None);
        keys.push(None);
        keys.push(None);
        ApplicationKeys { keys }
    }

    /// Whether slot `app_key_index` holds a key; indexes beyond the table hold none.
    pub fn has_key(&self, app_key_index: AppKeyIndex) -> (r: bool)
        requires
            self.wf(),
        ensures
            r == (app_key_index.0.0 < 4 && self.slots()[app_key_index.0.0 as int] is Some),
    {
        let index = app_key_index.value() as usize;
        if index >= KEY_SLOTS {
            return false;
        }
        self.keys[index].is_some()
    }

    /// The handles of the stored keys with identifier `aid`, in slot order.
    pub fn by_aid(&self, aid: u8) -> (r: Vec<ApplicationKeyHandle>)
        requires
            self.wf(),
        ensures
            r@.map_values(|h: ApplicationKeyHandle| h.index) == matching_indexes(
                self.slots(),
                |e: (NetKeyIndex, ApplicationKey)| e.1.spec_aid(),
                aid,
                4,
            ),
            forall|i: int| 0 <= i < r@.len() ==> (#[trigger] r@[i]).aid == aid,
    {
        let mut r: Vec<ApplicationKeyHandle> = Vec::new();
        let mut i: usize = 0;
        while i < self.keys.len()
            invariant
                self.wf(),
                i <= 4,
                r@.map_values(|h: ApplicationKeyHandle| h.index) == matching_indexes(
                    self.slots(),
                    |e: (NetKeyIndex, ApplicationKey)| e.1.spec_aid(),
                    aid,
                    i as int,
                ),
                forall|j: int| 0 <= j < r@.len() ==> (#[trigger] r@[j]).aid == aid,
            decreases 4 - i,
        {
            match &self.keys[i] {
                Some(entry) => {
                    if entry.1.aid() == aid {
                        r.push(ApplicationKeyHandle { index: i as u16, aid });
                    }
                },
                None => {},
            }
            assert(r@.map_values(|h: ApplicationKeyHandle| h.index) =~= matching_indexes(
                self.slots(),
                |e: (NetKeyIndex, ApplicationKey)| e.1.spec_aid(),
                aid,
                i + 1,
            ));
            i = i + 1;
        }
        r
    }

    /// The network key index and handle of the key in slot `index`.
    pub fn get_key_details(&self, index: AppKeyIndex) -> (r: Option<(NetKeyIndex, ApplicationKeyHandle)>)
        requires
            self.wf(),
            index.0.0 < 4,
        ensures
            match self.slots()[index.0.0 as int] {
                Some((n, k)) => r == Some((n, ApplicationKeyHandle { index: index.0.0, aid: k.spec_aid() })),
                None => r is None,
            },
    {
        match &self.keys[index.value() as usize] {
            Some((net_key_index, app_key)) => Some(
                (*net_key_index, ApplicationKeyHandle { index: index.value(), aid: app_key.aid() }),
            ),
            None => None,
        }
    }

    /// The key in slot `index`.
    pub fn get(&self, index: AppKeyIndex) -> (r: Result<ApplicationKey, DriverError>)
        requires
            self.wf(),
            index.0.0 < 4,
        ensures
            match self.slots()[index.0.0 as int] {
                Some((_, k)) => r == Ok::<ApplicationKey, DriverError>(k),
                None => r == Err::<ApplicationKey, DriverError>(DriverError::InvalidAppKeyIndex),
            },
    {
        match &self.keys[index.value() as usize] {
            Some(entry) => Ok(entry.1),
            None => Err(DriverError::InvalidAppKeyIndex),
        }
    }

    /// Stores an application key bound to a network key in an empty slot.
    pub fn add(&mut self, index: AppKeyIndex, net_key_index: NetKeyIndex, application_key: ApplicationKey) -> (r: Result<(), DriverError>)
        requires
            old(self).wf(),
        ensures
            final(self).wf(),
            index.0.0 >= 4 ==> r == Err::<(), DriverError>(DriverError::InvalidAppKeyIndex) && final(self).slots() == old(self).slots(),
            index.0.0 < 4 && old(self).slots()[index.0.0 as int] is Some ==> r == Err::<(), DriverError>(
                DriverError::AppKeyIndexAlreadyStored,
            ) && final(self).slots() == old(self).slots(),
            index.0.0 < 4 && old(self).slots()[index.0.0 as int] is None ==> r is Ok && final(self).slots() == old(
                self,
            ).slots().update(index.0.0 as int, Some((net_key_index, application_key))),
    {
        let i = index.value() as usize;
        if i >= KEY_SLOTS {
            return Err(DriverError::InvalidAppKeyIndex);
        }
        if self.keys[i].is_some() {
            Err(DriverError::AppKeyIndexAlreadyStored)
        } else {
            self.keys.set(i, Some((net_key_index, application_key)));
            Ok(())
        }
    }

    /// Removes the application key in slot `index` if it is bound to
    /// `net_key_index`.
    pub fn delete(&mut self, index: AppKeyIndex, net_key_index: NetKeyIndex) -> (r: Result<(), DriverError>)
        requires
            old(self).wf(),
        ensures
            final(self).wf(),
            index.0.0 >= 4 ==> r == Err::<(), DriverError>(DriverError::InvalidAppKeyIndex) && final(self).slots() == old(self).slots(),
            index.0.0 < 4 ==> match old(self).slots()[index.0.0 as int] {
                Some((n, _)) => if n == net_key_index {
                    r is Ok && final(self).slots() == old(self).slots().update(index.0.0 as int, None)
                } else {
                    r == Err::<(), DriverError>(DriverError::InvalidNetKeyIndex) && final(self).slots() == old(self).slots()
                },
                None => r == Err::<(), DriverError>(DriverError::InvalidAppKeyIndex) && final(self).slots() == old(self).slots(),
            },
    {
        let i = index.value() as usize;
        if i >= KEY_SLOTS {
            return Err(DriverError::InvalidAppKeyIndex);
        }
        let current = match &self.keys[i] {
            Some(entry) => Some(entry.0),
            None => None,
        };
        match current {
            Some(current_net_key_index) => {
                if net_key_index == current_net_key_index {
                    self.keys.set(i, None);
                    Ok(())
                } else {
                    Err(DriverError::InvalidNetKeyIndex)
                }
            },
            None => Err(DriverError::InvalidAppKeyIndex),
        }
    }
}

/// Adding a key to an empty slot and reading the slot gives the key back;
/// deleting it with its network key index empties the slot again.
pub proof fn lemma_app_key_add_get_delete(
    slots: Seq<Option<(NetKeyIndex, ApplicationKey)>>,
    index: AppKeyIndex,
    net_key_index: NetKeyIndex,
    key: ApplicationKey,
)
    requires
        slots.len() == 4,
        index.0.0 < 4,
        slots[index.0.0 as int] is None,
    ensures
        slots.update(index.0.0 as int, Some((net_key_index, key)))[index.0.0 as int] == Some((net_key_index, key)),
        slots.update(index.0.0 as int, Some((net_key_index, key))).update(index.0.0 as int, None) == slots,
{
    assert(slots.update(index.0.0 as int, Some((net_key_index, key))).update(index.0.0 as int, None) =~= slots);
}

/// The device key and the network and application key tables.
pub struct Secrets {
    pub device_key: DeviceKey,
    pub network_keys: NetworkKeys,
    pub application_keys: ApplicationKeys,
}

impl Secrets {
    pub open spec fn wf(&self) -> bool {
        self.network_keys.wf() && self.application_keys.wf()
    }

    /// The secrets of a freshly provisioned node.
    pub fn new(device_key: DeviceKey, network_keys: NetworkKeys, application_keys: ApplicationKeys) -> (r: Secrets)
        ensures
            r.device_key == device_key,
            r.network_keys == network_keys,
            r.application_keys == application_keys,
    {
        Secrets { device_key, network_keys, application_keys }
    }

    /// The secrets a device gets from provisioning: its device key, the
    /// network key it was given in slot 0, and no application key.
    pub fn from_provisioning(device_key: DeviceKey, data: &ProvisioningData) -> (r: Secrets)
        ensures
            r.wf(),
            r.device_key == device_key,
            r.network_keys.slots()[0] matches Some(k) && k.bytes() == data.network_key@,
            r.network_keys.slots()[1] is None && r.network_keys.slots()[2] is None && r.network_keys.slots()[3] is None,
            forall|i: int| 0 <= i < 4 ==> (#[trigger] r.application_keys.slots()[i]) is None,
    {
        Secrets::new(device_key, NetworkKeys::from_network_key(data.network_key), ApplicationKeys::new())
    }

    /// The device key.
    pub fn device_key(&self) -> (r: DeviceKey)
        ensures
            r == self.device_key,
    {
        self.device_key
    }

    /// The handles of the network keys with identifier `nid`.
    pub fn network_keys_by_nid(&self, nid: u8) -> (r: Vec<NetworkKeyHandle>)
        requires
            self.wf(),
        ensures
            r@.map_values(|h: NetworkKeyHandle| h.index) == matching_indexes(
                self.network_keys.slots(),
                |k: NetworkKey| k.spec_nid(),
                nid,
                4,
            ),
    {
        self.network_keys.by_nid(nid)
    }

    /// The network key a handle refers to.
    pub fn network_key(&self, handle: NetworkKeyHandle) -> (r: Result<NetworkKey, DriverError>)
        requires
            self.wf(),
            handle.index < 4,
        ensures
            match self.network_keys.slots()[handle.index as int] {
                Some(k) => r == Ok::<NetworkKey, DriverError>(k),
                None => r == Err::<NetworkKey, DriverError>(DriverError::InvalidKeyHandle),
            },
    {
        self.network_keys.get(handle.index as u8)
    }

    /// The network key in slot `index`.
    pub fn network_key_by_index(&self, index: u8) -> (r: Result<NetworkKey, DriverError>)
        requires
            self.wf(),
            index < 4,
        ensures
            match self.network_keys.slots()[index as int] {
                Some(k) => r == Ok::<NetworkKey, DriverError>(k),
                None => r == Err::<NetworkKey, DriverError>(DriverError::InvalidKeyHandle),
            },
    {
        self.network_keys.get(index)
    }

    /// The handles of the application keys with identifier `aid`.
    pub fn application_keys_by_aid(&self, aid: u8) -> (r: Vec<ApplicationKeyHandle>)
        requires
            self.wf(),
        ensures
            r@.map_values(|h: ApplicationKeyHandle| h.index) == matching_indexes(
                self.application_keys.slots(),
                |e: (NetKeyIndex, ApplicationKey)| e.1.spec_aid(),
                aid,
                4,
            ),
            forall|i: int| 0 <= i < r@.len() ==> (#[trigger] r@[i]).aid == aid,
    {
        self.application_keys.by_aid(aid)
    }

    /// The application key a handle refers to.
    pub fn application_key(&self, handle: ApplicationKeyHandle) -> (r: Result<ApplicationKey, DriverError>)
        requires
            self.wf(),
            handle.index < 4,
        ensures
            match self.application_keys.slots()[handle.index as int] {
                Some((_, k)) => r == Ok::<ApplicationKey, DriverError>(k),
                None => r == Err::<ApplicationKey, DriverError>(DriverError::InvalidKeyHandle),
            },
    {
        match self.application_keys.get(AppKeyIndex::new(handle.index)) {
            Ok(k) => Ok(k),
            Err(_) => Err(DriverError::InvalidKeyHandle),
        }
    }
}

} // verus!
