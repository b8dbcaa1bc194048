//! Save metadata and the decision of which way a save has to travel.

use vstd::prelude::*;

use crate::digest::{md5_digest, md5_of, utc_from_timestamp_nanos};

verus! {

/// A point in time: whole seconds since the Unix epoch and the nanoseconds
/// past them (a leap second carries `nanos` of one billion or more).
#[derive(Debug, Clone, Copy, PartialEq, Eq, Structural, Hash)]
pub struct Timestamp {
    pub secs: i64,
    pub nanos: u32,
}

/// `a` lies strictly before `b`.
pub open spec fn is_before(a: Timestamp, b: Timestamp) -> bool {
    a.secs < b.secs || (a.secs == b.secs && a.nanos < b.nanos)
}

/// The later of two points in time.
pub open spec fn later_of(a: Timestamp, b: Timestamp) -> Timestamp {
    if is_before(a, b) {
        b
    } else {
        a
    }
}

impl Timestamp {
    /// Whether `self` lies strictly before `other`.
    pub fn before(&self, other: &Timestamp) -> (r: bool)
        ensures
            r == is_before(*self, *other),
    {
        self.secs < other.secs || (self.secs == other.secs && self.nanos < other.nanos)
    }

    /// The later of `self` and `other`.
    pub fn max(self, other: Timestamp) -> (r: Timestamp)
        ensures
            r == later_of(self, other),
    {
        if self.before(&other) {
            other
        } else {
            self
        }
    }
}

/// An MD5 digest, its sixteen bytes read as a big-endian integer.
#[derive(Debug, Clone, Copy, PartialEq, Eq, Structural, Hash)]
pub struct Md5Hash(pub u128);

/// What is known of one copy of a save file.
#[derive(Debug, Clone, PartialEq, Eq, Hash)]
pub struct SaveMeta {
    pub rom: String,
    pub name: String,
    pub emulator: Option<String>,
    pub created: Timestamp,
    pub updated: Timestamp,
    pub hash: Md5Hash,
    pub size: u64,
}

impl SaveMeta {
    /// The moment the save last changed: the later of its creation and update times.
    pub open spec fn last_change(self) -> Timestamp {
        later_of(self.created, self.updated)
    }

    /// A save holds no data.
    pub open spec fn holds_nothing(self) -> bool {
        self.size == 0
    }

    /// The later of the creation and update times.
    pub fn timestamp(&self) -> (t: Timestamp)
        ensures
            t == self.last_change(),
    {
        self.created.max(self.updated)
    }

    /// Metadata for a save that does not exist yet: no bytes, the digest of
    /// the empty input, and both times at the Unix epoch.
    pub fn new_empty(rom: String, name: String, emulator: Option<String>) -> (s: Self)
        ensures
            s.rom == rom,
            s.name == name,
            s.emulator == emulator,
            s.size == 0,
            s.hash == Md5Hash(md5_of(Seq::empty())),
            s.created == (Timestamp { secs: 0, nanos: 0 }),
            s.updated == (Timestamp { secs: 0, nanos: 0 }),
    {
        let empty: [u8; 0] = [];
        let hash = Md5Hash(md5_digest(empty.as_slice()));
        proof {
            assert(empty@ =~= Seq::<u8>::empty());
        }
        let (c_secs, c_nanos): (i64, u32) = utc_from_timestamp_nanos(0);
        let (u_secs, u_nanos): (i64, u32) = utc_from_timestamp_nanos(0);
        let created = Timestamp { secs: c_secs, nanos: c_nanos };
        let updated = Timestamp { secs: u_secs, nanos: u_nanos };
        SaveMeta { rom, name, emulator, created, updated, hash, size: 0 }
    }

    /// Metadata for a save whose contents are `data`: its size is the number
    /// of bytes and its digest the MD5 digest of them.
    pub fn from_contents(
        rom: String,
        name: String,
        emulator: Option<String>,
        data: &[u8],
        created: Timestamp,
        updated: Timestamp,
    ) -> (s: Self)
        ensures
            s.rom == rom,
            s.name == name,
            s.emulator == emulator,
            s.size == data@.len(),
            s.hash == Md5Hash(md5_of(data@)),
            s.created == created,
            s.updated == updated,
    {
        let hash = Md5Hash(md5_digest(data));
        let size: u64 = data.len() as u64;
        SaveMeta { rom, name, emulator, created, updated, hash, size }
    }

    /// Whether the save holds no data.
    pub fn is_empty(&self) -> (b: bool)
        ensures
            b == self.holds_nothing(),
    {
        self.size == 0
    }
}

/// One side of a synchronisation.
#[derive(Debug, Clone, Copy, PartialEq, Eq, Structural, Hash)]
pub enum SyncTarget {
    Device,
    Remote,
}

/// What to do with a save.
#[derive(Debug, Clone, Copy, PartialEq, Eq, Structural, Hash)]
pub enum SyncDecision {
    Noop,
    PushToRemote,
    PullToDevice,
}

impl Default for SyncDecision {
    fn default() -> (d: Self)
        ensures
            d == SyncDecision::Noop,
    {
        SyncDecision::Noop
    }
}

/// Why no decision could be taken.
#[derive(Debug, Clone, Copy, PartialEq, Eq, Structural, Hash)]
pub enum SyncError {
    /// Both copies differ from the last synchronised one and from each other.
    Conflict,
    /// Only the remote copy changed, yet the device copy is not older.
    DeviceNotOlder,
    /// Only the device copy changed, yet the device copy is not newer.
    DeviceNotNewer,
}

impl SyncError {
    /// The text with which the error is reported.
    pub fn message(&self) -> (m: &'static str)
        ensures
            *self == SyncError::Conflict ==> m@ == "CONFLICT"@,
            *self == SyncError::DeviceNotOlder ==> m@
                == "TIMESTAMP: device >= remote, but not expected."@,
            *self == SyncError::DeviceNotNewer ==> m@
                == "TIMESTAMP: device <= remote, but not expected."@,
    {
        match self {
            SyncError::Conflict => "CONFLICT",
            SyncError::DeviceNotOlder => "TIMESTAMP: device >= remote, but not expected.",
            SyncError::DeviceNotNewer => "TIMESTAMP: device <= remote, but not expected.",
        }
    }
}

/// The decision for a device copy, a remote copy and the copy recorded at
/// the last synchronisation.
///
/// A side that holds nothing takes the other side's data. Equal digests need
/// nothing. Otherwise the side that still matches the recorded copy receives
/// the other, provided the other is the more recent; when neither matches the
/// copies conflict.
pub open spec fn sync_decision(device: SaveMeta, remote: SaveMeta, in_db: SaveMeta) -> Result<
    SyncDecision,
    SyncError,
> {
    if device.holds_nothing() && !remote.holds_nothing() {
        Ok(SyncDecision::PullToDevice)
    } else if remote.holds_nothing() && !device.holds_nothing() {
        Ok(SyncDecision::PushToRemote)
    } else if device.hash == remote.hash {
        Ok(SyncDecision::Noop)
    } else {
        let device_is_db = device.hash == in_db.hash;
        let remote_is_db = remote.hash == in_db.hash;
        if device_is_db && remote_is_db {
            Ok(SyncDecision::Noop)
        } else if !device_is_db && !remote_is_db {
            Err(SyncError::Conflict)
        } else if device_is_db {
            if is_before(device.last_change(), remote.last_change()) {
                Ok(SyncDecision::PullToDevice)
            } else {
                Err(SyncError::DeviceNotOlder)
            }
        } else {
            if is_before(remote.last_change(), device.last_change()) {
                Ok(SyncDecision::PushToRemote)
            } else {
                Err(SyncError::DeviceNotNewer)
            }
        }
    }
}

/// Decides which way a save has to travel.
pub fn decide_action(device_save: &SaveMeta, remote_save: &SaveMeta, in_db: &SaveMeta) -> (r:
    Result<SyncDecision, SyncError>)
    ensures
        r == sync_decision(*device_save, *remote_save, *in_db),
{
    if device_save.is_empty() && !remote_save.is_empty() {
        return Ok(SyncDecision::PullToDevice);
    }
    if remote_save.is_empty() && !device_save.is_empty() {
        return Ok(SyncDecision::PushToRemote);
    }
    if device_save.hash == remote_save.hash {
        return Ok(SyncDecision::Noop);
    }
    let device_is_db = device_save.hash == in_db.hash;
    let remote_is_db = remote_save.hash == in_db.hash;
    match (device_is_db, remote_is_db) {
        (true, true) => Ok(SyncDecision::Noop),
        (false, false) => Err(SyncError::Conflict),
        (true, false) => {
            if device_save.timestamp().before(&remote_save.timestamp()) {
                Ok(SyncDecision::PullToDevice)
            } else {
                Err(SyncError::DeviceNotOlder)
            }
        },
        (false, true) => {
            if remote_save.timestamp().before(&device_save.timestamp()) {
                Ok(SyncDecision::PushToRemote)
            } else {
                Err(SyncError::DeviceNotNewer)
            }
        },
    }
}

/// The decision with the two sides exchanged: pushing and pulling swap, and
/// so do the two timestamp errors.
pub open spec fn mirrored(r: Result<SyncDecision, SyncError>) -> Result<SyncDecision, SyncError> {
    match r {
        Ok(SyncDecision::PushToRemote) => Ok(SyncDecision::PullToDevice),
        Ok(SyncDecision::PullToDevice) => Ok(SyncDecision::PushToRemote),
        Ok(SyncDecision::Noop) => Ok(SyncDecision::Noop),
        Err(SyncError::Conflict) => Err(SyncError::Conflict),
        Err(SyncError::DeviceNotOlder) => Err(SyncError::DeviceNotNewer),
        Err(SyncError::DeviceNotNewer) => Err(SyncError::DeviceNotOlder),
    }
}

/// The decision treats both sides alike: exchanging the device and the
/// remote copy mirrors the decision.
pub proof fn lemma_decision_symmetric(device: SaveMeta, remote: SaveMeta, in_db: SaveMeta)
    ensures
        sync_decision(remote, device, in_db) == mirrored(sync_decision(device, remote, in_db)),
{
}

/// Two copies with the same digest, both empty or both not, need nothing,
/// whatever was recorded at the last synchronisation; in particular a save
/// compared with itself needs nothing.
pub proof fn lemma_equal_copies_need_nothing(device: SaveMeta, remote: SaveMeta, in_db: SaveMeta)
    requires
        device.hash == remote.hash,
        device.holds_nothing() == remote.holds_nothing(),
    ensures
        sync_decision(device, remote, in_db) == Ok::<SyncDecision, SyncError>(SyncDecision::Noop),
{
}

/// Unless both copies hold nothing, a copy that holds nothing is never sent
/// over one that holds data.
pub proof fn lemma_never_overwrites_data_with_nothing(
    device: SaveMeta,
    remote: SaveMeta,
    in_db: SaveMeta,
)
    requires
        !(device.holds_nothing() && remote.holds_nothing()),
    ensures
        sync_decision(device, remote, in_db) == Ok::<SyncDecision, SyncError>(
            SyncDecision::PullToDevice,
        ) ==> !remote.holds_nothing(),
        sync_decision(device, remote, in_db) == Ok::<SyncDecision, SyncError>(
            SyncDecision::PushToRemote,
        ) ==> !device.holds_nothing(),
{
}

/// A copy that has not changed since the last synchronisation is never sent
/// over one that has changed and holds data.
pub proof fn lemma_unchanged_copy_never_wins(device: SaveMeta, remote: SaveMeta, in_db: SaveMeta)
    ensures
        device.hash == in_db.hash && remote.hash != in_db.hash && !remote.holds_nothing()
            ==> sync_decision(device, remote, in_db) != Ok::<SyncDecision, SyncError>(
            SyncDecision::PushToRemote,
        ),
        remote.hash == in_db.hash && device.hash != in_db.hash && !device.holds_nothing()
            ==> sync_decision(device, remote, in_db) != Ok::<SyncDecision, SyncError>(
            SyncDecision::PullToDevice,
        ),
{
}

/// Once a decision to copy has been carried out, both sides hold the same
/// save and the next decision is to do nothing.
pub proof fn lemma_copy_settles(device: SaveMeta, remote: SaveMeta, in_db: SaveMeta)
    ensures
        sync_decision(device, remote, in_db) == Ok::<SyncDecision, SyncError>(
            SyncDecision::PullToDevice,
        ) ==> sync_decision(remote, remote, in_db) == Ok::<SyncDecision, SyncError>(
            SyncDecision::Noop,
        ),
        sync_decision(device, remote, in_db) == Ok::<SyncDecision, SyncError>(
            SyncDecision::PushToRemote,
        ) ==> sync_decision(device, device, in_db) == Ok::<SyncDecision, SyncError>(
            SyncDecision::Noop,
        ),
{
}

/// Copies that both differ from the recorded one and from each other, and
/// both hold data, conflict.
pub proof fn lemma_diverged_copies_conflict(device: SaveMeta, remote: SaveMeta, in_db: SaveMeta)
    requires
        device.hash != in_db.hash,
        remote.hash != in_db.hash,
        device.hash != remote.hash,
        !device.holds_nothing(),
        !remote.holds_nothing(),
    ensures
        sync_decision(device, remote, in_db) == Err::<SyncDecision, SyncError>(SyncError::Conflict),
{
}

/// Times are ordered chronologically: by whole seconds first, and by the
/// nanoseconds past them only within the same second.
pub proof fn lemma_is_before_is_chronological(a: Timestamp, b: Timestamp)
    ensures
        a.secs < b.secs ==> is_before(a, b),
        b.secs < a.secs ==> !is_before(a, b),
        a.secs == b.secs ==> (is_before(a, b) <==> a.nanos < b.nanos),
        !(is_before(a, b) && is_before(b, a)),
{
}

/// The later of two times is one of them, and the chronologically latest:
/// the one with more whole seconds, or within the same second the one with
/// more nanoseconds.
pub proof fn lemma_later_of_is_latest(a: Timestamp, b: Timestamp)
    ensures
        later_of(a, b) == a || later_of(a, b) == b,
        a.secs < b.secs ==> later_of(a, b) == b,
        b.secs < a.secs ==> later_of(a, b) == a,
        a.secs == b.secs && a.nanos < b.nanos ==> later_of(a, b) == b,
        a.secs == b.secs && b.nanos < a.nanos ==> later_of(a, b) == a,
        later_of(a, b) == later_of(b, a),
{
}

/// A save's time is its creation or its update time, and is no earlier than
/// either of them.
pub proof fn lemma_last_change_is_latest(m: SaveMeta)
    ensures
        m.last_change() == m.created || m.last_change() == m.updated,
        m.last_change().secs > m.created.secs || (m.last_change().secs == m.created.secs
            && m.last_change().nanos >= m.created.nanos),
        m.last_change().secs > m.updated.secs || (m.last_change().secs == m.updated.secs
            && m.last_change().nanos >= m.updated.nanos),
{
}

/// When exactly one copy changed since the last synchronisation and both
/// hold data, the changed copy is taken if and only if it is chronologically
/// the more recent: seconds decide first, nanoseconds only within the same
/// second. Otherwise the matching timestamp error is reported.
pub proof fn lemma_decision_follows_time(device: SaveMeta, remote: SaveMeta, in_db: SaveMeta)
    requires
        device.size != 0,
        remote.size != 0,
    ensures
        device.hash == in_db.hash && remote.hash != in_db.hash ==> {
            let d = device.last_change();
            let r = remote.last_change();
            &&& d.secs < r.secs ==> sync_decision(device, remote, in_db) == Ok::<
                SyncDecision,
                SyncError,
            >(SyncDecision::PullToDevice)
            &&& r.secs < d.secs ==> sync_decision(device, remote, in_db) == Err::<
                SyncDecision,
                SyncError,
            >(SyncError::DeviceNotOlder)
            &&& d.secs == r.secs && d.nanos < r.nanos ==> sync_decision(device, remote, in_db)
                == Ok::<SyncDecision, SyncError>(SyncDecision::PullToDevice)
            &&& d.secs == r.secs && r.nanos <= d.nanos ==> sync_decision(device, remote, in_db)
                == Err::<SyncDecision, SyncError>(SyncError::DeviceNotOlder)
        },
        remote.hash == in_db.hash && device.hash != in_db.hash ==> {
            let d = device.last_change();
            let r = remote.last_change();
            &&& r.secs < d.secs ==> sync_decision(device, remote, in_db) == Ok::<
                SyncDecision,
                SyncError,
            >(SyncDecision::PushToRemote)
            &&& d.secs < r.secs ==> sync_decision(device, remote, in_db) == Err::<
                SyncDecision,
                SyncError,
            >(SyncError::DeviceNotNewer)
            &&& d.secs == r.secs && r.nanos < d.nanos ==> sync_decision(device, remote, in_db)
                == Ok::<SyncDecision, SyncError>(SyncDecision::PushToRemote)
            &&& d.secs == r.secs && d.nanos <= r.nanos ==> sync_decision(device, remote, in_db)
                == Err::<SyncDecision, SyncError>(SyncError::DeviceNotNewer)
        },
{
}

/// A save holds nothing exactly when its size is zero.
pub proof fn lemma_holds_nothing_is_zero_size(m: SaveMeta)
    ensures
        m.holds_nothing() <==> m.size == 0,
{
}

/// A side that holds nothing receives the other side's data, whatever the
/// digests and times say.
pub proof fn lemma_empty_side_receives(device: SaveMeta, remote: SaveMeta, in_db: SaveMeta)
    ensures
        device.size == 0 && remote.size != 0 ==> sync_decision(device, remote, in_db) == Ok::<
            SyncDecision,
            SyncError,
        >(SyncDecision::PullToDevice),
        remote.size == 0 && device.size != 0 ==> sync_decision(device, remote, in_db) == Ok::<
            SyncDecision,
            SyncError,
        >(SyncDecision::PushToRemote),
{
}

} // verus!
