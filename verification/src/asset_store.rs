//! The single current background asset and its version counter.
//!
//! One writer installs a new payload with [`BackgroundState::replace`]; any
//! number of readers take point-in-time copies with
//! [`BackgroundState::snapshot`]. The caller serialises access (a lock) and
//! wakes its waiters after each replacement.

use vstd::prelude::*;

verus! {

/// A produced image: its bytes and its content type.
#[derive(Debug, PartialEq, Eq)]
pub struct BackgroundAsset {
    pub bytes: Vec<u8>,
    pub mime: String,
}

impl View for BackgroundAsset {
    type V = (Seq<u8>, Seq<char>);

    open spec fn view(&self) -> (Seq<u8>, Seq<char>) {
        (self.bytes@, self.mime@)
    }
}

impl BackgroundAsset {
    /// A copy that holds the same bytes and the same content type.
    pub fn duplicate(&self) -> (copy: BackgroundAsset)
        ensures
            copy@ == self@,
    {
        BackgroundAsset { bytes: self.bytes.clone(), mime: self.mime.clone() }
    }
}

/// The payload of an optional asset.
pub open spec fn payload_of(asset: Option<BackgroundAsset>) -> Option<(Seq<u8>, Seq<char>)> {
    match asset {
        Some(asset) => Some(asset@),
        None => None,
    }
}

/// The version that follows `version`: one more, wrapping to zero after the
/// largest 64-bit value.
pub open spec fn next_version(version: u64) -> u64 {
    if version == u64::MAX {
        0
    } else {
        (version + 1) as u64
    }
}

/// What the store holds, as a value: the version counter and the payload.
pub struct VersionedAsset {
    pub version: u64,
    pub payload: Option<(Seq<u8>, Seq<char>)>,
}

impl VersionedAsset {
    /// The never-yet-produced state.
    pub open spec fn initial() -> VersionedAsset {
        VersionedAsset { version: 0, payload: None }
    }

    /// A store without a payload has never been written, so its version is
    /// zero.
    pub open spec fn well_formed(self) -> bool {
        self.payload is None ==> self.version == 0
    }

    /// The state after one replacement.
    pub open spec fn replaced(self, bytes: Seq<u8>, mime: Seq<char>) -> VersionedAsset {
        VersionedAsset { version: next_version(self.version), payload: Some((bytes, mime)) }
    }

    /// The state after the replacements `writes`, applied in order.
    pub open spec fn after(self, writes: Seq<(Seq<u8>, Seq<char>)>) -> VersionedAsset
        decreases writes.len(),
    {
        if writes.len() == 0 {
            self
        } else {
            self.after(writes.drop_last()).replaced(writes.last().0, writes.last().1)
        }
    }
}

/// The store: a version counter and the payload it counts.
pub struct BackgroundState {
    version: u64,
    asset: Option<BackgroundAsset>,
}

impl View for BackgroundState {
    type V = VersionedAsset;

    closed spec fn view(&self) -> VersionedAsset {
        VersionedAsset { version: self.version, payload: payload_of(self.asset) }
    }
}

impl BackgroundState {
    #[verifier::type_invariant]
    spec fn valid(&self) -> bool {
        self@.well_formed()
    }

    /// A store that has never produced an asset.
    pub fn new() -> (store: BackgroundState)
        ensures
            store@ == VersionedAsset::initial(),
    {
        BackgroundState { version: 0, asset: None }
    }

    /// Installs a new payload and advances the version by one, wrapping on
    /// overflow. This is the only operation that changes the version.
    pub fn replace(&mut self, bytes: Vec<u8>, mime: String)
        ensures
            final(self)@ == old(self)@.replaced(bytes@, mime@),
    {
        let next = self.version.wrapping_add(1);
        *self = BackgroundState { version: next, asset: Some(BackgroundAsset { bytes, mime }) };
    }

    /// The current version.
    pub fn version(&self) -> (version: u64)
        ensures
            version == self@.version,
            self@.well_formed(),
    {
        proof {
            use_type_invariant(self);
        }
        self.version
    }

    /// The current payload, if one was ever produced.
    pub fn asset(&self) -> (asset: Option<&BackgroundAsset>)
        ensures
            asset is Some <==> self@.payload is Some,
            asset is Some ==> Some(asset->0@) == self@.payload,
            self@.well_formed(),
    {
        proof {
            use_type_invariant(self);
        }
        self.asset.as_ref()
    }

    /// A point-in-time copy of the version and the payload.
    pub fn snapshot(&self) -> (copy: (u64, Option<BackgroundAsset>))
        ensures
            copy.0 == self@.version,
            payload_of(copy.1) == self@.payload,
            self@.well_formed(),
    {
        proof {
            use_type_invariant(self);
        }
        let asset = match &self.asset {
            Some(asset) => Some(asset.duplicate()),
            None => None,
        };
        (self.version, asset)
    }
}

/// Starting from a store that never produced an asset, `writes.len()`
/// replacements leave the version at that count modulo 2^64, and after each
/// replacement the payload is the one just written.
pub proof fn lemma_replace_sequence(writes: Seq<(Seq<u8>, Seq<char>)>)
    ensures
        VersionedAsset::initial().after(writes).version == writes.len()
            % 0x1_0000_0000_0000_0000,
        forall|k: int|
            0 < k <= writes.len() ==> (#[trigger] VersionedAsset::initial().after(
                writes.take(k),
            )).payload == Some(writes[k - 1]),
        VersionedAsset::initial().after(writes).well_formed(),
    decreases writes.len(),
{
    let start = VersionedAsset::initial();
    if writes.len() > 0 {
        let shorter = writes.drop_last();
        lemma_replace_sequence(shorter);
        assert forall|k: int| 0 < k <= writes.len() implies (#[trigger] start.after(
            writes.take(k),
        )).payload == Some(writes[k - 1]) by {
            if k < writes.len() {
                assert(writes.take(k) =~= shorter.take(k));
            } else {
                assert(writes.take(k) =~= writes);
            }
        }
    }
}

/// While fewer than 2^64 replacements have been made, the version is zero
/// exactly when no payload was ever produced.
pub proof fn lemma_version_zero_iff_unwritten(writes: Seq<(Seq<u8>, Seq<char>)>)
    requires
        writes.len() < 0x1_0000_0000_0000_0000,
    ensures
        VersionedAsset::initial().after(writes).version == 0 <==> VersionedAsset::initial().after(
            writes,
        ).payload is None,
{
    lemma_replace_sequence(writes);
    if writes.len() > 0 {
        assert(writes.take(writes.len() as int) =~= writes);
    }
}

} // verus!
