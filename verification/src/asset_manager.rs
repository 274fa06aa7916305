//! The asset cache: owns loaded, immutable asset payloads (mesh geometry and
//! the like), independent of the entity system. Every `create_asset` call
//! mints a fresh handle — the next value of a monotone counter, so no two
//! assets of one manager ever share a handle — and a handle can only ever
//! resolve to the asset it was minted for.

use vstd::prelude::*;

verus! {

/// An opaque token minted by `create_asset`, addressing exactly one asset.
#[derive(Clone, Copy, PartialEq, Eq, Structural, Debug, Hash)]
pub struct AssetHandle {
    id: usize,
}

impl AssetHandle {
    /// The counter value this handle was minted with.
    pub closed spec fn id(&self) -> int {
        self.id as int
    }
}

/// A stored asset: its payload together with the handle it was minted under.
pub struct Asset<T> {
    /// The handle that addresses this asset.
    pub asset_handle: AssetHandle,
    /// The payload handed to `create_asset`.
    pub asset: T,
}

/// Owns all assets of payload type `T`, addressed by handle.
pub struct AssetManager<T> {
    assets: Vec<Asset<T>>,
}

impl<T> AssetManager<T> {
    /// The mathematical content of the cache: the asset payloads in creation
    /// order; the asset minted by the k-th creation has handle id `k`.
    pub closed spec fn view(&self) -> Seq<T> {
        self.assets@.map_values(|a: Asset<T>| a.asset)
    }

    /// Every stored asset carries the handle it was minted under: the handle
    /// id equals the asset's creation index.
    pub closed spec fn wf(&self) -> bool {
        forall|i: int|
            0 <= i < self.assets@.len() ==> (#[trigger] self.assets@[i].asset_handle).id() == i
    }

    /// An empty cache.
    pub fn new() -> (am: AssetManager<T>)
        ensures
            am.wf(),
            am@ == Seq::<T>::empty(),
    {
        AssetManager { assets: Vec::new() }
    }

    /// Stores a payload and mints the fresh handle addressing it. The handle
    /// id is the creation index, so it differs from every handle minted
    /// before, and all earlier assets are untouched.
    pub fn create_asset(&mut self, asset: T) -> (handle: AssetHandle)
        requires
            old(self).wf(),
        ensures
            final(self).wf(),
            handle.id() == old(self)@.len(),
            final(self)@ == old(self)@.push(asset),
    {
        let id = self.assets.len();
        let asset_handle = AssetHandle { id };
        self.assets.push(Asset { asset_handle, asset });
        proof {
            assert(self@ =~= old(self)@.push(asset));
        }
        asset_handle
    }

    /// Resolves a handle: `Some` exactly for the handles this manager has
    /// minted, and then always the very asset the handle was minted for —
    /// an unknown handle yields `None`, never some other asset.
    pub fn get_asset(&self, handle: AssetHandle) -> (r: Option<&Asset<T>>)
        requires
            self.wf(),
        ensures
            r is Some <==> 0 <= handle.id() < self@.len(),
            r matches Some(a) ==> {
                &&& a.asset_handle == handle
                &&& a.asset == self@[handle.id()]
            },
    {
        if handle.id < self.assets.len() {
            let a = &self.assets[handle.id];
            proof {
                assert(a.asset_handle.id() == handle.id());
            }
            Some(a)
        } else {
            None
        }
    }

    /// How many assets were created so far.
    pub fn len(&self) -> (n: usize)
        ensures
            n == self@.len(),
    {
        self.assets.len()
    }
}

} // verus!
