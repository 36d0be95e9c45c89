//! The asset pipeline adapter: the decoded dataset as a loadable,
//! reference-counted resource.
//!
//! The host's asset system owns the byte stream and the handle bookkeeping;
//! it hands the raw bytes of the dataset file to the loader here and routes
//! the tagged result into the assets lifecycle state.

use crate::codec::decode;
use crate::codec::decoded;
use crate::codec::MalformedDataset;
use crate::primes::Primes;
use vstd::prelude::*;

verus! {

/// The dataset wrapped as a trackable asset.
pub struct PrimesAsset(pub Primes);

/// The loader registered for the binary dataset file.
pub struct PrimesAssetLoader;

impl PrimesAssetLoader {
    /// The compute half of loading: the host reads the file's bytes (it
    /// may suspend while doing so, off the per-frame path) and this turns
    /// them into the asset, or into the tagged failure for a blob whose
    /// length is not a multiple of four.
    pub fn load(&self, bytes: &Vec<u8>) -> (r: Result<PrimesAsset, MalformedDataset>)
        ensures
            r is Ok <==> bytes@.len() % 4 == 0,
            r is Ok ==> r->Ok_0.0@ == decoded(bytes@),
    {
        match decode(bytes) {
            Ok(primes) => Ok(PrimesAsset(primes)),
            Err(e) => Err(e),
        }
    }

    /// The file extension the loader is registered under.
    pub fn extensions(&self) -> (r: Vec<&'static str>)
        ensures
            r@.len() == 1,
            r@[0]@ == "bin"@,
    {
        let mut r: Vec<&'static str> = Vec::new();
        r.push("bin");
        r
    }
}

/// The resources the scene needs once loading has finished: the mesh every
/// instance shares (an opaque host handle) and the decoded dataset.
pub struct GameAssets {
    pub circle: u64,
    pub primes: Primes,
}

impl GameAssets {
    /// Collects the scene's resources after the asset system reports the
    /// dataset loaded: the host adds the circle mesh and hands over its
    /// handle together with the decoded asset.
    pub fn from_loaded(circle: u64, asset: &PrimesAsset) -> (r: Self)
        ensures
            r.circle == circle,
            r.primes@ == asset.0@,
    {
        let primes_vec = asset.0.primes();
        let mut values: Vec<u32> = Vec::new();
        let mut idx: usize = 0;
        while idx < primes_vec.len()
            invariant
                idx <= primes_vec@.len(),
                values@ == primes_vec@.take(idx as int),
            decreases primes_vec@.len() - idx,
        {
            values.push(primes_vec[idx]);
            proof {
                assert(values@ =~= primes_vec@.take(idx + 1));
            }
            idx = idx + 1;
        }
        proof {
            assert(primes_vec@.take(primes_vec@.len() as int) =~= primes_vec@);
        }
        GameAssets { circle, primes: Primes::from_unchecked(values) }
    }
}

} // verus!
