use vstd::prelude::*;

verus! {

/// Raw level meaning 100% (the native scale's neutral volume).
pub const VOLUME_NORM: u32 = 0x10000;

/// Raw level meaning silence.
pub const VOLUME_MUTED: u32 = 0;

/// Largest valid raw level the native scale admits.
pub const VOLUME_MAX: u32 = 0x7FFF_FFFF;

/// Largest channel count a native channel map can carry.
pub const CHANNELS_MAX: usize = 32;

/// Ordered sequence of per-channel raw volume levels, stored inline for the
/// common one- and two-channel cases.  Valid vectors hold at least one
/// channel, every level at most [`VOLUME_MAX`], and their length never
/// changes after creation.
#[verifier::external_body]
pub struct VolumeLevels {
    raw: smallvec::SmallVec<[u32; 2]>,
}

/// The per-channel levels a vector holds, in order.
pub uninterp spec fn levels_view(v: VolumeLevels) -> Seq<u32>;

impl View for VolumeLevels {
    type V = Seq<u32>;

    closed spec fn view(&self) -> Seq<u32> {
        levels_view(*self)
    }
}

impl VolumeLevels {
    /// Validity: between one and [`CHANNELS_MAX`] channels, every level
    /// within the native scale.
    pub open spec fn wf(&self) -> bool {
        &&& 1 <= self@.len() <= CHANNELS_MAX
        &&& forall|i: int| 0 <= i < self@.len() ==> self@[i] <= VOLUME_MAX
    }

    /// Relies on smallvec::SmallVec::from_vec: the vector holds exactly the
    /// items of the given Vec, in order.
    #[verifier::external_body]
    pub fn new(levels: Vec<u32>) -> (r: VolumeLevels)
        ensures
            levels_view(r) == levels@,
            r@ == levels@,
    {
        VolumeLevels { raw: smallvec::SmallVec::from_vec(levels) }
    }

    /// Relies on smallvec::SmallVec::len: the number of items held.
    #[verifier::external_body]
    pub fn len(&self) -> (r: usize)
        ensures
            r == self@.len(),
    {
        self.raw.len()
    }

    /// Relies on the Index impl of smallvec::SmallVec (through its slice):
    /// yields the item at the given position.
    #[verifier::external_body]
    pub fn get(&self, i: usize) -> (r: u32)
        requires
            i < self@.len(),
        ensures
            r == self@[i as int],
    {
        self.raw[i]
    }

    /// Relies on the IndexMut impl of smallvec::SmallVec (through its
    /// slice): overwrites the item at the given position.
    #[verifier::external_body]
    pub fn set(&mut self, i: usize, x: u32)
        requires
            i < old(self)@.len(),
        ensures
            final(self)@ == old(self)@.update(i as int, x),
    {
        self.raw[i] = x;
    }

    /// Relies on the Clone impl of smallvec::SmallVec: the copy holds the
    /// same items in the same order.
    #[verifier::external_body]
    pub fn clone(&self) -> (r: VolumeLevels)
        ensures
            r@ == self@,
    {
        VolumeLevels { raw: self.raw.clone() }
    }

    /// The levels as a plain Vec, for callers that hand them to the native
    /// layer.  Relies on smallvec::SmallVec::to_vec: yields the same items
    /// in the same order.
    #[verifier::external_body]
    pub fn to_vec(&self) -> (r: Vec<u32>)
        ensures
            r@ == self@,
    {
        self.raw.to_vec()
    }
}

} // verus!
