use vstd::prelude::*;

verus! {

/// A buffer over bytes allocated by the managed domain, shaped for hand-off
/// to a foreign caller as a plain record of pointer, length and capacity.
///
/// In this verified model the allocation itself stands in for the pointer:
/// `data` holds the owned allocation, and is `None` exactly when the
/// boundary record would carry a null pointer. Ownership is therefore
/// tracked by the type system, and the two invariants of the record are
/// stated in [`CByteArray::well_formed`]: the length never exceeds the
/// capacity, and the pointer is null exactly when the capacity is zero
/// (a capacity of zero means there is no allocation at all).
///
/// The buffer has two states. `Empty`: null pointer, nothing to free.
/// `Holding`: sole owner of one live allocation. Construction moves from
/// `Empty` to `Holding`; [`CByteArray::release_if_allocated`] and
/// [`CByteArray::into_vec`] move back to `Empty`, so every allocation is
/// freed or reclaimed exactly once. Dropping the record releases the held
/// allocation through the ownership of `data` itself, so nothing leaks on
/// an early return.
pub struct CByteArray {
    data: Option<Vec<u8>>,
    size: usize,
    capacity: usize,
}

/// A numeric status code paired with a byte buffer, in that order, for
/// foreign consumption: the code tells whether the buffer carries a
/// result or is the null record of a failure. The pairing convention is
/// a collaborator of the buffer, not part of its ownership protocol.
pub struct CByteArrayResult {
    pub code: i32,
    pub result: CByteArray,
}

/// Relies on `Vec::capacity`: the number of elements the vector can hold
/// without reallocating, never less than its current length.
#[verifier::external_body]
fn vec_capacity(v: &Vec<u8>) -> (r: usize)
    ensures
        v@.len() <= r,
{
    v.capacity()
}

impl CByteArray {
    /// The bytes the buffer holds; the empty sequence when it is null.
    pub closed spec fn bytes(self) -> Seq<u8> {
        match self.data {
            Some(v) => v@,
            None => Seq::empty(),
        }
    }

    /// Whether the record carries the null pointer: no allocation behind it.
    pub closed spec fn is_null(self) -> bool {
        self.data is None
    }

    /// The value of the length field.
    pub closed spec fn size_spec(self) -> usize {
        self.size
    }

    /// The value of the capacity field.
    pub closed spec fn capacity_spec(self) -> usize {
        self.capacity
    }

    /// The one record that means "no allocation": null pointer, length 0,
    /// capacity 0. It is both the initial and the post-release state.
    pub closed spec fn null_model() -> CByteArray {
        CByteArray { data: None, size: 0, capacity: 0 }
    }

    /// The two invariants of every reachable record: the pointer is null
    /// exactly when the capacity is zero, the length field counts the bytes
    /// held, and the length never exceeds the capacity.
    pub open spec fn well_formed(self) -> bool {
        &&& self.is_null() <==> self.capacity_spec() == 0
        &&& self.size_spec() == self.bytes().len()
        &&& self.size_spec() <= self.capacity_spec()
    }

    /// Whether the record is the null record.
    pub open spec fn is_null_state(self) -> bool {
        self == Self::null_model()
    }

    /// What a release leaves behind, whatever the buffer held: the null
    /// record, so a second release finds nothing to free.
    pub open spec fn spec_released(self) -> CByteArray {
        Self::null_model()
    }

    /// Returns a null `CByteArray` instance.
    pub fn null() -> (r: CByteArray)
        ensures
            r == Self::null_model(),
            r.well_formed(),
            r.is_null(),
            r.bytes() == Seq::<u8>::empty(),
            r.size_spec() == 0,
            r.capacity_spec() == 0,
    {
        CByteArray { data: None, size: 0, capacity: 0 }
    }

    /// Returns a `CByteArray` instance owning the bytes of the given
    /// `mut_vec`, which it consumes: the caller keeps no handle to the
    /// allocation, so only this record will ever free it.
    ///
    /// A vector of capacity zero owns no allocation, so its record is the
    /// null record.
    pub fn new(mut_vec: Vec<u8>) -> (r: CByteArray)
        ensures
            r.well_formed(),
            r.bytes() == mut_vec@,
            r.size_spec() == mut_vec@.len(),
            mut_vec@.len() > 0 ==> !r.is_null(),
    {
        let size: usize = mut_vec.len();
        let capacity: usize = vec_capacity(&mut_vec);
        if capacity == 0 {
            proof {
                assert(mut_vec@ =~= Seq::<u8>::empty());
            }
            CByteArray { data: None, size: 0, capacity: 0 }
        } else {
            CByteArray {
                data: Some(mut_vec),
                size,
                capacity,
            }
        }
    }

    /// Converts `CByteArray` into `Vec<u8>` over the same allocation,
    /// without copying, and gives up ownership of it: the returned vector
    /// is again the sole owner and will free it.
    ///
    /// The fields must be exactly as construction produced them and never
    /// mutated since; a null record yields an empty vector.
    pub fn into_vec(self) -> (r: Vec<u8>)
        requires
            self.well_formed(),
        ensures
            r@ == self.bytes(),
            r@.len() == self.size_spec(),
    {
        match self.data {
            Some(v) => v,
            None => Vec::new(),
        }
    }

    /// Releases the allocation if one is held and not released yet, and
    /// resets the record to the null state. Idempotent: on an already-null
    /// record it does nothing, so a double release is safe by construction.
    pub fn release_if_allocated(&mut self)
        requires
            old(self).well_formed(),
        ensures
            *final(self) == old(self).spec_released(),
            final(self).well_formed(),
            final(self).is_null_state(),
            final(self).is_null(),
            final(self).bytes() == Seq::<u8>::empty(),
            final(self).size_spec() == 0,
            final(self).capacity_spec() == 0,
            old(self).is_null() ==> *final(self) == *old(self),
    {
        if self.data.is_none() {
            return;
        }
        self.set_null();
    }

    /// Sets the pointer, size and capacity to the null-record values.
    fn set_null(&mut self)
        ensures
            *final(self) == Self::null_model(),
    {
        self.data = None;
        self.size = 0;
        self.capacity = 0;
    }

    /// Returns read access to the held bytes, or `None` when the record is
    /// null: at the boundary this is the read-only pointer to the first
    /// byte, or the null pointer. No ownership moves; the borrow must not
    /// outlive the buffer's release.
    pub fn data(&self) -> (r: Option<&[u8]>)
        ensures
            match r {
                Some(s) => !self.is_null() && s@ == self.bytes(),
                None => self.is_null(),
            },
    {
        match &self.data {
            Some(v) => Some(v.as_slice()),
            None => None,
        }
    }

    /// Returns the data length.
    pub fn size(&self) -> (r: usize)
        ensures
            r == self.size_spec(),
            self.well_formed() ==> r == self.bytes().len(),
    {
        self.size
    }

    /// Returns the size of the underlying allocation in bytes.
    pub fn capacity(&self) -> (r: usize)
        ensures
            r == self.capacity_spec(),
    {
        self.capacity
    }
}

/// The release entry point offered to the foreign domain: it receives the
/// record by a nullable handle. A missing record (`None`; at the boundary,
/// a null record pointer) is a no-op; otherwise the record is released in
/// place and left as the null record — its own storage stays with the
/// caller, only the allocation it described is freed.
pub fn free_c_byte_array(ptr: Option<&mut CByteArray>)
    requires
        ptr.is_some() ==> (*ptr.unwrap()).well_formed(),
    ensures
        ptr.is_some() ==> *final(ptr.unwrap()) == CByteArray::null_model(),
        ptr.is_some() ==> final(ptr.unwrap()).well_formed(),
        ptr.is_some() ==> final(ptr.unwrap()).is_null(),
        ptr.is_some() ==> final(ptr.unwrap()).size_spec() == 0,
        ptr.is_some() ==> final(ptr.unwrap()).capacity_spec() == 0,
        ptr.is_some() ==> final(ptr.unwrap()).bytes() == Seq::<u8>::empty(),
{
    match ptr {
        None => {}
        Some(r) => r.release_if_allocated(),
    }
}

/// Round trip: a buffer built from a byte sequence holds exactly that
/// sequence, so reclaiming it yields the original bytes, with the same
/// length. (No copy is involved: the allocation itself moves in and out.)
pub proof fn lemma_round_trip(s: Seq<u8>, b: CByteArray, r: Seq<u8>)
    requires
        b.bytes() == s,
        r == b.bytes(),
    ensures
        r == s,
        r.len() == s.len(),
{
}

/// Idempotent release: releasing twice is the same as releasing once,
/// because a release always leaves the null record, and releasing the
/// null record leaves it as it is.
pub proof fn lemma_release_idempotent(b: CByteArray)
    ensures
        b.spec_released().spec_released() == b.spec_released(),
        b.spec_released().is_null_state(),
{
}

/// Null safety: the null record is null, holds no bytes, reports length
/// and capacity zero, and a release leaves it unchanged.
pub proof fn lemma_null_release_no_op(b: CByteArray)
    requires
        b.is_null_state(),
    ensures
        b.spec_released() == b,
        b.is_null(),
        b.bytes().len() == 0,
        b.size_spec() == 0,
        b.capacity_spec() == 0,
{
}

/// Invariant preservation: in every well-formed record the length is
/// bounded by the capacity, the length counts the held bytes, and the
/// pointer is null exactly when the capacity is zero. Every constructor
/// establishes `well_formed` and every operation preserves it.
pub proof fn lemma_invariants(b: CByteArray)
    requires
        b.well_formed(),
    ensures
        b.size_spec() <= b.capacity_spec(),
        b.size_spec() == b.bytes().len(),
        b.is_null() <==> b.capacity_spec() == 0,
{
}

} // verus!
