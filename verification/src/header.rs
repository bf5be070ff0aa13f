//! The benFS superblock: the fixed-size volume identification record that
//! occupies block 0 of a formatted volume.

use vstd::prelude::*;

use crate::codec::copy_range;
use crate::codec::push_bytes;
use crate::codec::push_u64_le;
use crate::codec::read_u64_le;
use crate::codec::u64_le;
use crate::codec::u64_of_le;
use crate::codec::zero_vec;

verus! {

/// Size in bytes of one storage block; the serialized header fills exactly one.
pub const X_BLOCK_SIZE: usize = 4096;

/// Current on-disk format revision.
pub const BEN_VERSION: u64 = 1;

/// Length of the reserved zero padding that follows the 56 bytes of fixed fields.
pub const PADDING_LEN: usize = X_BLOCK_SIZE - 56;

/// The eight magic bytes (`"benFS1.0"`) that identify a benFS superblock.
pub open spec fn spec_signature() -> Seq<u8> {
    seq![0x62u8, 0x65u8, 0x6eu8, 0x46u8, 0x53u8, 0x31u8, 0x2eu8, 0x30u8]
}

/// The magic bytes as a vector, for stamping and comparing signatures.
pub fn signature_bytes() -> (r: Vec<u8>)
    ensures
        r@ == spec_signature(),
{
    let mut v: Vec<u8> = Vec::new();
    v.push(0x62u8);
    v.push(0x65u8);
    v.push(0x6eu8);
    v.push(0x46u8);
    v.push(0x53u8);
    v.push(0x31u8);
    v.push(0x2eu8);
    v.push(0x30u8);
    proof {
        assert(v@ =~= spec_signature());
    }
    v
}

/// BenHeader is the `header` for the benFS local file system.
///
/// Its serialized form is exactly one storage block: the signature at offset
/// 0, the version at 8, the volume identifier at 16, the total size at 32,
/// the root-directory block address at 40, the free-list head address at 48,
/// and reserved zero padding from 56 to the end of the block. Integers are
/// stored little-endian.
#[derive(Debug)]
pub struct BenHeader {
    pub benfs_signature: Vec<u8>,
    pub benfs_version: u64,
    pub benfs_uuid: Vec<u8>,
    pub benfs_size: u64,
    pub benfs_root: u64,
    pub benfs_free: u64,
    pub benfs_padding: Vec<u8>,
}

/// Relies on `uuid::Uuid::new_v4` and `uuid::Uuid::as_bytes`: a freshly
/// generated random 128-bit identifier. `new_v4` sets the version nibble of
/// byte 6 to 4 and the two variant bits of byte 8 to `10`; the remaining 122
/// bits come from the process's random number source, so nothing more holds
/// of every call.
#[verifier::external_body]
fn fresh_volume_id() -> (r: Vec<u8>)
    ensures
        r@.len() == 16,
        r@[6] & 0xf0 == 0x40,
        r@[8] & 0xc0 == 0x80,
{
    uuid::Uuid::new_v4().as_bytes().to_vec()
}

impl BenHeader {
    /// The variable-length fields have the lengths the fixed layout gives them.
    pub open spec fn wf(self) -> bool {
        &&& self.benfs_signature@.len() == 8
        &&& self.benfs_uuid@.len() == 16
        &&& self.benfs_padding@.len() == PADDING_LEN
    }

    /// A header is valid exactly when its signature is the magic constant and
    /// its version is the current format revision; the other fields carry no
    /// validity weight.
    pub open spec fn spec_valid(self) -> bool {
        self.benfs_signature@ == spec_signature() && self.benfs_version == BEN_VERSION
    }

    /// The exact byte sequence persisted to block 0 for this header.
    pub open spec fn spec_bytes(self) -> Seq<u8> {
        self.benfs_signature@ + u64_le(self.benfs_version) + self.benfs_uuid@ + u64_le(
            self.benfs_size,
        ) + u64_le(self.benfs_root) + u64_le(self.benfs_free) + self.benfs_padding@
    }

    /// An all-zero placeholder for a not-yet-formatted volume; never valid.
    pub fn default() -> (r: BenHeader)
        ensures
            r.wf(),
            !r.spec_valid(),
            r.benfs_signature@ == Seq::new(8, |i: int| 0u8),
            r.benfs_version == 0,
            r.benfs_uuid@ == Seq::new(16, |i: int| 0u8),
            r.benfs_size == 0,
            r.benfs_root == 0,
            r.benfs_free == 0,
            r.benfs_padding@ == Seq::new(PADDING_LEN as nat, |i: int| 0u8),
    {
        let r = BenHeader {
            benfs_signature: zero_vec(8),
            benfs_version: 0,
            benfs_uuid: zero_vec(16),
            benfs_size: 0,
            benfs_root: 0,
            benfs_free: 0,
            benfs_padding: zero_vec(PADDING_LEN),
        };
        proof {
            assert(r.benfs_signature@[0] != spec_signature()[0]);
        }
        r
    }

    /// Formats a fresh volume header: stamps the signature and current
    /// version, generates a new random volume identifier, and records the
    /// caller-supplied size and block addresses. The result is always valid,
    /// and its identifier is never all zero (the version nibble is stamped).
    pub fn new(benfs_size: u64, benfs_root: u64, benfs_free: u64) -> (r: BenHeader)
        ensures
            r.wf(),
            r.spec_valid(),
            r.benfs_signature@ == spec_signature(),
            r.benfs_version == BEN_VERSION,
            r.benfs_uuid@.len() == 16,
            r.benfs_uuid@[6] & 0xf0 == 0x40,
            r.benfs_uuid@ != Seq::new(16, |i: int| 0u8),
            r.benfs_size == benfs_size,
            r.benfs_root == benfs_root,
            r.benfs_free == benfs_free,
            r.benfs_padding@ == Seq::new(PADDING_LEN as nat, |i: int| 0u8),
    {
        let benfs_uuid = fresh_volume_id();
        let r = BenHeader {
            benfs_signature: signature_bytes(),
            benfs_version: BEN_VERSION,
            benfs_uuid,
            benfs_size,
            benfs_root,
            benfs_free,
            benfs_padding: zero_vec(PADDING_LEN),
        };
        proof {
            let b6 = r.benfs_uuid@[6];
            assert(b6 != 0) by (bit_vector)
                requires
                    b6 & 0xf0 == 0x40,
            ;
            assert(r.benfs_uuid@ != Seq::new(16, |i: int| 0u8)) by {
                assert(Seq::new(16, |i: int| 0u8)[6] == 0u8);
            }
        }
        r
    }

    /// True exactly when the signature matches the magic constant byte for
    /// byte and the version equals the current format revision.
    pub fn valid(&self) -> (r: bool)
        ensures
            r == self.spec_valid(),
    {
        if self.benfs_version != BEN_VERSION {
            return false;
        }
        if self.benfs_signature.len() != 8 {
            return false;
        }
        let expected = signature_bytes();
        let mut i: usize = 0;
        while i < 8
            invariant
                i <= 8,
                self.benfs_signature@.len() == 8,
                expected@ == spec_signature(),
                forall|j: int| 0 <= j < i ==> self.benfs_signature@[j] == spec_signature()[j],
            decreases 8 - i,
        {
            if self.benfs_signature[i] != expected[i] {
                proof {
                    assert(self.benfs_signature@[i as int] != spec_signature()[i as int]);
                }
                return false;
            }
            i += 1;
        }
        proof {
            assert(self.benfs_signature@ =~= spec_signature());
        }
        true
    }

    /// The raw-byte view for writing to storage: the exact serialized record,
    /// one storage block long.
    pub fn to_bytes(&self) -> (r: Vec<u8>)
        requires
            self.wf(),
        ensures
            r@ == self.spec_bytes(),
            r@.len() == X_BLOCK_SIZE,
    {
        let mut out: Vec<u8> = Vec::new();
        push_bytes(&mut out, &self.benfs_signature);
        push_u64_le(&mut out, self.benfs_version);
        push_bytes(&mut out, &self.benfs_uuid);
        push_u64_le(&mut out, self.benfs_size);
        push_u64_le(&mut out, self.benfs_root);
        push_u64_le(&mut out, self.benfs_free);
        push_bytes(&mut out, &self.benfs_padding);
        proof {
            assert(out@ =~= self.spec_bytes());
        }
        out
    }

    /// The mutable-view loading path: overwrites every field of `self` from a
    /// full block read off storage, decoding each field at its fixed offset.
    pub fn load_bytes(&mut self, bytes: &Vec<u8>)
        requires
            bytes@.len() == X_BLOCK_SIZE,
        ensures
            final(self).wf(),
            final(self).benfs_signature@ == bytes@.subrange(0, 8),
            final(self).benfs_version == u64_of_le(bytes@.subrange(8, 16)),
            final(self).benfs_uuid@ == bytes@.subrange(16, 32),
            final(self).benfs_size == u64_of_le(bytes@.subrange(32, 40)),
            final(self).benfs_root == u64_of_le(bytes@.subrange(40, 48)),
            final(self).benfs_free == u64_of_le(bytes@.subrange(48, 56)),
            final(self).benfs_padding@ == bytes@.subrange(56, X_BLOCK_SIZE as int),
    {
        self.benfs_signature = copy_range(bytes, 0, 8);
        self.benfs_version = read_u64_le(bytes, 8);
        self.benfs_uuid = copy_range(bytes, 16, 32);
        self.benfs_size = read_u64_le(bytes, 32);
        self.benfs_root = read_u64_le(bytes, 40);
        self.benfs_free = read_u64_le(bytes, 48);
        self.benfs_padding = copy_range(bytes, 56, X_BLOCK_SIZE);
    }

    /// Re-points the root directory, leaving every other field — and hence
    /// validity — untouched.
    pub fn set_root_block(&mut self, benfs_root: u64)
        ensures
            final(self).benfs_root == benfs_root,
            final(self).benfs_signature == old(self).benfs_signature,
            final(self).benfs_version == old(self).benfs_version,
            final(self).benfs_uuid == old(self).benfs_uuid,
            final(self).benfs_size == old(self).benfs_size,
            final(self).benfs_free == old(self).benfs_free,
            final(self).benfs_padding == old(self).benfs_padding,
            final(self).spec_valid() == old(self).spec_valid(),
            final(self).wf() == old(self).wf(),
    {
        self.benfs_root = benfs_root;
    }

    /// Re-points the free-list head, leaving every other field — and hence
    /// validity — untouched.
    pub fn set_free_block(&mut self, benfs_free: u64)
        ensures
            final(self).benfs_free == benfs_free,
            final(self).benfs_signature == old(self).benfs_signature,
            final(self).benfs_version == old(self).benfs_version,
            final(self).benfs_uuid == old(self).benfs_uuid,
            final(self).benfs_size == old(self).benfs_size,
            final(self).benfs_root == old(self).benfs_root,
            final(self).benfs_padding == old(self).benfs_padding,
            final(self).spec_valid() == old(self).spec_valid(),
            final(self).wf() == old(self).wf(),
    {
        self.benfs_free = benfs_free;
    }

    /// Records a new total volume size, leaving every other field — and hence
    /// validity — untouched.
    pub fn set_total_size(&mut self, benfs_size: u64)
        ensures
            final(self).benfs_size == benfs_size,
            final(self).benfs_signature == old(self).benfs_signature,
            final(self).benfs_version == old(self).benfs_version,
            final(self).benfs_uuid == old(self).benfs_uuid,
            final(self).benfs_root == old(self).benfs_root,
            final(self).benfs_free == old(self).benfs_free,
            final(self).benfs_padding == old(self).benfs_padding,
            final(self).spec_valid() == old(self).spec_valid(),
            final(self).wf() == old(self).wf(),
    {
        self.benfs_size = benfs_size;
    }
}

/// Law: decoding the serialized form of a well-formed header at the fixed
/// field offsets gives back exactly the header's own field values.
pub proof fn lemma_fields_of_bytes(h: BenHeader)
    requires
        h.wf(),
    ensures
        h.spec_bytes().len() == X_BLOCK_SIZE,
        h.spec_bytes().subrange(0, 8) == h.benfs_signature@,
        u64_of_le(h.spec_bytes().subrange(8, 16)) == h.benfs_version,
        h.spec_bytes().subrange(16, 32) == h.benfs_uuid@,
        u64_of_le(h.spec_bytes().subrange(32, 40)) == h.benfs_size,
        u64_of_le(h.spec_bytes().subrange(40, 48)) == h.benfs_root,
        u64_of_le(h.spec_bytes().subrange(48, 56)) == h.benfs_free,
        h.spec_bytes().subrange(56, X_BLOCK_SIZE as int) == h.benfs_padding@,
{
    let b = h.spec_bytes();
    assert(b.subrange(0, 8) =~= h.benfs_signature@);
    assert(b.subrange(8, 16) =~= u64_le(h.benfs_version));
    assert(b.subrange(16, 32) =~= h.benfs_uuid@);
    assert(b.subrange(32, 40) =~= u64_le(h.benfs_size));
    assert(b.subrange(40, 48) =~= u64_le(h.benfs_root));
    assert(b.subrange(48, 56) =~= u64_le(h.benfs_free));
    assert(b.subrange(56, X_BLOCK_SIZE as int) =~= h.benfs_padding@);
    crate::codec::lemma_u64_le_round_trip(h.benfs_version);
    crate::codec::lemma_u64_le_round_trip(h.benfs_size);
    crate::codec::lemma_u64_le_round_trip(h.benfs_root);
    crate::codec::lemma_u64_le_round_trip(h.benfs_free);
}

/// Law (round trip): a header whose fields were loaded from the serialized
/// form of a well-formed header `orig` — as `load_bytes` produces from
/// `to_bytes` — has exactly `orig`'s field values and the same validity.
pub proof fn lemma_round_trip(orig: BenHeader, loaded: BenHeader)
    requires
        orig.wf(),
        loaded.benfs_signature@ == orig.spec_bytes().subrange(0, 8),
        loaded.benfs_version == u64_of_le(orig.spec_bytes().subrange(8, 16)),
        loaded.benfs_uuid@ == orig.spec_bytes().subrange(16, 32),
        loaded.benfs_size == u64_of_le(orig.spec_bytes().subrange(32, 40)),
        loaded.benfs_root == u64_of_le(orig.spec_bytes().subrange(40, 48)),
        loaded.benfs_free == u64_of_le(orig.spec_bytes().subrange(48, 56)),
        loaded.benfs_padding@ == orig.spec_bytes().subrange(56, X_BLOCK_SIZE as int),
    ensures
        loaded.benfs_signature@ == orig.benfs_signature@,
        loaded.benfs_version == orig.benfs_version,
        loaded.benfs_uuid@ == orig.benfs_uuid@,
        loaded.benfs_size == orig.benfs_size,
        loaded.benfs_root == orig.benfs_root,
        loaded.benfs_free == orig.benfs_free,
        loaded.benfs_padding@ == orig.benfs_padding@,
        loaded.spec_valid() == orig.spec_valid(),
{
    lemma_fields_of_bytes(orig);
}

/// Law: corrupting any single byte of the signature region in a valid
/// header's serialized form makes every header whose signature is loaded from
/// the corrupted bytes invalid.
pub proof fn lemma_signature_corruption(orig: BenHeader, i: int, v: u8, loaded: BenHeader)
    requires
        orig.wf(),
        orig.spec_valid(),
        0 <= i < 8,
        v != orig.spec_bytes()[i],
        loaded.benfs_signature@ == orig.spec_bytes().update(i, v).subrange(0, 8),
    ensures
        !loaded.spec_valid(),
{
    lemma_fields_of_bytes(orig);
    assert(loaded.benfs_signature@[i] == v);
    assert(orig.spec_bytes()[i] == orig.benfs_signature@[i]);
    assert(loaded.benfs_signature@[i] != spec_signature()[i]);
}

} // verus!
