//! Convenience wrapper that owns the three prepared key schedules of
//! the triple cipher used for encrypted lyric payloads.
use crate::des;
use crate::des::DesMode;
use vstd::prelude::*;

verus! {

/// Holds the three key schedules of the triple cipher, prepared once
/// and reused for every 8-byte block.
pub struct TripleQDES {
    schdule: [[[u8; 6]; 16]; 3],
}

impl TripleQDES {
    /// The three key schedules, as nested sequences of bytes.
    pub closed spec fn schedules(self) -> Seq<Seq<Seq<u8>>> {
        des::sched3_view(self.schdule)
    }

    /// Prepares the schedules for one direction of the cipher from a
    /// 24-byte key.
    pub fn new(key: &[u8], is_decrypt: bool) -> (r: Self)
        requires
            key@.len() >= 24,
        ensures
            r.schedules() == des::spec_triple_schedules(
                key@,
                if is_decrypt {
                    DesMode::Decrypt
                } else {
                    DesMode::Encrypt
                },
            ),
    {
        let schdule = des::three_des_key_setup(
            key,
            if is_decrypt {
                DesMode::Decrypt
            } else {
                DesMode::Encrypt
            },
        );
        TripleQDES { schdule }
    }

    /// Applies the triple cipher to one 8-byte block in place.
    pub fn crypt_inplace(&self, block: &mut [u8; 8])
        ensures
            final(block)@ == des::spec_three_des_crypt(old(block)@, self.schedules()),
    {
        des::three_des_crypt(block, &self.schdule);
    }
}

/// Round-trip law of the wrapper: an 8-byte block encrypted under a
/// key and then decrypted under the same key is unchanged.
pub proof fn lemma_triple_qdes_round_trip(block: Seq<u8>, key: Seq<u8>)
    requires
        block.len() == 8,
        key.len() >= 24,
    ensures
        des::spec_three_des_crypt(
            des::spec_three_des_crypt(block, des::spec_triple_schedules(key, DesMode::Encrypt)),
            des::spec_triple_schedules(key, DesMode::Decrypt),
        ) == block,
{
    des::lemma_three_des_round_trip(block, key);
    assert(block.take(8) =~= block);
}

} // verus!
