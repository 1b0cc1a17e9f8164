use vstd::prelude::*;

use vstd::bytes::lemma_auto_spec_u64_to_from_le_bytes;
use vstd::bytes::spec_u64_from_le_bytes;
use vstd::bytes::spec_u64_to_le_bytes;
use vstd::bytes::u64_from_le_bytes;
use vstd::bytes::u64_to_le_bytes;
use vstd::slice::slice_subrange;

use crate::errors::TokenError;
use crate::identity::Identity;

verus! {

/// The size in bytes of a serialized configuration record.
pub const CONFIG_LEN: usize = 41;

/// The persistent configuration record of one token: the administrator's
/// identity and the supply cap, both set exactly once, and the flag that
/// marks the record as initialized.
#[derive(Clone, Debug)]
pub struct TokenConfig {
    pub max_supply: u64,
    pub initialized: bool,
    pub admin_pubkey: Identity,
}

/// The mathematical content of a configuration record.
#[verifier::ext_equal]
pub struct ConfigView {
    pub max_supply: u64,
    pub initialized: bool,
    pub admin: Seq<u8>,
}

impl View for TokenConfig {
    type V = ConfigView;

    open spec fn view(&self) -> ConfigView {
        ConfigView {
            max_supply: self.max_supply,
            initialized: self.initialized,
            admin: self.admin_pubkey@,
        }
    }
}

/// The serialized record: `max_supply` as eight little-endian bytes, the
/// `initialized` flag as one byte (1 for true, 0 for false), then the 32
/// bytes of the admin identity.
pub open spec fn spec_serialize_config(c: ConfigView) -> Seq<u8> {
    spec_u64_to_le_bytes(c.max_supply) + seq![if c.initialized { 1u8 } else { 0u8 }] + c.admin
}

/// Reads a record back from its serialized form. Exactly the byte strings
/// of length `CONFIG_LEN` whose flag byte is 0 or 1 are readable.
pub open spec fn spec_parse_config(s: Seq<u8>) -> Option<ConfigView> {
    if s.len() == CONFIG_LEN && (s[8] == 0 || s[8] == 1) {
        Some(ConfigView {
            max_supply: spec_u64_from_le_bytes(s.subrange(0, 8)),
            initialized: s[8] == 1,
            admin: s.subrange(9, CONFIG_LEN as int),
        })
    } else {
        None
    }
}

impl TokenConfig {
    /// Serializes the record into its fixed 41-byte persisted form.
    pub fn serialize(&self) -> (out: Vec<u8>)
        ensures
            out@ == spec_serialize_config(self@),
            out@.len() == CONFIG_LEN,
    {
        proof {
            lemma_auto_spec_u64_to_from_le_bytes();
        }
        let mut out = u64_to_le_bytes(self.max_supply);
        out.push(if self.initialized { 1 } else { 0 });
        let mut i: usize = 0;
        while i < 32
            invariant
                0 <= i <= 32,
                out@ == spec_u64_to_le_bytes(self.max_supply)
                    + seq![if self.initialized { 1u8 } else { 0u8 }]
                    + self.admin_pubkey@.subrange(0, i as int),
            decreases 32 - i,
        {
            out.push(self.admin_pubkey.bytes[i]);
            proof {
                assert(self.admin_pubkey@.subrange(0, i + 1) =~= self.admin_pubkey@.subrange(
                    0,
                    i as int,
                ).push(self.admin_pubkey@[i as int]));
                assert(out@ =~= spec_u64_to_le_bytes(self.max_supply)
                    + seq![if self.initialized { 1u8 } else { 0u8 }]
                    + self.admin_pubkey@.subrange(0, i + 1));
            }
            i += 1;
        }
        proof {
            assert(self.admin_pubkey@.subrange(0, 32) =~= self.admin_pubkey@);
        }
        out
    }

    /// Reads a record from its persisted form; fails on anything but a
    /// well-formed 41-byte record.
    pub fn deserialize(data: &Vec<u8>) -> (r: Result<TokenConfig, TokenError>)
        ensures
            (match r {
                Ok(c) => spec_parse_config(data@) == Some(c@),
                Err(e) => spec_parse_config(data@) is None && e == TokenError::InvalidConfigData,
            }),
    {
        if data.len() != CONFIG_LEN {
            return Err(TokenError::InvalidConfigData);
        }
        let flag = data[8];
        if flag > 1 {
            return Err(TokenError::InvalidConfigData);
        }
        let max_supply = u64_from_le_bytes(slice_subrange(data.as_slice(), 0, 8));
        let mut admin_bytes: [u8; 32] = [0; 32];
        let mut i: usize = 0;
        while i < 32
            invariant
                0 <= i <= 32,
                data@.len() == CONFIG_LEN,
                forall|j: int| 0 <= j < i ==> admin_bytes@[j] == data@[9 + j],
            decreases 32 - i,
        {
            admin_bytes[i] = data[9 + i];
            i += 1;
        }
        let c = TokenConfig {
            max_supply,
            initialized: flag == 1,
            admin_pubkey: Identity::new(admin_bytes),
        };
        proof {
            assert(c@.admin =~= data@.subrange(9, CONFIG_LEN as int));
        }
        Ok(c)
    }
}

/// Serializing a configuration record and reading it back yields the same
/// field values: the persisted form loses nothing.
pub proof fn lemma_config_round_trip(c: ConfigView)
    requires
        c.admin.len() == 32,
    ensures
        spec_parse_config(spec_serialize_config(c)) == Some(c),
{
    lemma_auto_spec_u64_to_from_le_bytes();
    let s = spec_serialize_config(c);
    assert(s.subrange(0, 8) =~= spec_u64_to_le_bytes(c.max_supply));
    assert(s.subrange(9, CONFIG_LEN as int) =~= c.admin);
    assert(spec_parse_config(s) == Some(c));
}

} // verus!
