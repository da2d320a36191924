//! Naming of an agent's isolated context directory: derived from the agent ID
//! with SHA-256, so that each agent gets its own deterministic directory.

use vstd::prelude::*;

use sha2::{Digest, Sha256};

use crate::text::{be_bytes, be_bytes_of, hex_bytes, lemma_hex_bytes_len, push_hex, string_of};
use crate::types::AgentId;

verus! {

/// The SHA-256 digest of a byte sequence.
pub uninterp spec fn sha256(data: Seq<u8>) -> Seq<u8>;

/// `sha2::Sha256::digest`: the SHA-256 digest of `data`, 32 bytes long.
#[verifier::external_body]
fn sha256_digest(data: &[u8]) -> (d: Vec<u8>)
    ensures
        d@ == sha256(data@),
        d@.len() == 32,
{
    Sha256::digest(data).to_vec()
}

/// The name of an agent's context directory: the lower-case hexadecimal
/// SHA-256 digest of the sixteen big-endian bytes of its UUID.
pub open spec fn context_dir_name_spec(id: AgentId) -> Seq<char> {
    hex_bytes(sha256(be_bytes(id.0)))
}

/// Deterministic SHA-256 hash of an agent ID, for naming its context directory.
/// The name has 64 hexadecimal characters.
pub fn hash_id(agent_id: &AgentId) -> (name: String)
    ensures
        name@ == context_dir_name_spec(*agent_id),
        name@.len() == 64,
{
    let bytes = be_bytes_of(agent_id.0);
    let digest = sha256_digest(bytes.as_slice());
    let mut name = string_of("");
    push_hex(&mut name, digest.as_slice(), 32);
    proof {
        reveal_strlit("");
        assert(digest@.take(32) =~= digest@);
        lemma_hex_bytes_len(digest@);
    }
    assert(name@ =~= context_dir_name_spec(*agent_id));
    name
}

} // verus!
