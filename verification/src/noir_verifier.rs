use vstd::prelude::*;

use crate::encoding::bytes_eq;
use crate::gate::VerifierInterface;

verus! {

/// Failure kinds of the proof verifier.
#[derive(Copy, Clone, Debug, PartialEq, Eq, PartialOrd, Ord, Structural)]
pub enum Error {
    InvalidProof,
    InvalidPublicInputs,
    VerificationFailed,
    CircuitNotRegistered,
}

/// A registered circuit: its hash, a short name, and a version.
#[derive(Debug)]
pub struct CircuitInfo {
    pub circuit_hash: Vec<u8>,
    pub name: String,
    pub version: u32,
}

/// The mathematical content of a registry entry.
pub struct CircuitModel {
    pub circuit_hash: Seq<u8>,
    pub name: Seq<char>,
    pub version: u32,
}

impl View for CircuitInfo {
    type V = CircuitModel;

    open spec fn view(&self) -> CircuitModel {
        CircuitModel {
            circuit_hash: self.circuit_hash@,
            name: self.name@,
            version: self.version,
        }
    }
}

impl Clone for CircuitInfo {
    fn clone(&self) -> (r: Self)
        ensures
            r@ == self@,
    {
        CircuitInfo {
            circuit_hash: crate::encoding::clone_bytes(&self.circuit_hash),
            name: self.name.clone(),
            version: self.version,
        }
    }
}

/// The byte prefix a proof is judged by: the whole proof if it is shorter
/// than 256 bytes, else its first 256 bytes.
pub open spec fn scanned_prefix(p: Seq<u8>) -> Seq<u8> {
    if p.len() <= 256 {
        p
    } else {
        p.take(256)
    }
}

/// The number of distinct byte values below `below` that occur in `s`.
pub open spec fn distinct_below(s: Seq<u8>, below: int) -> nat
    decreases below,
{
    if below <= 0 {
        0
    } else {
        distinct_below(s, below - 1) + if s.contains((below - 1) as u8) {
            1nat
        } else {
            0nat
        }
    }
}

/// The structural shape a proof must have: at least 32 distinct byte values
/// in the scanned prefix. This also rules out empty, all-zero and
/// constant-byte proofs, which hold at most one distinct value.
pub open spec fn proof_structure_ok(p: Seq<u8>) -> bool {
    distinct_below(scanned_prefix(p), 256) >= 32
}

/// What `verify` accepts: a proof of 200 to 4096 bytes with the required
/// structure, alongside at least two public inputs.
pub open spec fn accepts(p: Seq<u8>, inputs_len: nat) -> bool {
    &&& 200 <= p.len() <= 4096
    &&& inputs_len >= 2
    &&& proof_structure_ok(p)
}

/// A sequence whose bytes all equal one value holds at most one distinct
/// byte value.
proof fn lemma_constant_seq_distinct(s: Seq<u8>, c: u8, below: int)
    requires
        below <= 256,
        forall|i: int| 0 <= i < s.len() ==> s[i] == c,
    ensures
        distinct_below(s, below) <= 1,
        distinct_below(s, below) == if c < below && s.contains(c) {
            1nat
        } else {
            0nat
        },
    decreases below,
{
    if below > 0 {
        lemma_constant_seq_distinct(s, c, below - 1);
        if s.contains((below - 1) as u8) {
            let i = choose|i: int| 0 <= i < s.len() && s[i] == (below - 1) as u8;
            assert(c == (below - 1) as u8);
        }
    }
}

/// A registry holds each circuit hash at most once.
pub open spec fn registry_wf(s: Seq<CircuitModel>) -> bool {
    forall|i: int, j: int|
        0 <= i < j < s.len() ==> s[i].circuit_hash != s[j].circuit_hash
}

/// Whether a registry holds an entry for the given circuit hash.
pub open spec fn has_circuit(s: Seq<CircuitModel>, h: Seq<u8>) -> bool {
    exists|i: int| 0 <= i < s.len() && s[i].circuit_hash == h
}

/// The proof verifier: a structural stand-in for pairing-based verification,
/// with a registry of known circuits.
pub struct NoirVerifier {
    pub circuits: Vec<CircuitInfo>,
}

impl View for NoirVerifier {
    type V = Seq<CircuitModel>;

    open spec fn view(&self) -> Seq<CircuitModel> {
        self.circuits@.map_values(|c: CircuitInfo| c@)
    }
}

impl NoirVerifier {
    pub open spec fn wf(self) -> bool {
        registry_wf(self@)
    }

    pub fn new() -> (r: Self)
        ensures
            r@ =~= Seq::<CircuitModel>::empty(),
            r.wf(),
    {
        NoirVerifier { circuits: Vec::new() }
    }

    /// Judges a proof by shape: accepted exactly when it is 200 to 4096
    /// bytes long, at least two public inputs were supplied, and the scanned
    /// prefix holds at least 32 distinct byte values.
    pub fn verify(&self, proof_bytes: &Vec<u8>, public_inputs: &Vec<Vec<u8>>) -> (r: bool)
        ensures
            r == accepts(proof_bytes@, public_inputs@.len()),
    {
        if proof_bytes.len() == 0 {
            proof {
                lemma_constant_seq_distinct(scanned_prefix(proof_bytes@), 0u8, 256);
            }
            return false;
        }
        if proof_bytes.len() < 200 {
            return false;
        }
        if public_inputs.len() < 2 {
            return false;
        }
        Self::verify_groth16_proof(proof_bytes, public_inputs)
    }

    /// Registers a circuit, replacing any entry with the same hash.
    #[verifier::loop_isolation(false)]
    pub fn register_circuit(&mut self, circuit_hash: Vec<u8>, name: String, version: u32)
        requires
            old(self).wf(),
        ensures
            final(self).wf(),
            ({
                let entry = CircuitModel {
                    circuit_hash: circuit_hash@,
                    name: name@,
                    version: version,
                };
                if has_circuit(old(self)@, circuit_hash@) {
                    exists|i: int|
                        0 <= i < old(self)@.len() && old(self)@[i].circuit_hash == circuit_hash@
                            && final(self)@ == old(self)@.update(i, entry)
                } else {
                    final(self)@ == old(self)@.push(entry)
                }
            }),
    {
        let ghost entry = CircuitModel {
            circuit_hash: circuit_hash@,
            name: name@,
            version: version,
        };
        let mut i: usize = 0;
        while i < self.circuits.len()
            invariant
                i <= self.circuits@.len(),
                *self == *old(self),
                forall|j: int| 0 <= j < i ==> self@[j].circuit_hash != circuit_hash@,
            decreases self.circuits@.len() - i,
        {
            if bytes_eq(&self.circuits[i].circuit_hash, &circuit_hash) {
                let info = CircuitInfo { circuit_hash, name, version };
                self.circuits.set(i, info);
                proof {
                    assert forall|j: int| 0 <= j < self@.len() implies self@[j] == old(
                        self,
                    )@.update(i as int, entry)[j] by {
                        assert(self@[j] == self.circuits@[j]@);
                        assert(old(self)@[j] == old(self).circuits@[j]@);
                    }
                    assert(self@ =~= old(self)@.update(i as int, entry));
                    assert forall|k: int|
                        0 <= k < self@.len() implies #[trigger] self@[k].circuit_hash == old(
                        self,
                    )@[k].circuit_hash by {}
                    assert(old(self)@[i as int].circuit_hash == circuit_hash@);
                }
                return ;
            }
            i += 1;
        }
        let info = CircuitInfo { circuit_hash, name, version };
        self.circuits.push(info);
        proof {
            assert forall|j: int| 0 <= j < self@.len() implies self@[j] == old(self)@.push(
                entry,
            )[j] by {
                assert(self@[j] == self.circuits@[j]@);
                if j < old(self)@.len() {
                    assert(old(self)@[j] == old(self).circuits@[j]@);
                }
            }
            assert(self@ =~= old(self)@.push(entry));
        }
    }

    /// Looks a circuit up by hash.
    pub fn get_circuit(&self, circuit_hash: &Vec<u8>) -> (r: Option<CircuitInfo>)
        requires
            self.wf(),
        ensures
            match r {
                Some(c) => exists|i: int|
                    0 <= i < self@.len() && self@[i].circuit_hash == circuit_hash@ && c@ == self@[i],
                None => !has_circuit(self@, circuit_hash@),
            },
    {
        let mut i: usize = 0;
        while i < self.circuits.len()
            invariant
                i <= self.circuits@.len(),
                forall|j: int| 0 <= j < i ==> self@[j].circuit_hash != circuit_hash@,
            decreases self.circuits@.len() - i,
        {
            if bytes_eq(&self.circuits[i].circuit_hash, circuit_hash) {
                let found = self.circuits[i].clone();
                proof {
                    assert(self@[i as int] == self.circuits@[i as int]@);
                    assert(self@[i as int].circuit_hash == circuit_hash@);
                    assert(found@ == self@[i as int]);
                }
                return Some(found);
            }
            i += 1;
        }
        None
    }

    /// Verifies a proof only for a registered circuit.
    pub fn verify_with_circuit(
        &self,
        proof_bytes: &Vec<u8>,
        public_inputs: &Vec<Vec<u8>>,
        circuit_hash: &Vec<u8>,
    ) -> (r: bool)
        requires
            self.wf(),
        ensures
            r == (has_circuit(self@, circuit_hash@) && accepts(
                proof_bytes@,
                public_inputs@.len(),
            )),
    {
        let registered = self.get_circuit(circuit_hash);
        if registered.is_none() {
            return false;
        }
        self.verify(proof_bytes, public_inputs)
    }

    fn verify_groth16_proof(proof_bytes: &Vec<u8>, public_inputs: &Vec<Vec<u8>>) -> (r: bool)
        ensures
            r == (public_inputs@.len() >= 2 && 192 <= proof_bytes@.len() <= 4096
                && proof_structure_ok(proof_bytes@)),
    {
        if public_inputs.len() < 2 {
            return false;
        }
        let n = proof_bytes.len();
        if n < 192 || n > 4096 {
            return false;
        }
        Self::validate_proof_structure(proof_bytes)
    }

    fn validate_proof_structure(proof_bytes: &Vec<u8>) -> (r: bool)
        ensures
            r == proof_structure_ok(proof_bytes@),
    {
        let n = proof_bytes.len();
        if n == 0 {
            proof {
                lemma_constant_seq_distinct(scanned_prefix(proof_bytes@), 0u8, 256);
            }
            return false;
        }
        let first = proof_bytes[0];
        let check_len = if n < 256 {
            n
        } else {
            256
        };
        let ghost prefix = scanned_prefix(proof_bytes@);
        proof {
            assert(prefix.len() == check_len);
            assert(forall|j: int| 0 <= j < check_len ==> prefix[j] == proof_bytes@[j]);
        }
        let mut all_zeros = true;
        let mut all_same = true;
        let mut i: usize = 0;
        while i < check_len
            invariant
                i <= check_len,
                check_len <= proof_bytes@.len(),
                check_len == scanned_prefix(proof_bytes@).len(),
                prefix == scanned_prefix(proof_bytes@),
                forall|j: int| 0 <= j < check_len ==> prefix[j] == proof_bytes@[j],
                0 < proof_bytes@.len(),
                first == proof_bytes@[0],
                all_zeros == (forall|j: int| 0 <= j < i ==> prefix[j] == 0),
                all_same == (forall|j: int| 0 <= j < i ==> prefix[j] == first),
            decreases check_len - i,
        {
            let byte = proof_bytes[i];
            proof {
                assert(prefix[i as int] == byte);
            }
            if byte != 0 {
                all_zeros = false;
            }
            if byte != first {
                all_same = false;
            }
            i += 1;
        }
        if all_zeros {
            proof {
                lemma_constant_seq_distinct(prefix, 0u8, 256);
            }
            return false;
        }
        if all_same {
            proof {
                lemma_constant_seq_distinct(prefix, first, 256);
            }
            return false;
        }
        let mut unique: u32 = 0;
        let mut v: u32 = 0;
        while v < 256
            invariant
                v <= 256,
                unique <= v,
                check_len <= proof_bytes@.len(),
                check_len == scanned_prefix(proof_bytes@).len(),
                prefix == scanned_prefix(proof_bytes@),
                forall|j: int| 0 <= j < check_len ==> prefix[j] == proof_bytes@[j],
                unique as nat == distinct_below(prefix, v as int),
            decreases 256 - v,
        {
            let target = #[verifier::truncate] (v as u8);
            let mut found = false;
            let mut j: usize = 0;
            while j < check_len
                invariant
                    j <= check_len,
                    check_len <= proof_bytes@.len(),
                    check_len == scanned_prefix(proof_bytes@).len(),
                    prefix == scanned_prefix(proof_bytes@),
                    forall|k: int| 0 <= k < check_len ==> prefix[k] == proof_bytes@[k],
                    found == (exists|k: int| 0 <= k < j && prefix[k] == target),
                decreases check_len - j,
            {
                if proof_bytes[j] == target {
                    found = true;
                    proof {
                        assert(prefix[j as int] == target);
                    }
                }
                j += 1;
            }
            proof {
                if found {
                    let k = choose|k: int| 0 <= k < j && prefix[k] == target;
                    assert(prefix.contains(target));
                } else {
                    assert(!prefix.contains(target)) by {
                        if prefix.contains(target) {
                            let k = choose|k: int|
                                0 <= k < prefix.len() && prefix[k] == target;
                            assert(false);
                        }
                    }
                }
            }
            if found {
                unique += 1;
            }
            v += 1;
        }
        unique >= 32
    }

    pub fn version() -> (r: u32)
        ensures
            r == 3,
    {
        3
    }

    pub fn info() -> (r: (u32, bool))
        ensures
            r == (3u32, false),
    {
        (3, false)
    }
}

impl VerifierInterface for NoirVerifier {
    fn verify(&self, proof_bytes: &Vec<u8>, public_inputs: &Vec<Vec<u8>>) -> bool {
        NoirVerifier::verify(self, proof_bytes, public_inputs)
    }
}

} // verus!
