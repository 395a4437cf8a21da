//! The capability interface every key-custody backend stands behind:
//! resolve a key, sign a digest, assemble and sign a transaction, report
//! the key's identity. A deterministic test signer implements it here;
//! real backends implement it at the transport edge.

use crate::jsonrpc::JsonValue;
use vstd::prelude::*;

verus! {

/// An opaque token addressing a private key: cloud backends use a text
/// token, hardware backends a small integer slot.
#[derive(Debug)]
pub enum KeyId {
    Cloud(Vec<u8>),
    Device(u16),
}

impl View for KeyId {
    type V = Seq<u8>;

    /// A tagged byte string, injective over both variants.
    open spec fn view(&self) -> Seq<u8> {
        match self {
            KeyId::Cloud(b) => seq![0u8] + b@,
            KeyId::Device(n) => seq![1u8, (*n / 256) as u8, (*n % 256) as u8],
        }
    }
}

fn bytes_eq(x: &Vec<u8>, y: &Vec<u8>) -> (r: bool)
    ensures
        r == (x@ == y@),
{
    if x.len() != y.len() {
        return false;
    }
    let mut i: usize = 0;
    while i < x.len()
        invariant
            i <= x@.len(),
            x@.len() == y@.len(),
            forall|j: int| 0 <= j < i ==> x@[j] == y@[j],
        decreases x@.len() - i,
    {
        if x[i] != y[i] {
            return false;
        }
        i += 1;
    }
    proof {
        assert(x@ =~= y@);
    }
    true
}

/// Compares two key identifiers.
pub fn key_eq(a: &KeyId, b: &KeyId) -> (r: bool)
    ensures
        r == (a@ == b@),
{
    match (a, b) {
        (KeyId::Cloud(x), KeyId::Cloud(y)) => {
            let r = bytes_eq(x, y);
            proof {
                if x@ == y@ {
                    assert(a@ == b@);
                } else {
                    if a@ == b@ {
                        assert((seq![0u8] + x@).skip(1) =~= x@);
                        assert((seq![0u8] + y@).skip(1) =~= y@);
                        assert(false);
                    }
                }
            }
            r
        },
        (KeyId::Device(m), KeyId::Device(n)) => {
            let r = *m == *n;
            proof {
                if m != n {
                    if a@ == b@ {
                        assert(a@[1] == b@[1] && a@[2] == b@[2]);
                        assert(*m / 256 == *n / 256 && *m % 256 == *n % 256);
                        assert(*m == *n);
                    }
                }
            }
            r
        },
        (KeyId::Cloud(_), KeyId::Device(_)) => {
            proof {
                assert(a@[0] != b@[0]);
            }
            false
        },
        (KeyId::Device(_), KeyId::Cloud(_)) => {
            proof {
                assert(a@[0] != b@[0]);
            }
            false
        },
    }
}

/// Copies a key identifier.
pub fn clone_key(key: &KeyId) -> (r: KeyId)
    ensures
        r@ == key@,
{
    match key {
        KeyId::Cloud(b) => {
            let mut c: Vec<u8> = Vec::new();
            let mut i: usize = 0;
            while i < b.len()
                invariant
                    i <= b@.len(),
                    c@ =~= b@.take(i as int),
                decreases b@.len() - i,
            {
                c.push(b[i]);
                proof {
                    assert(c@ =~= b@.take(i as int + 1));
                }
                i += 1;
            }
            proof {
                assert(c@ =~= b@);
            }
            KeyId::Cloud(c)
        },
        KeyId::Device(n) => KeyId::Device(*n),
    }
}

/// Why signing a transaction failed: either the request object is no
/// transaction at all — the caller's fault — or the backend could not
/// complete the work.
#[derive(Debug)]
pub enum TxError {
    InvalidTransaction(String),
    Backend(String),
}

/// What a key-custody backend offers. The deterministic test signer below
/// implements it inside the library; the cloud and hardware backends
/// implement it at the transport edge, where their I/O lives.
pub trait SignerAdapter: Sized {
    type Config;

    /// Opens a signing session for the key. An error carries the
    /// backend's own words; nothing more is promised of a remote service.
    fn connect(cfg: &Self::Config, key: &KeyId) -> (r: Result<Self, String>);

    /// Hands out another handle to the same session.
    fn share(&self) -> (r: Self)
        ensures
            r == *self,
    ;

    /// Signs a 32-byte digest; on success the raw signature is 65 bytes
    /// `(r: 32, s: 32, v: 1)`.
    fn sign_hash(&self, hash: &Vec<u8>) -> (r: Result<Vec<u8>, String>)
        requires
            hash@.len() == 32,
        ensures
            r matches Ok(sig) ==> sig@.len() == 65,
    ;

    /// Assembles a transaction from its JSON request object, signs it,
    /// and returns the encoded transaction envelope. A request object
    /// that is no transaction is reported as such, apart from backend
    /// failures.
    fn sign_transaction(&self, tx: &JsonValue) -> (r: Result<Vec<u8>, TxError>);

    /// The 20-byte identity of the key behind this handle.
    fn address_bytes(&self) -> (r: Vec<u8>)
        ensures
            r@.len() == 20,
    ;
}

/// The seed the test signer derives from a key identifier.
pub open spec fn mock_seed(key: KeyId) -> u8 {
    match key {
        KeyId::Cloud(b) => if b@.len() > 0 {
            b@[0]
        } else {
            0
        },
        KeyId::Device(n) => (n as int % 256) as u8,
    }
}

/// The test signer's signature for a digest: the digest itself, the
/// digest masked with the seed, and a recovery byte of 27 or 28 chosen
/// by the digest's first byte.
pub open spec fn mock_signature(seed: u8, hash: Seq<u8>) -> Seq<u8> {
    hash + Seq::new(hash.len(), |i: int| hash[i] ^ seed) + seq![((hash[0] as int % 2) + 27) as u8]
}

/// A deterministic in-process signer for tests and local runs: no key
/// custody, no I/O, and the same bytes for the same digest every time.
#[derive(Debug, PartialEq, Eq, Structural)]
pub struct MockSigner {
    pub seed: u8,
}

/// The test signer needs no connection settings.
#[derive(Debug)]
pub struct MockConfig {
    pub allow: bool,
}

impl SignerAdapter for MockSigner {
    type Config = MockConfig;

    fn connect(cfg: &MockConfig, key: &KeyId) -> (r: Result<Self, String>)
        ensures
            cfg.allow ==> r == Ok::<Self, String>(MockSigner { seed: mock_seed(*key) }),
            !cfg.allow ==> r is Err,
    {
        if !cfg.allow {
            return Err(String::new());
        }
        let seed = match key {
            KeyId::Cloud(b) => {
                if b.len() > 0 {
                    b[0]
                } else {
                    0
                }
            },
            KeyId::Device(n) => (*n % 256) as u8,
        };
        Ok(MockSigner { seed })
    }

    fn share(&self) -> (r: Self) {
        MockSigner { seed: self.seed }
    }

    fn sign_hash(&self, hash: &Vec<u8>) -> (r: Result<Vec<u8>, String>)
        ensures
            r matches Ok(sig) && sig@ == mock_signature(self.seed, hash@),
    {
        let mut sig: Vec<u8> = Vec::new();
        let mut i: usize = 0;
        while i < 32
            invariant
                hash@.len() == 32,
                i <= 32,
                sig@ =~= hash@.take(i as int),
            decreases 32 - i,
        {
            sig.push(hash[i]);
            proof {
                assert(sig@ =~= hash@.take(i as int + 1));
            }
            i += 1;
        }
        let mut j: usize = 0;
        while j < 32
            invariant
                hash@.len() == 32,
                j <= 32,
                sig@ =~= hash@ + Seq::new(j as nat, |i: int| hash@[i] ^ self.seed),
            decreases 32 - j,
        {
            sig.push(hash[j] ^ self.seed);
            proof {
                assert(sig@ =~= hash@ + Seq::new(j as nat + 1, |i: int| hash@[i] ^ self.seed));
            }
            j += 1;
        }
        sig.push(27 + (hash[0] % 2));
        proof {
            assert(sig@ =~= mock_signature(self.seed, hash@));
        }
        Ok(sig)
    }

    fn sign_transaction(&self, _tx: &JsonValue) -> (r: Result<Vec<u8>, TxError>)
        ensures
            r matches Ok(enc) && enc@ == seq![2u8, self.seed],
    {
        let mut enc: Vec<u8> = Vec::new();
        enc.push(2);
        enc.push(self.seed);
        proof {
            assert(enc@ =~= seq![2u8, self.seed]);
        }
        Ok(enc)
    }

    fn address_bytes(&self) -> (r: Vec<u8>)
        ensures
            forall|i: int| 0 <= i < 20 ==> r@[i] == self.seed,
    {
        let mut a: Vec<u8> = Vec::new();
        let mut i: usize = 0;
        while i < 20
            invariant
                i <= 20,
                a@.len() == i,
                forall|k: int| 0 <= k < i ==> a@[k] == self.seed,
            decreases 20 - i,
        {
            a.push(self.seed);
            i += 1;
        }
        a
    }
}

} // verus!
