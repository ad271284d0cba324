//! Opaque 32-byte account identities.

use vstd::prelude::*;

verus! {

/// The length, in bytes, of an account identity.
pub const PUBKEY_BYTES: usize = 32;

/// An opaque 32-byte identity of an account, wallet or program.
#[derive(Debug)]
pub struct Pubkey {
    /// The raw identity bytes.
    pub bytes: Vec<u8>,
}

impl View for Pubkey {
    type V = Seq<u8>;

    open spec fn view(&self) -> Seq<u8> {
        self.bytes@
    }
}

/// A key is well formed when it holds exactly 32 bytes.
pub open spec fn key_wf(k: Seq<u8>) -> bool {
    k.len() == PUBKEY_BYTES
}

impl Pubkey {
    /// Wraps raw bytes as a key; anything but exactly 32 bytes is refused.
    pub fn from_bytes(bytes: Vec<u8>) -> (r: Option<Pubkey>)
        ensures
            match r {
                Some(k) => key_wf(k@) && k@ == bytes@,
                None => !key_wf(bytes@),
            },
    {
        if bytes.len() == PUBKEY_BYTES {
            Some(Pubkey { bytes })
        } else {
            None
        }
    }

    /// A fresh key holding the same bytes.
    pub fn clone_key(&self) -> (r: Pubkey)
        ensures
            r@ == self@,
    {
        Pubkey { bytes: clone_bytes(&self.bytes) }
    }
}

/// Whether two keys hold the same bytes.
pub fn key_eq(a: &Pubkey, b: &Pubkey) -> (r: bool)
    ensures
        r == (a@ == b@),
{
    bytes_eq(&a.bytes, &b.bytes)
}

/// Whether two byte vectors hold the same bytes.
pub fn bytes_eq(a: &Vec<u8>, b: &Vec<u8>) -> (r: bool)
    ensures
        r == (a@ == b@),
{
    if a.len() != b.len() {
        assert(a@ !~= b@);
        return false;
    }
    let n = a.len();
    let mut i: usize = 0;
    while i < n
        invariant
            n == a@.len() == b@.len(),
            i <= n,
            forall|j: int| 0 <= j < i ==> a@[j] == b@[j],
        decreases n - i,
    {
        if a[i] != b[i] {
            return false;
        }
        i = i + 1;
    }
    assert(a@ =~= b@);
    true
}

/// A fresh vector holding the same bytes.
pub fn clone_bytes(v: &Vec<u8>) -> (r: Vec<u8>)
    ensures
        r@ == v@,
{
    let mut r: Vec<u8> = Vec::new();
    let n = v.len();
    let mut i: usize = 0;
    while i < n
        invariant
            n == v@.len(),
            i <= n,
            r@ == v@.subrange(0, i as int),
        decreases n - i,
    {
        r.push(v[i]);
        assert(r@ =~= v@.subrange(0, i + 1));
        i = i + 1;
    }
    assert(r@ =~= v@);
    r
}

} // verus!
