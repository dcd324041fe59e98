//! Tags over messages: making one and checking one.

use crate::digest::{sha256, sha256_digest};
use crate::keypair::Keypair;
use vstd::prelude::*;
use vstd::slice::slice_to_vec;

verus! {

/// Something that can tag a message and check a tag.
pub trait Signer {
    /// The tag that belongs to `msg`.
    spec fn tag(&self, msg: Seq<u8>) -> Seq<u8>;

    /// Whether `sig` passes as a tag of `msg`.
    spec fn accepts(&self, msg: Seq<u8>, sig: Seq<u8>) -> bool;

    /// Every message's own tag passes for that message.
    proof fn own_tag_is_accepted(&self, msg: Seq<u8>)
        ensures
            self.accepts(msg, self.tag(msg)),
    ;

    /// Sign a message using the private key.
    fn sign(&self, msg: &[u8]) -> (sig: Vec<u8>)
        ensures
            sig@ == self.tag(msg@),
    ;

    /// Verify if the signature matches the message and the keypair.
    fn verify(&self, msg: &[u8], sig: &[u8]) -> (ok: bool)
        ensures
            ok == self.accepts(msg@, sig@),
    ;
}

/// The bytes of `head` followed by those of `tail`.
pub fn join_bytes(head: &[u8], tail: &[u8]) -> (joined: Vec<u8>)
    ensures
        joined@ == head@ + tail@,
{
    let mut joined = slice_to_vec(head);
    let mut i: usize = 0;
    while i < tail.len()
        invariant
            i <= tail@.len(),
            joined@ == head@ + tail@.take(i as int),
        decreases tail@.len() - i,
    {
        joined.push(tail[i]);
        i += 1;
        assert(tail@.take(i as int) == tail@.take(i - 1).push(tail@[i - 1]));
    }
    assert(tail@.take(i as int) == tail@);
    joined
}

/// Whether `left` and `right` hold the same bytes, length included.
pub fn bytes_equal(left: &[u8], right: &[u8]) -> (same: bool)
    ensures
        same == (left@ == right@),
{
    if left.len() != right.len() {
        return false;
    }
    let mut i: usize = 0;
    while i < left.len()
        invariant
            left@.len() == right@.len(),
            i <= left@.len(),
            left@.take(i as int) == right@.take(i as int),
        decreases left@.len() - i,
    {
        if left[i] != right[i] {
            return false;
        }
        i += 1;
        assert(left@.take(i as int) == left@.take(i - 1).push(left@[i - 1]));
        assert(right@.take(i as int) == right@.take(i - 1).push(right@[i - 1]));
    }
    assert(left@.take(i as int) == left@);
    assert(right@.take(i as int) == right@);
    true
}

impl Signer for Keypair {
    /// SHA-256 of the message followed by the private key.
    open spec fn tag(&self, msg: Seq<u8>) -> Seq<u8> {
        sha256(msg + self.private_key@)@
    }

    /// `sig` is, byte for byte and in length, the tag of `msg`. The public
    /// key is not consulted.
    open spec fn accepts(&self, msg: Seq<u8>, sig: Seq<u8>) -> bool {
        sig == self.tag(msg)
    }

    proof fn own_tag_is_accepted(&self, msg: Seq<u8>) {
    }

    fn sign(&self, msg: &[u8]) -> (sig: Vec<u8>)
        ensures
            sig@.len() == 32,
    {
        let data = join_bytes(msg, &self.private_key);
        let digest = sha256_digest(data.as_slice());
        slice_to_vec(&digest)
    }

    fn verify(&self, msg: &[u8], sig: &[u8]) -> (ok: bool)
        ensures
            sig@.len() != 32 ==> !ok,
    {
        let digest = self.sign(msg);
        bytes_equal(digest.as_slice(), sig)
    }
}

/// Two concatenations whose second parts are equally long are equal only if
/// they are equal part by part.
proof fn lemma_concat_injective(a1: Seq<u8>, b1: Seq<u8>, a2: Seq<u8>, b2: Seq<u8>)
    requires
        a1 + b1 == a2 + b2,
        b1.len() == b2.len(),
    ensures
        a1 == a2,
        b1 == b2,
{
    assert((a1 + b1).len() == a1.len() + b1.len());
    assert((a2 + b2).len() == a2.len() + b2.len());
    assert forall|i: int| 0 <= i < a1.len() implies a1[i] == a2[i] by {
        assert((a1 + b1)[i] == a1[i]);
        assert((a2 + b2)[i] == a2[i]);
    }
    assert(a1 =~= a2);
    assert forall|i: int| 0 <= i < b1.len() implies b1[i] == b2[i] by {
        assert((a1 + b1)[a1.len() + i] == b1[i]);
        assert((a2 + b2)[a2.len() + i] == b2[i]);
    }
    assert(b1 =~= b2);
}

impl Keypair {
    /// Signing is a function of the private key and the message: keypairs with
    /// the same private key put the same tag on the same message, whatever
    /// their public keys hold.
    pub proof fn law_tag_is_deterministic(self, other: Keypair, msg: Seq<u8>)
        requires
            self.private_key@ == other.private_key@,
        ensures
            self.tag(msg) == other.tag(msg),
    {
    }

    /// A tag made for `msg` passes for a different message `other` exactly
    /// when SHA-256 gives the two hashed inputs, which differ, the same digest.
    pub proof fn law_message_sensitivity(self, msg: Seq<u8>, other: Seq<u8>)
        requires
            msg != other,
        ensures
            self.accepts(msg, self.tag(msg)),
            msg + self.private_key@ != other + self.private_key@,
            self.accepts(other, self.tag(msg)) <==> sha256(msg + self.private_key@) == sha256(
                other + self.private_key@,
            ),
    {
        if msg + self.private_key@ == other + self.private_key@ {
            lemma_concat_injective(msg, self.private_key@, other, self.private_key@);
        }
        if self.tag(other) == self.tag(msg) {
            assert(sha256(other + self.private_key@) =~= sha256(msg + self.private_key@));
        }
    }

    /// A tag made with this keypair passes under a keypair with a different
    /// private key exactly when SHA-256 gives the two hashed inputs, which
    /// differ, the same digest.
    pub proof fn law_key_sensitivity(self, other: Keypair, msg: Seq<u8>)
        requires
            self.private_key@ != other.private_key@,
        ensures
            msg + self.private_key@ != msg + other.private_key@,
            other.accepts(msg, self.tag(msg)) <==> sha256(msg + self.private_key@) == sha256(
                msg + other.private_key@,
            ),
    {
        if msg + self.private_key@ == msg + other.private_key@ {
            lemma_concat_injective(msg, self.private_key@, msg, other.private_key@);
        }
        if other.tag(msg) == self.tag(msg) {
            assert(sha256(msg + other.private_key@) =~= sha256(msg + self.private_key@));
        }
    }
}

} // verus!
