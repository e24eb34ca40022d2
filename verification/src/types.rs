//! Textual carriers for cryptographic material: a public key, a block
//! hash and a secret key, each held in the exact form the operator wrote
//! and known to be accepted by the outside parsers.

use vstd::prelude::*;

use crate::trusted::{
    check_block_hash_text, check_public_key_text, check_secret_key_text, parseable_block_hash,
    parseable_public_key, usable_secret_key,
};

verus! {

/// A public key in its textual form, accepted by the key parser.
#[derive(Debug)]
pub struct PublicKey {
    text: String,
}

impl View for PublicKey {
    type V = Seq<char>;

    closed spec fn view(&self) -> Seq<char> {
        self.text@
    }
}

impl Clone for PublicKey {
    fn clone(&self) -> (r: Self)
        ensures
            r == *self,
    {
        proof {
            use_type_invariant(self);
        }
        PublicKey { text: self.text.clone() }
    }
}

impl PublicKey {
    /// Every value of this type parses as a public key.
    #[verifier::type_invariant]
    pub open spec fn wf(&self) -> bool {
        parseable_public_key(self@)
    }

    /// Accepts `s` exactly when the key parser does.
    pub fn parse(s: &str) -> (r: Option<PublicKey>)
        ensures
            r is Some <==> parseable_public_key(s@),
            r matches Some(k) ==> k@ == s@ && k.wf(),
    {
        if check_public_key_text(s) {
            Some(PublicKey { text: s.to_owned() })
        } else {
            None
        }
    }

    /// The textual form.
    pub fn as_text(&self) -> (r: &str)
        ensures
            r@ == self@,
    {
        self.text.as_str()
    }
}

/// A block hash in its textual (base58) form, accepted by the hash parser.
#[derive(Debug)]
pub struct CryptoHash {
    text: String,
}

impl View for CryptoHash {
    type V = Seq<char>;

    closed spec fn view(&self) -> Seq<char> {
        self.text@
    }
}

impl Clone for CryptoHash {
    fn clone(&self) -> (r: Self)
        ensures
            r == *self,
    {
        proof {
            use_type_invariant(self);
        }
        CryptoHash { text: self.text.clone() }
    }
}

impl CryptoHash {
    /// Every value of this type parses as a 32-byte hash.
    #[verifier::type_invariant]
    pub open spec fn wf(&self) -> bool {
        parseable_block_hash(self@)
    }

    /// Accepts `s` exactly when the hash parser does.
    pub fn parse(s: &str) -> (r: Option<CryptoHash>)
        ensures
            r is Some <==> parseable_block_hash(s@),
            r matches Some(h) ==> h@ == s@ && h.wf(),
    {
        if check_block_hash_text(s) {
            Some(CryptoHash { text: s.to_owned() })
        } else {
            None
        }
    }

    /// The textual form.
    pub fn as_text(&self) -> (r: &str)
        ensures
            r@ == self@,
    {
        self.text.as_str()
    }
}

/// A secret key in its textual form, accepted by the key parser and safe
/// to sign with.
#[derive(Debug)]
pub struct SecretKey {
    text: String,
}

impl View for SecretKey {
    type V = Seq<char>;

    closed spec fn view(&self) -> Seq<char> {
        self.text@
    }
}

impl Clone for SecretKey {
    fn clone(&self) -> (r: Self)
        ensures
            r == *self,
    {
        proof {
            use_type_invariant(self);
        }
        SecretKey { text: self.text.clone() }
    }
}

impl SecretKey {
    /// Every value of this type is usable for signing.
    #[verifier::type_invariant]
    pub open spec fn wf(&self) -> bool {
        usable_secret_key(self@)
    }

    /// Accepts `s` exactly when it is a key this library signs with.
    pub fn parse(s: &str) -> (r: Option<SecretKey>)
        ensures
            r is Some <==> usable_secret_key(s@),
            r matches Some(k) ==> k@ == s@ && k.wf(),
    {
        if check_secret_key_text(s) {
            Some(SecretKey { text: s.to_owned() })
        } else {
            None
        }
    }

    /// The textual form.
    pub fn as_text(&self) -> (r: &str)
        ensures
            r@ == self@,
    {
        self.text.as_str()
    }
}

} // verus!
