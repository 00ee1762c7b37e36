//! The local participant's identity: an Ed25519 key pair, of which the
//! public half is the 32-byte identifier that other participants see.

use vstd::prelude::*;
use vstd::string::StringExecFns;

verus! {

/// The Ed25519 public key that belongs to the 32-byte secret key `secret`.
pub uninterp spec fn ed25519_public_key(secret: Seq<u8>) -> Seq<u8>;

/// The Ed25519 signature of `message` under the 32-byte secret key `secret`.
pub uninterp spec fn ed25519_signature(secret: Seq<u8>, message: Seq<u8>) -> Seq<u8>;

/// Asks the operating system for 32 random bytes, through
/// `rand::rngs::OsRng` and its `try_fill_bytes`. Nothing is claimed of the
/// bytes; `None` where the operating system gives none.
#[verifier::external_body]
fn os_random_secret() -> (out: Option<[u8; 32]>) {
    let mut secret = [0u8; 32];
    match rand::RngCore::try_fill_bytes(&mut rand::rngs::OsRng, &mut secret) {
        Ok(()) => Some(secret),
        Err(_) => None,
    }
}

/// Derives the public key of a secret key with
/// `ed25519_dalek::SigningKey::from_bytes` and `verifying_key`. The claim is
/// that the 32 bytes returned depend on the secret key alone.
#[verifier::external_body]
fn derive_public_key(secret: &[u8; 32]) -> (out: [u8; 32])
    ensures
        out@ == ed25519_public_key(secret@),
{
    ed25519_dalek::SigningKey::from_bytes(secret).verifying_key().to_bytes()
}

/// Signs a message with `ed25519_dalek::Signer::sign` on the signing key
/// built from the secret key. Ed25519 signing draws no randomness, so the
/// claim is that the 64 bytes returned depend on the secret key and the
/// message alone.
#[verifier::external_body]
fn sign_with(secret: &[u8; 32], message: &[u8]) -> (out: [u8; 64])
    ensures
        out@ == ed25519_signature(secret@, message@),
{
    let key = ed25519_dalek::SigningKey::from_bytes(secret);
    ed25519_dalek::Signer::sign(&key, message).to_bytes()
}

/// The character for a hexadecimal digit, in lower case.
pub open spec fn hex_digit(n: u8) -> char
    recommends
        n < 16,
{
    if n == 0 {
        '0'
    } else if n == 1 {
        '1'
    } else if n == 2 {
        '2'
    } else if n == 3 {
        '3'
    } else if n == 4 {
        '4'
    } else if n == 5 {
        '5'
    } else if n == 6 {
        '6'
    } else if n == 7 {
        '7'
    } else if n == 8 {
        '8'
    } else if n == 9 {
        '9'
    } else if n == 10 {
        'a'
    } else if n == 11 {
        'b'
    } else if n == 12 {
        'c'
    } else if n == 13 {
        'd'
    } else if n == 14 {
        'e'
    } else {
        'f'
    }
}

/// The lower-case hexadecimal text of `bytes`: two digits for each byte,
/// the high half first.
pub open spec fn hex_spec(bytes: Seq<u8>) -> Seq<char> {
    Seq::new(
        2 * bytes.len(),
        |i: int|
            hex_digit(
                if i % 2 == 0 {
                    bytes[i / 2] / 16
                } else {
                    bytes[i / 2] % 16
                },
            ),
    )
}

/// The one-character text of a hexadecimal digit.
fn digit_str(n: u8) -> (s: &'static str)
    requires
        n < 16,
    ensures
        s@ == seq![hex_digit(n)],
{
    proof {
        reveal_strlit("0");
        reveal_strlit("1");
        reveal_strlit("2");
        reveal_strlit("3");
        reveal_strlit("4");
        reveal_strlit("5");
        reveal_strlit("6");
        reveal_strlit("7");
        reveal_strlit("8");
        reveal_strlit("9");
        reveal_strlit("a");
        reveal_strlit("b");
        reveal_strlit("c");
        reveal_strlit("d");
        reveal_strlit("e");
        reveal_strlit("f");
    }
    let s = if n == 0 {
        "0"
    } else if n == 1 {
        "1"
    } else if n == 2 {
        "2"
    } else if n == 3 {
        "3"
    } else if n == 4 {
        "4"
    } else if n == 5 {
        "5"
    } else if n == 6 {
        "6"
    } else if n == 7 {
        "7"
    } else if n == 8 {
        "8"
    } else if n == 9 {
        "9"
    } else if n == 10 {
        "a"
    } else if n == 11 {
        "b"
    } else if n == 12 {
        "c"
    } else if n == 13 {
        "d"
    } else if n == 14 {
        "e"
    } else {
        "f"
    };
    assert(s@ =~= seq![hex_digit(n)]);
    s
}

/// Writes a public identifier as 64 lower-case hexadecimal digits.
pub fn encode(bytes: [u8; 32]) -> (s: String)
    ensures
        s@ == hex_spec(bytes@),
        s@.len() == 64,
{
    let mut s = String::new();
    let mut i: usize = 0;
    while i < 32
        invariant
            i <= 32,
            s@ == hex_spec(bytes@.subrange(0, i as int)),
        decreases 32 - i,
    {
        let b: u8 = bytes[i];
        let ghost before = s@;
        s.append(digit_str(b / 16));
        s.append(digit_str(b % 16));
        i += 1;
        proof {
            let next = bytes@.subrange(0, i as int);
            assert(s@ == before + seq![hex_digit(b / 16)] + seq![hex_digit(b % 16)]);
            assert(s@ =~= hex_spec(next));
        }
    }
    assert(bytes@.subrange(0, 32) =~= bytes@);
    s
}

/// The identity of the local participant.
pub struct IdentityManager {
    secret: [u8; 32],
    public: [u8; 32],
}

impl IdentityManager {
    #[verifier::type_invariant]
    spec fn public_belongs_to_secret(self) -> bool {
        self.public@ == ed25519_public_key(self.secret@)
    }

    /// The secret key.
    pub closed spec fn secret_key(&self) -> Seq<u8> {
        self.secret@
    }

    /// The public identifier: the public key of the secret key.
    pub open spec fn public_id(&self) -> Seq<u8> {
        ed25519_public_key(self.secret_key())
    }

    /// The identity with the given secret key.
    pub fn from_secret(secret: [u8; 32]) -> (out: Self)
        ensures
            out.secret_key() == secret@,
    {
        let public = derive_public_key(&secret);
        IdentityManager { secret, public }
    }

    /// A fresh identity from the operating system's randomness. `None`
    /// where the operating system gives none.
    pub fn new() -> (out: Option<Self>) {
        Self::from_drawn(os_random_secret())
    }

    /// The identity for what a draw of randomness gave: the one with the
    /// drawn bytes as its secret key, and none where the draw gave nothing.
    pub fn from_drawn(drawn: Option<[u8; 32]>) -> (out: Option<Self>)
        ensures
            out is Some <==> drawn is Some,
            out matches Some(identity) ==> identity.secret_key() == drawn->0@,
    {
        match drawn {
            Some(secret) => Some(Self::from_secret(secret)),
            None => None,
        }
    }

    /// The public identifier as it is sent to other participants.
    pub fn as_bytes(&self) -> (out: [u8; 32])
        ensures
            out@ == self.public_id(),
    {
        proof {
            use_type_invariant(self);
        }
        self.public
    }

    /// The public identifier in hexadecimal, for display.
    pub fn get_public_key_string(&self) -> (s: String)
        ensures
            s@ == hex_spec(self.public_id()),
            s@.len() == 64,
    {
        encode(self.as_bytes())
    }

    /// The signature of `message` under this identity.
    pub fn sign_message(&self, message: &[u8]) -> (signature: [u8; 64])
        ensures
            signature@ == ed25519_signature(self.secret_key(), message@),
    {
        sign_with(&self.secret, message)
    }
}

} // verus!
