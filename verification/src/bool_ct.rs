//! The trusted boundary to the boolean homomorphic scheme: an encrypted bit
//! [`AesBit`] carrying its plaintext as a ghost value, and one wrapper per
//! gate the bit-sliced engine uses.
//!
//! Every contract restates what the operation's source shows: each one
//! computes the corresponding boolean function of the operand plaintexts.
use vstd::prelude::*;

verus! {

use vstd::pervasive::arbitrary;
use tfhe::boolean::server_key::BinaryBooleanGates;

#[verifier::external_type_specification]
#[verifier::external_body]
pub struct ExBoolCiphertext(tfhe::boolean::ciphertext::Ciphertext);

#[verifier::external_type_specification]
#[verifier::external_body]
pub struct ExBoolServerKey(tfhe::boolean::server_key::ServerKey);

#[verifier::external_type_specification]
#[verifier::external_body]
pub struct ExBoolClientKey(tfhe::boolean::client_key::ClientKey);

/// One bit of cipher state in the bit-sliced representation: an opaque
/// boolean ciphertext together with the plaintext bit it encrypts (ghost).
pub struct AesBit {
    ct: tfhe::boolean::ciphertext::Ciphertext,
    plain: Ghost<bool>,
}

impl AesBit {
    /// The plaintext bit this ciphertext encrypts.
    pub closed spec fn plain_bit(self) -> bool {
        self.plain@
    }
}

/// Relies on `ServerKey::xor`: the result encrypts the exclusive-or of the
/// operands' plaintexts.
#[verifier::external_body]
pub(crate) fn bit_xor(sk: &tfhe::boolean::server_key::ServerKey, a: &AesBit, b: &AesBit) -> (r:
    AesBit)
    ensures
        r.plain_bit() == (a.plain_bit() != b.plain_bit()),
{
    AesBit { ct: sk.xor(&a.ct, &b.ct), plain: Ghost(arbitrary()) }
}

/// Relies on `ServerKey::xnor`: the result encrypts the negated
/// exclusive-or of the operands' plaintexts.
#[verifier::external_body]
pub(crate) fn bit_xnor(sk: &tfhe::boolean::server_key::ServerKey, a: &AesBit, b: &AesBit) -> (r:
    AesBit)
    ensures
        r.plain_bit() == (a.plain_bit() == b.plain_bit()),
{
    AesBit { ct: sk.xnor(&a.ct, &b.ct), plain: Ghost(arbitrary()) }
}

/// Relies on `ServerKey::and`: the result encrypts the conjunction of the
/// operands' plaintexts.
#[verifier::external_body]
pub(crate) fn bit_and(sk: &tfhe::boolean::server_key::ServerKey, a: &AesBit, b: &AesBit) -> (r:
    AesBit)
    ensures
        r.plain_bit() == (a.plain_bit() && b.plain_bit()),
{
    AesBit { ct: sk.and(&a.ct, &b.ct), plain: Ghost(arbitrary()) }
}

/// Relies on `ServerKey::mux`: the result encrypts the `then` plaintext when
/// the condition's plaintext is true, the `else` plaintext otherwise.
#[verifier::external_body]
pub(crate) fn bit_mux(
    sk: &tfhe::boolean::server_key::ServerKey,
    c: &AesBit,
    t: &AesBit,
    f: &AesBit,
) -> (r: AesBit)
    ensures
        r.plain_bit() == (if c.plain_bit() {
            t.plain_bit()
        } else {
            f.plain_bit()
        }),
{
    AesBit { ct: sk.mux(&c.ct, &t.ct, &f.ct), plain: Ghost(arbitrary()) }
}

/// Relies on `ClientKey::encrypt`: the fresh ciphertext encrypts the given
/// bit under the session's key pair.
#[verifier::external_body]
pub fn bit_encrypt(ck: &tfhe::boolean::client_key::ClientKey, b: bool) -> (r: AesBit)
    ensures
        r.plain_bit() == b,
{
    AesBit { ct: ck.encrypt(b), plain: Ghost(arbitrary()) }
}

/// Relies on `ServerKey::trivial_encrypt`: the ciphertext trivially encodes
/// the given bit.
#[verifier::external_body]
pub fn bit_trivial(sk: &tfhe::boolean::server_key::ServerKey, b: bool) -> (r: AesBit)
    ensures
        r.plain_bit() == b,
{
    AesBit { ct: sk.trivial_encrypt(b), plain: Ghost(arbitrary()) }
}

/// Relies on `ClientKey::decrypt`: it returns the plaintext of a ciphertext
/// produced under the session's key pair.
#[verifier::external_body]
pub(crate) fn bit_decrypt(ck: &tfhe::boolean::client_key::ClientKey, a: &AesBit) -> (r: bool)
    ensures
        r == a.plain_bit(),
{
    ck.decrypt(&a.ct)
}

/// Relies on `Ciphertext::clone`: a clone is the same ciphertext.
#[verifier::external_body]
pub(crate) fn bit_dup(a: &AesBit) -> (r: AesBit)
    ensures
        r == *a,
{
    AesBit { ct: a.ct.clone(), plain: a.plain }
}

} // verus!
