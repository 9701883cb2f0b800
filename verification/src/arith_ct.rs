//! The trusted boundary to the word-level homomorphic integers: an
//! encrypted byte [`FheByte`] carrying its plaintext as a ghost value, and
//! one wrapper per homomorphic operation the arithmetic engine uses.
//!
//! Every contract here restates what the homomorphic library's source shows
//! of the operation; nothing else in the crate is taken on trust. The
//! operations require the caller's process to have installed the server key
//! (`tfhe::set_server_key`) on every thread that evaluates; the library
//! panics otherwise, which no contract here hides.
use vstd::prelude::*;

verus! {

use vstd::pervasive::arbitrary;
use tfhe::prelude::FheTrivialEncrypt;

/// The homomorphic eight-bit integer, behind an opaque wrapper: the trait
/// that bounds its type parameter is not nameable outside the homomorphic
/// library, so the type itself cannot be declared to the verifier.
#[verifier::external_body]
pub struct ArithCt {
    inner: tfhe::FheUint8,
}

#[verifier::external_type_specification]
#[verifier::external_body]
#[verifier::reject_recursive_types(Clear)]
pub struct ExMatchValues<Clear>(tfhe::MatchValues<Clear>);

#[verifier::external_type_specification]
#[verifier::external_body]
pub struct ExTfheError(tfhe::Error);

#[verifier::external_type_specification]
#[verifier::external_body]
pub struct ExHlClientKey(tfhe::ClientKey);

#[verifier::external_type_specification]
#[verifier::external_body]
pub struct ExNotTrivialCiphertextError(tfhe::shortint::ciphertext::NotTrivialCiphertextError);

/// One byte of cipher state in the arithmetic representation: an opaque
/// eight-bit homomorphic integer, together with the plaintext byte it
/// encrypts (ghost) and whether it is a trivial encryption (ghost).
pub struct FheByte {
    ct: ArithCt,
    plain: Ghost<u8>,
    triv: Ghost<bool>,
}

impl FheByte {
    /// The plaintext byte this ciphertext encrypts.
    pub closed spec fn plain_byte(self) -> u8 {
        self.plain@
    }

    /// Whether this ciphertext is a trivial encryption, so that it can be
    /// decoded without a secret key.
    pub closed spec fn is_trivial(self) -> bool {
        self.triv@
    }
}

/// The plaintexts of a sequence of encrypted bytes.
pub open spec fn bytes_plain(s: Seq<FheByte>) -> Seq<u8> {
    Seq::new(s.len(), |i: int| s[i].plain_byte())
}

/// Whether every byte of the sequence is a trivial encryption.
pub open spec fn bytes_trivial(s: Seq<FheByte>) -> bool {
    forall|i: int| 0 <= i < s.len() ==> s[i].is_trivial()
}

/// The (input, output) pairs a `MatchValues` table was built from.
pub uninterp spec fn match_entries(m: tfhe::MatchValues<u8>) -> Seq<(u8, u8)>;

/// No two pairs share an input value.
pub open spec fn unique_inputs(s: Seq<(u8, u8)>) -> bool {
    forall|i: int, j: int| 0 <= i < j < s.len() ==> s[i].0 != s[j].0
}

/// The output paired with the first occurrence of input `k`, or 0 when no
/// pair has it.
pub open spec fn lookup_entry(s: Seq<(u8, u8)>, k: u8) -> u8
    decreases s.len(),
{
    if s.len() == 0 {
        0
    } else if s[0].0 == k {
        s[0].1
    } else {
        lookup_entry(s.drop_first(), k)
    }
}

/// Relies on tfhe's `^` for `FheUint8` (homomorphic bitwise XOR): the result
/// encrypts the XOR of the operands' plaintexts, and stays trivial when both
/// operands are trivial.
#[verifier::external_body]
pub(crate) fn fhe_xor(a: &FheByte, b: &FheByte) -> (r: FheByte)
    ensures
        r.plain_byte() == (a.plain_byte() ^ b.plain_byte()),
        a.is_trivial() && b.is_trivial() ==> r.is_trivial(),
{
    FheByte { ct: ArithCt { inner: &a.ct.inner ^ &b.ct.inner }, plain: Ghost(arbitrary()), triv: Ghost(arbitrary()) }
}

/// Relies on tfhe's `<<` for `FheUint8` by a clear amount: the result
/// encrypts the plaintext shifted left with the high bits dropped, and stays
/// trivial when the operand is.
#[verifier::external_body]
pub(crate) fn fhe_shl(a: &FheByte, k: u8) -> (r: FheByte)
    requires
        k < 8,
    ensures
        r.plain_byte() == (a.plain_byte() << k),
        a.is_trivial() ==> r.is_trivial(),
{
    FheByte { ct: ArithCt { inner: &a.ct.inner << k }, plain: Ghost(arbitrary()), triv: Ghost(arbitrary()) }
}

/// Relies on tfhe's `>>` for `FheUint8` by a clear amount: the result
/// encrypts the plaintext shifted right, and stays trivial when the operand
/// is.
#[verifier::external_body]
pub(crate) fn fhe_shr(a: &FheByte, k: u8) -> (r: FheByte)
    requires
        k < 8,
    ensures
        r.plain_byte() == (a.plain_byte() >> k),
        a.is_trivial() ==> r.is_trivial(),
{
    FheByte { ct: ArithCt { inner: &a.ct.inner >> k }, plain: Ghost(arbitrary()), triv: Ghost(arbitrary()) }
}

/// Relies on tfhe's `*` for `FheUint8` by a clear scalar (homomorphic
/// multiplication modulo 256), trivial when the operand is.
#[verifier::external_body]
pub(crate) fn fhe_scalar_mul(a: &FheByte, k: u8) -> (r: FheByte)
    ensures
        r.plain_byte() == ((a.plain_byte() as int * k as int) % 256) as u8,
        a.is_trivial() ==> r.is_trivial(),
{
    FheByte { ct: ArithCt { inner: &a.ct.inner * k }, plain: Ghost(arbitrary()), triv: Ghost(arbitrary()) }
}

/// Relies on `FheUint8::encrypt_trivial`: encodes a clear byte as a trivial
/// ciphertext of that byte.
#[verifier::external_body]
pub(crate) fn fhe_trivial(x: u8) -> (r: FheByte)
    ensures
        r.plain_byte() == x,
        r.is_trivial(),
{
    FheByte {
        ct: ArithCt { inner: tfhe::FheUint8::encrypt_trivial(x) },
        plain: Ghost(arbitrary()),
        triv: Ghost(arbitrary()),
    }
}

/// Relies on `FheUint8::encrypt`: a fresh, non-trivial encryption of the
/// byte under the client key.
#[verifier::external_body]
pub(crate) fn fhe_encrypt(ck: &tfhe::ClientKey, x: u8) -> (r: FheByte)
    ensures
        r.plain_byte() == x,
{
    FheByte {
        ct: ArithCt {
            inner: <tfhe::FheUint8 as tfhe::prelude::FheEncrypt<u8, tfhe::ClientKey>>::encrypt(
                x, ck,
            ),
        },
        plain: Ghost(arbitrary()),
        triv: Ghost(arbitrary()),
    }
}

/// Relies on `FheUint8::try_decrypt_trivial`: decodes a trivial ciphertext
/// to its plaintext and refuses a non-trivial one.
#[verifier::external_body]
pub(crate) fn fhe_try_decrypt_trivial(a: &FheByte) -> (r: Result<
    u8,
    tfhe::shortint::ciphertext::NotTrivialCiphertextError,
>)
    ensures
        a.is_trivial() ==> r is Ok,
        r matches Ok(x) ==> x == a.plain_byte(),
{
    a.ct.inner.try_decrypt_trivial()
}

/// Relies on `FheUint8::clone`: a clone is the same ciphertext, with the
/// same plaintext and triviality.
#[verifier::external_body]
pub(crate) fn fhe_dup(a: &FheByte) -> (r: FheByte)
    ensures
        r == *a,
{
    FheByte { ct: ArithCt { inner: a.ct.inner.clone() }, plain: a.plain, triv: a.triv }
}

/// Relies on `MatchValues::new`: it stores exactly the given pairs and errs
/// exactly when two pairs share an input value.
#[verifier::external_body]
pub(crate) fn matcher_new(pairs: Vec<(u8, u8)>) -> (r: Result<tfhe::MatchValues<u8>, tfhe::Error>)
    ensures
        r is Ok <==> unique_inputs(pairs@),
        r matches Ok(m) ==> match_entries(m) == pairs@,
{
    tfhe::MatchValues::new(pairs)
}

/// Relies on `FheUint8::match_value`: an oblivious lookup of the encrypted
/// byte among the table's pairs, yielding zero when no pair has it. With
/// eight-bit outputs the table always fits the result type, so the call
/// cannot fail; the result is trivial when the input is.
#[verifier::external_body]
pub(crate) fn fhe_match(a: &FheByte, m: &tfhe::MatchValues<u8>) -> (r: Result<
    FheByte,
    tfhe::Error,
>)
    ensures
        r is Ok,
        r matches Ok(b) ==> (unique_inputs(match_entries(*m)) ==> b.plain_byte() == lookup_entry(
            match_entries(*m),
            a.plain_byte(),
        )),
        r matches Ok(b) ==> (a.is_trivial() ==> b.is_trivial()),
{
    let res: Result<(tfhe::FheUint8, tfhe::FheBool), tfhe::Error> = a.ct.inner.match_value(m);
    match res {
        Ok((v, _matched)) => Ok(
            FheByte { ct: ArithCt { inner: v }, plain: Ghost(arbitrary()), triv: Ghost(arbitrary()) },
        ),
        Err(e) => Err(e),
    }
}

} // verus!
