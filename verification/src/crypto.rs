//! Encryption and decryption of the keyfile with age (scrypt, passphrase),
//! and the handling of the passphrases around it: the plain copies of a
//! passphrase are wiped once age has used them.
use vstd::prelude::*;

verus! {

/// The first line of every age file of format version 1.
pub const AGE_V1_INTRO: &'static str = "age-encryption.org/v1\n";

/// The start of the line of an scrypt (passphrase) recipient stanza.
pub const SCRYPT_STANZA_START: &'static str = "-> scrypt ";

/// The start of the line that ends an age v1 header (the line of its MAC).
pub const HEADER_MAC_START: &'static str = "---";

/// The bytes of an ASCII text.
pub open spec fn ascii_bytes(s: Seq<char>) -> Seq<u8> {
    s.map_values(|c: char| c as u8)
}

/// The bytes of `AGE_V1_INTRO`.
pub open spec fn age_v1_intro() -> Seq<u8> {
    ascii_bytes(AGE_V1_INTRO@)
}

/// Whether `data` begins with the first line of an age v1 file.
pub open spec fn starts_with_age_intro(data: Seq<u8>) -> bool {
    data.len() >= age_v1_intro().len() && data.take(age_v1_intro().len() as int)
        == age_v1_intro()
}

/// Whether the age v1 header at the start of `data` holds exactly one
/// recipient stanza, of type scrypt: after the first line comes the line
/// `-> scrypt <salt> <work factor>`, then one line of stanza body, then the
/// line of the header's MAC.
pub open spec fn has_single_scrypt_stanza(data: Seq<u8>) -> bool {
    let n = age_v1_intro().len() as int;
    let tag = ascii_bytes(SCRYPT_STANZA_START@);
    let mac = ascii_bytes(HEADER_MAC_START@);
    &&& n + tag.len() <= data.len()
    &&& data.subrange(n, n + tag.len()) == tag
    &&& exists|i: int, j: int|
        #![trigger data[i], data[j]]
        {
            &&& n + tag.len() <= i < j
            &&& j + 1 + mac.len() <= data.len()
            &&& data[i] == 10u8
            &&& data[j] == 10u8
            &&& forall|k: int| n <= k < i ==> data[k] != 10u8
            &&& forall|k: int| i < k < j ==> data[k] != 10u8
            &&& data.subrange(j + 1, j + 1 + mac.len()) == mac
        }
}

/// Whether `age::Decryptor::new` accepts the header (and nonce) at the start of `data`.
pub uninterp spec fn age_header_accepted(data: Seq<u8>) -> bool;

/// The payload that the age file `data` holds for `passphrase`, if the
/// passphrase opens it.
pub uninterp spec fn age_payload(data: Seq<u8>, passphrase: Seq<char>) -> Option<Seq<u8>>;

/// Whether `passphrase` unlocks the age file `data`: the key derived from it
/// by scrypt decrypts the file key in the file's scrypt stanza, and that file
/// key verifies the MAC of the header.
pub uninterp spec fn age_passphrase_unlocks(data: Seq<u8>, passphrase: Seq<char>) -> bool;

#[verifier::external_type_specification]
#[verifier::external_body]
#[verifier::reject_recursive_types(R)]
pub struct ExAgeDecryptor<R>(age::Decryptor<R>);

#[verifier::external_type_specification]
#[verifier::external_body]
pub struct ExAgeDecryptError(age::DecryptError);

#[verifier::external_type_specification]
#[verifier::external_body]
pub struct ExAgeEncryptError(age::EncryptError);

/// Calls `zeroize::Zeroize::zeroize` on a `String`: the bytes are overwritten
/// with zeros and the string is left empty (zeroize's implementation clears
/// the vector after overwriting it).
#[verifier::external_body]
fn wipe(s: &mut String)
    ensures
        final(s)@ == Seq::<char>::empty(),
{
    zeroize::Zeroize::zeroize(s);
}

/// Calls `age::encrypt` with the scrypt recipient for `passphrase`
/// (`age::scrypt::Recipient::new`, given a `SecretString` copy of it).
///
/// In age's implementation, encryption to one scrypt recipient into a `Vec`
/// cannot fail. The file holds `plaintext` for `passphrase`, which unlocks
/// it: the file key is encrypted under the scrypt key of `passphrase` and
/// authenticates the header's MAC. It begins with the
/// header: the first line `AGE_V1_INTRO`, one scrypt stanza (its 32-byte body
/// is one line of base64) and the MAC line, which `age::Decryptor::new` reads
/// back; then come a 16-byte nonce and the payload, each chunk with a 16-byte
/// tag. The salt, file key and nonce are random, so the bytes are not stated.
#[verifier::external_body]
fn age_encrypt_to_passphrase(passphrase: &str, plaintext: &[u8]) -> (r: Result<
    Vec<u8>,
    age::EncryptError,
>)
    ensures
        r is Ok,
        r matches Ok(c) ==> {
            &&& starts_with_age_intro(c@)
            &&& has_single_scrypt_stanza(c@)
            &&& age_header_accepted(c@)
            &&& c@.len() > plaintext@.len()
            &&& age_payload(c@, passphrase@) == Some(plaintext@)
            &&& age_passphrase_unlocks(c@, passphrase@)
        },
{
    let recipient = age::scrypt::Recipient::new(age::secrecy::SecretString::from(passphrase));
    age::encrypt(&recipient, plaintext)
}

/// Calls `age::Decryptor::new`, which reads the header and the payload nonce
/// of an age file. Whether it succeeds is named `age_header_accepted`; the
/// header parser of age's implementation requires the first line
/// `AGE_V1_INTRO`.
#[verifier::external_body]
fn open_age_file<'a>(data: &'a [u8]) -> (r: Result<age::Decryptor<&'a [u8]>, age::DecryptError>)
    ensures
        r is Ok <==> age_header_accepted(data@),
        r is Ok ==> starts_with_age_intro(data@),
{
    age::Decryptor::new(data)
}

/// Why `age::decrypt` failed, as far as the keyfile's errors tell it apart.
#[derive(Clone, Copy, Debug, PartialEq, Eq, Structural)]
pub enum DecryptFailure {
    /// Reading the payload failed (`age::DecryptError::Io`): a payload chunk
    /// did not authenticate, or the file ended early.
    Read,
    /// Any other error: the passphrase or the header was refused (a wrong
    /// passphrase, a bad MAC, an excessive work factor, an invalid header).
    Rejected,
}

/// Calls `age::decrypt` with the scrypt identity for `passphrase`
/// (`age::scrypt::Identity::new`, given a `SecretString` copy of it), and
/// tells the variant `age::DecryptError::Io` of a failure apart from the
/// others. It parses the header as `age::Decryptor::new` does; what it
/// returns is the authenticated payload that the file holds for the
/// passphrase. In age's implementation the payload is read only once the
/// passphrase has unlocked the file, so a read failure on a file whose
/// header is accepted means the passphrase unlocked it. Whether it succeeds
/// also depends on the work-factor limit that the identity measures on this
/// machine, so success is not stated.
#[verifier::external_body]
fn age_decrypt_with_passphrase(passphrase: &str, data: &[u8]) -> (r: Result<
    Vec<u8>,
    DecryptFailure,
>)
    ensures
        r matches Ok(p) ==> {
            &&& age_header_accepted(data@)
            &&& age_payload(data@, passphrase@) == Some(p@)
            &&& age_passphrase_unlocks(data@, passphrase@)
        },
        r matches Err(f) ==> (f == DecryptFailure::Read && age_header_accepted(data@)
            ==> age_passphrase_unlocks(data@, passphrase@)),
{
    let identity = age::scrypt::Identity::new(age::secrecy::SecretString::from(passphrase));
    match age::decrypt(&identity, data) {
        Ok(p) => Ok(p),
        Err(age::DecryptError::Io(_)) => Err(DecryptFailure::Read),
        Err(_) => Err(DecryptFailure::Rejected),
    }
}

/// Errors of encryption and decryption.
#[derive(Clone, Copy, Debug, PartialEq, Eq, Structural)]
pub enum CryptoError {
    /// The passphrase and its confirmation differ.
    PassphraseMismatch,
    /// The data does not begin with a readable age header.
    UnreadableHeader,
    /// The passphrase does not open the file, or the file is corrupted.
    WrongPassphraseOrCorrupted,
    /// The decrypted payload could not be read to its end.
    UnreadablePayload,
}

pub open spec fn crypto_error_message(e: CryptoError) -> Seq<char> {
    match e {
        CryptoError::PassphraseMismatch => "Passphrases do not match"@,
        CryptoError::UnreadableHeader => "Error reading encrypted file header"@,
        CryptoError::WrongPassphraseOrCorrupted => "Decryption error: wrong passphrase or corrupted file"@,
        CryptoError::UnreadablePayload => "Error reading decrypted data"@,
    }
}

impl CryptoError {
    /// The message shown to the user for this error.
    pub fn message(&self) -> (m: String)
        ensures
            m@ == crypto_error_message(*self),
    {
        match self {
            CryptoError::PassphraseMismatch => String::from_str("Passphrases do not match"),
            CryptoError::UnreadableHeader => String::from_str("Error reading encrypted file header"),
            CryptoError::WrongPassphraseOrCorrupted => String::from_str(
                "Decryption error: wrong passphrase or corrupted file",
            ),
            CryptoError::UnreadablePayload => String::from_str("Error reading decrypted data"),
        }
    }
}

/// What the encryption of `plaintext` to `passphrase` gives: an age v1 file
/// with one scrypt stanza, which holds `plaintext` for `passphrase`.
pub open spec fn encrypted_for(file: Seq<u8>, plaintext: Seq<u8>, passphrase: Seq<char>) -> bool {
    &&& starts_with_age_intro(file)
    &&& has_single_scrypt_stanza(file)
    &&& age_header_accepted(file)
    &&& file.len() > plaintext.len()
    &&& age_payload(file, passphrase) == Some(plaintext)
    &&& age_passphrase_unlocks(file, passphrase)
}

/// Compares the passphrase with its confirmation. The confirmation is wiped in
/// any case; the passphrase is wiped too when the two differ.
pub fn confirm_passphrase(passphrase: &mut String, confirmation: &mut String) -> (r: Result<
    (),
    CryptoError,
>)
    ensures
        r is Ok <==> old(passphrase)@ == old(confirmation)@,
        r is Err ==> r == Err::<(), CryptoError>(CryptoError::PassphraseMismatch),
        final(confirmation)@ == Seq::<char>::empty(),
        r is Ok ==> final(passphrase)@ == old(passphrase)@,
        r is Err ==> final(passphrase)@ == Seq::<char>::empty(),
{
    if *passphrase != *confirmation {
        wipe(passphrase);
        wipe(confirmation);
        return Err(CryptoError::PassphraseMismatch);
    }
    wipe(confirmation);
    Ok(())
}

/// Encrypts `plaintext` to `passphrase` with age (scrypt), then wipes the
/// passphrase.
pub fn encrypt_with_passphrase(plaintext: &[u8], passphrase: &mut String) -> (file: Vec<u8>)
    ensures
        final(passphrase)@ == Seq::<char>::empty(),
        encrypted_for(file@, plaintext@, old(passphrase)@),
{
    let r = age_encrypt_to_passphrase(passphrase.as_str(), plaintext);
    wipe(passphrase);
    r.unwrap()
}

/// Encrypts the keyfile `plaintext` after checking that the passphrase and its
/// confirmation agree. Both plain passphrases are wiped whatever happens.
pub fn encrypt_keyfile(
    plaintext: &[u8],
    passphrase: &mut String,
    confirmation: &mut String,
) -> (r: Result<Vec<u8>, CryptoError>)
    ensures
        final(passphrase)@ == Seq::<char>::empty(),
        final(confirmation)@ == Seq::<char>::empty(),
        r is Ok <==> old(passphrase)@ == old(confirmation)@,
        r is Err ==> r == Err::<Vec<u8>, CryptoError>(CryptoError::PassphraseMismatch),
        r matches Ok(c) ==> encrypted_for(c@, plaintext@, old(passphrase)@),
{
    confirm_passphrase(passphrase, confirmation)?;
    Ok(encrypt_with_passphrase(plaintext, passphrase))
}

/// The error of the library for the outcome of age's decryption.
pub open spec fn decryption_outcome(outcome: Result<Vec<u8>, DecryptFailure>) -> Result<
    Seq<u8>,
    CryptoError,
> {
    match outcome {
        Ok(p) => Ok(p@),
        Err(DecryptFailure::Read) => Err(CryptoError::UnreadablePayload),
        Err(DecryptFailure::Rejected) => Err(CryptoError::WrongPassphraseOrCorrupted),
    }
}

/// The view of a decryption result: the plaintext as bytes.
pub open spec fn decryption_view(r: Result<Vec<u8>, CryptoError>) -> Result<Seq<u8>, CryptoError> {
    match r {
        Ok(p) => Ok(p@),
        Err(e) => Err(e),
    }
}

/// Maps the outcome of age's decryption to the result of the library: the
/// plaintext, `UnreadablePayload` for a failure to read the payload, and
/// `WrongPassphraseOrCorrupted` for any other failure.
pub fn decryption_result(outcome: Result<Vec<u8>, DecryptFailure>) -> (r: Result<
    Vec<u8>,
    CryptoError,
>)
    ensures
        decryption_view(r) == decryption_outcome(outcome),
{
    match outcome {
        Ok(p) => Ok(p),
        Err(DecryptFailure::Read) => Err(CryptoError::UnreadablePayload),
        Err(DecryptFailure::Rejected) => Err(CryptoError::WrongPassphraseOrCorrupted),
    }
}

/// Decrypts the age file `data` with `passphrase`, then wipes the passphrase.
/// A file whose header age does not accept is refused before any decryption;
/// a passphrase that does not unlock the file is answered
/// `WrongPassphraseOrCorrupted`; `UnreadablePayload` comes only for a
/// passphrase that unlocks the file.
pub fn decrypt_keyfile(data: &[u8], passphrase: &mut String) -> (r: Result<Vec<u8>, CryptoError>)
    ensures
        final(passphrase)@ == Seq::<char>::empty(),
        r == Err::<Vec<u8>, CryptoError>(CryptoError::UnreadableHeader) <==> !age_header_accepted(
            data@,
        ),
        !starts_with_age_intro(data@) ==> r == Err::<Vec<u8>, CryptoError>(
            CryptoError::UnreadableHeader,
        ),
        age_header_accepted(data@) && !age_passphrase_unlocks(data@, old(passphrase)@) ==> r
            == Err::<Vec<u8>, CryptoError>(CryptoError::WrongPassphraseOrCorrupted),
        r == Err::<Vec<u8>, CryptoError>(CryptoError::UnreadablePayload) ==> age_passphrase_unlocks(
            data@,
            old(passphrase)@,
        ),
        r matches Ok(p) ==> age_payload(data@, old(passphrase)@) == Some(p@),
        r matches Err(e) ==> e == CryptoError::UnreadableHeader || e
            == CryptoError::WrongPassphraseOrCorrupted || e == CryptoError::UnreadablePayload,
{
    if open_age_file(data).is_err() {
        wipe(passphrase);
        return Err(CryptoError::UnreadableHeader);
    }
    let outcome = age_decrypt_with_passphrase(passphrase.as_str(), data);
    wipe(passphrase);
    decryption_result(outcome)
}

/// Decryption with the passphrase that a file was encrypted to gives back
/// the plaintext that was encrypted, whenever it succeeds.
pub proof fn law_decryption_gives_back_the_encrypted_plaintext(
    file: Seq<u8>,
    plaintext: Seq<u8>,
    passphrase: Seq<char>,
    decrypted: Seq<u8>,
)
    requires
        encrypted_for(file, plaintext, passphrase),
        age_payload(file, passphrase) == Some(decrypted),
    ensures
        decrypted == plaintext,
{
}

} // verus!
