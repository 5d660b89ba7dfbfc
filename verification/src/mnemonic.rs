//! Recovery-phrase generation for seed backups.
use vstd::prelude::*;

verus! {

/// The error type of the mnemonic generator, carried through opaquely.
#[verifier::external_type_specification]
#[verifier::external_body]
pub struct ExBip39Error(bip39::Error);

/// How many space characters `s` holds.
pub open spec fn space_count(s: Seq<char>) -> nat
    decreases s.len(),
{
    if s.len() == 0 {
        0
    } else {
        space_count(s.drop_last()) + (if s.last() == ' ' {
            1nat
        } else {
            0nat
        })
    }
}

/// A phrase of exactly `words` non-empty words of lower-case ASCII letters,
/// separated by single spaces.
pub open spec fn is_word_phrase(s: Seq<char>, words: nat) -> bool {
    &&& s.len() > 0
    &&& s[0] != ' '
    &&& s[s.len() - 1] != ' '
    &&& forall|i: int|
        0 <= i < s.len() - 1 ==> !((#[trigger] s[i]) == ' ' && s[i + 1] == ' ')
    &&& forall|i: int|
        0 <= i < s.len() ==> ((#[trigger] s[i]) == ' ' || 97 <= s[i] as u32 <= 122)
    &&& space_count(s) == (words - 1) as nat
}

/// Relies on `bip39::Mnemonic::generate` with a 12-word count and on its
/// `Display` rendering: the generated mnemonic's words — drawn from the
/// English word list, which holds only lower-case ASCII words — joined by
/// single spaces. A 12-word count yields 16 entropy bytes, which the
/// generator accepts on every path, so the call returns `Ok`.
#[verifier::external_body]
pub(crate) fn generate_mnemonic_12() -> (r: Result<String, bip39::Error>)
    ensures
        r is Ok,
        r matches Ok(p) ==> is_word_phrase(p@, 12),
{
    match bip39::Mnemonic::generate(bip39::WordCount::Words12) {
        Ok(m) => Ok(m.to_string()),
        Err(e) => Err(e),
    }
}

} // verus!
