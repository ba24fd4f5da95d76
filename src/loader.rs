//! Turning a program image into words: two bytes per word, high byte first.
use vstd::prelude::*;

verus! {

/// Why a program image could not be turned into words.
#[derive(Clone, Copy, Debug, PartialEq, Eq, Structural)]
pub enum LoadError {
    /// The image has this odd number of bytes: its last word is incomplete.
    IncompleteWord(usize),
}

/// The word whose high byte is `hi` and low byte `lo`.
pub open spec fn be_word(hi: u8, lo: u8) -> i16 {
    (hi as u16 * 256 + lo as u16) as u16 as i16
}

/// The words of an image of even length, in order.
pub open spec fn be_words(bytes: Seq<u8>) -> Seq<i16> {
    Seq::new(bytes.len() / 2, |i: int| be_word(bytes[2 * i], bytes[2 * i + 1]))
}

/// The words of a big-endian program image. An image of odd length is
/// refused.
pub fn words_from_be_bytes(bytes: &[u8]) -> (r: Result<Vec<i16>, LoadError>)
    ensures
        bytes@.len() % 2 == 0 ==> (r matches Ok(w) && w@ == be_words(bytes@)),
        bytes@.len() % 2 == 1 ==> r == Err::<Vec<i16>, LoadError>(
            LoadError::IncompleteWord(bytes@.len() as usize),
        ),
{
    let n = bytes.len();
    if n % 2 == 1 {
        return Err(LoadError::IncompleteWord(n));
    }
    let mut words: Vec<i16> = Vec::new();
    let mut i: usize = 0;
    while i < n / 2
        invariant
            n == bytes@.len(),
            n % 2 == 0,
            i <= n / 2,
            words@ == be_words(bytes@).take(i as int),
        decreases n / 2 - i,
    {
        let hi = bytes[2 * i];
        let lo = bytes[2 * i + 1];
        words.push((hi as u16 * 256 + lo as u16) as i16);
        assert(words@ =~= be_words(bytes@).take(i as int + 1));
        i = i + 1;
    }
    assert(words@ =~= be_words(bytes@));
    Ok(words)
}

} // verus!
