use vstd::prelude::*;

verus! {

/// Lowest word that the kernel uses to report an error: the 4096 words from here
/// up to the all-ones value are negated error codes. On a 64-bit target this is
/// `0xffff_ffff_ffff_f000`.
pub const ERROR_BOUNDARY: usize = usize::MAX - 4095;

/// Whether a word returned by the kernel reports an error.
pub open spec fn is_error_word(w: usize) -> bool {
    w >= ERROR_BOUNDARY
}

/// The outcome that a raw returned word stands for: the word itself, on the
/// success side below the boundary and on the failure side from it up.
pub open spec fn outcome_of(w: usize) -> Result<usize, usize> {
    if is_error_word(w) {
        Err(w)
    } else {
        Ok(w)
    }
}

/// Classifies the word that the kernel returned. The word is handed back as it
/// is on either side; decoding an error word is left to the caller.
pub fn classify(raw: usize) -> (r: Result<usize, usize>)
    ensures
        r == outcome_of(raw),
        raw < ERROR_BOUNDARY ==> r == Ok::<usize, usize>(raw),
        raw >= ERROR_BOUNDARY ==> r == Err::<usize, usize>(raw),
{
    if raw < ERROR_BOUNDARY {
        Ok(raw)
    } else {
        Err(raw)
    }
}

} // verus!
