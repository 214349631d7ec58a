use crate::binaries::binaries_resolver::ResolveError;
use vstd::prelude::*;

verus! {

/// An ASCII white-space byte: space, tab, line feed, vertical tab, form feed
/// or carriage return.
pub open spec fn is_space(b: u8) -> bool {
    b == 32 || (9 <= b && b <= 13)
}

/// An ASCII hexadecimal digit, in either case.
pub open spec fn is_hex_digit(b: u8) -> bool {
    (48 <= b && b <= 57) || (65 <= b && b <= 70) || (97 <= b && b <= 102)
}

/// The byte with an ASCII capital letter turned into its small letter.
pub open spec fn lower(b: u8) -> u8 {
    if 65 <= b && b <= 90 {
        (b + 32) as u8
    } else {
        b
    }
}

/// The bytes with every ASCII capital letter turned into its small letter.
pub open spec fn lowered(s: Seq<u8>) -> Seq<u8> {
    Seq::new(s.len(), |i: int| lower(s[i]))
}

/// Where the run of bytes without white space that starts at `from` ends.
pub open spec fn token_end(s: Seq<u8>, from: int) -> int
    decreases s.len() - from,
{
    if from < 0 || from >= s.len() || is_space(s[from]) {
        from
    } else {
        token_end(s, from + 1)
    }
}

/// Whether every byte is a hexadecimal digit.
pub open spec fn all_hex(s: Seq<u8>) -> bool {
    forall|i: int| 0 <= i < s.len() ==> is_hex_digit(#[trigger] s[i])
}

/// The digest that a checksum sidecar names: what stands before the first
/// white space, where that is a run of hexadecimal digits and not empty. What
/// follows, such as the name of the file, does not count.
pub open spec fn expected_digest(sidecar: Seq<u8>) -> Option<Seq<u8>> {
    let digest = sidecar.take(token_end(sidecar, 0));
    if digest.len() > 0 && all_hex(digest) {
        Some(digest)
    } else {
        None
    }
}

/// Whether a file with the digest `computed` is what the sidecar asks for:
/// the sidecar names a digest, and it is `computed` but for the case of the
/// letters.
pub open spec fn checksum_accepts(sidecar: Seq<u8>, computed: Seq<u8>) -> bool {
    match expected_digest(sidecar) {
        Some(digest) => lowered(digest) == lowered(computed),
        None => false,
    }
}

fn byte_is_space(b: u8) -> (r: bool)
    ensures
        r == is_space(b),
{
    b == 32 || (9 <= b && b <= 13)
}

fn byte_is_hex_digit(b: u8) -> (r: bool)
    ensures
        r == is_hex_digit(b),
{
    (48 <= b && b <= 57) || (65 <= b && b <= 70) || (97 <= b && b <= 102)
}

fn lower_byte(b: u8) -> (r: u8)
    ensures
        r == lower(b),
{
    if 65 <= b && b <= 90 {
        b + 32
    } else {
        b
    }
}

/// Reads the digest that a checksum sidecar names.
pub fn parse_checksum(sidecar: &[u8]) -> (r: Option<Vec<u8>>)
    ensures
        match r {
            Some(digest) => expected_digest(sidecar@) == Some(digest@),
            None => expected_digest(sidecar@).is_none(),
        },
{
    let mut digest: Vec<u8> = Vec::new();
    let mut hex = true;
    let mut i: usize = 0;
    while i < sidecar.len() && !byte_is_space(sidecar[i])
        invariant
            i <= sidecar.len(),
            token_end(sidecar@, 0) == token_end(sidecar@, i as int),
            digest@ == sidecar@.take(i as int),
            hex == all_hex(digest@),
        decreases sidecar.len() - i,
    {
        let b = sidecar[i];
        let ghost before = digest@;
        digest.push(b);
        proof {
            assert(digest@ =~= sidecar@.take(i + 1));
            if hex && is_hex_digit(b) {
                assert forall|k: int| 0 <= k < digest@.len() implies is_hex_digit(
                    #[trigger] digest@[k],
                ) by {
                    if k < i {
                        assert(digest@[k] == before[k]);
                    }
                }
            } else if hex {
                assert(!is_hex_digit(digest@[i as int]));
            } else {
                let bad = choose|k: int| 0 <= k < before.len() && !is_hex_digit(#[trigger] before[k]);
                assert(digest@[bad] == before[bad]);
            }
        }
        hex = hex && byte_is_hex_digit(b);
        i = i + 1;
    }
    if digest.len() > 0 && hex {
        Some(digest)
    } else {
        None
    }
}

/// Whether two digests are the same but for the case of their letters.
pub fn digests_match(expected: &[u8], computed: &[u8]) -> (r: bool)
    ensures
        r == (lowered(expected@) == lowered(computed@)),
{
    if expected.len() != computed.len() {
        assert(lowered(expected@).len() != lowered(computed@).len());
        return false;
    }
    let mut i: usize = 0;
    while i < expected.len()
        invariant
            i <= expected.len(),
            expected@.len() == computed@.len(),
            forall|k: int| 0 <= k < i ==> lower(expected@[k]) == lower(computed@[k]),
        decreases expected.len() - i,
    {
        if lower_byte(expected[i]) != lower_byte(computed[i]) {
            assert(lowered(expected@)[i as int] != lowered(computed@)[i as int]);
            return false;
        }
        i = i + 1;
    }
    assert(lowered(expected@) =~= lowered(computed@));
    true
}

/// Checks a downloaded file, by its digest in hexadecimal, against its
/// checksum sidecar. A file that the sidecar does not ask for is an
/// `IntegrityViolation`.
pub fn verify_checksum(sidecar: &[u8], computed: &[u8]) -> (r: Result<(), ResolveError>)
    ensures
        r.is_ok() == checksum_accepts(sidecar@, computed@),
        r.is_err() ==> r == Err::<(), ResolveError>(ResolveError::IntegrityViolation),
{
    match parse_checksum(sidecar) {
        Some(digest) => {
            if digests_match(digest.as_slice(), computed) {
                Ok(())
            } else {
                Err(ResolveError::IntegrityViolation)
            }
        },
        None => Err(ResolveError::IntegrityViolation),
    }
}

} // verus!
