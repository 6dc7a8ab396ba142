//! The hashing utility: a streaming SHA-256 accumulator fed in bounded
//! chunks, the hex rendering of its digest, and a batch variant that skips
//! unreadable files instead of failing the whole batch.

use vstd::prelude::*;

verus! {

/// The SHA-256 digest (32 raw bytes) of a byte sequence. The digest is a
/// function of the bytes alone; nothing is stated here of what it is on
/// given values.
pub uninterp spec fn spec_sha256(data: Seq<u8>) -> Seq<u8>;

/// The bytes a streaming accumulator has absorbed so far.
pub uninterp spec fn absorbed(s: Sha256Stream) -> Seq<u8>;

/// A streaming SHA-256 accumulator. It holds the sha2 crate's hasher, which
/// Verus does not look into; what it has absorbed is tracked by `absorbed`.
#[verifier::external_body]
pub struct Sha256Stream {
    inner: sha2::Sha256,
}

impl Sha256Stream {
    /// Relies on sha2's `Digest::new`: a fresh hasher has absorbed nothing.
    #[verifier::external_body]
    pub fn new() -> (r: Sha256Stream)
        ensures
            absorbed(r) == Seq::<u8>::empty(),
    {
        Sha256Stream { inner: <sha2::Sha256 as sha2::Digest>::new() }
    }

    /// Relies on sha2's `Digest::update`: feeding more bytes appends them to
    /// what the hasher has absorbed.
    #[verifier::external_body]
    pub fn update(&mut self, data: &[u8])
        ensures
            absorbed(*final(self)) == absorbed(*old(self)) + data@,
    {
        sha2::Digest::update(&mut self.inner, data);
    }

    /// Relies on sha2's `Digest::finalize`: the digest is 32 bytes and
    /// depends on the absorbed bytes alone.
    #[verifier::external_body]
    pub fn finalize(self) -> (r: Vec<u8>)
        ensures
            r@ == spec_sha256(absorbed(self)),
            r@.len() == 32,
    {
        sha2::Digest::finalize(self.inner).to_vec()
    }
}

/// The lower-case hex digit (as an ASCII byte) for a nibble below 16:
/// '0' through '9', then 'a' through 'f'.
pub open spec fn spec_hex_digit(n: u8) -> u8
    recommends
        n < 16,
{
    if n < 10 {
        (n + 48) as u8
    } else {
        (n + 87) as u8
    }
}

/// The two hex digits of one byte, high nibble first.
pub open spec fn spec_hex_byte(b: u8) -> Seq<u8> {
    seq![spec_hex_digit(b / 16), spec_hex_digit(b % 16)]
}

/// The lower-case hex rendering of a byte sequence, as ASCII bytes.
pub open spec fn spec_hex_of_bytes(data: Seq<u8>) -> Seq<u8>
    decreases data.len(),
{
    if data.len() == 0 {
        Seq::empty()
    } else {
        spec_hex_of_bytes(data.drop_last()) + spec_hex_byte(data.last())
    }
}

/// The same rendering read as characters: every hex digit is ASCII, so each
/// byte stands for the character with the same code point.
pub open spec fn spec_hex_chars(data: Seq<u8>) -> Seq<char> {
    spec_hex_of_bytes(data).map_values(|b: u8| b as char)
}

/// The hex-encoded SHA-256 digest of a byte sequence: what `calculate_hash`
/// returns for a file with that content.
pub open spec fn spec_digest(data: Seq<u8>) -> Seq<char> {
    spec_hex_chars(spec_sha256(data))
}

/// The hex rendering of a byte sequence has two digits for each byte.
pub proof fn lemma_spec_hex_len(data: Seq<u8>)
    ensures
        spec_hex_of_bytes(data).len() == 2 * data.len(),
    decreases data.len(),
{
    if data.len() > 0 {
        lemma_spec_hex_len(data.drop_last());
    }
}

fn hex_digit(n: u8) -> (r: u8)
    requires
        n < 16,
    ensures
        r == spec_hex_digit(n),
        r < 128,
{
    if n < 10 {
        n + 48
    } else {
        n + 87
    }
}

fn hex_of_bytes(data: &Vec<u8>) -> (r: Vec<u8>)
    ensures
        r@ == spec_hex_of_bytes(data@),
        forall|i: int| 0 <= i < r@.len() ==> r@[i] < 128,
{
    let mut r: Vec<u8> = Vec::new();
    let mut i: usize = 0;
    while i < data.len()
        invariant
            i <= data@.len(),
            r@ == spec_hex_of_bytes(data@.take(i as int)),
            forall|j: int| 0 <= j < r@.len() ==> r@[j] < 128,
        decreases data@.len() - i,
    {
        let b = data[i];
        r.push(hex_digit(b / 16));
        r.push(hex_digit(b % 16));
        proof {
            assert(data@.take(i + 1).drop_last() =~= data@.take(i as int));
            assert(data@.take(i + 1).last() == data@[i as int]);
        }
        i = i + 1;
    }
    proof {
        assert(data@.take(data@.len() as int) =~= data@);
    }
    r
}

/// Relies on String::from_utf8: bytes below 128 are ASCII, which is valid
/// UTF-8 and decodes to one character per byte, each with the byte's code
/// point.
#[verifier::external_body]
fn ascii_string(v: Vec<u8>) -> (r: String)
    requires
        forall|i: int| 0 <= i < v@.len() ==> v@[i] < 128,
    ensures
        r@ == v@.map_values(|b: u8| b as char),
{
    match String::from_utf8(v) {
        Ok(s) => s,
        Err(_) => String::new(),
    }
}

/// The lower-case hex rendering of a digest, as a string. A caller that
/// streams a large file through `Sha256Stream` chunk by chunk, to bound
/// its memory use, turns the finalized digest bytes into the same form
/// `calculate_hash` returns.
pub fn render_hex(digest: &Vec<u8>) -> (r: String)
    ensures
        r@ == spec_hex_chars(digest@),
        r@.len() == 2 * digest@.len(),
{
    let hex = hex_of_bytes(digest);
    let r = ascii_string(hex);
    proof {
        lemma_spec_hex_len(digest@);
        assert(r@ =~= spec_hex_chars(digest@));
    }
    r
}

/// Computes the hex-encoded SHA-256 digest of the given content. The bytes
/// are fed to the accumulator in bounded chunks (1024 at a time), so a
/// caller that streams a large file through `Sha256Stream` chunk by chunk
/// obtains the same digest.
pub fn calculate_hash(content: &[u8]) -> (r: String)
    ensures
        r@ == spec_digest(content@),
        r@.len() == 64,
{
    let mut stream = Sha256Stream::new();
    let mut i: usize = 0;
    proof {
        assert(content@.take(0) =~= Seq::<u8>::empty());
    }
    while i < content.len()
        invariant
            i <= content@.len(),
            absorbed(stream) == content@.take(i as int),
        decreases content@.len() - i,
    {
        let end = if content.len() - i >= 1024 {
            i + 1024
        } else {
            content.len()
        };
        let chunk = vstd::slice::slice_subrange(content, i, end);
        stream.update(chunk);
        proof {
            assert(content@.take(end as int) =~= content@.take(i as int) + content@.subrange(
                i as int,
                end as int,
            ));
        }
        i = end;
    }
    proof {
        assert(content@.take(content@.len() as int) =~= content@);
    }
    let digest = stream.finalize();
    render_hex(&digest)
}

/// The digests of a batch of walked files, keyed by path, in walk order.
/// An entry carries the file's content where it could be read and nothing
/// where it could not; an unreadable entry contributes no digest.
pub open spec fn spec_digests(entries: Seq<(Seq<char>, Option<Seq<u8>>)>) -> Seq<
    (Seq<char>, Seq<char>),
>
    decreases entries.len(),
{
    if entries.len() == 0 {
        Seq::empty()
    } else {
        let rest = spec_digests(entries.drop_last());
        match entries.last().1 {
            Some(content) => rest + seq![(entries.last().0, spec_digest(content))],
            None => rest,
        }
    }
}

/// Computes a digest for every readable file of a walked directory tree and
/// skips the unreadable ones. The caller walks the tree and hands over each
/// regular file's path together with its content, or nothing where the read
/// failed; one unreadable file must not abort the whole batch, so exactly
/// the readable entries come back, keyed by path, in walk order.
pub fn calculate_hash_recursive(entries: &Vec<(String, Option<Vec<u8>>)>) -> (r: Vec<
    (String, String),
>)
    ensures
        r.deep_view() == spec_digests(entries.deep_view()),
{
    let mut r: Vec<(String, String)> = Vec::new();
    let mut i: usize = 0;
    proof {
        assert(entries.deep_view().take(0) =~= Seq::<(Seq<char>, Option<Seq<u8>>)>::empty());
        assert(r.deep_view() =~= spec_digests(entries.deep_view().take(0)));
    }
    while i < entries.len()
        invariant
            i <= entries@.len(),
            entries.deep_view().len() == entries@.len(),
            r.deep_view() == spec_digests(entries.deep_view().take(i as int)),
        decreases entries@.len() - i,
    {
        let ghost dv = entries.deep_view();
        let entry = &entries[i];
        proof {
            assert(dv[i as int] == (entry.0@, entry.1.deep_view()));
            assert(dv.take(i + 1).drop_last() =~= dv.take(i as int));
            assert(dv.take(i + 1).last() == dv[i as int]);
        }
        match &entry.1 {
            Some(content) => {
                let digest = calculate_hash(content.as_slice());
                let key = entry.0.clone();
                let ghost prev = r.deep_view();
                r.push((key, digest));
                proof {
                    assert(content.deep_view() =~= content@);
                    assert(dv[i as int].1 == Some(content@));
                    assert(r.deep_view() =~= prev + seq![(entry.0@, digest@)]);
                    assert(r.deep_view() =~= spec_digests(dv.take(i + 1)));
                }
            },
            None => {
                proof {
                    assert(dv[i as int].1 is None);
                    assert(r.deep_view() =~= spec_digests(dv.take(i + 1)));
                }
            },
        }
        i = i + 1;
    }
    proof {
        assert(entries.deep_view().take(entries@.len() as int) =~= entries.deep_view());
    }
    r
}

} // verus!
