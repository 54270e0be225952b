//! The content hasher: MD5, SHA-1, SHA-256, SHA-512 and the byte length of
//! a sample, taken block by block in one pass.

use crate::text::clone_opt;
use crate::time::AnalysisDate;
use vstd::prelude::*;
use vstd::slice::slice_subrange;

verus! {

/// The size of the blocks in which a sample is read.
pub const BLOCK_SIZE: usize = 4096;

#[verifier::external_type_specification]
#[verifier::external_body]
pub struct ExMd5(md5::Md5);

#[verifier::external_type_specification]
#[verifier::external_body]
pub struct ExSha1(sha1::Sha1);

#[verifier::external_type_specification]
#[verifier::external_body]
pub struct ExSha256(sha2::Sha256);

#[verifier::external_type_specification]
#[verifier::external_body]
pub struct ExSha512(sha2::Sha512);

/// The bytes that an MD5 state has taken in so far, in order.
pub uninterp spec fn md5_absorbed(h: md5::Md5) -> Seq<u8>;

/// The bytes that a SHA-1 state has taken in so far, in order.
pub uninterp spec fn sha1_absorbed(h: sha1::Sha1) -> Seq<u8>;

/// The bytes that a SHA-256 state has taken in so far, in order.
pub uninterp spec fn sha256_absorbed(h: sha2::Sha256) -> Seq<u8>;

/// The bytes that a SHA-512 state has taken in so far, in order.
pub uninterp spec fn sha512_absorbed(h: sha2::Sha512) -> Seq<u8>;

/// The MD5 digest of a byte string.
pub uninterp spec fn md5_of(data: Seq<u8>) -> Seq<u8>;

/// The SHA-1 digest of a byte string.
pub uninterp spec fn sha1_of(data: Seq<u8>) -> Seq<u8>;

/// The SHA-256 digest of a byte string.
pub uninterp spec fn sha256_of(data: Seq<u8>) -> Seq<u8>;

/// The SHA-512 digest of a byte string.
pub uninterp spec fn sha512_of(data: Seq<u8>) -> Seq<u8>;

/// `md5::Digest::new` for `Md5`: a state that has taken in nothing.
#[verifier::external_body]
fn md5_new() -> (h: md5::Md5)
    ensures
        md5_absorbed(h) == Seq::<u8>::empty(),
{
    <md5::Md5 as md5::Digest>::new()
}

/// `md5::Digest::update` for `Md5`: the state takes in the block after
/// what it already held.
#[verifier::external_body]
fn md5_update(h: &mut md5::Md5, block: &[u8])
    ensures
        md5_absorbed(*final(h)) == md5_absorbed(*old(h)) + block@,
{
    md5::Digest::update(h, block)
}

/// `md5::Digest::finalize` for `Md5`: the 16-byte digest of all that the
/// state has taken in.
#[verifier::external_body]
fn md5_finalize(h: md5::Md5) -> (out: Vec<u8>)
    ensures
        out@ == md5_of(md5_absorbed(h)),
        out@.len() == 16,
{
    md5::Digest::finalize(h).to_vec()
}

/// `sha1::Digest::new` for `Sha1`: a state that has taken in nothing.
#[verifier::external_body]
fn sha1_new() -> (h: sha1::Sha1)
    ensures
        sha1_absorbed(h) == Seq::<u8>::empty(),
{
    <sha1::Sha1 as sha1::Digest>::new()
}

/// `sha1::Digest::update` for `Sha1`: the state takes in the block after
/// what it already held.
#[verifier::external_body]
fn sha1_update(h: &mut sha1::Sha1, block: &[u8])
    ensures
        sha1_absorbed(*final(h)) == sha1_absorbed(*old(h)) + block@,
{
    sha1::Digest::update(h, block)
}

/// `sha1::Digest::finalize` for `Sha1`: the 20-byte digest of all that the
/// state has taken in.
#[verifier::external_body]
fn sha1_finalize(h: sha1::Sha1) -> (out: Vec<u8>)
    ensures
        out@ == sha1_of(sha1_absorbed(h)),
        out@.len() == 20,
{
    sha1::Digest::finalize(h).to_vec()
}

/// `sha2::Digest::new` for `Sha256`: a state that has taken in nothing.
#[verifier::external_body]
fn sha256_new() -> (h: sha2::Sha256)
    ensures
        sha256_absorbed(h) == Seq::<u8>::empty(),
{
    <sha2::Sha256 as sha2::Digest>::new()
}

/// `sha2::Digest::update` for `Sha256`: the state takes in the block after
/// what it already held.
#[verifier::external_body]
fn sha256_update(h: &mut sha2::Sha256, block: &[u8])
    ensures
        sha256_absorbed(*final(h)) == sha256_absorbed(*old(h)) + block@,
{
    sha2::Digest::update(h, block)
}

/// `sha2::Digest::finalize` for `Sha256`: the 32-byte digest of all that
/// the state has taken in.
#[verifier::external_body]
fn sha256_finalize(h: sha2::Sha256) -> (out: Vec<u8>)
    ensures
        out@ == sha256_of(sha256_absorbed(h)),
        out@.len() == 32,
{
    sha2::Digest::finalize(h).to_vec()
}

/// `sha2::Digest::new` for `Sha512`: a state that has taken in nothing.
#[verifier::external_body]
fn sha512_new() -> (h: sha2::Sha512)
    ensures
        sha512_absorbed(h) == Seq::<u8>::empty(),
{
    <sha2::Sha512 as sha2::Digest>::new()
}

/// `sha2::Digest::update` for `Sha512`: the state takes in the block after
/// what it already held.
#[verifier::external_body]
fn sha512_update(h: &mut sha2::Sha512, block: &[u8])
    ensures
        sha512_absorbed(*final(h)) == sha512_absorbed(*old(h)) + block@,
{
    sha2::Digest::update(h, block)
}

/// `sha2::Digest::finalize` for `Sha512`: the 64-byte digest of all that
/// the state has taken in.
#[verifier::external_body]
fn sha512_finalize(h: sha2::Sha512) -> (out: Vec<u8>)
    ensures
        out@ == sha512_of(sha512_absorbed(h)),
        out@.len() == 64,
{
    sha2::Digest::finalize(h).to_vec()
}

/// The lower-case hexadecimal digit of a value below 16.
pub open spec fn hex_digit(n: int) -> char {
    if n == 0 {
        '0'
    } else if n == 1 {
        '1'
    } else if n == 2 {
        '2'
    } else if n == 3 {
        '3'
    } else if n == 4 {
        '4'
    } else if n == 5 {
        '5'
    } else if n == 6 {
        '6'
    } else if n == 7 {
        '7'
    } else if n == 8 {
        '8'
    } else if n == 9 {
        '9'
    } else if n == 10 {
        'a'
    } else if n == 11 {
        'b'
    } else if n == 12 {
        'c'
    } else if n == 13 {
        'd'
    } else if n == 14 {
        'e'
    } else {
        'f'
    }
}

/// The lower-case hexadecimal text of a byte string: two digits for each
/// byte, the high half first.
pub open spec fn hex_text(data: Seq<u8>) -> Seq<char> {
    Seq::new(
        2 * data.len(),
        |i: int|
            if i % 2 == 0 {
                hex_digit(data[i / 2] as int / 16)
            } else {
                hex_digit(data[i / 2] as int % 16)
            },
    )
}

/// `hex::encode`: each byte becomes two lower-case hexadecimal digits.
#[verifier::external_body]
fn hex_encode(data: &[u8]) -> (text: String)
    ensures
        text@ == hex_text(data@),
{
    hex::encode(data)
}

/// What is known of a sample: its four digests in lower-case hexadecimal,
/// its length in bytes, and what the submission adds to them.
#[derive(Debug, PartialEq, Eq)]
pub struct Metadata {
    pub submission_name: Option<String>,
    pub analysis_date: Option<AnalysisDate>,
    pub magic: Option<String>,
    pub md5: String,
    pub sha1: String,
    pub sha256: String,
    pub sha512: String,
    pub size: u64,
}

/// The length of a sample as the byte counter holds it: the counter wraps
/// at 2^64.
pub open spec fn wrapped_len(data: Seq<u8>) -> u64 {
    (data.len() % 0x1_0000_0000_0000_0000) as u64
}

impl Metadata {
    /// The digests and the size are those of `data`.
    pub open spec fn describes(&self, data: Seq<u8>) -> bool {
        &&& self.md5@ == hex_text(md5_of(data))
        &&& self.sha1@ == hex_text(sha1_of(data))
        &&& self.sha256@ == hex_text(sha256_of(data))
        &&& self.sha512@ == hex_text(sha512_of(data))
        &&& self.size == wrapped_len(data)
    }

    /// Nothing but the digests and the size is set.
    pub open spec fn is_bare(&self) -> bool {
        &&& self.submission_name is None
        &&& self.analysis_date is None
        &&& self.magic is None
    }

    /// The metadata of a sample held in memory, taken in blocks of
    /// `BLOCK_SIZE` bytes.
    pub fn from_bytes(data: &[u8]) -> (m: Metadata)
        ensures
            m.describes(data@),
            m.is_bare(),
            m.md5@.len() == 32,
            m.sha1@.len() == 40,
            m.sha256@.len() == 64,
            m.sha512@.len() == 128,
    {
        let mut hasher = ContentHasher::new();
        let mut done: usize = 0;
        while done < data.len()
            invariant
                done <= data.len(),
                hasher.wf(),
                hasher.absorbed() == data@.subrange(0, done as int),
            decreases data.len() - done,
        {
            let rest = data.len() - done;
            let n = if rest < BLOCK_SIZE {
                rest
            } else {
                BLOCK_SIZE
            };
            let block = slice_subrange(data, done, done + n);
            hasher.update(block);
            assert(data@.subrange(0, done as int) + data@.subrange(done as int, done + n)
                =~= data@.subrange(0, done + n));
            done = done + n;
        }
        assert(data@.subrange(0, done as int) =~= data@);
        hasher.finish()
    }

    /// The same metadata stamped with the current instant, which lies
    /// within the calendar, so that the stamp can be written.
    pub fn analysis_date_now(self) -> (m: Metadata)
        ensures
            m.analysis_date matches Some(d) && d.text() is Some && d.nanos < 1_000_000_000,
            m.submission_name == self.submission_name,
            m.magic == self.magic,
            m.md5 == self.md5,
            m.sha1 == self.sha1,
            m.sha256 == self.sha256,
            m.sha512 == self.sha512,
            m.size == self.size,
    {
        self.with_analysis_date(AnalysisDate::now())
    }

    /// The same metadata with the instant of analysis set.
    pub fn with_analysis_date(self, date: AnalysisDate) -> (m: Metadata)
        ensures
            m.analysis_date == Some(date),
            m.submission_name == self.submission_name,
            m.magic == self.magic,
            m.md5 == self.md5,
            m.sha1 == self.sha1,
            m.sha256 == self.sha256,
            m.sha512 == self.sha512,
            m.size == self.size,
    {
        let mut m = self;
        m.analysis_date = Some(date);
        m
    }
}

impl Clone for Metadata {
    fn clone(&self) -> (m: Metadata)
        ensures
            m == *self,
    {
        Metadata {
            submission_name: clone_opt(&self.submission_name),
            analysis_date: self.analysis_date,
            magic: clone_opt(&self.magic),
            md5: self.md5.clone(),
            sha1: self.sha1.clone(),
            sha256: self.sha256.clone(),
            sha512: self.sha512.clone(),
            size: self.size,
        }
    }
}

impl Default for Metadata {
    fn default() -> (m: Metadata)
        ensures
            m.is_bare(),
            m.md5@.len() == 0,
            m.sha1@.len() == 0,
            m.sha256@.len() == 0,
            m.sha512@.len() == 0,
            m.size == 0,
    {
        Metadata {
            submission_name: None,
            analysis_date: None,
            magic: None,
            md5: String::new(),
            sha1: String::new(),
            sha256: String::new(),
            sha512: String::new(),
            size: 0,
        }
    }
}

/// The four digest states and the byte counter of a sample that is being
/// read.
pub struct ContentHasher {
    md5: md5::Md5,
    sha1: sha1::Sha1,
    sha256: sha2::Sha256,
    sha512: sha2::Sha512,
    size: u64,
}

impl ContentHasher {
    /// The bytes taken in so far, in order.
    pub closed spec fn absorbed(&self) -> Seq<u8> {
        md5_absorbed(self.md5)
    }

    /// The four states have taken in the same bytes and the counter is
    /// their number.
    pub closed spec fn wf(&self) -> bool {
        &&& sha1_absorbed(self.sha1) == md5_absorbed(self.md5)
        &&& sha256_absorbed(self.sha256) == md5_absorbed(self.md5)
        &&& sha512_absorbed(self.sha512) == md5_absorbed(self.md5)
        &&& self.size == wrapped_len(md5_absorbed(self.md5))
    }

    /// A hasher that has taken in nothing.
    pub fn new() -> (h: ContentHasher)
        ensures
            h.wf(),
            h.absorbed() == Seq::<u8>::empty(),
    {
        ContentHasher {
            md5: md5_new(),
            sha1: sha1_new(),
            sha256: sha256_new(),
            sha512: sha512_new(),
            size: 0,
        }
    }

    /// Takes in one block: all four digests and the counter move on by it.
    pub fn update(&mut self, block: &[u8])
        requires
            old(self).wf(),
        ensures
            final(self).wf(),
            final(self).absorbed() == old(self).absorbed() + block@,
    {
        md5_update(&mut self.md5, block);
        sha1_update(&mut self.sha1, block);
        sha256_update(&mut self.sha256, block);
        sha512_update(&mut self.sha512, block);
        let n: usize = block.len();
        proof {
            lemma_wrapped_len_add(old(self).absorbed(), block@);
        }
        self.size = self.size.wrapping_add(n as u64);
    }

    /// Ends the pass: the metadata of all that was taken in.
    pub fn finish(self) -> (m: Metadata)
        requires
            self.wf(),
        ensures
            m.describes(self.absorbed()),
            m.is_bare(),
            m.md5@.len() == 32,
            m.sha1@.len() == 40,
            m.sha256@.len() == 64,
            m.sha512@.len() == 128,
    {
        let md5 = md5_finalize(self.md5);
        let sha1 = sha1_finalize(self.sha1);
        let sha256 = sha256_finalize(self.sha256);
        let sha512 = sha512_finalize(self.sha512);
        Metadata {
            submission_name: None,
            analysis_date: None,
            magic: None,
            md5: hex_encode(md5.as_slice()),
            sha1: hex_encode(sha1.as_slice()),
            sha256: hex_encode(sha256.as_slice()),
            sha512: hex_encode(sha512.as_slice()),
            size: self.size,
        }
    }
}

/// The wrapped length of a concatenation is the wrapped sum of the wrapped
/// length of the first part and the length of the second.
pub proof fn lemma_wrapped_len_add(a: Seq<u8>, b: Seq<u8>)
    requires
        b.len() <= usize::MAX,
    ensures
        wrapped_len(a + b) == vstd::wrapping::u64_specs::wrapping_add(
            wrapped_len(a),
            b.len() as u64,
        ),
{
    let m = 0x1_0000_0000_0000_0000int;
    let x = a.len() as int;
    let y = b.len() as int;
    assert((a + b).len() == x + y);
    assert((x + y) % m == if x % m + y >= m {
        x % m + y - m
    } else {
        x % m + y
    }) by (nonlinear_arith)
        requires
            m == 0x1_0000_0000_0000_0000int,
            0 <= x,
            0 <= y < m,
    ;
}

/// The SHA-512 digest of a sample held in memory, in lower-case
/// hexadecimal.
pub fn sha512(data: &[u8]) -> (text: String)
    ensures
        text@ == hex_text(sha512_of(data@)),
        text@.len() == 128,
{
    let mut h = sha512_new();
    let mut done: usize = 0;
    while done < data.len()
        invariant
            done <= data.len(),
            sha512_absorbed(h) == data@.subrange(0, done as int),
        decreases data.len() - done,
    {
        let rest = data.len() - done;
        let n = if rest < BLOCK_SIZE {
            rest
        } else {
            BLOCK_SIZE
        };
        let block = slice_subrange(data, done, done + n);
        sha512_update(&mut h, block);
        assert(data@.subrange(0, done as int) + data@.subrange(done as int, done + n)
            =~= data@.subrange(0, done + n));
        done = done + n;
    }
    assert(data@.subrange(0, done as int) =~= data@);
    let digest = sha512_finalize(h);
    hex_encode(digest.as_slice())
}

} // verus!
