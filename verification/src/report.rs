//! The attestation report: a fixed-layout record, its wire form, and the bytes
//! of it that a signature covers.
//!
//! On the wire a report is 208 bytes: the nonce at offset 0x00, the launch
//! digest at 0x10, then four words, policy at 0x30, signature usage at 0x34,
//! signature algorithm at 0x38 and a reserved word at 0x3c, and the
//! signature at 0x40. Words travel least significant byte first, which is
//! how the platforms that produce reports hold them. A signature covers
//! the first 52 bytes and nothing else.

use vstd::prelude::*;

verus! {

/// Length in bytes of the nonce.
pub const NONCE_SIZE: usize = 16;

/// Length in bytes of the launch digest.
pub const DIGEST_SIZE: usize = 32;

/// Offset of the policy word, and of the end of the launch digest.
pub const POLICY_OFFSET: usize = 48;

/// Length in bytes of the range that a signature covers.
pub const MEASURABLE_SIZE: usize = 52;

/// Offset of the signature structure.
pub const SIGNATURE_OFFSET: usize = 64;

/// Length in bytes of one signature component.
pub const COMPONENT_SIZE: usize = 72;

/// Length in bytes of a report on the wire.
pub const REPORT_SIZE: usize = 208;

/// The four bytes of `word`, least significant first.
pub open spec fn word_bytes(word: u32) -> Seq<u8> {
    seq![
        (word & 0xff) as u8,
        ((word >> 8) & 0xff) as u8,
        ((word >> 16) & 0xff) as u8,
        ((word >> 24) & 0xff) as u8,
    ]
}

/// The word whose bytes, least significant first, are the first four of `bytes`.
pub open spec fn word_of(bytes: Seq<u8>) -> u32 {
    (bytes[0] as u32) | ((bytes[1] as u32) << 8) | ((bytes[2] as u32) << 16) | ((bytes[3] as u32)
        << 24)
}

/// Splitting a word into bytes and joining them again gives the word back.
pub proof fn lemma_word_round_trip(word: u32)
    ensures
        word_bytes(word).len() == 4,
        word_of(word_bytes(word)) == word,
{
    let b0 = (word & 0xff) as u8;
    let b1 = ((word >> 8) & 0xff) as u8;
    let b2 = ((word >> 16) & 0xff) as u8;
    let b3 = ((word >> 24) & 0xff) as u8;
    assert(word == (b0 as u32) | ((b1 as u32) << 8) | ((b2 as u32) << 16) | ((b3 as u32) << 24))
        by (bit_vector)
        requires
            b0 == (word & 0xff) as u8,
            b1 == ((word >> 8) & 0xff) as u8,
            b2 == ((word >> 16) & 0xff) as u8,
            b3 == ((word >> 24) & 0xff) as u8,
    ;
}

/// Joining four bytes into a word and splitting it again gives the bytes back.
pub proof fn lemma_bytes_round_trip(bytes: Seq<u8>)
    requires
        bytes.len() == 4,
    ensures
        word_bytes(word_of(bytes)) == bytes,
{
    let b0 = bytes[0];
    let b1 = bytes[1];
    let b2 = bytes[2];
    let b3 = bytes[3];
    let word = word_of(bytes);
    assert((word & 0xff) as u8 == b0 && ((word >> 8) & 0xff) as u8 == b1 && ((word >> 16)
        & 0xff) as u8 == b2 && ((word >> 24) & 0xff) as u8 == b3) by (bit_vector)
        requires
            word == (b0 as u32) | ((b1 as u32) << 8) | ((b2 as u32) << 16) | ((b3 as u32) << 24),
    ;
    assert(word_bytes(word) =~= bytes);
}

/// Two words with the same bytes are the same word.
pub proof fn lemma_word_bytes_injective(a: u32, b: u32)
    requires
        word_bytes(a) == word_bytes(b),
    ensures
        a == b,
{
    lemma_word_round_trip(a);
    lemma_word_round_trip(b);
}

/// The signature structure of a report: two components of fixed size, each
/// least significant byte first.
#[derive(Clone, Copy, Debug)]
pub struct Signature {
    pub r: [u8; 72],
    pub s: [u8; 72],
}

/// An attestation report as the platform lays it out.
#[derive(Clone, Copy, Debug)]
pub struct AttestationReport {
    /// Nonce of the command that asked for the report.
    pub nonce: [u8; 16],
    /// Digest of the launched guest.
    pub launch_digest: [u8; 32],
    /// Policy the guest was launched with.
    pub policy: u32,
    /// Usage of the key that signed.
    pub sig_usage: u32,
    /// Algorithm of the signature.
    pub sig_algo: u32,
    /// Reserved word.
    pub reserved: u32,
    /// Signature over the measurable bytes.
    pub signature: Signature,
}

/// Appends the four bytes of `word`, least significant first, to `buf`.
fn push_word(buf: &mut Vec<u8>, word: u32)
    ensures
        final(buf)@ == old(buf)@ + word_bytes(word),
{
    buf.push((word & 0xff) as u8);
    buf.push(((word >> 8) & 0xff) as u8);
    buf.push(((word >> 16) & 0xff) as u8);
    buf.push(((word >> 24) & 0xff) as u8);
    assert(buf@ =~= old(buf)@ + word_bytes(word));
}

/// Reads the word that starts at `start` in `bytes`.
fn read_word(bytes: &[u8], start: usize) -> (word: u32)
    requires
        start + 4 <= bytes@.len(),
    ensures
        word == word_of(bytes@.subrange(start as int, start + 4)),
{
    let b0 = bytes[start] as u32;
    let b1 = bytes[start + 1] as u32;
    let b2 = bytes[start + 2] as u32;
    let b3 = bytes[start + 3] as u32;
    b0 | (b1 << 8) | (b2 << 16) | (b3 << 24)
}

/// Copies the `N` bytes that start at `start` out of `bytes`.
fn read_array<const N: usize>(bytes: &[u8], start: usize) -> (out: [u8; N])
    requires
        start + N <= bytes@.len(),
    ensures
        out@ == bytes@.subrange(start as int, start + N),
{
    let len = bytes.len();
    let mut out = [0u8; N];
    let mut i: usize = 0;
    while i < N
        invariant
            i <= N,
            start + N <= len,
            len == bytes@.len(),
            forall|j: int| 0 <= j < i ==> out@[j] == bytes@[start + j],
        decreases N - i,
    {
        out[i] = bytes[start + i];
        i = i + 1;
    }
    assert(out@ =~= bytes@.subrange(start as int, start + N));
    out
}

impl AttestationReport {
    /// The range that a signature covers: nonce, launch digest and policy, in
    /// that order.
    pub open spec fn spec_measurable_bytes(self) -> Seq<u8> {
        self.nonce@ + self.launch_digest@ + word_bytes(self.policy)
    }

    /// The report on the wire.
    pub open spec fn spec_to_bytes(self) -> Seq<u8> {
        self.spec_measurable_bytes() + word_bytes(self.sig_usage) + word_bytes(self.sig_algo)
            + word_bytes(self.reserved) + self.signature.r@ + self.signature.s@
    }

    /// Recomputes the bytes that the signature covers.
    pub fn measurable_bytes(&self) -> (buf: Vec<u8>)
        ensures
            buf@ == self.spec_measurable_bytes(),
            buf@.len() == MEASURABLE_SIZE,
    {
        let mut buf: Vec<u8> = Vec::new();
        buf.extend_from_slice(self.nonce.as_slice());
        buf.extend_from_slice(self.launch_digest.as_slice());
        push_word(&mut buf, self.policy);
        buf
    }

    /// Lays the report out as it travels.
    pub fn to_bytes(&self) -> (buf: Vec<u8>)
        ensures
            buf@ == self.spec_to_bytes(),
            buf@.len() == REPORT_SIZE,
    {
        let mut buf = self.measurable_bytes();
        push_word(&mut buf, self.sig_usage);
        push_word(&mut buf, self.sig_algo);
        push_word(&mut buf, self.reserved);
        buf.extend_from_slice(self.signature.r.as_slice());
        buf.extend_from_slice(self.signature.s.as_slice());
        buf
    }

    /// Reads a report from its wire form. Any input of another length than a
    /// report's is refused.
    pub fn from_bytes(bytes: &[u8]) -> (r: Option<AttestationReport>)
        ensures
            r is Some <==> bytes@.len() == REPORT_SIZE,
            r matches Some(report) ==> report.spec_to_bytes() == bytes@ && report
                == spec_report_of(bytes@),
    {
        if bytes.len() != REPORT_SIZE {
            return None;
        }
        let report = AttestationReport {
            nonce: read_array::<16>(bytes, 0),
            launch_digest: read_array::<32>(bytes, 16),
            policy: read_word(bytes, 48),
            sig_usage: read_word(bytes, 52),
            sig_algo: read_word(bytes, 56),
            reserved: read_word(bytes, 60),
            signature: Signature {
                r: read_array::<72>(bytes, 64),
                s: read_array::<72>(bytes, 136),
            },
        };
        proof {
            lemma_bytes_round_trip(bytes@.subrange(48, 52));
            lemma_bytes_round_trip(bytes@.subrange(52, 56));
            lemma_bytes_round_trip(bytes@.subrange(56, 60));
            lemma_bytes_round_trip(bytes@.subrange(60, 64));
            assert(report.spec_to_bytes() =~= bytes@);
            lemma_wire_form_injective(report, spec_report_of(bytes@));
        }
        Some(report)
    }
}

/// The report that `bytes` lays out, where they lay one out.
pub open spec fn spec_report_of(bytes: Seq<u8>) -> AttestationReport {
    choose|report: AttestationReport| report.spec_to_bytes() == bytes
}

/// Two reports with the same measurable bytes agree on nonce, launch digest
/// and policy: no change to any of the three leaves the signed range as it was.
pub proof fn lemma_measurable_bytes_injective(a: AttestationReport, b: AttestationReport)
    requires
        a.spec_measurable_bytes() == b.spec_measurable_bytes(),
    ensures
        a.nonce == b.nonce,
        a.launch_digest == b.launch_digest,
        a.policy == b.policy,
{
    let ma = a.spec_measurable_bytes();
    let mb = b.spec_measurable_bytes();
    assert(a.nonce@ =~= ma.subrange(0, 16));
    assert(b.nonce@ =~= mb.subrange(0, 16));
    assert(a.launch_digest@ =~= ma.subrange(16, 48));
    assert(b.launch_digest@ =~= mb.subrange(16, 48));
    assert(word_bytes(a.policy) =~= ma.subrange(48, 52));
    assert(word_bytes(b.policy) =~= mb.subrange(48, 52));
    lemma_word_bytes_injective(a.policy, b.policy);
    assert(a.nonce =~= b.nonce);
    assert(a.launch_digest =~= b.launch_digest);
}

/// The measurable bytes are the first 52 bytes of the wire form.
pub proof fn lemma_measurable_prefix(report: AttestationReport)
    ensures
        report.spec_to_bytes().subrange(0, MEASURABLE_SIZE as int)
            == report.spec_measurable_bytes(),
{
    assert(report.spec_to_bytes().subrange(0, MEASURABLE_SIZE as int)
        =~= report.spec_measurable_bytes());
}

/// Two reports with the same wire form are the same report.
pub proof fn lemma_wire_form_injective(a: AttestationReport, b: AttestationReport)
    requires
        a.spec_to_bytes() == b.spec_to_bytes(),
    ensures
        a == b,
{
    let wa = a.spec_to_bytes();
    let wb = b.spec_to_bytes();
    assert(a.spec_measurable_bytes() =~= wa.subrange(0, 52));
    assert(b.spec_measurable_bytes() =~= wb.subrange(0, 52));
    lemma_measurable_bytes_injective(a, b);
    assert(word_bytes(a.sig_usage) =~= wa.subrange(52, 56));
    assert(word_bytes(b.sig_usage) =~= wb.subrange(52, 56));
    assert(word_bytes(a.sig_algo) =~= wa.subrange(56, 60));
    assert(word_bytes(b.sig_algo) =~= wb.subrange(56, 60));
    assert(word_bytes(a.reserved) =~= wa.subrange(60, 64));
    assert(word_bytes(b.reserved) =~= wb.subrange(60, 64));
    lemma_word_bytes_injective(a.sig_usage, b.sig_usage);
    lemma_word_bytes_injective(a.sig_algo, b.sig_algo);
    lemma_word_bytes_injective(a.reserved, b.reserved);
    assert(a.signature.r@ =~= wa.subrange(64, 136));
    assert(b.signature.r@ =~= wb.subrange(64, 136));
    assert(a.signature.s@ =~= wa.subrange(136, 208));
    assert(b.signature.s@ =~= wb.subrange(136, 208));
    assert(a.signature.r =~= b.signature.r);
    assert(a.signature.s =~= b.signature.s);
}

} // verus!
