//! Opaque, wire-safe encoding of a [`ResourceFingerprint`], so the exact
//! fingerprint a UI observed can travel to a later process and pin consent
//! to that instance.
//!
//! The layout: `"v1:"` followed by lowercase hex of a binary payload — a
//! presence byte (bit 0: `dev_ino`, bit 1: `mtime`, bit 2:
//! `tool_revision`), then each present field in that order. `dev_ino` is
//! two big-endian `u64`s; `mtime` is a sign byte (1: at or after the
//! epoch), big-endian `u64` seconds and `u32` nanoseconds of its distance
//! from the epoch; `tool_revision` is a big-endian `u32` byte length and
//! the UTF-8 bytes. What callers may rely on is the round trip (decoding an
//! encoded fingerprint gives back that fingerprint) and that decoding
//! accepts nothing else: a token that decodes is the encoding of what it
//! decodes to.

use vstd::prelude::*;
use vstd::string::StringSliceAdditionalSpecFns;
use vstd::utf8::*;

use super::model::{FingerprintView, ResourceFingerprint};
use super::time::Timestamp;
use crate::text::{string_from_chars, string_from_utf8};

verus! {

/// `256^n`.
pub open spec fn pow256(n: nat) -> nat
    decreases n,
{
    if n == 0 {
        1
    } else {
        256 * pow256((n - 1) as nat)
    }
}

/// The `n`-byte big-endian encoding of `x` (of `x` modulo `256^n`).
pub open spec fn be_bytes(x: nat, n: nat) -> Seq<u8>
    decreases n,
{
    if n == 0 {
        Seq::empty()
    } else {
        be_bytes(x / 256, (n - 1) as nat).push((x % 256) as u8)
    }
}

/// The value of big-endian bytes.
pub open spec fn be_value(s: Seq<u8>) -> nat
    decreases s.len(),
{
    if s.len() == 0 {
        0
    } else {
        be_value(s.drop_last()) * 256 + (s.last() as nat)
    }
}

proof fn lemma_pow256_pos(n: nat)
    ensures
        pow256(n) >= 1,
    decreases n,
{
    if n > 0 {
        lemma_pow256_pos((n - 1) as nat);
    }
}

proof fn lemma_be_bytes_len(x: nat, n: nat)
    ensures
        be_bytes(x, n).len() == n,
    decreases n,
{
    if n > 0 {
        lemma_be_bytes_len(x / 256, (n - 1) as nat);
    }
}

proof fn lemma_be_value_bound(s: Seq<u8>)
    ensures
        be_value(s) < pow256(s.len()),
    decreases s.len(),
{
    if s.len() > 0 {
        lemma_be_value_bound(s.drop_last());
        let a = be_value(s.drop_last());
        let p = pow256((s.len() - 1) as nat);
        let b = s.last() as int;
        assert(a * 256 + b < 256 * p) by (nonlinear_arith)
            requires
                a < p,
                0 <= b < 256,
        ;
    }
}

proof fn lemma_be_round_trip(x: nat, n: nat)
    requires
        x < pow256(n),
    ensures
        be_value(be_bytes(x, n)) == x,
    decreases n,
{
    if n > 0 {
        let p = pow256((n - 1) as nat);
        assert(x / 256 < p) by (nonlinear_arith)
            requires
                x < 256 * p,
        ;
        lemma_be_round_trip(x / 256, (n - 1) as nat);
        let bs = be_bytes(x, n);
        assert(bs.drop_last() =~= be_bytes(x / 256, (n - 1) as nat));
        assert((x / 256) * 256 + x % 256 == x) by (nonlinear_arith);
    }
}

/// Appends the `n`-byte big-endian encoding of `x`.
fn push_be(out: &mut Vec<u8>, x: u64, n: usize)
    ensures
        final(out)@ == old(out)@ + be_bytes(x as nat, n as nat),
    decreases n,
{
    if n > 0 {
        push_be(out, x / 256, n - 1);
        out.push((x % 256) as u8);
        assert(out@ =~= old(out)@ + be_bytes(x as nat, n as nat));
    }
}

/// The value of `p[start..start + n]` read big-endian, for `n <= 8`.
fn read_be(p: &Vec<u8>, start: usize, n: usize) -> (v: u64)
    requires
        n <= 8,
        start + n <= p@.len(),
    ensures
        v == be_value(p@.subrange(start as int, start + n)),
{
    let mut acc: u64 = 0;
    let mut i: usize = start;
    let _len = p.len();
    let end: usize = start + n;
    while i < end
        invariant
            end == start + n,
            n <= 8,
            start <= i <= start + n,
            start + n <= p@.len(),
            acc == be_value(p@.subrange(start as int, i as int)),
        decreases end - i,
    {
        proof {
            lemma_be_value_bound(p@.subrange(start as int, i as int));
            lemma_pow_le((i - start) as nat, 7);
            assert(p@.subrange(start as int, i + 1).drop_last() =~= p@.subrange(start as int, i as int));
        }
        let b = p[i];
        assert(acc * 256 + b < 256 * pow256(7)) by (nonlinear_arith)
            requires
                acc < pow256(7),
                b < 256,
        ;
        proof {
            reveal_with_fuel(pow256, 8);
        }
        acc = acc * 256 + (b as u64);
        i = i + 1;
    }
    acc
}

proof fn lemma_pow_le(a: nat, b: nat)
    requires
        a <= b,
    ensures
        pow256(a) <= pow256(b),
    decreases b,
{
    if a < b {
        lemma_pow_le(a, (b - 1) as nat);
        lemma_pow256_pos((b - 1) as nat);
    }
}

/// Lowercase hex digit for `d < 16`.
pub open spec fn hex_digit_char(d: nat) -> char {
    if d < 10 {
        (48 + d) as char
    } else {
        (87 + d) as char
    }
}

/// Two lowercase hex digits per byte, in order.
pub open spec fn hex_chars(p: Seq<u8>) -> Seq<char>
    decreases p.len(),
{
    if p.len() == 0 {
        Seq::empty()
    } else {
        hex_chars(p.drop_last()) + seq![
            hex_digit_char((p.last() / 16) as nat),
            hex_digit_char((p.last() % 16) as nat),
        ]
    }
}

/// The presence byte: bit 0 `dev_ino`, bit 1 `mtime`, bit 2 `tool_revision`.
pub open spec fn presence_flags(fp: FingerprintView) -> u8 {
    ((if fp.dev_ino is Some { 1int } else { 0int }) + (if fp.mtime is Some { 2int } else { 0int })
        + (if fp.tool_revision is Some { 4int } else { 0int })) as u8
}

/// Sign byte, then big-endian seconds and nanoseconds of the distance from
/// the epoch.
pub open spec fn mtime_bytes(t: Timestamp) -> Seq<u8> {
    if t.secs >= 0 {
        seq![1u8] + be_bytes(t.secs as nat, 8) + be_bytes(t.nanos as nat, 4)
    } else if t.nanos == 0 {
        seq![0u8] + be_bytes((-t.secs) as nat, 8) + be_bytes(0, 4)
    } else {
        seq![0u8] + be_bytes((-t.secs - 1) as nat, 8) + be_bytes((1_000_000_000 - t.nanos) as nat, 4)
    }
}

/// The binary payload of a fingerprint.
pub open spec fn spec_payload(fp: FingerprintView) -> Seq<u8> {
    let dev = match fp.dev_ino {
        Some((d, i)) => be_bytes(d as nat, 8) + be_bytes(i as nat, 8),
        None => Seq::empty(),
    };
    let mtime = match fp.mtime {
        Some(t) => mtime_bytes(t),
        None => Seq::empty(),
    };
    let rev = match fp.tool_revision {
        Some(r) => be_bytes(encode_utf8(r).len(), 4) + encode_utf8(r),
        None => Seq::empty(),
    };
    seq![presence_flags(fp)] + dev + mtime + rev
}

/// The token text for a fingerprint.
pub open spec fn spec_token(fp: FingerprintView) -> Seq<char> {
    seq!['v', '1', ':'] + hex_chars(spec_payload(fp))
}

fn hex_digit(d: u8) -> (c: char)
    requires
        d < 16,
    ensures
        c == hex_digit_char(d as nat),
{
    if d < 10 {
        (48u8 + d) as char
    } else {
        (87u8 + d) as char
    }
}

fn push_mtime(out: &mut Vec<u8>, t: Timestamp)
    requires
        t.wf(),
    ensures
        final(out)@ == old(out)@ + mtime_bytes(t),
{
    if t.secs >= 0 {
        out.push(1u8);
        push_be(out, t.secs as u64, 8);
        push_be(out, t.nanos as u64, 4);
    } else {
        out.push(0u8);
        let below: u64 = (-(t.secs + 1)) as u64;
        if t.nanos == 0 {
            push_be(out, below + 1, 8);
            push_be(out, 0, 4);
        } else {
            push_be(out, below, 8);
            push_be(out, (1_000_000_000u32 - t.nanos) as u64, 4);
        }
    }
    assert(out@ =~= old(out)@ + mtime_bytes(t));
}

/// The binary payload of `fp`.
fn payload_of(fp: &ResourceFingerprint) -> (p: Vec<u8>)
    requires
        fp.mtime matches Some(t) ==> t.wf(),
    ensures
        p@ == spec_payload(fp@),
{
    let mut flags: u8 = 0;
    if fp.dev_ino.is_some() {
        flags = flags + 1;
    }
    if fp.mtime.is_some() {
        flags = flags + 2;
    }
    if fp.tool_revision.is_some() {
        flags = flags + 4;
    }
    let mut out: Vec<u8> = Vec::new();
    out.push(flags);
    let ghost after_flags = out@;
    if let Some((dev, ino)) = fp.dev_ino {
        push_be(&mut out, dev, 8);
        push_be(&mut out, ino, 8);
    }
    let ghost after_dev = out@;
    if let Some(t) = fp.mtime {
        push_mtime(&mut out, t);
    }
    let ghost after_mtime = out@;
    if let Some(rev) = &fp.tool_revision {
        let raw: &[u8] = rev.as_str().as_bytes();
        push_be(&mut out, raw.len() as u64, 4);
        let ghost before_raw = out@;
        let mut i: usize = 0;
        while i < raw.len()
            invariant
                0 <= i <= raw@.len(),
                out@ == before_raw + raw@.subrange(0, i as int),
            decreases raw@.len() - i,
        {
            out.push(raw[i]);
            i = i + 1;
            assert(out@ =~= before_raw + raw@.subrange(0, i as int));
        }
        assert(raw@.subrange(0, raw@.len() as int) =~= raw@);
    }
    assert(out@ =~= spec_payload(fp@));
    out
}

/// Encodes `fingerprint` as an opaque, wire-safe token.
pub fn encode_fingerprint_token(fingerprint: &ResourceFingerprint) -> (token: String)
    requires
        fingerprint.mtime matches Some(t) ==> t.wf(),
    ensures
        token@ == spec_token(fingerprint@),
{
    let payload = payload_of(fingerprint);
    let mut out: Vec<char> = Vec::new();
    out.push('v');
    out.push('1');
    out.push(':');
    let mut i: usize = 0;
    while i < payload.len()
        invariant
            0 <= i <= payload@.len(),
            out@ == seq!['v', '1', ':'] + hex_chars(payload@.subrange(0, i as int)),
        decreases payload@.len() - i,
    {
        let b = payload[i];
        out.push(hex_digit(b / 16));
        out.push(hex_digit(b % 16));
        proof {
            assert(payload@.subrange(0, i + 1).drop_last() =~= payload@.subrange(0, i as int));
        }
        i = i + 1;
        assert(out@ =~= seq!['v', '1', ':'] + hex_chars(payload@.subrange(0, i as int)));
    }
    assert(payload@.subrange(0, payload@.len() as int) =~= payload@);
    string_from_chars(out.as_slice())
}

/// Why [`decode_fingerprint_token`] refused a token: truncated, non-hex,
/// an unsupported version prefix, or otherwise not something
/// [`encode_fingerprint_token`] could have produced.
#[derive(Debug, Clone, Copy, PartialEq, Eq)]
pub struct FingerprintTokenError(pub TokenErrorKind);

impl FingerprintTokenError {
    /// The human-readable description, `"invalid fingerprint token: ..."`.
    pub fn message(&self) -> (s: &'static str)
        ensures
            s@ == self.0.spec_message(),
    {
        self.0.message()
    }
}

/// The specific defect found in a refused token.
#[derive(Debug, Clone, Copy, PartialEq, Eq, Structural)]
pub enum TokenErrorKind {
    MissingVersionPrefix,
    OddLengthHex,
    NonUtf8Hex,
    InvalidHexByte,
    UnknownFlagBits,
    LengthOverflow,
    TruncatedPayload,
    InvalidMtimeSign,
    MtimeOutOfRange,
    InvalidUtf8ToolRevision,
    TrailingBytes,
}

impl TokenErrorKind {
    /// The text that describes each defect.
    pub open spec fn spec_message(self) -> Seq<char> {
        match self {
            TokenErrorKind::MissingVersionPrefix =>
                "invalid fingerprint token: unsupported or missing version prefix"@,
            TokenErrorKind::OddLengthHex => "invalid fingerprint token: odd-length hex payload"@,
            TokenErrorKind::NonUtf8Hex => "invalid fingerprint token: non-UTF8 hex payload"@,
            TokenErrorKind::InvalidHexByte => "invalid fingerprint token: invalid hex byte"@,
            TokenErrorKind::UnknownFlagBits =>
                "invalid fingerprint token: unknown presence flag bits"@,
            TokenErrorKind::LengthOverflow => "invalid fingerprint token: length overflow"@,
            TokenErrorKind::TruncatedPayload => "invalid fingerprint token: truncated payload"@,
            TokenErrorKind::InvalidMtimeSign => "invalid fingerprint token: invalid mtime sign"@,
            TokenErrorKind::MtimeOutOfRange => "invalid fingerprint token: mtime out of range"@,
            TokenErrorKind::InvalidUtf8ToolRevision =>
                "invalid fingerprint token: invalid utf8 tool_revision"@,
            TokenErrorKind::TrailingBytes =>
                "invalid fingerprint token: trailing bytes after payload"@,
        }
    }

    /// The human-readable description, `"invalid fingerprint token: ..."`.
    pub fn message(&self) -> (s: &'static str)
        ensures
            s@ == self.spec_message(),
    {
        match self {
            TokenErrorKind::MissingVersionPrefix =>
                "invalid fingerprint token: unsupported or missing version prefix",
            TokenErrorKind::OddLengthHex => "invalid fingerprint token: odd-length hex payload",
            TokenErrorKind::NonUtf8Hex => "invalid fingerprint token: non-UTF8 hex payload",
            TokenErrorKind::InvalidHexByte => "invalid fingerprint token: invalid hex byte",
            TokenErrorKind::UnknownFlagBits =>
                "invalid fingerprint token: unknown presence flag bits",
            TokenErrorKind::LengthOverflow => "invalid fingerprint token: length overflow",
            TokenErrorKind::TruncatedPayload => "invalid fingerprint token: truncated payload",
            TokenErrorKind::InvalidMtimeSign => "invalid fingerprint token: invalid mtime sign",
            TokenErrorKind::MtimeOutOfRange => "invalid fingerprint token: mtime out of range",
            TokenErrorKind::InvalidUtf8ToolRevision =>
                "invalid fingerprint token: invalid utf8 tool_revision",
            TokenErrorKind::TrailingBytes =>
                "invalid fingerprint token: trailing bytes after payload",
        }
    }
}

/// One step of reading the payload: a value and the cursor after it, or a
/// refusal.
pub enum DecodeStep<T> {
    Done(T, int),
    Refused(TokenErrorKind),
}

/// The value of one lowercase ASCII hex digit (the only digits the encoder
/// writes).
pub open spec fn hex_value(b: u8) -> Option<u8> {
    if 48 <= b <= 57 {
        Some((b - 48) as u8)
    } else if 97 <= b <= 102 {
        Some((b - 87) as u8)
    } else {
        None
    }
}

/// Parsing one two-byte chunk as a byte: the chunk must be UTF-8 and two
/// lowercase hex digits.
pub open spec fn hex_pair(a: u8, b: u8) -> Result<u8, TokenErrorKind> {
    if !valid_utf8(seq![a, b]) {
        Err(TokenErrorKind::NonUtf8Hex)
    } else {
        match (hex_value(a), hex_value(b)) {
            (Some(x), Some(y)) => Ok((16 * x + y) as u8),
            _ => Err(TokenErrorKind::InvalidHexByte),
        }
    }
}

/// Decoding an even-length hex byte string; the first bad chunk decides
/// the error.
pub open spec fn hex_decode(h: Seq<u8>) -> Result<Seq<u8>, TokenErrorKind>
    decreases h.len(),
{
    if h.len() < 2 {
        Ok(Seq::empty())
    } else {
        match hex_decode(h.subrange(0, h.len() - 2)) {
            Err(e) => Err(e),
            Ok(p) => match hex_pair(h[h.len() - 2], h[h.len() - 1]) {
                Err(e) => Err(e),
                Ok(x) => Ok(p.push(x)),
            },
        }
    }
}

/// Taking `n` bytes at cursor `c`: the new cursor, or why not.
pub open spec fn take(p: Seq<u8>, c: int, n: int) -> Result<int, TokenErrorKind> {
    if c + n > usize::MAX {
        Err(TokenErrorKind::LengthOverflow)
    } else if c + n > p.len() {
        Err(TokenErrorKind::TruncatedPayload)
    } else {
        Ok(c + n)
    }
}

/// The instant at signed nanosecond offset `t` from the epoch.
pub open spec fn timestamp_at(t: int) -> Timestamp {
    Timestamp { secs: (t / 1_000_000_000) as i64, nanos: (t % 1_000_000_000) as u32 }
}

/// Whether the instant at offset `t` is representable.
pub open spec fn representable(t: int) -> bool {
    i64::MIN * 1_000_000_000 <= t < (i64::MAX + 1) * 1_000_000_000
}

#[verifier::opaque]
pub open spec fn dev_section(p: Seq<u8>, c: int, present: bool) -> DecodeStep<Option<(u64, u64)>> {
    if !present {
        DecodeStep::Done(None, c)
    } else {
        match take(p, c, 8) {
            Err(e) => DecodeStep::Refused(e),
            Ok(c1) => match take(p, c1, 8) {
                Err(e) => DecodeStep::Refused(e),
                Ok(c2) => DecodeStep::Done(
                    Some(
                        (
                            be_value(p.subrange(c, c1)) as u64,
                            be_value(p.subrange(c1, c2)) as u64,
                        ),
                    ),
                    c2,
                ),
            },
        }
    }
}

/// Reading the sign byte and the seconds/nanoseconds distance from the
/// epoch. Only what the encoder writes is accepted: a sign of 1 (at or
/// after the epoch) or 0 (strictly before it), nanoseconds below one
/// second, and a representable instant.
#[verifier::opaque]
pub open spec fn mtime_section(p: Seq<u8>, c: int, present: bool) -> DecodeStep<Option<Timestamp>> {
    if !present {
        DecodeStep::Done(None, c)
    } else {
        match take(p, c, 1) {
            Err(e) => DecodeStep::Refused(e),
            Ok(c1) => match take(p, c1, 8) {
                Err(e) => DecodeStep::Refused(e),
                Ok(c2) => match take(p, c2, 4) {
                    Err(e) => DecodeStep::Refused(e),
                    Ok(c3) => {
                        let sign = p[c];
                        let secs = be_value(p.subrange(c1, c2));
                        let nanos = be_value(p.subrange(c2, c3));
                        let dist = secs * 1_000_000_000 + nanos;
                        if sign > 1 || (sign == 0 && dist == 0) {
                            DecodeStep::Refused(TokenErrorKind::InvalidMtimeSign)
                        } else if nanos >= 1_000_000_000 {
                            DecodeStep::Refused(TokenErrorKind::MtimeOutOfRange)
                        } else {
                            let t: int = if sign == 1 { dist as int } else { -(dist as int) };
                            if representable(t) {
                                DecodeStep::Done(Some(timestamp_at(t)), c3)
                            } else {
                                DecodeStep::Refused(TokenErrorKind::MtimeOutOfRange)
                            }
                        }
                    },
                },
            },
        }
    }
}

#[verifier::opaque]
pub open spec fn rev_section(p: Seq<u8>, c: int, present: bool) -> DecodeStep<Option<Seq<char>>> {
    if !present {
        DecodeStep::Done(None, c)
    } else {
        match take(p, c, 4) {
            Err(e) => DecodeStep::Refused(e),
            Ok(c1) => {
                let len = be_value(p.subrange(c, c1)) as int;
                match take(p, c1, len) {
                    Err(e) => DecodeStep::Refused(e),
                    Ok(c2) => {
                        let raw = p.subrange(c1, c2);
                        if valid_utf8(raw) {
                            DecodeStep::Done(Some(decode_utf8(raw)), c2)
                        } else {
                            DecodeStep::Refused(TokenErrorKind::InvalidUtf8ToolRevision)
                        }
                    },
                }
            },
        }
    }
}

/// Decoding a whole payload: presence byte (no bits but the three known
/// ones), the present fields in order, and nothing after them.
#[verifier::opaque]
pub open spec fn spec_decode_payload(p: Seq<u8>) -> DecodeStep<FingerprintView> {
    match take(p, 0, 1) {
        Err(e) => DecodeStep::Refused(e),
        Ok(c0) => {
            let flags = p[0];
            if flags >= 8 {
                DecodeStep::Refused(TokenErrorKind::UnknownFlagBits)
            } else {
                match dev_section(p, c0, flags % 2 == 1) {
                    DecodeStep::Refused(e) => DecodeStep::Refused(e),
                    DecodeStep::Done(dev_ino, c1) => match mtime_section(p, c1, (flags / 2) % 2 == 1) {
                        DecodeStep::Refused(e) => DecodeStep::Refused(e),
                        DecodeStep::Done(mtime, c2) => match rev_section(p, c2, (flags / 4) % 2 == 1) {
                            DecodeStep::Refused(e) => DecodeStep::Refused(e),
                            DecodeStep::Done(tool_revision, c3) => if c3 != p.len() {
                                DecodeStep::Refused(TokenErrorKind::TrailingBytes)
                            } else {
                                DecodeStep::Done(FingerprintView { dev_ino, mtime, tool_revision }, c3)
                            },
                        },
                    },
                }
            }
        },
    }
}

/// Decoding the UTF-8 bytes of a token.
pub open spec fn spec_decode_bytes(b: Seq<u8>) -> DecodeStep<FingerprintView> {
    if b.len() < 3 || b.subrange(0, 3) != seq![118u8, 49u8, 58u8] {
        DecodeStep::Refused(TokenErrorKind::MissingVersionPrefix)
    } else {
        let h = b.subrange(3, b.len() as int);
        if h.len() % 2 != 0 {
            DecodeStep::Refused(TokenErrorKind::OddLengthHex)
        } else {
            match hex_decode(h) {
                Err(e) => DecodeStep::Refused(e),
                Ok(p) => spec_decode_payload(p),
            }
        }
    }
}

/// Whether `bytes` is well-formed UTF-8 (`std::str::from_utf8` succeeds
/// exactly on these).
#[verifier::external_body]
fn is_utf8(bytes: &[u8]) -> (r: bool)
    ensures
        r == valid_utf8(bytes@),
{
    std::str::from_utf8(bytes).is_ok()
}

fn hex_value_exec(b: u8) -> (r: Option<u8>)
    ensures
        r == hex_value(b),
{
    if 48 <= b && b <= 57 {
        Some(b - 48)
    } else if 97 <= b && b <= 102 {
        Some(b - 87)
    } else {
        None
    }
}

fn hex_pair_exec(a: u8, b: u8) -> (r: Result<u8, TokenErrorKind>)
    ensures
        r == hex_pair(a, b),
{
    let chunk: [u8; 2] = [a, b];
    let ok = is_utf8(chunk.as_slice());
    assert(chunk@ =~= seq![a, b]);
    if !ok {
        return Err(TokenErrorKind::NonUtf8Hex);
    }
    match (hex_value_exec(a), hex_value_exec(b)) {
        (Some(x), Some(y)) => Ok(16 * x + y),
        _ => Err(TokenErrorKind::InvalidHexByte),
    }
}

proof fn lemma_hex_decode_err_extends(h: Seq<u8>, k: int)
    requires
        0 <= 2 * k <= h.len(),
        h.len() % 2 == 0,
        hex_decode(h.subrange(0, 2 * k)) is Err,
    ensures
        hex_decode(h) == hex_decode(h.subrange(0, 2 * k)),
    decreases h.len(),
{
    if h.len() == 2 * k {
        assert(h.subrange(0, 2 * k) =~= h);
    } else {
        let h2 = h.subrange(0, h.len() - 2);
        assert(h2.subrange(0, 2 * k) =~= h.subrange(0, 2 * k));
        lemma_hex_decode_err_extends(h2, k);
    }
}

/// Decodes the hex text `b[3..]` (of even length) into bytes.
fn hex_decode_exec(b: &[u8]) -> (r: Result<Vec<u8>, TokenErrorKind>)
    requires
        b@.len() >= 3,
        (b@.len() - 3) % 2 == 0,
    ensures
        match hex_decode(b@.subrange(3, b@.len() as int)) {
            Ok(p) => r matches Ok(v) && v@ == p,
            Err(e) => r == Err::<Vec<u8>, TokenErrorKind>(e),
        },
{
    let ghost h = b@.subrange(3, b@.len() as int);
    let blen: usize = b.len();
    let pairs: usize = (blen - 3) / 2;
    let mut out: Vec<u8> = Vec::new();
    let mut i: usize = 0;
    while i < pairs
        invariant
            blen == b@.len(),
            blen >= 3,
            h.len() == blen - 3,
            h == b@.subrange(3, b@.len() as int),
            h.len() % 2 == 0,
            pairs == h.len() / 2,
            0 <= i <= pairs,
            hex_decode(h.subrange(0, 2 * i)) == Ok::<Seq<u8>, TokenErrorKind>(out@),
        decreases pairs - i,
    {
        let a = b[3 + 2 * i];
        let c = b[3 + 2 * i + 1];
        let ghost prefix = h.subrange(0, 2 * i + 2);
        assert(prefix.subrange(0, prefix.len() - 2) =~= h.subrange(0, 2 * i));
        assert(prefix[prefix.len() - 2] == a);
        assert(prefix[prefix.len() - 1] == c);
        match hex_pair_exec(a, c) {
            Err(e) => {
                proof {
                    lemma_hex_decode_err_extends(h, i + 1);
                }
                return Err(e);
            },
            Ok(x) => {
                out.push(x);
            },
        }
        i = i + 1;
    }
    assert(h.subrange(0, 2 * i) =~= h);
    Ok(out)
}

fn take_exec(p: &Vec<u8>, c: usize, n: usize) -> (r: Result<usize, TokenErrorKind>)
    ensures
        match take(p@, c as int, n as int) {
            Ok(c2) => r == Ok::<usize, TokenErrorKind>(c2 as usize),
            Err(e) => r == Err::<usize, TokenErrorKind>(e),
        },
{
    match c.checked_add(n) {
        None => Err(TokenErrorKind::LengthOverflow),
        Some(end) => {
            if end > p.len() {
                Err(TokenErrorKind::TruncatedPayload)
            } else {
                Ok(end)
            }
        },
    }
}

fn read_dev(p: &Vec<u8>, c: usize, present: bool) -> (r: Result<(Option<(u64, u64)>, usize), TokenErrorKind>)
    ensures
        match dev_section(p@, c as int, present) {
            DecodeStep::Done(v, c2) => r matches Ok((w, c3)) && w == v && c3 == c2,
            DecodeStep::Refused(e) => r == Err::<(Option<(u64, u64)>, usize), TokenErrorKind>(e),
        },
{
    reveal(dev_section);
    if !present {
        return Ok((None, c));
    }
    let c1 = match take_exec(p, c, 8) {
        Ok(x) => x,
        Err(e) => return Err(e),
    };
    let c2 = match take_exec(p, c1, 8) {
        Ok(x) => x,
        Err(e) => return Err(e),
    };
    let dev = read_be(p, c, 8);
    let ino = read_be(p, c1, 8);
    Ok((Some((dev, ino)), c2))
}

/// The instant `sign`/`whole`/`nanos` describe, when representable.
fn instant_from_parts(sign: u8, whole: u64, nanos: u32) -> (r: Option<Timestamp>)
    requires
        nanos < 1_000_000_000,
    ensures
        ({
            let dist = whole * 1_000_000_000 + nanos;
            let t: int = if sign == 1 { dist as int } else { -(dist as int) };
            if representable(t) {
                r == Some(timestamp_at(t))
            } else {
                r is None
            }
        }),
{
    let ghost dist: int = whole * 1_000_000_000 + nanos;
    let ghost t: int = if sign == 1 { dist } else { -dist };
    if sign == 1 {
        if whole > i64::MAX as u64 {
            assert(!representable(t)) by (nonlinear_arith)
                requires
                    t == whole * 1_000_000_000 + nanos,
                    whole > i64::MAX,
                    nanos >= 0,
            ;
            None
        } else {
            proof {
                vstd::arithmetic::div_mod::lemma_fundamental_div_mod_converse(
                    t,
                    1_000_000_000,
                    whole as int,
                    nanos as int,
                );
                assert(representable(t)) by (nonlinear_arith)
                    requires
                        t == whole * 1_000_000_000 + nanos,
                        0 <= whole <= i64::MAX,
                        0 <= nanos < 1_000_000_000,
                ;
            }
            Some(Timestamp { secs: whole as i64, nanos })
        }
    } else if nanos == 0 {
        if whole > 9_223_372_036_854_775_808u64 {
            assert(!representable(t)) by (nonlinear_arith)
                requires
                    t == -(whole * 1_000_000_000),
                    whole > 9_223_372_036_854_775_808,
            ;
            None
        } else {
            let secs: i128 = -(whole as i128);
            proof {
                vstd::arithmetic::div_mod::lemma_fundamental_div_mod_converse(
                    t,
                    1_000_000_000,
                    secs as int,
                    0,
                );
                assert(representable(t)) by (nonlinear_arith)
                    requires
                        t == secs * 1_000_000_000,
                        i64::MIN <= secs <= 0,
                ;
            }
            Some(Timestamp { secs: secs as i64, nanos: 0 })
        }
    } else {
        if whole > i64::MAX as u64 {
            assert(!representable(t)) by (nonlinear_arith)
                requires
                    t == -(whole * 1_000_000_000 + nanos),
                    whole > i64::MAX,
                    nanos > 0,
            ;
            None
        } else {
            let secs: i128 = -(whole as i128) - 1;
            let rem: u32 = 1_000_000_000u32 - nanos;
            proof {
                assert(t == secs * 1_000_000_000 + rem) by (nonlinear_arith)
                    requires
                        t == -(whole * 1_000_000_000 + nanos),
                        secs == -whole - 1,
                        rem == 1_000_000_000 - nanos,
                ;
                vstd::arithmetic::div_mod::lemma_fundamental_div_mod_converse(
                    t,
                    1_000_000_000,
                    secs as int,
                    rem as int,
                );
                assert(representable(t)) by (nonlinear_arith)
                    requires
                        t == secs * 1_000_000_000 + rem,
                        i64::MIN <= secs < 0,
                        0 < rem < 1_000_000_000,
                ;
            }
            Some(Timestamp { secs: secs as i64, nanos: rem })
        }
    }
}

fn read_mtime(p: &Vec<u8>, c: usize, present: bool) -> (r: Result<(Option<Timestamp>, usize), TokenErrorKind>)
    ensures
        match mtime_section(p@, c as int, present) {
            DecodeStep::Done(v, c2) => r matches Ok((w, c3)) && w == v && c3 == c2,
            DecodeStep::Refused(e) => r == Err::<(Option<Timestamp>, usize), TokenErrorKind>(e),
        },
{
    reveal(mtime_section);
    if !present {
        return Ok((None, c));
    }
    let c1 = match take_exec(p, c, 1) {
        Ok(x) => x,
        Err(e) => return Err(e),
    };
    let c2 = match take_exec(p, c1, 8) {
        Ok(x) => x,
        Err(e) => return Err(e),
    };
    let c3 = match take_exec(p, c2, 4) {
        Ok(x) => x,
        Err(e) => return Err(e),
    };
    let sign = p[c];
    let secs = read_be(p, c1, 8);
    let nanos = read_be(p, c2, 4);
    assert(secs * 1_000_000_000 + nanos == 0 <==> (secs == 0 && nanos == 0)) by (nonlinear_arith)
        requires
            secs >= 0,
            nanos >= 0,
    ;
    if sign > 1 || (sign == 0 && secs == 0 && nanos == 0) {
        return Err(TokenErrorKind::InvalidMtimeSign);
    }
    if nanos >= 1_000_000_000 {
        return Err(TokenErrorKind::MtimeOutOfRange);
    }
    match instant_from_parts(sign, secs, nanos as u32) {
        Some(t) => Ok((Some(t), c3)),
        None => Err(TokenErrorKind::MtimeOutOfRange),
    }
}

fn read_rev(p: &Vec<u8>, c: usize, present: bool) -> (r: Result<(Option<String>, usize), TokenErrorKind>)
    ensures
        match rev_section(p@, c as int, present) {
            DecodeStep::Done(v, c2) => r matches Ok((w, c3)) && c3 == c2 && match (w, v) {
                (Some(s), Some(t)) => s@ == t,
                (None, None) => true,
                _ => false,
            },
            DecodeStep::Refused(e) => r == Err::<(Option<String>, usize), TokenErrorKind>(e),
        },
{
    reveal(rev_section);
    if !present {
        return Ok((None, c));
    }
    let c1 = match take_exec(p, c, 4) {
        Ok(x) => x,
        Err(e) => return Err(e),
    };
    let len = read_be(p, c, 4);
    proof {
        lemma_be_value_bound(p@.subrange(c as int, c1 as int));
        reveal_with_fuel(pow256, 5);
    }
    let c2 = match take_exec(p, c1, len as usize) {
        Ok(x) => x,
        Err(e) => return Err(e),
    };
    let mut raw: Vec<u8> = Vec::new();
    let mut i: usize = c1;
    while i < c2
        invariant
            c1 <= i <= c2,
            c2 <= p@.len(),
            raw@ == p@.subrange(c1 as int, i as int),
        decreases c2 - i,
    {
        raw.push(p[i]);
        i = i + 1;
        assert(raw@ =~= p@.subrange(c1 as int, i as int));
    }
    match string_from_utf8(raw) {
        Some(s) => Ok((Some(s), c2)),
        None => Err(TokenErrorKind::InvalidUtf8ToolRevision),
    }
}

/// Decodes a token produced by [`encode_fingerprint_token`] back into a
/// fingerprint; refuses anything that encoding could not have produced.
fn decode_token_checked(token: &str) -> (r: Result<ResourceFingerprint, TokenErrorKind>)
    ensures
        match spec_decode_bytes(token.spec_bytes()) {
            DecodeStep::Done(fp, _) => r matches Ok(f) && f@ == fp,
            DecodeStep::Refused(e) => r == Err::<ResourceFingerprint, TokenErrorKind>(e),
        },
{
    let b: &[u8] = token.as_bytes();
    if b.len() < 3 || b[0] != 118 || b[1] != 49 || b[2] != 58 {
        proof {
            if b@.len() >= 3 {
                if b@.subrange(0, 3) == seq![118u8, 49u8, 58u8] {
                    assert(b@.subrange(0, 3)[0] == b@[0]);
                    assert(b@.subrange(0, 3)[1] == b@[1]);
                    assert(b@.subrange(0, 3)[2] == b@[2]);
                }
            }
        }
        return Err(TokenErrorKind::MissingVersionPrefix);
    }
    assert(b@.subrange(0, 3) =~= seq![118u8, 49u8, 58u8]);
    if (b.len() - 3) % 2 != 0 {
        return Err(TokenErrorKind::OddLengthHex);
    }
    let p = match hex_decode_exec(b) {
        Ok(p) => p,
        Err(e) => return Err(e),
    };
    reveal(spec_decode_payload);
    let c0 = match take_exec(&p, 0, 1) {
        Ok(x) => x,
        Err(e) => return Err(e),
    };
    let flags = p[0];
    if flags >= 8 {
        return Err(TokenErrorKind::UnknownFlagBits);
    }
    let (dev_ino, c1) = match read_dev(&p, c0, flags % 2 == 1) {
        Ok(x) => x,
        Err(e) => return Err(e),
    };
    let (mtime, c2) = match read_mtime(&p, c1, (flags / 2) % 2 == 1) {
        Ok(x) => x,
        Err(e) => return Err(e),
    };
    let (tool_revision, c3) = match read_rev(&p, c2, (flags / 4) % 2 == 1) {
        Ok(x) => x,
        Err(e) => return Err(e),
    };
    if c3 != p.len() {
        return Err(TokenErrorKind::TrailingBytes);
    }
    let fp = ResourceFingerprint { dev_ino, mtime, tool_revision };
    Ok(fp)
}

/// Lowercase hex digit byte for `d < 16`.
pub open spec fn hex_digit_byte(d: nat) -> u8 {
    if d < 10 {
        (48 + d) as u8
    } else {
        (87 + d) as u8
    }
}

/// The UTF-8 bytes of `hex_chars(p)`.
pub open spec fn hex_text(p: Seq<u8>) -> Seq<u8>
    decreases p.len(),
{
    if p.len() == 0 {
        Seq::empty()
    } else {
        hex_text(p.drop_last()) + seq![
            hex_digit_byte((p.last() / 16) as nat),
            hex_digit_byte((p.last() % 16) as nat),
        ]
    }
}

proof fn lemma_hex_chars_ascii(p: Seq<u8>)
    ensures
        hex_chars(p).len() == hex_text(p).len(),
        hex_text(p).len() == 2 * p.len(),
        forall|i: int|
            0 <= i < hex_chars(p).len() ==> '\0' <= #[trigger] hex_chars(p)[i] <= '\u{7f}'
                && hex_chars(p)[i] as u8 == hex_text(p)[i],
    decreases p.len(),
{
    if p.len() > 0 {
        lemma_hex_chars_ascii(p.drop_last());
        let hi = (p.last() / 16) as nat;
        let lo = (p.last() % 16) as nat;
        assert(hex_digit_char(hi) as u8 == hex_digit_byte(hi));
        assert(hex_digit_char(lo) as u8 == hex_digit_byte(lo));
        let a = hex_chars(p.drop_last());
        let b = hex_text(p.drop_last());
        assert forall|i: int| 0 <= i < hex_chars(p).len() implies '\0' <= #[trigger] hex_chars(p)[i]
            <= '\u{7f}' && hex_chars(p)[i] as u8 == hex_text(p)[i] by {
            if i < a.len() {
                assert(hex_chars(p)[i] == a[i]);
                assert(hex_text(p)[i] == b[i]);
            }
        }
    }
}

proof fn lemma_token_bytes(p: Seq<u8>)
    ensures
        encode_utf8(seq!['v', '1', ':'] + hex_chars(p)) == seq![118u8, 49u8, 58u8] + hex_text(p),
{
    lemma_hex_chars_ascii(p);
    let cs = seq!['v', '1', ':'] + hex_chars(p);
    assert(is_ascii_chars(cs)) by {
        assert forall|i: int| 0 <= i < cs.len() implies '\0' <= #[trigger] cs[i] <= '\u{7f}' by {
            if i >= 3 {
                assert(cs[i] == hex_chars(p)[i - 3]);
            }
        }
    }
    is_ascii_chars_encode_utf8(cs);
    let bs = seq![118u8, 49u8, 58u8] + hex_text(p);
    assert forall|i: int| 0 <= i < cs.len() implies encode_utf8(cs)[i] == bs[i] by {
        assert(cs[i] as u8 == encode_utf8(cs)[i]);
        if i >= 3 {
            assert(cs[i] == hex_chars(p)[i - 3]);
        }
    }
    assert(encode_utf8(cs) =~= bs);
}

proof fn lemma_hex_round_trip(p: Seq<u8>)
    ensures
        hex_decode(hex_text(p)) == Ok::<Seq<u8>, TokenErrorKind>(p),
    decreases p.len(),
{
    lemma_hex_chars_ascii(p);
    if p.len() > 0 {
        lemma_hex_round_trip(p.drop_last());
        lemma_hex_chars_ascii(p.drop_last());
        let h = hex_text(p);
        let x = p.last();
        let hi = hex_digit_byte((x / 16) as nat);
        let lo = hex_digit_byte((x % 16) as nat);
        assert(h.subrange(0, h.len() - 2) =~= hex_text(p.drop_last()));
        assert(h[h.len() - 2] == hi);
        assert(h[h.len() - 1] == lo);
        assert(valid_utf8(seq![hi, lo])) by {
            let cs = seq![hi as char, lo as char];
            assert(is_ascii_chars(cs));
            is_ascii_chars_encode_utf8(cs);
            encode_utf8_valid_utf8(cs);
            assert(encode_utf8(cs) =~= seq![hi, lo]);
        }
        assert(hex_value(hi) == Some((x / 16) as u8));
        assert(hex_value(lo) == Some((x % 16) as u8));
        assert(hex_pair(hi, lo) == Ok::<u8, TokenErrorKind>(x));
        assert(p.drop_last().push(x) =~= p);
    } else {
        assert(p =~= Seq::empty());
        assert(hex_text(p) =~= Seq::empty());
    }
}

proof fn lemma_pow256_values()
    ensures
        pow256(1) == 256,
        pow256(4) == 0x1_0000_0000,
        pow256(8) == 0x1_0000_0000_0000_0000,
{
    reveal_with_fuel(pow256, 9);
}

proof fn lemma_take_ok(p: Seq<u8>, c: int, n: int)
    requires
        0 <= c,
        0 <= n,
        c + n <= p.len(),
        p.len() <= usize::MAX,
    ensures
        take(p, c, n) == Ok::<int, TokenErrorKind>(c + n),
{
}

proof fn lemma_dev_section(p: Seq<u8>, c: int, d: u64, i: u64)
    requires
        0 <= c,
        c + 16 <= p.len() <= usize::MAX,
        p.subrange(c, c + 16) == be_bytes(d as nat, 8) + be_bytes(i as nat, 8),
    ensures
        dev_section(p, c, true) matches DecodeStep::Done(v, c2) && v == Some((d, i)) && c2 == c + 16,
{
    reveal(dev_section);
    lemma_pow256_values();
    lemma_be_bytes_len(d as nat, 8);
    lemma_be_bytes_len(i as nat, 8);
    lemma_be_round_trip(d as nat, 8);
    lemma_be_round_trip(i as nat, 8);
    assert(p.subrange(c, c + 8) =~= p.subrange(c, c + 16).subrange(0, 8));
    assert(p.subrange(c + 8, c + 16) =~= p.subrange(c, c + 16).subrange(8, 16));
    assert(p.subrange(c, c + 16).subrange(0, 8) =~= be_bytes(d as nat, 8));
    assert(p.subrange(c, c + 16).subrange(8, 16) =~= be_bytes(i as nat, 8));
}

proof fn lemma_mtime_section(p: Seq<u8>, c: int, t: Timestamp)
    requires
        t.wf(),
        0 <= c,
        c + 13 <= p.len() <= usize::MAX,
        p.subrange(c, c + 13) == mtime_bytes(t),
    ensures
        mtime_section(p, c, true) matches DecodeStep::Done(v, c2) && v == Some(t) && c2 == c + 13,
{
    reveal(mtime_section);
    lemma_pow256_values();
    let m = mtime_bytes(t);
    let (x, n): (nat, nat) = if t.secs >= 0 {
        (t.secs as nat, t.nanos as nat)
    } else if t.nanos == 0 {
        ((-t.secs) as nat, 0)
    } else {
        ((-t.secs - 1) as nat, (1_000_000_000 - t.nanos) as nat)
    };
    assert(m == seq![if t.secs >= 0 { 1u8 } else { 0u8 }] + be_bytes(x, 8) + be_bytes(n, 4));
    lemma_be_bytes_len(x, 8);
    lemma_be_bytes_len(n, 4);
    lemma_be_round_trip(x, 8);
    lemma_be_round_trip(n, 4);
    assert(p.subrange(c + 1, c + 9) =~= m.subrange(1, 9));
    assert(p.subrange(c + 9, c + 13) =~= m.subrange(9, 13));
    assert(m.subrange(1, 9) =~= be_bytes(x, 8));
    assert(m.subrange(9, 13) =~= be_bytes(n, 4));
    assert(p[c] == m[0]);
    let big: int = t.nanos_since_epoch();
    assert(n / 1_000_000_000 == 0 && n % 1_000_000_000 == n) by (nonlinear_arith)
        requires
            0 <= n < 1_000_000_000,
    ;
    if t.secs >= 0 {
        assert(x * 1_000_000_000 + n == big);
    } else if t.nanos == 0 {
        assert(-(x * 1_000_000_000 + n) == big) by (nonlinear_arith)
            requires
                x == -t.secs,
                n == 0,
                big == t.secs * 1_000_000_000 + t.nanos,
                t.nanos == 0,
        ;
    } else {
        assert(-(x * 1_000_000_000 + n) == big) by (nonlinear_arith)
            requires
                x == -t.secs - 1,
                n == 1_000_000_000 - t.nanos,
                big == t.secs * 1_000_000_000 + t.nanos,
        ;
    }
    vstd::arithmetic::div_mod::lemma_fundamental_div_mod_converse(
        big,
        1_000_000_000,
        t.secs as int,
        t.nanos as int,
    );
    assert(representable(big)) by (nonlinear_arith)
        requires
            big == t.secs * 1_000_000_000 + t.nanos,
            i64::MIN <= t.secs <= i64::MAX,
            0 <= t.nanos < 1_000_000_000,
    ;
    assert(timestamp_at(big) == t);
}

proof fn lemma_rev_section(p: Seq<u8>, c: int, r: Seq<char>)
    requires
        0 <= c,
        encode_utf8(r).len() < 0x1_0000_0000,
        c + 4 + encode_utf8(r).len() <= p.len() <= usize::MAX,
        p.subrange(c, c + 4 + encode_utf8(r).len()) == be_bytes(encode_utf8(r).len(), 4) + encode_utf8(r),
    ensures
        rev_section(p, c, true) matches DecodeStep::Done(v, c2) && v == Some(r) && c2 == c + 4
            + encode_utf8(r).len(),
{
    reveal(rev_section);
    lemma_pow256_values();
    let raw = encode_utf8(r);
    let l = raw.len();
    lemma_be_bytes_len(l, 4);
    lemma_be_round_trip(l, 4);
    let whole = p.subrange(c, c + 4 + l);
    assert(p.subrange(c, c + 4) =~= whole.subrange(0, 4));
    assert(whole.subrange(0, 4) =~= be_bytes(l, 4));
    assert(p.subrange(c + 4, c + 4 + l) =~= whole.subrange(4, 4 + l as int));
    assert(whole.subrange(4, 4 + l as int) =~= raw);
    encode_utf8_valid_utf8(r);
    encode_utf8_decode_utf8(r);
}

/// The byte length of a fingerprint's `tool_revision`, if any.
pub open spec fn revision_len(fp: FingerprintView) -> nat {
    match fp.tool_revision {
        Some(r) => encode_utf8(r).len(),
        None => 0,
    }
}

proof fn lemma_sections_absent(p: Seq<u8>)
    ensures
        forall|c: int| dev_section(p, c, false) == DecodeStep::<Option<(u64, u64)>>::Done(None, c),
        forall|c: int| mtime_section(p, c, false) == DecodeStep::<Option<Timestamp>>::Done(None, c),
        forall|c: int| rev_section(p, c, false) == DecodeStep::<Option<Seq<char>>>::Done(None, c),
{
    reveal(dev_section);
    reveal(mtime_section);
    reveal(rev_section);
}

proof fn lemma_mtime_bytes_len(t: Timestamp)
    ensures
        mtime_bytes(t).len() == 13,
{
    lemma_be_bytes_len(0, 4);
    lemma_be_bytes_len(t.nanos as nat, 4);
    lemma_be_bytes_len((1_000_000_000 - t.nanos) as nat, 4);
    lemma_be_bytes_len(t.secs as nat, 8);
    lemma_be_bytes_len((-t.secs) as nat, 8);
    lemma_be_bytes_len((-t.secs - 1) as nat, 8);
}

proof fn lemma_payload_round_trip(fp: FingerprintView)
    requires
        fp.mtime matches Some(t) ==> t.wf(),
        revision_len(fp) < 0x1_0000_0000,
        revision_len(fp) + 64 <= usize::MAX,
    ensures
        spec_decode_payload(spec_payload(fp)) matches DecodeStep::Done(v, _) && v == fp,
{
    reveal(spec_decode_payload);
    lemma_sections_absent(spec_payload(fp));
    let p = spec_payload(fp);
    let dev = match fp.dev_ino {
        Some((d, i)) => be_bytes(d as nat, 8) + be_bytes(i as nat, 8),
        None => Seq::empty(),
    };
    let mt = match fp.mtime {
        Some(t) => mtime_bytes(t),
        None => Seq::empty(),
    };
    let rv = match fp.tool_revision {
        Some(r) => be_bytes(encode_utf8(r).len(), 4) + encode_utf8(r),
        None => Seq::empty(),
    };
    assert(p == seq![presence_flags(fp)] + dev + mt + rv);
    if let Some((d, i)) = fp.dev_ino {
        lemma_be_bytes_len(d as nat, 8);
        lemma_be_bytes_len(i as nat, 8);
    }
    if let Some(t) = fp.mtime {
        lemma_mtime_bytes_len(t);
    }
    if let Some(r) = fp.tool_revision {
        lemma_be_bytes_len(encode_utf8(r).len(), 4);
    }
    let c1: int = 1 + dev.len() as int;
    let c2: int = c1 + mt.len();
    let c3: int = c2 + rv.len();
    assert(p.len() == c3);
    assert(dev.len() <= 16 && mt.len() <= 13);
    lemma_take_ok(p, 0, 1);
    let flags = p[0];
    assert(flags == presence_flags(fp));
    assert(flags < 8);
    assert((flags % 2 == 1) == (fp.dev_ino is Some));
    assert(((flags / 2) % 2 == 1) == (fp.mtime is Some));
    assert(((flags / 4) % 2 == 1) == (fp.tool_revision is Some));
    if let Some((d, i)) = fp.dev_ino {
        assert(p.subrange(1, 17) =~= dev);
        lemma_dev_section(p, 1, d, i);
    }
    if let Some(t) = fp.mtime {
        assert(p.subrange(c1, c1 + 13) =~= mt);
        lemma_mtime_section(p, c1, t);
    }
    if let Some(r) = fp.tool_revision {
        assert(p.subrange(c2, c2 + 4 + encode_utf8(r).len() as int) =~= rv);
        lemma_rev_section(p, c2, r);
    }
}

/// Decoding an encoded fingerprint gives back exactly that fingerprint,
/// sub-second `mtime` precision included — for every fingerprint whose
/// `mtime` is well formed and whose `tool_revision` fits the 32-bit length
/// field.
pub proof fn lemma_token_round_trip(fp: FingerprintView)
    requires
        fp.mtime matches Some(t) ==> t.wf(),
        revision_len(fp) < 0x1_0000_0000,
        revision_len(fp) + 64 <= usize::MAX,
    ensures
        spec_decode_bytes(encode_utf8(spec_token(fp))) matches DecodeStep::Done(v, _) && v == fp,
{
    let p = spec_payload(fp);
    lemma_token_bytes(p);
    lemma_hex_round_trip(p);
    lemma_hex_chars_ascii(p);
    let b = encode_utf8(spec_token(fp));
    assert(b == seq![118u8, 49u8, 58u8] + hex_text(p));
    assert(b.subrange(0, 3) =~= seq![118u8, 49u8, 58u8]);
    assert(b.subrange(3, b.len() as int) =~= hex_text(p));
    lemma_payload_round_trip(fp);
}

proof fn lemma_be_bytes_of_value(s: Seq<u8>)
    ensures
        be_bytes(be_value(s), s.len()) == s,
    decreases s.len(),
{
    if s.len() > 0 {
        lemma_be_bytes_of_value(s.drop_last());
        let a = be_value(s.drop_last());
        let b = s.last() as nat;
        vstd::arithmetic::div_mod::lemma_fundamental_div_mod_converse(
            be_value(s) as int,
            256,
            a as int,
            b as int,
        );
        assert(s.drop_last().push(s.last()) =~= s);
    }
}

proof fn lemma_hex_value_digit(a: u8)
    requires
        hex_value(a) is Some,
    ensures
        hex_value(a)->0 < 16,
        hex_digit_byte(hex_value(a)->0 as nat) == a,
{
}

proof fn lemma_hex_canonical(h: Seq<u8>)
    requires
        h.len() % 2 == 0,
        hex_decode(h) is Ok,
    ensures
        h == hex_text(hex_decode(h)->Ok_0),
    decreases h.len(),
{
    if h.len() >= 2 {
        let h2 = h.subrange(0, h.len() - 2);
        lemma_hex_canonical(h2);
        let p2 = hex_decode(h2)->Ok_0;
        let a = h[h.len() - 2];
        let b = h[h.len() - 1];
        lemma_hex_value_digit(a);
        lemma_hex_value_digit(b);
        let va = hex_value(a)->0;
        let vb = hex_value(b)->0;
        let x = hex_pair(a, b)->Ok_0;
        assert(x == 16 * va + vb);
        vstd::arithmetic::div_mod::lemma_fundamental_div_mod_converse(
            x as int,
            16,
            va as int,
            vb as int,
        );
        let p = hex_decode(h)->Ok_0;
        assert(p == p2.push(x));
        assert(p.drop_last() =~= p2);
        assert(h =~= h2 + seq![a, b]);
    } else {
        assert(h =~= Seq::<u8>::empty());
    }
}

proof fn lemma_dev_canonical(p: Seq<u8>, c: int)
    requires
        0 <= c,
        dev_section(p, c, true) is Done,
    ensures
        dev_section(p, c, true) matches DecodeStep::Done(Some((d, i)), c2) && c2 == c + 16
            && c2 <= p.len() && p.subrange(c, c2) == be_bytes(d as nat, 8) + be_bytes(i as nat, 8),
{
    reveal(dev_section);
    lemma_pow256_values();
    let s1 = p.subrange(c, c + 8);
    let s2 = p.subrange(c + 8, c + 16);
    lemma_be_value_bound(s1);
    lemma_be_value_bound(s2);
    lemma_be_bytes_of_value(s1);
    lemma_be_bytes_of_value(s2);
    assert(p.subrange(c, c + 16) =~= s1 + s2);
}

proof fn lemma_mtime_canonical(p: Seq<u8>, c: int)
    requires
        0 <= c,
        mtime_section(p, c, true) is Done,
    ensures
        mtime_section(p, c, true) matches DecodeStep::Done(Some(t), c2) && c2 == c + 13
            && c2 <= p.len() && t.wf() && p.subrange(c, c2) == mtime_bytes(t),
{
    reveal(mtime_section);
    lemma_pow256_values();
    let sign = p[c];
    let s8 = p.subrange(c + 1, c + 9);
    let s4 = p.subrange(c + 9, c + 13);
    let secs = be_value(s8);
    let nanos = be_value(s4);
    lemma_be_value_bound(s8);
    lemma_be_value_bound(s4);
    lemma_be_bytes_of_value(s8);
    lemma_be_bytes_of_value(s4);
    let dist: int = (secs * 1_000_000_000 + nanos) as int;
    let t: int = if sign == 1 { dist } else { -dist };
    let ts = timestamp_at(t);
    assert(p.subrange(c, c + 13) =~= seq![sign] + s8 + s4);
    if sign == 1 {
        vstd::arithmetic::div_mod::lemma_fundamental_div_mod_converse(
            t,
            1_000_000_000,
            secs as int,
            nanos as int,
        );
        assert(secs <= i64::MAX) by (nonlinear_arith)
            requires
                t == secs * 1_000_000_000 + nanos,
                t < (i64::MAX + 1) * 1_000_000_000,
                nanos >= 0,
        ;
        assert(ts.secs == secs && ts.nanos == nanos);
        assert(mtime_bytes(ts) == seq![1u8] + s8 + s4);
    } else if nanos == 0 {
        vstd::arithmetic::div_mod::lemma_fundamental_div_mod_converse(
            t,
            1_000_000_000,
            -secs,
            0,
        );
        assert(secs >= 1);
        assert(-secs >= i64::MIN) by (nonlinear_arith)
            requires
                t == -secs * 1_000_000_000,
                t >= i64::MIN * 1_000_000_000,
        ;
        assert(ts.secs == -secs && ts.nanos == 0);
        assert(mtime_bytes(ts) == seq![0u8] + s8 + s4);
    } else {
        assert(t == (-secs - 1) * 1_000_000_000 + (1_000_000_000 - nanos)) by (nonlinear_arith)
            requires
                t == -(secs * 1_000_000_000 + nanos),
        ;
        vstd::arithmetic::div_mod::lemma_fundamental_div_mod_converse(
            t,
            1_000_000_000,
            -secs - 1,
            1_000_000_000 - nanos,
        );
        assert(-secs - 1 >= i64::MIN) by (nonlinear_arith)
            requires
                t == (-secs - 1) * 1_000_000_000 + (1_000_000_000 - nanos),
                t >= i64::MIN * 1_000_000_000,
                0 < nanos < 1_000_000_000,
        ;
        assert(ts.secs == -secs - 1 && ts.nanos == 1_000_000_000 - nanos);
        assert(mtime_bytes(ts) == seq![0u8] + s8 + s4);
    }
}

proof fn lemma_rev_canonical(p: Seq<u8>, c: int)
    requires
        0 <= c,
        rev_section(p, c, true) is Done,
    ensures
        rev_section(p, c, true) matches DecodeStep::Done(Some(r), c2) && c2 == c + 4
            + encode_utf8(r).len() && c2 <= p.len() && encode_utf8(r).len() < 0x1_0000_0000
            && p.subrange(c, c2) == be_bytes(encode_utf8(r).len(), 4) + encode_utf8(r),
{
    reveal(rev_section);
    lemma_pow256_values();
    let s4 = p.subrange(c, c + 4);
    let len = be_value(s4) as int;
    lemma_be_value_bound(s4);
    lemma_be_bytes_of_value(s4);
    let raw = p.subrange(c + 4, c + 4 + len);
    decode_utf8_encode_utf8(raw);
    assert(p.subrange(c, c + 4 + len) =~= s4 + raw);
}

proof fn lemma_flag_bits(f: u8)
    requires
        f < 8,
    ensures
        f == (if f % 2 == 1 { 1int } else { 0int }) + (if (f / 2) % 2 == 1 { 2int } else { 0int })
            + (if (f / 4) % 2 == 1 { 4int } else { 0int }),
{
    assert(f == 0 || f == 1 || f == 2 || f == 3 || f == 4 || f == 5 || f == 6 || f == 7);
}

proof fn lemma_payload_canonical(p: Seq<u8>)
    ensures
        spec_decode_payload(p) matches DecodeStep::Done(v, _) ==> p == spec_payload(v),
{
    reveal(spec_decode_payload);
    lemma_sections_absent(p);
    if spec_decode_payload(p) is Done {
        let v = spec_decode_payload(p)->Done_0;
        let flags = p[0];
        assert(flags < 8);
        lemma_flag_bits(flags);
        let c1: int = if flags % 2 == 1 { 17 } else { 1 };
        if flags % 2 == 1 {
            lemma_dev_canonical(p, 1);
        }
        let c2: int = if (flags / 2) % 2 == 1 { c1 + 13 } else { c1 };
        if (flags / 2) % 2 == 1 {
            lemma_mtime_canonical(p, c1);
        }
        if (flags / 4) % 2 == 1 {
            lemma_rev_canonical(p, c2);
        }
        let dev = match v.dev_ino {
            Some((d, i)) => be_bytes(d as nat, 8) + be_bytes(i as nat, 8),
            None => Seq::empty(),
        };
        let mt = match v.mtime {
            Some(t) => mtime_bytes(t),
            None => Seq::empty(),
        };
        let rv = match v.tool_revision {
            Some(r) => be_bytes(encode_utf8(r).len(), 4) + encode_utf8(r),
            None => Seq::empty(),
        };
        assert(flags == presence_flags(v));
        assert(p.subrange(1, c1) == dev);
        assert(p.subrange(c1, c2) == mt);
        assert(p.subrange(c2, p.len() as int) == rv);
        assert(p =~= seq![flags] + p.subrange(1, c1) + p.subrange(c1, c2) + p.subrange(
            c2,
            p.len() as int,
        ));
    }
}

/// Only encodings are accepted: whenever decoding the UTF-8 text of
/// `token` yields a fingerprint, `token` is exactly the encoding of that
/// fingerprint.
pub proof fn lemma_decode_accepts_only_encodings(token: Seq<char>)
    ensures
        spec_decode_bytes(encode_utf8(token)) matches DecodeStep::Done(v, _) ==> token == spec_token(
            v,
        ),
{
    let b = encode_utf8(token);
    if spec_decode_bytes(b) is Done {
        let v = spec_decode_bytes(b)->Done_0;
        let h = b.subrange(3, b.len() as int);
        lemma_hex_canonical(h);
        let p = hex_decode(h)->Ok_0;
        lemma_payload_canonical(p);
        assert(p == spec_payload(v));
        assert(b =~= b.subrange(0, 3) + h);
        lemma_token_bytes(p);
        assert(b == encode_utf8(spec_token(v)));
        encode_utf8_decode_utf8(token);
        encode_utf8_decode_utf8(spec_token(v));
    }
}

/// A lowercase ASCII hex digit.
pub open spec fn is_lower_hex(c: char) -> bool {
    ('0' <= c && c <= '9') || ('a' <= c && c <= 'f')
}

proof fn lemma_hex_chars_lower(p: Seq<u8>)
    ensures
        hex_chars(p).len() == 2 * p.len(),
        forall|i: int| 0 <= i < hex_chars(p).len() ==> is_lower_hex(#[trigger] hex_chars(p)[i]),
    decreases p.len(),
{
    if p.len() > 0 {
        lemma_hex_chars_lower(p.drop_last());
        let a = hex_chars(p.drop_last());
        assert forall|i: int| 0 <= i < hex_chars(p).len() implies is_lower_hex(
            #[trigger] hex_chars(p)[i],
        ) by {
            if i < a.len() {
                assert(hex_chars(p)[i] == a[i]);
            }
        }
    }
}

/// Every token is `v1:` followed by a non-empty, even-length run of
/// lowercase hex digits.
pub proof fn lemma_token_shape(fp: FingerprintView)
    ensures
        spec_token(fp).len() >= 5,
        (spec_token(fp).len() - 3) % 2 == 0,
        spec_token(fp).subrange(0, 3) == seq!['v', '1', ':'],
        forall|i: int| 3 <= i < spec_token(fp).len() ==> is_lower_hex(#[trigger] spec_token(fp)[i]),
{
    let p = spec_payload(fp);
    lemma_hex_chars_lower(p);
    let t = spec_token(fp);
    assert(p.len() >= 1);
    assert(t.subrange(0, 3) =~= seq!['v', '1', ':']);
    assert forall|i: int| 3 <= i < t.len() implies is_lower_hex(#[trigger] t[i]) by {
        assert(t[i] == hex_chars(p)[i - 3]);
    }
}

/// The fingerprint with no field set encodes to `v1:00`.
pub proof fn lemma_empty_fingerprint_token()
    ensures
        spec_token(FingerprintView { dev_ino: None, mtime: None, tool_revision: None }) == "v1:00"@,
{
    reveal_strlit("v1:00");
    let fp = FingerprintView { dev_ino: None, mtime: None, tool_revision: None };
    let p = spec_payload(fp);
    assert(p =~= seq![0u8]);
    assert(p.drop_last() =~= Seq::<u8>::empty());
    assert(p.last() == 0u8);
    assert(hex_digit_char(0) == '0');
    assert(hex_chars(p) == hex_chars(p.drop_last()) + seq![hex_digit_char(0), hex_digit_char(0)]);
    assert(hex_chars(p.drop_last()) =~= Seq::<char>::empty());
    assert(hex_chars(p) =~= seq!['0', '0']);
    assert(spec_token(fp) =~= "v1:00"@);
}

/// Distinct well-formed fingerprints have distinct tokens.
pub proof fn lemma_token_injective(a: FingerprintView, b: FingerprintView)
    requires
        a.mtime matches Some(t) ==> t.wf(),
        b.mtime matches Some(t) ==> t.wf(),
        revision_len(a) < 0x1_0000_0000,
        revision_len(a) + 64 <= usize::MAX,
        revision_len(b) < 0x1_0000_0000,
        revision_len(b) + 64 <= usize::MAX,
    ensures
        spec_token(a) == spec_token(b) ==> a == b,
{
    lemma_token_round_trip(a);
    lemma_token_round_trip(b);
}

/// Decodes a token produced by [`encode_fingerprint_token`] back into the
/// fingerprint it encodes, refusing anything else with the defect found.
pub fn decode_fingerprint_token(token: &str) -> (r: Result<ResourceFingerprint, FingerprintTokenError>)
    ensures
        match spec_decode_bytes(token.spec_bytes()) {
            DecodeStep::Done(fp, _) => r matches Ok(f) && f@ == fp,
            DecodeStep::Refused(e) => r == Err::<ResourceFingerprint, FingerprintTokenError>(
                FingerprintTokenError(e),
            ),
        },
        r matches Ok(f) ==> token@ == spec_token(f@),
{
    proof {
        lemma_decode_accepts_only_encodings(token@);
    }
    match decode_token_checked(token) {
        Ok(f) => Ok(f),
        Err(k) => Err(FingerprintTokenError(k)),
    }
}

} // verus!
