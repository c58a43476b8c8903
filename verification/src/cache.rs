//! The expiry-aware cache's verified half: the fingerprint that keys every
//! cache file, the file-name derivation, the freshness rule with its skew
//! margin, and the messages cache failures carry. The driver does the disk
//! reads and writes; everything here is a function of plain values.

use vstd::prelude::*;

use md5::Digest;

use crate::builder::{SsoConfig, SsoConfigV};
use crate::text::{
    chars_to_string, hex_digit, hex_digit_of, push_chars, push_len_prefixed, render_chunks,
    lemma_render_chunks_injective,
};

verus! {

/// The skew margin, in seconds: a cached artifact is only served while its
/// expiry lies strictly more than this far in the future.
pub const CACHE_BUFFER_SECONDS: i64 = 60;

/// True when an artifact expiring at `expires_at` (unix seconds) may still
/// be served from the cache at time `now`.
pub open spec fn fresh_at(expires_at: int, now: int) -> bool {
    expires_at > now + CACHE_BUFFER_SECONDS
}

/// The expiry-buffer test: a cached value is served only while it will
/// outlive the skew margin; at or below the margin it is recomputed.
pub fn is_fresh(expires_at: i64, now: i64) -> (r: bool)
    ensures
        r == fresh_at(expires_at as int, now as int),
{
    if now > i64::MAX - CACHE_BUFFER_SECONDS {
        false
    } else {
        expires_at > now + CACHE_BUFFER_SECONDS
    }
}

/// The name of what the md5 digest computes: the 16-byte digest of a
/// string's UTF-8 bytes.
pub uninterp spec fn md5_str(s: Seq<char>) -> Seq<u8>;

/// Relies on the md5 crate's `Md5` hasher: the 16-byte digest is a function
/// of the input bytes alone, and a string's UTF-8 bytes are a function of
/// its characters alone.
#[verifier::external_body]
fn md5_of(s: &str) -> (r: Vec<u8>)
    ensures
        r@ == md5_str(s@),
        r@.len() == 16,
{
    md5::Md5::digest(s.as_bytes()).to_vec()
}

/// The lowercase hexadecimal rendering of a byte sequence, two digits per
/// byte.
pub open spec fn hex_bytes(bs: Seq<u8>) -> Seq<char> {
    Seq::new(
        bs.len() * 2,
        |i: int|
            if i % 2 == 0 {
                hex_digit(((bs[i / 2] >> 4u8) & 0xfu8) as u64)
            } else {
                hex_digit((bs[i / 2] & 0xfu8) as u64)
            },
    )
}

/// Renders bytes as lowercase hexadecimal, two digits per byte.
pub fn hex_of_bytes(bs: &Vec<u8>) -> (r: Vec<char>)
    ensures
        r@ == hex_bytes(bs@),
{
    let n: usize = bs.len();
    let mut out: Vec<char> = Vec::new();
    let mut i: usize = 0;
    while i < n
        invariant
            n == bs@.len(),
            i <= n,
            out@ == hex_bytes(bs@).take(2 * i),
        decreases n - i,
    {
        let b: u8 = bs[i];
        let hi: u8 = (b >> 4) & 0xf;
        let lo: u8 = b & 0xf;
        proof {
            assert((b >> 4) & 0xf < 16 && b & 0xf < 16) by (bit_vector);
            assert(hex_bytes(bs@)[2 * i] == hex_digit(hi as u64));
            assert(hex_bytes(bs@)[2 * i + 1] == hex_digit(lo as u64));
        }
        out.push(hex_digit_of(hi as u64));
        out.push(hex_digit_of(lo as u64));
        i = i + 1;
        proof {
            assert(hex_bytes(bs@).take(2 * i) =~= hex_bytes(bs@).take(2 * (i - 1)).push(
                hex_bytes(bs@)[2 * (i - 1)],
            ).push(hex_bytes(bs@)[2 * (i - 1) + 1]));
        }
    }
    proof {
        assert(hex_bytes(bs@).take(2 * n) =~= hex_bytes(bs@));
    }
    out
}

/// The fingerprint's digest input: the four configuration fields, each
/// framed with its length so that distinct configurations can never encode
/// alike.
pub open spec fn config_chunks(c: SsoConfigV) -> Seq<Seq<char>> {
    seq![c.region, c.start_url, c.account_id, c.role_name]
}

/// The cache fingerprint of a configuration: the digest of the framed
/// fields, rendered as 32 lowercase hexadecimal characters. Deterministic
/// by construction: it is a function of the configuration alone.
pub open spec fn fingerprint_spec(c: SsoConfigV) -> Seq<char> {
    hex_bytes(md5_str(render_chunks(config_chunks(c))))
}

/// Computes the cache fingerprint of a configuration.
pub fn fingerprint(config: &SsoConfig) -> (r: String)
    ensures
        r@ == fingerprint_spec(config@),
{
    let mut enc: Vec<char> = Vec::new();
    push_len_prefixed(&mut enc, config.region.as_str());
    push_len_prefixed(&mut enc, config.start_url.as_str());
    push_len_prefixed(&mut enc, config.account_id.as_str());
    push_len_prefixed(&mut enc, config.role_name.as_str());
    proof {
        let e0 = Seq::<Seq<char>>::empty();
        let e1 = e0.push(config@.region);
        let e2 = e1.push(config@.start_url);
        let e3 = e2.push(config@.account_id);
        let e4 = e3.push(config@.role_name);
        crate::text::lemma_render_chunks_push(e0, config@.region);
        crate::text::lemma_render_chunks_push(e1, config@.start_url);
        crate::text::lemma_render_chunks_push(e2, config@.account_id);
        crate::text::lemma_render_chunks_push(e3, config@.role_name);
        assert(config_chunks(config@) =~= e4);
        assert(render_chunks(e0) =~= Seq::<char>::empty());
        assert(enc@ =~= render_chunks(config_chunks(config@)));
    }
    let s = chars_to_string(&enc);
    let digest = md5_of(s.as_str());
    let hx = hex_of_bytes(&digest);
    chars_to_string(&hx)
}

/// Fingerprint determinism: the fingerprint is a function of the
/// configuration's field values alone, so equal configurations always get
/// equal fingerprints.
pub proof fn lemma_fingerprint_deterministic(c1: SsoConfigV, c2: SsoConfigV)
    requires
        c1 == c2,
    ensures
        fingerprint_spec(c1) == fingerprint_spec(c2),
{
}

/// Fingerprint separation, up to digest collisions: configurations that
/// differ in any field feed distinct inputs to the digest — the framed
/// encoding of the fields is injective.
pub proof fn lemma_fingerprint_input_injective(c1: SsoConfigV, c2: SsoConfigV)
    requires
        c1.wf(),
        c2.wf(),
        render_chunks(config_chunks(c1)) == render_chunks(config_chunks(c2)),
    ensures
        c1 == c2,
{
    lemma_render_chunks_injective(config_chunks(c1), config_chunks(c2));
    assert(config_chunks(c1)[0] == config_chunks(c2)[0]);
    assert(config_chunks(c1)[1] == config_chunks(c2)[1]);
    assert(config_chunks(c1)[2] == config_chunks(c2)[2]);
    assert(config_chunks(c1)[3] == config_chunks(c2)[3]);
}

/// The view of [`Cache`].
pub struct CacheV {
    pub dir: Option<Seq<char>>,
    pub suffix: Seq<char>,
}

/// The cache's identity: where its files live (`None` disables caching) and
/// the fingerprint suffix that keys every file.
pub struct Cache {
    /// The cache directory; `None` disables caching.
    pub dir: Option<String>,
    /// The fingerprint of the configuration, the suffix of every file name.
    pub suffix: String,
}

impl View for Cache {
    type V = CacheV;

    open spec fn view(&self) -> CacheV {
        CacheV {
            dir: match self.dir {
                Some(ref d) => Some(d@),
                None => None,
            },
            suffix: self.suffix@,
        }
    }
}

/// The file name of an artifact kind under one fingerprint.
pub open spec fn file_name_spec(prefix: Seq<char>, suffix: Seq<char>) -> Seq<char> {
    prefix + "-"@ + suffix + ".json"@
}

/// The three artifact kinds never collide in storage: for one fingerprint,
/// distinct prefixes derive distinct file names.
pub proof fn lemma_prefix_separation(p1: Seq<char>, p2: Seq<char>, suffix: Seq<char>)
    requires
        p1 != p2,
    ensures
        file_name_spec(p1, suffix) != file_name_spec(p2, suffix),
{
    if file_name_spec(p1, suffix) == file_name_spec(p2, suffix) {
        reveal_strlit("-");
        reveal_strlit(".json");
        assert(("-"@).len() == 1);
        assert((".json"@).len() == 5);
        assert(file_name_spec(p1, suffix).len() == p1.len() + 1 + suffix.len() + 5);
        assert(file_name_spec(p2, suffix).len() == p2.len() + 1 + suffix.len() + 5);
        assert(p1.len() == p2.len());
        assert forall|j: int| 0 <= j < p1.len() implies p1[j] == p2[j] by {
            assert(file_name_spec(p1, suffix)[j] == p1[j]);
            assert(file_name_spec(p2, suffix)[j] == p2[j]);
        }
        assert(p1 =~= p2);
    }
}

/// The three artifact kinds the flow stores derive three distinct file
/// names for any one fingerprint.
pub proof fn lemma_flow_prefixes_distinct(suffix: Seq<char>)
    ensures
        file_name_spec("client"@, suffix) != file_name_spec("token"@, suffix),
        file_name_spec("client"@, suffix) != file_name_spec("credentials"@, suffix),
        file_name_spec("token"@, suffix) != file_name_spec("credentials"@, suffix),
{
    reveal_strlit("client");
    reveal_strlit("token");
    reveal_strlit("credentials");
    lemma_prefix_separation("client"@, "token"@, suffix);
    lemma_prefix_separation("client"@, "credentials"@, suffix);
    lemma_prefix_separation("token"@, "credentials"@, suffix);
}

impl Cache {
    /// A cache in `dir`, keyed by the configuration's fingerprint.
    pub fn new(dir: Option<String>, config: &SsoConfig) -> (r: Cache)
        ensures
            r@.dir == (match dir {
                Some(d) => Some(d@),
                None => None::<Seq<char>>,
            }),
            r@.suffix == fingerprint_spec(config@),
    {
        Cache { dir, suffix: fingerprint(config) }
    }

    /// The file name for an artifact kind.
    pub fn file_name(&self, prefix: &str) -> (r: String)
        ensures
            r@ == file_name_spec(prefix@, self@.suffix),
    {
        let mut out: Vec<char> = crate::text::to_char_vec(prefix);
        push_chars(&mut out, "-");
        push_chars(&mut out, self.suffix.as_str());
        push_chars(&mut out, ".json");
        chars_to_string(&out)
    }

    /// The file path for an artifact kind, `None` when caching is disabled.
    pub fn path_for(&self, prefix: &str) -> (r: Option<String>)
        ensures
            match self@.dir {
                None => r is None,
                Some(d) => r matches Some(p) && p@ == d + "/"@ + file_name_spec(
                    prefix@,
                    self@.suffix,
                ),
            },
    {
        match &self.dir {
            None => None,
            Some(d) => {
                let mut out: Vec<char> = crate::text::to_char_vec(d.as_str());
                push_chars(&mut out, "/");
                push_chars(&mut out, prefix);
                push_chars(&mut out, "-");
                push_chars(&mut out, self.suffix.as_str());
                push_chars(&mut out, ".json");
                let p = chars_to_string(&out);
                proof {
                    assert(p@ =~= self@.dir->Some_0 + "/"@ + file_name_spec(
                        prefix@,
                        self@.suffix,
                    ));
                }
                Some(p)
            },
        }
    }
}

/// What the driver found when it read a cache file.
pub enum ReadOutcome {
    /// The file exists and holds this text.
    Found(String),
    /// The file does not exist: the ordinary no-cache-yet path.
    Absent,
    /// The file could not be read for any other reason; the payload
    /// describes the failure. Never treated as a miss: recomputing would
    /// mask a misconfiguration.
    Unreadable(String),
}

/// The view of [`ReadOutcome`].
pub enum ReadOutcomeV {
    Found(Seq<char>),
    Absent,
    Unreadable(Seq<char>),
}

impl View for ReadOutcome {
    type V = ReadOutcomeV;

    open spec fn view(&self) -> ReadOutcomeV {
        match self {
            ReadOutcome::Found(s) => ReadOutcomeV::Found(s@),
            ReadOutcome::Absent => ReadOutcomeV::Absent,
            ReadOutcome::Unreadable(s) => ReadOutcomeV::Unreadable(s@),
        }
    }
}

/// The message a corrupt cache file is reported with.
pub open spec fn corrupt_msg(path: Seq<char>) -> Seq<char> {
    "corrupt cache file "@ + path
}

/// The message an unreadable cache file is reported with.
pub open spec fn read_fail_msg(path: Seq<char>, detail: Seq<char>) -> Seq<char> {
    "failed to read cache file "@ + path + ": "@ + detail
}

/// The message an unwritable cache file is reported with.
pub open spec fn write_fail_msg(path: Seq<char>, detail: Seq<char>) -> Seq<char> {
    "failed to write cache file "@ + path + ": "@ + detail
}

/// Builds the corrupt-cache-file message.
pub fn corrupt_message(path: &str) -> (r: String)
    ensures
        r@ == corrupt_msg(path@),
{
    let mut out: Vec<char> = Vec::new();
    push_chars(&mut out, "corrupt cache file ");
    push_chars(&mut out, path);
    chars_to_string(&out)
}

/// Builds the unreadable-cache-file message.
pub fn read_fail_message(path: &str, detail: &str) -> (r: String)
    ensures
        r@ == read_fail_msg(path@, detail@),
{
    let mut out: Vec<char> = Vec::new();
    push_chars(&mut out, "failed to read cache file ");
    push_chars(&mut out, path);
    push_chars(&mut out, ": ");
    push_chars(&mut out, detail);
    chars_to_string(&out)
}

/// Builds the unwritable-cache-file message.
pub fn write_fail_message(path: &str, detail: &str) -> (r: String)
    ensures
        r@ == write_fail_msg(path@, detail@),
{
    let mut out: Vec<char> = Vec::new();
    push_chars(&mut out, "failed to write cache file ");
    push_chars(&mut out, path);
    push_chars(&mut out, ": ");
    push_chars(&mut out, detail);
    chars_to_string(&out)
}

/// Relies on `chrono::Utc::now`: no promise is made of the clock's reading.
#[verifier::external_body]
pub fn now_unix_seconds() -> i64 {
    chrono::Utc::now().timestamp()
}

} // verus!
