//! Identity derivation: a stable hex identity for one filesystem entry,
//! taken from cheap metadata when that is complete (the fast path), from the
//! file's whole content when it is not (the slow path), and from the path
//! string itself for everything that is not a readable regular file.

use crate::digest::blake3_hex;
use crate::digest::blake3_hex_of;
use crate::meta::Timestamp;
use crate::mime::classify_mime;
use crate::mime::opt_bytes_view;
use crate::mime::opt_string_view;
use crate::mime::spec_classified_mime;
use crate::numbytes::i64_be_bytes;
use crate::numbytes::spec_i64_be_bytes;
use crate::numbytes::spec_u32_be_bytes;
use crate::numbytes::spec_u64_be_bytes;
use crate::numbytes::u32_be_bytes;
use crate::numbytes::u64_be_bytes;
use vstd::prelude::*;
use vstd::string::*;
use vstd::utf8::encode_utf8;

verus! {

/// The stable identity of one filesystem entry: the 64 hex characters of a
/// 256-bit digest.
#[derive(Debug, Clone)]
pub struct FsId(String);

impl View for FsId {
    type V = Seq<char>;

    closed spec fn view(&self) -> Seq<char> {
        self.0@
    }
}

impl FsId {
    /// The identity's hex characters.
    pub fn as_str(&self) -> (r: &str)
        ensures
            r@ == self@,
    {
        self.0.as_str()
    }

    /// The key under which this identity's view counter is persisted.
    pub fn get_total_views_store_key(&self) -> (r: String)
        ensures
            r@ == "fs/"@ + self@ + "/total-views"@,
    {
        let mut s = String::from_str("fs/");
        s.append(self.0.as_str());
        s.append("/total-views");
        s
    }
}

/// The view count that a stored counter value stands for: absent counts as
/// zero.
pub open spec fn spec_stored_views(stored: Option<i64>) -> i64 {
    match stored {
        None => 0,
        Some(v) => v,
    }
}

/// The view count that a stored counter value stands for.
pub fn stored_views(stored: Option<i64>) -> (r: i64)
    ensures
        r == spec_stored_views(stored),
{
    match stored {
        None => 0,
        Some(v) => v,
    }
}

/// The counter value to persist after one more view.
pub fn increased_views(stored: Option<i64>) -> (r: i64)
    requires
        spec_stored_views(stored) < 0x7fffffffffffffff,
    ensures
        r == spec_stored_views(stored) + 1,
{
    stored_views(stored) + 1
}

/// Everything the deriver reads about one path. The caller probes the
/// filesystem and hands the findings over as plain values; a reading that
/// failed is `None`.
pub struct EntryProbe {
    /// The path itself.
    pub path: String,
    /// Whether the path is a regular file that could be opened for reading.
    pub readable_file: bool,
    /// The byte length, when metadata could be read and the length fits.
    pub size: Option<i64>,
    /// The modification time, when available and not before the epoch.
    pub modified: Option<Timestamp>,
    /// The file's first bytes, when they could be read; consulted by MIME
    /// sniffing.
    pub head: Option<Vec<u8>>,
    /// The file's whole content, when the caller has read it; the slow path
    /// needs it.
    pub content: Option<Vec<u8>>,
}

/// The MIME classification that identity derivation uses.
pub open spec fn spec_probe_mime(p: EntryProbe) -> Option<Seq<char>> {
    spec_classified_mime(p.path@, opt_bytes_view(p.head))
}

/// Whether the cheap metadata is complete enough for the fast path: size,
/// MIME classification and modification time must all be available.
pub open spec fn spec_fast_path(p: EntryProbe) -> bool {
    &&& p.readable_file
    &&& p.size is Some
    &&& spec_probe_mime(p) is Some
    &&& p.modified is Some
}

/// The byte message hashed on the fast path: size, MIME bytes, then the
/// modification time's seconds and nanoseconds, each integer big-endian.
pub open spec fn spec_fingerprint(size: i64, mime: Seq<char>, t: Timestamp) -> Seq<u8> {
    spec_i64_be_bytes(size) + encode_utf8(mime) + spec_u64_be_bytes(t.secs) + spec_u32_be_bytes(
        t.nanos,
    )
}

/// The identity derived from a probe, when one can be derived: the fast
/// fingerprint's digest for a readable file with complete metadata, the
/// content digest otherwise, and the path digest for everything that is not
/// a readable file. Only a readable file with incomplete metadata and no
/// content in hand yields nothing.
pub open spec fn spec_derived_id(p: EntryProbe) -> Option<Seq<char>> {
    if !p.readable_file {
        Some(blake3_hex_of(encode_utf8(p.path@)))
    } else {
        match (p.size, spec_probe_mime(p), p.modified) {
            (Some(size), Some(m), Some(t)) => Some(blake3_hex_of(spec_fingerprint(size, m, t))),
            _ => match p.content {
                Some(c) => Some(blake3_hex_of(c@)),
                None => None,
            },
        }
    }
}

/// The view of an optional identity.
pub open spec fn opt_id_view(o: Option<FsId>) -> Option<Seq<char>> {
    match o {
        None => None,
        Some(id) => Some(id@),
    }
}

/// Derives the identity for a probed entry. `None` asks the caller to read
/// the file's content and probe again: it comes exactly when the entry is a
/// readable file, its cheap metadata is incomplete, and no content was
/// given.
pub fn get_id(probe: &EntryProbe) -> (r: Option<FsId>)
    ensures
        opt_id_view(r) == spec_derived_id(*probe),
{
    if !probe.readable_file {
        let bytes = probe.path.as_str().as_bytes_vec();
        return Some(FsId(blake3_hex(&bytes)));
    }
    let mime = classify_mime(probe.path.as_str(), &probe.head);
    proof {
        assert(opt_string_view(mime) == spec_probe_mime(*probe));
    }
    match (&probe.size, &mime, &probe.modified) {
        (Some(size), Some(m), Some(t)) => {
            let mut msg = i64_be_bytes(*size);
            let mut mime_bytes = m.as_str().as_bytes_vec();
            msg.append(&mut mime_bytes);
            let mut secs_bytes = u64_be_bytes(t.secs);
            msg.append(&mut secs_bytes);
            let mut nanos_bytes = u32_be_bytes(t.nanos);
            msg.append(&mut nanos_bytes);
            proof {
                assert(msg@ =~= spec_fingerprint(*size, m@, *t));
            }
            Some(FsId(blake3_hex(&msg)))
        },
        _ => {
            match &probe.content {
                Some(c) => Some(FsId(blake3_hex(c))),
                None => None,
            }
        },
    }
}

/// On the fast path the identity is determined by size, MIME classification
/// and modification time alone: two probes that agree on those three derive
/// the same identity, whatever their contents. In particular, mutating a
/// file's content while its size, classification and modification time stay
/// fixed does not change the derived identity; fast-path and slow-path
/// results are not required to agree.
pub proof fn lemma_fast_path_id_ignores_content(a: EntryProbe, b: EntryProbe)
    requires
        spec_fast_path(a),
        spec_fast_path(b),
        a.size == b.size,
        a.modified == b.modified,
        spec_probe_mime(a) == spec_probe_mime(b),
    ensures
        spec_derived_id(a) == spec_derived_id(b),
        spec_derived_id(a) is Some,
{
}

} // verus!
