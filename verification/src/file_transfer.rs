//! File transfer: the directories files may be written to, the transfers
//! being received with their SHA-256 check, the hashing and chunking of a
//! file being sent, and the replies to the viewer.
use crate::host::{approval_spec, approval_step, ApprovalStep, APPROVAL_TIMEOUT_MS};
use crate::session_registry::{is_uuid_v4_text, random_uuid};
use crate::wire::str_eq;
use sha2::Digest;
use vstd::prelude::*;

verus! {

/// A path as its components, each as the bytes of the platform string.
pub type PathParts = Vec<Vec<u8>>;

/// The components of a path, as byte sequences.
pub open spec fn parts_view(p: Seq<Vec<u8>>) -> Seq<Seq<u8>> {
    p.map_values(|c: Vec<u8>| c@)
}

/// Whether `path` lies in `root`: the components of `root` begin those of
/// `path` (component-wise, as `Path::starts_with`).
pub open spec fn is_under(path: Seq<Seq<u8>>, root: Seq<Seq<u8>>) -> bool {
    root.len() <= path.len() && path.take(root.len() as int) == root
}

fn components_start_with(path: &PathParts, root: &PathParts) -> (b: bool)
    ensures
        b == is_under(parts_view(path@), parts_view(root@)),
{
    if root.len() > path.len() {
        return false;
    }
    let mut i: usize = 0;
    while i < root.len()
        invariant
            root@.len() <= path@.len(),
            i <= root@.len(),
            forall|j: int| 0 <= j < i ==> #[trigger] path@[j]@ == root@[j]@,
        decreases root@.len() - i,
    {
        if !(path[i] == root[i]) {
            assert(path@[i as int]@ != root@[i as int]@);
            assert(parts_view(path@).take(root@.len() as int)[i as int] != parts_view(root@)[i as int]);
            return false;
        }
        i += 1;
    }
    assert(parts_view(path@).take(root@.len() as int) =~= parts_view(root@));
    true
}

/// Why a path was refused.
pub enum PathError {
    /// The path is in none of the allowed directories.
    NotAllowed(PathParts),
}

/// File system access limited to a set of directories.
pub struct FsAccess {
    allowed_roots: Vec<PathParts>,
}

impl FsAccess {
    /// The allowed directories, as component sequences.
    pub closed spec fn roots(&self) -> Seq<Seq<Seq<u8>>> {
        self.allowed_roots@.map_values(|r: PathParts| parts_view(r@))
    }

    /// Whether a resolved path lies in one of the allowed directories.
    pub open spec fn allows(&self, path: Seq<Seq<u8>>) -> bool {
        exists|i: int| 0 <= i < self.roots().len() && is_under(path, #[trigger] self.roots()[i])
    }

    /// Access limited to the given directories, each already resolved
    /// (canonical).
    pub fn new(allowed_roots: Vec<PathParts>) -> (a: Self)
        ensures
            a.roots() == allowed_roots@.map_values(|r: PathParts| parts_view(r@)),
    {
        FsAccess { allowed_roots }
    }

    /// Accepts a resolved (canonical) path that lies in an allowed
    /// directory, and gives it back.
    pub fn validate_path(&self, canonical: PathParts) -> (r: Result<PathParts, PathError>)
        ensures
            self.allows(parts_view(canonical@)) ==> r == Ok::<PathParts, PathError>(canonical),
            !self.allows(parts_view(canonical@)) ==> r == Err::<PathParts, PathError>(
                PathError::NotAllowed(canonical),
            ),
    {
        if self.is_allowed(&canonical) {
            Ok(canonical)
        } else {
            Err(PathError::NotAllowed(canonical))
        }
    }

    /// Whether a resolved (canonical) path lies in an allowed directory.
    pub fn is_allowed(&self, canonical: &PathParts) -> (b: bool)
        ensures
            b == self.allows(parts_view(canonical@)),
    {
        let mut i: usize = 0;
        while i < self.allowed_roots.len()
            invariant
                i <= self.allowed_roots@.len(),
                self.roots().len() == self.allowed_roots@.len(),
                forall|j: int| 0 <= j < i ==> !is_under(parts_view(canonical@), #[trigger] self.roots()[j]),
            decreases self.allowed_roots@.len() - i,
        {
            if components_start_with(canonical, &self.allowed_roots[i]) {
                assert(is_under(parts_view(canonical@), self.roots()[i as int]));
                return true;
            }
            i += 1;
        }
        false
    }
}

/// Law: a path is accepted exactly when an allowed directory is a prefix of
/// its components; in particular every accepted path is at least as deep as
/// that directory and agrees with it on every one of its components.
pub proof fn law_accepted_path_is_inside(a: FsAccess, path: Seq<Seq<u8>>)
    requires
        a.allows(path),
    ensures
        exists|i: int|
            0 <= i < a.roots().len() && #[trigger] a.roots()[i].len() <= path.len() && forall|
                j: int,
            |
                0 <= j < a.roots()[i].len() ==> path[j] == #[trigger] a.roots()[i][j],
{
    let i = choose|i: int| 0 <= i < a.roots().len() && is_under(path, #[trigger] a.roots()[i]);
    assert forall|j: int| 0 <= j < a.roots()[i].len() implies path[j] == #[trigger] a.roots()[i][j] by {
        assert(path.take(a.roots()[i].len() as int)[j] == path[j]);
    }
}

/// SHA-256 of a byte sequence.
pub uninterp spec fn sha256(bytes: Seq<u8>) -> Seq<u8>;

/// An incremental SHA-256 computation (a `sha2::Sha256` hasher). The
/// hasher's type cannot be declared to Verus (its type parameters are bound
/// by traits Verus cannot be told of), so it is held in this opaque struct.
#[verifier::external_body]
pub struct Sha256Stream {
    inner: sha2::Sha256,
}

/// The bytes fed to the hasher so far.
pub uninterp spec fn stream_input(s: Sha256Stream) -> Seq<u8>;

/// `Sha256::new`. Trusted: nothing has been fed yet.
#[verifier::external_body]
fn sha256_stream_new() -> (s: Sha256Stream)
    ensures
        stream_input(s) == Seq::<u8>::empty(),
{
    Sha256Stream { inner: sha2::Sha256::new() }
}

/// `Digest::update`. Trusted: the data is appended to what was fed.
#[verifier::external_body]
fn sha256_stream_update(s: &mut Sha256Stream, data: &[u8])
    ensures
        stream_input(*final(s)) == stream_input(*old(s)) + data@,
{
    s.inner.update(data)
}

/// `Digest::finalize` of a copy of the hasher, as bytes. Trusted: the
/// SHA-256 of everything fed, 32 bytes long; the hasher itself is untouched.
#[verifier::external_body]
fn sha256_stream_digest(s: &Sha256Stream) -> (d: Vec<u8>)
    ensures
        d@ == sha256(stream_input(*s)),
        d@.len() == 32,
{
    s.inner.clone().finalize().to_vec()
}

/// A lower-case hexadecimal digit.
pub open spec fn hex_digit(n: int) -> char {
    if n < 10 {
        (48 + n) as char
    } else {
        (87 + n) as char
    }
}

/// Lower-case hexadecimal text of bytes, two digits per byte.
pub open spec fn hex_lower(b: Seq<u8>) -> Seq<char>
    decreases b.len(),
{
    if b.len() == 0 {
        Seq::empty()
    } else {
        hex_lower(b.drop_last()) + seq![hex_digit((b.last() / 16) as int), hex_digit((b.last() % 16) as int)]
    }
}

/// `hex::encode`. Trusted: two lower-case hexadecimal digits per byte, high
/// nibble first, in order.
#[verifier::external_body]
fn hex_encode(bytes: &[u8]) -> (h: String)
    ensures
        h@ == hex_lower(bytes@),
{
    hex::encode(bytes)
}

/// The SHA-256 of the bytes fed, as lower-case hexadecimal.
pub open spec fn stream_hex(s: Sha256Stream) -> Seq<char> {
    hex_lower(sha256(stream_input(s)))
}

fn stream_hex_digest(s: &Sha256Stream) -> (h: String)
    ensures
        h@ == stream_hex(*s),
{
    let d = sha256_stream_digest(s);
    hex_encode(d.as_slice())
}

/// Files are read and sent in pieces of this size: 64 KiB.
pub const CHUNK_SIZE: usize = 65_536;

/// A request to send a file.
pub struct FileTransferRequest {
    pub transfer_id: String,
    pub file_name: String,
    pub file_size: u64,
    pub sha256_hash: String,
    pub destination_path: String,
}

/// One piece of a file being sent.
pub struct FileChunk {
    pub transfer_id: String,
    pub offset: u64,
    pub data: Vec<u8>,
    pub last_chunk: bool,
}

/// Sending a file.
pub struct FileSender;

impl FileSender {
    /// A hasher for the content of the file to send.
    pub fn start_hash() -> (h: Sha256Stream)
        ensures
            stream_input(h) == Seq::<u8>::empty(),
    {
        sha256_stream_new()
    }

    /// Feeds the next piece of the file to the hasher.
    pub fn hash_chunk(hash: &mut Sha256Stream, data: &[u8])
        ensures
            stream_input(*final(hash)) == stream_input(*old(hash)) + data@,
    {
        sha256_stream_update(hash, data)
    }

    /// The request for a file whose content was fed to `hash`: a fresh
    /// random transfer id (the text of a random UUID), the file's name (`unknown` when it has none that
    /// is valid text), its size, the SHA-256 of the content in lower-case
    /// hexadecimal, and the destination.
    pub fn prepare_request(
        hash: &Sha256Stream,
        file_name: Option<String>,
        file_size: u64,
        dest_path: &str,
    ) -> (r: FileTransferRequest)
        ensures
            r.file_name@ == (match file_name {
                Some(n) => n@,
                None => "unknown"@,
            }),
            r.file_size == file_size,
            r.sha256_hash@ == stream_hex(*hash),
            r.destination_path@ == dest_path@,
            is_uuid_v4_text(r.transfer_id@),
    {
        let file_name = match file_name {
            Some(n) => n,
            None => "unknown".to_string(),
        };
        FileTransferRequest {
            transfer_id: random_uuid(),
            file_name,
            file_size,
            sha256_hash: stream_hex_digest(hash),
            destination_path: dest_path.to_string(),
        }
    }
}

/// Where a file being sent stands: the next offset, and whether the last
/// piece went out.
pub struct ChunkCursor {
    pub transfer_id: String,
    pub offset: u64,
    pub done: bool,
}

impl ChunkCursor {
    /// Sending starts at offset 0.
    pub fn new(transfer_id: String) -> (c: Self)
        ensures
            c.transfer_id == transfer_id,
            c.offset == 0,
            !c.done,
    {
        ChunkCursor { transfer_id, offset: 0, done: false }
    }

    /// Turns what one read of the file returned into the next piece: none
    /// at the end of the file; a piece shorter than 64 KiB is the last.
    pub fn next_chunk(&mut self, data: Vec<u8>) -> (r: Option<FileChunk>)
        requires
            data@.len() <= CHUNK_SIZE,
            !old(self).done,
        ensures
            final(self).transfer_id == old(self).transfer_id,
            data@.len() == 0 ==> r is None && final(self).done && final(self).offset == old(self).offset,
            data@.len() > 0 ==> ({
                let last = data@.len() < CHUNK_SIZE;
                &&& r matches Some(c)
                &&& c.transfer_id@ == old(self).transfer_id@
                &&& c.offset == old(self).offset
                &&& c.data == data
                &&& c.last_chunk == last
                &&& final(self).offset == (if old(self).offset + data@.len() > u64::MAX {
                    u64::MAX
                } else {
                    (old(self).offset + data@.len()) as u64
                })
                &&& final(self).done == last
            }),
    {
        let n = data.len();
        if n == 0 {
            self.done = true;
            return None;
        }
        let last_chunk = n < CHUNK_SIZE;
        let chunk = FileChunk {
            transfer_id: self.transfer_id.clone(),
            offset: self.offset,
            data,
            last_chunk,
        };
        self.offset = self.offset.saturating_add(n as u64);
        self.done = last_chunk;
        Some(chunk)
    }
}

impl PathError {
    /// `Path '<path>' is not in any allowed directory`, `displayed` being how
    /// the requested path is shown.
    pub fn message(&self, displayed: &str) -> (m: String)
        ensures
            m@ == "Path '"@ + displayed@ + "' is not in any allowed directory"@,
    {
        let mut m = "Path '".to_string();
        m.append(displayed);
        m.append("' is not in any allowed directory");
        m
    }
}

/// One transfer being received.
struct ReceivingTransfer {
    transfer_id: String,
    expected_hash: String,
    hasher: Sha256Stream,
    bytes_received: u64,
}

/// What is known of a transfer: the expected hash, the bytes received, and
/// their count.
pub open spec fn transfer_state(expected_hash: Seq<char>, received: Seq<u8>, bytes_received: u64) -> (Seq<char>, Seq<u8>, u64) {
    (expected_hash, received, bytes_received)
}

spec fn state_of(t: ReceivingTransfer) -> (Seq<char>, Seq<u8>, u64) {
    (t.expected_hash@, stream_input(t.hasher), t.bytes_received)
}

spec fn ids_unique(ts: Seq<ReceivingTransfer>) -> bool {
    forall|i: int, j: int|
        0 <= i < ts.len() && 0 <= j < ts.len() && i != j ==> #[trigger] ts[i].transfer_id@
            != #[trigger] ts[j].transfer_id@
}

spec fn has_id(ts: Seq<ReceivingTransfer>, k: Seq<char>) -> bool {
    exists|i: int| 0 <= i < ts.len() && #[trigger] ts[i].transfer_id@ == k
}

spec fn index_of(ts: Seq<ReceivingTransfer>, k: Seq<char>) -> int {
    choose|i: int| 0 <= i < ts.len() && #[trigger] ts[i].transfer_id@ == k
}

spec fn table(ts: Seq<ReceivingTransfer>) -> Map<Seq<char>, (Seq<char>, Seq<u8>, u64)> {
    Map::new(|k: Seq<char>| has_id(ts, k), |k: Seq<char>| state_of(ts[index_of(ts, k)]))
}

proof fn lemma_lookup(ts: Seq<ReceivingTransfer>, i: int)
    requires
        ids_unique(ts),
        0 <= i < ts.len(),
    ensures
        table(ts).contains_key(ts[i].transfer_id@),
        table(ts)[ts[i].transfer_id@] == state_of(ts[i]),
{
    let k = ts[i].transfer_id@;
    assert(has_id(ts, k));
    let j = index_of(ts, k);
    assert(ts[j].transfer_id@ == k);
    if j != i {
        assert(ts[i].transfer_id@ != ts[j].transfer_id@);
    }
}

proof fn lemma_remove(ts: Seq<ReceivingTransfer>, i: int)
    requires
        ids_unique(ts),
        0 <= i < ts.len(),
    ensures
        ids_unique(ts.remove(i)),
        table(ts.remove(i)) == table(ts).remove(ts[i].transfer_id@),
{
    let r = ts.remove(i);
    let k = ts[i].transfer_id@;
    assert forall|a: int, b: int|
        0 <= a < r.len() && 0 <= b < r.len() && a != b implies #[trigger] r[a].transfer_id@
            != #[trigger] r[b].transfer_id@ by {
        let a2 = if a < i { a } else { a + 1 };
        let b2 = if b < i { b } else { b + 1 };
        assert(r[a] == ts[a2]);
        assert(r[b] == ts[b2]);
    }
    assert forall|q: Seq<char>| #[trigger] table(r).contains_key(q) <==> table(ts).remove(k).contains_key(q) by {
        if has_id(r, q) {
            let a = choose|a: int| 0 <= a < r.len() && #[trigger] r[a].transfer_id@ == q;
            let a2 = if a < i { a } else { a + 1 };
            assert(r[a] == ts[a2]);
            assert(ts[a2].transfer_id@ == q);
            assert(a2 != i);
            assert(q != k);
        }
        if has_id(ts, q) && q != k {
            let a = choose|a: int| 0 <= a < ts.len() && #[trigger] ts[a].transfer_id@ == q;
            assert(a != i);
            let a1 = if a < i { a } else { a - 1 };
            assert(r[a1] == ts[a]);
            assert(has_id(r, q));
        }
    }
    assert forall|q: Seq<char>| #[trigger] table(r).contains_key(q) implies table(r)[q] == table(ts).remove(k)[q] by {
        let a = index_of(r, q);
        assert(r[a].transfer_id@ == q);
        let a2 = if a < i { a } else { a + 1 };
        assert(r[a] == ts[a2]);
        lemma_lookup(ts, a2);
    }
    assert(table(r) =~= table(ts).remove(k));
}

proof fn lemma_push(ts: Seq<ReceivingTransfer>, x: ReceivingTransfer)
    requires
        ids_unique(ts),
        !table(ts).contains_key(x.transfer_id@),
    ensures
        ids_unique(ts.push(x)),
        table(ts.push(x)) == table(ts).insert(x.transfer_id@, state_of(x)),
{
    let p = ts.push(x);
    let k = x.transfer_id@;
    assert forall|a: int, b: int|
        0 <= a < p.len() && 0 <= b < p.len() && a != b implies #[trigger] p[a].transfer_id@
            != #[trigger] p[b].transfer_id@ by {
        if a == ts.len() {
            assert(p[b] == ts[b]);
            if ts[b].transfer_id@ == k {
                assert(has_id(ts, k));
            }
        } else if b == ts.len() {
            assert(p[a] == ts[a]);
            if ts[a].transfer_id@ == k {
                assert(has_id(ts, k));
            }
        } else {
            assert(p[a] == ts[a] && p[b] == ts[b]);
        }
    }
    assert forall|q: Seq<char>| #[trigger] table(p).contains_key(q) <==> table(ts).insert(k, state_of(x)).contains_key(q) by {
        if has_id(p, q) {
            let a = choose|a: int| 0 <= a < p.len() && #[trigger] p[a].transfer_id@ == q;
            if a < ts.len() {
                assert(p[a] == ts[a]);
                assert(has_id(ts, q));
            }
        }
        if has_id(ts, q) {
            let a = choose|a: int| 0 <= a < ts.len() && #[trigger] ts[a].transfer_id@ == q;
            assert(p[a] == ts[a]);
            assert(has_id(p, q));
        }
        if q == k {
            assert(p[ts.len() as int] == x);
            assert(has_id(p, q));
        }
    }
    assert forall|q: Seq<char>| #[trigger] table(p).contains_key(q) implies table(p)[q] == table(ts).insert(k, state_of(x))[q] by {
        let a = index_of(p, q);
        assert(p[a].transfer_id@ == q);
        lemma_lookup(p, a);
        if a < ts.len() {
            assert(p[a] == ts[a]);
            lemma_lookup(ts, a);
        } else {
            assert(p[a] == x);
        }
    }
    assert(table(p) =~= table(ts).insert(k, state_of(x)));
}

/// Why a chunk was not accepted.
pub enum ReceiveError {
    /// No transfer has this id.
    UnknownTransfer(String),
    /// The received content does not have the announced SHA-256.
    HashMismatch { expected: String, got: String },
}

impl ReceiveError {
    /// `Unknown transfer: <id>` or `Hash mismatch: expected <e>, got <h>`.
    pub fn message(&self) -> (m: String)
        ensures
            match self {
                ReceiveError::UnknownTransfer(id) => m@ == "Unknown transfer: "@ + id@,
                ReceiveError::HashMismatch { expected, got } => m@ == "Hash mismatch: expected "@
                    + expected@ + ", got "@ + got@,
            },
    {
        match self {
            ReceiveError::UnknownTransfer(id) => {
                let mut m = "Unknown transfer: ".to_string();
                m.append(id.as_str());
                m
            },
            ReceiveError::HashMismatch { expected, got } => {
                let mut m = "Hash mismatch: expected ".to_string();
                m.append(expected.as_str());
                m.append(", got ");
                m.append(got.as_str());
                m
            },
        }
    }
}

/// `a + b`, saturating at `u64::MAX`.
pub open spec fn saturating(a: u64, b: int) -> u64 {
    if a + b > u64::MAX {
        u64::MAX
    } else {
        (a + b) as u64
    }
}

/// The transfers being received, by id; each id occurs once.
pub struct FileReceiver {
    transfers: Vec<ReceivingTransfer>,
}

impl FileReceiver {
    /// The receiver's invariant: no transfer id occurs twice.
    pub closed spec fn wf(&self) -> bool {
        ids_unique(self.transfers@)
    }

    /// Each transfer: (expected hash, bytes received so far, their count).
    pub closed spec fn transfers(&self) -> Map<Seq<char>, (Seq<char>, Seq<u8>, u64)> {
        table(self.transfers@)
    }

    /// No transfer in progress.
    pub fn new() -> (r: Self)
        ensures
            r.wf(),
            r.transfers() == Map::<Seq<char>, (Seq<char>, Seq<u8>, u64)>::empty(),
    {
        let r = FileReceiver { transfers: Vec::new() };
        assert(r.transfers() =~= Map::<Seq<char>, (Seq<char>, Seq<u8>, u64)>::empty());
        r
    }

    fn find(&self, transfer_id: &str) -> (r: Option<usize>)
        requires
            self.wf(),
        ensures
            match r {
                Some(i) => i < self.transfers@.len() && self.transfers@[i as int].transfer_id@
                    == transfer_id@,
                None => !self.transfers().contains_key(transfer_id@),
            },
    {
        let mut i: usize = 0;
        while i < self.transfers.len()
            invariant
                i <= self.transfers@.len(),
                forall|j: int| 0 <= j < i ==> #[trigger] self.transfers@[j].transfer_id@ != transfer_id@,
            decreases self.transfers@.len() - i,
        {
            if str_eq(self.transfers[i].transfer_id.as_str(), transfer_id) {
                return Some(i);
            }
            i += 1;
        }
        None
    }

    /// Starts receiving a transfer whose content must hash to
    /// `expected_hash`; a transfer with the same id starts over.
    pub fn start_receive(&mut self, transfer_id: String, expected_hash: String)
        requires
            old(self).wf(),
        ensures
            final(self).wf(),
            final(self).transfers() == old(self).transfers().insert(
                transfer_id@,
                transfer_state(expected_hash@, Seq::empty(), 0),
            ),
    {
        match self.find(transfer_id.as_str()) {
            Some(i) => {
                proof {
                    lemma_remove(self.transfers@, i as int);
                }
                self.transfers.remove(i);
            },
            None => {},
        }
        let t = ReceivingTransfer {
            transfer_id,
            expected_hash,
            hasher: sha256_stream_new(),
            bytes_received: 0,
        };
        proof {
            lemma_push(self.transfers@, t);
        }
        self.transfers.push(t);
        assert(self.transfers() =~= old(self).transfers().insert(
            t.transfer_id@,
            transfer_state(t.expected_hash@, Seq::empty(), 0),
        ));
    }

    /// Takes in the next piece of a transfer. A piece of an unknown transfer
    /// is refused. After the last piece the transfer ends, and the SHA-256
    /// of everything received, in lower-case hexadecimal, is returned when it
    /// is the expected one and reported as a mismatch otherwise.
    pub fn receive_chunk(&mut self, transfer_id: &str, data: &[u8], is_last: bool) -> (r: Result<Option<String>, ReceiveError>)
        requires
            old(self).wf(),
        ensures
            final(self).wf(),
            !old(self).transfers().contains_key(transfer_id@) ==> {
                &&& r matches Err(ReceiveError::UnknownTransfer(id)) && id@ == transfer_id@
                &&& final(self).transfers() == old(self).transfers()
            },
            old(self).transfers().contains_key(transfer_id@) ==> ({
                let t = old(self).transfers()[transfer_id@];
                let received = t.1 + data@;
                let hash = hex_lower(sha256(received));
                if !is_last {
                    &&& r matches Ok(None)
                    &&& final(self).transfers() == old(self).transfers().insert(
                        transfer_id@,
                        transfer_state(t.0, received, saturating(t.2, data@.len() as int)),
                    )
                } else {
                    &&& final(self).transfers() == old(self).transfers().remove(transfer_id@)
                    &&& hash == t.0 ==> (r matches Ok(Some(h)) && h@ == hash)
                    &&& hash != t.0 ==> (r matches Err(ReceiveError::HashMismatch { expected, got })
                        && expected@ == t.0 && got@ == hash)
                }
            }),
    {
        let i = match self.find(transfer_id) {
            Some(i) => i,
            None => {
                return Err(ReceiveError::UnknownTransfer(transfer_id.to_string()));
            },
        };
        proof {
            lemma_lookup(self.transfers@, i as int);
            lemma_remove(self.transfers@, i as int);
        }
        let mut t = self.transfers.remove(i);
        sha256_stream_update(&mut t.hasher, data);
        t.bytes_received = t.bytes_received.saturating_add(data.len() as u64);
        if is_last {
            let hash = stream_hex_digest(&t.hasher);
            if hash == t.expected_hash {
                Ok(Some(hash))
            } else {
                Err(ReceiveError::HashMismatch { expected: t.expected_hash, got: hash })
            }
        } else {
            proof {
                lemma_push(self.transfers@, t);
            }
            self.transfers.push(t);
            assert(self.transfers() =~= old(self).transfers().insert(
                transfer_id@,
                state_of(t),
            ));
            Ok(None)
        }
    }
}

/// A file transfer message on the `file` data channel.
pub enum FileTransferPayload {
    Request(FileTransferRequest),
    Accept { transfer_id: String },
    Reject { transfer_id: String, reason: String },
    Chunk(FileChunk),
    Complete { transfer_id: String, sha256_hash: String },
    Error { transfer_id: String, error: String },
    Cancel { transfer_id: String },
}

impl FileReceiver {
    /// Answers a request whose destination was accepted: when the file could
    /// be created (`created` is `Ok`), the transfer starts and is accepted;
    /// otherwise it is rejected with the reason given.
    pub fn request_accepted(
        &mut self,
        transfer_id: String,
        sha256_hash: String,
        created: Result<(), String>,
    ) -> (reply: FileTransferPayload)
        requires
            old(self).wf(),
        ensures
            final(self).wf(),
            match created {
                Ok(()) => final(self).transfers() == old(self).transfers().insert(
                    transfer_id@,
                    transfer_state(sha256_hash@, Seq::empty(), 0),
                ) && reply == FileTransferPayload::Accept { transfer_id },
                Err(reason) => final(self).transfers() == old(self).transfers() && reply
                    == FileTransferPayload::Reject { transfer_id, reason },
            },
    {
        match created {
            Ok(()) => {
                self.start_receive(transfer_id.clone(), sha256_hash);
                FileTransferPayload::Accept { transfer_id }
            },
            Err(reason) => FileTransferPayload::Reject { transfer_id, reason },
        }
    }

    /// Takes in a piece whose data was written to the file, and gives the
    /// reply: `Complete` with the hash after a verified last piece, `Error`
    /// with the reason when the piece is refused, nothing otherwise.
    pub fn handle_chunk(&mut self, chunk: FileChunk) -> (reply: Option<FileTransferPayload>)
        requires
            old(self).wf(),
        ensures
            final(self).wf(),
            !old(self).transfers().contains_key(chunk.transfer_id@) ==> {
                &&& reply matches Some(FileTransferPayload::Error { transfer_id, error })
                &&& transfer_id == chunk.transfer_id
                &&& error@ == "Unknown transfer: "@ + chunk.transfer_id@
                &&& final(self).transfers() == old(self).transfers()
            },
            old(self).transfers().contains_key(chunk.transfer_id@) ==> ({
                let t = old(self).transfers()[chunk.transfer_id@];
                let received = t.1 + chunk.data@;
                let hash = hex_lower(sha256(received));
                if !chunk.last_chunk {
                    &&& reply is None
                    &&& final(self).transfers() == old(self).transfers().insert(
                        chunk.transfer_id@,
                        transfer_state(t.0, received, saturating(t.2, chunk.data@.len() as int)),
                    )
                } else {
                    &&& final(self).transfers() == old(self).transfers().remove(chunk.transfer_id@)
                    &&& hash == t.0 ==> (reply matches Some(
                        FileTransferPayload::Complete { transfer_id, sha256_hash },
                    ) && transfer_id == chunk.transfer_id && sha256_hash@ == hash)
                    &&& hash != t.0 ==> (reply matches Some(
                        FileTransferPayload::Error { transfer_id, error },
                    ) && transfer_id == chunk.transfer_id && error@ == "Hash mismatch: expected "@
                        + t.0 + ", got "@ + hash)
                }
            }),
    {
        match self.receive_chunk(chunk.transfer_id.as_str(), chunk.data.as_slice(), chunk.last_chunk) {
            Ok(Some(hash)) => Some(
                FileTransferPayload::Complete { transfer_id: chunk.transfer_id, sha256_hash: hash },
            ),
            Ok(None) => None,
            Err(e) => {
                let error = e.message();
                Some(FileTransferPayload::Error { transfer_id: chunk.transfer_id, error })
            },
        }
    }
}

/// The reason given when the host denies a file.
pub open spec fn denied_by_host_text() -> Seq<char> {
    "Denied by host"@
}

/// The reason given when the host does not answer in time.
pub open spec fn no_answer_text() -> Seq<char> {
    "No answer from host"@
}

/// Where a file request whose destination was accepted stands while the
/// host is asked to allow it.
pub enum RequestStep {
    /// The host allowed it: create the file, then `request_accepted`.
    Create,
    /// The host has not answered yet.
    Wait,
    /// Answer the viewer with this rejection; no file is created.
    Reply(FileTransferPayload),
}

/// The host's answer (0 undecided, 1 allow, 2 deny) to the prompt for the
/// file `transfer_id`, after `waited_ms`: allowed, denied, or denied for want
/// of an answer after 30 s, or still waiting.
pub fn request_step(transfer_id: &str, decision: u8, waited_ms: u64) -> (s: RequestStep)
    ensures
        match approval_spec(decision, waited_ms) {
            ApprovalStep::Allow => s is Create,
            ApprovalStep::Wait => s is Wait,
            ApprovalStep::Deny => s matches RequestStep::Reply(
                FileTransferPayload::Reject { transfer_id: id, reason },
            ) && id@ == transfer_id@ && reason@ == (if decision == 2 {
                denied_by_host_text()
            } else {
                no_answer_text()
            }),
        },
{
    match approval_step(decision, waited_ms) {
        ApprovalStep::Allow => RequestStep::Create,
        ApprovalStep::Wait => RequestStep::Wait,
        ApprovalStep::Deny => {
            let reason = if decision == 2 {
                "Denied by host".to_string()
            } else {
                "No answer from host".to_string()
            };
            RequestStep::Reply(FileTransferPayload::Reject { transfer_id: transfer_id.to_string(), reason })
        },
    }
}

/// Law: no file is created without the host's consent: a request goes on
/// to creating the file only when the host answered "allow", and an
/// unanswered request is rejected once 30 s have passed.
pub proof fn law_file_needs_consent(decision: u8, waited_ms: u64)
    ensures
        approval_spec(decision, waited_ms) is Allow <==> decision == 1,
        decision != 1 && decision != 2 && waited_ms >= APPROVAL_TIMEOUT_MS ==> approval_spec(
            decision,
            waited_ms,
        ) is Deny,
{
}

/// Rejects a request whose destination is outside the allowed directories,
/// `path_message` describing the refused path.
pub fn request_refused(transfer_id: String, path_message: &str) -> (reply: FileTransferPayload)
    ensures
        reply matches FileTransferPayload::Reject { transfer_id: id, reason } && id == transfer_id
            && reason@ == "Access denied: "@ + path_message@,
{
    let mut reason = "Access denied: ".to_string();
    reason.append(path_message);
    FileTransferPayload::Reject { transfer_id, reason }
}

/// The content of the pieces, in order.
pub open spec fn concat(pieces: Seq<Seq<u8>>) -> Seq<u8>
    decreases pieces.len(),
{
    if pieces.len() == 0 {
        Seq::empty()
    } else {
        concat(pieces.drop_last()) + pieces.last()
    }
}

/// A transfer's state after a piece that is not the last.
pub open spec fn after_piece(t: (Seq<char>, Seq<u8>, u64), data: Seq<u8>) -> (Seq<char>, Seq<u8>, u64) {
    transfer_state(t.0, t.1 + data, saturating(t.2, data.len() as int))
}

/// A transfer's state after a series of pieces, none of them the last.
pub open spec fn after_pieces(t: (Seq<char>, Seq<u8>, u64), pieces: Seq<Seq<u8>>) -> (Seq<char>, Seq<u8>, u64)
    decreases pieces.len(),
{
    if pieces.len() == 0 {
        t
    } else {
        after_piece(after_pieces(t, pieces.drop_last()), pieces.last())
    }
}

/// Law: the hash checked at the last piece of a transfer is the SHA-256 of
/// exactly what came in all its pieces, in order, and is compared with the
/// hash announced when the transfer started; the byte count is the total
/// size when it fits in 64 bits.
pub proof fn law_hash_covers_all_pieces(expected: Seq<char>, pieces: Seq<Seq<u8>>, last: Seq<u8>)
    ensures
        ({
            let t = after_pieces(transfer_state(expected, Seq::empty(), 0), pieces);
            &&& t.0 == expected
            &&& t.1 + last == concat(pieces.push(last))
            &&& concat(pieces).len() <= u64::MAX ==> t.2 == concat(pieces).len()
        }),
    decreases pieces.len(),
{
    let t0 = transfer_state(expected, Seq::<u8>::empty(), 0);
    if pieces.len() > 0 {
        let d = pieces.drop_last();
        let x = pieces.last();
        law_hash_covers_all_pieces(expected, d, x);
        assert(d.push(x) =~= pieces);
        assert(pieces.push(last).drop_last() =~= pieces);
        assert(pieces.push(last).last() == last);
        let td = after_pieces(t0, d);
        assert(after_pieces(t0, pieces) == after_piece(td, x));
        assert(td.1 + x == concat(pieces));
        assert(concat(pieces.push(last)) == concat(pieces) + last);
        assert(concat(pieces) == concat(d) + x);
    } else {
        assert(pieces.push(last).drop_last() =~= pieces);
        assert(pieces.push(last).last() == last);
        assert(pieces.push(last).drop_last() =~= pieces);
        assert(Seq::<u8>::empty() + last =~= last);
        assert(after_pieces(t0, pieces) == t0);
        assert(concat(pieces) =~= Seq::<u8>::empty());
        assert(concat(pieces.push(last)) == concat(pieces) + last);
        assert(concat(pieces.push(last)) =~= last);
    }
    assert(after_pieces(t0, pieces).1 + last =~= concat(pieces.push(last)));
}

/// Law: a transfer received over any number of pieces. `states` are the
/// receiver's transfers before and after each of the pieces that are not
/// the last, each step being what `receive_chunk` does with such a piece
/// (the transfer's bytes and count extended, the other transfers kept).
/// Then the transfer holds exactly the pieces' content, in order, its
/// announced hash, and their total size when it fits in 64 bits; the last
/// piece is then checked against that hash (`law_hash_covers_all_pieces`).
pub proof fn law_pieces_received_in_order(
    states: Seq<Map<Seq<char>, (Seq<char>, Seq<u8>, u64)>>,
    id: Seq<char>,
    expected: Seq<char>,
    pieces: Seq<Seq<u8>>,
)
    requires
        states.len() == pieces.len() + 1,
        states[0].contains_key(id),
        states[0][id] == transfer_state(expected, Seq::empty(), 0),
        forall|i: int|
            0 <= i < pieces.len() ==> #[trigger] states[i + 1] == states[i].insert(
                id,
                after_piece(states[i][id], pieces[i]),
            ),
    ensures
        states.last().contains_key(id),
        states.last()[id] == after_pieces(transfer_state(expected, Seq::empty(), 0), pieces),
        states.last()[id].0 == expected,
        states.last()[id].1 == concat(pieces),
        concat(pieces).len() <= u64::MAX ==> states.last()[id].2 == concat(pieces).len(),
    decreases pieces.len(),
{
    let t0 = transfer_state(expected, Seq::<u8>::empty(), 0);
    if pieces.len() == 0 {
        assert(concat(pieces) =~= Seq::<u8>::empty());
        assert(t0.1 =~= Seq::<u8>::empty());
    } else {
        let n = pieces.len() - 1;
        let d = pieces.drop_last();
        let sd = states.drop_last();
        assert forall|i: int| 0 <= i < d.len() implies #[trigger] sd[i + 1] == sd[i].insert(
            id,
            after_piece(sd[i][id], d[i]),
        ) by {
            assert(states[i + 1] == states[i].insert(id, after_piece(states[i][id], pieces[i])));
        }
        law_pieces_received_in_order(sd, id, expected, d);
        assert(states[n + 1] == states[n].insert(id, after_piece(states[n][id], pieces[n])));
        assert(sd.last() == states[n]);
        law_hash_covers_all_pieces(expected, d, pieces.last());
        assert(d.push(pieces.last()) =~= pieces);
        assert(after_pieces(t0, pieces) == after_piece(after_pieces(t0, d), pieces.last()));
    }
}

} // verus!
