//! The decisions of a FUSE file system node: which request bytes it sends
//! to the daemon for each operation, and what it makes of the reply.
//!
//! Every operation is a pair: a `*_request` function that builds the bytes
//! of the request from the node's state, and a function under the
//! operation's own name that takes the daemon's reply, updates the node's
//! state and gives the operation's result. Carrying the bytes over the
//! channel and waiting for the reply is left to the caller.

use vstd::prelude::*;
use crate::le::{
    splice, zeros, zero_bytes, put_bytes, subrange_vec, append_bytes, u32_at, u64_at, read_u32, le_u32,
    le_u64, lemma_u32_at_le, lemma_u64_at_le,
};
use crate::fuse_st::{
    FuseOpcode, FuseInHeader, FuseOutHeader, FuseInitIn, FuseInitOut, FuseAttr, FuseAttrOut,
    FuseEntryOut, FuseOpenIn, FuseOpenOut, FuseReadIn, FuseWriteIn, FuseWriteOut, FuseGetattrIn,
    FuseReleaseIn, FuseFlushIn, FuseMknodIn, FuseMkdirIn, FuseRenameIn, FuseRename2In,
    FuseAccessIn, FuseCreateIn, FuseDirent, DirentView, dirent_fits, dirent_record_len, lemma_dirent_record_len,
};
use crate::types::{NodeType, FsError, NodeAttr, DirEntry};

verus! {

/// The byte value of `/`.
pub open spec fn slash() -> u8 {
    47u8
}

/// The index of the first byte at or after `i` that is not a `/`.
pub open spec fn skip_slashes_from(s: Seq<u8>, i: int) -> int
    decreases s.len() - i,
{
    if 0 <= i < s.len() && s[i] == slash() {
        skip_slashes_from(s, i + 1)
    } else {
        i
    }
}

/// The index of the first `/` at or after `i`, or the length of `s`.
pub open spec fn first_slash_from(s: Seq<u8>, i: int) -> int
    decreases s.len() - i,
{
    if i < 0 || i >= s.len() {
        s.len() as int
    } else if s[i] == slash() {
        i
    } else {
        first_slash_from(s, i + 1)
    }
}

/// `s` without its leading slashes.
pub open spec fn trim_start_slashes(s: Seq<u8>) -> Seq<u8> {
    s.skip(skip_slashes_from(s, 0))
}

/// A path without its leading slashes, split at the first remaining slash
/// into the first component and, where there is a slash, the rest.
pub open spec fn spec_split_path(path: Seq<u8>) -> (Seq<u8>, Option<Seq<u8>>) {
    let t = trim_start_slashes(path);
    let n = first_slash_from(t, 0);
    if n < t.len() {
        (t.take(n), Some(t.skip(n + 1)))
    } else {
        (t, None)
    }
}

proof fn lemma_skip_slashes_bounds(s: Seq<u8>, i: int)
    requires
        0 <= i <= s.len(),
    ensures
        i <= skip_slashes_from(s, i) <= s.len(),
        forall|j: int| i <= j < skip_slashes_from(s, i) ==> s[j] == slash(),
        skip_slashes_from(s, i) < s.len() ==> s[skip_slashes_from(s, i)] != slash(),
    decreases s.len() - i,
{
    if i < s.len() && s[i] == slash() {
        lemma_skip_slashes_bounds(s, i + 1);
    }
}

proof fn lemma_first_slash_bounds(s: Seq<u8>, i: int)
    requires
        0 <= i <= s.len(),
    ensures
        i <= first_slash_from(s, i) <= s.len(),
        forall|j: int| i <= j < first_slash_from(s, i) ==> s[j] != slash(),
        first_slash_from(s, i) < s.len() ==> s[first_slash_from(s, i)] == slash(),
    decreases s.len() - i,
{
    if i < s.len() && s[i] != slash() {
        lemma_first_slash_bounds(s, i + 1);
    }
}

/// How a path splits: the path is a run of slashes followed by the trimmed
/// path, which does not start with a slash; the trimmed path is the first
/// component, then, where there is a rest, a slash and the rest; the first
/// component holds no slash, and is not empty where there is a rest.
pub proof fn lemma_split_path(path: Seq<u8>)
    ensures
        ({
            let (part, rest) = spec_split_path(path);
            let t = trim_start_slashes(path);
            let k = path.len() - t.len();
            &&& 0 <= k
            &&& path.skip(k) == t
            &&& forall|j: int| 0 <= j < k ==> path[j] == slash()
            &&& t.len() > 0 ==> t[0] != slash()
            &&& t == match rest {
                Some(r) => part + seq![slash()] + r,
                None => part,
            }
            &&& forall|j: int| 0 <= j < part.len() ==> part[j] != slash()
            &&& rest is Some ==> part.len() > 0
        }),
{
    lemma_skip_slashes_bounds(path, 0);
    let t = trim_start_slashes(path);
    lemma_first_slash_bounds(t, 0);
    let n = first_slash_from(t, 0);
    if n < t.len() {
        assert(t =~= t.take(n) + seq![slash()] + t.skip(n + 1));
    }
}

/// The index of the first byte that is not a slash.
fn skip_slashes(s: &[u8]) -> (r: usize)
    ensures
        r == skip_slashes_from(s@, 0),
{
    let n = s.len();
    let mut i: usize = 0;
    while i < n && s[i] == 47u8
        invariant
            n == s@.len(),
            0 <= i <= n,
            skip_slashes_from(s@, 0) == skip_slashes_from(s@, i as int),
        decreases n - i,
    {
        i = i + 1;
    }
    i
}

/// The index of the first slash at or after `start`, or the length.
fn find_slash(s: &[u8], start: usize) -> (r: usize)
    requires
        start <= s@.len(),
    ensures
        r == first_slash_from(s@, start as int),
{
    let n = s.len();
    let mut i: usize = start;
    while i < n && s[i] != 47u8
        invariant
            n == s@.len(),
            start <= i <= n,
            first_slash_from(s@, start as int) == first_slash_from(s@, i as int),
        decreases n - i,
    {
        i = i + 1;
    }
    i
}

/// Splits a path, without its leading slashes, at the first remaining
/// slash: the first component and, where there is a slash, the rest.
pub fn split_path(path: &[u8]) -> (r: (Vec<u8>, Option<Vec<u8>>))
    ensures
        r.0@ == spec_split_path(path@).0,
        r.1 is Some <==> spec_split_path(path@).1 is Some,
        r.1 matches Some(rest) ==> rest@ == spec_split_path(path@).1.unwrap(),
{
    let k = skip_slashes(path);
    proof {
        lemma_skip_slashes_bounds(path@, 0);
    }
    let t = subrange_vec(path, k, path.len());
    assert(t@ =~= trim_start_slashes(path@));
    let n = find_slash(t.as_slice(), 0);
    proof {
        lemma_first_slash_bounds(t@, 0);
    }
    if n < t.len() {
        let first = subrange_vec(t.as_slice(), 0, n);
        let rest = subrange_vec(t.as_slice(), n + 1, t.len());
        assert(first@ =~= t@.take(n as int));
        assert(rest@ =~= t@.skip(n + 1));
        (first, Some(rest))
    } else {
        (t, None)
    }
}

/// The sets of error codes that an operation tells apart; every other
/// negative code is reported as `PermissionDenied`.
#[derive(Debug, Clone, Copy, PartialEq, Eq, Structural)]
pub enum ErrorSet {
    /// `-13`, `-38`.
    Basic,
    /// `-13`, `-20`, `-38`: opening and releasing directories.
    Dir,
    /// `-13`, `-21`, `-38`: opening, releasing and reading files.
    File,
    /// `-2`, `-13`, `-21`, `-38`: writing and unlinking files.
    FileWrite,
    /// `-13`, `-17`, `-38`: making nodes and directories, creating files.
    Create,
    /// `-2`, `-13`, `-20`, `-38`: removing directories.
    Rmdir,
    /// `-2`, `-13`, `-38`: renaming.
    Rename,
    /// `-2`, `-38`: looking up.
    Lookup,
    /// `-13`, `-20`, `-22`, `-38`: reading directories.
    Readdir,
}

/// The error that a negative reply code `e` stands for in an operation that
/// tells apart the codes in `set`.
pub open spec fn spec_map_errno(e: i32, set: ErrorSet) -> FsError {
    if e == -2 && (set == ErrorSet::FileWrite || set == ErrorSet::Rmdir || set == ErrorSet::Rename
        || set == ErrorSet::Lookup) {
        FsError::NotFound
    } else if e == -17 && set == ErrorSet::Create {
        FsError::AlreadyExists
    } else if e == -20 && (set == ErrorSet::Dir || set == ErrorSet::Rmdir || set
        == ErrorSet::Readdir) {
        FsError::NotADirectory
    } else if e == -21 && (set == ErrorSet::File || set == ErrorSet::FileWrite) {
        FsError::IsADirectory
    } else if e == -22 && set == ErrorSet::Readdir {
        FsError::InvalidInput
    } else if e == -38 {
        FsError::FunctionNotImplemented
    } else {
        FsError::PermissionDenied
    }
}

/// The error that a negative reply code `e` stands for in an operation that
/// tells apart the codes in `set`.
pub fn map_errno(e: i32, set: ErrorSet) -> (r: FsError)
    ensures
        r == spec_map_errno(e, set),
{
    if e == -2 && (set == ErrorSet::FileWrite || set == ErrorSet::Rmdir || set == ErrorSet::Rename
        || set == ErrorSet::Lookup) {
        FsError::NotFound
    } else if e == -17 && set == ErrorSet::Create {
        FsError::AlreadyExists
    } else if e == -20 && (set == ErrorSet::Dir || set == ErrorSet::Rmdir || set
        == ErrorSet::Readdir) {
        FsError::NotADirectory
    } else if e == -21 && (set == ErrorSet::File || set == ErrorSet::FileWrite) {
        FsError::IsADirectory
    } else if e == -22 && set == ErrorSet::Readdir {
        FsError::InvalidInput
    } else if e == -38 {
        FsError::FunctionNotImplemented
    } else {
        FsError::PermissionDenied
    }
}

/// The request header that a node sends: user and group 1000, no padding.
pub open spec fn in_header(len: u32, op: FuseOpcode, unique: u64, nodeid: u64, pid: u32) -> FuseInHeader {
    FuseInHeader {
        len: len,
        opcode: op.spec_code(),
        unique: unique,
        nodeid: nodeid,
        uid: 1000,
        gid: 1000,
        pid: pid,
        padding: 0,
    }
}

/// A request buffer of `size` bytes: the header written at the start,
/// zeros elsewhere.
pub open spec fn frame(size: nat, h: FuseInHeader) -> Seq<u8> {
    splice(zeros(size), 0, h.spec_bytes())
}

/// The buffer into which a reply of at most `cap` bytes is copied: the
/// reply, then zeros up to `cap`.
pub open spec fn padded(reply: Seq<u8>, cap: nat) -> Seq<u8> {
    reply + zeros((cap - reply.len()) as nat)
}

/// The header at the start of a reply buffer.
pub open spec fn reply_header(out: Seq<u8>) -> FuseOutHeader {
    FuseOutHeader::spec_read_at(out, 0)
}

/// The status that a node derives from a reply: 1 for success, else the
/// daemon's error code.
pub open spec fn reply_status(out: Seq<u8>) -> i32 {
    if reply_header(out).error == 0 {
        1
    } else {
        reply_header(out).error
    }
}

/// The outcome of an operation whose reply status is that of `out`: an error
/// for a negative status, else success.
pub open spec fn status_result(out: Seq<u8>, set: ErrorSet) -> Result<(), FsError> {
    let st = reply_status(out);
    if st < 0 {
        Err(spec_map_errno(st, set))
    } else {
        Ok(())
    }
}

/// Builds a request buffer: `size` zero bytes with the header written at
/// the start.
fn new_frame(size: usize, len: u32, op: FuseOpcode, unique: u64, nodeid: u64, pid: u32) -> (v: Vec<
    u8,
>)
    requires
        size >= 40,
    ensures
        v@ == frame(size as nat, in_header(len, op, unique, nodeid, pid)),
        v@.len() == size,
{
    let h = FuseInHeader::new(len, op.code(), unique, nodeid, 1000, 1000, pid, 0);
    let mut v = zero_bytes(size);
    let b = h.to_bytes();
    put_bytes(&mut v, 0, b.as_slice());
    v
}

/// Copies a reply into a zeroed buffer of `cap` bytes.
fn pad_reply(reply: &[u8], cap: usize) -> (v: Vec<u8>)
    requires
        reply@.len() <= cap,
    ensures
        v@ == padded(reply@, cap as nat),
{
    let mut v = zero_bytes(cap);
    put_bytes(&mut v, 0, reply);
    assert(v@ =~= padded(reply@, cap as nat));
    v
}

/// The status of a reply buffer mapped to the operation's outcome.
fn check_status(out: &[u8], set: ErrorSet) -> (r: Result<(), FsError>)
    requires
        out@.len() >= 16,
    ensures
        r == status_result(out@, set),
{
    let h = FuseOutHeader::read_from(out);
    let st = if h.is_ok() {
        1
    } else {
        h.error()
    };
    if st < 0 {
        Err(map_errno(st, set))
    } else {
        Ok(())
    }
}

/// The outcome of a reply that carries nothing but its header, copied into
/// a buffer of `cap` bytes.
fn simple_reply(reply: &[u8], cap: usize, set: ErrorSet) -> (r: Result<(), FsError>)
    requires
        16 <= cap,
        reply@.len() <= cap,
    ensures
        r == status_result(padded(reply@, cap as nat), set),
{
    let out = pad_reply(reply, cap);
    check_status(out.as_slice(), set)
}

/// The error code in the header of a reply copied into a buffer of `cap`
/// bytes.
pub fn reply_error(reply: &[u8], cap: usize) -> (r: i32)
    requires
        16 <= cap,
        reply@.len() <= cap,
    ensures
        r == reply_header(padded(reply@, cap as nat)).error,
{
    let out = pad_reply(reply, cap);
    FuseOutHeader::read_from(out.as_slice()).error()
}

/// Whether the directory records of a `READDIR` reply (at most 12000
/// bytes), from byte 16 on, all lie within the 12000-byte buffer that the
/// reply is copied into.
pub fn dirents_within(reply: &[u8]) -> (r: bool)
    requires
        reply@.len() <= 12000,
    ensures
        r == dirents_ok(padded(reply@, 12000), 16, reply@.len() as int),
{
    let out = pad_reply(reply, 12000);
    let end = reply.len();
    let mut offset: usize = 16;
    while offset < end
        invariant
            out@ == padded(reply@, 12000),
            out@.len() == 12000,
            end == reply@.len(),
            end <= 12000,
            16 <= offset <= 12007,
            dirents_ok(out@, 16, end as int) == dirents_ok(out@, offset as int, end as int),
        decreases 12007 - offset,
    {
        if offset + 24 > 12000 {
            return false;
        }
        let namelen = read_u32(out.as_slice(), offset + 16);
        if offset as u64 + 24 + namelen as u64 > 12000 {
            return false;
        }
        proof {
            lemma_dirent_record_len(namelen);
        }
        let len: u64 = ((24 + namelen as u64 + 7) / 8) * 8;
        offset = offset + len as usize;
    }
    true
}

/// The request id counter: each request takes the next id, two above the
/// previous one.
pub struct UniqueIds {
    pub last: u64,
}

impl UniqueIds {
    /// A counter that has handed out no id yet.
    pub fn new() -> (r: Self)
        ensures
            r.last == 0,
    {
        UniqueIds { last: 0 }
    }

    /// The id of the next request: two above the previous one.
    pub fn next(&mut self) -> (r: u64)
        requires
            old(self).last <= u64::MAX - 2,
        ensures
            r == old(self).last + 2,
            final(self).last == r,
    {
        self.last = self.last + 2;
        self.last
    }
}

/// The state of a FUSE file system node that its operations read and
/// change: node id, attributes, size, open flags and file handle.
#[derive(Debug, Clone, Copy)]
pub struct FuseNode {
    pub inode: u64,
    pub attr: FuseAttr,
    pub size: u64,
    pub flags: u32,
    pub fh: u64,
}

/// What a lookup leads to once the daemon has answered.
#[derive(Debug)]
pub enum LookupStep {
    /// Look up the rest of the path from the same node.
    Continue(Vec<u8>),
    /// The path names the node itself, whose state was updated.
    Current,
    /// The path names the node's parent.
    Parent,
    /// The path names a new child node with this state.
    Child(FuseNode),
}

/// How a create request is carried out.
#[derive(Debug)]
pub enum CreatePlan {
    /// A directory is wanted: make it with the whole path.
    Mkdir,
    /// Create the rest of the path from this same node.
    Here(Vec<u8>),
    /// Create the rest of the path from the parent node.
    InParent(Vec<u8>),
    /// Send a create request with the whole path.
    Create,
}

/// The entry in slot `idx` of a listing built from the daemon's entries
/// `dirs`: `.` and `..` first, then the daemon's entries from the same
/// index on; `None` past the end.
pub open spec fn spec_dir_slot(dirs: Seq<DirentView>, idx: int) -> Option<(Seq<u8>, NodeType)> {
    if idx == 0 {
        Some((seq![46u8], NodeType::Dir))
    } else if idx == 1 {
        Some((seq![46u8, 46u8], NodeType::Dir))
    } else if 0 <= idx < dirs.len() {
        Some((dirs[idx].name, NodeType::spec_from_dirent_type(dirs[idx].typ)))
    } else {
        None
    }
}

/// Whether the directory records from `off` up to `end` all lie within `s`.
pub open spec fn dirents_ok(s: Seq<u8>, off: int, end: int) -> bool
    decreases end - off,
{
    if off >= end {
        true
    } else {
        let next = off + dirent_record_len(u32_at(s, off + 16));
        proof {
            lemma_dirent_record_len(u32_at(s, off + 16));
        }
        dirent_fits(s, off) && (next >= end || dirents_ok(s, next, end))
    }
}

/// The directory records that start at `off` and before `end` in `s`.
pub open spec fn dirents_from(s: Seq<u8>, off: int, end: int) -> Seq<DirentView>
    decreases end - off,
{
    if off >= end || !dirent_fits(s, off) {
        Seq::empty()
    } else {
        let next = off + dirent_record_len(u32_at(s, off + 16));
        proof {
            lemma_dirent_record_len(u32_at(s, off + 16));
        }
        if next >= end {
            seq![DirentView::spec_read_at(s, off)]
        } else {
            seq![DirentView::spec_read_at(s, off)] + dirents_from(s, next, end)
        }
    }
}

impl FuseNode {
    /// A node with the given id, attributes, size and file handle; its open
    /// flags start as `0x8000`.
    pub fn new(inode: u64, attr: FuseAttr, size: u64, fh: u64) -> (r: Self)
        ensures
            r == (FuseNode { inode: inode, attr: attr, size: size, flags: 0x8000, fh: fh }),
    {
        FuseNode { inode, attr, size, flags: 0x8000, fh }
    }

    /// Whether the mode marks the node as a directory.
    pub open spec fn spec_is_dir(&self) -> bool {
        self.attr.mode & 0x4000 == 0x4000
    }

    /// Whether the mode marks the node as a directory (bit `0x4000`).
    pub fn is_dir(&self) -> (r: bool)
        ensures
            r == self.spec_is_dir(),
    {
        self.attr.get_mode() & 0x4000 == 0x4000
    }

    /// The open flags for a file, from the owner's permission bits.
    pub open spec fn spec_file_flags(&self) -> u32 {
        let m = self.attr.mode & 0x1c0;
        if m == 0x80 {
            0x8001
        } else if m == 0x100 {
            0x8000
        } else if m == 0x180 {
            0x8001
        } else if m == 0x1c0 {
            0x8002
        } else {
            0x8000
        }
    }

    /// The open flags for a file, from the owner's permission bits.
    pub fn file_flags(&self) -> (r: u32)
        ensures
            r == self.spec_file_flags(),
    {
        let m = self.attr.get_mode() & 0x1c0;
        if m == 0x80 {
            0x8001
        } else if m == 0x100 {
            0x8000
        } else if m == 0x180 {
            0x8001
        } else if m == 0x1c0 {
            0x8002
        } else {
            0x8000
        }
    }

    /// The open flags for a directory, from the owner's permission bits.
    pub open spec fn spec_dir_flags(&self) -> u32 {
        let m = self.attr.mode & 0x1c0;
        if m == 0x20 {
            0x18801
        } else if m == 0x40 {
            0x18800
        } else if m == 0x80 {
            0x18802
        } else {
            0x18800
        }
    }

    /// The open flags for a directory, from the owner's permission bits.
    pub fn dir_flags(&self) -> (r: u32)
        ensures
            r == self.spec_dir_flags(),
    {
        let m = self.attr.get_mode() & 0x1c0;
        if m == 0x20 {
            0x18801
        } else if m == 0x40 {
            0x18800
        } else if m == 0x80 {
            0x18802
        } else {
            0x18800
        }
    }

    // ---- INIT ----

    /// The `INIT` request: 104 bytes, node id 1, protocol 7.38, readahead
    /// `0x20000`, flags `0x33fffffb`.
    pub open spec fn spec_init_request(unique: u64, pid: u32) -> Seq<u8> {
        splice(
            frame(104, in_header(104, FuseOpcode::FUSE_INIT, unique, 1, pid)),
            40,
            FuseInitIn::new_spec(7, 38, 0x00020000, 0x33fffffb, 0).spec_bytes(),
        )
    }

    /// Builds the `INIT` request.
    pub fn init_request(unique: u64, pid: u32) -> (r: Vec<u8>)
        ensures
            r@ == Self::spec_init_request(unique, pid),
    {
        let mut v = new_frame(104, 104, FuseOpcode::FUSE_INIT, unique, 1, pid);
        let arg = FuseInitIn::new(7, 38, 0x00020000, 0x33fffffb, 0, [0u32; 11]);
        assert(arg.unused =~= FuseInitIn::new_spec(7, 38, 0x00020000, 0x33fffffb, 0).unused);
        assert(arg == FuseInitIn::new_spec(7, 38, 0x00020000, 0x33fffffb, 0));
        let b = arg.to_bytes();
        put_bytes(&mut v, 40, b.as_slice());
        v
    }

    /// Decodes the reply to `INIT` (at most 80 bytes): its header and the
    /// negotiated parameters that follow it.
    pub fn init(reply: &[u8]) -> (r: (FuseOutHeader, FuseInitOut))
        requires
            reply@.len() <= 80,
        ensures
            r.0 == reply_header(padded(reply@, 80)),
            r.1 == FuseInitOut::spec_read_at(padded(reply@, 80), 16),
    {
        let out = pad_reply(reply, 80);
        (FuseOutHeader::read_from(out.as_slice()), FuseInitOut::read_at(out.as_slice(), 16))
    }
}

impl FuseNode {
    /// The `RELEASEDIR` request: 64 bytes, the node's file handle, flags `0x18800`.
    pub open spec fn spec_release_dir_request(&self, unique: u64, pid: u32) -> Seq<u8> {
        splice(frame(64, in_header(64, FuseOpcode::FUSE_RELEASEDIR, unique, self.inode, pid)), 40, (FuseReleaseIn { fh: self.fh, flags: 0x18800, release_flags: 0, lock_owner: 0 }).spec_bytes())
    }

    /// Builds the request of `release_dir`.
    pub fn release_dir_request(&self, unique: u64, pid: u32) -> (r: Vec<u8>)
        ensures
            r@ == self.spec_release_dir_request(unique, pid),
    {
        let mut v = new_frame(64, 64, FuseOpcode::FUSE_RELEASEDIR, unique, self.inode, pid);
        let a = FuseReleaseIn::new(self.fh, 0x18800, 0, 0).to_bytes();
        put_bytes(&mut v, 40, a.as_slice());
        v
    }

    /// The outcome of `RELEASEDIR` from its reply (at most 16 bytes).
    pub fn release_dir(&self, reply: &[u8]) -> (r: Result<(), FsError>)
        requires
            reply@.len() <= 16,
        ensures
            r == status_result(padded(reply@, 16), ErrorSet::Dir),
    {
        simple_reply(reply, 16, ErrorSet::Dir)
    }

    /// The `FLUSH` request: 64 bytes, the node's file handle.
    pub open spec fn spec_flush_request(&self, unique: u64, pid: u32) -> Seq<u8> {
        splice(frame(64, in_header(64, FuseOpcode::FUSE_FLUSH, unique, self.inode, pid)), 40, (FuseFlushIn { fh: self.fh, unused: 0, padding: 0, lock_owner: 0 }).spec_bytes())
    }

    /// Builds the request of `flush`.
    pub fn flush_request(&self, unique: u64, pid: u32) -> (r: Vec<u8>)
        ensures
            r@ == self.spec_flush_request(unique, pid),
    {
        let mut v = new_frame(64, 64, FuseOpcode::FUSE_FLUSH, unique, self.inode, pid);
        let a = FuseFlushIn::new(self.fh, 0, 0, 0).to_bytes();
        put_bytes(&mut v, 40, a.as_slice());
        v
    }

    /// The outcome of `FLUSH` from its reply (at most 16 bytes).
    pub fn flush(&self, reply: &[u8]) -> (r: Result<(), FsError>)
        requires
            reply@.len() <= 16,
        ensures
            r == status_result(padded(reply@, 16), ErrorSet::Basic),
    {
        simple_reply(reply, 16, ErrorSet::Basic)
    }

    /// The `MKNOD` request: 180 bytes, mode `0x81a4`, the name at byte 56.
    pub open spec fn spec_mknod_request(&self, unique: u64, pid: u32, name: Seq<u8>) -> Seq<u8> {
        splice(splice(frame(180, in_header((57 + name.len()) as u32, FuseOpcode::FUSE_MKNOD, unique, self.inode, pid)), 40, (FuseMknodIn { mode: 0x81a4, rdev: 0, umask: 0, padding: 0 }).spec_bytes()), 56, name)
    }

    /// Builds the request of `mknod`.
    pub fn mknod_request(&self, unique: u64, pid: u32, name: &[u8]) -> (r: Vec<u8>)
        requires
            name@.len() <= 124,
        ensures
            r@ == self.spec_mknod_request(unique, pid, name@),
    {
        let mut v = new_frame(180, (57 + name.len()) as u32, FuseOpcode::FUSE_MKNOD, unique, self.inode, pid);
        let a = FuseMknodIn::new(0x81a4, 0, 0).to_bytes();
        put_bytes(&mut v, 40, a.as_slice());
        put_bytes(&mut v, 56, name);
        v
    }

    /// The outcome of `MKNOD` from its reply (at most 144 bytes).
    pub fn mknod(&self, reply: &[u8]) -> (r: Result<(), FsError>)
        requires
            reply@.len() <= 144,
        ensures
            r == status_result(padded(reply@, 144), ErrorSet::Create),
    {
        simple_reply(reply, 144, ErrorSet::Create)
    }

    /// The `MKDIR` request: 180 bytes, mode 755, umask 22, the name at byte 48.
    pub open spec fn spec_mkdir_request(&self, unique: u64, pid: u32, name: Seq<u8>) -> Seq<u8> {
        splice(splice(frame(180, in_header((49 + name.len()) as u32, FuseOpcode::FUSE_MKDIR, unique, self.inode, pid)), 40, (FuseMkdirIn { mode: 755, umask: 22 }).spec_bytes()), 48, name)
    }

    /// Builds the request of `mkdir`.
    pub fn mkdir_request(&self, unique: u64, pid: u32, name: &[u8]) -> (r: Vec<u8>)
        requires
            name@.len() <= 132,
        ensures
            r@ == self.spec_mkdir_request(unique, pid, name@),
    {
        let mut v = new_frame(180, (49 + name.len()) as u32, FuseOpcode::FUSE_MKDIR, unique, self.inode, pid);
        let a = FuseMkdirIn::new(755, 22).to_bytes();
        put_bytes(&mut v, 40, a.as_slice());
        put_bytes(&mut v, 48, name);
        v
    }

    /// The outcome of `MKDIR` from its reply (at most 144 bytes).
    pub fn mkdir(&self, reply: &[u8]) -> (r: Result<(), FsError>)
        requires
            reply@.len() <= 144,
        ensures
            r == status_result(padded(reply@, 144), ErrorSet::Create),
    {
        simple_reply(reply, 144, ErrorSet::Create)
    }

    /// The `RMDIR` request: 180 bytes, the name at byte 40.
    pub open spec fn spec_rmdir_request(&self, unique: u64, pid: u32, name: Seq<u8>) -> Seq<u8> {
        splice(frame(180, in_header((41 + name.len()) as u32, FuseOpcode::FUSE_RMDIR, unique, self.inode, pid)), 40, name)
    }

    /// Builds the request of `rmdir`.
    pub fn rmdir_request(&self, unique: u64, pid: u32, name: &[u8]) -> (r: Vec<u8>)
        requires
            name@.len() <= 140,
        ensures
            r@ == self.spec_rmdir_request(unique, pid, name@),
    {
        let mut v = new_frame(180, (41 + name.len()) as u32, FuseOpcode::FUSE_RMDIR, unique, self.inode, pid);
        put_bytes(&mut v, 40, name);
        v
    }

    /// The outcome of `RMDIR` from its reply (at most 16 bytes).
    pub fn rmdir(&self, reply: &[u8]) -> (r: Result<(), FsError>)
        requires
            reply@.len() <= 16,
        ensures
            r == status_result(padded(reply@, 16), ErrorSet::Rmdir),
    {
        simple_reply(reply, 16, ErrorSet::Rmdir)
    }

    /// The `RENAME2` request: 280 bytes, the old name at byte 56, the new one after it and a zero byte.
    pub open spec fn spec_rename2_request(&self, unique: u64, pid: u32, old: Seq<u8>, new: Seq<u8>) -> Seq<u8> {
        splice(splice(splice(frame(280, in_header((58 + old.len() + new.len()) as u32, FuseOpcode::FUSE_RENAME2, unique, self.inode, pid)), 40, (FuseRename2In { newdir: 1, flags: 1, padding: 0 }).spec_bytes()), 56, old), 57 + old.len() as int, new)
    }

    /// Builds the request of `rename2`.
    pub fn rename2_request(&self, unique: u64, pid: u32, old: &[u8], new: &[u8]) -> (r: Vec<u8>)
        requires
            old@.len() + new@.len() <= 223,
        ensures
            r@ == self.spec_rename2_request(unique, pid, old@, new@),
    {
        let mut v = new_frame(280, (58 + old.len() + new.len()) as u32, FuseOpcode::FUSE_RENAME2, unique, self.inode, pid);
        let a = FuseRename2In::new(1, 1).to_bytes();
        put_bytes(&mut v, 40, a.as_slice());
        put_bytes(&mut v, 56, old);
        put_bytes(&mut v, 57 + old.len(), new);
        v
    }

    /// The outcome of `RENAME2` from its reply (at most 16 bytes).
    pub fn rename2(&self, reply: &[u8]) -> (r: Result<(), FsError>)
        requires
            reply@.len() <= 16,
        ensures
            r == status_result(padded(reply@, 16), ErrorSet::Rename),
    {
        simple_reply(reply, 16, ErrorSet::Rename)
    }

    /// The `ACCESS` request: 48 bytes, mask 1.
    pub open spec fn spec_access_request(&self, unique: u64, pid: u32) -> Seq<u8> {
        splice(frame(48, in_header(48, FuseOpcode::FUSE_ACCESS, unique, self.inode, pid)), 40, (FuseAccessIn { mask: 1, padding: 0 }).spec_bytes())
    }

    /// Builds the request of `access`.
    pub fn access_request(&self, unique: u64, pid: u32) -> (r: Vec<u8>)
        ensures
            r@ == self.spec_access_request(unique, pid),
    {
        let mut v = new_frame(48, 48, FuseOpcode::FUSE_ACCESS, unique, self.inode, pid);
        let a = FuseAccessIn::new(1).to_bytes();
        put_bytes(&mut v, 40, a.as_slice());
        v
    }

    /// The outcome of `ACCESS` from its reply (at most 16 bytes).
    pub fn access(&self, reply: &[u8]) -> (r: Result<(), FsError>)
        requires
            reply@.len() <= 16,
        ensures
            r == status_result(padded(reply@, 16), ErrorSet::Basic),
    {
        simple_reply(reply, 16, ErrorSet::Basic)
    }

    /// The `FSYNC` request: the 40-byte header alone.
    pub open spec fn spec_fsync_request(&self, unique: u64, pid: u32) -> Seq<u8> {
        frame(40, in_header(40, FuseOpcode::FUSE_FSYNC, unique, self.inode, pid))
    }

    /// Builds the request of `fsync`.
    pub fn fsync_request(&self, unique: u64, pid: u32) -> (r: Vec<u8>)
        ensures
            r@ == self.spec_fsync_request(unique, pid),
    {
        let mut v = new_frame(40, 40, FuseOpcode::FUSE_FSYNC, unique, self.inode, pid);
        v
    }

    /// The outcome of `FSYNC` from its reply (at most 16 bytes).
    pub fn fsync(&self, reply: &[u8]) -> (r: Result<(), FsError>)
        requires
            reply@.len() <= 16,
        ensures
            r == status_result(padded(reply@, 16), ErrorSet::Basic),
    {
        simple_reply(reply, 16, ErrorSet::Basic)
    }

    /// The `CREATE` request: 180 bytes, flags `0x8241`, mode 100644, umask 22, the path at byte 56.
    pub open spec fn spec_create_request(&self, unique: u64, pid: u32, path: Seq<u8>) -> Seq<u8> {
        splice(splice(frame(180, in_header((57 + path.len()) as u32, FuseOpcode::FUSE_CREATE, unique, self.inode, pid)), 40, (FuseCreateIn { flags: 0x8241, mode: 100644, umask: 22, open_flags: 0 }).spec_bytes()), 56, path)
    }

    /// Builds the request of `create`.
    pub fn create_request(&self, unique: u64, pid: u32, path: &[u8]) -> (r: Vec<u8>)
        requires
            path@.len() <= 124,
        ensures
            r@ == self.spec_create_request(unique, pid, path@),
    {
        let mut v = new_frame(180, (57 + path.len()) as u32, FuseOpcode::FUSE_CREATE, unique, self.inode, pid);
        let a = FuseCreateIn::new(0x8241, 100644, 22, 0).to_bytes();
        put_bytes(&mut v, 40, a.as_slice());
        put_bytes(&mut v, 56, path);
        v
    }

    /// The outcome of `CREATE` from its reply (at most 160 bytes).
    pub fn create(&self, reply: &[u8]) -> (r: Result<(), FsError>)
        requires
            reply@.len() <= 160,
        ensures
            r == status_result(padded(reply@, 160), ErrorSet::Create),
    {
        simple_reply(reply, 160, ErrorSet::Create)
    }

    /// The `RENAME` request: 280 bytes, the source path at byte 48, the destination after it and a zero byte.
    pub open spec fn spec_rename_request(&self, unique: u64, pid: u32, src_path: Seq<u8>, dst_path: Seq<u8>) -> Seq<u8> {
        splice(splice(splice(frame(280, in_header((50 + src_path.len() + dst_path.len()) as u32, FuseOpcode::FUSE_RENAME, unique, self.inode, pid)), 40, (FuseRenameIn { newdir: 1 }).spec_bytes()), 48, src_path), 49 + src_path.len() as int, dst_path)
    }

    /// Builds the request of `rename`.
    pub fn rename_request(&self, unique: u64, pid: u32, src_path: &[u8], dst_path: &[u8]) -> (r: Vec<u8>)
        requires
            src_path@.len() + dst_path@.len() <= 231,
        ensures
            r@ == self.spec_rename_request(unique, pid, src_path@, dst_path@),
    {
        let mut v = new_frame(280, (50 + src_path.len() + dst_path.len()) as u32, FuseOpcode::FUSE_RENAME, unique, self.inode, pid);
        let a = FuseRenameIn::new(1).to_bytes();
        put_bytes(&mut v, 40, a.as_slice());
        put_bytes(&mut v, 48, src_path);
        put_bytes(&mut v, 49 + src_path.len(), dst_path);
        v
    }

    /// The outcome of `RENAME` from its reply (at most 16 bytes).
    pub fn rename(&self, reply: &[u8]) -> (r: Result<(), FsError>)
        requires
            reply@.len() <= 16,
        ensures
            r == status_result(padded(reply@, 16), ErrorSet::Rename),
    {
        simple_reply(reply, 16, ErrorSet::Rename)
    }

    /// The `GETATTR` request: 56 bytes, the node's file handle.
    pub open spec fn spec_get_attr_request(&self, unique: u64, pid: u32) -> Seq<u8> {
        splice(frame(56, in_header(56, FuseOpcode::FUSE_GETATTR, unique, self.inode, pid)), 40, (FuseGetattrIn { getattr_flags: 0, dummy: 0, fh: self.fh }).spec_bytes())
    }

    /// Builds the request of `get_attr`.
    pub fn get_attr_request(&self, unique: u64, pid: u32) -> (r: Vec<u8>)
        ensures
            r@ == self.spec_get_attr_request(unique, pid),
    {
        let mut v = new_frame(56, 56, FuseOpcode::FUSE_GETATTR, unique, self.inode, pid);
        let a = FuseGetattrIn::new(0, 0, self.fh).to_bytes();
        put_bytes(&mut v, 40, a.as_slice());
        v
    }

    /// The `READDIR` request: 80 bytes, the node's file handle, offset 0, size 4096, flags `0x18800`.
    pub open spec fn spec_read_dir_request(&self, unique: u64, pid: u32) -> Seq<u8> {
        splice(frame(80, in_header(80, FuseOpcode::FUSE_READDIR, unique, self.inode, pid)), 40, (FuseReadIn { fh: self.fh, offset: 0, size: 4096, read_flags: 0, lock_owner: 0, flags: 0x18800, padding: 0 }).spec_bytes())
    }

    /// Builds the request of `read_dir`.
    pub fn read_dir_request(&self, unique: u64, pid: u32) -> (r: Vec<u8>)
        ensures
            r@ == self.spec_read_dir_request(unique, pid),
    {
        let mut v = new_frame(80, 80, FuseOpcode::FUSE_READDIR, unique, self.inode, pid);
        let a = FuseReadIn::new(self.fh, 0, 4096, 0, 0, 0x18800).to_bytes();
        put_bytes(&mut v, 40, a.as_slice());
        v
    }

    /// The `OPENDIR` request: 48 bytes, flags `0x18800`.
    pub open spec fn spec_open_dir_request(&self, unique: u64, pid: u32) -> Seq<u8> {
        splice(frame(48, in_header(48, FuseOpcode::FUSE_OPENDIR, unique, self.inode, pid)), 40, (FuseOpenIn { flags: 0x18800, open_flags: 0 }).spec_bytes())
    }

    /// Builds the request of `open_dir`.
    pub fn open_dir_request(&self, unique: u64, pid: u32) -> (r: Vec<u8>)
        ensures
            r@ == self.spec_open_dir_request(unique, pid),
    {
        let mut v = new_frame(48, 48, FuseOpcode::FUSE_OPENDIR, unique, self.inode, pid);
        let a = FuseOpenIn::new(0x18800, 0).to_bytes();
        put_bytes(&mut v, 40, a.as_slice());
        v
    }

    /// The `OPEN` request for a file: 48 bytes, flags `0x8000`.
    pub open spec fn spec_open_file_request(&self, unique: u64, pid: u32) -> Seq<u8> {
        splice(frame(48, in_header(48, FuseOpcode::FUSE_OPEN, unique, self.inode, pid)), 40, (FuseOpenIn { flags: 0x8000, open_flags: 0 }).spec_bytes())
    }

    /// Builds the request of `open_file`.
    pub fn open_file_request(&self, unique: u64, pid: u32) -> (r: Vec<u8>)
        ensures
            r@ == self.spec_open_file_request(unique, pid),
    {
        let mut v = new_frame(48, 48, FuseOpcode::FUSE_OPEN, unique, self.inode, pid);
        let a = FuseOpenIn::new(0x8000, 0).to_bytes();
        put_bytes(&mut v, 40, a.as_slice());
        v
    }

    /// The `RELEASE` request for a file: 64 bytes, the node's file handle and open flags.
    pub open spec fn spec_release_file_request(&self, unique: u64, pid: u32) -> Seq<u8> {
        splice(frame(64, in_header(64, FuseOpcode::FUSE_RELEASE, unique, self.inode, pid)), 40, (FuseReleaseIn { fh: self.fh, flags: self.flags, release_flags: 0, lock_owner: 0 }).spec_bytes())
    }

    /// Builds the request of `release_file`.
    pub fn release_file_request(&self, unique: u64, pid: u32) -> (r: Vec<u8>)
        ensures
            r@ == self.spec_release_file_request(unique, pid),
    {
        let mut v = new_frame(64, 64, FuseOpcode::FUSE_RELEASE, unique, self.inode, pid);
        let a = FuseReleaseIn::new(self.fh, self.flags, 0, 0).to_bytes();
        put_bytes(&mut v, 40, a.as_slice());
        v
    }

    /// The request that removes a file: 180 bytes, the path at byte 40, sent under the `FORGET` opcode.
    pub open spec fn spec_unlink_request(&self, unique: u64, pid: u32, path: Seq<u8>) -> Seq<u8> {
        splice(frame(180, in_header((41 + path.len()) as u32, FuseOpcode::FUSE_FORGET, unique, self.inode, pid)), 40, path)
    }

    /// Builds the request of `unlink`.
    pub fn unlink_request(&self, unique: u64, pid: u32, path: &[u8]) -> (r: Vec<u8>)
        requires
            path@.len() <= 140,
        ensures
            r@ == self.spec_unlink_request(unique, pid, path@),
    {
        let mut v = new_frame(180, (41 + path.len()) as u32, FuseOpcode::FUSE_FORGET, unique, self.inode, pid);
        put_bytes(&mut v, 40, path);
        v
    }
}

/// The file handle that an open reply hands over: the one in the reply
/// when the daemon reported success, zero otherwise.
pub open spec fn spec_opened_fh(out: Seq<u8>) -> u64 {
    if reply_header(out).error == 0 {
        FuseOpenOut::spec_read_at(out, 16).fh
    } else {
        0
    }
}

/// The entry that a lookup reply carries: the one in the reply when the
/// daemon reported success, all zero otherwise.
pub open spec fn spec_entry(out: Seq<u8>) -> FuseEntryOut {
    if reply_header(out).error == 0 {
        FuseEntryOut::spec_read_at(out, 16)
    } else {
        FuseEntryOut {
            nodeid: 0,
            generation: 0,
            entry_valid: 0,
            attr_valid: 0,
            entry_valid_nsec: 0,
            attr_valid_nsec: 0,
            attr: FuseAttr::spec_zero(),
        }
    }
}

/// Whether a path component is empty or `.`.
pub open spec fn is_self_name(name: Seq<u8>) -> bool {
    name =~= Seq::<u8>::empty() || name =~= seq![46u8]
}

/// Whether a path component is `..`.
pub open spec fn is_parent_name(name: Seq<u8>) -> bool {
    name =~= seq![46u8, 46u8]
}

fn name_is_self(name: &Vec<u8>) -> (r: bool)
    ensures
        r == is_self_name(name@),
{
    name.len() == 0 || (name.len() == 1 && name[0] == 46u8)
}

fn name_is_parent(name: &Vec<u8>) -> (r: bool)
    ensures
        r == is_parent_name(name@),
{
    name.len() == 2 && name[0] == 46u8 && name[1] == 46u8
}

impl FuseNode {
    /// The node with another file handle.
    pub open spec fn with_fh(self, fh: u64) -> FuseNode {
        FuseNode { fh: fh, ..self }
    }

    /// The node with other open flags.
    pub open spec fn with_flags(self, flags: u32) -> FuseNode {
        FuseNode { flags: flags, ..self }
    }

    /// The node with other attributes and size.
    pub open spec fn with_attr(self, attr: FuseAttr, size: u64) -> FuseNode {
        FuseNode { attr: attr, size: size, ..self }
    }

    /// The outcome of `OPENDIR` from its reply (at most 32 bytes); on success
    /// the node keeps the file handle of the reply (zero when the reply
    /// carries a positive code).
    pub fn open_dir(&mut self, reply: &[u8]) -> (r: Result<(), FsError>)
        requires
            reply@.len() <= 32,
        ensures
            r == status_result(padded(reply@, 32), ErrorSet::Dir),
            r is Ok ==> *final(self) == old(self).with_fh(spec_opened_fh(padded(reply@, 32))),
            r is Err ==> *final(self) == *old(self),
    {
        self.open_reply(reply, ErrorSet::Dir)
    }

    fn open_reply(&mut self, reply: &[u8], set: ErrorSet) -> (r: Result<(), FsError>)
        requires
            reply@.len() <= 32,
        ensures
            r == status_result(padded(reply@, 32), set),
            r is Ok ==> *final(self) == old(self).with_fh(spec_opened_fh(padded(reply@, 32))),
            r is Err ==> *final(self) == *old(self),
    {
        let out = pad_reply(reply, 32);
        let h = FuseOutHeader::read_from(out.as_slice());
        let openout = if h.is_ok() {
            FuseOpenOut::read_at(out.as_slice(), 16)
        } else {
            FuseOpenOut::default()
        };
        let res = check_status(out.as_slice(), set);
        match res {
            Ok(()) => {
                self.fh = openout.get_fh();
                Ok(())
            },
            Err(e) => Err(e),
        }
    }

    /// The `OPEN` request: the `OPENDIR` request for a directory, else the
    /// request that opens a file.
    pub open spec fn spec_open_request(&self, unique: u64, pid: u32) -> Seq<u8> {
        if self.spec_is_dir() {
            self.spec_open_dir_request(unique, pid)
        } else {
            self.spec_open_file_request(unique, pid)
        }
    }

    /// Builds the `OPEN` request (or `OPENDIR` for a directory).
    pub fn open_request(&self, unique: u64, pid: u32) -> (r: Vec<u8>)
        ensures
            r@ == self.spec_open_request(unique, pid),
    {
        if self.is_dir() {
            self.open_dir_request(unique, pid)
        } else {
            self.open_file_request(unique, pid)
        }
    }

    /// The outcome of `OPEN` from its reply (at most 32 bytes): as
    /// `open_dir` for a directory; for a file the same with the file codes.
    pub fn open(&mut self, reply: &[u8]) -> (r: Result<(), FsError>)
        requires
            reply@.len() <= 32,
        ensures
            r == status_result(
                padded(reply@, 32),
                if old(self).spec_is_dir() {
                    ErrorSet::Dir
                } else {
                    ErrorSet::File
                },
            ),
            r is Ok ==> *final(self) == old(self).with_fh(spec_opened_fh(padded(reply@, 32))),
            r is Err ==> *final(self) == *old(self),
    {
        if self.is_dir() {
            self.open_dir(reply)
        } else {
            self.open_reply(reply, ErrorSet::File)
        }
    }

    /// The `RELEASE` request: `RELEASEDIR` for a directory, else the
    /// request that releases a file.
    pub open spec fn spec_release_request(&self, unique: u64, pid: u32) -> Seq<u8> {
        if self.spec_is_dir() {
            self.spec_release_dir_request(unique, pid)
        } else {
            self.spec_release_file_request(unique, pid)
        }
    }

    /// Builds the `RELEASE` request (or `RELEASEDIR` for a directory).
    pub fn release_request(&self, unique: u64, pid: u32) -> (r: Vec<u8>)
        ensures
            r@ == self.spec_release_request(unique, pid),
    {
        if self.is_dir() {
            self.release_dir_request(unique, pid)
        } else {
            self.release_file_request(unique, pid)
        }
    }

    /// The outcome of `RELEASE` from its reply (at most 16 bytes).
    pub fn release(&self, reply: &[u8]) -> (r: Result<(), FsError>)
        requires
            reply@.len() <= 16,
        ensures
            r == status_result(
                padded(reply@, 16),
                if self.spec_is_dir() {
                    ErrorSet::Dir
                } else {
                    ErrorSet::File
                },
            ),
    {
        if self.is_dir() {
            self.release_dir(reply)
        } else {
            simple_reply(reply, 16, ErrorSet::File)
        }
    }

    /// The request that removes `path`: `RMDIR` for a directory, else the
    /// request that removes a file.
    pub open spec fn spec_remove_request(&self, unique: u64, pid: u32, path: Seq<u8>) -> Seq<u8> {
        if self.spec_is_dir() {
            self.spec_rmdir_request(unique, pid, path)
        } else {
            self.spec_unlink_request(unique, pid, path)
        }
    }

    /// Builds the request that removes `path`.
    pub fn remove_request(&self, unique: u64, pid: u32, path: &[u8]) -> (r: Vec<u8>)
        requires
            path@.len() <= 140,
        ensures
            r@ == self.spec_remove_request(unique, pid, path@),
    {
        if self.is_dir() {
            self.rmdir_request(unique, pid, path)
        } else {
            self.unlink_request(unique, pid, path)
        }
    }

    /// The outcome of a removal from its reply (at most 16 bytes).
    pub fn remove(&self, reply: &[u8]) -> (r: Result<(), FsError>)
        requires
            reply@.len() <= 16,
        ensures
            r == status_result(
                padded(reply@, 16),
                if self.spec_is_dir() {
                    ErrorSet::Rmdir
                } else {
                    ErrorSet::FileWrite
                },
            ),
    {
        if self.is_dir() {
            self.rmdir(reply)
        } else {
            simple_reply(reply, 16, ErrorSet::FileWrite)
        }
    }

    /// The attributes reported after `GETATTR`: a directory (permission
    /// bits `0o755`) or a file (`0o666`) by the new mode, the new size, no
    /// blocks.
    pub open spec fn spec_node_attr(self) -> NodeAttr {
        NodeAttr {
            perm: if self.spec_is_dir() {
                0o755
            } else {
                0o666
            },
            ty: if self.spec_is_dir() {
                NodeType::Dir
            } else {
                NodeType::File
            },
            size: self.size,
            blocks: 0,
        }
    }

    /// The outcome of `GETATTR` from its reply (at most 120 bytes): the node
    /// takes the attributes and size of the reply, whatever its header says.
    pub fn get_attr(&mut self, reply: &[u8]) -> (r: Result<NodeAttr, FsError>)
        requires
            reply@.len() <= 120,
        ensures
            *final(self) == old(self).with_attr(
                FuseAttrOut::spec_read_at(padded(reply@, 120), 16).attr,
                FuseAttrOut::spec_read_at(padded(reply@, 120), 16).attr.size,
            ),
            r == Ok::<NodeAttr, FsError>(final(self).spec_node_attr()),
            r matches Ok(a) && a.size == u64_at(padded(reply@, 120), 40) && a.blocks == 0 && (a.ty
                == NodeType::Dir) == (u32_at(padded(reply@, 120), 92) & 0x4000 == 0x4000),
    {
        proof {
            lemma_node_attr_reports(
                old(self).with_attr(
                    FuseAttrOut::spec_read_at(padded(reply@, 120), 16).attr,
                    FuseAttrOut::spec_read_at(padded(reply@, 120), 16).attr.size,
                ),
            );
        }
        let out = pad_reply(reply, 120);
        let attrout = FuseAttrOut::read_at(out.as_slice(), 16);
        self.attr = attrout.get_attr();
        self.size = attrout.get_size();
        let size = self.size;
        if self.is_dir() {
            Ok(NodeAttr { perm: 0o755, ty: NodeType::Dir, size, blocks: 0 })
        } else {
            Ok(NodeAttr { perm: 0o666, ty: NodeType::File, size, blocks: 0 })
        }
    }

    /// The `READ` request: 80 bytes, the node's file handle, `offset`, size
    /// 4096, flags `0x8000`.
    pub open spec fn spec_read_at_request(&self, unique: u64, pid: u32, offset: u64) -> Seq<u8> {
        splice(
            frame(80, in_header(80, FuseOpcode::FUSE_READ, unique, self.inode, pid)),
            40,
            (FuseReadIn {
                fh: self.fh,
                offset: offset,
                size: 4096,
                read_flags: 0,
                lock_owner: 0,
                flags: 0x8000,
                padding: 0,
            }).spec_bytes(),
        )
    }

    /// Builds the `READ` request; the node's open flags become `0x8000`.
    pub fn read_at_request(&mut self, unique: u64, pid: u32, offset: u64) -> (r: Vec<u8>)
        ensures
            *final(self) == old(self).with_flags(0x8000),
            r@ == final(self).spec_read_at_request(unique, pid, offset),
            u64_at(r@, 40) == old(self).fh,
            u64_at(r@, 48) == offset,
            u32_at(r@, 56) == 4096,
    {
        proof {
            lemma_read_request_carries(old(self).with_flags(0x8000), unique, pid, offset);
        }
        self.flags = 0x8000;
        let mut v = new_frame(80, 80, FuseOpcode::FUSE_READ, unique, self.inode, pid);
        let a = FuseReadIn::new(self.fh, offset, 4096, 0, 0, 0x8000).to_bytes();
        put_bytes(&mut v, 40, a.as_slice());
        v
    }

    /// The outcome of `READ` from its reply (16 to 4112 bytes): on success
    /// the data after the header goes to the start of `buf` and its length is
    /// returned; a positive code also returns that length, with `buf`
    /// untouched.
    pub fn read_at(&self, reply: &[u8], buf: &mut [u8]) -> (r: Result<usize, FsError>)
        requires
            16 <= reply@.len() <= 4112,
            reply_header(padded(reply@, 4112)).error == 0 ==> reply@.len() - 16 <= old(
                buf,
            )@.len(),
        ensures
            reply_header(padded(reply@, 4112)).error == 0 ==> final(buf)@ == splice(
                old(buf)@,
                0,
                reply@.subrange(16, reply@.len() as int),
            ),
            reply_header(padded(reply@, 4112)).error != 0 ==> final(buf)@ == old(buf)@,
            r == match status_result(padded(reply@, 4112), ErrorSet::File) {
                Ok(()) => Ok::<usize, FsError>((reply@.len() - 16) as usize),
                Err(e) => Err(e),
            },
    {
        let out = pad_reply(reply, 4112);
        let outlen = reply.len() - 16;
        let h = FuseOutHeader::read_from(out.as_slice());
        if h.is_ok() {
            let data = subrange_vec(out.as_slice(), 16, 16 + outlen);
            assert(data@ =~= reply@.subrange(16, reply@.len() as int));
            crate::le::copy_into(buf, 0, data.as_slice());
        }
        match check_status(out.as_slice(), ErrorSet::File) {
            Ok(()) => Ok(outlen),
            Err(e) => Err(e),
        }
    }

    /// The `WRITE` request: 12000 bytes, the node's file handle, `offset`,
    /// size one more than the data, the given flags, the data at byte 80.
    pub open spec fn spec_write_at_request(
        &self,
        unique: u64,
        pid: u32,
        offset: u64,
        data: Seq<u8>,
    ) -> Seq<u8> {
        splice(
            splice(
                frame(
                    12000,
                    in_header((81 + data.len()) as u32, FuseOpcode::FUSE_WRITE, unique, self.inode, pid),
                ),
                40,
                (FuseWriteIn {
                    fh: self.fh,
                    offset: offset,
                    size: (data.len() + 1) as u32,
                    write_flags: 0,
                    lock_owner: 0,
                    flags: self.flags,
                    padding: 0,
                }).spec_bytes(),
            ),
            80,
            data,
        )
    }

    /// Builds the `WRITE` request; the node's open flags become its file
    /// flags, which the request carries.
    pub fn write_at_request(&mut self, unique: u64, pid: u32, offset: u64, data: &[u8]) -> (r: Vec<
        u8,
    >)
        requires
            data@.len() <= 11920,
        ensures
            *final(self) == old(self).with_flags(old(self).spec_file_flags()),
            r@ == final(self).spec_write_at_request(unique, pid, offset, data@),
            u64_at(r@, 40) == old(self).fh,
            u64_at(r@, 48) == offset,
            u32_at(r@, 56) == data@.len() + 1,
            r@.subrange(80, 80 + data@.len() as int) == data@,
    {
        proof {
            lemma_write_request_carries(
                old(self).with_flags(old(self).spec_file_flags()),
                unique,
                pid,
                offset,
                data@,
            );
        }
        let flags = self.file_flags();
        self.flags = flags;
        let n = data.len();
        let mut v = new_frame(12000, (81 + n) as u32, FuseOpcode::FUSE_WRITE, unique, self.inode, pid);
        let a = FuseWriteIn::new(self.fh, offset, (n + 1) as u32, 0, 0, flags).to_bytes();
        put_bytes(&mut v, 40, a.as_slice());
        put_bytes(&mut v, 80, data);
        v
    }

    /// The outcome of `WRITE` from its reply (at most 24 bytes): the length
    /// of `data`, the data that the request carried, unless the reply
    /// reports an error.
    pub fn write_at(&self, reply: &[u8], data: &[u8]) -> (r: Result<usize, FsError>)
        requires
            reply@.len() <= 24,
        ensures
            r == match status_result(padded(reply@, 24), ErrorSet::FileWrite) {
                Ok(()) => Ok::<usize, FsError>(data@.len() as usize),
                Err(e) => Err(e),
            },
    {
        match simple_reply(reply, 24, ErrorSet::FileWrite) {
            Ok(()) => Ok(data.len()),
            Err(e) => Err(e),
        }
    }

    /// The `LOOKUP` request: 180 bytes, node id 1, the path without its
    /// leading slashes at byte 40.
    pub open spec fn spec_lookup_request(&self, unique: u64, pid: u32, raw_path: Seq<u8>) -> Seq<
        u8,
    > {
        let path = trim_start_slashes(raw_path);
        splice(
            frame(
                180,
                in_header((41 + path.len()) as u32, FuseOpcode::FUSE_LOOKUP, unique, 1, pid),
            ),
            40,
            path,
        )
    }

    /// Builds the `LOOKUP` request.
    pub fn lookup_request(&self, unique: u64, pid: u32, raw_path: &[u8]) -> (r: Vec<u8>)
        requires
            trim_start_slashes(raw_path@).len() <= 140,
        ensures
            r@ == self.spec_lookup_request(unique, pid, raw_path@),
    {
        let k = skip_slashes(raw_path);
        proof {
            lemma_skip_slashes_bounds(raw_path@, 0);
        }
        let path = subrange_vec(raw_path, k, raw_path.len());
        assert(path@ =~= trim_start_slashes(raw_path@));
        let n = path.len();
        let mut v = new_frame(180, (41 + n) as u32, FuseOpcode::FUSE_LOOKUP, unique, 1, pid);
        put_bytes(&mut v, 40, path.as_slice());
        v
    }

    /// What a lookup of `raw_path` leads to once the daemon's reply (at most
    /// 144 bytes) is in: an error for a negative code; else, where the path
    /// has more than one component, a lookup of the rest; for an empty or
    /// `.` path the node takes the id, attributes and size of the reply's
    /// entry; `..` names the parent; any other name a new child node with
    /// the entry's id, attributes and size and file handle zero.
    pub fn lookup(&mut self, raw_path: &[u8], reply: &[u8]) -> (r: Result<LookupStep, FsError>)
        requires
            reply@.len() <= 144,
        ensures
            ({
                let out = padded(reply@, 144);
                let entry = spec_entry(out);
                let (name, rest) = spec_split_path(raw_path@);
                &&& reply_status(out) < 0 ==> r == Err::<LookupStep, FsError>(
                    spec_map_errno(reply_status(out), ErrorSet::Lookup),
                ) && *final(self) == *old(self)
                &&& reply_status(out) >= 0 && rest is Some ==> *final(self) == *old(self) && (
                r matches Ok(LookupStep::Continue(v)) && v@ == rest.unwrap())
                &&& reply_status(out) >= 0 && rest is None && is_self_name(name) ==> (r matches Ok(
                    LookupStep::Current,
                )) && *final(self) == (FuseNode {
                    inode: entry.nodeid,
                    attr: entry.attr,
                    size: entry.attr.size,
                    ..*old(self)
                })
                &&& reply_status(out) >= 0 && rest is None && is_parent_name(name) ==> (r matches Ok(
                    LookupStep::Parent,
                )) && *final(self) == *old(self)
                &&& reply_status(out) >= 0 && rest is None && !is_self_name(name) && !is_parent_name(
                    name,
                ) ==> *final(self) == *old(self) && (r matches Ok(LookupStep::Child(c)) && c == (
                FuseNode {
                    inode: entry.nodeid,
                    attr: entry.attr,
                    size: entry.attr.size,
                    flags: 0x8000,
                    fh: 0,
                }))
            }),
            ({
                let out = padded(reply@, 144);
                let t = trim_start_slashes(raw_path@);
                &&& reply_status(out) >= 0 && (t.len() == 0 || t == seq![46u8]) ==> (r matches Ok(
                    LookupStep::Current,
                ))
                &&& reply_status(out) >= 0 && t == seq![46u8, 46u8] ==> (r matches Ok(
                    LookupStep::Parent,
                )) && *final(self) == *old(self)
                &&& reply_header(out).error == 0 && t.len() > 0 && t != seq![46u8] && t != seq![
                    46u8,
                    46u8,
                ] && (forall|j: int| 0 <= j < t.len() ==> t[j] != slash()) ==> *final(self)
                    == *old(self) && (r matches Ok(LookupStep::Child(c)) && c.inode == u64_at(
                    out,
                    16,
                ) && c.size == u64_at(out, 64) && c.fh == 0)
                &&& (r matches Ok(LookupStep::Current)) ==> t.len() == 0 || t == seq![46u8]
            }),
    {
        proof {
            lemma_lookup_names(raw_path@);
        }
        let out = pad_reply(reply, 144);
        let h = FuseOutHeader::read_from(out.as_slice());
        let entry = if h.is_ok() {
            FuseEntryOut::read_at(out.as_slice(), 16)
        } else {
            FuseEntryOut::default()
        };
        match check_status(out.as_slice(), ErrorSet::Lookup) {
            Err(e) => {
                return Err(e);
            },
            Ok(()) => {},
        }
        let (name, rest) = split_path(raw_path);
        match rest {
            Some(rest) => Ok(LookupStep::Continue(rest)),
            None => {
                if name_is_self(&name) {
                    self.inode = entry.get_nodeid();
                    self.attr = entry.get_attr();
                    self.size = entry.get_size();
                    Ok(LookupStep::Current)
                } else if name_is_parent(&name) {
                    Ok(LookupStep::Parent)
                } else {
                    Ok(
                        LookupStep::Child(
                            FuseNode::new(entry.get_nodeid(), entry.get_attr(), entry.get_size(), 0),
                        ),
                    )
                }
            },
        }
    }
}

/// A create plan as plain values.
pub enum CreatePlanView {
    Mkdir,
    Here(Seq<u8>),
    InParent(Seq<u8>),
    Create,
}

impl View for CreatePlan {
    type V = CreatePlanView;

    open spec fn view(&self) -> CreatePlanView {
        match self {
            CreatePlan::Mkdir => CreatePlanView::Mkdir,
            CreatePlan::Here(v) => CreatePlanView::Here(v@),
            CreatePlan::InParent(v) => CreatePlanView::InParent(v@),
            CreatePlan::Create => CreatePlanView::Create,
        }
    }
}

/// How a create of `path` with kind `ty` is carried out: a directory is
/// made with `MKDIR`; a path whose first component is `.` and which has a
/// rest is created from the same node, one whose first component is `..`
/// from the parent; every other path goes whole into a `CREATE` request.
pub open spec fn spec_create_plan(path: Seq<u8>, ty: NodeType) -> CreatePlanView {
    let (name, rest) = spec_split_path(path);
    if ty == NodeType::Dir {
        CreatePlanView::Mkdir
    } else if rest is Some && name =~= seq![46u8] {
        CreatePlanView::Here(rest.unwrap())
    } else if rest is Some && is_parent_name(name) {
        CreatePlanView::InParent(rest.unwrap())
    } else {
        CreatePlanView::Create
    }
}

/// Decides how a create of `path` with kind `ty` is carried out.
pub fn create_plan(path: &[u8], ty: NodeType) -> (r: CreatePlan)
    ensures
        r@ == spec_create_plan(path@, ty),
        ty == NodeType::Dir ==> r is Mkdir,
        ty != NodeType::Dir && starts_with_dot_slash(trim_start_slashes(path@)) ==> (r matches CreatePlan::Here(rest) && rest@ == trim_start_slashes(path@).skip(2)),
        ty != NodeType::Dir && starts_with_dot_dot_slash(trim_start_slashes(path@)) ==> (r matches CreatePlan::InParent(rest) && rest@ == trim_start_slashes(path@).skip(3)),
        ty != NodeType::Dir && !starts_with_dot_slash(trim_start_slashes(path@))
            && !starts_with_dot_dot_slash(trim_start_slashes(path@)) ==> r is Create,
{
    proof {
        lemma_create_plan_names(path@, ty);
    }
    if ty == NodeType::Dir {
        return CreatePlan::Mkdir;
    }
    let (name, rest) = split_path(path);
    match rest {
        Some(rest) => {
            if name.len() == 1 && name[0] == 46u8 {
                assert(name@ =~= seq![46u8]);
                CreatePlan::Here(rest)
            } else if name_is_parent(&name) {
                assert(!(name@ =~= seq![46u8]));
                CreatePlan::InParent(rest)
            } else {
                assert(!(name@ =~= seq![46u8]));
                CreatePlan::Create
            }
        },
        None => CreatePlan::Create,
    }
}

impl FuseNode {
    /// The listing that `READDIR` gives from its reply (at most 12000 bytes,
    /// whose directory records from byte 16 on all lie within the buffer):
    /// an error for a negative code; else the slots from `start_idx` on,
    /// at most `capacity` of them, stopping at the first slot past the end.
    /// The records are read whatever the header says.
    pub fn read_dir(&self, reply: &[u8], start_idx: usize, capacity: usize) -> (r: Result<
        Vec<DirEntry>,
        FsError,
    >)
        requires
            reply@.len() <= 12000,
            dirents_ok(padded(reply@, 12000), 16, reply@.len() as int),
        ensures
            ({
                let out = padded(reply@, 12000);
                let dirs = dirents_from(out, 16, reply@.len() as int);
                &&& reply_status(out) < 0 ==> r == Err::<Vec<DirEntry>, FsError>(
                    spec_map_errno(reply_status(out), ErrorSet::Readdir),
                )
                &&& reply_status(out) >= 0 ==> (r matches Ok(v) && {
                    &&& v@.len() <= capacity
                    &&& forall|j: int|
                        0 <= j < v@.len() ==> spec_dir_slot(dirs, start_idx + j) == Some(
                            (v@[j].name@, v@[j].ty),
                        )
                    &&& v@.len() == capacity || spec_dir_slot(dirs, start_idx + v@.len()) is None
                })
            }),
    {
        let out = pad_reply(reply, 12000);
        let end = reply.len();
        let mut dirs: Vec<FuseDirent> = Vec::new();
        let ghost mut views: Seq<DirentView> = Seq::empty();
        let mut offset: usize = 16;
        assert(views + dirents_from(out@, 16, end as int) =~= dirents_from(out@, 16, end as int));
        while offset < end
            invariant
                out@ == padded(reply@, 12000),
                out@.len() == 12000,
                end == reply@.len(),
                end <= 12000,
                offset <= 12007,
                dirents_ok(out@, offset as int, end as int),
                views + dirents_from(out@, offset as int, end as int) == dirents_from(
                    out@,
                    16,
                    end as int,
                ),
                dirs@.len() == views.len(),
                forall|j: int| 0 <= j < views.len() ==> dirs@[j]@ == views[j],
            decreases 12007 - offset,
        {
            let d = FuseDirent::read_at(out.as_slice(), offset);
            proof {
                lemma_dirent_record_len(d.namelen);
            }
            let len = d.get_len();
            let ghost old_offset = offset as int;
            offset = offset + len as usize;
            proof {
                let rest = dirents_from(out@, offset as int, end as int);
                assert(dirents_from(out@, old_offset, end as int) =~= seq![d@] + rest);
                assert(views + dirents_from(out@, old_offset, end as int) =~= views.push(d@)
                    + rest);
                views = views.push(d@);
            }
            dirs.push(d);
        }
        assert(views =~= dirents_from(out@, 16, end as int));
        match check_status(out.as_slice(), ErrorSet::Readdir) {
            Err(e) => {
                return Err(e);
            },
            Ok(()) => {},
        }
        let mut v: Vec<DirEntry> = Vec::new();
        let mut i: usize = 0;
        let dlen = dirs.len();
        while i < capacity
            invariant
                dlen == dirs@.len(),
                reply_status(out@) >= 0,
                out@ == padded(reply@, 12000),
                end == reply@.len(),
                views == dirents_from(out@, 16, end as int),
                dirs@.len() == views.len(),
                forall|j: int| 0 <= j < views.len() ==> dirs@[j]@ == views[j],
                v@.len() == i,
                i <= capacity,
                i == 0 || start_idx + i <= dirs@.len() || start_idx + i <= 2,
                forall|j: int|
                    0 <= j < i ==> spec_dir_slot(views, start_idx + j) == Some(
                        (v@[j].name@, v@[j].ty),
                    ),
            decreases capacity - i,
        {
            let idx = start_idx + i;
            if idx == 0 {
                v.push(DirEntry { name: vec![46u8], ty: NodeType::Dir });
                assert(v@[i as int].name@ =~= seq![46u8]);
            } else if idx == 1 {
                v.push(DirEntry { name: vec![46u8, 46u8], ty: NodeType::Dir });
                assert(v@[i as int].name@ =~= seq![46u8, 46u8]);
            } else if idx < dlen {
                let name = dirs[idx].get_name();
                let ty = dirs[idx].get_type_as_vfsnodetype();
                v.push(DirEntry { name, ty });
            } else {
                return Ok(v);
            }
            i = i + 1;
        }
        Ok(v)
    }
}

/// The header written at the start of a request buffer reads back as the
/// header's length, and every byte after the header is zero.
proof fn lemma_frame(size: nat, h: FuseInHeader)
    requires
        size >= 40,
    ensures
        frame(size, h).len() == size,
        u32_at(frame(size, h), 0) == h.len,
        forall|i: int| 36 <= i < size ==> frame(size, h)[i] == 0,
{
    crate::le::lemma_u32_roundtrip(h.len);
    let f = frame(size, h);
    assert(f[0] == (h.len & 0xff) as u8);
    assert(f[1] == ((h.len >> 8) & 0xff) as u8);
    assert(f[2] == ((h.len >> 16) & 0xff) as u8);
    assert(f[3] == ((h.len >> 24) & 0xff) as u8);
}

/// Writing `t` at `off` leaves the length and every byte outside
/// `off..off + t.len()` as it was, and puts `t` there.
proof fn lemma_splice(s: Seq<u8>, off: int, t: Seq<u8>)
    requires
        0 <= off,
        off + t.len() <= s.len(),
    ensures
        splice(s, off, t).len() == s.len(),
        forall|i: int| 0 <= i < off ==> splice(s, off, t)[i] == s[i],
        forall|i: int| off + t.len() <= i < s.len() ==> splice(s, off, t)[i] == s[i],
        splice(s, off, t).subrange(off, off + t.len()) == t,
{
    assert(splice(s, off, t).subrange(off, off + t.len()) =~= t);
}

/// Whether request `r` declares in its header the length `len`, carries
/// `name` at `off` and a zero byte right after it.
pub open spec fn carries_name(r: Seq<u8>, len: int, off: int, name: Seq<u8>) -> bool {
    &&& u32_at(r, 0) == len
    &&& r.subrange(off, off + name.len()) == name
    &&& r[off + name.len()] == 0
}

proof fn lemma_name_layout(size: nat, h: FuseInHeader, arg: Seq<u8>, off: int, name: Seq<u8>)
    requires
        size >= 40,
        40 + arg.len() <= off,
        off + name.len() < size,
    ensures
        carries_name(splice(splice(frame(size, h), 40, arg), off, name), h.len as int, off, name),
{
    lemma_frame(size, h);
    let s1 = splice(frame(size, h), 40, arg);
    lemma_splice(frame(size, h), 40, arg);
    lemma_splice(s1, off, name);
    let r = splice(s1, off, name);
    assert(r[0] == frame(size, h)[0] && r[1] == frame(size, h)[1] && r[2] == frame(size, h)[2]
        && r[3] == frame(size, h)[3]);
}

proof fn lemma_bare_name_layout(size: nat, h: FuseInHeader, off: int, name: Seq<u8>)
    requires
        size >= 40,
        40 <= off,
        off + name.len() < size,
    ensures
        carries_name(splice(frame(size, h), off, name), h.len as int, off, name),
{
    lemma_frame(size, h);
    lemma_splice(frame(size, h), off, name);
    let r = splice(frame(size, h), off, name);
    assert(r[0] == frame(size, h)[0] && r[1] == frame(size, h)[1] && r[2] == frame(size, h)[2]
        && r[3] == frame(size, h)[3]);
}

proof fn lemma_two_names_layout(
    size: nat,
    h: FuseInHeader,
    arg: Seq<u8>,
    off: int,
    a: Seq<u8>,
    b: Seq<u8>,
)
    requires
        size >= 40,
        40 + arg.len() <= off,
        off + a.len() + 1 + b.len() < size,
    ensures
        ({
            let r = splice(splice(splice(frame(size, h), 40, arg), off, a), off + a.len() + 1, b);
            &&& carries_name(r, h.len as int, off, a)
            &&& r.subrange(off + a.len() + 1, off + a.len() + 1 + b.len()) == b
            &&& r[off + a.len() + 1 + b.len()] == 0
        }),
{
    lemma_frame(size, h);
    let s1 = splice(frame(size, h), 40, arg);
    lemma_splice(frame(size, h), 40, arg);
    let s2 = splice(s1, off, a);
    lemma_splice(s1, off, a);
    lemma_splice(s2, off + a.len() + 1, b);
    let r = splice(s2, off + a.len() + 1, b);
    assert(r[0] == frame(size, h)[0] && r[1] == frame(size, h)[1] && r[2] == frame(size, h)[2]
        && r[3] == frame(size, h)[3]);
    assert(r.subrange(off, off + a.len()) =~= s2.subrange(off, off + a.len()));
}

/// In the `MKNOD` request the name goes to the daemon terminated, and the
/// header's length ends just past it.
pub proof fn lemma_mknod_request_terminated(node: FuseNode, unique: u64, pid: u32, name: Seq<u8>)
    requires
        name.len() < 124,
    ensures
        carries_name(node.spec_mknod_request(unique, pid, name), 56 + name.len() as int + 1, 56, name),
{
    lemma_name_layout(
        180,
        in_header((57 + name.len()) as u32, FuseOpcode::FUSE_MKNOD, unique, node.inode, pid),
        (FuseMknodIn { mode: 0x81a4, rdev: 0, umask: 0, padding: 0 }).spec_bytes(),
        56,
        name,
    );
}

/// In the `MKDIR` request the name goes to the daemon terminated, and the
/// header's length ends just past it.
pub proof fn lemma_mkdir_request_terminated(node: FuseNode, unique: u64, pid: u32, name: Seq<u8>)
    requires
        name.len() < 132,
    ensures
        carries_name(node.spec_mkdir_request(unique, pid, name), 48 + name.len() as int + 1, 48, name),
{
    lemma_name_layout(
        180,
        in_header((49 + name.len()) as u32, FuseOpcode::FUSE_MKDIR, unique, node.inode, pid),
        (FuseMkdirIn { mode: 755, umask: 22 }).spec_bytes(),
        48,
        name,
    );
}

/// In the `CREATE` request the path goes to the daemon terminated, and the
/// header's length ends just past it.
pub proof fn lemma_create_request_terminated(node: FuseNode, unique: u64, pid: u32, path: Seq<u8>)
    requires
        path.len() < 124,
    ensures
        carries_name(node.spec_create_request(unique, pid, path), 56 + path.len() as int + 1, 56, path),
{
    lemma_name_layout(
        180,
        in_header((57 + path.len()) as u32, FuseOpcode::FUSE_CREATE, unique, node.inode, pid),
        (FuseCreateIn { flags: 0x8241, mode: 100644, umask: 22, open_flags: 0 }).spec_bytes(),
        56,
        path,
    );
}

/// In the `RMDIR` request, and in the request that removes a file, the
/// name goes to the daemon terminated, and the header's length ends just
/// past it.
pub proof fn lemma_remove_requests_terminated(node: FuseNode, unique: u64, pid: u32, name: Seq<u8>)
    requires
        name.len() < 140,
    ensures
        carries_name(node.spec_rmdir_request(unique, pid, name), 40 + name.len() as int + 1, 40, name),
        carries_name(node.spec_unlink_request(unique, pid, name), 40 + name.len() as int + 1, 40, name),
{
    lemma_bare_name_layout(
        180,
        in_header((41 + name.len()) as u32, FuseOpcode::FUSE_RMDIR, unique, node.inode, pid),
        40,
        name,
    );
    lemma_bare_name_layout(
        180,
        in_header((41 + name.len()) as u32, FuseOpcode::FUSE_FORGET, unique, node.inode, pid),
        40,
        name,
    );
}

/// In the `LOOKUP` request the path, without its leading slashes, goes to
/// the daemon terminated, and the header's length ends just past it.
pub proof fn lemma_lookup_request_terminated(node: FuseNode, unique: u64, pid: u32, raw_path: Seq<u8>)
    requires
        trim_start_slashes(raw_path).len() < 140,
    ensures
        carries_name(
            node.spec_lookup_request(unique, pid, raw_path),
            40 + trim_start_slashes(raw_path).len() as int + 1,
            40,
            trim_start_slashes(raw_path),
        ),
{
    let t = trim_start_slashes(raw_path);
    lemma_bare_name_layout(
        180,
        in_header((41 + t.len()) as u32, FuseOpcode::FUSE_LOOKUP, unique, 1, pid),
        40,
        t,
    );
}

/// In the `RENAME2` request both names go to the daemon terminated, one
/// after the other, and the header's length ends just past the second.
pub proof fn lemma_rename2_request_terminated(
    node: FuseNode,
    unique: u64,
    pid: u32,
    old_name: Seq<u8>,
    new_name: Seq<u8>,
)
    requires
        old_name.len() + new_name.len() < 223,
    ensures
        ({
            let r = node.spec_rename2_request(unique, pid, old_name, new_name);
            let o = old_name.len() as int;
            let n = new_name.len() as int;
            &&& carries_name(r, 56 + o + 1 + n + 1, 56, old_name)
            &&& r.subrange(57 + o, 57 + o + n) == new_name
            &&& r[57 + o + n] == 0
        }),
{
    lemma_two_names_layout(
        280,
        in_header(
            (58 + old_name.len() + new_name.len()) as u32,
            FuseOpcode::FUSE_RENAME2,
            unique,
            node.inode,
            pid,
        ),
        (FuseRename2In { newdir: 1, flags: 1, padding: 0 }).spec_bytes(),
        56,
        old_name,
        new_name,
    );
}

/// In the `RENAME` request both paths go to the daemon terminated, one
/// after the other, and the header's length ends just past the second.
pub proof fn lemma_rename_request_terminated(
    node: FuseNode,
    unique: u64,
    pid: u32,
    src_path: Seq<u8>,
    dst_path: Seq<u8>,
)
    requires
        src_path.len() + dst_path.len() < 231,
    ensures
        ({
            let r = node.spec_rename_request(unique, pid, src_path, dst_path);
            let o = src_path.len() as int;
            let n = dst_path.len() as int;
            &&& carries_name(r, 48 + o + 1 + n + 1, 48, src_path)
            &&& r.subrange(49 + o, 49 + o + n) == dst_path
            &&& r[49 + o + n] == 0
        }),
{
    lemma_two_names_layout(
        280,
        in_header(
            (50 + src_path.len() + dst_path.len()) as u32,
            FuseOpcode::FUSE_RENAME,
            unique,
            node.inode,
            pid,
        ),
        (FuseRenameIn { newdir: 1 }).spec_bytes(),
        48,
        src_path,
        dst_path,
    );
}

proof fn lemma_sized(size: nat, h: FuseInHeader, arg: Seq<u8>)
    requires
        size >= 40,
        40 + arg.len() <= size,
    ensures
        splice(frame(size, h), 40, arg).len() == size,
        u32_at(splice(frame(size, h), 40, arg), 0) == h.len,
{
    lemma_frame(size, h);
    lemma_splice(frame(size, h), 40, arg);
    let r = splice(frame(size, h), 40, arg);
    assert(r[0] == frame(size, h)[0] && r[1] == frame(size, h)[1] && r[2] == frame(size, h)[2]
        && r[3] == frame(size, h)[3]);
}

/// Every request of a fixed size declares that size in its header.
#[verifier::spinoff_prover]
pub proof fn lemma_fixed_requests_sized(node: FuseNode, unique: u64, pid: u32, offset: u64)
    ensures
        u32_at(FuseNode::spec_init_request(unique, pid), 0) == FuseNode::spec_init_request(
            unique,
            pid,
        ).len(),
        u32_at(node.spec_open_dir_request(unique, pid), 0) == node.spec_open_dir_request(
            unique,
            pid,
        ).len(),
        u32_at(node.spec_open_file_request(unique, pid), 0) == node.spec_open_file_request(
            unique,
            pid,
        ).len(),
        u32_at(node.spec_release_dir_request(unique, pid), 0) == node.spec_release_dir_request(
            unique,
            pid,
        ).len(),
        u32_at(node.spec_release_file_request(unique, pid), 0) == node.spec_release_file_request(
            unique,
            pid,
        ).len(),
        u32_at(node.spec_flush_request(unique, pid), 0) == node.spec_flush_request(unique, pid).len(),
        u32_at(node.spec_access_request(unique, pid), 0) == node.spec_access_request(
            unique,
            pid,
        ).len(),
        u32_at(node.spec_fsync_request(unique, pid), 0) == node.spec_fsync_request(unique, pid).len(),
        u32_at(node.spec_get_attr_request(unique, pid), 0) == node.spec_get_attr_request(
            unique,
            pid,
        ).len(),
        u32_at(node.spec_read_at_request(unique, pid, offset), 0) == node.spec_read_at_request(
            unique,
            pid,
            offset,
        ).len(),
        u32_at(node.spec_read_dir_request(unique, pid), 0) == node.spec_read_dir_request(
            unique,
            pid,
        ).len(),
{
    assert(u32_at(FuseNode::spec_init_request(unique, pid), 0) == FuseNode::spec_init_request(unique, pid).len()) by {
        lemma_sized(
            104,
            in_header(104, FuseOpcode::FUSE_INIT, unique, 1, pid),
            FuseInitIn::new_spec(7, 38, 0x00020000, 0x33fffffb, 0).spec_bytes(),
        );
    }
    assert(u32_at(node.spec_open_dir_request(unique, pid), 0) == node.spec_open_dir_request(unique, pid).len()) by {
        lemma_sized(
            48,
            in_header(48, FuseOpcode::FUSE_OPENDIR, unique, node.inode, pid),
            (FuseOpenIn { flags: 0x18800, open_flags: 0 }).spec_bytes(),
        );
    }
    assert(u32_at(node.spec_open_file_request(unique, pid), 0) == node.spec_open_file_request(unique, pid).len()) by {
        lemma_sized(
            48,
            in_header(48, FuseOpcode::FUSE_OPEN, unique, node.inode, pid),
            (FuseOpenIn { flags: 0x8000, open_flags: 0 }).spec_bytes(),
        );
    }
    assert(u32_at(node.spec_release_dir_request(unique, pid), 0) == node.spec_release_dir_request(unique, pid).len()) by {
        lemma_sized(
            64,
            in_header(64, FuseOpcode::FUSE_RELEASEDIR, unique, node.inode, pid),
            (FuseReleaseIn { fh: node.fh, flags: 0x18800, release_flags: 0, lock_owner: 0 }).spec_bytes(),
        );
    }
    assert(u32_at(node.spec_release_file_request(unique, pid), 0) == node.spec_release_file_request(unique, pid).len()) by {
        lemma_sized(
            64,
            in_header(64, FuseOpcode::FUSE_RELEASE, unique, node.inode, pid),
            (FuseReleaseIn {
                fh: node.fh,
                flags: node.flags,
                release_flags: 0,
                lock_owner: 0,
            }).spec_bytes(),
        );
    }
    assert(u32_at(node.spec_flush_request(unique, pid), 0) == node.spec_flush_request(unique, pid).len()) by {
        lemma_sized(
            64,
            in_header(64, FuseOpcode::FUSE_FLUSH, unique, node.inode, pid),
            (FuseFlushIn { fh: node.fh, unused: 0, padding: 0, lock_owner: 0 }).spec_bytes(),
        );
    }
    assert(u32_at(node.spec_access_request(unique, pid), 0) == node.spec_access_request(unique, pid).len()) by {
        lemma_sized(
            48,
            in_header(48, FuseOpcode::FUSE_ACCESS, unique, node.inode, pid),
            (FuseAccessIn { mask: 1, padding: 0 }).spec_bytes(),
        );
    }
    assert(u32_at(node.spec_fsync_request(unique, pid), 0) == node.spec_fsync_request(unique, pid).len()) by {
        lemma_frame(40, in_header(40, FuseOpcode::FUSE_FSYNC, unique, node.inode, pid));
    }
    assert(u32_at(node.spec_get_attr_request(unique, pid), 0) == node.spec_get_attr_request(unique, pid).len()) by {
        lemma_sized(
            56,
            in_header(56, FuseOpcode::FUSE_GETATTR, unique, node.inode, pid),
            (FuseGetattrIn { getattr_flags: 0, dummy: 0, fh: node.fh }).spec_bytes(),
        );
    }
    assert(u32_at(node.spec_read_at_request(unique, pid, offset), 0) == node.spec_read_at_request(unique, pid, offset).len()) by {
        lemma_sized(
            80,
            in_header(80, FuseOpcode::FUSE_READ, unique, node.inode, pid),
            (FuseReadIn {
                fh: node.fh,
                offset: offset,
                size: 4096,
                read_flags: 0,
                lock_owner: 0,
                flags: 0x8000,
                padding: 0,
            }).spec_bytes(),
        );
    }
    assert(u32_at(node.spec_read_dir_request(unique, pid), 0) == node.spec_read_dir_request(unique, pid).len()) by {
        lemma_sized(
            80,
            in_header(80, FuseOpcode::FUSE_READDIR, unique, node.inode, pid),
            (FuseReadIn {
                fh: node.fh,
                offset: 0,
                size: 4096,
                read_flags: 0,
                lock_owner: 0,
                flags: 0x18800,
                padding: 0,
            }).spec_bytes(),
        );
    }
}

/// Writing `t` at `off` puts `t`'s bytes `a..b` at `off + a..off + b`.
proof fn lemma_splice_field(s: Seq<u8>, off: int, t: Seq<u8>, a: int, b: int)
    requires
        0 <= off,
        off + t.len() <= s.len(),
        0 <= a <= b <= t.len(),
    ensures
        splice(s, off, t).subrange(off + a, off + b) == t.subrange(a, b),
{
    assert(splice(s, off, t).subrange(off + a, off + b) =~= t.subrange(a, b));
}

/// Writing `t` at `off` leaves the bytes `a..b` before `off` as they were.
proof fn lemma_splice_before(s: Seq<u8>, off: int, t: Seq<u8>, a: int, b: int)
    requires
        0 <= a <= b <= off,
        off + t.len() <= s.len(),
    ensures
        splice(s, off, t).subrange(a, b) == s.subrange(a, b),
{
    assert(splice(s, off, t).subrange(a, b) =~= s.subrange(a, b));
}

/// A `READ` request carries, after its header, the node's file handle at
/// byte 40, the caller's offset at byte 48 and the size 4096 at byte 56.
pub proof fn lemma_read_request_carries(node: FuseNode, unique: u64, pid: u32, offset: u64)
    ensures
        ({
            let r = node.spec_read_at_request(unique, pid, offset);
            &&& r.len() == 80
            &&& u64_at(r, 40) == node.fh
            &&& u64_at(r, 48) == offset
            &&& u32_at(r, 56) == 4096
        }),
{
    let h = in_header(80, FuseOpcode::FUSE_READ, unique, node.inode, pid);
    let rb = (FuseReadIn {
        fh: node.fh,
        offset: offset,
        size: 4096,
        read_flags: 0,
        lock_owner: 0,
        flags: 0x8000,
        padding: 0,
    }).spec_bytes();
    let f = frame(80, h);
    lemma_frame(80, h);
    lemma_splice(f, 40, rb);
    let r = splice(f, 40, rb);
    lemma_splice_field(f, 40, rb, 0, 8);
    lemma_splice_field(f, 40, rb, 8, 16);
    lemma_splice_field(f, 40, rb, 16, 20);
    assert(rb.subrange(0, 8) =~= le_u64(node.fh));
    assert(rb.subrange(8, 16) =~= le_u64(offset));
    assert(rb.subrange(16, 20) =~= le_u32(4096));
    lemma_u64_at_le(r, 40, node.fh);
    lemma_u64_at_le(r, 48, offset);
    lemma_u32_at_le(r, 56, 4096);
}

/// A `WRITE` request carries, after its header, the node's file handle at
/// byte 40, the caller's offset at byte 48, the data's length plus one at
/// byte 56, and the data itself from byte 80.
pub proof fn lemma_write_request_carries(
    node: FuseNode,
    unique: u64,
    pid: u32,
    offset: u64,
    data: Seq<u8>,
)
    requires
        data.len() <= 11920,
    ensures
        ({
            let r = node.spec_write_at_request(unique, pid, offset, data);
            &&& r.len() == 12000
            &&& u64_at(r, 40) == node.fh
            &&& u64_at(r, 48) == offset
            &&& u32_at(r, 56) == data.len() + 1
            &&& r.subrange(80, 80 + data.len() as int) == data
        }),
{
    let h = in_header((81 + data.len()) as u32, FuseOpcode::FUSE_WRITE, unique, node.inode, pid);
    let wb = (FuseWriteIn {
        fh: node.fh,
        offset: offset,
        size: (data.len() + 1) as u32,
        write_flags: 0,
        lock_owner: 0,
        flags: node.flags,
        padding: 0,
    }).spec_bytes();
    let f = frame(12000, h);
    lemma_frame(12000, h);
    lemma_splice(f, 40, wb);
    let inner = splice(f, 40, wb);
    lemma_splice(inner, 80, data);
    let r = splice(inner, 80, data);
    lemma_splice_field(f, 40, wb, 0, 8);
    lemma_splice_field(f, 40, wb, 8, 16);
    lemma_splice_field(f, 40, wb, 16, 20);
    lemma_splice_before(inner, 80, data, 40, 48);
    lemma_splice_before(inner, 80, data, 48, 56);
    lemma_splice_before(inner, 80, data, 56, 60);
    assert(wb.subrange(0, 8) =~= le_u64(node.fh));
    assert(wb.subrange(8, 16) =~= le_u64(offset));
    assert(wb.subrange(16, 20) =~= le_u32((data.len() + 1) as u32));
    lemma_u64_at_le(r, 40, node.fh);
    lemma_u64_at_le(r, 48, offset);
    lemma_u32_at_le(r, 56, (data.len() + 1) as u32);
}

/// The attributes that a node reports are its own size, no blocks, and
/// directory or file with permission bits `0o755` or `0o666` as the
/// directory bit `0x4000` of its mode says.
pub proof fn lemma_node_attr_reports(node: FuseNode)
    ensures
        node.spec_node_attr().size == node.size,
        node.spec_node_attr().blocks == 0,
        (node.spec_node_attr().ty == NodeType::Dir) == (node.attr.mode & 0x4000 == 0x4000),
        node.spec_node_attr().ty == NodeType::Dir || node.spec_node_attr().ty == NodeType::File,
        node.spec_node_attr().perm == if node.attr.mode & 0x4000 == 0x4000 {
            0o755u32
        } else {
            0o666u32
        },
{
}

/// Whether `t` starts with `./`.
pub open spec fn starts_with_dot_slash(t: Seq<u8>) -> bool {
    t.len() >= 2 && t[0] == 46u8 && t[1] == 47u8
}

/// Whether `t` starts with `../`.
pub open spec fn starts_with_dot_dot_slash(t: Seq<u8>) -> bool {
    t.len() >= 3 && t[0] == 46u8 && t[1] == 46u8 && t[2] == 47u8
}

/// What a lookup of `raw_path` does with the path without its leading
/// slashes, `t`: it stays at the node exactly when `t` is empty or `.`; it
/// goes to the parent exactly when `t` is `..`; it makes a child exactly
/// when `t` is a single other name, without a slash; it goes on with the
/// rest exactly when `t` holds a slash.
pub proof fn lemma_lookup_names(raw_path: Seq<u8>)
    ensures
        ({
            let (name, rest) = spec_split_path(raw_path);
            let t = trim_start_slashes(raw_path);
            let single = forall|j: int| 0 <= j < t.len() ==> t[j] != slash();
            &&& (rest is None && is_self_name(name)) == (t.len() == 0 || t == seq![46u8])
            &&& (rest is None && is_parent_name(name)) == (t == seq![46u8, 46u8])
            &&& (rest is None && !is_self_name(name) && !is_parent_name(name)) == (single
                && t.len() > 0 && t != seq![46u8] && t != seq![46u8, 46u8])
            &&& (rest is Some) == !single
        }),
{
    lemma_split_path(raw_path);
    let t = trim_start_slashes(raw_path);
    lemma_first_slash_bounds(t, 0);
    let (name, rest) = spec_split_path(raw_path);
    if rest is None {
        assert(name == t);
    } else {
        let n = first_slash_from(t, 0);
        assert(t[n] == slash());
        assert(t.len() > 1);
        assert(t != seq![46u8]);
        assert(t != seq![46u8, 46u8]) by {
            if t == seq![46u8, 46u8] {
                assert(t[n] != slash());
            }
        }
    }
}

/// How a creation is planned from the path without its leading slashes,
/// `t`: a directory is made with `MKDIR`; otherwise a path that starts with
/// `./` is created in this node from the rest after it, one that starts
/// with `../` in the parent from the rest after it, and every other path
/// with a `CREATE` request of its own.
pub proof fn lemma_create_plan_names(path: Seq<u8>, ty: NodeType)
    ensures
        ({
            let t = trim_start_slashes(path);
            let plan = spec_create_plan(path, ty);
            &&& ty == NodeType::Dir ==> plan == CreatePlanView::Mkdir
            &&& ty != NodeType::Dir && starts_with_dot_slash(t) ==> plan == CreatePlanView::Here(
                t.skip(2),
            )
            &&& ty != NodeType::Dir && starts_with_dot_dot_slash(t) ==> plan
                == CreatePlanView::InParent(t.skip(3))
            &&& ty != NodeType::Dir && !starts_with_dot_slash(t) && !starts_with_dot_dot_slash(t)
                ==> plan == CreatePlanView::Create
        }),
{
    lemma_split_path(path);
    let t = trim_start_slashes(path);
    let (name, rest) = spec_split_path(path);
    if rest is Some {
        let r = rest.unwrap();
        assert(t == name + seq![slash()] + r);
        assert(t[name.len() as int] == slash());
        if starts_with_dot_slash(t) {
            assert(name.len() == 1) by {
                if name.len() >= 2 {
                    assert(t[1] == name[1]);
                }
            }
            assert(name =~= seq![46u8]);
            assert(r =~= t.skip(2));
        } else if starts_with_dot_dot_slash(t) {
            assert(name.len() == 2) by {
                if name.len() >= 3 {
                    assert(t[2] == name[2]);
                } else if name.len() == 1 {
                    assert(t[1] == slash());
                }
            }
            assert(name =~= seq![46u8, 46u8]);
            assert(r =~= t.skip(3));
        } else {
            if name =~= seq![46u8] {
                assert(t[0] == 46u8 && t[1] == 47u8);
            }
            if name =~= seq![46u8, 46u8] {
                assert(t[0] == 46u8 && t[1] == 46u8 && t[2] == 47u8);
            }
        }
    } else {
        assert(name == t);
        if starts_with_dot_slash(t) {
            assert(t[1] != slash());
        }
        if starts_with_dot_dot_slash(t) {
            assert(t[2] != slash());
        }
    }
}

} // verus!
