//! The file-handle layer over the storage volume's native stream API.
//!
//! Every caller-supplied path is resolved under a fixed mount prefix. The
//! functions here build the exact byte buffers that the native open, write
//! and formatted-write calls consume, and make every decision of the layer:
//! whether an open result is a live handle, whether a reported length admits
//! a read, and what buffer that read fills. The native calls themselves live
//! in a thin unverified runtime that carries each request out and hands the
//! raw results back.

use vstd::prelude::*;
use vstd::string::StringSliceAdditionalSpecFns;

use crate::cbuf::{c_view, lemma_nul_free_c_view, nul_terminated, nul_terminated_spec};

verus! {

/// The byte '/'.
pub const SLASH: u8 = 47;

/// The byte 'u'.
pub const LOWER_U: u8 = 117;

/// The byte 's'.
pub const LOWER_S: u8 = 115;

/// The byte 'd'.
pub const LOWER_D: u8 = 100;

/// The byte 'w'.
pub const LOWER_W: u8 = 119;

/// The byte 'b'.
pub const LOWER_B: u8 = 98;

/// The byte 'r'.
pub const LOWER_R: u8 = 114;

/// The fixed path segment under which the volume's files are addressed:
/// the bytes of "/usd/".
pub open spec fn mount_prefix() -> Seq<u8> {
    seq![SLASH, LOWER_U, LOWER_S, LOWER_D, SLASH]
}

/// The null-terminated path handed to the native open call for a
/// caller-supplied relative path: mount prefix, then the path's bytes,
/// then the terminator.
pub open spec fn open_path_spec(path: Seq<u8>) -> Seq<u8> {
    nul_terminated_spec(mount_prefix() + path)
}

/// The null-terminated mode string for create-for-write: "wb".
pub open spec fn mode_wb_spec() -> Seq<u8> {
    seq![LOWER_W, LOWER_B, 0u8]
}

/// The null-terminated mode string for open-for-read: "rb".
pub open spec fn mode_rb_spec() -> Seq<u8> {
    seq![LOWER_R, LOWER_B, 0u8]
}

/// Mount prefix, then the path's bytes, then the terminator, as one owned
/// exactly-sized buffer.
fn mount_path(path: &str) -> (r: Vec<u8>)
    ensures
        r@ == open_path_spec(path.spec_bytes()),
{
    let bs = path.as_bytes();
    let mut joined: Vec<u8> = Vec::new();
    joined.push(SLASH);
    joined.push(LOWER_U);
    joined.push(LOWER_S);
    joined.push(LOWER_D);
    joined.push(SLASH);
    assert(joined@ =~= mount_prefix());
    let mut i: usize = 0;
    while i < bs.len()
        invariant
            i <= bs.len(),
            joined@ == mount_prefix() + bs@.take(i as int),
        decreases bs.len() - i,
    {
        joined.push(bs[i]);
        i += 1;
        assert(mount_prefix() + bs@.take(i as int) =~= (mount_prefix() + bs@.take(i - 1)).push(
            bs@[i - 1],
        ));
    }
    assert(mount_prefix() + bs@.take(bs@.len() as int) =~= mount_prefix() + bs@);
    nul_terminated(joined.as_slice())
}

/// What the native open call — which stops reading at the first zero byte —
/// sees of an open request's path buffer: for a caller path free of zero
/// bytes, exactly the mount prefix followed by the whole path. The layer
/// performs no validation and no rewriting; what the caller names under the
/// prefix is what the native layer is asked to open.
pub proof fn lemma_open_path_reaches_native_whole(path: Seq<u8>)
    requires
        forall|i: int| 0 <= i < path.len() ==> path[i] != 0u8,
    ensures
        c_view(open_path_spec(path)) == mount_prefix() + path,
{
    let joined = mount_prefix() + path;
    assert forall|i: int| 0 <= i < joined.len() implies joined[i] != 0u8 by {
        if i < 5 {
            assert(joined[i] == mount_prefix()[i]);
            assert(mount_prefix()[0] != 0u8 && mount_prefix()[1] != 0u8 && mount_prefix()[2]
                != 0u8 && mount_prefix()[3] != 0u8 && mount_prefix()[4] != 0u8);
        } else {
            assert(joined[i] == path[i - 5]);
        }
    }
    lemma_nul_free_c_view(joined);
}

/// What the native open call is to be given: a null-terminated path under
/// the mount prefix and a null-terminated mode string.
pub struct OpenRequest {
    /// Null-terminated path: mount prefix, caller path, terminator.
    pub path: Vec<u8>,
    /// Null-terminated mode string, binary read or binary write-create.
    pub mode: Vec<u8>,
}

/// A single bulk-write to be issued against a live handle: the buffer's
/// bytes, exactly and in order, with no framing added by this layer.
pub struct WriteRequest {
    /// The raw handle the write is addressed to; never null.
    pub handle: usize,
    /// The bytes to write, exactly the caller's buffer.
    pub bytes: Vec<u8>,
}

/// A single formatted-write to be issued against a live handle. The text is
/// handed to the native formatting engine as the format string itself, byte
/// for byte with a trailing terminator: a percent sign in the text is not
/// escaped by this layer, so the engine will interpret it. That is a
/// documented hazard of the string-write operation, not a feature.
pub struct FormatRequest {
    /// The raw handle the write is addressed to; never null.
    pub handle: usize,
    /// Null-terminated format bytes: the caller's text, then the terminator.
    pub fmt: Vec<u8>,
}

/// How a whole-file read proceeds once the native length query has answered.
pub enum ReadPlan {
    /// The length query failed (a negative value): the read yields an absent
    /// result and the handle is to be closed without any read being issued.
    Abort {
        /// The raw handle to close; never null.
        handle: usize,
    },
    /// The length is usable: fill the buffer with one bulk read of its full
    /// length, close the handle, and return the buffer.
    Fill {
        /// The raw handle to read from and then close; never null.
        handle: usize,
        /// Zero-initialised buffer of exactly the reported length.
        buffer: Vec<u8>,
    },
}

/// An owned, live handle to one native stream. A value of this type always
/// refers to a handle that has not yet been released: the operations that
/// release it (`read_file`, `finish`) consume the value, so no further
/// operation can be issued afterwards — use-after-close fails to compile.
pub struct File {
    raw: usize,
}

impl File {
    /// The raw native handle this value refers to.
    pub closed spec fn id(&self) -> usize {
        self.raw
    }

    #[verifier::type_invariant]
    spec fn live(&self) -> bool {
        self.raw != 0
    }

    /// The open request for a **new** file at the given location, with only
    /// write permissions: the path under the mount prefix and mode "wb".
    pub fn create(path: &str) -> (r: OpenRequest)
        ensures
            r.path@ == open_path_spec(path.spec_bytes()),
            r.mode@ == mode_wb_spec(),
    {
        let mut mode: Vec<u8> = Vec::new();
        mode.push(LOWER_W);
        mode.push(LOWER_B);
        mode.push(0u8);
        assert(mode@ =~= mode_wb_spec());
        OpenRequest { path: mount_path(path), mode }
    }

    /// The open request for an **existing** file at the given location, with
    /// only read permissions: the path under the mount prefix and mode "rb".
    pub fn open(path: &str) -> (r: OpenRequest)
        ensures
            r.path@ == open_path_spec(path.spec_bytes()),
            r.mode@ == mode_rb_spec(),
    {
        let mut mode: Vec<u8> = Vec::new();
        mode.push(LOWER_R);
        mode.push(LOWER_B);
        mode.push(0u8);
        assert(mode@ =~= mode_rb_spec());
        OpenRequest { path: mount_path(path), mode }
    }

    /// The decision on a native open result: a null handle — volume missing,
    /// bad path, no space, no permission, none distinguished here — yields an
    /// absent result; anything else becomes a live handle, and nothing else
    /// ever does.
    pub fn attach(raw: usize) -> (r: Option<File>)
        ensures
            r is Some <==> raw != 0,
            r matches Some(f) ==> f.id() == raw,
    {
        if raw == 0 {
            None
        } else {
            Some(File { raw })
        }
    }

    /// The whole-file read, decided on the length the native query reported.
    /// Consumes the handle: whichever way the read goes, the handle is to be
    /// closed and can never be used again. A negative length aborts the read;
    /// a length the machine cannot hold in a buffer aborts it too; otherwise
    /// the plan carries a zero-initialised buffer of exactly that length for
    /// the single bulk read to fill.
    pub fn read_file(self, len: i64) -> (r: ReadPlan)
        ensures
            r is Fill <==> 0 <= len <= usize::MAX,
            r matches ReadPlan::Abort { handle } ==> handle == self.id(),
            r matches ReadPlan::Fill { handle, buffer } ==> {
                &&& handle == self.id()
                &&& buffer@.len() == len
                &&& forall|i: int| 0 <= i < buffer@.len() ==> buffer@[i] == 0u8
            },
    {
        proof {
            use_type_invariant(&self);
        }
        if len < 0 || len as u64 > usize::MAX as u64 {
            ReadPlan::Abort { handle: self.raw }
        } else {
            let n = len as usize;
            let mut buffer: Vec<u8> = Vec::new();
            let mut i: usize = 0;
            while i < n
                invariant
                    i <= n,
                    buffer@.len() == i,
                    forall|j: int| 0 <= j < buffer@.len() ==> buffer@[j] == 0u8,
                decreases n - i,
            {
                buffer.push(0u8);
                i += 1;
            }
            ReadPlan::Fill { handle: self.raw, buffer }
        }
    }

    /// The bulk-write request for a byte buffer: the handle and the buffer's
    /// bytes, exactly and in order. The layer adds nothing, drops nothing and
    /// changes nothing — what is handed to the native write is the caller's
    /// data itself. The handle stays usable.
    pub fn write(&mut self, buffer: &[u8]) -> (r: WriteRequest)
        ensures
            *final(self) == *old(self),
            r.handle == old(self).id(),
            r.handle != 0,
            r.bytes@ == buffer@,
    {
        proof {
            use_type_invariant(&*self);
        }
        let mut bytes: Vec<u8> = Vec::new();
        let mut i: usize = 0;
        while i < buffer.len()
            invariant
                i <= buffer.len(),
                bytes@ == buffer@.take(i as int),
            decreases buffer.len() - i,
        {
            bytes.push(buffer[i]);
            i += 1;
            assert(buffer@.take(i as int) =~= buffer@.take(i - 1).push(buffer@[i - 1]));
        }
        assert(buffer@.take(buffer@.len() as int) =~= buffer@);
        WriteRequest { handle: self.raw, bytes }
    }

    /// The formatted-write request for a text value: the handle and the
    /// text's bytes followed by one terminator, to be passed to the native
    /// formatted-write call as its format string. The handle stays usable.
    /// The native call's integer status is the caller's to interpret.
    pub fn write_str(&mut self, string: &str) -> (r: FormatRequest)
        ensures
            *final(self) == *old(self),
            r.handle == old(self).id(),
            r.handle != 0,
            r.fmt@ == nul_terminated_spec(string.spec_bytes()),
    {
        proof {
            use_type_invariant(&*self);
        }
        FormatRequest { handle: self.raw, fmt: nul_terminated(string.as_bytes()) }
    }

    /// The raw native handle, with no safety checking and no transfer of
    /// ownership: an escape hatch for stream operations this layer does not
    /// cover. The caller must not release the handle through it.
    pub fn internal_fs(&self) -> (r: usize)
        ensures
            r == self.id(),
            r != 0,
    {
        proof {
            use_type_invariant(self);
        }
        self.raw
    }

    /// Explicit teardown: consumes the handle and yields the raw handle the
    /// one native close call is to be issued against. After this, no
    /// operation on the value compiles, so the close happens exactly once.
    pub fn finish(self) -> (r: usize)
        ensures
            r == self.id(),
            r != 0,
    {
        proof {
            use_type_invariant(&self);
        }
        self.raw
    }
}

} // verus!
