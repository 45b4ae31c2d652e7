//! Handles to selected files, and the store of native file objects they refer to.
//!
//! A handle selected in the browser names a native file object and can be read
//! as bytes; a handle selected on the desktop holds a filesystem path. Each kind
//! answers the other kind's operation with [`HandleError::Unsupported`].

use vstd::prelude::*;

verus! {

/// Why an operation on a handle did not yield a value.
#[derive(Clone, Copy, Debug, PartialEq, Eq, Structural)]
pub enum HandleError {
    /// The handle's backend does not offer the operation.
    Unsupported,
    /// The reading primitive reported an error instead of a buffer.
    ReadFailed,
}

/// What a file-reading primitive reports when it is done.
#[derive(Clone, Debug, PartialEq, Eq)]
pub enum ReadOutcome {
    /// The read completed with this buffer.
    Loaded(Vec<u8>),
    /// The read ended in an error.
    Failed,
}

/// The mathematical value of a [`FileHandle`].
pub enum HandleView {
    Browser { file: u64 },
    Desktop { path: Seq<char> },
}

/// A handle to one selected file.
#[derive(Clone, Debug, PartialEq, Eq)]
pub enum FileHandle {
    /// A file selected in the browser, named by its native file object.
    Browser { file: u64 },
    /// A file selected on the desktop, named by its path.
    Desktop { path: String },
}

impl View for FileHandle {
    type V = HandleView;

    open spec fn view(&self) -> HandleView {
        match *self {
            FileHandle::Browser { file } => HandleView::Browser { file },
            FileHandle::Desktop { path } => HandleView::Desktop { path: path@ },
        }
    }
}

/// The browser handles for a selection, one per native file object, in order.
pub open spec fn browser_handles(files: Seq<u64>) -> Seq<HandleView> {
    Seq::new(files.len(), |i: int| HandleView::Browser { file: files[i] })
}

/// The views of a sequence of handles.
pub open spec fn handle_views(handles: Seq<FileHandle>) -> Seq<HandleView> {
    Seq::new(handles.len(), |i: int| handles[i]@)
}

/// A fresh buffer with the length and content of `src`.
pub fn copy_bytes(src: &Vec<u8>) -> (out: Vec<u8>)
    ensures
        out@ == src@,
{
    let n: usize = src.len();
    let mut out: Vec<u8> = Vec::new();
    let mut i: usize = 0;
    while i < n
        invariant
            n == src@.len(),
            i <= n,
            out@ == src@.take(i as int),
        decreases n - i,
    {
        out.push(src[i]);
        i += 1;
        assert(out@ =~= src@.take(i as int));
    }
    assert(src@.take(n as int) =~= src@);
    out
}

/// Wraps each selected native file object as a browser handle, keeping the order.
pub fn harvest(files: &Vec<u64>) -> (out: Vec<FileHandle>)
    ensures
        handle_views(out@) == browser_handles(files@),
{
    let n: usize = files.len();
    let mut out: Vec<FileHandle> = Vec::new();
    let mut i: usize = 0;
    while i < n
        invariant
            n == files@.len(),
            i <= n,
            out@.len() == i,
            forall|k: int|
                0 <= k < i ==> (#[trigger] out@[k])@ == (HandleView::Browser { file: files@[k] }),
        decreases n - i,
    {
        out.push(FileHandle::Browser { file: files[i] });
        i += 1;
    }
    assert(handle_views(out@) =~= browser_handles(files@));
    out
}

/// The native file objects that browser handles refer to, each with its bytes.
///
/// A file object is immutable once it is in the store.
pub struct FileStore {
    files: Vec<Vec<u8>>,
}

impl FileStore {
    /// The bytes of each file object, by its number.
    pub closed spec fn contents(&self) -> Seq<Seq<u8>> {
        Seq::new(self.files@.len(), |i: int| self.files@[i]@)
    }

    /// Whether the store holds a file object with this number.
    pub open spec fn holds(&self, file: u64) -> bool {
        (file as int) < self.contents().len()
    }

    /// A store without file objects.
    pub fn new() -> (s: FileStore)
        ensures
            s.contents() == Seq::<Seq<u8>>::empty(),
    {
        let s = FileStore { files: Vec::new() };
        assert(s.contents() =~= Seq::<Seq<u8>>::empty());
        s
    }

    /// The number of file objects in the store.
    pub fn len(&self) -> (n: usize)
        ensures
            n == self.contents().len(),
    {
        self.files.len()
    }

    /// Adds a file object with the given bytes and returns its number.
    pub fn add(&mut self, bytes: Vec<u8>) -> (file: u64)
        ensures
            file == old(self).contents().len(),
            final(self).contents() == old(self).contents().push(bytes@),
    {
        let n: usize = self.files.len();
        self.files.push(bytes);
        assert(self.contents() =~= old(self).contents().push(bytes@));
        n as u64
    }

    /// Requests a read of a file object and reports how the read ended: with a
    /// fresh buffer of the object's bytes, or in an error where the store holds
    /// no such object.
    pub fn fetch(&self, file: u64) -> (outcome: ReadOutcome)
        ensures
            self.holds(file) ==> (outcome matches ReadOutcome::Loaded(buf) && buf@
                == self.contents()[file as int]),
            !self.holds(file) ==> outcome is Failed,
    {
        if file < self.files.len() as u64 {
            let buf = copy_bytes(&self.files[file as usize]);
            ReadOutcome::Loaded(buf)
        } else {
            ReadOutcome::Failed
        }
    }
}

impl FileHandle {
    /// What `read` returns for a handle, given how the reading primitive ended.
    pub open spec fn read_result(self, outcome: ReadOutcome) -> Result<Seq<u8>, HandleError> {
        match self {
            FileHandle::Desktop { .. } => Err(HandleError::Unsupported),
            FileHandle::Browser { .. } => match outcome {
                ReadOutcome::Loaded(buf) => Ok(buf@),
                ReadOutcome::Failed => Err(HandleError::ReadFailed),
            },
        }
    }

    /// The bytes of a reading result, as a sequence.
    pub open spec fn bytes_view(r: Result<Vec<u8>, HandleError>) -> Result<Seq<u8>, HandleError> {
        match r {
            Ok(v) => Ok(v@),
            Err(e) => Err(e),
        }
    }

    /// The path of a desktop handle. A browser handle has no path: for it the
    /// answer is always `Unsupported`.
    pub fn path(&self) -> (r: Result<&str, HandleError>)
        ensures
            match self@ {
                HandleView::Browser { .. } => r == Err::<&str, HandleError>(
                    HandleError::Unsupported,
                ),
                HandleView::Desktop { path } => r matches Ok(p) && p@ == path,
            },
    {
        match self {
            FileHandle::Browser { .. } => Err(HandleError::Unsupported),
            FileHandle::Desktop { path } => Ok(path.as_str()),
        }
    }

    /// The native file object of a browser handle; none for a desktop handle.
    pub fn inner(&self) -> (r: Option<u64>)
        ensures
            match self@ {
                HandleView::Browser { file } => r == Some(file),
                HandleView::Desktop { .. } => r.is_none(),
            },
    {
        match self {
            FileHandle::Browser { file } => Some(*file),
            FileHandle::Desktop { .. } => None,
        }
    }

    /// The native file object of a browser handle, as `inner` gives it.
    pub fn web_sys_file(&self) -> (r: Option<u64>)
        ensures
            match self@ {
                HandleView::Browser { file } => r == Some(file),
                HandleView::Desktop { .. } => r.is_none(),
            },
    {
        self.inner()
    }

    /// Completes a read: copies the buffer that the reading primitive reported
    /// into a buffer of its own, of exactly that length. An error of the
    /// primitive is a failed read, never an empty result.
    pub fn finish_read(&self, outcome: &ReadOutcome) -> (r: Result<Vec<u8>, HandleError>)
        ensures
            Self::bytes_view(r) == self.read_result(*outcome),
    {
        match self {
            FileHandle::Desktop { .. } => Err(HandleError::Unsupported),
            FileHandle::Browser { .. } => match outcome {
                ReadOutcome::Loaded(buf) => Ok(copy_bytes(buf)),
                ReadOutcome::Failed => Err(HandleError::ReadFailed),
            },
        }
    }

    /// What `read` returns for a handle against a store.
    pub open spec fn read_from(self, store: FileStore) -> Result<Seq<u8>, HandleError> {
        match self {
            FileHandle::Desktop { .. } => Err(HandleError::Unsupported),
            FileHandle::Browser { file } => if store.holds(file) {
                Ok(store.contents()[file as int])
            } else {
                Err(HandleError::ReadFailed)
            },
        }
    }

    /// Reads the whole file behind a browser handle: a fresh read is requested
    /// from the store on every call, and its buffer is copied into a buffer of
    /// the caller's own.
    pub fn read(&self, store: &FileStore) -> (r: Result<Vec<u8>, HandleError>)
        ensures
            Self::bytes_view(r) == self.read_from(*store),
    {
        match self {
            FileHandle::Desktop { .. } => Err(HandleError::Unsupported),
            FileHandle::Browser { file } => {
                let outcome = store.fetch(*file);
                self.finish_read(&outcome)
            },
        }
    }
}

/// Reading is repeatable: any two reads of a browser handle whose file object
/// the store holds succeed with the same bytes, as many as the file has.
pub proof fn lemma_read_repeatable(
    handle: FileHandle,
    store: FileStore,
    first: Result<Vec<u8>, HandleError>,
    second: Result<Vec<u8>, HandleError>,
)
    requires
        handle@ matches HandleView::Browser { file } && store.holds(file),
        FileHandle::bytes_view(first) == handle.read_from(store),
        FileHandle::bytes_view(second) == handle.read_from(store),
    ensures
        first matches Ok(a) && second matches Ok(b) && a@ == b@ && a@.len()
            == store.contents()[handle->Browser_file as int].len(),
{
}

} // verus!
