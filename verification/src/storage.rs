use vstd::prelude::*;
use crate::encoding::{
    hex_lower, sha256_absorbed, sha256_digest, sha256_finalize, sha256_new, sha256_update, to_hex,
    Sha256Hasher,
};
use crate::paths::{join_path, path_join};
use crate::text::to_owned_string;

verus! {

// ---------------------------------------------------------------------------
// Results and errors of disk operations.
// ---------------------------------------------------------------------------

pub const OP_MULTIPART: &'static str = "get_next_field_multipart";

pub const OP_FILE_CREATE: &'static str = "create_file";

pub const OP_CHUNK_READ: &'static str = "read_chunk";

pub const OP_WRITE_CHUNK: &'static str = "read_chunk";

pub const OP_FILE_OPEN: &'static str = "open_file";

pub const OP_REMOVE_FILE: &'static str = "remove_file";

pub const OP_CREATE_DIR: &'static str = "create_dir";

pub const OP_REMOVE_DIR: &'static str = "remove_dir";

pub const OP_RENAME_DIR: &'static str = "change_dir";

pub const ERR_MULTIPART: &'static str = "Ошибка при получении следующего поля multipart";

pub const ERR_FILE_CREATE: &'static str = "Ошибка создания файла";

pub const ERR_CHUNK_READ: &'static str = "Ошибка чтения чанка файла";

pub const ERR_WRITE_CHUNK: &'static str = "Ошибка записи чанка в файл";

pub const ERR_FILE_OPEN: &'static str = "Ошибка открытия файла";

pub const ERR_REMOVE_FILE: &'static str = "Ошибка удаления файла";

pub const ERR_CREATE_DIR: &'static str = "Ошибка создания директории";

pub const ERR_REMOVE_DIR: &'static str = "Ошибка удаления директории";

pub const ERR_RENAME_DIR: &'static str = "Ошибка переименования директории";

/// Message of an upload whose form held no file.
pub const ERR_NO_FILE: &'static str = "No file was uploaded";

/// A file written to disk: where, how many bytes, their SHA-256 in lower-case
/// hexadecimal, and the declared content type.
#[derive(Debug)]
pub struct FileInfo {
    pub path: String,
    pub size: i64,
    pub hash: String,
    pub mime_type: Option<String>,
}

/// A directory, by its path relative to the storage root.
#[derive(Debug)]
pub struct DirInfo {
    pub path: String,
}

/// A failed disk operation: which, why, and on which path.
#[derive(Debug)]
pub struct StorageError {
    pub operation: String,
    pub message: String,
    pub path: String,
}

impl StorageError {
    pub fn new(operation: &str, message: &str, path: &str) -> (r: StorageError)
        ensures
            r.operation@ == operation@,
            r.message@ == message@,
            r.path@ == path@,
    {
        StorageError {
            operation: to_owned_string(operation),
            message: to_owned_string(message),
            path: to_owned_string(path),
        }
    }
}

/// `e` is the error `operation`/`message` on `path`.
pub open spec fn is_storage_error(
    e: StorageError,
    operation: Seq<char>,
    message: Seq<char>,
    path: Seq<char>,
) -> bool {
    e.operation@ == operation && e.message@ == message && e.path@ == path
}

// ---------------------------------------------------------------------------
// The storage root and the outcome of each disk operation.
// ---------------------------------------------------------------------------

/// Files and directories under a root directory on disk.
pub struct Storage {
    root_path: String,
}

impl Storage {
    pub fn new(root_path: String) -> (r: Self)
        ensures
            r.root()@ == root_path@,
    {
        Self { root_path }
    }

    pub closed spec fn root(&self) -> String {
        self.root_path
    }

    /// The root directory.
    pub fn root_path(&self) -> (r: &String)
        ensures
            r@ == self.root()@,
    {
        &self.root_path
    }

    /// The location on disk of a path relative to the root.
    pub fn resolve(&self, rel: &str) -> (r: String)
        ensures
            r@ == join_path(self.root()@, rel@),
    {
        path_join(self.root_path.as_str(), rel)
    }

    /// Outcome of opening `file_path` for reading: its location, or
    /// `open_file` on that location.
    pub fn read_file_outcome(&self, file_path: &str, opened: bool) -> (r: Result<String, StorageError>)
        ensures
            opened ==> (r matches Ok(p) && p@ == join_path(self.root()@, file_path@)),
            !opened ==> (r matches Err(e) && is_storage_error(
                e,
                OP_FILE_OPEN@,
                ERR_FILE_OPEN@,
                join_path(self.root()@, file_path@),
            )),
    {
        let location = self.resolve(file_path);
        if opened {
            Ok(location)
        } else {
            Err(StorageError::new(OP_FILE_OPEN, ERR_FILE_OPEN, location.as_str()))
        }
    }

    /// Outcome of removing the file `file_path`.
    pub fn remove_file_outcome(&self, file_path: &str, removed: bool) -> (r: Result<(), StorageError>)
        ensures
            removed ==> r is Ok,
            !removed ==> (r matches Err(e) && is_storage_error(
                e,
                OP_REMOVE_FILE@,
                ERR_REMOVE_FILE@,
                join_path(self.root()@, file_path@),
            )),
    {
        if removed {
            Ok(())
        } else {
            let location = self.resolve(file_path);
            Err(StorageError::new(OP_REMOVE_FILE, ERR_REMOVE_FILE, location.as_str()))
        }
    }

    /// Outcome of creating the directory `dir_name` with its missing parents.
    pub fn create_dir_outcome(&self, dir_name: &str, created: bool) -> (r: Result<DirInfo, StorageError>)
        ensures
            created ==> (r matches Ok(d) && d.path@ == dir_name@),
            !created ==> (r matches Err(e) && is_storage_error(
                e,
                OP_CREATE_DIR@,
                ERR_CREATE_DIR@,
                join_path(self.root()@, dir_name@),
            )),
    {
        if created {
            Ok(DirInfo { path: to_owned_string(dir_name) })
        } else {
            let location = self.resolve(dir_name);
            Err(StorageError::new(OP_CREATE_DIR, ERR_CREATE_DIR, location.as_str()))
        }
    }

    /// Outcome of removing the empty directory `dir_name`.
    pub fn remove_dir_outcome(&self, dir_name: &str, removed: bool) -> (r: Result<(), StorageError>)
        ensures
            removed ==> r is Ok,
            !removed ==> (r matches Err(e) && is_storage_error(
                e,
                OP_REMOVE_DIR@,
                ERR_REMOVE_DIR@,
                join_path(self.root()@, dir_name@),
            )),
    {
        if removed {
            Ok(())
        } else {
            let location = self.resolve(dir_name);
            Err(StorageError::new(OP_REMOVE_DIR, ERR_REMOVE_DIR, location.as_str()))
        }
    }

    /// Outcome of renaming the directory `dir_name` to `new_dir_name`; a failure
    /// names the old location.
    pub fn change_name_dir_outcome(&self, dir_name: &str, new_dir_name: &str, renamed: bool) -> (r:
        Result<DirInfo, StorageError>)
        ensures
            renamed ==> (r matches Ok(d) && d.path@ == new_dir_name@),
            !renamed ==> (r matches Err(e) && is_storage_error(
                e,
                OP_RENAME_DIR@,
                ERR_RENAME_DIR@,
                join_path(self.root()@, dir_name@),
            )),
    {
        if renamed {
            Ok(DirInfo { path: to_owned_string(new_dir_name) })
        } else {
            let location = self.resolve(dir_name);
            Err(StorageError::new(OP_RENAME_DIR, ERR_RENAME_DIR, location.as_str()))
        }
    }

    /// Starts an upload into the directory `path_to_upload`: the first field of the
    /// multipart form is to be read.
    pub fn upload_file(&self, path_to_upload: &str) -> (r: UploadAwaitingField)
        ensures
            r.session.written() == Seq::<u8>::empty(),
            r.session.dir_path()@ == join_path(self.root()@, path_to_upload@),
            r.session.target()@ == path_to_upload@,
            r.session.saved_path() is None,
            r.session.content_type() is None,
    {
        let session = UploadSession {
            dir_path: self.resolve(path_to_upload),
            path_to_upload: to_owned_string(path_to_upload),
            file_size: 0,
            content_type: None,
            hasher: sha256_new(),
            saved_path: None,
            written: Ghost(Seq::<u8>::empty()),
        };
        UploadAwaitingField { session }
    }
}

// ---------------------------------------------------------------------------
// Upload of a multipart form, one field and one chunk at a time.
// ---------------------------------------------------------------------------

/// What an upload has done so far.
pub struct UploadSession {
    dir_path: String,
    path_to_upload: String,
    file_size: i64,
    content_type: Option<String>,
    hasher: Sha256Hasher,
    saved_path: Option<String>,
    written: Ghost<Seq<u8>>,
}

impl UploadSession {
    /// The hasher has absorbed exactly the bytes written, and the size counts them.
    #[verifier::type_invariant]
    spec fn inv(self) -> bool {
        &&& sha256_absorbed(self.hasher) == self.written@
        &&& self.file_size == self.written@.len()
    }

    /// All bytes written to disk so far, in order.
    pub closed spec fn written(&self) -> Seq<u8> {
        self.written@
    }

    /// The location of the target directory on disk.
    pub closed spec fn dir_path(&self) -> String {
        self.dir_path
    }

    /// The target directory, relative to the storage root.
    pub closed spec fn target(&self) -> String {
        self.path_to_upload
    }

    /// The content type of the latest field.
    pub closed spec fn content_type(&self) -> Option<String> {
        self.content_type
    }

    /// The location of the latest file written completely.
    pub closed spec fn saved_path(&self) -> Option<String> {
        self.saved_path
    }

    /// Number of bytes written so far.
    pub fn size(&self) -> (r: i64)
        ensures
            r == self.written().len(),
    {
        proof {
            use_type_invariant(self);
        }
        self.file_size
    }
}

/// An upload waiting for the next field of the form.
pub struct UploadAwaitingField {
    pub session: UploadSession,
}

/// An upload waiting for the file of the current field to be created.
pub struct UploadCreatingFile {
    pub session: UploadSession,
    pub current_path: String,
}

/// An upload waiting for the next chunk of the current field.
pub struct UploadReadingChunk {
    pub session: UploadSession,
    pub current_path: String,
}

/// An upload waiting for a chunk to be written to the current file.
pub struct UploadWritingChunk {
    pub session: UploadSession,
    pub current_path: String,
    pub chunk: Vec<u8>,
}

/// What follows a field of the form: a file to create, or the end of the upload.
pub enum UploadAfterField {
    CreateFile(UploadCreatingFile),
    Finished(Result<FileInfo, StorageError>),
}

/// What follows a chunk: writing it, the next field, or a failure.
pub enum UploadAfterChunk {
    Write(UploadWritingChunk),
    FieldDone(UploadAwaitingField),
    Failed(StorageError),
}

impl UploadAwaitingField {
    /// Decides on the next field of the form. A failed read is `get_next_field_multipart`
    /// on the target directory. A field with file name `n` (empty when none) and content
    /// type `t` is to be written to `n` inside the target directory. The end of the form
    /// reports the last file written, the byte count and the lower-case hexadecimal
    /// SHA-256 of all bytes written, and the last content type; with no file written it
    /// is the error `No file was uploaded`.
    pub fn on_next_field(self, next: Result<Option<(Option<String>, Option<String>)>, ()>) -> (r:
        UploadAfterField)
        ensures
            next is Err ==> (r matches UploadAfterField::Finished(Err(e)) && is_storage_error(
                e,
                OP_MULTIPART@,
                ERR_MULTIPART@,
                self.session.target()@,
            )),
            next matches Ok(Some(field)) ==> (r matches UploadAfterField::CreateFile(c)
                && c.session.written() == self.session.written()
                && c.session.dir_path() == self.session.dir_path() && c.session.target()
                == self.session.target() && c.session.saved_path() == self.session.saved_path()
                && c.session.content_type() == field.1 && c.current_path@ == join_path(
                self.session.dir_path()@,
                match field.0 {
                    Some(n) => n@,
                    None => Seq::<char>::empty(),
                },
            )),
            next matches Ok(None) ==> (match self.session.saved_path() {
                None => r matches UploadAfterField::Finished(Err(e)) && is_storage_error(
                    e,
                    OP_MULTIPART@,
                    ERR_NO_FILE@,
                    self.session.target()@,
                ),
                Some(p) => r matches UploadAfterField::Finished(Ok(info)) && info.path == p
                    && info.size == self.session.written().len() && info.hash@ == hex_lower(
                    sha256_digest(self.session.written()),
                ) && info.mime_type == self.session.content_type(),
            }),
    {
        proof {
            use_type_invariant(&self.session);
        }
        let session = self.session;
        match next {
            Err(_) => UploadAfterField::Finished(
                Err(
                    StorageError::new(OP_MULTIPART, ERR_MULTIPART, session.path_to_upload.as_str()),
                ),
            ),
            Ok(Some((file_name, content_type))) => {
                let name = match file_name {
                    Some(n) => n,
                    None => String::new(),
                };
                let current_path = path_join(session.dir_path.as_str(), name.as_str());
                let session = UploadSession { content_type, ..session };
                UploadAfterField::CreateFile(UploadCreatingFile { session, current_path })
            },
            Ok(None) => {
                let digest = sha256_finalize(session.hasher);
                let hash = to_hex(digest.as_slice());
                match session.saved_path {
                    Some(path) => UploadAfterField::Finished(
                        Ok(
                            FileInfo {
                                path,
                                size: session.file_size,
                                hash,
                                mime_type: session.content_type,
                            },
                        ),
                    ),
                    None => UploadAfterField::Finished(
                        Err(
                            StorageError::new(
                                OP_MULTIPART,
                                ERR_NO_FILE,
                                session.path_to_upload.as_str(),
                            ),
                        ),
                    ),
                }
            },
        }
    }
}

impl UploadCreatingFile {
    /// Decides once the file was created or not: a failure is `create_file` on its path;
    /// otherwise the field's chunks are to be read.
    pub fn on_file_created(self, created: bool) -> (r: Result<UploadReadingChunk, StorageError>)
        ensures
            !created ==> (r matches Err(e) && is_storage_error(
                e,
                OP_FILE_CREATE@,
                ERR_FILE_CREATE@,
                self.current_path@,
            )),
            created ==> (r matches Ok(c) && c.session == self.session && c.current_path == self.current_path),
    {
        if created {
            Ok(UploadReadingChunk { session: self.session, current_path: self.current_path })
        } else {
            Err(StorageError::new(OP_FILE_CREATE, ERR_FILE_CREATE, self.current_path.as_str()))
        }
    }
}

impl UploadReadingChunk {
    /// Decides on the next chunk of the field: a failed read is `read_chunk` on the
    /// file; a chunk is to be written; the end of the field records the file as
    /// written and moves to the next field.
    pub fn on_chunk(self, chunk: Result<Option<Vec<u8>>, ()>) -> (r: UploadAfterChunk)
        ensures
            chunk is Err ==> (r matches UploadAfterChunk::Failed(e) && is_storage_error(
                e,
                OP_CHUNK_READ@,
                ERR_CHUNK_READ@,
                self.current_path@,
            )),
            chunk matches Ok(Some(bytes)) ==> (r matches UploadAfterChunk::Write(w) && w.session
                == self.session && w.current_path == self.current_path && w.chunk == bytes),
            chunk matches Ok(None) ==> (r matches UploadAfterChunk::FieldDone(next)
                && next.session.written() == self.session.written()
                && next.session.dir_path() == self.session.dir_path() && next.session.target()
                == self.session.target() && next.session.content_type()
                == self.session.content_type() && next.session.saved_path() == Some(self.current_path)),
    {
        proof {
            use_type_invariant(&self.session);
        }
        match chunk {
            Err(_) => UploadAfterChunk::Failed(
                StorageError::new(OP_CHUNK_READ, ERR_CHUNK_READ, self.current_path.as_str()),
            ),
            Ok(Some(bytes)) => UploadAfterChunk::Write(
                UploadWritingChunk {
                    session: self.session,
                    current_path: self.current_path,
                    chunk: bytes,
                },
            ),
            Ok(None) => {
                let session = UploadSession { saved_path: Some(self.current_path), ..self.session };
                UploadAfterChunk::FieldDone(UploadAwaitingField { session })
            },
        }
    }
}

impl UploadWritingChunk {
    /// Decides once the chunk was written or not: a failure is the write error on the
    /// file; a written chunk is appended to the bytes hashed and counted.
    pub fn on_chunk_written(self, written: bool) -> (r: Result<UploadReadingChunk, StorageError>)
        requires
            self.session.written().len() + self.chunk@.len() <= i64::MAX,
        ensures
            !written ==> (r matches Err(e) && is_storage_error(
                e,
                OP_WRITE_CHUNK@,
                ERR_WRITE_CHUNK@,
                self.current_path@,
            )),
            written ==> (r matches Ok(next) && next.session.written()
                == self.session.written() + self.chunk@ && next.session.dir_path()
                == self.session.dir_path() && next.session.target() == self.session.target()
                && next.session.content_type() == self.session.content_type()
                && next.session.saved_path() == self.session.saved_path() && next.current_path
                == self.current_path),
    {
        proof {
            use_type_invariant(&self.session);
        }
        if !written {
            return Err(
                StorageError::new(OP_WRITE_CHUNK, ERR_WRITE_CHUNK, self.current_path.as_str()),
            );
        }
        let UploadWritingChunk { session, current_path, chunk } = self;
        let UploadSession {
            dir_path,
            path_to_upload,
            file_size,
            content_type,
            mut hasher,
            saved_path,
            written: old_written,
        } = session;
        sha256_update(&mut hasher, chunk.as_slice());
        let new_size = file_size + chunk.len() as i64;
        let session = UploadSession {
            dir_path,
            path_to_upload,
            file_size: new_size,
            content_type,
            hasher,
            saved_path,
            written: Ghost(old_written@ + chunk@),
        };
        Ok(UploadReadingChunk { session, current_path })
    }
}

// ---------------------------------------------------------------------------
// The directories on disk as directory creation changes them.
// ---------------------------------------------------------------------------

/// A directory path and each of its ancestors: the prefixes that end just before a `/`.
pub open spec fn dir_and_ancestors(path: Seq<char>) -> Set<Seq<char>> {
    Set::new(
        |q: Seq<char>|
            q == path || (q.len() < path.len() && path.subrange(0, q.len() as int) == q
                && path[q.len() as int] == '/'),
    )
}

/// The directories on disk after `create_dir` made `path` with its missing parents.
pub open spec fn with_dir_all(dirs: Set<Seq<char>>, path: Seq<char>) -> Set<Seq<char>> {
    dirs.union(dir_and_ancestors(path))
}

/// Creating a directory is idempotent: afterwards it exists, and creating it again
/// leaves the directories on disk as they are (both calls then report the directory
/// by its relative name, as `create_dir_outcome` states).
pub proof fn lemma_create_dir_idempotent(dirs: Set<Seq<char>>, path: Seq<char>)
    ensures
        with_dir_all(dirs, path).contains(path),
        with_dir_all(with_dir_all(dirs, path), path) == with_dir_all(dirs, path),
{
    assert(dir_and_ancestors(path).contains(path));
    assert(with_dir_all(with_dir_all(dirs, path), path) =~= with_dir_all(dirs, path));
}

} // verus!
