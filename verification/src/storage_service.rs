use vstd::prelude::*;
use crate::dto::{DirDto, FileDto, UserDirCreateResult};
use crate::paths::{
    child_of, child_path, file_name_of, file_name_spec, lemma_file_name_single_component,
    lemma_parent_of_child, parent_of, parent_path,
};
use crate::repository::RepoError;
use crate::storage::{DirInfo, FileInfo, Storage, StorageError};
use crate::text::to_owned_string;

verus! {

/// Reply when the user has no directory with the given id.
pub const NO_SUCH_USER_DIR_ERROR: &'static str = "Данной папки у пользователя не существует";

/// Reply when the parent directory of a new directory is not the user's.
pub const PARENT_NOT_FOUND_ERROR: &'static str = "Родительская папка не найдена";

/// Reply when the directory to remove or rename is not the user's.
pub const DIR_NOT_FOUND_ERROR: &'static str = "Папка не найдена";

/// Reply when the file to remove is not the user's.
pub const FILE_NOT_FOUND_ERROR: &'static str = "File not found or access denied";

/// Files and directories of one user: records in the database, content on disk.
pub struct StorageService {
    pub user_id: i64,
    pub storage: Storage,
}

/// The file name of an uploaded file's location, empty when it has none.
pub open spec fn uploaded_file_name(path: Seq<char>) -> Seq<char> {
    match file_name_spec(path) {
        Some(n) => n,
        None => Seq::<char>::empty(),
    }
}

/// The lookup that resolves one of the user's links to directories: the row of
/// `user_dirs` whose id is `user_dir_id` and whose user is the service's, answered
/// with the directory that row links to (its `dir_id`), or with none when the user
/// has no such row.
pub struct LinkedDirQuery {
    pub user_dir_id: i64,
}

// --- upload_file -----------------------------------------------------------------

/// An upload into the directory of the user's link `user_dir_id` (an id of
/// `user_dirs`), waiting for that directory to be found.
pub struct UploadFileAwaitingLink {
    pub user_dir_id: i64,
}

/// An upload into directory `dir_id`, the one the link `user_dir_id` names, waiting
/// for the path of the directory on disk.
pub struct UploadFileAwaitingPath {
    pub dir_id: i64,
    pub user_dir_id: i64,
}

/// An upload, waiting for the directory to exist on disk.
pub struct UploadFileAwaitingDir {
    pub user_dir_id: i64,
    pub fs_dir_path: String,
}

/// An upload, waiting for the form to be written into the directory.
pub struct UploadFileAwaitingContent {
    pub user_dir_id: i64,
    pub fs_dir_path: String,
}

/// An upload, waiting for the file to be recorded.
pub struct UploadFileAwaitingRecord {
    pub user_dir_id: i64,
    pub file_name: String,
    pub size: i64,
    pub mime_type: Option<String>,
    pub storage_key: String,
    pub hash: String,
}

// --- remove_file -------------------------------------------------------------------

/// A removal of file `file_id`, waiting for its storage key.
pub struct RemoveFileAwaitingKey {
    pub file_id: i64,
}

/// A removal, waiting for the file to be removed from disk.
pub struct RemoveFileAwaitingDisk {
    pub storage_key: String,
}

/// A removal, waiting for the file's records to be deleted.
pub struct RemoveFileAwaitingRecord {
    pub storage_key: String,
}

// --- create_dir --------------------------------------------------------------------

/// A new directory, waiting for the user's link to its parent (the root when none).
pub struct CreateDirAwaitingParentLink {
    pub name: String,
    pub parent_dir_id: Option<i64>,
}

/// A new directory, waiting for the path of its parent on disk.
pub struct CreateDirAwaitingParentPath {
    pub name: String,
    pub parent_dir_id: Option<i64>,
    pub parent_user_dir_id: i64,
}

/// A new directory, waiting to be created on disk.
pub struct CreateDirAwaitingDisk {
    pub name: String,
    pub parent_user_dir_id: i64,
    pub new_fs_path: String,
}

/// A new directory, waiting to be recorded.
pub struct CreateDirAwaitingRecord {
    pub name: String,
    pub parent_user_dir_id: i64,
}

// --- remove_dir --------------------------------------------------------------------

/// A removal of the directory of the user's link `user_dir_id` (an id of
/// `user_dirs`), waiting for that directory to be found.
pub struct RemoveDirAwaitingLink {
    pub user_dir_id: i64,
}

/// A removal of directory `dir_id`, the one the link `user_dir_id` names, waiting for
/// the path of the directory on disk.
pub struct RemoveDirAwaitingPath {
    pub dir_id: i64,
    pub user_dir_id: i64,
}

/// A removal, waiting for the directory to be removed from disk.
pub struct RemoveDirAwaitingDisk {
    pub user_dir_id: i64,
    pub fs_path: String,
}

/// A removal, waiting for the directory's records to be deleted.
pub struct RemoveDirAwaitingRecord {
    pub user_dir_id: i64,
}

// --- rename_dir --------------------------------------------------------------------

/// A renaming of the directory of the user's link `user_dir_id` (an id of
/// `user_dirs`) to `new_name`, waiting for that directory to be found.
pub struct RenameDirAwaitingLink {
    pub user_dir_id: i64,
    pub new_name: String,
}

/// A renaming of directory `dir_id`, the one the link `user_dir_id` names, waiting
/// for the path of the directory on disk.
pub struct RenameDirAwaitingPath {
    pub dir_id: i64,
    pub user_dir_id: i64,
    pub new_name: String,
}

/// A renaming, waiting for the directory to be renamed on disk.
pub struct RenameDirAwaitingDisk {
    pub user_dir_id: i64,
    pub new_name: String,
    pub old_fs_path: String,
    pub new_fs_path: String,
}

/// A renaming, waiting for the directory's record to be renamed.
pub struct RenameDirAwaitingRecord {
    pub user_dir_id: i64,
    pub new_name: String,
}

impl StorageService {
    pub fn new(user_id: i64, root_path: String) -> (r: Self)
        ensures
            r.user_id == user_id,
            r.storage.root()@ == root_path@,
    {
        Self { user_id, storage: Storage::new(root_path) }
    }

    /// Starts an upload into the directory of the user's link `user_dir_id`.
    pub fn upload_file(&self, user_dir_id: i64) -> (r: UploadFileAwaitingLink)
        ensures
            r.user_dir_id == user_dir_id,
    {
        UploadFileAwaitingLink { user_dir_id }
    }

    /// Starts the removal of file `file_id`.
    pub fn remove_file(&self, file_id: i64) -> (r: RemoveFileAwaitingKey)
        ensures
            r.file_id == file_id,
    {
        RemoveFileAwaitingKey { file_id }
    }

    /// Starts the creation of directory `name` under `parent_dir_id`, or under the
    /// user's root directory when none is given.
    pub fn create_dir(&self, name: String, parent_dir_id: Option<i64>) -> (r:
        CreateDirAwaitingParentLink)
        ensures
            r.name == name,
            r.parent_dir_id == parent_dir_id,
    {
        CreateDirAwaitingParentLink { name, parent_dir_id }
    }

    /// Starts the removal of the directory of the user's link `user_dir_id`.
    pub fn remove_dir(&self, user_dir_id: i64) -> (r: RemoveDirAwaitingLink)
        ensures
            r.user_dir_id == user_dir_id,
    {
        RemoveDirAwaitingLink { user_dir_id }
    }

    /// Starts the renaming of the directory of the user's link `user_dir_id` to
    /// `new_name`.
    pub fn rename_dir(&self, user_dir_id: i64, new_name: String) -> (r: RenameDirAwaitingLink)
        ensures
            r.user_dir_id == user_dir_id,
            r.new_name == new_name,
    {
        RenameDirAwaitingLink { user_dir_id, new_name }
    }
}

impl UploadFileAwaitingLink {
    /// The lookup of the directory: by the link's own id.
    pub fn linked_dir_query(&self) -> (r: LinkedDirQuery)
        ensures
            r.user_dir_id == self.user_dir_id,
    {
        LinkedDirQuery { user_dir_id: self.user_dir_id }
    }

    /// Decides on the directory the link names: a link that is not the user's, or a
    /// failed lookup, is `NO_SUCH_USER_DIR_ERROR`; the file goes into that directory.
    pub fn on_linked_dir(self, found: Result<Option<i64>, RepoError>) -> (r: Result<
        UploadFileAwaitingPath,
        String,
    >)
        ensures
            !(found matches Ok(Some(_))) ==> (r matches Err(m) && m@ == NO_SUCH_USER_DIR_ERROR@),
            found matches Ok(Some(d)) ==> (r matches Ok(next) && next.dir_id == d
                && next.user_dir_id == self.user_dir_id),
    {
        match found {
            Ok(Some(dir_id)) => Ok(
                UploadFileAwaitingPath { dir_id, user_dir_id: self.user_dir_id },
            ),
            _ => Err(to_owned_string(NO_SUCH_USER_DIR_ERROR)),
        }
    }
}

impl UploadFileAwaitingPath {
    /// Decides on the path of the directory: it is to exist on disk.
    pub fn on_fs_path(self, path: Result<String, RepoError>) -> (r: Result<
        UploadFileAwaitingDir,
        String,
    >)
        ensures
            path matches Err(e) ==> (r matches Err(m) && m@ == e.text()),
            path matches Ok(p) ==> (r matches Ok(next) && next.user_dir_id == self.user_dir_id
                && next.fs_dir_path == p),
    {
        match path {
            Ok(fs_dir_path) => Ok(
                UploadFileAwaitingDir { user_dir_id: self.user_dir_id, fs_dir_path },
            ),
            Err(e) => Err(e.to_message()),
        }
    }
}

impl UploadFileAwaitingDir {
    /// Decides once the directory exists on disk or failed to: the form is to be
    /// written into it.
    pub fn on_dir_created(self, created: Result<DirInfo, StorageError>) -> (r: Result<
        UploadFileAwaitingContent,
        String,
    >)
        ensures
            created matches Err(e) ==> (r matches Err(m) && m == e.message),
            created is Ok ==> (r matches Ok(next) && next.user_dir_id == self.user_dir_id
                && next.fs_dir_path == self.fs_dir_path),
    {
        match created {
            Ok(_) => Ok(
                UploadFileAwaitingContent {
                    user_dir_id: self.user_dir_id,
                    fs_dir_path: self.fs_dir_path,
                },
            ),
            Err(e) => Err(e.message),
        }
    }
}

impl UploadFileAwaitingContent {
    /// Decides on the written form: the file is recorded under the name of its
    /// location and the storage key `<directory path>/<name>` (`<name>` at the top).
    pub fn on_uploaded(self, uploaded: Result<FileInfo, StorageError>) -> (r: Result<
        UploadFileAwaitingRecord,
        String,
    >)
        ensures
            uploaded matches Err(e) ==> (r matches Err(m) && m == e.message),
            uploaded matches Ok(info) ==> (r matches Ok(next) && next.user_dir_id
                == self.user_dir_id && next.file_name@ == uploaded_file_name(info.path@)
                && next.size == info.size && next.mime_type == info.mime_type && next.hash
                == info.hash && next.storage_key@ == child_path(
                self.fs_dir_path@,
                uploaded_file_name(info.path@),
            ) && parent_path(next.storage_key@) == self.fs_dir_path@),
    {
        match uploaded {
            Err(e) => Err(e.message),
            Ok(info) => {
                let file_name = match file_name_of(info.path.as_str()) {
                    Some(n) => n,
                    None => String::new(),
                };
                let storage_key = child_of(self.fs_dir_path.as_str(), file_name.as_str());
                proof {
                    lemma_file_name_single_component(info.path@);
                    lemma_parent_of_child(self.fs_dir_path@, file_name@);
                }
                Ok(
                    UploadFileAwaitingRecord {
                        user_dir_id: self.user_dir_id,
                        file_name,
                        size: info.size,
                        mime_type: info.mime_type,
                        storage_key,
                        hash: info.hash,
                    },
                )
            },
        }
    }
}

impl UploadFileAwaitingRecord {
    /// Decides on the record: the recorded file.
    pub fn on_recorded(self, recorded: Result<FileDto, RepoError>) -> (r: Result<FileDto, String>)
        ensures
            recorded matches Err(e) ==> (r matches Err(m) && m@ == e.text()),
            recorded matches Ok(f) ==> (r matches Ok(g) && g == f),
    {
        match recorded {
            Ok(f) => Ok(f),
            Err(e) => Err(e.to_message()),
        }
    }
}

impl RemoveFileAwaitingKey {
    /// Decides on the lookup of the storage key: a file that is not the user's is
    /// `FILE_NOT_FOUND_ERROR`.
    pub fn on_storage_key(self, found: Result<Option<String>, RepoError>) -> (r: Result<
        RemoveFileAwaitingDisk,
        String,
    >)
        ensures
            found matches Err(e) ==> (r matches Err(m) && m@ == e.text()),
            found matches Ok(None) ==> (r matches Err(m) && m@ == FILE_NOT_FOUND_ERROR@),
            found matches Ok(Some(k)) ==> (r matches Ok(next) && next.storage_key == k),
    {
        match found {
            Ok(Some(storage_key)) => Ok(RemoveFileAwaitingDisk { storage_key }),
            Ok(None) => Err(to_owned_string(FILE_NOT_FOUND_ERROR)),
            Err(e) => Err(e.to_message()),
        }
    }
}

impl RemoveFileAwaitingDisk {
    /// Continues after the removal from disk whatever its outcome: the records are
    /// deleted even when the file could not be removed.
    pub fn on_disk_removed(self, removed: Result<(), StorageError>) -> (r: RemoveFileAwaitingRecord)
        ensures
            r.storage_key == self.storage_key,
    {
        RemoveFileAwaitingRecord { storage_key: self.storage_key }
    }
}

impl RemoveFileAwaitingRecord {
    /// Decides on the deletion of the records.
    pub fn on_records_deleted(self, deleted: Result<(), RepoError>) -> (r: Result<(), String>)
        ensures
            deleted matches Err(e) ==> (r matches Err(m) && m@ == e.text()),
            deleted is Ok ==> r is Ok,
    {
        match deleted {
            Ok(()) => Ok(()),
            Err(e) => Err(e.to_message()),
        }
    }
}

/// Which link the parent of a new directory is: the user's link to a given
/// directory, or the user's root directory.
pub enum ParentLinkQuery {
    UserDir(i64),
    Root,
}

impl CreateDirAwaitingParentLink {
    /// The link to look up: that of the given parent, else the user's root.
    pub fn parent_link_query(&self) -> (r: ParentLinkQuery)
        ensures
            self.parent_dir_id matches Some(p) ==> r == ParentLinkQuery::UserDir(p),
            self.parent_dir_id is None ==> r == ParentLinkQuery::Root,
    {
        match self.parent_dir_id {
            Some(p) => ParentLinkQuery::UserDir(p),
            None => ParentLinkQuery::Root,
        }
    }

    /// Decides on the parent link: a missing given parent is `PARENT_NOT_FOUND_ERROR`;
    /// a failure to find the root is passed on.
    pub fn on_parent_link(self, found: Result<i64, RepoError>) -> (r: Result<
        CreateDirAwaitingParentPath,
        String,
    >)
        ensures
            found matches Err(e) ==> (r matches Err(m) && (self.parent_dir_id is Some ==> m@
                == PARENT_NOT_FOUND_ERROR@) && (self.parent_dir_id is None ==> m@ == e.text())),
            found matches Ok(p) ==> (r matches Ok(next) && next.name == self.name
                && next.parent_dir_id == self.parent_dir_id && next.parent_user_dir_id == p),
    {
        match found {
            Ok(parent_user_dir_id) => Ok(
                CreateDirAwaitingParentPath {
                    name: self.name,
                    parent_dir_id: self.parent_dir_id,
                    parent_user_dir_id,
                },
            ),
            Err(e) => match self.parent_dir_id {
                Some(_) => Err(to_owned_string(PARENT_NOT_FOUND_ERROR)),
                None => Err(e.to_message()),
            },
        }
    }
}

impl CreateDirAwaitingParentPath {
    /// The directory whose path on disk is the new directory's parent path: the given
    /// parent, or 0 when none was given.
    pub fn parent_path_dir_id(&self) -> (r: i64)
        ensures
            r == match self.parent_dir_id {
                Some(p) => p,
                None => 0,
            },
    {
        match self.parent_dir_id {
            Some(p) => p,
            None => 0,
        }
    }

    /// Decides on the parent's path: the new directory is created at `<parent>/<name>`
    /// (`<name>` at the top).
    pub fn on_parent_path(self, path: Result<String, RepoError>) -> (r: Result<
        CreateDirAwaitingDisk,
        String,
    >)
        ensures
            path matches Err(e) ==> (r matches Err(m) && m@ == e.text()),
            path matches Ok(p) ==> (r matches Ok(next) && next.name == self.name
                && next.parent_user_dir_id == self.parent_user_dir_id && next.new_fs_path@
                == child_path(p@, self.name@)),
    {
        match path {
            Ok(parent_fs_path) => {
                let new_fs_path = child_of(parent_fs_path.as_str(), self.name.as_str());
                Ok(
                    CreateDirAwaitingDisk {
                        name: self.name,
                        parent_user_dir_id: self.parent_user_dir_id,
                        new_fs_path,
                    },
                )
            },
            Err(e) => Err(e.to_message()),
        }
    }
}

impl CreateDirAwaitingDisk {
    /// Decides once the directory exists on disk or failed to: it is to be recorded
    /// under its parent.
    pub fn on_dir_created(self, created: Result<DirInfo, StorageError>) -> (r: Result<
        CreateDirAwaitingRecord,
        String,
    >)
        ensures
            created matches Err(e) ==> (r matches Err(m) && m == e.message),
            created is Ok ==> (r matches Ok(next) && next.name == self.name
                && next.parent_user_dir_id == self.parent_user_dir_id),
    {
        match created {
            Ok(_) => Ok(
                CreateDirAwaitingRecord {
                    name: self.name,
                    parent_user_dir_id: self.parent_user_dir_id,
                },
            ),
            Err(e) => Err(e.message),
        }
    }
}

impl CreateDirAwaitingRecord {
    /// Decides on the record: the created directory.
    pub fn on_recorded(self, recorded: Result<UserDirCreateResult, RepoError>) -> (r: Result<
        UserDirCreateResult,
        String,
    >)
        ensures
            recorded matches Err(e) ==> (r matches Err(m) && m@ == e.text()),
            recorded matches Ok(d) ==> (r matches Ok(g) && g == d),
    {
        match recorded {
            Ok(d) => Ok(d),
            Err(e) => Err(e.to_message()),
        }
    }
}

impl RemoveDirAwaitingLink {
    /// The lookup of the directory: by the link's own id.
    pub fn linked_dir_query(&self) -> (r: LinkedDirQuery)
        ensures
            r.user_dir_id == self.user_dir_id,
    {
        LinkedDirQuery { user_dir_id: self.user_dir_id }
    }

    /// Decides on the directory the link names: a link that is not the user's, or a
    /// failed lookup, is `DIR_NOT_FOUND_ERROR`; that directory, and the link, are the
    /// ones removed.
    pub fn on_linked_dir(self, found: Result<Option<i64>, RepoError>) -> (r: Result<
        RemoveDirAwaitingPath,
        String,
    >)
        ensures
            !(found matches Ok(Some(_))) ==> (r matches Err(m) && m@ == DIR_NOT_FOUND_ERROR@),
            found matches Ok(Some(d)) ==> (r matches Ok(next) && next.dir_id == d
                && next.user_dir_id == self.user_dir_id),
    {
        match found {
            Ok(Some(dir_id)) => Ok(
                RemoveDirAwaitingPath { dir_id, user_dir_id: self.user_dir_id },
            ),
            _ => Err(to_owned_string(DIR_NOT_FOUND_ERROR)),
        }
    }
}

impl RemoveDirAwaitingPath {
    /// Decides on the path of the directory: it is to be removed from disk.
    pub fn on_fs_path(self, path: Result<String, RepoError>) -> (r: Result<
        RemoveDirAwaitingDisk,
        String,
    >)
        ensures
            path matches Err(e) ==> (r matches Err(m) && m@ == e.text()),
            path matches Ok(p) ==> (r matches Ok(next) && next.user_dir_id == self.user_dir_id
                && next.fs_path == p),
    {
        match path {
            Ok(fs_path) => Ok(RemoveDirAwaitingDisk { user_dir_id: self.user_dir_id, fs_path }),
            Err(e) => Err(e.to_message()),
        }
    }
}

impl RemoveDirAwaitingDisk {
    /// Continues after the removal from disk whatever its outcome.
    pub fn on_disk_removed(self, removed: Result<(), StorageError>) -> (r: RemoveDirAwaitingRecord)
        ensures
            r.user_dir_id == self.user_dir_id,
    {
        RemoveDirAwaitingRecord { user_dir_id: self.user_dir_id }
    }
}

impl RemoveDirAwaitingRecord {
    /// Decides on the deletion of the records.
    pub fn on_records_deleted(self, deleted: Result<(), RepoError>) -> (r: Result<(), String>)
        ensures
            deleted matches Err(e) ==> (r matches Err(m) && m@ == e.text()),
            deleted is Ok ==> r is Ok,
    {
        match deleted {
            Ok(()) => Ok(()),
            Err(e) => Err(e.to_message()),
        }
    }
}

impl RenameDirAwaitingLink {
    /// The lookup of the directory: by the link's own id.
    pub fn linked_dir_query(&self) -> (r: LinkedDirQuery)
        ensures
            r.user_dir_id == self.user_dir_id,
    {
        LinkedDirQuery { user_dir_id: self.user_dir_id }
    }

    /// Decides on the directory the link names: a link that is not the user's, or a
    /// failed lookup, is `DIR_NOT_FOUND_ERROR`; that directory is the one renamed.
    pub fn on_linked_dir(self, found: Result<Option<i64>, RepoError>) -> (r: Result<
        RenameDirAwaitingPath,
        String,
    >)
        ensures
            !(found matches Ok(Some(_))) ==> (r matches Err(m) && m@ == DIR_NOT_FOUND_ERROR@),
            found matches Ok(Some(d)) ==> (r matches Ok(next) && next.dir_id == d
                && next.user_dir_id == self.user_dir_id && next.new_name == self.new_name),
    {
        match found {
            Ok(Some(dir_id)) => Ok(
                RenameDirAwaitingPath { dir_id, user_dir_id: self.user_dir_id, new_name: self.new_name },
            ),
            _ => Err(to_owned_string(DIR_NOT_FOUND_ERROR)),
        }
    }
}

impl RenameDirAwaitingPath {
    /// Decides on the old path of the directory: it is to be renamed on disk to the
    /// new name under the same parent.
    pub fn on_fs_path(self, path: Result<String, RepoError>) -> (r: Result<
        RenameDirAwaitingDisk,
        String,
    >)
        ensures
            path matches Err(e) ==> (r matches Err(m) && m@ == e.text()),
            path matches Ok(p) ==> (r matches Ok(next) && next.user_dir_id == self.user_dir_id
                && next.new_name == self.new_name && next.old_fs_path == p && next.new_fs_path@
                == child_path(parent_path(p@), self.new_name@)),
    {
        match path {
            Ok(old_fs_path) => {
                let parent = parent_of(old_fs_path.as_str());
                let new_fs_path = child_of(parent.as_str(), self.new_name.as_str());
                Ok(
                    RenameDirAwaitingDisk {
                        user_dir_id: self.user_dir_id,
                        new_name: self.new_name,
                        old_fs_path,
                        new_fs_path,
                    },
                )
            },
            Err(e) => Err(e.to_message()),
        }
    }
}

impl RenameDirAwaitingDisk {
    /// Decides once the directory was renamed on disk or not: its record is next.
    pub fn on_disk_renamed(self, renamed: Result<DirInfo, StorageError>) -> (r: Result<
        RenameDirAwaitingRecord,
        String,
    >)
        ensures
            renamed matches Err(e) ==> (r matches Err(m) && m == e.message),
            renamed is Ok ==> (r matches Ok(next) && next.user_dir_id == self.user_dir_id
                && next.new_name == self.new_name),
    {
        match renamed {
            Ok(_) => Ok(
                RenameDirAwaitingRecord { user_dir_id: self.user_dir_id, new_name: self.new_name },
            ),
            Err(e) => Err(e.message),
        }
    }
}

impl RenameDirAwaitingRecord {
    /// Decides on the renamed record: the directory as it is now.
    pub fn on_recorded(self, recorded: Result<DirDto, RepoError>) -> (r: Result<DirDto, String>)
        ensures
            recorded matches Err(e) ==> (r matches Err(m) && m@ == e.text()),
            recorded matches Ok(d) ==> (r matches Ok(g) && g == d),
    {
        match recorded {
            Ok(d) => Ok(d),
            Err(e) => Err(e.to_message()),
        }
    }
}

} // verus!
