use vstd::prelude::*;

verus! {

/// Credentials of a log-in request.
#[derive(Debug)]
pub struct LoginRequest {
    pub email: String,
    pub password: String,
}

/// A request for a registration code.
#[derive(Debug)]
pub struct SendCodeRequest {
    pub email: String,
}

/// The data that completes a registration.
#[derive(Debug)]
pub struct ConfirmRegistrationRequest {
    pub email: String,
    pub code: String,
    pub password: String,
}

/// A directory as the storage API shows it.
#[derive(Debug)]
pub struct DirDto {
    pub id: i64,
    pub name: String,
    pub parent_id: Option<i64>,
    pub role: String,
    pub created_at: chrono::NaiveDateTime,
}

/// A tag of a file.
#[derive(Debug)]
pub struct TagDto {
    pub id: i64,
    pub name: String,
    pub created_at: chrono::NaiveDateTime,
}

/// A stored file as the storage API shows it.
#[derive(Debug)]
pub struct FileDto {
    pub id: i64,
    pub name: String,
    pub size: i64,
    pub mime_type: Option<String>,
    pub storage_key: String,
    pub hash: String,
    pub created_at: chrono::NaiveDateTime,
    pub tags: Vec<TagDto>,
}

/// The result of creating a directory.
#[derive(Debug)]
pub struct UserDirCreateResult {
    pub dir: DirDto,
}

/// A file inside a directory listing.
#[derive(Debug)]
pub struct DirFilesDto {
    pub file_id: i64,
    pub file_name: String,
    pub file_size: i64,
    pub file_path: String,
    pub file_hash: String,
    pub created_at: String,
}

/// A user as the API shows it.
#[derive(Debug)]
pub struct UserDto {
    pub id: i64,
    pub email: String,
    pub base_folder: Option<String>,
    pub created_at: chrono::NaiveDateTime,
}

/// A user without creation time.
#[derive(Debug)]
pub struct UserShortDto {
    pub id: i64,
    pub email: String,
    pub base_folder: Option<String>,
}

/// A token of a user.
#[derive(Debug)]
pub struct UserTokensDto {
    pub id: i64,
    pub user_id: i64,
    pub token: String,
    pub created_at: chrono::NaiveDateTime,
}

/// A token and its creation time.
#[derive(Debug)]
pub struct UserTokensShortDto {
    pub token: String,
    pub created_at: chrono::NaiveDateTime,
}

/// A registration form.
#[derive(Debug)]
pub struct UserRegistrationIn {
    pub email: String,
    pub password: String,
}

/// The reply to a successful log-in or registration: the user and a fresh token.
#[derive(Debug)]
pub struct UserOut {
    pub user: UserDto,
    pub meta: UserTokensShortDto,
}

/// A directory with its files and subdirectories.
#[derive(Debug)]
pub struct DirObjectWithFilesNode {
    pub id: i64,
    pub name: String,
    pub files: Option<Vec<DirFilesDto>>,
    pub sub_dir: Option<Vec<DirObjectWithFilesNode>>,
}

/// The multipart form of an upload: one binary field `file`.
#[derive(Debug)]
pub struct UploadForm {
    pub file: String,
}

/// Query of an upload: the directory to upload into.
#[derive(Debug)]
pub struct UploadQuery {
    pub dir_id: i64,
}

/// Body of a request that creates a directory.
#[derive(Debug)]
pub struct DirCreateRequest {
    pub name: String,
}

/// Body of a request that renames a directory.
#[derive(Debug)]
pub struct DirRenameRequest {
    pub new_name: String,
}

} // verus!
