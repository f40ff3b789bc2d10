use cloud_storage::api::ApiResponse;
use cloud_storage::controllers::{deleted_reply, reply_with, INVALID_TOKEN_ERROR};
use cloud_storage::dto::{DirDto, FileDto, UserDirCreateResult};
use cloud_storage::models::UserShort;
use cloud_storage::repository::{
    CreateDirStart, DeleteFileNext, DirRecord, FileRecord, RepoError, StorageRepository,
    ROW_NOT_FOUND_MESSAGE,
};
use cloud_storage::storage::{
    DirInfo, FileInfo, Storage, StorageError, UploadAfterChunk, UploadAfterField,
    UploadAwaitingField, ERR_CHUNK_READ, ERR_CREATE_DIR, ERR_FILE_CREATE, ERR_MULTIPART,
    ERR_WRITE_CHUNK, OP_CREATE_DIR, OP_FILE_OPEN, OP_MULTIPART, OP_RENAME_DIR,
};
use cloud_storage::storage_service::{
    ParentLinkQuery, StorageService, DIR_NOT_FOUND_ERROR, FILE_NOT_FOUND_ERROR, NO_SUCH_USER_DIR_ERROR,
    PARENT_NOT_FOUND_ERROR,
};

fn when() -> chrono::NaiveDateTime {
    chrono::NaiveDate::from_ymd_opt(2024, 1, 2).unwrap().and_hms_opt(3, 4, 5).unwrap()
}

/// Drives an upload with the given fields (file name, content type, chunks).
fn run_upload(
    start: UploadAwaitingField,
    fields: Vec<(Option<&str>, Option<&str>, Vec<&[u8]>)>,
) -> Result<FileInfo, StorageError> {
    let mut awaiting = start;
    for (name, content_type, chunks) in fields {
        let creating = match awaiting.on_next_field(Ok(Some((
            name.map(|s| s.to_string()),
            content_type.map(|s| s.to_string()),
        )))) {
            UploadAfterField::CreateFile(c) => c,
            UploadAfterField::Finished(r) => return r,
        };
        let mut reading = creating.on_file_created(true)?;
        for chunk in chunks {
            match reading.on_chunk(Ok(Some(chunk.to_vec()))) {
                UploadAfterChunk::Write(w) => reading = w.on_chunk_written(true)?,
                _ => panic!("expected a write"),
            }
        }
        awaiting = match reading.on_chunk(Ok(None)) {
            UploadAfterChunk::FieldDone(a) => a,
            _ => panic!("expected the end of the field"),
        };
    }
    match awaiting.on_next_field(Ok(None)) {
        UploadAfterField::Finished(r) => r,
        UploadAfterField::CreateFile(_) => panic!("expected the end"),
    }
}

#[test]
fn upload_hashes_and_counts_all_written_bytes() {
    let storage = Storage::new("/data".to_string());
    let info = run_upload(
        storage.upload_file("u1/docs"),
        vec![(Some("hello.txt"), Some("text/plain"), vec![b"hello ", b"world"])],
    )
    .unwrap();
    assert_eq!(info.path, "/data/u1/docs/hello.txt");
    assert_eq!(info.size, 11);
    assert_eq!(info.hash, "b94d27b9934d3e08a52e52d7da7dabfac484efe37a5380ee9088f7ace2efcde9");
    assert_eq!(info.mime_type, Some("text/plain".to_string()));
}

#[test]
fn upload_of_several_fields_reports_the_last_file_and_all_bytes() {
    let storage = Storage::new("/data".to_string());
    let info = run_upload(
        storage.upload_file("d"),
        vec![(Some("a.bin"), Some("x/a"), vec![b"hello "]), (None, None, vec![b"world"])],
    )
    .unwrap();
    assert_eq!(info.path, "/data/d/");
    assert_eq!(info.size, 11);
    assert_eq!(info.hash, "b94d27b9934d3e08a52e52d7da7dabfac484efe37a5380ee9088f7ace2efcde9");
    assert_eq!(info.mime_type, None);
}

#[test]
fn upload_of_an_empty_form_is_an_error() {
    let storage = Storage::new("/data".to_string());
    let e = run_upload(storage.upload_file("d"), vec![]).unwrap_err();
    assert_eq!(e.operation, OP_MULTIPART);
    assert_eq!(e.message, "No file was uploaded");
    assert_eq!(e.path, "d");
    let info = run_upload(storage.upload_file(""), vec![(Some("e.txt"), None, vec![])]).unwrap();
    assert_eq!(info.size, 0);
    assert_eq!(info.hash, "e3b0c44298fc1c149afbf4c8996fb92427ae41e4649b934ca495991b7852b855");
    assert_eq!(info.path, "/data/e.txt");
}

#[test]
fn upload_failures_name_operation_and_path() {
    let storage = Storage::new("/data".to_string());
    match storage.upload_file("d").on_next_field(Err(())) {
        UploadAfterField::Finished(Err(e)) => {
            assert_eq!((e.operation.as_str(), e.message.as_str(), e.path.as_str()), (OP_MULTIPART, ERR_MULTIPART, "d"));
        }
        _ => panic!("expected a failure"),
    }
    let creating = match storage.upload_file("d").on_next_field(Ok(Some((Some("f".into()), None)))) {
        UploadAfterField::CreateFile(c) => c,
        _ => panic!(),
    };
    assert_eq!(creating.current_path, "/data/d/f");
    let e = creating.on_file_created(false).err().unwrap();
    assert_eq!((e.operation.as_str(), e.message.as_str(), e.path.as_str()), ("create_file", ERR_FILE_CREATE, "/data/d/f"));
    let reading = match storage.upload_file("d").on_next_field(Ok(Some((Some("f".into()), None)))) {
        UploadAfterField::CreateFile(c) => c.on_file_created(true).ok().unwrap(),
        _ => panic!(),
    };
    match reading.on_chunk(Err(())) {
        UploadAfterChunk::Failed(e) => assert_eq!((e.message.as_str(), e.path.as_str()), (ERR_CHUNK_READ, "/data/d/f")),
        _ => panic!(),
    }
    let reading = match storage.upload_file("d").on_next_field(Ok(Some((Some("f".into()), None)))) {
        UploadAfterField::CreateFile(c) => c.on_file_created(true).ok().unwrap(),
        _ => panic!(),
    };
    match reading.on_chunk(Ok(Some(vec![1, 2, 3]))) {
        UploadAfterChunk::Write(w) => {
            assert_eq!(w.chunk, vec![1, 2, 3]);
            let e = w.on_chunk_written(false).err().unwrap();
            assert_eq!((e.operation.as_str(), e.message.as_str()), ("read_chunk", ERR_WRITE_CHUNK));
        }
        _ => panic!(),
    }
}

#[test]
fn disk_operation_outcomes() {
    let storage = Storage::new("/data".to_string());
    assert_eq!(storage.resolve("u/a.txt"), "/data/u/a.txt");
    assert_eq!(storage.read_file_outcome("u/a.txt", true).unwrap(), "/data/u/a.txt");
    let e = storage.read_file_outcome("u/a.txt", false).unwrap_err();
    assert_eq!((e.operation.as_str(), e.path.as_str()), (OP_FILE_OPEN, "/data/u/a.txt"));
    assert!(storage.remove_file_outcome("x", true).is_ok());
    assert_eq!(storage.remove_file_outcome("x", false).unwrap_err().path, "/data/x");
    assert_eq!(storage.create_dir_outcome("u/new", true).unwrap().path, "u/new");
    assert_eq!(storage.create_dir_outcome("u/new", true).unwrap().path, "u/new");
    let e = storage.create_dir_outcome("u/new", false).unwrap_err();
    assert_eq!((e.operation.as_str(), e.message.as_str(), e.path.as_str()), (OP_CREATE_DIR, ERR_CREATE_DIR, "/data/u/new"));
    assert!(storage.remove_dir_outcome("u/new", true).is_ok());
    assert_eq!(storage.remove_dir_outcome("u/new", false).unwrap_err().operation, "remove_dir");
    assert_eq!(storage.change_name_dir_outcome("u/a", "u/b", true).unwrap().path, "u/b");
    let e = storage.change_name_dir_outcome("u/a", "u/b", false).unwrap_err();
    assert_eq!((e.operation.as_str(), e.path.as_str()), (OP_RENAME_DIR, "/data/u/a"));
}

fn file_dto(key: &str) -> FileDto {
    FileDto {
        id: 9,
        name: "a.txt".into(),
        size: 3,
        mime_type: None,
        storage_key: key.into(),
        hash: "h".into(),
        created_at: when(),
        tags: vec![],
    }
}

#[test]
fn service_upload_records_the_file_under_its_directory() {
    let service = StorageService::new(7, "/data".into());
    assert_eq!(service.storage.root_path(), "/data");
    let path = service.upload_file(11).on_linked_dir(Ok(Some(3))).ok().unwrap();
    assert_eq!((path.dir_id, path.user_dir_id), (3, 11));
    let dir = path.on_fs_path(Ok("root/docs".into())).ok().unwrap();
    let content = dir.on_dir_created(Ok(DirInfo { path: "root/docs".into() })).ok().unwrap();
    let record = content
        .on_uploaded(Ok(FileInfo {
            path: "/data/root/docs/a.txt".into(),
            size: 3,
            hash: "h".into(),
            mime_type: Some("text/plain".into()),
        }))
        .ok()
        .unwrap();
    assert_eq!(record.file_name, "a.txt");
    assert_eq!(record.storage_key, "root/docs/a.txt");
    assert_eq!(record.user_dir_id, 11);
    assert_eq!(record.size, 3);
    let dto = record.on_recorded(Ok(file_dto("root/docs/a.txt"))).unwrap();
    assert_eq!(dto.storage_key, "root/docs/a.txt");
}

#[test]
fn service_upload_errors() {
    let service = StorageService::new(7, "/data".into());
    assert_eq!(service.upload_file(11).linked_dir_query().user_dir_id, 11);
    assert_eq!(service.upload_file(11).on_linked_dir(Ok(None)).err().unwrap(), NO_SUCH_USER_DIR_ERROR);
    assert_eq!(service.upload_file(11).on_linked_dir(Err(RepoError::Database("down".into()))).err().unwrap(), NO_SUCH_USER_DIR_ERROR);
    let path = service.upload_file(11).on_linked_dir(Ok(Some(3))).ok().unwrap();
    assert_eq!(path.on_fs_path(Err(RepoError::Database("boom".into()))).err().unwrap(), "boom");
    let dir = service.upload_file(11).on_linked_dir(Ok(Some(3))).ok().unwrap().on_fs_path(Ok("".into())).ok().unwrap();
    let e = StorageError { operation: "create_dir".into(), message: "disk full".into(), path: "/data".into() };
    assert_eq!(dir.on_dir_created(Err(e)).err().unwrap(), "disk full");
    let top = service.upload_file(11).on_linked_dir(Ok(Some(3))).ok().unwrap().on_fs_path(Ok("".into())).ok().unwrap()
        .on_dir_created(Ok(DirInfo { path: "".into() })).ok().unwrap()
        .on_uploaded(Ok(FileInfo { path: "/data/a.txt".into(), size: 1, hash: "h".into(), mime_type: None }))
        .ok().unwrap();
    assert_eq!(top.storage_key, "a.txt");
    assert_eq!(top.on_recorded(Err(RepoError::RowNotFound)).err().unwrap(), ROW_NOT_FOUND_MESSAGE);
}

#[test]
fn service_remove_file() {
    let service = StorageService::new(7, "/data".into());
    assert_eq!(service.remove_file(1).on_storage_key(Ok(None)).err().unwrap(), FILE_NOT_FOUND_ERROR);
    assert_eq!(service.remove_file(1).on_storage_key(Err(RepoError::Database("x".into()))).err().unwrap(), "x");
    let disk = service.remove_file(1).on_storage_key(Ok(Some("d/a.txt".into()))).ok().unwrap();
    assert_eq!(disk.storage_key, "d/a.txt");
    let e = StorageError { operation: "remove_file".into(), message: "gone".into(), path: "/data/d/a.txt".into() };
    let record = disk.on_disk_removed(Err(e));
    assert_eq!(record.storage_key, "d/a.txt");
    assert!(record.on_records_deleted(Ok(())).is_ok());
}

#[test]
fn service_create_dir() {
    let service = StorageService::new(7, "/data".into());
    let start = service.create_dir("new".into(), Some(5));
    assert!(matches!(start.parent_link_query(), ParentLinkQuery::UserDir(5)));
    assert!(matches!(service.create_dir("new".into(), None).parent_link_query(), ParentLinkQuery::Root));
    assert_eq!(start.on_parent_link(Err(RepoError::RowNotFound)).err().unwrap(), PARENT_NOT_FOUND_ERROR);
    let root = service.create_dir("new".into(), None);
    assert_eq!(root.on_parent_link(Err(RepoError::RowNotFound)).err().unwrap(), ROW_NOT_FOUND_MESSAGE);
    let parent_path = service.create_dir("new".into(), None).on_parent_link(Ok(2)).ok().unwrap();
    assert_eq!(parent_path.parent_path_dir_id(), 0);
    let disk = parent_path.on_parent_path(Ok("".into())).ok().unwrap();
    assert_eq!(disk.new_fs_path, "new");
    let parent_path = service.create_dir("new".into(), Some(5)).on_parent_link(Ok(2)).ok().unwrap();
    assert_eq!(parent_path.parent_path_dir_id(), 5);
    let disk = parent_path.on_parent_path(Ok("root/docs".into())).ok().unwrap();
    assert_eq!(disk.new_fs_path, "root/docs/new");
    assert_eq!(disk.parent_user_dir_id, 2);
    let record = disk.on_dir_created(Ok(DirInfo { path: "root/docs/new".into() })).ok().unwrap();
    let dir = DirDto { id: 30, name: "new".into(), parent_id: Some(5), role: "OWNER".into(), created_at: when() };
    let created = record.on_recorded(Ok(UserDirCreateResult { dir })).unwrap();
    assert_eq!(created.dir.id, 30);
}

#[test]
fn service_remove_and_rename_dir() {
    let service = StorageService::new(7, "/data".into());
    assert_eq!(service.remove_dir(8).linked_dir_query().user_dir_id, 8);
    assert_eq!(service.remove_dir(8).on_linked_dir(Ok(None)).err().unwrap(), DIR_NOT_FOUND_ERROR);
    assert_eq!(service.remove_dir(8).on_linked_dir(Err(RepoError::RowNotFound)).err().unwrap(), DIR_NOT_FOUND_ERROR);
    let path = service.remove_dir(8).on_linked_dir(Ok(Some(4))).ok().unwrap();
    assert_eq!((path.dir_id, path.user_dir_id), (4, 8));
    let disk = path.on_fs_path(Ok("root/old".into())).ok().unwrap();
    assert_eq!(disk.fs_path, "root/old");
    let record = disk.on_disk_removed(Err(StorageError { operation: "remove_dir".into(), message: "not empty".into(), path: "x".into() }));
    assert_eq!(record.user_dir_id, 8);
    assert_eq!(record.on_records_deleted(Err(RepoError::Database("fk".into()))).err().unwrap(), "fk");

    assert_eq!(service.rename_dir(8, "b".into()).linked_dir_query().user_dir_id, 8);
    assert_eq!(service.rename_dir(8, "b".into()).on_linked_dir(Ok(None)).err().unwrap(), DIR_NOT_FOUND_ERROR);
    let path = service.rename_dir(8, "b".into()).on_linked_dir(Ok(Some(4))).ok().unwrap();
    assert_eq!((path.dir_id, path.user_dir_id, path.new_name.as_str()), (4, 8, "b"));
    let disk = path.on_fs_path(Ok("root/docs/a".into())).ok().unwrap();
    assert_eq!(disk.old_fs_path, "root/docs/a");
    assert_eq!(disk.new_fs_path, "root/docs/b");
    let top = service.rename_dir(8, "b".into()).on_linked_dir(Ok(Some(4))).ok().unwrap().on_fs_path(Ok("a".into())).ok().unwrap();
    assert_eq!(top.new_fs_path, "b");
    let e = StorageError { operation: "change_dir".into(), message: "busy".into(), path: "x".into() };
    assert_eq!(top.on_disk_renamed(Err(e)).err().unwrap(), "busy");
    let record = disk.on_disk_renamed(Ok(DirInfo { path: "root/docs/b".into() })).ok().unwrap();
    let dir = DirDto { id: 4, name: "b".into(), parent_id: Some(1), role: "OWNER".into(), created_at: when() };
    assert_eq!(record.on_recorded(Ok(dir)).unwrap().name, "b");
}

#[test]
fn repository_create_file() {
    let repo = StorageRepository::new(7);
    let start = repo.create_file("a.txt".into(), 3, None, "d/a.txt".into(), "h".into(), 11);
    assert_eq!((start.user_id, start.user_dir_id), (7, 11));
    assert!(matches!(start.on_dir_lookup(Ok(None)), Err(RepoError::RowNotFound)));
    let insert = repo.create_file("a.txt".into(), 3, None, "d/a.txt".into(), "h".into(), 11).on_dir_lookup(Ok(Some(5))).ok().unwrap();
    assert_eq!(insert.dir_id, 5);
    let row = FileRecord { id: 9, name: "a.txt".into(), size: 3, mime_type: None, storage_key: "d/a.txt".into(), hash: "h".into(), created_at: when() };
    let link = insert.on_file_inserted(Ok(row)).ok().unwrap();
    assert_eq!((link.dir_id, link.file.id), (5, 9));
    let dto = link.on_linked(Ok(())).unwrap();
    assert_eq!((dto.id, dto.storage_key.as_str(), dto.tags.len()), (9, "d/a.txt", 0));
}

#[test]
fn repository_create_directory() {
    let repo = StorageRepository::new(7);
    let insert = match repo.create_directory("new".into(), Some(2)) {
        CreateDirStart::FindParent(p) => {
            assert_eq!(p.parent_user_dir_id, 2);
            p.on_parent_lookup(Ok(Some(40))).ok().unwrap()
        }
        CreateDirStart::Insert(_) => panic!(),
    };
    assert_eq!(insert.parent_dir_id, Some(40));
    match repo.create_directory("top".into(), None) {
        CreateDirStart::Insert(i) => assert_eq!(i.parent_dir_id, None),
        CreateDirStart::FindParent(_) => panic!(),
    }
    let owner = insert.on_dir_inserted(Ok(DirRecord { id: 41, name: "new".into(), parent_id: Some(40), created_at: when() })).ok().unwrap();
    assert_eq!(owner.user_id, 7);
    let res = owner.on_owner_linked(Ok(())).unwrap();
    assert_eq!((res.dir.id, res.dir.name.as_str(), res.dir.parent_id, res.dir.role.as_str()), (41, "new", Some(40), "OWNER"));
}

#[test]
fn repository_deletions() {
    let repo = StorageRepository::new(7);
    assert!(matches!(repo.delete_file_by_storage_key("k".into()).on_file_lookup(Ok(None)), DeleteFileNext::Done(Ok(()))));
    let links = match repo.delete_file_by_storage_key("k".into()).on_file_lookup(Ok(Some(9))) {
        DeleteFileNext::DeleteLinks(l) => l,
        _ => panic!(),
    };
    let row = links.on_links_deleted(Ok(())).ok().unwrap();
    assert_eq!(row.file_id, 9);
    assert!(row.on_row_deleted(Ok(())).is_ok());
    assert!(matches!(repo.delete_directory(3).on_dir_lookup(Ok(None)), Err(RepoError::RowNotFound)));
    let link = repo.delete_directory(3).on_dir_lookup(Ok(Some(30))).ok().unwrap();
    assert_eq!((link.user_dir_id, link.dir_id), (3, 30));
    let row = link.on_link_deleted(Ok(())).ok().unwrap();
    assert_eq!(row.dir_id, 30);
    assert!(matches!(row.on_row_deleted(Err(RepoError::Database("x".into()))), Err(RepoError::Database(_))));
}

#[test]
fn controller_replies() {
    let owner = cloud_storage::controllers::AwaitingTokenOwner { token: "t".into() };
    assert_eq!(owner.on_token_owner(Ok(UserShort { id: 5, email: "e".into(), base_folder: None })).ok(), Some(5));
    let owner = cloud_storage::controllers::AwaitingTokenOwner { token: "t".into() };
    let (status, error) = owner.on_token_owner(Err(RepoError::RowNotFound)).unwrap_err();
    assert_eq!((status, error.message.as_str()), (401, INVALID_TOKEN_ERROR));
    match deleted_reply(Ok(())) {
        ApiResponse::Success { data } => assert_eq!(data, "deleted"),
        _ => panic!(),
    }
    let r = deleted_reply(Err("nope".into()));
    assert_eq!(r.status_code(), 400);
    let r: ApiResponse<i64> = reply_with(Ok(3));
    assert_eq!(r.status_code(), 200);
    assert!(r.is_success());
}
