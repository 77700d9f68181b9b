//! Drives the upload state machine the way the server does, against an
//! in-memory directory, and checks the files and responses it produces.
use file_upload::machine::{
    step, Action, Event, PartHeader, UploadResponse, UploadState, STATUS_INTERNAL_ERROR, STATUS_OK,
};
use file_upload::{body_within_limit, upload_dir, MAX_BODY_BYTES};

/// One part of a simulated request: an optional raw filename and the
/// chunks of its body.
struct TestPart {
    filename: Option<&'static str>,
    chunks: Vec<Vec<u8>>,
}

/// Runs a whole request through the state machine, performing every
/// filesystem action against an in-memory directory in which every
/// operation succeeds. Returns the directory contents and the response.
fn run_upload(dir: &str, parts: &[TestPart]) -> (Vec<(String, Vec<u8>)>, UploadResponse) {
    let mut files: Vec<(String, Vec<u8>)> = Vec::new();
    let mut open_file: Option<usize> = None;
    let mut next_part: usize = 0;
    let mut next_chunk: usize = 0;
    let mut current: usize = 0;
    let mut state = UploadState::AwaitingDir;
    let mut event = Event::DirCreated;
    loop {
        let (next_state, action) = step(state, dir, event);
        state = next_state;
        event = match action {
            Action::PullPart => {
                if next_part < parts.len() {
                    current = next_part;
                    next_part += 1;
                    next_chunk = 0;
                    match parts[current].filename {
                        Some(name) => Event::NextPartIs(PartHeader::Named(name.to_string())),
                        None => Event::NextPartIs(PartHeader::Unnamed),
                    }
                } else {
                    Event::NextPartIs(PartHeader::End)
                }
            }
            Action::CreateFile(path) => {
                let existing = files.iter().position(|(p, _)| *p == path);
                match existing {
                    Some(i) => {
                        files[i].1.clear();
                        open_file = Some(i);
                    }
                    None => {
                        files.push((path, Vec::new()));
                        open_file = Some(files.len() - 1);
                    }
                }
                Event::FileCreated
            }
            Action::PullChunk => {
                if next_chunk < parts[current].chunks.len() {
                    next_chunk += 1;
                    Event::ChunkIs(Some(parts[current].chunks[next_chunk - 1].clone()))
                } else {
                    Event::ChunkIs(None)
                }
            }
            Action::WriteChunk(bytes) => {
                let i = open_file.expect("a write is only ordered while a file is open");
                files[i].1.extend(bytes);
                Event::ChunkWritten
            }
            Action::Respond(response) => return (files, response),
        };
    }
}

#[test]
fn single_pdf_part_is_stored() {
    let parts = [TestPart { filename: Some("report.pdf"), chunks: vec![b"%PDF-1.4...".to_vec()] }];
    let (files, response) = run_upload(upload_dir(), &parts);
    assert_eq!(response.status, STATUS_OK);
    assert_eq!(response.body, "File uploaded successfully");
    assert_eq!(files.len(), 1);
    assert_eq!(files[0].0, "./uploads/report.pdf");
    assert_eq!(files[0].1, b"%PDF-1.4...".to_vec());
}

#[test]
fn chunks_are_concatenated_in_order() {
    let parts = [TestPart {
        filename: Some("big.bin"),
        chunks: vec![b"ab".to_vec(), b"cd".to_vec(), b"ef".to_vec()],
    }];
    let (files, response) = run_upload(upload_dir(), &parts);
    assert_eq!(response.status, STATUS_OK);
    assert_eq!(files.len(), 1);
    assert_eq!(files[0].0, "./uploads/big.bin");
    assert_eq!(files[0].1, b"abcdef".to_vec());
}

#[test]
fn traversal_filename_is_confined_to_upload_dir() {
    let parts = [TestPart { filename: Some("../../etc/passwd"), chunks: vec![b"x".to_vec()] }];
    let (files, response) = run_upload(upload_dir(), &parts);
    assert_eq!(response.status, STATUS_OK);
    assert_eq!(files.len(), 1);
    let path = &files[0].0;
    let rest = path.strip_prefix("./uploads/").expect("stored inside the upload directory");
    assert!(!rest.contains('/') && !rest.contains('\\'));
    assert_ne!(rest, ".");
    assert_ne!(rest, "..");
    assert_eq!(path, "./uploads/....etcpasswd");
}

#[test]
fn unnamed_part_creates_no_file() {
    let parts = [
        TestPart { filename: Some("a.txt"), chunks: vec![b"hello".to_vec()] },
        TestPart { filename: None, chunks: vec![b"ignored".to_vec()] },
    ];
    let (files, response) = run_upload(upload_dir(), &parts);
    assert_eq!(response.status, STATUS_OK);
    assert_eq!(files.len(), 1);
    assert_eq!(files[0].0, "./uploads/a.txt");
    assert_eq!(files[0].1, b"hello".to_vec());
}

#[test]
fn second_upload_with_same_name_overwrites() {
    let parts = [
        TestPart { filename: Some("dup.txt"), chunks: vec![b"first".to_vec()] },
        TestPart { filename: Some("dup.txt"), chunks: vec![b"second".to_vec()] },
    ];
    let (files, response) = run_upload(upload_dir(), &parts);
    assert_eq!(response.status, STATUS_OK);
    assert_eq!(files.len(), 1);
    assert_eq!(files[0].0, "./uploads/dup.txt");
    assert_eq!(files[0].1, b"second".to_vec());
}

#[test]
fn empty_request_succeeds_with_no_files() {
    let (files, response) = run_upload(upload_dir(), &[]);
    assert_eq!(response.status, STATUS_OK);
    assert_eq!(response.body, "File uploaded successfully");
    assert!(files.is_empty());
}

#[test]
fn directory_failure_reports_500() {
    let (state, action) = step(
        UploadState::AwaitingDir,
        upload_dir(),
        Event::DirFailed("permission denied".to_string()),
    );
    assert_eq!(state, UploadState::Done);
    match action {
        Action::Respond(response) => {
            assert_eq!(response.status, STATUS_INTERNAL_ERROR);
            assert_eq!(response.body, "Failed to create upload directory: permission denied");
        }
        _ => panic!("a directory failure must end the request"),
    }
}

#[test]
fn file_creation_failure_reports_500() {
    let dir = upload_dir();
    let (state, _) = step(
        UploadState::AwaitingPart,
        dir,
        Event::NextPartIs(PartHeader::Named("a.txt".to_string())),
    );
    let (state, action) = step(state, dir, Event::FileFailed("permission denied".to_string()));
    assert_eq!(state, UploadState::Done);
    match action {
        Action::Respond(response) => {
            assert_eq!(response.status, STATUS_INTERNAL_ERROR);
            assert_eq!(response.body, "Failed to create file: permission denied");
        }
        _ => panic!("a file-creation failure must end the request"),
    }
}

#[test]
fn chunk_write_failure_reports_500() {
    let dir = upload_dir();
    let (state, _) = step(
        UploadState::AwaitingPart,
        dir,
        Event::NextPartIs(PartHeader::Named("a.txt".to_string())),
    );
    let (state, _) = step(state, dir, Event::FileCreated);
    let (state, _) = step(state, dir, Event::ChunkIs(Some(b"data".to_vec())));
    let (state, action) = step(state, dir, Event::WriteFailed("disk full".to_string()));
    assert_eq!(state, UploadState::Done);
    match action {
        Action::Respond(response) => {
            assert_eq!(response.status, STATUS_INTERNAL_ERROR);
            assert_eq!(response.body, "Failed to write file: disk full");
        }
        _ => panic!("a write failure must end the request"),
    }
}

#[test]
fn write_failure_leaves_truncated_file() {
    let dir = upload_dir();
    let mut file: Vec<u8> = Vec::new();
    let (state, action) = step(
        UploadState::AwaitingPart,
        dir,
        Event::NextPartIs(PartHeader::Named("notes.txt".to_string())),
    );
    let path = match action {
        Action::CreateFile(p) => p,
        _ => panic!("a named part must have its file created"),
    };
    assert_eq!(path, "./uploads/notes.txt");
    let (state, _) = step(state, dir, Event::FileCreated);
    let (state, action) = step(state, dir, Event::ChunkIs(Some(b"ab".to_vec())));
    match action {
        Action::WriteChunk(bytes) => file.extend(bytes),
        _ => panic!("a delivered chunk must be written"),
    }
    let (state, _) = step(state, dir, Event::ChunkWritten);
    let (state, _) = step(state, dir, Event::ChunkIs(Some(b"cd".to_vec())));
    // The write of "cd" fails, so nothing more lands in the file.
    let (state, action) = step(state, dir, Event::WriteFailed("disk full".to_string()));
    assert_eq!(state, UploadState::Done);
    match action {
        Action::Respond(response) => {
            assert_eq!(response.status, STATUS_INTERNAL_ERROR);
            assert_eq!(response.body, "Failed to write file: disk full");
        }
        _ => panic!("a write failure must end the request"),
    }
    assert_eq!(file, b"ab".to_vec());
}

#[test]
fn body_limit_boundary() {
    assert!(body_within_limit(0));
    assert!(body_within_limit(MAX_BODY_BYTES - 1));
    assert!(body_within_limit(MAX_BODY_BYTES));
    assert!(!body_within_limit(MAX_BODY_BYTES + 1));
    assert_eq!(MAX_BODY_BYTES, 10 * 1024 * 1024);
}
