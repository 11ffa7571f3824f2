use pdf_reader::chunk::{ChunkRequest, ChunkStep};
use pdf_reader::error::{ErrorReport, IoErrorKind};
use pdf_reader::memory::get_available_memory;
use pdf_reader::probe::{probe, FileDescriptor};
use pdf_reader::whole::{IoFailure, WholeRead};
use tokio::io::{AsyncReadExt, AsyncSeekExt};

fn wait<F: std::future::Future>(future: F) -> F::Output {
    tokio::runtime::Builder::new_current_thread().build().unwrap().block_on(future)
}

/// Writes `contents` to a file of its own and gives the file's path.
fn file_with(name: &str, contents: &[u8]) -> String {
    let path = format!("/tmp/pdf_reader_on_disk_{}.bin", name);
    wait(tokio::fs::write(&path, contents)).unwrap();
    path
}

fn no_file(name: &str) -> String {
    format!("/tmp/pdf_reader_on_disk_{}.none", name)
}

fn discard(path: &str) {
    wait(tokio::fs::remove_file(path)).unwrap();
}

fn failure_of(error: std::io::Error) -> IoFailure {
    let kind = match error.kind() {
        std::io::ErrorKind::OutOfMemory => IoErrorKind::OutOfMemory,
        std::io::ErrorKind::PermissionDenied => IoErrorKind::PermissionDenied,
        std::io::ErrorKind::NotFound => IoErrorKind::NotFound,
        _ => IoErrorKind::Other,
    };
    IoFailure { kind, message: error.to_string() }
}

async fn stat(path: &str) -> Result<u64, String> {
    match tokio::fs::metadata(path).await {
        Ok(metadata) => Ok(metadata.len()),
        Err(error) => Err(error.to_string()),
    }
}

async fn file_info(path: &str) -> Result<FileDescriptor, ErrorReport> {
    probe(path.to_string(), stat(path).await)
}

async fn read_whole(path: &str) -> Result<Vec<u8>, ErrorReport> {
    let read = WholeRead::begin(path.to_string(), stat(path).await, get_available_memory())?;
    let _ = read.advisories();
    read.finish(tokio::fs::read(path).await.map_err(failure_of))
}

async fn read_chunk(
    path: &str,
    chunk_size: Option<usize>,
    offset: Option<u64>,
) -> Result<Vec<u8>, ErrorReport> {
    let request = ChunkRequest::new(chunk_size, offset);
    let (file, answer) = match tokio::fs::File::open(path).await {
        Ok(file) => (Some(file), Ok(())),
        Err(error) => (None, Err(error.to_string())),
    };
    let step = request.opened(answer)?;
    let mut file = file.unwrap();
    let fill = match step {
        ChunkStep::Seek(seek) => {
            let answer = match file.seek(std::io::SeekFrom::Start(seek.target())).await {
                Ok(_) => Ok(()),
                Err(error) => Err(error.to_string()),
            };
            seek.sought(answer)?
        }
        ChunkStep::Fill(fill) => fill,
    };
    let mut buffer = fill.buffer();
    let answer = match file.read(&mut buffer).await {
        Ok(count) => Ok(count),
        Err(error) => Err(error.to_string()),
    };
    fill.filled(buffer, answer)
}

#[test]
fn on_disk_probe_gives_the_size() {
    let path = file_with("probe", &[1, 2, 3, 4, 5, 6, 7, 8, 9, 10]);
    let file = wait(file_info(&path)).unwrap();
    assert_eq!(file.size, 10);
    assert_eq!(file.path, path);
    assert_eq!(file.size_label(), "0.00 MB");
    discard(&path);
}

#[test]
fn on_disk_probe_of_a_missing_file_is_a_metadata_error() {
    let path = no_file("probe");
    match wait(file_info(&path)) {
        Err(ErrorReport::Metadata { cause }) => assert!(!cause.is_empty()),
        other => panic!("unexpected: {:?}", other),
    }
}

#[test]
fn on_disk_whole_read_returns_the_file() {
    let path = file_with("whole", &[1, 2, 3, 4, 5, 6, 7, 8, 9, 10]);
    assert_eq!(wait(read_whole(&path)), Ok(vec![1, 2, 3, 4, 5, 6, 7, 8, 9, 10]));
    discard(&path);
}

#[test]
fn on_disk_whole_read_of_a_missing_file_is_a_metadata_error() {
    let path = no_file("whole");
    assert!(matches!(wait(read_whole(&path)), Err(ErrorReport::Metadata { .. })));
}

#[test]
fn on_disk_chunks_walk_through_the_file() {
    let path = file_with("chunks", &[1, 2, 3, 4, 5, 6, 7, 8, 9, 10]);
    assert_eq!(wait(read_chunk(&path, Some(4), Some(0))), Ok(vec![1, 2, 3, 4]));
    assert_eq!(wait(read_chunk(&path, Some(4), Some(4))), Ok(vec![5, 6, 7, 8]));
    assert_eq!(wait(read_chunk(&path, Some(4), Some(8))), Ok(vec![9, 10]));
    assert_eq!(wait(read_chunk(&path, Some(4), Some(10))), Ok(vec![]));
    assert_eq!(wait(read_chunk(&path, Some(4), Some(100))), Ok(vec![]));
    assert_eq!(wait(read_chunk(&path, None, None)), Ok(vec![1, 2, 3, 4, 5, 6, 7, 8, 9, 10]));
    discard(&path);
}

#[test]
fn on_disk_chunk_of_a_missing_file_is_an_open_error() {
    let path = no_file("chunks");
    assert!(matches!(wait(read_chunk(&path, Some(4), Some(0))), Err(ErrorReport::Open { .. })));
}

#[test]
fn on_disk_chunks_joined_are_the_whole_read() {
    let mut contents = Vec::new();
    let mut i: u32 = 0;
    while i < 5000 {
        contents.push((i % 241) as u8);
        i += 1;
    }
    let path = file_with("joined", &contents);
    let whole = wait(read_whole(&path)).unwrap();
    assert_eq!(whole, contents);
    let mut joined = Vec::new();
    let mut offset: u64 = 0;
    let mut calls = 0;
    loop {
        let chunk = wait(read_chunk(&path, Some(512), Some(offset))).unwrap();
        calls += 1;
        assert!(chunk.len() <= 512);
        if chunk.is_empty() {
            break;
        }
        offset += chunk.len() as u64;
        joined.extend_from_slice(&chunk);
    }
    assert_eq!(joined, whole);
    assert_eq!(offset, 5000);
    assert_eq!(calls, 11);
    discard(&path);
}
