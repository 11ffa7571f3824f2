use pdf_reader::advisory::Advisory;
use pdf_reader::error::{ErrorReport, IoErrorKind};
use pdf_reader::memory::get_available_memory;
use pdf_reader::probe::FileDescriptor;
use pdf_reader::whole::{IoFailure, WholeRead};

/// A whole read of a file that holds `contents`, or of no file at all.
fn read_whole(path: &str, contents: Option<&[u8]>, available: u64) -> Result<Vec<u8>, ErrorReport> {
    let stat = match contents {
        Some(bytes) => Ok(bytes.len() as u64),
        None => Err("no such file".to_string()),
    };
    let read = WholeRead::begin(path.to_string(), stat, available)?;
    let _ = read.advisories();
    read.finish(Ok(contents.unwrap().to_vec()))
}

fn pattern(len: usize) -> Vec<u8> {
    let mut bytes = Vec::with_capacity(len);
    let mut i: usize = 0;
    while i < len {
        bytes.push((i % 251) as u8);
        i += 1;
    }
    bytes
}

#[test]
fn whole_read_returns_exactly_the_ten_bytes() {
    let doc: Vec<u8> = vec![1, 2, 3, 4, 5, 6, 7, 8, 9, 10];
    let result = read_whole("doc.pdf", Some(&doc), get_available_memory());
    assert_eq!(result, Ok(vec![1, 2, 3, 4, 5, 6, 7, 8, 9, 10]));
}

#[test]
fn whole_read_of_a_missing_file_is_a_metadata_error() {
    let result = read_whole("missing.pdf", None, get_available_memory());
    assert_eq!(result, Err(ErrorReport::Metadata { cause: "no such file".to_string() }));
}

#[test]
fn whole_read_of_an_empty_file_is_empty() {
    assert_eq!(read_whole("empty.pdf", Some(&[]), get_available_memory()), Ok(vec![]));
}

#[test]
fn whole_read_has_as_many_bytes_as_the_probe_saw() {
    let mut len: usize = 0;
    while len < 300 {
        let doc = pattern(len);
        let read = WholeRead::begin("doc.pdf".to_string(), Ok(len as u64), 0).unwrap();
        assert_eq!(read.expected_size(), len as u64);
        let data = read.finish(Ok(doc.clone())).unwrap();
        assert_eq!(data.len(), len);
        assert_eq!(data, doc);
        len += 7;
    }
}

#[test]
fn truncated_file_is_an_incomplete_read() {
    let read = WholeRead::begin("doc.pdf".to_string(), Ok(10), get_available_memory()).unwrap();
    let result = read.finish(Ok(vec![1, 2, 3, 4, 5, 6, 7]));
    assert_eq!(result, Err(ErrorReport::IncompleteRead { expected: 10, actual: 7 }));
}

#[test]
fn grown_file_is_an_incomplete_read() {
    let read = WholeRead::begin("doc.pdf".to_string(), Ok(3), get_available_memory()).unwrap();
    let result = read.finish(Ok(vec![1, 2, 3, 4]));
    assert_eq!(result, Err(ErrorReport::IncompleteRead { expected: 3, actual: 4 }));
}

#[test]
fn expected_bytes_but_none_read_is_an_incomplete_read() {
    let read = WholeRead::begin("doc.pdf".to_string(), Ok(1), get_available_memory()).unwrap();
    assert_eq!(
        read.finish(Ok(vec![])),
        Err(ErrorReport::IncompleteRead { expected: 1, actual: 0 })
    );
}

#[test]
fn failed_read_of_a_vanished_file_is_not_found() {
    let read = WholeRead::begin("doc.pdf".to_string(), Ok(10), get_available_memory()).unwrap();
    let failure = IoFailure {
        kind: IoErrorKind::NotFound,
        message: "No such file or directory (os error 2)".to_string(),
    };
    assert_eq!(read.finish(Err(failure)), Err(ErrorReport::NotFound));
}

#[test]
fn failed_read_without_rights_is_a_permission_error() {
    let read = WholeRead::begin("doc.pdf".to_string(), Ok(10), get_available_memory()).unwrap();
    let failure = IoFailure {
        kind: IoErrorKind::PermissionDenied,
        message: "Permission denied (os error 13)".to_string(),
    };
    assert_eq!(read.finish(Err(failure)), Err(ErrorReport::Permission));
}

#[test]
fn failed_read_for_want_of_memory_names_the_size() {
    let read = WholeRead::begin("big.pdf".to_string(), Ok(3221225472), 0).unwrap();
    let failure = IoFailure { kind: IoErrorKind::OutOfMemory, message: "out of memory".to_string() };
    let report = read.finish(Err(failure)).unwrap_err();
    assert_eq!(report, ErrorReport::OutOfMemory { size: 3221225472 });
    assert!(report.message().starts_with("内存不足，无法加载文件 (3072.00 MB)。"));
}

#[test]
fn any_other_failed_read_is_generic_with_its_text() {
    let read = WholeRead::begin("dir".to_string(), Ok(4096), get_available_memory()).unwrap();
    let failure =
        IoFailure { kind: IoErrorKind::Other, message: "Is a directory (os error 21)".to_string() };
    assert_eq!(
        read.finish(Err(failure)),
        Err(ErrorReport::GenericIo { message: "Is a directory (os error 21)".to_string() })
    );
}

#[test]
fn begin_keeps_the_probe_and_the_estimate() {
    let read = WholeRead::begin("doc.pdf".to_string(), Ok(10), 12345).unwrap();
    assert_eq!(read.descriptor(), &FileDescriptor { path: "doc.pdf".to_string(), size: 10 });
    assert_eq!(read.available(), 12345);
    assert_eq!(read.expected_size(), 10);
}

#[test]
fn advisories_follow_size_and_estimate() {
    let small = WholeRead::begin("a.pdf".to_string(), Ok(2 * 1024 * 1024), 2 << 30).unwrap();
    assert_eq!(small.advisories(), vec![]);
    let large = WholeRead::begin("b.pdf".to_string(), Ok(60 * 1024 * 1024), 2 << 30).unwrap();
    assert_eq!(large.advisories(), vec![Advisory::PreferChunked]);
    let pressed = WholeRead::begin("c.pdf".to_string(), Ok(60 * 1024 * 1024), 1 << 20).unwrap();
    assert_eq!(pressed.advisories(), vec![Advisory::PreferChunked, Advisory::HighMemoryPressure]);
}

/// `len` bytes, mostly zero, with a mark every 4096 bytes.
fn sparse(len: usize) -> Vec<u8> {
    let mut bytes = vec![0u8; len];
    let mut i: usize = 0;
    while i < len {
        bytes[i] = (i / 4096 % 251) as u8 + 1;
        i += 4096;
    }
    bytes
}

#[test]
fn advisories_do_not_touch_the_bytes() {
    let two = sparse(2 * 1024 * 1024);
    let sixty = sparse(60 * 1024 * 1024);
    let small = WholeRead::begin("two.pdf".to_string(), Ok(two.len() as u64), 2 << 30).unwrap();
    let large = WholeRead::begin("sixty.pdf".to_string(), Ok(sixty.len() as u64), 2 << 30).unwrap();
    assert_eq!(small.advisories(), vec![]);
    assert_eq!(large.advisories(), vec![Advisory::PreferChunked]);
    let small_data = small.finish(Ok(two.clone())).unwrap();
    let large_data = large.finish(Ok(sixty.clone())).unwrap();
    assert!(small_data == two);
    assert!(large_data == sixty);
    assert!(large_data[..small_data.len()] == small_data[..]);
}

#[test]
fn the_estimate_does_not_touch_the_result() {
    let doc = pattern(4096);
    let estimates: Vec<u64> = vec![0, 1, 4096, 8192, 8193, 2 << 30, u64::MAX];
    for available in estimates {
        assert_eq!(read_whole("doc.pdf", Some(&doc), available), Ok(doc.clone()));
        let read = WholeRead::begin("doc.pdf".to_string(), Ok(4097), available).unwrap();
        assert_eq!(
            read.finish(Ok(doc.clone())),
            Err(ErrorReport::IncompleteRead { expected: 4097, actual: 4096 })
        );
    }
}
