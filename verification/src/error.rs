//! The failures of the three operations, each a kind with the text shown to
//! the user.

use vstd::prelude::*;
use vstd::string::StringExecFns;
use crate::size_label::{hundredths, push_mib, two_places, MIB};
use crate::text::{decimal, push_decimal};

verus! {

/// How the operating system classed a failed read of a whole file.
#[derive(Debug, Clone, Copy, PartialEq, Eq)]
pub enum IoErrorKind {
    /// The allocator could not provide the buffer.
    OutOfMemory,
    /// Access to the file was denied.
    PermissionDenied,
    /// No file is at the path.
    NotFound,
    /// Any other failure.
    Other,
}

/// The kinds of failure that a report tells apart.
#[derive(Debug, Clone, Copy, PartialEq, Eq)]
pub enum ReportKind {
    /// The file's metadata could not be read.
    Metadata,
    /// The file is missing or was moved.
    NotFound,
    /// Access to the file was denied.
    Permission,
    /// Memory ran out during the read.
    OutOfMemory,
    /// The read gave another number of bytes than the probe had seen.
    IncompleteRead,
    /// The file could not be opened for a chunked read.
    Open,
    /// The file could not be positioned.
    Seek,
    /// Any other input/output failure.
    GenericIo,
}

/// A failed operation: what went wrong, with what the message needs.
#[derive(Debug, Clone, PartialEq, Eq)]
pub enum ErrorReport {
    /// The file's metadata could not be read; `cause` is the system's text.
    Metadata { cause: String },
    /// The file is missing or was moved.
    NotFound,
    /// Access to the file was denied.
    Permission,
    /// Memory ran out while a file of `size` bytes was read.
    OutOfMemory { size: u64 },
    /// The read gave `actual` bytes where the probe had seen `expected`.
    IncompleteRead { expected: u64, actual: u64 },
    /// The file could not be opened for a chunked read.
    Open { cause: String },
    /// The file could not be positioned at the requested offset.
    Seek { cause: String },
    /// Any other input/output failure; `message` is the system's text.
    GenericIo { message: String },
}

/// Opens the message of a `Metadata` error; the cause follows.
pub const METADATA_PREFIX: &'static str = "获取文件信息失败: ";

/// The message of a `NotFound` error: check the path.
pub const NOT_FOUND_TEXT: &'static str = "文件不存在或已被移动，请检查文件路径";

/// The message of a `Permission` error: check the rights, or run elevated.
pub const PERMISSION_TEXT: &'static str = "文件访问被拒绝，请检查文件权限或以管理员身份运行";

/// Opens the message of an `OutOfMemory` error; the size in megabytes follows.
pub const OUT_OF_MEMORY_PREFIX: &'static str = "内存不足，无法加载文件 (";

/// Closes the message of an `OutOfMemory` error: when this happens, and what
/// to do about it.
pub const OUT_OF_MEMORY_ADVICE: &'static str =
    " MB)。\n\n这通常发生在：\n• 系统可用内存不足\n• 文件过大超出系统处理能力\n\n建议解决方案：\n• 关闭其他应用程序释放更多内存\n• 重启应用程序清理内存\n• 在更高配置的设备上运行\n• 如果文件确实过大，考虑使用专业PDF工具进行预处理";

/// Opens the message of an `IncompleteRead` error; the expected count follows.
pub const INCOMPLETE_EXPECTED: &'static str = "文件读取不完整：期望 ";

/// Stands between the expected and the actual count.
pub const INCOMPLETE_ACTUAL: &'static str = " 字节，实际读取 ";

/// Closes the message of an `IncompleteRead` error.
pub const INCOMPLETE_END: &'static str = " 字节";

/// Opens the message of an `Open` error; the cause follows.
pub const OPEN_PREFIX: &'static str = "打开文件失败: ";

/// Opens the message of a `Seek` error; the cause follows.
pub const SEEK_PREFIX: &'static str = "文件定位失败: ";

/// Opens the message of a `GenericIo` error; the system's text follows.
pub const GENERIC_PREFIX: &'static str = "文件读取失败: ";

/// Closes the message of a `GenericIo` error: with a large file, memory may
/// be the reason.
pub const GENERIC_HINT: &'static str = "\n\n如果是大文件，这可能是由于内存限制导致的";

impl ErrorReport {
    /// The kind of the failure.
    pub open spec fn spec_kind(&self) -> ReportKind {
        match self {
            ErrorReport::Metadata { .. } => ReportKind::Metadata,
            ErrorReport::NotFound => ReportKind::NotFound,
            ErrorReport::Permission => ReportKind::Permission,
            ErrorReport::OutOfMemory { .. } => ReportKind::OutOfMemory,
            ErrorReport::IncompleteRead { .. } => ReportKind::IncompleteRead,
            ErrorReport::Open { .. } => ReportKind::Open,
            ErrorReport::Seek { .. } => ReportKind::Seek,
            ErrorReport::GenericIo { .. } => ReportKind::GenericIo,
        }
    }

    /// The kind of the failure.
    #[verifier::when_used_as_spec(spec_kind)]
    pub fn kind(&self) -> (kind: ReportKind)
        ensures
            kind == self.kind(),
    {
        match self {
            ErrorReport::Metadata { .. } => ReportKind::Metadata,
            ErrorReport::NotFound => ReportKind::NotFound,
            ErrorReport::Permission => ReportKind::Permission,
            ErrorReport::OutOfMemory { .. } => ReportKind::OutOfMemory,
            ErrorReport::IncompleteRead { .. } => ReportKind::IncompleteRead,
            ErrorReport::Open { .. } => ReportKind::Open,
            ErrorReport::Seek { .. } => ReportKind::Seek,
            ErrorReport::GenericIo { .. } => ReportKind::GenericIo,
        }
    }

    /// The text of the report, as the user reads it.
    pub open spec fn message_text(&self) -> Seq<char> {
        match self {
            ErrorReport::Metadata { cause } => METADATA_PREFIX@ + cause@,
            ErrorReport::NotFound => NOT_FOUND_TEXT@,
            ErrorReport::Permission => PERMISSION_TEXT@,
            ErrorReport::OutOfMemory { size } => OUT_OF_MEMORY_PREFIX@ + two_places(
                hundredths(*size as nat, MIB as nat),
            ) + OUT_OF_MEMORY_ADVICE@,
            ErrorReport::IncompleteRead { expected, actual } => INCOMPLETE_EXPECTED@ + decimal(
                *expected as nat,
            ) + INCOMPLETE_ACTUAL@ + decimal(*actual as nat) + INCOMPLETE_END@,
            ErrorReport::Open { cause } => OPEN_PREFIX@ + cause@,
            ErrorReport::Seek { cause } => SEEK_PREFIX@ + cause@,
            ErrorReport::GenericIo { message } => GENERIC_PREFIX@ + message@ + GENERIC_HINT@,
        }
    }

    /// The text of the report: never empty, and with the underlying cause or
    /// the byte counts wherever the report carries them.
    pub fn message(&self) -> (text: String)
        ensures
            text@ == self.message_text(),
            text@.len() > 0,
    {
        let mut text = String::new();
        match self {
            ErrorReport::Metadata { cause } => {
                text.append(METADATA_PREFIX);
                text.append(cause.as_str());
            },
            ErrorReport::NotFound => {
                text.append(NOT_FOUND_TEXT);
            },
            ErrorReport::Permission => {
                text.append(PERMISSION_TEXT);
            },
            ErrorReport::OutOfMemory { size } => {
                text.append(OUT_OF_MEMORY_PREFIX);
                push_mib(&mut text, *size);
                text.append(OUT_OF_MEMORY_ADVICE);
            },
            ErrorReport::IncompleteRead { expected, actual } => {
                text.append(INCOMPLETE_EXPECTED);
                push_decimal(&mut text, *expected);
                text.append(INCOMPLETE_ACTUAL);
                push_decimal(&mut text, *actual);
                text.append(INCOMPLETE_END);
            },
            ErrorReport::Open { cause } => {
                text.append(OPEN_PREFIX);
                text.append(cause.as_str());
            },
            ErrorReport::Seek { cause } => {
                text.append(SEEK_PREFIX);
                text.append(cause.as_str());
            },
            ErrorReport::GenericIo { message } => {
                text.append(GENERIC_PREFIX);
                text.append(message.as_str());
                text.append(GENERIC_HINT);
            },
        }
        proof {
            assert(text@ =~= self.message_text());
            self.message_is_not_empty();
        }
        text
    }

    /// The first five characters of the report's text, which its kind alone
    /// decides.
    proof fn message_opening(&self)
        ensures
            self.message_text().len() >= 5,
            self.message_text().take(5) == match self.kind() {
                ReportKind::Metadata => METADATA_PREFIX@.take(5),
                ReportKind::NotFound => NOT_FOUND_TEXT@.take(5),
                ReportKind::Permission => PERMISSION_TEXT@.take(5),
                ReportKind::OutOfMemory => OUT_OF_MEMORY_PREFIX@.take(5),
                ReportKind::IncompleteRead => INCOMPLETE_EXPECTED@.take(5),
                ReportKind::Open => OPEN_PREFIX@.take(5),
                ReportKind::Seek => SEEK_PREFIX@.take(5),
                ReportKind::GenericIo => GENERIC_PREFIX@.take(5),
            },
    {
        reveal_strlit("获取文件信息失败: ");
        reveal_strlit("文件不存在或已被移动，请检查文件路径");
        reveal_strlit("文件访问被拒绝，请检查文件权限或以管理员身份运行");
        reveal_strlit("内存不足，无法加载文件 (");
        reveal_strlit("文件读取不完整：期望 ");
        reveal_strlit("打开文件失败: ");
        reveal_strlit("文件定位失败: ");
        reveal_strlit("文件读取失败: ");
        let text = self.message_text();
        match self {
            ErrorReport::Metadata { .. } => {
                assert(text.take(5) =~= METADATA_PREFIX@.take(5));
            },
            ErrorReport::NotFound => {},
            ErrorReport::Permission => {},
            ErrorReport::OutOfMemory { .. } => {
                assert(text.take(5) =~= OUT_OF_MEMORY_PREFIX@.take(5));
            },
            ErrorReport::IncompleteRead { .. } => {
                assert(text.take(5) =~= INCOMPLETE_EXPECTED@.take(5));
            },
            ErrorReport::Open { .. } => {
                assert(text.take(5) =~= OPEN_PREFIX@.take(5));
            },
            ErrorReport::Seek { .. } => {
                assert(text.take(5) =~= SEEK_PREFIX@.take(5));
            },
            ErrorReport::GenericIo { .. } => {
                assert(text.take(5) =~= GENERIC_PREFIX@.take(5));
            },
        }
    }

    /// Each kind has a message of its own: two reports with the same text
    /// are of the same kind.
    pub proof fn kinds_differ_in_their_messages(&self, other: &ErrorReport)
        requires
            self.message_text() == other.message_text(),
        ensures
            self.kind() == other.kind(),
    {
        reveal_strlit("获取文件信息失败: ");
        reveal_strlit("文件不存在或已被移动，请检查文件路径");
        reveal_strlit("文件访问被拒绝，请检查文件权限或以管理员身份运行");
        reveal_strlit("内存不足，无法加载文件 (");
        reveal_strlit("文件读取不完整：期望 ");
        reveal_strlit("打开文件失败: ");
        reveal_strlit("文件定位失败: ");
        reveal_strlit("文件读取失败: ");
        self.message_opening();
        other.message_opening();
        let opening = self.message_text().take(5);
        assert(opening == other.message_text().take(5));
        assert(opening[0] == self.message_text()[0]);
        assert(opening[2] == self.message_text()[2]);
        assert(opening[4] == self.message_text()[4]);
        assert(METADATA_PREFIX@.take(5)[0] == '获');
        assert(OUT_OF_MEMORY_PREFIX@.take(5)[0] == '内');
        assert(OPEN_PREFIX@.take(5)[0] == '打');
        assert(NOT_FOUND_TEXT@.take(5)[0] == '文' && NOT_FOUND_TEXT@.take(5)[2] == '不');
        assert(PERMISSION_TEXT@.take(5)[0] == '文' && PERMISSION_TEXT@.take(5)[2] == '访');
        assert(SEEK_PREFIX@.take(5)[0] == '文' && SEEK_PREFIX@.take(5)[2] == '定');
        assert(INCOMPLETE_EXPECTED@.take(5)[2] == '读' && INCOMPLETE_EXPECTED@.take(5)[4] == '不');
        assert(GENERIC_PREFIX@.take(5)[2] == '读' && GENERIC_PREFIX@.take(5)[4] == '失');
    }

    /// Every report has something to say.
    pub proof fn message_is_not_empty(&self)
        ensures
            self.message_text().len() > 0,
    {
        reveal_strlit("获取文件信息失败: ");
        reveal_strlit("文件不存在或已被移动，请检查文件路径");
        reveal_strlit("文件访问被拒绝，请检查文件权限或以管理员身份运行");
        reveal_strlit("内存不足，无法加载文件 (");
        reveal_strlit("文件读取不完整：期望 ");
        reveal_strlit("打开文件失败: ");
        reveal_strlit("文件定位失败: ");
        reveal_strlit("文件读取失败: ");
    }
}

} // verus!
