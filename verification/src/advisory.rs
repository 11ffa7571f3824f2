//! Advisories on a file about to be read whole. They inform; they never
//! decide whether or how the file is read.

use vstd::prelude::*;
use vstd::string::StringExecFns;
use crate::size_label::{hundredths, push_gib, push_mib, two_places, GIB, MIB};

verus! {

/// Above this size, 50 binary megabytes, reading in chunks is the better way.
pub const CHUNKED_THRESHOLD: u64 = 52428800;

/// Above this size, one binary gigabyte, a file counts as very large.
pub const VERY_LARGE_THRESHOLD: u64 = 1073741824;

/// Something worth telling the operator before a whole-file read.
#[derive(Debug, Clone, Copy, PartialEq, Eq)]
pub enum Advisory {
    /// The file is larger than `CHUNKED_THRESHOLD`.
    PreferChunked,
    /// The file is larger than half of the memory estimated to be available.
    HighMemoryPressure,
    /// The file is larger than `VERY_LARGE_THRESHOLD`.
    VeryLarge,
}

/// Opens the text of `PreferChunked`; the size in megabytes follows.
pub const PREFER_CHUNKED_HEAD: &'static str = "建议: 文件较大 (";

/// Closes the text of `PreferChunked`: reading in chunks is recommended.
pub const PREFER_CHUNKED_TAIL: &'static str = " MB)，推荐使用分片加载以获得更好性能";

/// Opens the text of `HighMemoryPressure`; the size in megabytes follows.
pub const PRESSURE_HEAD: &'static str = "警告: 文件较大 (";

/// Stands between the size and the memory estimated to be available.
pub const PRESSURE_MIDDLE: &'static str = " MB)，可能会消耗大量内存 (可用: ";

/// Closes the text of `HighMemoryPressure`: close other large applications.
pub const PRESSURE_TAIL: &'static str = " MB)\n建议: 确保关闭其他大型应用程序以释放内存";

/// Opens the text of `VeryLarge`; the size in gigabytes follows.
pub const VERY_LARGE_HEAD: &'static str = "处理超大文件 (";

/// Closes the text of `VeryLarge`: this may take long and need much memory.
pub const VERY_LARGE_TAIL: &'static str =
    " GB)，这可能需要较长时间和大量内存\n提示: 应用将尝试优化内存使用，但建议在高配置设备上运行";

/// Whether a file of `size` bytes calls for `advisory` when `available`
/// bytes of memory are estimated to be free.
pub open spec fn applies(advisory: Advisory, size: u64, available: u64) -> bool {
    match advisory {
        Advisory::PreferChunked => size > CHUNKED_THRESHOLD,
        Advisory::HighMemoryPressure => size > available / 2,
        Advisory::VeryLarge => size > VERY_LARGE_THRESHOLD,
    }
}

/// `advisory` alone if it applies, nothing otherwise.
pub open spec fn raised(advisory: Advisory, size: u64, available: u64) -> Seq<Advisory> {
    if applies(advisory, size, available) {
        seq![advisory]
    } else {
        Seq::empty()
    }
}

/// The advisories for a file of `size` bytes, in the order in which they are
/// emitted.
pub open spec fn advisories_for(size: u64, available: u64) -> Seq<Advisory> {
    raised(Advisory::PreferChunked, size, available) + raised(
        Advisory::HighMemoryPressure,
        size,
        available,
    ) + raised(Advisory::VeryLarge, size, available)
}

/// The advisories for a file of `size` bytes when `available` bytes of
/// memory are estimated to be free.
pub fn classify(size: u64, available: u64) -> (list: Vec<Advisory>)
    ensures
        list@ == advisories_for(size, available),
        forall|advisory: Advisory|
            list@.contains(advisory) <==> applies(advisory, size, available),
{
    let mut list: Vec<Advisory> = Vec::new();
    if size > CHUNKED_THRESHOLD {
        list.push(Advisory::PreferChunked);
    }
    if size > available / 2 {
        list.push(Advisory::HighMemoryPressure);
    }
    if size > VERY_LARGE_THRESHOLD {
        list.push(Advisory::VeryLarge);
    }
    proof {
        assert(list@ =~= advisories_for(size, available));
        advisories_are_those_that_apply(size, available);
    }
    list
}

/// An advisory is emitted exactly when its threshold is passed.
pub proof fn advisories_are_those_that_apply(size: u64, available: u64)
    ensures
        forall|advisory: Advisory|
            advisories_for(size, available).contains(advisory) <==> applies(
                advisory,
                size,
                available,
            ),
{
    let list = advisories_for(size, available);
    let first = raised(Advisory::PreferChunked, size, available);
    let second = raised(Advisory::HighMemoryPressure, size, available);
    let third = raised(Advisory::VeryLarge, size, available);
    assert forall|advisory: Advisory| applies(advisory, size, available) implies list.contains(
        advisory,
    ) by {
        match advisory {
            Advisory::PreferChunked => {
                assert(list[0] == advisory);
            },
            Advisory::HighMemoryPressure => {
                assert(list[first.len() as int] == advisory);
            },
            Advisory::VeryLarge => {
                assert(list[(first.len() + second.len()) as int] == advisory);
            },
        }
    }
    assert forall|advisory: Advisory| list.contains(advisory) implies applies(
        advisory,
        size,
        available,
    ) by {
        let i = choose|i: int| 0 <= i < list.len() && list[i] == advisory;
        if i < first.len() {
            assert(list[i] == first[i]);
        } else if i < first.len() + second.len() {
            assert(list[i] == second[i - first.len()]);
        } else {
            assert(list[i] == third[i - first.len() - second.len()]);
        }
    }
}

impl Advisory {
    /// The advisory's text for a file of `size` bytes.
    pub open spec fn text_for(&self, size: u64, available: u64) -> Seq<char> {
        match self {
            Advisory::PreferChunked => PREFER_CHUNKED_HEAD@ + two_places(
                hundredths(size as nat, MIB as nat),
            ) + PREFER_CHUNKED_TAIL@,
            Advisory::HighMemoryPressure => PRESSURE_HEAD@ + two_places(
                hundredths(size as nat, MIB as nat),
            ) + PRESSURE_MIDDLE@ + two_places(hundredths(available as nat, MIB as nat))
                + PRESSURE_TAIL@,
            Advisory::VeryLarge => VERY_LARGE_HEAD@ + two_places(
                hundredths(size as nat, GIB as nat),
            ) + VERY_LARGE_TAIL@,
        }
    }

    /// The advisory's text for a file of `size` bytes, with the sizes in
    /// binary megabytes or gigabytes.
    pub fn text(&self, size: u64, available: u64) -> (text: String)
        ensures
            text@ == self.text_for(size, available),
    {
        let mut text = String::new();
        match self {
            Advisory::PreferChunked => {
                text.append(PREFER_CHUNKED_HEAD);
                push_mib(&mut text, size);
                text.append(PREFER_CHUNKED_TAIL);
            },
            Advisory::HighMemoryPressure => {
                text.append(PRESSURE_HEAD);
                push_mib(&mut text, size);
                text.append(PRESSURE_MIDDLE);
                push_mib(&mut text, available);
                text.append(PRESSURE_TAIL);
            },
            Advisory::VeryLarge => {
                text.append(VERY_LARGE_HEAD);
                push_gib(&mut text, size);
                text.append(VERY_LARGE_TAIL);
            },
        }
        assert(text@ =~= self.text_for(size, available));
        text
    }
}

} // verus!
