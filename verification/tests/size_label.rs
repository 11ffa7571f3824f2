use pdf_reader::size_label::{gib_hundredths, mib_hundredths, size_label};

fn float_mib(size: u64) -> String {
    format!("{:.2} MB", size as f64 / 1024.0 / 1024.0)
}

fn float_gib(size: u64) -> String {
    format!("{:.2}", size as f64 / 1024.0 / 1024.0 / 1024.0)
}

fn gib_text(size: u64) -> String {
    let h = gib_hundredths(size);
    format!("{}.{}{}", h / 100, (h / 10) % 10, h % 10)
}

#[test]
fn label_of_twelve_and_a_half_megabytes() {
    assert_eq!(size_label(13107200), "12.50 MB");
}

#[test]
fn label_of_an_empty_file() {
    assert_eq!(size_label(0), "0.00 MB");
}

#[test]
fn label_of_ten_bytes() {
    assert_eq!(size_label(10), "0.00 MB");
}

#[test]
fn label_ties_go_to_the_even_hundredth() {
    // 131072 bytes are 0.125 MB, 393216 bytes are 0.375 MB.
    assert_eq!(size_label(131072), "0.12 MB");
    assert_eq!(size_label(393216), "0.38 MB");
    assert_eq!(mib_hundredths(131072), 12);
    assert_eq!(mib_hundredths(393216), 38);
}

#[test]
fn label_of_the_largest_size() {
    assert_eq!(size_label(u64::MAX), "17592186044416.00 MB");
    assert_eq!(size_label(u64::MAX), float_mib(u64::MAX));
}

#[test]
fn label_agrees_with_floating_point_on_small_sizes() {
    let mut size: u64 = 0;
    while size < 3 * 1048576 {
        assert_eq!(size_label(size), float_mib(size), "size {}", size);
        size += 1021;
    }
}

#[test]
fn label_agrees_with_floating_point_on_ties() {
    let mut odd: u64 = 1;
    while odd < 4000 {
        let size = odd * 131072;
        assert_eq!(size_label(size), float_mib(size), "size {}", size);
        odd += 2;
    }
}

#[test]
fn label_agrees_with_floating_point_across_magnitudes() {
    let mut size: u64 = 1;
    let mut step: u64 = 0;
    while step < 4000 {
        assert_eq!(size_label(size), float_mib(size), "size {}", size);
        assert_eq!(gib_text(size), float_gib(size), "size {}", size);
        size = size.wrapping_mul(6364136223846793005).wrapping_add(1442695040888963407);
        step += 1;
    }
}

#[test]
fn label_agrees_with_floating_point_beyond_exact_doubles() {
    let limit: u64 = 9007199254740992;
    let mut size: u64 = limit - 5;
    while size < limit + 40 {
        assert_eq!(size_label(size), float_mib(size), "size {}", size);
        size += 1;
    }
    let mut shift = 54;
    while shift < 64 {
        let base: u64 = 1 << shift;
        let mut delta: u64 = 0;
        while delta < 5000 {
            assert_eq!(size_label(base + delta), float_mib(base + delta));
            assert_eq!(size_label(base - delta), float_mib(base - delta));
            assert_eq!(gib_text(base + delta), float_gib(base + delta));
            delta += 1;
        }
        shift += 1;
    }
}

#[test]
fn gigabytes_of_one_and_a_quarter() {
    assert_eq!(gib_hundredths(1342177280), 125);
}
