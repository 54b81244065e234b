use blkops::blockio::device::OpenStep;
use blkops::file::image_matches_device;
use blkops::transfer::Step;
use blkops::blockio::device::{
    after_read_error, block_size_from_sysfs, size_from_sysfs, chunked_transfer, sectors_to_bytes, select_total_size,
    sysfs_block_size_path, sysfs_number, sysfs_size_path, OpenEndedRead, ReadFailure, ReadStep,
};
use blkops::flash::writer as seq_writer;
use blkops::transfer::Transfer;
use blkops::writer::{FlashError, ImageDumper, ImageFlasher};

const MIB: u64 = 1024 * 1024;

#[test]
fn transfer_moves_every_byte_in_order() {
    let mut t = Transfer::new(10, 4);
    let mut offsets = vec![];
    while !t.is_complete() {
        let n = t.next_len();
        offsets.push((t.offset(), n));
        t.record(n);
    }
    assert_eq!(offsets, vec![(0, 4), (4, 4), (8, 2)]);
    assert_eq!(t.offset(), 10);
    assert_eq!(t.target(), 10);
}

#[test]
fn progress_marks_every_ten_mib() {
    let mut t = Transfer::new(30 * MIB, 4 * MIB);
    let mut marks = vec![];
    while !t.is_complete() {
        let n = t.next_len();
        if t.record(n) {
            marks.push(t.offset());
        }
    }
    assert_eq!(marks, vec![12 * MIB, 20 * MIB, 30 * MIB]);
}

#[test]
fn flasher_refuses_larger_image() {
    let f = ImageFlasher::new();
    match f.plan(5000, 4096) {
        Err(FlashError::FlashFailed(m)) => assert_eq!(m, "Image too large: 5000 > 4096"),
        _ => panic!("expected a refusal"),
    }
    let t = f.plan(4096, 4096).unwrap();
    assert_eq!(t.target(), 4096);
    assert_eq!(t.next_len(), 4096);
    assert_eq!(f.plan(9 * MIB, 16 * MIB).unwrap().next_len(), 4 * MIB);
}

#[test]
fn flasher_checks_short_writes() {
    let f = ImageFlasher::new();
    assert!(f.check_write(512, 512).is_ok());
    let e = f.check_write(512, 100).unwrap_err();
    assert_eq!(e.message(), "Flash failed: Write mismatch: wrote 100 of 512 bytes");
}

#[test]
fn root_is_required() {
    let f = ImageFlasher::new();
    assert!(f.require_root(b"0\n").is_ok());
    assert!(matches!(f.require_root(b"2000\n"), Err(FlashError::PermissionDenied)));
    let d = ImageDumper::new();
    assert!(matches!(d.require_root(b""), Err(FlashError::PermissionDenied)));
    assert_eq!(FlashError::PermissionDenied.message(), "Permission denied");
    let s = seq_writer::ImageDumper::new();
    assert!(s.require_root(b" 0 ").is_ok());
}

#[test]
fn dumper_plans_whole_device() {
    let d = ImageDumper::new();
    let t = d.plan(6 * MIB);
    assert_eq!(t.target(), 6 * MIB);
    assert_eq!(t.next_len(), 4 * MIB);
}

#[test]
fn sequential_flasher_messages() {
    let f = seq_writer::ImageFlasher::new();
    match f.plan(10, 9) {
        Err(seq_writer::FlashError::FlashFailed(m)) => {
            assert_eq!(m, "Image size (10 bytes) exceeds device size (9 bytes)")
        }
        _ => panic!("expected a refusal"),
    }
    assert!(f.plan(9, 9).is_ok());
    let d = seq_writer::ImageDumper::new();
    match d.plan(0) {
        Err(e) => assert_eq!(e.message(), "Dump failed: Device size is 0"),
        Ok(_) => panic!("expected a refusal"),
    }
    assert_eq!(d.plan(1).unwrap().target(), 1);
}

#[test]
fn sysfs_locations_and_numbers() {
    assert_eq!(sysfs_size_path("/dev/block/mmcblk0p7"), Some("/sys/class/block/mmcblk0p7/size".to_string()));
    assert_eq!(
        sysfs_block_size_path("/dev/block/sda/"),
        Some("/sys/class/block/sda/queue/logical_block_size".to_string())
    );
    assert_eq!(sysfs_size_path("/"), None);
    assert_eq!(sysfs_size_path("/dev/.."), None);
    assert_eq!(sysfs_number("1024\n"), Some(1024));
    assert_eq!(sysfs_number("x"), None);
    assert_eq!(sectors_to_bytes(1024), 524288);
    assert_eq!(block_size_from_sysfs(Some("4096\n")), 4096);
    assert_eq!(block_size_from_sysfs(Some("junk")), 512);
    assert_eq!(block_size_from_sysfs(None), 512);
}

#[test]
fn device_size_sources_in_order() {
    assert_eq!(select_total_size(8192, Some(4096)), 8192);
    assert_eq!(select_total_size(0, Some(4096)), 4096);
    assert_eq!(select_total_size(0, None), 0);
}

#[test]
fn read_failures_lead_to_retry_stop_or_fail() {
    assert_eq!(after_read_error(ReadFailure::TimedOut, true), ReadStep::Retry);
    assert_eq!(after_read_error(ReadFailure::WouldBlock, false), ReadStep::Retry);
    assert_eq!(after_read_error(ReadFailure::UnexpectedEof, false), ReadStep::Stop);
    assert_eq!(after_read_error(ReadFailure::UnexpectedEof, true), ReadStep::Fail);
    assert_eq!(after_read_error(ReadFailure::Other, false), ReadStep::Fail);
}

#[test]
fn open_ended_read_stops_past_one_gib() {
    let mut r = OpenEndedRead::new();
    let mut reads = 0u64;
    while r.record(64 * 1024) {
        reads += 1;
    }
    assert_eq!(reads, 16384);
    assert_eq!(r.total(), 1024 * MIB + 64 * 1024);
    let t = chunked_transfer(100_000);
    assert_eq!(t.next_len(), 65536);
}

#[test]
fn advance_ends_on_empty_read_and_reports_completion() {
    let mut t = Transfer::new(10, 4);
    assert_eq!(t.advance(4), Step::Moved { passed_mark: false, complete: false });
    assert_eq!(t.advance(0), Step::SourceEnded);
    assert_eq!(t.offset(), 4);
    assert_eq!(t.advance(4), Step::Moved { passed_mark: false, complete: false });
    assert_eq!(t.advance(2), Step::Moved { passed_mark: false, complete: true });
    let mut big = Transfer::new(12 * MIB, 4 * MIB);
    big.advance(4 * MIB);
    big.advance(4 * MIB);
    assert_eq!(big.advance(4 * MIB), Step::Moved { passed_mark: true, complete: true });
}

#[test]
fn open_ended_advance_ends_on_empty_read() {
    let mut r = OpenEndedRead::new();
    assert_eq!(r.advance(0), OpenStep::SourceEnded);
    assert_eq!(r.advance(100), OpenStep::Read { go_on: true });
    assert_eq!(r.total(), 100);
    assert_eq!(r.chunk_len(), 65536);
}

#[test]
fn image_verifies_by_size() {
    assert!(image_matches_device(4096, 4096));
    assert!(!image_matches_device(4095, 4096));
}

#[test]
fn sysfs_size_outcomes() {
    assert_eq!(size_from_sysfs(None), Some(0));
    assert_eq!(size_from_sysfs(Some("2048\n")), Some(1048576));
    assert_eq!(size_from_sysfs(Some("many")), None);
}
