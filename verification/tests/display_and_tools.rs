use blkops::cli::{Action, Cli};
use blkops::error::BlockIOError;
use blkops::helpers::{ab_partitions_from_output, api_level_from_output, uid_output_is_root, CommandOutput};
use blkops::progress::{display_bytes, bar, eta, ProgressBar, ProgressDisplay, SimpleProgress};

fn out(success: bool, s: &str) -> CommandOutput {
    CommandOutput { success, stdout: s.as_bytes().to_vec() }
}

#[test]
fn help_when_asked_or_idle() {
    let mut cli = Cli { search: None, path_only: false, flash: None, write: None, dump: None, help: false };
    assert!(cli.should_show_help());
    cli.search = Some("boot".to_string());
    assert!(!cli.should_show_help());
    cli.help = true;
    assert!(cli.should_show_help());
}

#[test]
fn bar_and_eta_layout() {
    assert_eq!(bar(0), " ".repeat(50));
    assert_eq!(bar(50), format!("{}{}", "=".repeat(25), " ".repeat(25)));
    assert_eq!(bar(100), "=".repeat(50));
    assert_eq!(bar(33), format!("{}{}", "=".repeat(16), " ".repeat(34)));
    assert_eq!(eta(0), "");
    assert_eq!(eta(65), " ETA: 01:05");
    assert_eq!(eta(6000), " ETA: 100:00");
}

#[test]
fn progress_bar_counts_and_renders() {
    let mut p = ProgressBar::new(1000, "Writing");
    assert!(p.update(300));
    assert!(p.update(200));
    assert_eq!(p.get_current(), 500);
    let line = p.render(50, 100, 3).unwrap();
    assert_eq!(line, format!("\rWriting [{}{}] 50% 500 B/1000 B (100 B/s) ETA: 00:03", "=".repeat(25), " ".repeat(25)));
    let p = p.with_bytes_display(false);
    assert_eq!(p.render(50, 100, 0).unwrap(), format!("\rWriting [{}{}] 50%", "=".repeat(25), " ".repeat(25)));
    assert!(ProgressBar::new(0, "x").render(0, 0, 0).is_none());
}

#[test]
fn simple_progress_counts_and_renders() {
    let mut p = SimpleProgress::new(2048);
    p.update(1000);
    p.update(24);
    assert_eq!(p.current(), 1024);
    assert_eq!(p.total(), 2048);
    assert_eq!(p.render(50, 12), "\rProgress: 50% | 1.0 KiB/2.0 KiB | 12 B/s");
    p.mark_redrawn();
    assert_eq!(p.current(), 1024);
}

#[test]
fn tool_outputs_are_read() {
    assert!(uid_output_is_root(b"0\n"));
    assert!(!uid_output_is_root(b"10\n"));
    assert_eq!(api_level_from_output(&out(true, "33\n")), Ok(33));
    assert_eq!(api_level_from_output(&out(false, "33\n")), Ok(0));
    assert_eq!(api_level_from_output(&out(true, "abc\n")), Err("abc".to_string()));
    assert!(ab_partitions_from_output(Some(&out(true, "TRUE\n"))));
    assert!(ab_partitions_from_output(Some(&out(true, "1"))));
    assert!(!ab_partitions_from_output(Some(&out(true, "false"))));
    assert!(!ab_partitions_from_output(Some(&out(false, "true"))));
    assert!(!ab_partitions_from_output(None));
}

#[test]
fn block_io_error_messages() {
    assert_eq!(BlockIOError::SizeMismatch(4, 5).message(), "Size mismatch: expected 4, got 5");
    assert_eq!(BlockIOError::InvalidBlockSize(3).message(), "Invalid block size: 3");
    assert_eq!(BlockIOError::Cancelled.message(), "Operation cancelled");
    assert_eq!(BlockIOError::ChecksumMismatch.message(), "Checksum mismatch");
    assert_eq!(BlockIOError::DeviceNotFound("sda".into()).message(), "Device not found: sda");
    let e = BlockIOError::IoError(std::io::Error::new(std::io::ErrorKind::Other, "boom"));
    assert_eq!(e.message(), "IO error: boom");
}

#[test]
fn redraw_follows_the_interval() {
    let mut p = SimpleProgress::new(0);
    assert!(!p.update_with_elapsed(10, 99));
    assert!(p.update_with_elapsed(10, 100));
    assert!(p.redraw_due(250));
    assert!(!p.redraw_due(0));
    assert_eq!(p.current(), 20);
    assert_eq!(p.render(0, 0), "\rProgress: 0% | 20 B/0 B | 0 B/s");
}

#[test]
fn full_bar_at_one_hundred_and_one() {
    assert_eq!(bar(101), "=".repeat(50));
    let mut p = ProgressBar::new(100, "w");
    p.update(101);
    assert_eq!(p.render(101, 0, 0).unwrap(), format!("\rw [{}] 101% 101 B/100 B (0 B/s)", "=".repeat(50)));
}

#[test]
fn bytes_display() {
    assert_eq!(display_bytes(512), "512 B");
    assert_eq!(display_bytes(1536), "1.5 KiB");
}

#[test]
fn actions_follow_the_command_line() {
    let v = |a: &str, b: &str| Some(vec![a.to_string(), b.to_string()]);
    let cli = Cli { search: None, path_only: false, flash: None, write: None, dump: None, help: false };
    assert!(matches!(cli.actions().as_slice(), [Action::ShowHelp]));
    let cli = Cli {
        search: Some("boot".into()),
        path_only: true,
        flash: Some(vec!["only".into()]),
        write: v("boot.img", "boot"),
        dump: v("vendor", "vendor.img"),
        help: false,
    };
    let acts = cli.actions();
    assert_eq!(acts.len(), 4);
    assert!(matches!(&acts[0], Action::Search { partition, path_only: true } if partition == "boot"));
    assert!(matches!(&acts[1], Action::FlashUsageError));
    assert!(matches!(&acts[2], Action::Flash { image, partition } if image == "boot.img" && partition == "boot"));
    assert!(matches!(&acts[3], Action::Dump { partition, image } if partition == "vendor" && image == "vendor.img"));
    let mut with_help = cli;
    with_help.help = true;
    assert!(matches!(with_help.actions().as_slice(), [Action::ShowHelp]));
}

#[test]
fn shown_percent_is_zero_for_empty_display() {
    assert_eq!(SimpleProgress::new(0).shown_percent(255), 0);
    assert_eq!(SimpleProgress::new(10).shown_percent(40), 40);
}
