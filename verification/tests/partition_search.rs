use blkops::device::{
    common_search_dirs, link_destination, BlockDeviceFinder, DeviceError, DeviceScan, FindError, DirEntryProbe,
    PathProbe,
};
use blkops::helpers::CommandOutput;

fn probe(path: &str, exists: bool, link: Result<&str, ()>, canonical: Option<&str>) -> PathProbe {
    PathProbe {
        path: path.to_string(),
        exists,
        link: match link {
            Ok(t) => Ok(t.to_string()),
            Err(()) => Err(std::io::Error::new(std::io::ErrorKind::InvalidInput, "not a link")),
        },
        canonical: canonical.map(|c| c.to_string()),
    }
}

fn entry(name: &str, link: Option<&str>, canonical: Option<&str>) -> DirEntryProbe {
    DirEntryProbe {
        name: name.to_string(),
        link: link.map(|l| l.to_string()),
        canonical: canonical.map(|c| c.to_string()),
    }
}

fn empty_scan() -> DeviceScan {
    DeviceScan { by_name_dir_exists: true, by_name: vec![], common: vec![vec![], vec![], vec![]], dev_block: vec![] }
}

#[test]
fn candidates_list_suffixed_name_first() {
    let f = BlockDeviceFinder::new();
    assert_eq!(
        f.by_name_candidates("boot", "_a"),
        vec!["/dev/block/by-name/boot_a".to_string(), "/dev/block/by-name/boot".to_string()]
    );
    assert_eq!(f.by_name_candidates("boot", ""), vec!["/dev/block/by-name/boot".to_string()]);
}

#[test]
fn suffixed_link_wins() {
    let f = BlockDeviceFinder::new();
    let mut scan = empty_scan();
    scan.by_name = vec![
        probe("/dev/block/by-name/boot", true, Ok("/dev/block/sda1"), None),
        probe("/dev/block/by-name/boot_a", true, Ok("/dev/block/sda7"), None),
    ];
    assert_eq!(f.find_partition(scan, "boot", "_a").unwrap(), "/dev/block/sda7");
}

#[test]
fn relative_link_is_joined_or_canonical() {
    let f = BlockDeviceFinder::new();
    let mut scan = empty_scan();
    scan.by_name = vec![probe("/dev/block/by-name/boot_a", true, Ok("../mmcblk0p7"), None)];
    assert_eq!(f.find_partition(scan, "boot", "_a").unwrap(), "/dev/block/by-name/../mmcblk0p7");

    let mut scan = empty_scan();
    scan.by_name = vec![probe("/dev/block/by-name/boot_a", true, Ok("../mmcblk0p7"), Some("/dev/block/mmcblk0p7"))];
    assert_eq!(f.find_partition(scan, "boot", "_a").unwrap(), "/dev/block/mmcblk0p7");
    assert_eq!(link_destination("/dev/block/by-name/boot_a", "../mmcblk0p7"), "/dev/block/by-name/../mmcblk0p7");
    assert_eq!(link_destination("/dev/block/by-name/boot_a", "/dev/sda"), "/dev/sda");
}

#[test]
fn missing_suffixed_link_falls_back_to_bare_name() {
    let f = BlockDeviceFinder::new();
    let mut scan = empty_scan();
    scan.by_name = vec![
        probe("/dev/block/by-name/boot_a", false, Err(()), None),
        probe("/dev/block/by-name/boot", true, Ok("/dev/block/sda1"), None),
    ];
    assert_eq!(f.find_partition(scan, "boot", "_a").unwrap(), "/dev/block/sda1");
}

#[test]
fn unreadable_bare_link_is_an_io_error() {
    let f = BlockDeviceFinder::new();
    let mut scan = empty_scan();
    scan.by_name = vec![probe("/dev/block/by-name/boot", true, Err(()), None)];
    match f.find_partition(scan, "boot", "") {
        Err(FindError::Io(e)) => assert_eq!(e.kind(), std::io::ErrorKind::InvalidInput),
        other => panic!("unexpected {:?}", other),
    }
    let bare = FindError::Io(std::io::Error::new(std::io::ErrorKind::Other, "boom"));
    assert_eq!(bare.message(), "boom");
}

#[test]
fn common_directories_are_searched_in_order() {
    let f = BlockDeviceFinder::new();
    let mut scan = empty_scan();
    scan.by_name_dir_exists = false;
    scan.common = vec![
        vec![entry("userdata", None, None)],
        vec![entry("recovery_b", Some("/dev/block/sdc3"), None)],
        vec![entry("recovery", None, None)],
    ];
    assert_eq!(f.find_partition(scan, "recovery", "_a").unwrap(), "/dev/block/sdc3");
    assert_eq!(common_search_dirs(), vec!["/dev/block/platform", "/dev/block/bootdevice/by-name", "/dev/block/mapper"]);
}

#[test]
fn unreadable_entry_link_gives_entry_path() {
    let f = BlockDeviceFinder::new();
    let mut scan = empty_scan();
    scan.common = vec![vec![], vec![], vec![entry("system_a", None, None)]];
    assert_eq!(f.find_partition(scan, "system", "_a").unwrap(), "/dev/block/mapper/system_a");
}

#[test]
fn dev_block_is_searched_last() {
    let f = BlockDeviceFinder::new();
    let mut scan = empty_scan();
    scan.dev_block = vec!["loop0".to_string(), "mmcblk0p9".to_string()];
    assert_eq!(f.find_partition(scan, "blk0p", "").unwrap(), "/dev/block/mmcblk0p9");
}

#[test]
fn nothing_found_reports_the_name() {
    let f = BlockDeviceFinder::new();
    let mut scan = empty_scan();
    scan.dev_block = vec!["loop0".to_string()];
    let e = f.find_partition(scan, "vendor", "_b").unwrap_err();
    match &e {
        FindError::Device(DeviceError::PartitionNotFound(n)) => assert_eq!(n, "vendor"),
        other => panic!("unexpected {:?}", other),
    }
    assert_eq!(e.message(), "Partition not found: vendor");
}

#[test]
fn slot_suffix_from_properties() {
    let f = BlockDeviceFinder::new();
    let ok = |s: &str| CommandOutput { success: true, stdout: s.as_bytes().to_vec() };
    assert_eq!(f.slot_suffix_from_primary(&ok("_b\n")), Some("_b".to_string()));
    assert_eq!(f.slot_suffix_from_primary(&ok("  \n")), None);
    assert_eq!(f.slot_suffix_from_primary(&CommandOutput { success: false, stdout: b"_a".to_vec() }), None);
    assert_eq!(f.slot_suffix_from_alternative(Some(&ok("a\n"))), "_a");
    assert_eq!(f.slot_suffix_from_alternative(Some(&ok("\n"))), "");
    assert_eq!(f.slot_suffix_from_alternative(None), "");
}
