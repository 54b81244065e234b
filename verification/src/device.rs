//! Finding the block device of a partition.
//!
//! The search looks, in this order, at the by-name links (first the name with
//! the slot suffix, then the bare name), at the entries of three further
//! directories of `/dev/block`, and at the entries of `/dev/block` itself.
//! The program answers the file-system questions of the search in a
//! `DeviceScan`; `BlockDeviceFinder::find_partition` decides from it.
use vstd::prelude::*;
use crate::helpers::{CommandOutput, output_text, trimmed_output};
use crate::paths::{is_absolute, join, is_absolute_path, join_path};
use crate::sys::{path_parent, path_parent_text, io_error_text};
use crate::text::{contains, contains_str, same_text, occurs_at};

verus! {

/// Why a partition could not be located.
#[derive(Debug)]
pub enum DeviceError {
    /// No location names the partition.
    PartitionNotFound(String),
    /// An I/O error.
    IoError(std::io::Error),
}

impl DeviceError {
    /// The error's message, as the tool prints it.
    pub fn message(&self) -> (r: String)
        ensures
            match self {
                DeviceError::PartitionNotFound(n) => r@ == "Partition not found: "@ + n@,
                DeviceError::IoError(_) => r@.len() >= 10 && r@.subrange(0, 10)
                    == "IO error: "@,
            },
    {
        match self {
            DeviceError::PartitionNotFound(n) => {
                let mut s = String::from_str("Partition not found: ");
                s.append(n.as_str());
                s
            },
            DeviceError::IoError(e) => {
                let mut s = String::from_str("IO error: ");
                proof {
                    reveal_strlit("IO error: ");
                }
                let t = io_error_text(e);
                s.append(t.as_str());
                assert(s@.subrange(0, 10) =~= "IO error: "@);
                s
            },
        }
    }
}

/// Why the search for a partition failed: reading the partition's by-name
/// link failed, and that error is passed on as it is; or the partition could
/// not be found.
#[derive(Debug)]
pub enum FindError {
    Io(std::io::Error),
    Device(DeviceError),
}

impl FindError {
    /// The error's message, as the tool prints it: the I/O error's own text,
    /// or the device error's message.
    pub fn message(&self) -> (r: String)
        ensures
            match self {
                FindError::Device(DeviceError::PartitionNotFound(n)) => r@ == "Partition not found: "@
                    + n@,
                FindError::Device(DeviceError::IoError(_)) => r@.len() >= 10 && r@.subrange(0, 10)
                    == "IO error: "@,
                FindError::Io(_) => true,
            },
    {
        match self {
            FindError::Io(e) => io_error_text(e),
            FindError::Device(d) => d.message(),
        }
    }
}

/// Finds the block device behind a partition name.
pub struct BlockDeviceFinder;

/// What the file system answered about one path of the by-name directory.
pub struct PathProbe {
    /// The path asked about.
    pub path: String,
    /// `Path::exists` of the path (the link is followed).
    pub exists: bool,
    /// `fs::read_link` of the path.
    pub link: Result<String, std::io::Error>,
    /// `fs::canonicalize` of `link_destination(path, target)`, where `target`
    /// is what `link` read; `None` when that failed or was not asked.
    pub canonical: Option<String>,
}

/// What the file system answered about one entry of a searched directory.
pub struct DirEntryProbe {
    /// The entry's file name.
    pub name: String,
    /// `fs::read_link` of the entry's path; `None` when it failed.
    pub link: Option<String>,
    /// `fs::canonicalize` of `link_destination(entry path, target)`; `None`
    /// when that failed or was not asked.
    pub canonical: Option<String>,
}

/// The answers of the file system that the partition search reads.
pub struct DeviceScan {
    /// `Path::exists` of `/dev/block/by-name`.
    pub by_name_dir_exists: bool,
    /// Probes of the by-name paths that `BlockDeviceFinder::by_name_candidates`
    /// lists; a path without a probe counts as missing.
    pub by_name: Vec<PathProbe>,
    /// The entries of each directory of `common_search_dirs`, in that order
    /// and in the order `fs::read_dir` gave them; a directory that is missing
    /// or cannot be read has no entries.
    pub common: Vec<Vec<DirEntryProbe>>,
    /// The names of the entries of `/dev/block`, in `fs::read_dir` order.
    pub dev_block: Vec<String>,
}

/// The outcome of the search.
pub enum Located {
    /// The device path.
    At(Seq<char>),
    /// Reading the link of the bare by-name path failed with this error.
    LinkFailed(std::io::Error),
    /// Nothing names the partition.
    NotFound,
}

pub open spec fn by_name_dir() -> Seq<char> {
    "/dev/block/by-name"@
}

pub open spec fn dev_block_dir() -> Seq<char> {
    "/dev/block"@
}

/// The directories searched after the by-name links.
pub open spec fn common_dir(i: int) -> Seq<char> {
    if i == 0 {
        "/dev/block/platform"@
    } else if i == 1 {
        "/dev/block/bootdevice/by-name"@
    } else {
        "/dev/block/mapper"@
    }
}

pub open spec fn opt_text(o: Option<String>) -> Option<Seq<char>> {
    match o {
        Some(s) => Some(s@),
        None => None,
    }
}

/// The directory a link lives in (`Path::parent`, or `/` where there is none).
pub open spec fn parent_or_root(p: Seq<char>) -> Seq<char> {
    match path_parent_text(p) {
        Some(q) => q,
        None => "/"@,
    }
}

/// Where a link at `link_path` that reads `target` points: the target joined
/// to the link's directory.
pub open spec fn link_destination_text(link_path: Seq<char>, target: Seq<char>) -> Seq<char> {
    join(parent_or_root(link_path), target)
}

/// The device path a link resolves to: an absolute target as it is; a
/// relative one joined to the link's directory, in canonical form where that
/// could be had.
pub open spec fn resolved_text(
    link_path: Seq<char>,
    target: Seq<char>,
    canonical: Option<Seq<char>>,
) -> Seq<char> {
    if is_absolute(target) {
        target
    } else {
        match canonical {
            Some(c) => c,
            None => link_destination_text(link_path, target),
        }
    }
}

/// The first probe, from position `from` on, that is about `path`.
pub open spec fn find_probe(probes: Seq<PathProbe>, path: Seq<char>, from: int) -> Option<int>
    decreases probes.len() - from,
{
    if from < 0 || from >= probes.len() {
        None
    } else if probes[from].path@ == path {
        Some(from)
    } else {
        find_probe(probes, path, from + 1)
    }
}

/// The by-name paths the search consults: the suffixed name first, when
/// there is a suffix, then the bare name.
pub open spec fn by_name_paths(name: Seq<char>, suffix: Seq<char>) -> Seq<Seq<char>> {
    if suffix.len() > 0 {
        seq![join(by_name_dir(), name + suffix), join(by_name_dir(), name)]
    } else {
        seq![join(by_name_dir(), name)]
    }
}

/// The outcome of the by-name step, if it decides the search.
pub open spec fn by_name_lookup(scan: DeviceScan, name: Seq<char>, suffix: Seq<char>) -> Option<
    Located,
> {
    if !scan.by_name_dir_exists {
        None
    } else {
        let suffixed: Option<Seq<char>> = if suffix.len() > 0 {
            match find_probe(scan.by_name@, join(by_name_dir(), name + suffix), 0) {
                Some(i) => {
                    let p = scan.by_name@[i];
                    match p.link {
                        Ok(t) => if p.exists {
                            Some(resolved_text(p.path@, t@, opt_text(p.canonical)))
                        } else {
                            None
                        },
                        Err(_) => None,
                    }
                },
                None => None,
            }
        } else {
            None
        };
        match suffixed {
            Some(x) => Some(Located::At(x)),
            None => match find_probe(scan.by_name@, join(by_name_dir(), name), 0) {
                Some(i) => {
                    let p = scan.by_name@[i];
                    if p.exists {
                        Some(
                            match p.link {
                                Ok(t) => Located::At(
                                    resolved_text(p.path@, t@, opt_text(p.canonical)),
                                ),
                                Err(e) => Located::LinkFailed(e),
                            },
                        )
                    } else {
                        None
                    }
                },
                None => None,
            },
        }
    }
}

/// An entry name matches a search target when it equals it or holds it.
pub open spec fn target_matches(entry: Seq<char>, target: Seq<char>) -> bool {
    entry == target || contains(entry, target)
}

/// An entry matches the partition when it matches the suffixed name (if
/// there is a suffix) or the bare name.
pub open spec fn entry_matches(entry: Seq<char>, name: Seq<char>, suffix: Seq<char>) -> bool {
    (suffix.len() > 0 && target_matches(entry, name + suffix)) || target_matches(entry, name)
}

/// The device path of a matching directory entry: its link resolved, or the
/// entry's own path where the link cannot be read.
pub open spec fn entry_result(dir: Seq<char>, e: DirEntryProbe) -> Seq<char> {
    let path = join(dir, e.name@);
    match e.link {
        Some(t) => resolved_text(path, t@, opt_text(e.canonical)),
        None => path,
    }
}

/// The result for the first matching entry, from position `from` on.
pub open spec fn first_entry(
    entries: Seq<DirEntryProbe>,
    dir: Seq<char>,
    name: Seq<char>,
    suffix: Seq<char>,
    from: int,
) -> Option<Seq<char>>
    decreases entries.len() - from,
{
    if from < 0 || from >= entries.len() {
        None
    } else if entry_matches(entries[from].name@, name, suffix) {
        Some(entry_result(dir, entries[from]))
    } else {
        first_entry(entries, dir, name, suffix, from + 1)
    }
}

/// The entries listed for common directory `i`.
pub open spec fn listing(scan: DeviceScan, i: int) -> Seq<DirEntryProbe> {
    if 0 <= i < scan.common@.len() {
        scan.common@[i]@
    } else {
        Seq::empty()
    }
}

/// The result of searching the common directories from the `i`th on.
pub open spec fn common_from(scan: DeviceScan, name: Seq<char>, suffix: Seq<char>, i: int) -> Option<
    Seq<char>,
>
    decreases 3 - i,
{
    if i < 0 || i >= 3 {
        None
    } else {
        match first_entry(listing(scan, i), common_dir(i), name, suffix, 0) {
            Some(p) => Some(p),
            None => common_from(scan, name, suffix, i + 1),
        }
    }
}

/// The path of the first entry of `/dev/block`, from position `from` on,
/// whose name holds the partition name.
pub open spec fn first_dev_entry(names: Seq<String>, name: Seq<char>, from: int) -> Option<
    Seq<char>,
>
    decreases names.len() - from,
{
    if from < 0 || from >= names.len() {
        None
    } else if contains(names[from]@, name) {
        Some(join(dev_block_dir(), names[from]@))
    } else {
        first_dev_entry(names, name, from + 1)
    }
}

/// The outcome of the whole search.
pub open spec fn locate(scan: DeviceScan, name: Seq<char>, suffix: Seq<char>) -> Located {
    match by_name_lookup(scan, name, suffix) {
        Some(l) => l,
        None => match common_from(scan, name, suffix, 0) {
            Some(p) => Located::At(p),
            None => match first_dev_entry(scan.dev_block@, name, 0) {
                Some(p) => Located::At(p),
                None => Located::NotFound,
            },
        },
    }
}

/// Where a link at `link_path` that reads `target` points: the target joined
/// to the link's directory. This is the path whose canonical form a probe
/// reports.
pub fn link_destination(link_path: &str, target: &str) -> (r: String)
    ensures
        r@ == link_destination_text(link_path@, target@),
{
    match path_parent(link_path) {
        Some(p) => join_path(p.as_str(), target),
        None => {
            proof {
                reveal_strlit("/");
            }
            join_path("/", target)
        },
    }
}

fn resolve_link(link_path: &str, target: &str, canonical: &Option<String>) -> (r: String)
    ensures
        r@ == resolved_text(link_path@, target@, opt_text(*canonical)),
{
    if is_absolute_path(target) {
        String::from_str(target)
    } else {
        match canonical {
            Some(c) => c.clone(),
            None => link_destination(link_path, target),
        }
    }
}

fn find_probe_index(probes: &Vec<PathProbe>, path: &String) -> (r: Option<usize>)
    ensures
        match r {
            Some(i) => find_probe(probes@, path@, 0) == Some(i as int) && i < probes.len(),
            None => find_probe(probes@, path@, 0) is None,
        },
{
    let mut i: usize = 0;
    while i < probes.len()
        invariant
            i <= probes.len(),
            find_probe(probes@, path@, 0) == find_probe(probes@, path@, i as int),
        decreases probes.len() - i,
    {
        if same_text(probes[i].path.as_str(), path.as_str()) {
            return Some(i);
        }
        i += 1;
    }
    None
}

fn concat(a: &str, b: &str) -> (r: String)
    ensures
        r@ == a@ + b@,
{
    let mut s = String::from_str(a);
    s.append(b);
    s
}

fn target_matches_exec(entry: &str, target: &str) -> (r: bool)
    ensures
        r == target_matches(entry@, target@),
{
    same_text(entry, target) || contains_str(entry, target)
}

fn entry_matches_exec(entry: &str, name: &str, suffix: &str) -> (r: bool)
    ensures
        r == entry_matches(entry@, name@, suffix@),
{
    if !suffix.is_empty() {
        let t = concat(name, suffix);
        if target_matches_exec(entry, t.as_str()) {
            return true;
        }
    }
    target_matches_exec(entry, name)
}

fn entry_result_exec(dir: &str, e: &DirEntryProbe) -> (r: String)
    ensures
        r@ == entry_result(dir@, *e),
{
    let path = join_path(dir, e.name.as_str());
    match &e.link {
        Some(t) => resolve_link(path.as_str(), t.as_str(), &e.canonical),
        None => path,
    }
}

fn first_entry_exec(entries: &Vec<DirEntryProbe>, dir: &str, name: &str, suffix: &str) -> (r:
    Option<String>)
    ensures
        opt_text(r) == first_entry(entries@, dir@, name@, suffix@, 0),
{
    let mut i: usize = 0;
    while i < entries.len()
        invariant
            i <= entries.len(),
            first_entry(entries@, dir@, name@, suffix@, 0) == first_entry(
                entries@,
                dir@,
                name@,
                suffix@,
                i as int,
            ),
        decreases entries.len() - i,
    {
        if entry_matches_exec(entries[i].name.as_str(), name, suffix) {
            return Some(entry_result_exec(dir, &entries[i]));
        }
        i += 1;
    }
    None
}

fn first_dev_entry_exec(names: &Vec<String>, name: &str) -> (r: Option<String>)
    ensures
        opt_text(r) == first_dev_entry(names@, name@, 0),
{
    let mut i: usize = 0;
    while i < names.len()
        invariant
            i <= names.len(),
            first_dev_entry(names@, name@, 0) == first_dev_entry(names@, name@, i as int),
        decreases names.len() - i,
    {
        if contains_str(names[i].as_str(), name) {
            return Some(join_path("/dev/block", names[i].as_str()));
        }
        i += 1;
    }
    None
}

/// The directories searched after the by-name links, in search order.
pub fn common_search_dirs() -> (r: Vec<String>)
    ensures
        r@.len() == 3,
        forall|i: int| 0 <= i < 3 ==> #[trigger] r@[i]@ == common_dir(i),
{
    let mut v: Vec<String> = Vec::new();
    v.push(String::from_str("/dev/block/platform"));
    v.push(String::from_str("/dev/block/bootdevice/by-name"));
    v.push(String::from_str("/dev/block/mapper"));
    v
}

fn common_dir_exec(i: usize) -> (r: &'static str)
    requires
        i < 3,
    ensures
        r@ == common_dir(i as int),
{
    if i == 0 {
        "/dev/block/platform"
    } else if i == 1 {
        "/dev/block/bootdevice/by-name"
    } else {
        "/dev/block/mapper"
    }
}

impl BlockDeviceFinder {
    pub fn new() -> (r: Self) {
        BlockDeviceFinder
    }

    /// The slot suffix that `getprop ro.boot.slot_suffix` reported: its
    /// trimmed output, when the command succeeded and printed something.
    pub fn slot_suffix_from_primary(&self, out: &CommandOutput) -> (r: Option<String>)
        ensures
            r is Some <==> (out.success && output_text(out.stdout@).len() > 0),
            r is Some ==> r->0@ == output_text(out.stdout@),
    {
        if out.success {
            let suffix = trimmed_output(out.stdout.as_slice());
            if !suffix.as_str().is_empty() {
                return Some(suffix);
            }
        }
        None
    }

    /// The slot suffix made from `getprop ro.boot.slot` (`None` when the
    /// command could not be run): `_` and its trimmed output, when it
    /// succeeded and printed something; otherwise no suffix.
    pub fn slot_suffix_from_alternative(&self, out: Option<&CommandOutput>) -> (r: String)
        ensures
            r@ == match out {
                Some(o) => if o.success && output_text(o.stdout@).len() > 0 {
                    "_"@ + output_text(o.stdout@)
                } else {
                    Seq::<char>::empty()
                },
                None => Seq::<char>::empty(),
            },
    {
        match out {
            Some(o) => {
                if o.success {
                    let slot = trimmed_output(o.stdout.as_slice());
                    if !slot.as_str().is_empty() {
                        return concat("_", slot.as_str());
                    }
                }
                String::new()
            },
            None => String::new(),
        }
    }

    /// The by-name paths that the search consults, in the order it consults
    /// them; the program probes each of them for the `DeviceScan`.
    pub fn by_name_candidates(&self, partition_name: &str, slot_suffix: &str) -> (r: Vec<String>)
        ensures
            r@.len() == by_name_paths(partition_name@, slot_suffix@).len(),
            forall|i: int|
                0 <= i < r@.len() ==> #[trigger] r@[i]@ == by_name_paths(
                    partition_name@,
                    slot_suffix@,
                )[i],
    {
        let mut v: Vec<String> = Vec::new();
        if !slot_suffix.is_empty() {
            let t = concat(partition_name, slot_suffix);
            v.push(join_path("/dev/block/by-name", t.as_str()));
        }
        v.push(join_path("/dev/block/by-name", partition_name));
        v
    }

    /// Finds the device path of a partition from the file system's answers.
    pub fn find_partition(&self, scan: DeviceScan, partition_name: &str, slot_suffix: &str) -> (r:
        Result<String, FindError>)
        ensures
            match locate(scan, partition_name@, slot_suffix@) {
                Located::At(p) => r is Ok && r->Ok_0@ == p,
                Located::LinkFailed(e) => r == Err::<String, FindError>(FindError::Io(e)),
                Located::NotFound => r is Err && (r->Err_0 matches FindError::Device(
                    DeviceError::PartitionNotFound(n),
                ) && n@ == partition_name@),
            },
    {
        let ghost scan0 = scan;
        let DeviceScan { by_name_dir_exists, by_name, common, dev_block } = scan;
        let mut by_name = by_name;
        if by_name_dir_exists {
            if !slot_suffix.is_empty() {
                let t = concat(partition_name, slot_suffix);
                let path = join_path("/dev/block/by-name", t.as_str());
                match find_probe_index(&by_name, &path) {
                    Some(i) => {
                        let p = &by_name[i];
                        if p.exists {
                            match &p.link {
                                Ok(target) => {
                                    return Ok(
                                        resolve_link(p.path.as_str(), target.as_str(), &p.canonical),
                                    );
                                },
                                Err(_) => {},
                            }
                        }
                    },
                    None => {},
                }
            }
            let path = join_path("/dev/block/by-name", partition_name);
            match find_probe_index(&by_name, &path) {
                Some(i) => {
                    if by_name[i].exists {
                        let p = by_name.remove(i);
                        let PathProbe { path: ppath, exists: _, link, canonical } = p;
                        match link {
                            Ok(target) => {
                                return Ok(
                                    resolve_link(ppath.as_str(), target.as_str(), &canonical),
                                );
                            },
                            Err(e) => {
                                return Err(FindError::Io(e));
                            },
                        }
                    }
                },
                None => {},
            }
        }
        assert(by_name_lookup(scan0, partition_name@, slot_suffix@) is None);
        let mut k: usize = 0;
        while k < 3
            invariant
                k <= 3,
                scan0 == scan,
                common@ == scan0.common@,
                by_name_lookup(scan0, partition_name@, slot_suffix@) is None,
                common_from(scan0, partition_name@, slot_suffix@, 0) == common_from(
                    scan0,
                    partition_name@,
                    slot_suffix@,
                    k as int,
                ),
            decreases 3 - k,
        {
            if k < common.len() {
                match first_entry_exec(&common[k], common_dir_exec(k), partition_name, slot_suffix) {
                    Some(p) => {
                        return Ok(p);
                    },
                    None => {},
                }
            }
            k += 1;
        }
        match first_dev_entry_exec(&dev_block, partition_name) {
            Some(p) => Ok(p),
            None => Err(
                FindError::Device(DeviceError::PartitionNotFound(String::from_str(partition_name))),
            ),
        }
    }
}

/// An entry matches the partition exactly when its name holds the bare
/// partition name: the slot-suffixed target finds nothing more.
pub proof fn lemma_entry_match_is_containment(entry: Seq<char>, name: Seq<char>, suffix: Seq<char>)
    ensures
        entry_matches(entry, name, suffix) == contains(entry, name),
{
    if entry == name {
        assert(occurs_at(entry, name, 0)) by {
            assert(entry.subrange(0, name.len() as int) =~= name);
        }
    }
    let long = name + suffix;
    if entry == long {
        assert(occurs_at(entry, long, 0)) by {
            assert(entry.subrange(0, long.len() as int) =~= long);
        }
    }
    if contains(entry, long) {
        let i = choose|i: int| occurs_at(entry, long, i);
        assert(occurs_at(entry, name, i)) by {
            assert(entry.subrange(i, i + name.len()) =~= entry.subrange(i, i + long.len()).subrange(
                0,
                name.len() as int,
            ));
            assert(long.subrange(0, name.len() as int) =~= name);
        }
    }
}

proof fn lemma_first_entry_none(
    entries: Seq<DirEntryProbe>,
    dir: Seq<char>,
    name: Seq<char>,
    suffix: Seq<char>,
    from: int,
)
    requires
        0 <= from <= entries.len(),
    ensures
        first_entry(entries, dir, name, suffix, from) is None <==> forall|j: int|
            from <= j < entries.len() ==> !contains(#[trigger] entries[j].name@, name),
    decreases entries.len() - from,
{
    if from < entries.len() {
        lemma_entry_match_is_containment(entries[from].name@, name, suffix);
        lemma_first_entry_none(entries, dir, name, suffix, from + 1);
    }
}

proof fn lemma_first_dev_entry_none(names: Seq<String>, name: Seq<char>, from: int)
    requires
        0 <= from <= names.len(),
    ensures
        first_dev_entry(names, name, from) is None <==> forall|j: int|
            from <= j < names.len() ==> !contains(#[trigger] names[j]@, name),
    decreases names.len() - from,
{
    if from < names.len() {
        lemma_first_dev_entry_none(names, name, from + 1);
    }
}

proof fn lemma_common_from_none(scan: DeviceScan, name: Seq<char>, suffix: Seq<char>, i: int)
    requires
        0 <= i <= 3,
    ensures
        common_from(scan, name, suffix, i) is None <==> forall|k: int, j: int|
            i <= k < 3 && 0 <= j < listing(scan, k).len() ==> !contains(
                #[trigger] listing(scan, k)[j].name@,
                name,
            ),
    decreases 3 - i,
{
    if i < 3 {
        lemma_first_entry_none(listing(scan, i), common_dir(i), name, suffix, 0);
        lemma_common_from_none(scan, name, suffix, i + 1);
    }
}

/// Some searched directory has an entry whose name holds the partition name.
pub open spec fn named_in_directories(scan: DeviceScan, name: Seq<char>) -> bool {
    ||| exists|k: int, j: int|
        0 <= k < 3 && 0 <= j < listing(scan, k).len() && contains(
            #[trigger] listing(scan, k)[j].name@,
            name,
        )
    ||| exists|j: int| 0 <= j < scan.dev_block@.len() && contains(#[trigger] scan.dev_block@[j]@, name)
}

/// A partition is reported missing exactly when the by-name links do not
/// settle the search and no entry of the searched directories has a name
/// that holds the partition name.
pub proof fn lemma_not_found_exactly_when_unnamed(
    scan: DeviceScan,
    name: Seq<char>,
    suffix: Seq<char>,
)
    ensures
        locate(scan, name, suffix) is NotFound <==> (by_name_lookup(scan, name, suffix) is None
            && !named_in_directories(scan, name)),
{
    lemma_common_from_none(scan, name, suffix, 0);
    lemma_first_dev_entry_none(scan.dev_block@, name, 0);
}

/// When the directory of by-name links exists and the tool runs with a slot
/// suffix, an existing, readable link for the suffixed name decides the
/// search: its resolution is the result, whatever else the scan holds.
pub proof fn lemma_suffixed_link_first(
    scan: DeviceScan,
    name: Seq<char>,
    suffix: Seq<char>,
    i: int,
)
    requires
        scan.by_name_dir_exists,
        suffix.len() > 0,
        find_probe(scan.by_name@, join(by_name_dir(), name + suffix), 0) == Some(i),
        scan.by_name@[i].exists,
        scan.by_name@[i].link is Ok,
    ensures
        locate(scan, name, suffix) == Located::At(
            resolved_text(
                scan.by_name@[i].path@,
                scan.by_name@[i].link->Ok_0@,
                opt_text(scan.by_name@[i].canonical),
            ),
        ),
{
}

/// A link whose target is absolute resolves to that target, as it reads,
/// whether or not a canonical form was had; a relative target resolves to
/// its canonical form where there is one, else to the target joined to the
/// link's directory.
pub proof fn lemma_link_resolution(link_path: Seq<char>, target: Seq<char>, canonical: Option<Seq<char>>)
    ensures
        is_absolute(target) ==> resolved_text(link_path, target, canonical) == target,
        !is_absolute(target) && canonical is Some ==> resolved_text(link_path, target, canonical)
            == canonical->0,
        !is_absolute(target) && canonical is None ==> resolved_text(link_path, target, canonical)
            == join(parent_or_root(link_path), target),
{
}

proof fn lemma_find_probe_at(probes: Seq<PathProbe>, path: Seq<char>, from: int, i: int)
    requires
        0 <= from <= i < probes.len(),
        probes[i].path@ == path,
        forall|j: int| from <= j < i ==> probes[j].path@ != path,
    ensures
        find_probe(probes, path, from) == Some(i),
    decreases i - from,
{
    if from < i {
        lemma_find_probe_at(probes, path, from + 1, i);
    }
}

proof fn lemma_find_probe_found(probes: Seq<PathProbe>, path: Seq<char>, from: int)
    requires
        0 <= from,
        find_probe(probes, path, from) is Some,
    ensures
        from <= find_probe(probes, path, from)->0 < probes.len(),
        probes[find_probe(probes, path, from)->0].path@ == path,
    decreases probes.len() - from,
{
    if from < probes.len() && probes[from].path@ != path {
        lemma_find_probe_found(probes, path, from + 1);
    }
}

/// When the by-name directory exists and no readable link exists for the
/// slot-suffixed name (in particular when there is no slot suffix), an
/// existing, readable by-name link for the bare name decides the search: its
/// resolution is the result, whatever the other directories hold.
pub proof fn lemma_bare_link_decides(
    scan: DeviceScan,
    name: Seq<char>,
    suffix: Seq<char>,
    i: int,
)
    requires
        scan.by_name_dir_exists,
        0 <= i < scan.by_name@.len(),
        scan.by_name@[i].path@ == join(by_name_dir(), name),
        forall|j: int| 0 <= j < i ==> scan.by_name@[j].path@ != join(by_name_dir(), name),
        scan.by_name@[i].exists,
        scan.by_name@[i].link is Ok,
        suffix.len() == 0 || forall|j: int|
            0 <= j < scan.by_name@.len() && #[trigger] scan.by_name@[j].path@ == join(
                by_name_dir(),
                name + suffix,
            ) ==> !(scan.by_name@[j].exists && scan.by_name@[j].link is Ok),
    ensures
        locate(scan, name, suffix) == Located::At(
            resolved_text(
                scan.by_name@[i].path@,
                scan.by_name@[i].link->Ok_0@,
                opt_text(scan.by_name@[i].canonical),
            ),
        ),
{
    lemma_find_probe_at(scan.by_name@, join(by_name_dir(), name), 0, i);
    if suffix.len() > 0 {
        let sp = join(by_name_dir(), name + suffix);
        if find_probe(scan.by_name@, sp, 0) is Some {
            lemma_find_probe_found(scan.by_name@, sp, 0);
        }
    }
}

proof fn lemma_first_entry_found(
    entries: Seq<DirEntryProbe>,
    dir: Seq<char>,
    name: Seq<char>,
    suffix: Seq<char>,
    from: int,
)
    requires
        0 <= from,
        first_entry(entries, dir, name, suffix, from) is Some,
    ensures
        exists|j: int|
            from <= j < entries.len() && contains(#[trigger] entries[j].name@, name) && first_entry(
                entries,
                dir,
                name,
                suffix,
                from,
            ) == Some(entry_result(dir, entries[j])),
    decreases entries.len() - from,
{
    if from < entries.len() {
        lemma_entry_match_is_containment(entries[from].name@, name, suffix);
        if !entry_matches(entries[from].name@, name, suffix) {
            lemma_first_entry_found(entries, dir, name, suffix, from + 1);
        } else {
            assert(contains(entries[from].name@, name));
        }
    }
}

proof fn lemma_common_from_found(scan: DeviceScan, name: Seq<char>, suffix: Seq<char>, i: int)
    requires
        0 <= i <= 3,
        common_from(scan, name, suffix, i) is Some,
    ensures
        exists|k: int, j: int|
            i <= k < 3 && 0 <= j < listing(scan, k).len() && contains(
                #[trigger] listing(scan, k)[j].name@,
                name,
            ) && common_from(scan, name, suffix, i) == Some(entry_result(common_dir(k), listing(scan, k)[j])),
    decreases 3 - i,
{
    if i < 3 {
        if first_entry(listing(scan, i), common_dir(i), name, suffix, 0) is Some {
            lemma_first_entry_found(listing(scan, i), common_dir(i), name, suffix, 0);
            let j = choose|j: int|
                0 <= j < listing(scan, i).len() && contains(#[trigger] listing(scan, i)[j].name@, name)
                    && first_entry(listing(scan, i), common_dir(i), name, suffix, 0) == Some(
                    entry_result(common_dir(i), listing(scan, i)[j]),
                );
            assert(contains(listing(scan, i)[j].name@, name));
        } else {
            lemma_common_from_found(scan, name, suffix, i + 1);
        }
    }
}

proof fn lemma_common_from_same_listings(
    scan: DeviceScan,
    other: DeviceScan,
    name: Seq<char>,
    suffix: Seq<char>,
    i: int,
)
    requires
        other.common@ == scan.common@,
    ensures
        common_from(other, name, suffix, i) == common_from(scan, name, suffix, i),
    decreases 3 - i,
{
    if 0 <= i < 3 {
        assert(listing(other, i) == listing(scan, i));
        lemma_common_from_same_listings(scan, other, name, suffix, i + 1);
    }
}

/// The three common directories are searched before `/dev/block`: when the
/// by-name links do not settle the search and an entry of a common directory
/// has a name holding the partition name, the result is the device path of
/// such an entry, and it does not change with what `/dev/block` lists.
pub proof fn lemma_common_directories_before_dev_block(
    scan: DeviceScan,
    other: DeviceScan,
    name: Seq<char>,
    suffix: Seq<char>,
    k: int,
    j: int,
)
    requires
        by_name_lookup(scan, name, suffix) is None,
        0 <= k < 3,
        0 <= j < listing(scan, k).len(),
        contains(listing(scan, k)[j].name@, name),
        other.by_name_dir_exists == scan.by_name_dir_exists,
        other.by_name@ == scan.by_name@,
        other.common@ == scan.common@,
    ensures
        exists|k2: int, j2: int|
            0 <= k2 < 3 && 0 <= j2 < listing(scan, k2).len() && contains(
                #[trigger] listing(scan, k2)[j2].name@,
                name,
            ) && locate(scan, name, suffix) == Located::At(
                entry_result(common_dir(k2), listing(scan, k2)[j2]),
            ),
        locate(other, name, suffix) == locate(scan, name, suffix),
{
    lemma_common_from_none(scan, name, suffix, 0);
    assert(common_from(scan, name, suffix, 0) is Some);
    lemma_common_from_found(scan, name, suffix, 0);
    lemma_common_from_same_listings(scan, other, name, suffix, 0);
    assert(by_name_lookup(other, name, suffix) == by_name_lookup(scan, name, suffix));
}

} // verus!
