//! The device classifier and the safety barrier.
//!
//! The classifier turns what the operating system says of each block device
//! into the list of devices that may be offered as targets. The device that
//! holds the root filesystem is never among them. The barrier looks at one
//! chosen target directly before it is written.

use crate::decimal::{parse_decimal, parse_unsigned};
use crate::models::{BlockDevice, BlockDeviceView, DeviceConnectionType};
use crate::paths::{file_name, path_file_name};
use crate::text::{
    begins, chars_of, contains, holds, is_text, occurs_at, push_text, starts_with, string_of,
    text_find, text_find_from, text_starts_with,
};
use crate::words::{
    count_trailing, lines, next_line, next_word, text_trim, trailing, trim, words, CharClass,
};
use vstd::prelude::*;
use vstd::slice::{slice_subrange, slice_to_vec};

verus! {

/// Whether `pat` occurs in `s` at two places or more.
pub open spec fn occurs_twice(s: Seq<char>, pat: Seq<char>) -> bool {
    exists|i: int, j: int| i < j && occurs_at(s, pat, i) && occurs_at(s, pat, j)
}

/// The connection type of a device. `topology` is where the device sits in
/// the device tree, as the target of its link under `/sys/block`, and
/// `removable` is what its `removable` attribute holds; either is `None`
/// where it could not be read.
///
/// A USB segment in the topology makes the device `Usb`, two or more make
/// it `UsbHub`; an ATA, NVMe or virtio segment makes it `Internal`. Where
/// the topology tells nothing, a removable flag of `1` makes it `Usb`.
pub open spec fn connection_of(
    topology: Option<Seq<char>>,
    removable: Option<Seq<char>>,
) -> DeviceConnectionType {
    if has_segment(topology, "/usb"@) {
        if topology matches Some(t) && occurs_twice(t, "/usb"@) {
            DeviceConnectionType::UsbHub
        } else {
            DeviceConnectionType::Usb
        }
    } else if has_segment(topology, "/ata"@) || has_segment(topology, "/nvme"@) || has_segment(
        topology,
        "/virtio"@,
    ) {
        DeviceConnectionType::Internal
    } else if removable matches Some(r) && trim(r) == "1"@ {
        DeviceConnectionType::Usb
    } else {
        DeviceConnectionType::Unknown
    }
}

/// Whether the topology is known and holds `segment`.
pub open spec fn has_segment(topology: Option<Seq<char>>, segment: Seq<char>) -> bool {
    topology matches Some(t) && contains(t, segment)
}

/// The view of an optional text.
pub open spec fn text_of(o: Option<&str>) -> Option<Seq<char>> {
    match o {
        Some(s) => Some(s@),
        None => None,
    }
}

/// Tells how a device is connected from its place in the device topology
/// and its removable flag.
pub fn detect_connection_type(topology: Option<&str>, removable: Option<&str>) -> (r:
    DeviceConnectionType)
    ensures
        r == connection_of(text_of(topology), text_of(removable)),
{
    if let Some(link) = topology {
        let t = chars_of(link);
        let usb = chars_of("/usb");
        match text_find(t.as_slice(), usb.as_slice()) {
            Some(first) => {
                let len = t.len();
                proof {
                    reveal_strlit("/usb");
                    assert(usb@.len() == 4);
                    assert(occurs_at(t@, usb@, first as int));
                    assert(first + 4 <= len);
                }
                let second = text_find_from(t.as_slice(), usb.as_slice(), first + 1);
                proof {
                    if occurs_twice(t@, usb@) {
                        let (i, j) = choose|i: int, j: int|
                            i < j && occurs_at(t@, usb@, i) && occurs_at(t@, usb@, j);
                        assert(first <= i);
                        assert(first + 1 <= j);
                    }
                    if let Some(k) = second {
                        assert(occurs_at(t@, usb@, first as int) && occurs_at(t@, usb@, k as int));
                    }
                }
                if second.is_some() {
                    return DeviceConnectionType::UsbHub;
                }
                return DeviceConnectionType::Usb;
            },
            None => {},
        }
        if holds(t.as_slice(), "/ata") || holds(t.as_slice(), "/nvme") || holds(
            t.as_slice(),
            "/virtio",
        ) {
            return DeviceConnectionType::Internal;
        }
    }
    if let Some(flag) = removable {
        let f = chars_of(flag);
        if is_text(text_trim(f.as_slice()), "1") {
            return DeviceConnectionType::Usb;
        }
    }
    DeviceConnectionType::Unknown
}

/// The name of the whole device that a device or partition name belongs to.
/// A name that holds `nvme` loses a partition suffix `p` and digits; any
/// other name loses the digits at its end.
pub open spec fn base_device_name(name: Seq<char>) -> Seq<char> {
    let digits = trailing(name, CharClass::Digit);
    let stem = name.take(name.len() - digits);
    if contains(name, "nvme"@) {
        if digits > 0 && stem.len() > 0 && stem.last() == 'p' {
            stem.drop_last()
        } else {
            name
        }
    } else {
        stem
    }
}

/// Strips the partition number from a device name.
pub fn base_name(name: &[char]) -> (base: &[char])
    ensures
        base@ == base_device_name(name@),
{
    let digits = count_trailing(name, name.len(), CharClass::Digit);
    assert(name@.take(name.len() as int) == name@);
    let stem_len = name.len() - digits;
    if holds(name, "nvme") {
        if digits > 0 && stem_len > 0 && name[stem_len - 1] == 'p' {
            let base = slice_subrange(name, 0, stem_len - 1);
            assert(base@ == name@.take(stem_len as int).drop_last());
            base
        } else {
            name
        }
    } else {
        slice_subrange(name, 0, stem_len)
    }
}

/// The device field of a mount-table line, if the line mounts something on
/// `/`.
pub open spec fn root_mount(line: Seq<char>) -> Option<Seq<char>> {
    let w = words(line);
    if w.len() >= 2 && w[1] == "/"@ {
        Some(w[0])
    } else {
        None
    }
}

/// The base name of the device behind the first of `table` that mounts
/// something on `/`.
pub open spec fn root_device_in(table: Seq<Seq<char>>) -> Option<Seq<char>>
    decreases table.len(),
{
    if table.len() == 0 {
        None
    } else {
        match root_mount(table[0]) {
            Some(device) => match file_name(device) {
                Some(name) => Some(base_device_name(name)),
                None => None,
            },
            None => root_device_in(table.skip(1)),
        }
    }
}

/// The base name of the device that holds the root filesystem, by the mount
/// table `mounts`.
pub open spec fn root_device(mounts: Seq<char>) -> Option<Seq<char>> {
    root_device_in(lines(mounts))
}

/// Finds the device that holds the root filesystem in the mount table.
pub fn get_root_device(mounts: &str) -> (r: Option<String>)
    ensures
        match r {
            Some(name) => root_device(mounts@) == Some(name@),
            None => root_device(mounts@) is None,
        },
{
    let table = chars_of(mounts);
    let s = table.as_slice();
    let mut pos: usize = 0;
    assert(s@.skip(0) == s@);
    loop
        invariant
            pos <= s.len(),
            s@ == mounts@,
            root_device(mounts@) == root_device_in(lines(s@.skip(pos as int))),
        decreases s.len() - pos,
    {
        match next_line(s, pos) {
            None => {
                return None;
            },
            Some((line, next)) => {
                let ghost rest = lines(s@.skip(next as int));
                assert((seq![line@] + rest).skip(1) == rest);
                assert((seq![line@] + rest)[0] == line@);
                assert(line@.skip(0) == line@);
                if let Some((a0, b0)) = next_word(line, 0) {
                    if let Some((a1, b1)) = next_word(line, b0) {
                        let ghost w = words(line@);
                        assert(w[0] == line@.subrange(a0 as int, b0 as int));
                        assert(w[1] == line@.subrange(a1 as int, b1 as int));
                        if is_text(slice_subrange(line, a1, b1), "/") {
                            let device = slice_subrange(line, a0, b0);
                            return match path_file_name(device) {
                                Some(name) => Some(string_of(base_name(name))),
                                None => None,
                            };
                        }
                    }
                }
                pos = next;
            },
        }
    }
}

/// What the operating system says of one block device: its name, and the
/// text of each attribute, `None` where the attribute could not be read.
#[derive(Debug, Clone, PartialEq, Eq)]
pub struct DeviceProbe {
    /// Name of the device under `/sys/block`.
    pub name: String,
    /// Target of the device's link under `/sys/block`.
    pub topology: Option<String>,
    /// The attribute `removable`.
    pub removable: Option<String>,
    /// The attribute `device/model`.
    pub model: Option<String>,
    /// The attribute `device/vendor`.
    pub vendor: Option<String>,
    /// The attribute `size`, in sectors of 512 bytes.
    pub size: Option<String>,
}

/// The mathematical value of a `DeviceProbe`.
pub struct ProbeView {
    pub name: Seq<char>,
    pub topology: Option<Seq<char>>,
    pub removable: Option<Seq<char>>,
    pub model: Option<Seq<char>>,
    pub vendor: Option<Seq<char>>,
    pub size: Option<Seq<char>>,
}

/// The view of an optional owned text.
pub open spec fn owned_text_of(o: Option<String>) -> Option<Seq<char>> {
    match o {
        Some(s) => Some(s@),
        None => None,
    }
}

impl View for DeviceProbe {
    type V = ProbeView;

    open spec fn view(&self) -> ProbeView {
        ProbeView {
            name: self.name@,
            topology: owned_text_of(self.topology),
            removable: owned_text_of(self.removable),
            model: owned_text_of(self.model),
            vendor: owned_text_of(self.vendor),
            size: owned_text_of(self.size),
        }
    }
}

/// Whether a device name is that of a loop device, a RAM disk, a
/// device-mapper volume or an optical drive.
pub open spec fn is_virtual_name(name: Seq<char>) -> bool {
    starts_with(name, "loop"@) || starts_with(name, "ram"@) || starts_with(name, "dm-"@)
        || starts_with(name, "sr"@)
}

/// Whether the removable attribute says `1`.
pub open spec fn removable_flag(removable: Option<Seq<char>>) -> bool {
    removable matches Some(r) && parse_unsigned(trim(r), 255) == Some(1int)
}

/// The capacity in bytes that a size attribute stands for: its number of
/// sectors times 512, held within `u64`; zero where it is no number.
pub open spec fn capacity_of(size: Option<Seq<char>>) -> u64 {
    let sectors: int = match size {
        Some(s) => match parse_unsigned(trim(s), u64::MAX as int) {
            Some(n) => n,
            None => 0,
        },
        None => 0,
    };
    if sectors * 512 > u64::MAX {
        u64::MAX
    } else {
        (sectors * 512) as u64
    }
}

/// A model or vendor string: the attribute trimmed, or `Unknown`.
pub open spec fn label_of(attribute: Option<Seq<char>>) -> Seq<char> {
    match attribute {
        Some(a) => trim(a),
        None => "Unknown"@,
    }
}

/// Whether the device `name` is the device of the root filesystem: it has
/// the root device's name, or that is the name of the whole device it
/// belongs to.
pub open spec fn is_root_device(name: Seq<char>, root: Option<Seq<char>>) -> bool {
    root matches Some(r) && (name == r || base_device_name(name) == r)
}

/// The target that a probed device makes, or `None` where it must not be
/// offered. In this order: the device of the root filesystem is left out;
/// so are virtual devices; so is a device that is not flagged removable
/// and is connected internally or in no known way; so is one without
/// capacity.
pub open spec fn admitted(p: ProbeView, root: Option<Seq<char>>) -> Option<BlockDeviceView> {
    let removable = removable_flag(p.removable);
    let connection = connection_of(p.topology, p.removable);
    if is_root_device(p.name, root) {
        None
    } else if is_virtual_name(p.name) {
        None
    } else if !removable && (connection == DeviceConnectionType::Internal || connection
        == DeviceConnectionType::Unknown) {
        None
    } else if capacity_of(p.size) == 0 {
        None
    } else {
        Some(
            BlockDeviceView {
                path: "/dev/"@ + p.name,
                model: label_of(p.model),
                vendor: label_of(p.vendor),
                capacity_bytes: capacity_of(p.size),
                is_removable: removable,
                connection_type: connection,
            },
        )
    }
}

/// The targets that `probes` make, in their order.
pub open spec fn selected(probes: Seq<ProbeView>, root: Option<Seq<char>>) -> Seq<BlockDeviceView>
    decreases probes.len(),
{
    if probes.len() == 0 {
        Seq::empty()
    } else {
        let before = selected(probes.drop_last(), root);
        match admitted(probes.last(), root) {
            Some(device) => before.push(device),
            None => before,
        }
    }
}

/// The views of a run of values.
pub open spec fn views<T: View>(s: Seq<T>) -> Seq<T::V> {
    Seq::new(s.len(), |i: int| s[i]@)
}

/// The root device by a mount table that may be missing.
pub open spec fn root_device_by(mounts: Option<Seq<char>>) -> Option<Seq<char>> {
    match mounts {
        Some(m) => root_device(m),
        None => None,
    }
}

/// An optional owned text as an optional borrowed one.
fn borrowed(o: &Option<String>) -> (r: Option<&str>)
    ensures
        text_of(r) == owned_text_of(*o),
{
    match o {
        Some(s) => Some(s.as_str()),
        None => None,
    }
}

/// Reads the removable attribute.
fn read_removable_flag(removable: Option<&str>) -> (r: bool)
    ensures
        r == removable_flag(text_of(removable)),
{
    match removable {
        Some(text) => {
            let chars = chars_of(text);
            match parse_decimal(text_trim(chars.as_slice()), 255) {
                Some(n) => n == 1,
                None => false,
            }
        },
        None => false,
    }
}

/// Reads the size attribute.
fn read_capacity(size: Option<&str>) -> (r: u64)
    ensures
        r == capacity_of(text_of(size)),
{
    let sectors: u64 = match size {
        Some(text) => {
            let chars = chars_of(text);
            match parse_decimal(text_trim(chars.as_slice()), u64::MAX) {
                Some(n) => n,
                None => 0,
            }
        },
        None => 0,
    };
    if sectors > u64::MAX / 512 {
        u64::MAX
    } else {
        sectors * 512
    }
}

/// Reads a model or vendor attribute.
fn read_label(attribute: Option<&str>) -> (r: String)
    ensures
        r@ == label_of(text_of(attribute)),
{
    match attribute {
        Some(text) => {
            let chars = chars_of(text);
            string_of(text_trim(chars.as_slice()))
        },
        None => string_of(chars_of("Unknown").as_slice()),
    }
}

/// Decides whether a probed device may be offered as a target, and makes
/// the target. `root` is the base name of the device that holds the root
/// filesystem, where it is known.
pub fn select_device(probe: &DeviceProbe, root: Option<&str>) -> (r: Option<BlockDevice>)
    ensures
        match r {
            Some(device) => admitted(probe@, text_of(root)) == Some(device@),
            None => admitted(probe@, text_of(root)) is None,
        },
{
    let name = chars_of(probe.name.as_str());
    if let Some(root_name) = root {
        if is_text(name.as_slice(), root_name) || is_text(base_name(name.as_slice()), root_name) {
            return None;
        }
    }
    if begins(name.as_slice(), "loop") || begins(name.as_slice(), "ram") || begins(
        name.as_slice(),
        "dm-",
    ) || begins(name.as_slice(), "sr") {
        return None;
    }
    let is_removable = read_removable_flag(borrowed(&probe.removable));
    let connection_type = detect_connection_type(
        borrowed(&probe.topology),
        borrowed(&probe.removable),
    );
    if !is_removable && (connection_type == DeviceConnectionType::Internal || connection_type
        == DeviceConnectionType::Unknown) {
        return None;
    }
    let capacity_bytes = read_capacity(borrowed(&probe.size));
    if capacity_bytes == 0 {
        return None;
    }
    let mut path = chars_of("/dev/");
    let mut rest = name;
    path.append(&mut rest);
    Some(
        BlockDevice {
            path: string_of(path.as_slice()),
            model: read_label(borrowed(&probe.model)),
            vendor: read_label(borrowed(&probe.vendor)),
            capacity_bytes,
            is_removable,
            connection_type,
        },
    )
}

/// Lists the devices that may be offered as targets. `probes` are the block
/// devices that the operating system knows, `mounts` is the mount table,
/// `None` where it could not be read.
pub fn list_removable_devices(probes: &[DeviceProbe], mounts: Option<&str>) -> (devices: Vec<
    BlockDevice,
>)
    ensures
        views(devices@) == selected(views(probes@), root_device_by(text_of(mounts))),
{
    let root: Option<String> = match mounts {
        Some(table) => get_root_device(table),
        None => None,
    };
    let root_name = borrowed(&root);
    let ghost root_view = root_device_by(text_of(mounts));
    assert(text_of(root_name) == root_view);
    let mut devices: Vec<BlockDevice> = Vec::new();
    let mut i: usize = 0;
    assert(views(probes@).take(0) == Seq::<ProbeView>::empty());
    assert(views(devices@) == Seq::<BlockDeviceView>::empty());
    while i < probes.len()
        invariant
            i <= probes.len(),
            text_of(root_name) == root_view,
            views(devices@) == selected(views(probes@).take(i as int), root_view),
        decreases probes.len() - i,
    {
        let ghost before = views(devices@);
        let ghost head = views(probes@).take(i + 1);
        assert(head.drop_last() == views(probes@).take(i as int));
        assert(head.last() == probes@[i as int]@);
        match select_device(&probes[i], root_name) {
            Some(device) => {
                let ghost v = device@;
                devices.push(device);
                assert(views(devices@) == before.push(v));
            },
            None => {},
        }
        i += 1;
    }
    assert(views(probes@).take(probes.len() as int) == views(probes@));
    devices
}

/// Every listed device comes from a probe that is admitted as that device.
pub proof fn lemma_selected_are_admitted(probes: Seq<ProbeView>, root: Option<Seq<char>>)
    ensures
        forall|i: int|
            0 <= i < selected(probes, root).len() ==> exists|j: int|
                0 <= j < probes.len() && admitted(probes[j], root) == Some(
                    #[trigger] selected(probes, root)[i],
                ),
    decreases probes.len(),
{
    if probes.len() > 0 {
        let init = probes.drop_last();
        lemma_selected_are_admitted(init, root);
        let before = selected(init, root);
        assert forall|i: int| 0 <= i < selected(probes, root).len() implies exists|j: int|
            0 <= j < probes.len() && admitted(probes[j], root) == Some(
                #[trigger] selected(probes, root)[i],
            ) by {
            if i < before.len() {
                let j = choose|j: int|
                    0 <= j < init.len() && admitted(init[j], root) == Some(before[i]);
                assert(probes[j] == init[j]);
            } else {
                assert(admitted(probes[probes.len() - 1], root) == Some(selected(probes, root)[i]));
            }
        }
    }
}

/// Every probe that is admitted is listed as the device it makes.
pub proof fn lemma_admitted_are_selected(probes: Seq<ProbeView>, root: Option<Seq<char>>, j: int)
    requires
        0 <= j < probes.len(),
        admitted(probes[j], root) is Some,
    ensures
        selected(probes, root).contains(admitted(probes[j], root)->0),
    decreases probes.len(),
{
    let init = probes.drop_last();
    let before = selected(init, root);
    let device = admitted(probes[j], root)->0;
    if j == probes.len() - 1 {
        assert(selected(probes, root) == before.push(device));
        assert(selected(probes, root)[before.len() as int] == device);
    } else {
        assert(init[j] == probes[j]);
        lemma_admitted_are_selected(init, root, j);
        let i = choose|i: int| 0 <= i < before.len() && before[i] == device;
        assert(selected(probes, root)[i] == device);
    }
}

/// The device of the root filesystem is never listed, whatever its
/// removable flag and its connection.
pub proof fn lemma_root_device_excluded(probes: Seq<ProbeView>, root: Seq<char>)
    ensures
        forall|i: int|
            0 <= i < selected(probes, Some(root)).len() ==> (#[trigger] selected(
                probes,
                Some(root),
            )[i]).path != "/dev/"@ + root,
        forall|j: int|
            0 <= j < probes.len() && (#[trigger] probes[j]).name == root ==> admitted(
                probes[j],
                Some(root),
            ) is None,
{
    lemma_selected_are_admitted(probes, Some(root));
    assert forall|i: int| 0 <= i < selected(probes, Some(root)).len() implies (#[trigger] selected(
        probes,
        Some(root),
    )[i]).path != "/dev/"@ + root by {
        let device = selected(probes, Some(root))[i];
        let j = choose|j: int|
            0 <= j < probes.len() && admitted(probes[j], Some(root)) == Some(device);
        let name = probes[j].name;
        assert(name != root);
        if device.path == "/dev/"@ + root {
            assert(name == ("/dev/"@ + name).skip("/dev/"@.len() as int));
            assert(root == ("/dev/"@ + root).skip("/dev/"@.len() as int));
        }
    }
}

/// A listed device is flagged removable or sits on USB: one that is
/// connected internally, or in no known way, and is not flagged removable
/// is never listed.
pub proof fn lemma_internal_excluded(probes: Seq<ProbeView>, root: Option<Seq<char>>)
    ensures
        forall|i: int|
            0 <= i < selected(probes, root).len() ==> {
                let device = #[trigger] selected(probes, root)[i];
                device.is_removable || device.connection_type == DeviceConnectionType::Usb
                    || device.connection_type == DeviceConnectionType::UsbHub
            },
{
    lemma_selected_are_admitted(probes, root);
    assert forall|i: int| 0 <= i < selected(probes, root).len() implies {
        let device = #[trigger] selected(probes, root)[i];
        device.is_removable || device.connection_type == DeviceConnectionType::Usb
            || device.connection_type == DeviceConnectionType::UsbHub
    } by {
        let device = selected(probes, root)[i];
        assert(exists|j: int| 0 <= j < probes.len() && admitted(probes[j], root) == Some(device));
    }
}

/// A device that is flagged removable is listed whatever its connection,
/// unless it is the device of the root filesystem, is virtual or has no
/// capacity.
pub proof fn lemma_removable_included(probes: Seq<ProbeView>, root: Option<Seq<char>>, j: int)
    requires
        0 <= j < probes.len(),
        removable_flag(probes[j].removable),
        !is_root_device(probes[j].name, root),
        !is_virtual_name(probes[j].name),
        capacity_of(probes[j].size) != 0,
    ensures
        admitted(probes[j], root) is Some,
        selected(probes, root).contains(admitted(probes[j], root)->0),
        (admitted(probes[j], root)->0).is_removable,
        (admitted(probes[j], root)->0).path == "/dev/"@ + probes[j].name,
{
    lemma_admitted_are_selected(probes, root, j);
}

/// What a target path names, as the operating system tells.
#[derive(Debug, Clone, Copy, PartialEq, Eq, Structural)]
pub enum NodeKind {
    /// Nothing: the path cannot be resolved.
    Missing,
    /// A regular file.
    RegularFile,
    /// A block-special device file.
    BlockDevice,
    /// Anything else: a directory, another kind of node.
    Other,
}

/// Why a target must not be written.
#[derive(Debug, Clone, Copy, PartialEq, Eq, Structural)]
pub enum DeviceError {
    /// The path names nothing.
    NotFound,
    /// The path names something that is no block device.
    NotBlockDevice,
    /// The mount table could not be read.
    MountTableUnreadable,
    /// The path has no final component.
    InvalidPath,
    /// The device or one of its partitions is mounted.
    Mounted,
    /// The device holds the root filesystem.
    RootDevice,
}

/// The text that reports why the target at `path` must not be written.
pub open spec fn device_error_text(e: DeviceError, path: Seq<char>) -> Seq<char> {
    match e {
        DeviceError::NotFound => "Device "@ + path + " does not exist"@,
        DeviceError::NotBlockDevice => path + " is not a block device"@,
        DeviceError::MountTableUnreadable => "Failed to read /proc/mounts"@,
        DeviceError::InvalidPath => "Invalid device path"@,
        DeviceError::Mounted => "Device or one of its partitions is currently mounted. Unmount it first."@,
        DeviceError::RootDevice => "Device holds the root filesystem of this system."@,
    }
}

impl DeviceError {
    /// The text that reports the error for the target at `path`.
    pub fn message(&self, path: &str) -> (text: String)
        ensures
            text@ == device_error_text(*self, path@),
    {
        let mut out: Vec<char> = Vec::new();
        match self {
            DeviceError::NotFound => {
                push_text(&mut out, "Device ");
                push_text(&mut out, path);
                push_text(&mut out, " does not exist");
            },
            DeviceError::NotBlockDevice => {
                push_text(&mut out, path);
                push_text(&mut out, " is not a block device");
            },
            DeviceError::MountTableUnreadable => {
                push_text(&mut out, "Failed to read /proc/mounts");
            },
            DeviceError::InvalidPath => {
                push_text(&mut out, "Invalid device path");
            },
            DeviceError::Mounted => {
                push_text(
                    &mut out,
                    "Device or one of its partitions is currently mounted. Unmount it first.",
                );
            },
            DeviceError::RootDevice => {
                push_text(&mut out, "Device holds the root filesystem of this system.");
            },
        }
        string_of(out.as_slice())
    }
}

/// Whether a line of `table` begins with `prefix`.
pub open spec fn some_line_starts_with(table: Seq<Seq<char>>, prefix: Seq<char>) -> bool {
    exists|i: int| 0 <= i < table.len() && starts_with(#[trigger] table[i], prefix)
}

/// Whether the mount table `mounts` has an entry for the device `name` or
/// for one of its partitions: a line that begins with `/dev/` and the name.
pub open spec fn is_mounted(name: Seq<char>, mounts: Seq<char>) -> bool {
    some_line_starts_with(lines(mounts), "/dev/"@ + name)
}

/// What the safety barrier says of a target. The checks come in this order, and the
/// first that fails decides: the path names something; that is a block
/// device; the mount table is at hand; the path ends in a device name; no
/// mount entry begins with the device; the device does not hold the root
/// filesystem.
pub open spec fn target_verdict(path: Seq<char>, node: NodeKind, mounts: Option<Seq<char>>) -> Result<
    (),
    DeviceError,
> {
    if node == NodeKind::Missing {
        Err(DeviceError::NotFound)
    } else if node != NodeKind::BlockDevice {
        Err(DeviceError::NotBlockDevice)
    } else {
        match mounts {
            None => Err(DeviceError::MountTableUnreadable),
            Some(table) => match file_name(path) {
                None => Err(DeviceError::InvalidPath),
                Some(name) => if is_mounted(name, table) {
                    Err(DeviceError::Mounted)
                } else if is_root_device(name, root_device(table)) {
                    Err(DeviceError::RootDevice)
                } else {
                    Ok(())
                },
            },
        }
    }
}

/// Tests whether a line of the mount table begins with `prefix`.
fn mount_entry_exists(table: &[char], prefix: &[char]) -> (r: bool)
    ensures
        r == some_line_starts_with(lines(table@), prefix@),
{
    let mut pos: usize = 0;
    assert(table@.skip(0) == table@);
    loop
        invariant
            pos <= table.len(),
            some_line_starts_with(lines(table@), prefix@) == some_line_starts_with(
                lines(table@.skip(pos as int)),
                prefix@,
            ),
        decreases table.len() - pos,
    {
        match next_line(table, pos) {
            None => {
                return false;
            },
            Some((line, next)) => {
                let ghost here = lines(table@.skip(pos as int));
                let ghost rest = lines(table@.skip(next as int));
                assert(here == seq![line@] + rest);
                if text_starts_with(line, prefix) {
                    assert(starts_with(here[0], prefix@));
                    return true;
                }
                proof {
                    if some_line_starts_with(here, prefix@) {
                        let i = choose|i: int|
                            0 <= i < here.len() && starts_with(#[trigger] here[i], prefix@);
                        assert(here[i] == rest[i - 1]);
                    }
                    if some_line_starts_with(rest, prefix@) {
                        let i = choose|i: int|
                            0 <= i < rest.len() && starts_with(#[trigger] rest[i], prefix@);
                        assert(here[i + 1] == rest[i]);
                    }
                }
                pos = next;
            },
        }
    }
}

/// Confirms that a chosen target may be written, directly before the
/// write. `node` is what the path names and `mounts` is the live mount
/// table, `None` where it could not be read. Write permission is no part
/// of the barrier.
pub fn validate_device(path: &str, node: NodeKind, mounts: Option<&str>) -> (r: Result<
    (),
    DeviceError,
>)
    ensures
        r == target_verdict(path@, node, text_of(mounts)),
{
    if node == NodeKind::Missing {
        return Err(DeviceError::NotFound);
    }
    if node != NodeKind::BlockDevice {
        return Err(DeviceError::NotBlockDevice);
    }
    let table_text = match mounts {
        None => {
            return Err(DeviceError::MountTableUnreadable);
        },
        Some(text) => text,
    };
    let table = chars_of(table_text);
    let path_chars = chars_of(path);
    let name = match path_file_name(path_chars.as_slice()) {
        None => {
            return Err(DeviceError::InvalidPath);
        },
        Some(name) => name,
    };
    let mut prefix = chars_of("/dev/");
    let mut rest = slice_to_vec(name);
    prefix.append(&mut rest);
    if mount_entry_exists(table.as_slice(), prefix.as_slice()) {
        return Err(DeviceError::Mounted);
    }
    let root = get_root_device(table_text);
    if let Some(root_name) = borrowed(&root) {
        if is_text(name, root_name) || is_text(base_name(name), root_name) {
            return Err(DeviceError::RootDevice);
        }
    }
    Ok(())
}

/// A target that passes is a block device that is not mounted, has no
/// mounted partition and does not hold the root filesystem, by the mount
/// table at hand.
pub proof fn lemma_validated_target(path: Seq<char>, node: NodeKind, mounts: Option<Seq<char>>)
    requires
        target_verdict(path, node, mounts) is Ok,
    ensures
        node == NodeKind::BlockDevice,
        mounts is Some,
        file_name(path) is Some,
        !is_mounted(file_name(path)->0, mounts->0),
        !is_root_device(file_name(path)->0, root_device(mounts->0)),
{
}

} // verus!
