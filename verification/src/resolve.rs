//! The control-file registry and the resolver that picks one candidate
//! file for an (operator, operation) pair, given probe results gathered by
//! the caller for each fixed path.

use vstd::prelude::*;
use crate::model::{Error, Operation, Operator};

verus! {

/// The fixed set of candidate sysfs control files, one per
/// (subsystem, vendor-driver-variant) pair.
#[derive(Clone, Copy, Debug, PartialEq, Eq, Structural)]
pub enum FileList {
    LedFile,
    AsusThermalPolicy,
    AsusFanPolicy,
    FstsThermalPolicy,
    FstsFanPolicy,
}

impl FileList {
    /// The absolute path of this control file.
    pub open spec fn path_spec(self) -> Seq<char> {
        match self {
            FileList::LedFile => "/sys/class/leds/asus::kbd_backlight/brightness"@,
            FileList::AsusThermalPolicy => {
                "/sys/devices/platform/asus-nb-wmi/throttle_thermal_policy"@
            },
            FileList::AsusFanPolicy => "/sys/devices/platform/asus-nb-wmi/fan_boost_mode"@,
            FileList::FstsThermalPolicy => {
                "/sys/devices/platform/faustus/throttle_thermal_policy"@
            },
            FileList::FstsFanPolicy => "/sys/devices/platform/faustus/fan_boost_mode"@,
        }
    }

    /// The absolute path of this control file.
    pub fn path(&self) -> (r: &str)
        ensures
            r@ == self.path_spec(),
    {
        match self {
            FileList::LedFile => "/sys/class/leds/asus::kbd_backlight/brightness",
            FileList::AsusThermalPolicy => {
                "/sys/devices/platform/asus-nb-wmi/throttle_thermal_policy"
            },
            FileList::AsusFanPolicy => "/sys/devices/platform/asus-nb-wmi/fan_boost_mode",
            FileList::FstsThermalPolicy => "/sys/devices/platform/faustus/throttle_thermal_policy",
            FileList::FstsFanPolicy => "/sys/devices/platform/faustus/fan_boost_mode",
        }
    }
}

/// What a probe of one candidate path reported: whether the path exists,
/// and whether its permission bits mark it read-only (`None` when the
/// metadata could not be read).
#[derive(Clone, Copy, Debug)]
pub struct FileStatus {
    pub exists: bool,
    pub readonly: Option<bool>,
}

/// Probe results for every candidate control file, gathered by the caller
/// before resolution.
#[derive(Clone, Copy, Debug)]
pub struct FileProbe {
    pub led: FileStatus,
    pub asus_fan: FileStatus,
    pub fsts_fan: FileStatus,
    pub asus_thermal: FileStatus,
    pub fsts_thermal: FileStatus,
}

impl FileProbe {
    /// The probe result recorded for `file`.
    pub open spec fn status_of(self, file: FileList) -> FileStatus {
        match file {
            FileList::LedFile => self.led,
            FileList::AsusFanPolicy => self.asus_fan,
            FileList::FstsFanPolicy => self.fsts_fan,
            FileList::AsusThermalPolicy => self.asus_thermal,
            FileList::FstsThermalPolicy => self.fsts_thermal,
        }
    }

    /// The probe result recorded for `file`.
    fn status(&self, file: &FileList) -> (r: FileStatus)
        ensures
            r == self.status_of(*file),
    {
        match file {
            FileList::LedFile => self.led,
            FileList::AsusFanPolicy => self.asus_fan,
            FileList::FstsFanPolicy => self.fsts_fan,
            FileList::AsusThermalPolicy => self.asus_thermal,
            FileList::FstsThermalPolicy => self.fsts_thermal,
        }
    }
}

/// The access-direction check. A Get (read intent) needs an existing path
/// whose permission bits are read-only; any other operation (write intent)
/// needs an existing path that is writable. When the metadata could not be
/// read, the check fails open to "readable" and closed to "not writable".
pub open spec fn access_ok(operation: Operation, status: FileStatus) -> bool {
    if operation is Get {
        status.exists && (match status.readonly {
            Some(ro) => ro,
            None => true,
        })
    } else {
        status.exists && (match status.readonly {
            Some(ro) => !ro,
            None => false,
        })
    }
}

/// Whether `file` passes the access-direction check for `operation`, as
/// recorded in `probe`.
pub fn file_exists(file: &FileList, operation: &Operation, probe: &FileProbe) -> (r: bool)
    ensures
        r == access_ok(*operation, probe.status_of(*file)),
{
    let status = probe.status(file);
    match operation {
        Operation::Get => status.exists && (match status.readonly {
            Some(ro) => ro,
            None => true,
        }),
        _ => status.exists && (match status.readonly {
            Some(ro) => !ro,
            None => false,
        }),
    }
}

/// `Ok(file)` when `file` passes the access-direction check, else
/// `Err(NoPermission)`.
pub fn check_file_access(file: FileList, operation: &Operation, probe: &FileProbe) -> (r: Result<
    FileList,
    Error,
>)
    ensures
        r == (if access_ok(*operation, probe.status_of(file)) {
            Ok::<FileList, Error>(file)
        } else {
            Err::<FileList, Error>(Error::NoPermission)
        }),
{
    if file_exists(&file, operation, probe) {
        Ok(file)
    } else {
        Err(Error::NoPermission)
    }
}

/// The file resolution picks: the backlight's single file, or the first of
/// the two vendor candidates (primary vendor path first) that passes the
/// access-direction check; `NoPermission` when none does, and
/// `InvalidArgFun` for the help pseudo-subsystem, which never resolves.
pub open spec fn identify_spec(operator: Operator, operation: Operation, probe: FileProbe) -> Result<
    FileList,
    Error,
> {
    match operator {
        Operator::Led => if access_ok(operation, probe.led) {
            Ok(FileList::LedFile)
        } else {
            Err(Error::NoPermission)
        },
        Operator::Fan => if access_ok(operation, probe.asus_fan) {
            Ok(FileList::AsusFanPolicy)
        } else if access_ok(operation, probe.fsts_fan) {
            Ok(FileList::FstsFanPolicy)
        } else {
            Err(Error::NoPermission)
        },
        Operator::Thermal => if access_ok(operation, probe.asus_thermal) {
            Ok(FileList::AsusThermalPolicy)
        } else if access_ok(operation, probe.fsts_thermal) {
            Ok(FileList::FstsThermalPolicy)
        } else {
            Err(Error::NoPermission)
        },
        Operator::Help => Err(Error::InvalidArgFun),
    }
}

/// Resolve the one control file to act on for `operator` and `operation`,
/// given the probe results in `probe`.
pub fn identify_file(operator: &Operator, operation: &Operation, probe: &FileProbe) -> (r: Result<
    FileList,
    Error,
>)
    ensures
        r == identify_spec(*operator, *operation, *probe),
{
    match operator {
        Operator::Led => check_file_access(FileList::LedFile, operation, probe),
        Operator::Fan => {
            if file_exists(&FileList::AsusFanPolicy, operation, probe) {
                Ok(FileList::AsusFanPolicy)
            } else if file_exists(&FileList::FstsFanPolicy, operation, probe) {
                Ok(FileList::FstsFanPolicy)
            } else {
                Err(Error::NoPermission)
            }
        },
        Operator::Thermal => {
            if file_exists(&FileList::AsusThermalPolicy, operation, probe) {
                Ok(FileList::AsusThermalPolicy)
            } else if file_exists(&FileList::FstsThermalPolicy, operation, probe) {
                Ok(FileList::FstsThermalPolicy)
            } else {
                Err(Error::NoPermission)
            }
        },
        Operator::Help => Err(Error::InvalidArgFun),
    }
}

/// Law: when no candidate file of a fan or thermal request passes the
/// access-direction check, resolution reports `NoPermission` rather than
/// silently picking a file.
pub proof fn lemma_no_candidate_no_permission(
    operator: Operator,
    operation: Operation,
    probe: FileProbe,
)
    requires
        operator is Fan || operator is Thermal,
        operator is Fan ==> !access_ok(operation, probe.asus_fan) && !access_ok(
            operation,
            probe.fsts_fan,
        ),
        operator is Thermal ==> !access_ok(operation, probe.asus_thermal) && !access_ok(
            operation,
            probe.fsts_thermal,
        ),
    ensures
        identify_spec(operator, operation, probe) == Err::<FileList, Error>(Error::NoPermission),
{
}

} // verus!
