use perfmode::model::{Error, Operation, Operator};
use perfmode::resolve::{check_file_access, file_exists, identify_file, FileList, FileProbe, FileStatus};

fn absent() -> FileStatus {
    FileStatus {
        exists: false,
        readonly: None,
    }
}

fn read_only() -> FileStatus {
    FileStatus {
        exists: true,
        readonly: Some(true),
    }
}

fn writable() -> FileStatus {
    FileStatus {
        exists: true,
        readonly: Some(false),
    }
}

fn no_metadata() -> FileStatus {
    FileStatus {
        exists: true,
        readonly: None,
    }
}

fn probe_with(fill: FileStatus) -> FileProbe {
    FileProbe {
        led: fill,
        asus_fan: fill,
        fsts_fan: fill,
        asus_thermal: fill,
        fsts_thermal: fill,
    }
}

#[test]
fn paths_are_the_fixed_registry() {
    assert_eq!(
        FileList::LedFile.path(),
        "/sys/class/leds/asus::kbd_backlight/brightness"
    );
    assert_eq!(
        FileList::AsusThermalPolicy.path(),
        "/sys/devices/platform/asus-nb-wmi/throttle_thermal_policy"
    );
    assert_eq!(
        FileList::AsusFanPolicy.path(),
        "/sys/devices/platform/asus-nb-wmi/fan_boost_mode"
    );
    assert_eq!(
        FileList::FstsThermalPolicy.path(),
        "/sys/devices/platform/faustus/throttle_thermal_policy"
    );
    assert_eq!(
        FileList::FstsFanPolicy.path(),
        "/sys/devices/platform/faustus/fan_boost_mode"
    );
}

#[test]
fn get_requires_existing_read_only_path() {
    let probe = probe_with(read_only());
    assert!(file_exists(&FileList::LedFile, &Operation::Get, &probe));
    let probe = probe_with(writable());
    assert!(!file_exists(&FileList::LedFile, &Operation::Get, &probe));
    let probe = probe_with(absent());
    assert!(!file_exists(&FileList::LedFile, &Operation::Get, &probe));
}

#[test]
fn write_requires_existing_writable_path() {
    let probe = probe_with(writable());
    assert!(file_exists(&FileList::AsusFanPolicy, &Operation::Turbo, &probe));
    let probe = probe_with(read_only());
    assert!(!file_exists(&FileList::AsusFanPolicy, &Operation::Turbo, &probe));
    let probe = probe_with(absent());
    assert!(!file_exists(&FileList::AsusFanPolicy, &Operation::Turbo, &probe));
}

#[test]
fn missing_metadata_fails_open_for_get_and_closed_for_write() {
    let probe = probe_with(no_metadata());
    assert!(file_exists(&FileList::LedFile, &Operation::Get, &probe));
    assert!(!file_exists(&FileList::LedFile, &Operation::Max, &probe));
}

#[test]
fn led_resolves_to_its_single_file_or_no_permission() {
    let probe = probe_with(writable());
    assert_eq!(
        identify_file(&Operator::Led, &Operation::Max, &probe),
        Ok(FileList::LedFile)
    );
    assert_eq!(
        check_file_access(FileList::LedFile, &Operation::Max, &probe),
        Ok(FileList::LedFile)
    );
    let probe = probe_with(read_only());
    assert_eq!(
        identify_file(&Operator::Led, &Operation::Max, &probe),
        Err(Error::NoPermission)
    );
    assert_eq!(
        check_file_access(FileList::LedFile, &Operation::Max, &probe),
        Err(Error::NoPermission)
    );
}

#[test]
fn fan_prefers_primary_vendor_path() {
    let mut probe = probe_with(writable());
    assert_eq!(
        identify_file(&Operator::Fan, &Operation::Turbo, &probe),
        Ok(FileList::AsusFanPolicy)
    );
    probe.asus_fan = absent();
    assert_eq!(
        identify_file(&Operator::Fan, &Operation::Turbo, &probe),
        Ok(FileList::FstsFanPolicy)
    );
}

#[test]
fn thermal_prefers_primary_vendor_path() {
    let mut probe = probe_with(read_only());
    assert_eq!(
        identify_file(&Operator::Thermal, &Operation::Get, &probe),
        Ok(FileList::AsusThermalPolicy)
    );
    probe.asus_thermal = absent();
    assert_eq!(
        identify_file(&Operator::Thermal, &Operation::Get, &probe),
        Ok(FileList::FstsThermalPolicy)
    );
}

#[test]
fn no_accessible_candidate_is_no_permission() {
    let probe = probe_with(absent());
    assert_eq!(
        identify_file(&Operator::Fan, &Operation::Turbo, &probe),
        Err(Error::NoPermission)
    );
    assert_eq!(
        identify_file(&Operator::Thermal, &Operation::Silent, &probe),
        Err(Error::NoPermission)
    );
    let probe = probe_with(read_only());
    assert_eq!(
        identify_file(&Operator::Fan, &Operation::Silent, &probe),
        Err(Error::NoPermission)
    );
    let probe = probe_with(writable());
    assert_eq!(
        identify_file(&Operator::Thermal, &Operation::Get, &probe),
        Err(Error::NoPermission)
    );
}

#[test]
fn help_never_resolves() {
    let probe = probe_with(writable());
    assert_eq!(
        identify_file(&Operator::Help, &Operation::Get, &probe),
        Err(Error::InvalidArgFun)
    );
}
