use kplock::keyfile::{KeyfileWipe, KeyfileWrite, TempKeyfile, WipeStep, WriteProgress, WriteStep};

fn run_write_wipe(outcomes: &[bool]) -> bool {
    let mut w = KeyfileWrite::begin();
    let mut i = 0;
    while w.next_step().is_some() {
        w.record(outcomes[i]);
        i += 1;
    }
    w.needs_wipe()
}

fn run_write(outcomes: &[bool]) -> (Vec<WriteStep>, WriteProgress) {
    let mut w = KeyfileWrite::begin();
    let mut steps = Vec::new();
    let mut i = 0;
    while let Some(step) = w.next_step() {
        steps.push(step);
        w.record(outcomes[i]);
        i += 1;
    }
    (steps, w.progress())
}

fn run_wipe(outcomes: &[bool]) -> Vec<WipeStep> {
    let mut w = KeyfileWipe::begin();
    let mut steps = Vec::new();
    let mut i = 0;
    while let Some(step) = w.next_step() {
        steps.push(step);
        w.record(outcomes[i]);
        i += 1;
    }
    steps
}

#[test]
fn temp_keyfile_records_path_and_size() {
    let k = TempKeyfile::new("/tmp/keyfile.key", b"abcdef");
    assert_eq!(k.path(), "/tmp/keyfile.key");
    assert_eq!(k.size(), 6);
    assert_eq!(k.overwrite_zeros(None), vec![0u8; 6]);
    assert_eq!(k.overwrite_zeros(Some(4)), vec![0u8; 6]);
    assert_eq!(k.overwrite_zeros(Some(9)), vec![0u8; 9]);
    assert_eq!(TempKeyfile::new("/tmp/e", b"").overwrite_zeros(None), Vec::<u8>::new());
}

#[test]
fn write_performs_all_steps_in_order() {
    let (steps, progress) = run_write(&[true; 6]);
    assert_eq!(
        steps,
        vec![
            WriteStep::CreateParentDirs,
            WriteStep::CreateFile,
            WriteStep::RestrictPermissions,
            WriteStep::WriteData,
            WriteStep::Flush,
            WriteStep::Sync,
        ]
    );
    assert_eq!(progress, WriteProgress::Written);
}

#[test]
fn write_stops_before_data_when_permissions_fail() {
    let (steps, progress) = run_write(&[true, true, false]);
    assert_eq!(steps, vec![WriteStep::CreateParentDirs, WriteStep::CreateFile, WriteStep::RestrictPermissions]);
    assert_eq!(progress, WriteProgress::Failed(WriteStep::RestrictPermissions));
    assert!(!steps.contains(&WriteStep::WriteData));

    let (steps, progress) = run_write(&[false]);
    assert_eq!(steps, vec![WriteStep::CreateParentDirs]);
    assert_eq!(progress, WriteProgress::Failed(WriteStep::CreateParentDirs));

    let (_, progress) = run_write(&[true, true, true, true, true, false]);
    assert_eq!(progress, WriteProgress::Failed(WriteStep::Sync));
}

#[test]
fn wipe_of_missing_file_does_nothing() {
    assert_eq!(run_wipe(&[false]), vec![WipeStep::CheckExists]);
}

#[test]
fn wipe_removes_existing_file_whatever_fails() {
    let full = vec![
        WipeStep::CheckExists,
        WipeStep::Open,
        WipeStep::Overwrite,
        WipeStep::Flush,
        WipeStep::Sync,
        WipeStep::Remove,
    ];
    assert_eq!(run_wipe(&[true; 6]), full);
    assert_eq!(run_wipe(&[true, true, false, false, false, false]), full);
    assert_eq!(run_wipe(&[true, false, false]), vec![WipeStep::CheckExists, WipeStep::Open, WipeStep::Remove]);
    assert_eq!(run_wipe(&[true, true, true, true, true, false]), full);
}

#[test]
fn failed_write_after_creation_is_wiped() {
    assert!(!run_write_wipe(&[false]));
    assert!(!run_write_wipe(&[true, false]));
    assert!(run_write_wipe(&[true, true, false]));
    assert!(run_write_wipe(&[true, true, true, false]));
    assert!(run_write_wipe(&[true, true, true, true, false]));
    assert!(run_write_wipe(&[true, true, true, true, true, false]));
    assert!(!run_write_wipe(&[true; 6]));
}
