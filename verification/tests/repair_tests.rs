use music_organizer::repair::{repair_init, repair_step, RepairEvent, RepairPhase};

#[test]
fn clean_run_reads_and_writes_once() {
    let s = repair_init();
    let s = repair_step(s, RepairEvent::ReadOk);
    assert_eq!(s.phase, RepairPhase::WriteAttempt);
    let s = repair_step(s, RepairEvent::WriteOk);
    assert_eq!(s.phase, RepairPhase::Done);
    assert_eq!(s.temp_files, 0);
}

#[test]
fn write_failure_repaired_once_leaves_no_temp_file() {
    let s = repair_init();
    let s = repair_step(s, RepairEvent::ReadOk);
    let s = repair_step(s, RepairEvent::WriteErr);
    assert_eq!(s.phase, RepairPhase::WriteRepair);
    assert_eq!(s.temp_files, 1);
    let s = repair_step(s, RepairEvent::EncodeOk);
    assert_eq!(s.temp_files, 0);
    let s = repair_step(s, RepairEvent::ReadOk);
    let s = repair_step(s, RepairEvent::WriteOk);
    assert_eq!(s.phase, RepairPhase::Done);
    assert_eq!(s.temp_files, 0);
}

#[test]
fn read_failure_is_repaired_then_retried() {
    let s = repair_init();
    let s = repair_step(s, RepairEvent::ReadErr);
    assert_eq!(s.phase, RepairPhase::ReadRepair);
    assert_eq!(s.temp_files, 1);
    let s = repair_step(s, RepairEvent::EncodeOk);
    assert_eq!(s.phase, RepairPhase::ReadRetry);
    assert_eq!(s.temp_files, 0);
    let s = repair_step(s, RepairEvent::ReadOk);
    assert_eq!(s.phase, RepairPhase::WriteAttempt);
}

#[test]
fn second_failure_of_the_retried_operation_is_final() {
    let s = repair_init();
    let s = repair_step(s, RepairEvent::ReadOk);
    let s = repair_step(s, RepairEvent::WriteErr);
    let s = repair_step(s, RepairEvent::EncodeOk);
    let s = repair_step(s, RepairEvent::ReadOk);
    let s = repair_step(s, RepairEvent::WriteErr);
    assert_eq!(s.phase, RepairPhase::Failed);
    // No second repair: the terminal state absorbs everything.
    let s = repair_step(s, RepairEvent::WriteErr);
    assert_eq!(s.phase, RepairPhase::Failed);
    let s = repair_step(s, RepairEvent::EncodeOk);
    assert_eq!(s.phase, RepairPhase::Failed);
}

#[test]
fn failed_reencode_is_final_and_leaks_its_temp_file() {
    let s = repair_init();
    let s = repair_step(s, RepairEvent::ReadErr);
    let s = repair_step(s, RepairEvent::EncodeErr);
    assert_eq!(s.phase, RepairPhase::Failed);
    assert_eq!(s.temp_files, 1);
}

#[test]
fn retried_read_failure_after_write_repair_is_final() {
    let s = repair_init();
    let s = repair_step(s, RepairEvent::ReadOk);
    let s = repair_step(s, RepairEvent::WriteErr);
    let s = repair_step(s, RepairEvent::EncodeOk);
    let s = repair_step(s, RepairEvent::ReadErr);
    assert_eq!(s.phase, RepairPhase::Failed);
}
