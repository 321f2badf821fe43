use std::collections::HashMap;

use airac_updater::clock::Timestamp;
use airac_updater::facility::FacilityRecord;
use airac_updater::local::{IntersectionMap, SectorData};
use airac_updater::message::Message;
use airac_updater::persist::{EuroscopeFile, PersistError, StepOutcome, WriteAction, WriteBack};

fn stamp() -> Timestamp {
    Timestamp { year: 2025, month: 3, day: 20, hour: 9, minute: 8, second: 7 }
}

/// Runs a write-back against an in-memory file system; `fail_write` makes
/// the final write stop after three bytes.
fn run(wb: &mut WriteBack, files: &mut HashMap<String, String>, fail_write: bool) -> Vec<String> {
    let mut reports = vec![];
    loop {
        let outcome = match wb.action() {
            WriteAction::Done => break,
            WriteAction::Report(m) => {
                reports.push(m.content);
                StepOutcome::Succeeded
            }
            WriteAction::Rename { from, to } => match files.remove(&from) {
                Some(content) => {
                    files.insert(to, content);
                    StepOutcome::Succeeded
                }
                None => StepOutcome::Failed("No such file or directory".to_string()),
            },
            WriteAction::CreateNew { path } => {
                if files.contains_key(&path) {
                    StepOutcome::Failed("File exists".to_string())
                } else {
                    files.insert(path, String::new());
                    StepOutcome::Succeeded
                }
            }
            WriteAction::WriteAll { path, content } => {
                if fail_write {
                    files.insert(path, content[..3].to_string());
                    StepOutcome::Failed("No space left on device".to_string())
                } else {
                    files.insert(path, content);
                    StepOutcome::Succeeded
                }
            }
        };
        wb.advance(outcome);
    }
    reports
}

#[test]
fn successful_write_back_keeps_backup() {
    let mut files = HashMap::new();
    files.insert("pack/EDMM.sct".to_string(), "old content".to_string());
    let mut wb = WriteBack::new("pack/EDMM.sct".to_string(), "new content".to_string(), &stamp());
    assert_eq!(wb.backup_path, "pack/EDMM.sct.bkp20250320_090807");
    let reports = run(&mut wb, &mut files, false);
    assert_eq!(files["pack/EDMM.sct.bkp20250320_090807"], "old content");
    assert_eq!(files["pack/EDMM.sct"], "new content");
    assert_eq!(
        reports,
        vec![
            "Moving pack/EDMM.sct to pack/EDMM.sct.bkp20250320_090807",
            "Writing new pack/EDMM.sct",
            "Finished writing pack/EDMM.sct",
        ]
    );
    assert!(wb.result().is_ok());
}

#[test]
fn failed_write_keeps_original_in_backup() {
    let mut files = HashMap::new();
    files.insert("EDMM.sct".to_string(), "old content".to_string());
    let mut wb = WriteBack::new("EDMM.sct".to_string(), "new content".to_string(), &stamp());
    run(&mut wb, &mut files, true);
    assert_eq!(files["EDMM.sct.bkp20250320_090807"], "old content");
    assert_eq!(files["EDMM.sct"], "new");
    match wb.result() {
        Err(e) => {
            assert!(matches!(e, PersistError::WriteNew { .. }));
            assert_eq!(e.message(), "Could not write to new file (EDMM.sct): No space left on device");
        }
        Ok(()) => panic!("write should have failed"),
    }
}

#[test]
fn failed_rename_leaves_file_in_place() {
    let mut files: HashMap<String, String> = HashMap::new();
    let mut wb = WriteBack::new("missing.sct".to_string(), "new".to_string(), &stamp());
    run(&mut wb, &mut files, false);
    assert!(files.is_empty());
    match wb.result() {
        Err(e) => assert_eq!(
            e.message(),
            "Could not rename file (missing.sct -> missing.sct.bkp20250320_090807): No such file or directory"
        ),
        Ok(()) => panic!("rename should have failed"),
    }
}

#[test]
fn create_fails_where_a_file_reappeared() {
    let mut wb = WriteBack::new("a.sct".to_string(), "new".to_string(), &stamp());
    wb.advance(StepOutcome::Succeeded);
    wb.advance(StepOutcome::Succeeded);
    wb.advance(StepOutcome::Succeeded);
    assert!(matches!(wb.action(), WriteAction::CreateNew { .. }));
    wb.advance(StepOutcome::Failed("File exists".to_string()));
    assert!(matches!(wb.action(), WriteAction::Done));
    assert_eq!(wb.result().unwrap_err().message(), "Could not create file (a.sct): File exists");
}

#[test]
fn closed_channel_stops_write_back() {
    let mut wb = WriteBack::new("a.sct".to_string(), "new".to_string(), &stamp());
    wb.advance(StepOutcome::Failed("channel closed".to_string()));
    assert!(matches!(wb.action(), WriteAction::Done));
    assert_eq!(
        wb.result().unwrap_err().message(),
        "Could not report progress on writing a.sct: channel closed"
    );
}

#[test]
fn only_sector_files_are_reconciled() {
    let records = vec![FacilityRecord::Waypoint { designator: "KOVAN".to_string(), coordinate: (1i64, 2i64) }];
    let far = |_a: (i64, i64), _b: (i64, i64)| 5000u64;
    let mut log: Vec<Message> = vec![];
    let sct = EuroscopeFile::Sct {
        path: "x.sct".to_string(),
        content: SectorData { airports: vec![], vors: vec![], ndbs: vec![], fixes: vec![] },
    };
    match sct.combine_with_aixm(&records, &far, &mut log) {
        EuroscopeFile::Sct { path, content } => {
            assert_eq!(path, "x.sct");
            assert_eq!(content.fixes.len(), 1);
        }
        _ => panic!("kind changed"),
    }
    let isec = EuroscopeFile::Isec { path: "isec.txt".to_string(), content: IntersectionMap::new() };
    let isec = isec.combine_with_aixm(&records, &far, &mut log);
    assert_eq!(isec.path(), "isec.txt");
    let ese: EuroscopeFile<(i64, i64)> = EuroscopeFile::Ese { path: "x.ese".to_string() };
    let ese = ese.combine_with_aixm(&records, &far, &mut log);
    assert_eq!(ese.path(), "x.ese");
    assert_eq!(log.len(), 2);
}

#[test]
fn write_plan_only_for_sector_files() {
    let sct: EuroscopeFile<(i64, i64)> = EuroscopeFile::Sct {
        path: "EDMM.sct".to_string(),
        content: SectorData { airports: vec![], vors: vec![], ndbs: vec![], fixes: vec![] },
    };
    let plan = sct.write_plan("text".to_string(), &stamp()).expect("sector files are written");
    assert_eq!(plan.path, "EDMM.sct");
    assert_eq!(plan.content, "text");
    assert_eq!(plan.backup_path, "EDMM.sct.bkp20250320_090807");
    let isec: EuroscopeFile<(i64, i64)> =
        EuroscopeFile::Isec { path: "isec.txt".to_string(), content: IntersectionMap::new() };
    assert!(isec.write_plan("text".to_string(), &stamp()).is_none());
    let ese: EuroscopeFile<(i64, i64)> = EuroscopeFile::Ese { path: "x.ese".to_string() };
    assert!(ese.write_plan("text".to_string(), &stamp()).is_none());
}
