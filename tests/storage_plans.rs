use manta_signer::storage::{EntryKind, FsOp, InvalidFileFormat};
use manta_signer::{Config, FilePath, Network};

fn config() -> Config {
    Config::try_default(Some(FilePath::new(vec!["cfg".to_string()]))).unwrap()
}

fn last(p: &FilePath) -> &str {
    p.parts.last().unwrap()
}

#[test]
fn save_moves_aside_writes_then_drops_backup() {
    let plan = config().save_plan(Network::Calamari);
    assert_eq!(plan.len(), 3);
    match &plan[0] {
        FsOp::Rename(a, b) => {
            assert_eq!(last(a), "storage-calamari.dat");
            assert_eq!(last(b), "storage-calamari.backup");
        }
        _ => panic!("expected a rename"),
    }
    match &plan[1] {
        FsOp::WriteState(p) => assert_eq!(last(p), "storage-calamari.dat"),
        _ => panic!("expected a write"),
    }
    match &plan[2] {
        FsOp::Remove(p) => assert_eq!(last(p), "storage-calamari.backup"),
        _ => panic!("expected a removal"),
    }
}

#[test]
fn restore_without_backup_does_nothing() {
    let plan = config().restore_plan(Network::Manta, EntryKind::Missing, EntryKind::File).unwrap();
    assert!(plan.is_empty());
}

#[test]
fn restore_replaces_partial_primary() {
    let plan = config().restore_plan(Network::Dolphin, EntryKind::File, EntryKind::File).unwrap();
    assert_eq!(plan.len(), 2);
    match &plan[0] {
        FsOp::Remove(p) => assert_eq!(last(p), "storage-dolphin.dat"),
        _ => panic!("expected a removal"),
    }
    match &plan[1] {
        FsOp::Rename(a, b) => {
            assert_eq!(last(a), "storage-dolphin.backup");
            assert_eq!(last(b), "storage-dolphin.dat");
        }
        _ => panic!("expected a rename"),
    }
}

#[test]
fn restore_without_primary_only_renames() {
    let plan = config().restore_plan(Network::Dolphin, EntryKind::File, EntryKind::Missing).unwrap();
    assert_eq!(plan.len(), 1);
    assert!(matches!(&plan[0], FsOp::Rename(_, _)));
}

#[test]
fn restore_refuses_backup_that_is_not_a_file() {
    let r = config().restore_plan(Network::Dolphin, EntryKind::Other, EntryKind::File);
    assert_eq!(r.err(), Some(InvalidFileFormat));
}

#[test]
fn delete_removes_only_existing_files() {
    let c = config();
    assert_eq!(c.delete_plan(Network::Manta, EntryKind::File, EntryKind::File).len(), 2);
    assert_eq!(c.delete_plan(Network::Manta, EntryKind::File, EntryKind::Missing).len(), 1);
    assert_eq!(c.delete_plan(Network::Manta, EntryKind::Missing, EntryKind::Missing).len(), 0);
    match &c.delete_plan(Network::Manta, EntryKind::Missing, EntryKind::File)[0] {
        FsOp::Remove(p) => assert_eq!(last(p), "storage-manta.backup"),
        _ => panic!("expected a removal"),
    }
}

type Disk = std::collections::HashMap<Vec<String>, Vec<u8>>;

fn kind(disk: &Disk, p: &FilePath) -> EntryKind {
    if disk.contains_key(&p.parts) {
        EntryKind::File
    } else {
        EntryKind::Missing
    }
}

fn run(disk: &mut Disk, ops: &[FsOp], state: &[u8]) {
    for op in ops {
        match op {
            FsOp::Remove(p) => {
                disk.remove(&p.parts).unwrap();
            }
            FsOp::Rename(a, b) => {
                let v = disk.remove(&a.parts).unwrap();
                disk.insert(b.parts.clone(), v);
            }
            FsOp::WriteState(p) => {
                disk.insert(p.parts.clone(), state.to_vec());
            }
        }
    }
}

#[test]
fn interrupted_save_restores_previous_state() {
    let c = config();
    let n = Network::Dolphin;
    let primary = c.data_path.dolphin.parts.clone();
    let save = c.save_plan(n);
    for crash_after in 1..3 {
        for partial in [None, Some(b"half".to_vec())] {
            let mut disk = Disk::new();
            disk.insert(primary.clone(), b"old state".to_vec());
            run(&mut disk, &save[..crash_after], b"new state");
            if let Some(bytes) = &partial {
                disk.insert(primary.clone(), bytes.clone());
            }
            let backup = kind(&disk, &c.backup_data_path.dolphin);
            let main = kind(&disk, &c.data_path.dolphin);
            let restore = c.restore_plan(n, backup, main).unwrap();
            run(&mut disk, &restore, b"");
            assert_eq!(disk.get(&primary), Some(&b"old state".to_vec()));
            assert_eq!(disk.len(), 1);
        }
    }
}

#[test]
fn completed_save_keeps_new_state() {
    let c = config();
    let mut disk = Disk::new();
    disk.insert(c.data_path.manta.parts.clone(), b"old".to_vec());
    run(&mut disk, &c.save_plan(Network::Manta), b"new");
    assert_eq!(disk.get(&c.data_path.manta.parts), Some(&b"new".to_vec()));
    assert_eq!(disk.len(), 1);
    let restore = c
        .restore_plan(Network::Manta, kind(&disk, &c.backup_data_path.manta), EntryKind::File)
        .unwrap();
    assert!(restore.is_empty());
}
