use std::collections::HashMap;
use std::io::Read;

use rotatelog::{
    cleanup_after_write, dated_filename, join_path, plan_compression, plan_for_encoding,
    plan_rotation, read_mode, relay_step, rotation_order, watch_step, Cleanup, CompressPlan,
    LinkState, ReadMode, RotationAction, Stamp, COARSE_POLL_SECS, FINE_POLL_SECS,
};

fn stamp(year: i32, month: u32, day: u32, hour: u32, minute: u32, second: u32) -> Stamp {
    Stamp { year, month, day, hour, minute, second }
}

/// A log folder held in memory, driven through the library's decisions.
struct Folder {
    files: HashMap<String, Vec<u8>>,
    link: Option<String>,
    handed_off: Vec<String>,
    link_writes: usize,
}

impl Folder {
    fn new() -> Folder {
        Folder { files: HashMap::new(), link: None, handed_off: Vec::new(), link_writes: 0 }
    }

    fn link_state(&self) -> LinkState {
        match &self.link {
            None => LinkState::Missing,
            Some(t) if self.files.contains_key(t) => LinkState::Target(t.clone()),
            Some(_) => LinkState::Dangling,
        }
    }

    fn rotate(&mut self, path: &str, compress: bool) -> String {
        let path = path.to_string();
        let plan = plan_rotation(&self.link_state(), &path, compress);
        for action in rotation_order(&plan) {
            match action {
                RotationAction::HandOff => {
                    // The compressor may remove the file at once.
                    let old = plan.hand_off.clone().unwrap();
                    assert_ne!(self.link.as_deref(), Some(old.as_str()));
                    self.files.remove(&old);
                    self.handed_off.push(old);
                }
                RotationAction::OpenNew => {
                    self.files.entry(path.clone()).or_default();
                }
                RotationAction::RemoveLink => self.link = None,
                RotationAction::CreateLink => {
                    self.link = Some(path.clone());
                    self.link_writes += 1;
                }
            }
        }
        path
    }

    fn write(&mut self, active: &str, bytes: &[u8]) {
        self.files.get_mut(active).unwrap().extend_from_slice(bytes);
    }
}

fn day_path(day: u32) -> String {
    join_path("/logs", &dated_filename("base", &stamp(2024, 5, day, 12, 0, 0), false))
}

#[test]
fn date_change_splits_the_log() {
    let mut folder = Folder::new();
    let mut active = folder.rotate(&day_path(1), false);
    let mut due = false;
    for (chunk, date) in [(&b"a\n"[..], 1u32), (&b"b\n"[..], 2u32)] {
        let seen = watch_step(&stamp(2024, 5, 1, 23, 59, 59), &stamp(2024, 5, date, 0, 0, 0));
        due = due || seen.rotation_due;
        let step = relay_step(chunk.len(), due);
        assert!(step.write);
        if step.rotate {
            due = false;
            active = folder.rotate(&day_path(date), false);
        }
        folder.write(&active, chunk);
    }
    assert_eq!(folder.files.len(), 2);
    assert_eq!(folder.files["/logs/base-2024-05-01"], b"a\n".to_vec());
    assert_eq!(folder.files["/logs/base-2024-05-02"], b"b\n".to_vec());
    assert_eq!(folder.link.as_deref(), Some("/logs/base-2024-05-02"));
}

#[test]
fn rotations_within_a_day_keep_every_byte() {
    let mut folder = Folder::new();
    let mut active = folder.rotate(&day_path(3), true);
    let chunks: [&[u8]; 4] = [b"one\n", b"t", b"wo\nthree", b"\n"];
    for (i, chunk) in chunks.iter().enumerate() {
        let step = relay_step(chunk.len(), i % 2 == 1);
        if step.rotate {
            active = folder.rotate(&day_path(3), true);
        }
        folder.write(&active, chunk);
    }
    assert_eq!(folder.files.len(), 1);
    assert_eq!(folder.files[&day_path(3)], b"one\ntwo\nthree\n".to_vec());
    assert_eq!(folder.link_writes, 1);
    assert!(folder.handed_off.is_empty());
}

#[test]
fn link_follows_each_new_file() {
    let mut folder = Folder::new();
    for day in [4u32, 4, 5, 6, 6, 7] {
        let active = folder.rotate(&day_path(day), true);
        assert_eq!(folder.link.as_deref(), Some(active.as_str()));
        assert!(folder.files.contains_key(&active));
        assert!(matches!(folder.link_state(), LinkState::Target(_)));
        assert!(!folder.handed_off.contains(&active));
    }
    assert_eq!(folder.handed_off, vec![day_path(4), day_path(5), day_path(6)]);
}

#[test]
fn same_name_twice_touches_nothing() {
    let path = day_path(9);
    let plan = plan_rotation(&LinkState::Target(path.clone()), &path, true);
    assert!(!plan.relink);
    assert!(!plan.remove_existing);
    assert!(plan.hand_off.is_none());
    assert_eq!(rotation_order(&plan), vec![RotationAction::OpenNew]);
}

#[test]
fn first_rotation_links_without_removing() {
    let plan = plan_rotation(&LinkState::Missing, &day_path(1), true);
    assert!(plan.relink && !plan.remove_existing && plan.hand_off.is_none());
    assert_eq!(rotation_order(&plan), vec![RotationAction::OpenNew, RotationAction::CreateLink]);
}

#[test]
fn foreign_or_dangling_entry_is_replaced() {
    for state in [LinkState::NotLink, LinkState::Dangling] {
        let plan = plan_rotation(&state, &day_path(1), true);
        assert!(plan.relink && plan.remove_existing && plan.hand_off.is_none());
        assert_eq!(
            rotation_order(&plan),
            vec![RotationAction::OpenNew, RotationAction::RemoveLink, RotationAction::CreateLink]
        );
    }
}

#[test]
fn superseded_file_is_handed_off_after_relinking() {
    let plan = plan_rotation(&LinkState::Target(day_path(1)), &day_path(2), true);
    assert_eq!(plan.hand_off, Some(day_path(1)));
    assert_eq!(
        rotation_order(&plan),
        vec![
            RotationAction::OpenNew,
            RotationAction::RemoveLink,
            RotationAction::CreateLink,
            RotationAction::HandOff
        ]
    );
}

#[test]
fn no_hand_off_without_compression_or_for_archives() {
    let plan = plan_rotation(&LinkState::Target(day_path(1)), &day_path(2), false);
    assert!(plan.relink && plan.hand_off.is_none());
    let gz = format!("{}.gz", day_path(1));
    let plan = plan_rotation(&LinkState::Target(gz), &day_path(2), true);
    assert!(plan.relink && plan.remove_existing && plan.hand_off.is_none());
}

#[test]
fn compressing_a_hundred_bytes() {
    let contents: Vec<u8> = (0..100u8).map(|i| b'a' + i % 26).collect();
    match plan_compression(&contents) {
        CompressPlan::WriteArchive(gz) => {
            assert_ne!(gz, contents);
            assert_eq!(&gz[..2], &[0x1f, 0x8b]);
            let mut back = Vec::new();
            flate2::read::GzDecoder::new(gz.as_slice()).read_to_end(&mut back).unwrap();
            assert_eq!(back, contents);
        }
        other => panic!("unexpected plan {:?}", other),
    }
    assert_eq!(cleanup_after_write(true), Cleanup::RemoveOriginal);
}

#[test]
fn empty_file_is_only_deleted() {
    assert!(matches!(plan_compression(&Vec::new()), CompressPlan::DeleteOriginal));
    assert!(matches!(plan_for_encoding(&Vec::new(), Some(vec![1, 2])), CompressPlan::DeleteOriginal));
}

#[test]
fn failed_encoding_keeps_the_original() {
    assert!(matches!(plan_for_encoding(&vec![7u8], None), CompressPlan::KeepOriginal));
    match plan_for_encoding(&vec![7u8], Some(vec![9u8, 9])) {
        CompressPlan::WriteArchive(v) => assert_eq!(v, vec![9u8, 9]),
        other => panic!("unexpected plan {:?}", other),
    }
    assert_eq!(cleanup_after_write(false), Cleanup::RemoveArchive);
}

#[test]
fn closed_input_stops_without_writing() {
    let step = relay_step(0, true);
    assert!(step.stop && !step.write && !step.rotate && !step.pause);
    let plan = plan_rotation(&LinkState::Missing, &day_path(8), false);
    assert_eq!(rotation_order(&plan), vec![RotationAction::OpenNew, RotationAction::CreateLink]);
}

#[test]
fn single_byte_reads_pause() {
    let step = relay_step(1, false);
    assert!(step.write && step.pause && !step.rotate && !step.stop);
    let step = relay_step(8192, true);
    assert!(step.write && step.rotate && !step.pause && !step.stop);
}

#[test]
fn watcher_polls_finely_at_the_end_of_an_hour() {
    let last = stamp(2024, 5, 1, 10, 0, 0);
    let coarse = watch_step(&last, &stamp(2024, 5, 1, 10, 58, 59));
    assert!(!coarse.rotation_due && !coarse.near_end);
    assert_eq!(coarse.sleep_secs, COARSE_POLL_SECS);
    assert_eq!(COARSE_POLL_SECS, 59);
    let fine = watch_step(&last, &stamp(2024, 5, 1, 10, 59, 0));
    assert!(!fine.rotation_due && fine.near_end);
    assert_eq!(fine.sleep_secs, FINE_POLL_SECS);
    assert_eq!(FINE_POLL_SECS, 1);
    let next = watch_step(&last, &stamp(2024, 5, 2, 0, 0, 30));
    assert!(next.rotation_due && !next.near_end);
}

#[test]
fn read_mode_follows_the_flag() {
    assert_eq!(read_mode(true), ReadMode::Line);
    assert_eq!(read_mode(false), ReadMode::Bulk);
}
