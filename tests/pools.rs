use std::collections::BTreeMap;

use companion_bot::error::{BotError, IoKind};
use companion_bot::listing::{listing_after_create, listing_from_read, listing_step, select_candidates, DirEntry, DirProbe, ListingStep};
use companion_bot::recycle::{Recycle, RecycleStage};
use companion_bot::relocation::{Relocation, RelocationStage};
use companion_bot::rotation::{Rotation, RotationOutcome, RotationStage};

/// Files on a pretend disk, by path, with their content.
type Disk = BTreeMap<String, Vec<u8>>;

fn pool(disk: &Disk, dir: &str) -> Vec<String> {
    let prefix = format!("{dir}/");
    let entries: Vec<DirEntry> = disk
        .keys()
        .filter(|p| p.starts_with(&prefix) && !p[prefix.len()..].contains('/'))
        .map(|p| DirEntry { path: p.clone(), is_file: true })
        .collect();
    select_candidates(&entries)
}

/// Runs a relocation against the pretend disk; `fail_rename` makes every
/// rename fail as across volumes.
fn relocate(disk: &mut Disk, source: &str, target: &str, fail_rename: bool) -> Result<String, BotError> {
    let mut r = Relocation::new(source, target);
    while !r.is_finished() {
        let outcome = match r.stage {
            RelocationStage::CreatingDir => Ok(true),
            RelocationStage::CheckingTarget => Ok(disk.contains_key(&r.destination)),
            RelocationStage::RemovingTarget => disk.remove(&r.destination).map(|_| true).ok_or(IoKind::NotFound),
            RelocationStage::Renaming => {
                if fail_rename {
                    Err(IoKind::Other)
                } else {
                    disk.remove(&r.source)
                        .map(|c| {
                            disk.insert(r.destination.clone(), c);
                            true
                        })
                        .ok_or(IoKind::NotFound)
                }
            },
            RelocationStage::Copying { .. } => match disk.get(&r.source).cloned() {
                Some(c) => {
                    disk.insert(r.destination.clone(), c);
                    Ok(true)
                },
                None => Err(IoKind::NotFound),
            },
            RelocationStage::RemovingSource { .. } => disk.remove(&r.source).map(|_| true).ok_or(IoKind::NotFound),
            RelocationStage::Moved | RelocationStage::Failed(_) => unreachable!(),
        };
        r.resume(outcome);
    }
    r.result().unwrap()
}

fn recycle(disk: &mut Disk, available: &str, spent: &str) -> Result<Vec<String>, BotError> {
    let mut r = Recycle::new(available, spent);
    r.listed(Ok(pool(disk, spent)));
    while let Some(path) = r.current().cloned() {
        let moved = relocate(disk, &path, available, false);
        r.moved_one(moved);
    }
    r.result().unwrap()
}

/// Runs a rotation; `upload` says whether the platform accepts the icon.
fn rotate(disk: &mut Disk, upload: bool) -> (Result<RotationOutcome, BotError>, Vec<String>) {
    let mut uploads = Vec::new();
    let mut r = Rotation::new("available", "spent");
    loop {
        match r.stage {
            RotationStage::ListingAvailable => r.candidates(Ok(pool(disk, "available"))),
            RotationStage::Recycling => {
                let recycled = recycle(disk, "available", "spent");
                r.candidates(recycled)
            },
            RotationStage::Uploading => {
                uploads.push(r.icon.clone());
                r.uploaded(upload)
            },
            RotationStage::Relocating => {
                let moved = relocate(disk, &r.icon.clone(), "spent", false);
                r.relocated(moved)
            },
            RotationStage::Done(_) | RotationStage::Failed(_) => break,
        }
    }
    (r.outcome().unwrap(), uploads)
}

fn disk(files: &[&str]) -> Disk {
    files.iter().map(|f| (f.to_string(), f.as_bytes().to_vec())).collect()
}

#[test]
fn rotation_moves_selected_icon_to_spent() {
    let mut d = disk(&["available/a.png", "available/b.jpg"]);
    let (outcome, uploads) = rotate(&mut d, true);
    assert_eq!(outcome, Ok(RotationOutcome::Updated));
    assert_eq!(uploads.len(), 1);
    let chosen = &uploads[0];
    assert!(chosen == "available/a.png" || chosen == "available/b.jpg");
    let name = chosen.rsplit('/').next().unwrap();
    assert!(!d.contains_key(chosen));
    assert_eq!(d.get(&format!("spent/{name}")), Some(&chosen.as_bytes().to_vec()));
    assert_eq!(pool(&d, "available").len(), 1);
    assert_eq!(pool(&d, "spent").len(), 1);
}

#[test]
fn rotation_recycles_spent_pool_when_available_is_empty() {
    let mut d = disk(&["spent/c.gif"]);
    let (outcome, uploads) = rotate(&mut d, true);
    assert_eq!(uploads, vec![String::from("available/c.gif")]);
    assert_eq!(outcome, Ok(RotationOutcome::Updated));
    assert_eq!(pool(&d, "spent"), vec![String::from("spent/c.gif")]);
    assert!(pool(&d, "available").is_empty());
}

#[test]
fn failed_upload_leaves_candidate_available() {
    let mut d = disk(&["available/a.png"]);
    let before = d.clone();
    let (outcome, uploads) = rotate(&mut d, false);
    assert_eq!(uploads, vec![String::from("available/a.png")]);
    assert_eq!(outcome, Err(BotError::Platform));
    assert_eq!(d, before);
}

#[test]
fn rotation_with_no_candidates_does_nothing() {
    let mut d = disk(&["available/readme.txt", "spent/notes.md"]);
    let before = d.clone();
    let (outcome, uploads) = rotate(&mut d, true);
    assert_eq!(outcome, Ok(RotationOutcome::NoCandidates));
    assert!(uploads.is_empty());
    assert_eq!(d, before);
}

#[test]
fn unreadable_pool_is_a_warning() {
    let mut r = Rotation::new("available", "spent");
    r.candidates(Err(BotError::Io(IoKind::PermissionDenied)));
    assert_eq!(r.outcome(), Some(Ok(RotationOutcome::Unreadable)));
    let mut r = Rotation::new("available", "spent");
    r.candidates(Ok(Vec::new()));
    assert_eq!(r.stage, RotationStage::Recycling);
    r.candidates(Err(BotError::Io(IoKind::Other)));
    assert_eq!(r.outcome(), Some(Err(BotError::Io(IoKind::Other))));
}

#[test]
fn unset_pool_skips_rotation() {
    let r = Rotation::new("", "spent");
    assert_eq!(r.outcome(), Some(Ok(RotationOutcome::PoolUnset)));
}

#[test]
fn failed_relocation_after_upload_is_reported() {
    let mut r = Rotation::new("available", "spent");
    r.candidates(Ok(vec![String::from("available/a.png")]));
    assert_eq!(r.stage, RotationStage::Uploading);
    r.uploaded(true);
    assert_eq!(r.stage, RotationStage::Relocating);
    r.relocated(Err(BotError::Io(IoKind::Other)));
    assert_eq!(r.outcome(), Some(Err(BotError::Io(IoKind::Other))));
}

#[test]
fn recycling_empty_spent_pool_twice_is_a_noop() {
    let mut d = disk(&["available/a.png"]);
    let before = d.clone();
    assert_eq!(recycle(&mut d, "available", "spent"), Ok(Vec::new()));
    assert_eq!(recycle(&mut d, "available", "spent"), Ok(Vec::new()));
    assert_eq!(d, before);
}

#[test]
fn recycling_moves_every_spent_icon_back() {
    let mut d = disk(&["spent/a.png", "spent/b.gif", "spent/skip.txt"]);
    let moved = recycle(&mut d, "available", "spent").unwrap();
    assert_eq!(moved, vec![String::from("available/a.png"), String::from("available/b.gif")]);
    assert!(pool(&d, "spent").is_empty());
    assert!(d.contains_key("spent/skip.txt"));
}

#[test]
fn recycling_stops_at_first_failure() {
    let mut r = Recycle::new("available", "spent");
    r.listed(Ok(vec![String::from("spent/a.png"), String::from("spent/b.png")]));
    assert_eq!(r.current(), Some(&String::from("spent/a.png")));
    r.moved_one(Err(BotError::Io(IoKind::PermissionDenied)));
    assert_eq!(r.stage, RecycleStage::Failed(BotError::Io(IoKind::PermissionDenied)));
    assert_eq!(r.current(), None);
    let mut r = Recycle::new("available", "spent");
    r.listed(Err(BotError::Configuration));
    assert_eq!(r.result(), Some(Err(BotError::Configuration)));
}

#[test]
fn relocation_round_trip_keeps_content() {
    let mut d = disk(&["a/x.png"]);
    assert_eq!(relocate(&mut d, "a/x.png", "b", false), Ok(String::from("b/x.png")));
    assert!(!d.contains_key("a/x.png"));
    assert_eq!(d.get("b/x.png"), Some(&b"a/x.png".to_vec()));
}

#[test]
fn relocation_replaces_existing_file() {
    let mut d = disk(&["a/x.png", "b/x.png"]);
    d.insert(String::from("b/x.png"), b"old".to_vec());
    assert_eq!(relocate(&mut d, "a/x.png", "b", false), Ok(String::from("b/x.png")));
    assert_eq!(d.get("b/x.png"), Some(&b"a/x.png".to_vec()));
    assert_eq!(d.len(), 1);
}

#[test]
fn relocation_falls_back_to_copy() {
    let mut d = disk(&["a/x.png"]);
    assert_eq!(relocate(&mut d, "a/x.png", "b/", true), Ok(String::from("b/x.png")));
    assert!(!d.contains_key("a/x.png"));
    assert_eq!(d.get("b/x.png"), Some(&b"a/x.png".to_vec()));
}

#[test]
fn relocation_reports_both_causes() {
    let mut r = Relocation::new("a/x.png", "b");
    r.resume(Ok(true));
    r.resume(Ok(false));
    assert_eq!(r.stage, RelocationStage::Renaming);
    r.resume(Err(IoKind::Other));
    assert_eq!(r.stage, RelocationStage::Copying { rename: IoKind::Other });
    r.resume(Err(IoKind::PermissionDenied));
    assert_eq!(
        r.result(),
        Some(Err(BotError::Relocation { rename: IoKind::Other, fallback: IoKind::PermissionDenied }))
    );
    let mut r = Relocation::new("a/x.png", "b");
    r.resume(Ok(true));
    r.resume(Ok(false));
    r.resume(Err(IoKind::Other));
    r.resume(Ok(true));
    r.resume(Err(IoKind::NotFound));
    assert_eq!(r.result(), Some(Err(BotError::Relocation { rename: IoKind::Other, fallback: IoKind::NotFound })));
    let mut r = Relocation::new("a/x.png", "b");
    r.resume(Err(IoKind::PermissionDenied));
    assert_eq!(r.result(), Some(Err(BotError::Io(IoKind::PermissionDenied))));
    assert!(BotError::Io(IoKind::PermissionDenied).is_permission_denied());
    assert!(!BotError::Io(IoKind::Other).is_permission_denied());
}

#[test]
fn relocation_of_path_without_name_fails() {
    for source in ["a/..", "/", ""] {
        let r = Relocation::new(source, "b");
        assert_eq!(r.stage, RelocationStage::Failed(BotError::Configuration));
        assert_eq!(r.result(), Some(Err(BotError::Configuration)));
    }
    let r = Relocation::new("a/x.png/", "b");
    assert_eq!(r.stage, RelocationStage::CreatingDir);
    assert_eq!(r.destination, "b/x.png");
}

#[test]
fn listing_decisions() {
    assert_eq!(listing_step("", DirProbe::NotDirectory), ListingStep::Unset);
    assert_eq!(listing_step("pool", DirProbe::Missing), ListingStep::Create);
    assert_eq!(listing_step("pool", DirProbe::Directory), ListingStep::Read);
    assert_eq!(listing_step("pool", DirProbe::NotDirectory), ListingStep::Fail(BotError::Configuration));
    assert_eq!(
        listing_step("pool", DirProbe::Failed(IoKind::PermissionDenied)),
        ListingStep::Fail(BotError::Io(IoKind::PermissionDenied))
    );
    assert_eq!(listing_after_create(Ok(())), Ok(Vec::new()));
    assert_eq!(listing_after_create(Err(IoKind::Other)), Err(BotError::Io(IoKind::Other)));
}

#[test]
fn listing_keeps_supported_files_only() {
    let entries = vec![
        DirEntry { path: String::from("p/a.png"), is_file: true },
        DirEntry { path: String::from("p/sub.png"), is_file: false },
        DirEntry { path: String::from("p/b.txt"), is_file: true },
        DirEntry { path: String::from("p/C.GIF"), is_file: true },
    ];
    assert_eq!(listing_from_read(Ok(entries)), Ok(vec![String::from("p/a.png"), String::from("p/C.GIF")]));
    assert_eq!(listing_from_read(Err(IoKind::PermissionDenied)), Err(BotError::Io(IoKind::PermissionDenied)));
}
