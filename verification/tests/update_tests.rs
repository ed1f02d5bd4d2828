use smashnet_nro::curl::HttpCurlError;
use smashnet_nro::update::{
    is_emulator, md5_hex, UpdateAction, UpdateCheck, UpdateEvent, UpdateOutcome, UpdateStep,
};

const ALPHABET_MD5: &str = "c3fcd3d76192e4007dfb496cca67e13b";

#[test]
fn md5_hex_of_alphabet() {
    assert_eq!(md5_hex(b"abcdefghijklmnopqrstuvwxyz"), ALPHABET_MD5);
}

#[test]
fn md5_hex_of_empty_input() {
    assert_eq!(md5_hex(b""), "d41d8cd98f00b204e9800998ecf8427e");
}

#[test]
fn emulator_is_recognised_by_text_address() {
    assert!(is_emulator(0x8004000));
    assert!(!is_emulator(0x8504000));
}

#[test]
fn emulator_skips_the_check() {
    let (_, step) = UpdateCheck::start(0x8004000);
    assert_eq!(step, UpdateStep::Finished(UpdateOutcome::OnEmulator));
}

fn to_installed(checksum: &str) -> (UpdateCheck, UpdateStep) {
    let (mut u, step) = UpdateCheck::start(0x100);
    assert_eq!(step, UpdateStep::Do(UpdateAction::DownloadChecksum));
    let step = u.step(UpdateEvent::Downloaded(Ok(())));
    assert_eq!(step, UpdateStep::Do(UpdateAction::ReadChecksum));
    let step = u.step(UpdateEvent::Text(Ok(checksum.to_string())));
    assert_eq!(step, UpdateStep::Do(UpdateAction::ReadInstalled));
    (u, step)
}

#[test]
fn same_hash_is_up_to_date() {
    let (mut u, _) = to_installed(&format!("{} libsmashnet.nro\n", ALPHABET_MD5));
    let step = u.step(UpdateEvent::Bytes(Ok(b"abcdefghijklmnopqrstuvwxyz".to_vec())));
    assert_eq!(step, UpdateStep::Finished(UpdateOutcome::UpToDate));
}

#[test]
fn different_hash_asks_and_updates() {
    let (mut u, _) = to_installed("0123 libsmashnet.nro\n");
    let step = u.step(UpdateEvent::Bytes(Ok(b"abcdefghijklmnopqrstuvwxyz".to_vec())));
    assert_eq!(step, UpdateStep::Do(UpdateAction::AskUser));
    let step = u.step(UpdateEvent::Answer(true));
    assert_eq!(step, UpdateStep::Do(UpdateAction::DownloadPlugin));
    let step = u.step(UpdateEvent::Downloaded(Err(HttpCurlError::Curl(7))));
    assert_eq!(step, UpdateStep::Finished(UpdateOutcome::Updated));
}

#[test]
fn declined_update_is_not_downloaded() {
    let (mut u, _) = to_installed("0123 x");
    u.step(UpdateEvent::Bytes(Ok(vec![1, 2, 3])));
    let step = u.step(UpdateEvent::Answer(false));
    assert_eq!(step, UpdateStep::Finished(UpdateOutcome::Declined));
}

#[test]
fn checksum_without_space_is_compared_whole() {
    let (mut u, _) = to_installed(ALPHABET_MD5);
    let step = u.step(UpdateEvent::Bytes(Ok(b"abcdefghijklmnopqrstuvwxyz".to_vec())));
    assert_eq!(step, UpdateStep::Finished(UpdateOutcome::UpToDate));
}

#[test]
fn checksum_download_failure_stops() {
    let (mut u, _) = UpdateCheck::start(0x100);
    let step = u.step(UpdateEvent::Downloaded(Err(HttpCurlError::EmptyDownload)));
    assert_eq!(step, UpdateStep::Finished(UpdateOutcome::ChecksumFailed(HttpCurlError::EmptyDownload)));
}

#[test]
fn unreadable_files_stop() {
    let (mut u, _) = UpdateCheck::start(0x100);
    u.step(UpdateEvent::Downloaded(Ok(())));
    let step = u.step(UpdateEvent::Text(Err("gone".to_string())));
    assert_eq!(step, UpdateStep::Finished(UpdateOutcome::ChecksumUnreadable("gone".to_string())));

    let (mut u, _) = to_installed("x y");
    let step = u.step(UpdateEvent::Bytes(Err("missing".to_string())));
    assert_eq!(step, UpdateStep::Finished(UpdateOutcome::InstalledUnreadable("missing".to_string())));
}
