use savedata_resigner::app::{Mode, SaveDataApp, Status};
use savedata_resigner::batch::{check_input_root, u64_to_string, BatchRunner};
use savedata_resigner::crypto::IdCrypto;
use savedata_resigner::errors::ErrorKind;

const OLD: &str = "76561197960265728";
const NEW: &str = "76561197960265999";
const CODE: &str = "SUKHOTHAI";

#[test]
fn renders_numbers_in_decimal() {
    assert_eq!(u64_to_string(0), "0");
    assert_eq!(u64_to_string(7), "7");
    assert_eq!(u64_to_string(10), "10");
    assert_eq!(u64_to_string(304), "304");
    assert_eq!(u64_to_string(76561197960265728), "76561197960265728");
    assert_eq!(u64_to_string(u64::MAX), "18446744073709551615");
}

#[test]
fn input_root_must_exist_and_be_a_directory() {
    assert_eq!(check_input_root(true, false), Ok(()));
    assert_eq!(check_input_root(false, false), Err(ErrorKind::PathNotFound));
    assert_eq!(check_input_root(false, true), Err(ErrorKind::PathNotFound));
    assert_eq!(check_input_root(true, true), Err(ErrorKind::NotADirectory));
}

#[test]
fn batch_aborts_on_the_failing_file_keeping_earlier_output() {
    // Three files; the second fails authentication.
    let p1 = b"first file".to_vec();
    let p3 = b"third file".to_vec();
    let f1 = IdCrypto::encrypt_file(&p1, "a.bin", CODE, OLD).unwrap();
    let f2 = vec![0u8; 64]; // full-length garbage: fails the tag check
    let f3 = IdCrypto::encrypt_file(&p3, "c.bin", CODE, OLD).unwrap();

    let mut runner = BatchRunner::new(
        Mode::Decrypt,
        String::from(CODE),
        String::from(OLD),
        String::new(),
    );
    let out1 = runner.process_one("a.bin", &f1).unwrap();
    assert_eq!(out1, p1); // the first file's output exists
    assert_eq!(runner.processed, 1);

    let err = runner.process_one("b.bin", &f2).unwrap_err();
    assert_eq!(err, ErrorKind::AuthenticationFailed);
    assert_eq!(runner.processed, 1);
    // The batch reports failure referencing that file and hints at the identity.
    assert_eq!(
        runner.failure_message("b.bin"),
        "Failed to decrypt b.bin: Check if SteamID is correct"
    );
    // The caller aborts here: the third file is never processed, so no third
    // output exists. Only the first two log lines were written.
    assert_eq!(runner.log, "Decrypting a.bin...\nDecrypting b.bin...\n");
    let _ = f3;
}

#[test]
fn encrypt_batch_produces_decryptable_blobs() {
    let plain = b"payload".to_vec();
    let mut runner = BatchRunner::new(
        Mode::Encrypt,
        String::from(CODE),
        String::from(OLD),
        String::new(),
    );
    let blob = runner.process_one("slot0.bin", &plain).unwrap();
    assert_eq!(IdCrypto::decrypt_file(&blob, "slot0.bin", CODE, OLD).unwrap(), plain);
    assert_eq!(runner.success_message(), "Successfully encrypted 1 files");
}

#[test]
fn resign_scenario_end_to_end() {
    // A valid encrypted blob for the old identity sits in
    // save/GAME-AUTOSAVE1/slot0.bin; resign mode moves it to the new identity.
    let plain = b"autosave slot zero".to_vec();
    let blob = IdCrypto::encrypt_file(&plain, "slot0.bin", CODE, OLD).unwrap();

    let mut app = SaveDataApp::new();
    app.mode = Mode::Resign;
    app.input_dir = String::from("save/GAME-AUTOSAVE1");
    app.old_id = String::from(OLD);
    app.new_id = String::from(NEW);
    // No output folder configured: the default lands beside the input folder.
    assert_eq!(app.get_final_output_path(), "save/GAME-AUTOSAVE1_resigned");
    app.process_files(None);
    assert!(matches!(app.status, Status::Processing));

    let mut runner = BatchRunner::new(
        Mode::Resign,
        String::from(CODE),
        String::from(OLD),
        String::from(NEW),
    );
    let moved = runner.process_one("slot0.bin", &blob).unwrap();
    assert_eq!(
        IdCrypto::decrypt_file(&moved, "slot0.bin", CODE, NEW).unwrap(),
        plain
    );
    let summary = runner.summary("2024-01-02 03:04:05");
    assert!(summary.starts_with("Processing completed at: 2024-01-02 03:04:05\n\n"));
    assert!(summary.contains(
        "Resigned 1 files from SteamID 76561197960265728 to SteamID 76561197960265999"
    ));
    assert!(summary.ends_with("Resigning slot0.bin...\n"));
    assert_eq!(runner.success_message(), "Successfully resigned 1 files");
}

#[test]
fn invalid_identity_stops_a_job_before_it_starts() {
    let mut app = SaveDataApp::new();
    app.mode = Mode::Decrypt;
    app.input_dir = String::from("saves");
    app.steam_id = String::from("7656119796026572"); // 16 digits
    app.process_files(None);
    match &app.status {
        Status::Error(m) => {
            assert_eq!(m.as_str(), "Invalid SteamID: SteamID must be exactly 17 digits long")
        },
        other => panic!("unexpected status: {:?}", other),
    }
}

#[test]
fn resign_rejects_identical_identities() {
    let mut app = SaveDataApp::new();
    app.mode = Mode::Resign;
    app.old_id = String::from(OLD);
    app.new_id = String::from(OLD);
    app.process_files(None);
    match &app.status {
        Status::Error(m) => assert_eq!(m.as_str(), "Old and New SteamIDs cannot be the same"),
        other => panic!("unexpected status: {:?}", other),
    }
}

#[test]
fn resign_reports_the_faulty_field() {
    let mut app = SaveDataApp::new();
    app.mode = Mode::Resign;
    app.old_id = String::from(OLD);
    app.new_id = String::from("x");
    app.process_files(None);
    match &app.status {
        Status::Error(m) => {
            assert_eq!(m.as_str(), "Invalid New SteamID: SteamID must be exactly 17 digits long")
        },
        other => panic!("unexpected status: {:?}", other),
    }
}

#[test]
fn encrypt_mode_warns_on_already_encrypted_first_file() {
    let first = IdCrypto::encrypt_file(&vec![0u8; 2000], "slot0.bin", CODE, OLD).unwrap();
    let looks_encrypted = SaveDataApp::is_file_encrypted(&first);

    let mut app = SaveDataApp::new();
    app.mode = Mode::Encrypt;
    app.game_idx = 1;
    app.input_dir = String::from("saves/GAME");
    app.steam_id = String::from(OLD);
    app.process_files(Some(&first));
    match &app.status {
        Status::EncryptionWarning(input, output, code, id) => {
            assert!(looks_encrypted);
            assert_eq!(input.as_str(), "saves/GAME");
            assert_eq!(output.as_str(), "saves/GAME_encrypted");
            assert_eq!(code.as_str(), CODE);
            assert_eq!(id.as_str(), OLD);
        },
        Status::Processing => assert!(!looks_encrypted),
        other => panic!("unexpected status: {:?}", other),
    }
}

#[test]
fn encrypt_mode_proceeds_on_plain_first_file() {
    let mut app = SaveDataApp::new();
    app.mode = Mode::Encrypt;
    app.game_idx = 0;
    app.input_dir = String::from("saves/GAME");
    app.steam_id = String::from(OLD);
    let first = b"just some readable text for the heuristic".to_vec();
    app.process_files(Some(&first));
    assert!(matches!(app.status, Status::Processing));
}

#[test]
fn suffix_follows_the_mode() {
    let mut app = SaveDataApp::new();
    assert_eq!(app.get_suffix(), "_resigned");
    app.mode = Mode::Decrypt;
    assert_eq!(app.get_suffix(), "_decrypted");
    app.mode = Mode::Encrypt;
    assert_eq!(app.get_suffix(), "_encrypted");
}

#[test]
fn output_path_falls_back_when_the_input_has_no_name() {
    let mut app = SaveDataApp::new();
    app.input_dir = String::from("dir/");
    assert_eq!(app.get_final_output_path(), "dir/output_resigned");
}

#[test]
fn output_path_prefers_the_configured_folder() {
    let mut app = SaveDataApp::new();
    app.mode = Mode::Decrypt;
    app.input_dir = String::from("c/saves/GAME");
    app.output_dir = String::from("out");
    assert_eq!(app.get_final_output_path(), "out/GAME_decrypted");
}

#[test]
fn worker_messages_drive_the_terminal_status() {
    let mut app = SaveDataApp::new();
    app.update_status("COMPLETED: Successfully resigned 1 files");
    match &app.status {
        Status::Completed(m) => assert_eq!(m.as_str(), " Successfully resigned 1 files"),
        other => panic!("unexpected status: {:?}", other),
    }
    app.update_status("ERROR: Input path does not exist");
    match &app.status {
        Status::Error(m) => assert_eq!(m.as_str(), " Input path does not exist"),
        other => panic!("unexpected status: {:?}", other),
    }
    // Anything else leaves the status alone.
    app.update_status("progress tick");
    assert!(matches!(app.status, Status::Error(_)));
}

#[test]
fn error_messages_match_their_kinds() {
    assert_eq!(
        ErrorKind::PathNotFound.message(),
        "Input path does not exist"
    );
    assert_eq!(
        ErrorKind::NotADirectory.message(),
        "Input path must be a directory, not a file"
    );
    assert_eq!(
        ErrorKind::NoSupportedFiles.message(),
        "No supported save files (.bin, .dat, .dat.backup) found in the directory"
    );
    assert_eq!(ErrorKind::MalformedInput.message(), "Input data too short");
}
