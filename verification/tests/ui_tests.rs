use encora::engine::Algorithms;
use encora::ui::MyApp;
use encora::ui::MyAppMessage;
use encora::ui::UiAction;

#[test]
fn fresh_state_is_blank() {
    let app = MyApp::new();
    assert!(app.selected_algorithm.is_none());
    assert_eq!(app.encryption_status, "");
    assert_eq!(app.decryption_status, "");
    assert!(app.selected_file.is_none());
    assert_eq!(app.key, "");
    assert_eq!(app.nonce, "");
    assert!(!app.show_key_nonce_input);
    assert_eq!(app.copy_status, "");
    assert!(app.processed_file.is_none());
    assert_eq!(app.title(), "File Encryption Tool");
}

#[test]
fn selecting_algorithm_and_file() {
    let mut app = MyApp::new();
    let action = app.update(MyAppMessage::AlgorithmSelected(Algorithms::AES));
    assert!(matches!(action, UiAction::Stay));
    assert_eq!(app.selected_algorithm, Some(Algorithms::AES));

    let action = app.update(MyAppMessage::OpenFileDialog);
    assert!(matches!(action, UiAction::PickFile));

    let action = app.update(MyAppMessage::FileSelected(Some(String::from("a.txt"))));
    assert!(matches!(action, UiAction::Stay));
    assert_eq!(app.selected_file.as_deref(), Some("a.txt"));
}

#[test]
fn encryption_needs_file_and_algorithm() {
    let mut app = MyApp::new();
    let action = app.update(MyAppMessage::StartEncryption);
    assert!(matches!(action, UiAction::Stay));
    assert_eq!(app.encryption_status, "Encryption started");

    app.update(MyAppMessage::AlgorithmSelected(Algorithms::ChaCha20));
    app.update(MyAppMessage::FileSelected(Some(String::from("a.txt"))));
    let action = app.update(MyAppMessage::StartEncryption);
    match action {
        UiAction::RunEncryption(path, alg) => {
            assert_eq!(path, "a.txt");
            assert_eq!(alg, Algorithms::ChaCha20);
        }
        other => panic!("expected an encryption request, got {other:?}"),
    }
}

#[test]
fn encryption_outcome_lands_in_state() {
    let mut app = MyApp::new();
    app.record_encryption_result(Ok((
        String::from("aa"),
        String::from("bb"),
        String::from("testings/a.txt_encrypted.txt"),
    )));
    assert_eq!(app.key, "aa");
    assert_eq!(app.nonce, "bb");
    assert_eq!(app.processed_file.as_deref(), Some("testings/a.txt_encrypted.txt"));
    assert_eq!(app.encryption_status, "File encrypted successfully");

    app.record_encryption_result(Err(String::from("permission denied")));
    assert_eq!(app.encryption_status, "Error encrypting file: permission denied");
}

#[test]
fn copying_credentials() {
    let mut app = MyApp::new();
    app.update(MyAppMessage::KeyInputChanged(String::from("deadbeef")));
    let action = app.update(MyAppMessage::CopyKey);
    match action {
        UiAction::CopyToClipboard(text) => assert_eq!(text, "deadbeef"),
        other => panic!("expected a clipboard request, got {other:?}"),
    }
    assert_eq!(app.copy_status, "Key copied to clipboard!");

    app.update(MyAppMessage::NonceInputChanged(String::from("0123")));
    let action = app.update(MyAppMessage::CopyNonce);
    match action {
        UiAction::CopyToClipboard(text) => assert_eq!(text, "0123"),
        other => panic!("expected a clipboard request, got {other:?}"),
    }
    assert_eq!(app.copy_status, "Nonce copied to clipboard!");
}

#[test]
fn decrypt_requires_both_credentials() {
    let mut app = MyApp::new();
    app.update(MyAppMessage::AlgorithmSelected(Algorithms::AES));
    app.update(MyAppMessage::FileSelected(Some(String::from("a.enc"))));
    let action = app.update(MyAppMessage::Decrypt);
    assert!(matches!(action, UiAction::Stay));
    assert_eq!(app.decryption_status, "Please provide both key and nonce to decrypt");

    app.update(MyAppMessage::KeyInputChanged(String::from("aa")));
    app.update(MyAppMessage::NonceInputChanged(String::from("bb")));
    let action = app.update(MyAppMessage::Decrypt);
    match action {
        UiAction::RunDecryption(path, alg, key, nonce) => {
            assert_eq!(path, "a.enc");
            assert_eq!(alg, Algorithms::AES);
            assert_eq!(key, "aa");
            assert_eq!(nonce, "bb");
        }
        other => panic!("expected a decryption request, got {other:?}"),
    }
}

#[test]
fn decryption_outcome_lands_in_state() {
    let mut app = MyApp::new();
    app.update(MyAppMessage::StartDecryption);
    assert!(app.show_key_nonce_input);
    app.record_decryption_result(Ok(String::from("testings/a_decrypted.txt")));
    assert!(!app.show_key_nonce_input);
    assert_eq!(app.processed_file.as_deref(), Some("testings/a_decrypted.txt"));
    assert_eq!(app.decryption_status, "File decrypted successfully");

    app.record_decryption_result(Err(String::from("authentication failed")));
    assert_eq!(app.decryption_status, "Error decrypting file: authentication failed");
}

#[test]
fn download_offers_processed_file_once() {
    let mut app = MyApp::new();
    let action = app.update(MyAppMessage::DownloadFile);
    assert!(matches!(action, UiAction::Stay));

    app.record_encryption_result(Ok((
        String::from("aa"),
        String::from("bb"),
        String::from("testings/out"),
    )));
    let action = app.update(MyAppMessage::DownloadFile);
    match action {
        UiAction::SaveFile(path) => assert_eq!(path, "testings/out"),
        other => panic!("expected a save request, got {other:?}"),
    }
    app.record_save_result(Ok(()));
    assert_eq!(app.copy_status, "File saved successfully");
    assert!(app.processed_file.is_none());

    app.record_save_result(Err(String::from("disk full")));
    assert_eq!(app.copy_status, "Error saving file: disk full");
}

#[test]
fn back_to_main_clears_session() {
    let mut app = MyApp::new();
    app.update(MyAppMessage::AlgorithmSelected(Algorithms::AES));
    app.update(MyAppMessage::FileSelected(Some(String::from("a.txt"))));
    app.update(MyAppMessage::KeyInputChanged(String::from("aa")));
    app.update(MyAppMessage::NonceInputChanged(String::from("bb")));
    app.update(MyAppMessage::StartDecryption);
    app.update(MyAppMessage::BackToMain);
    assert!(!app.show_key_nonce_input);
    assert_eq!(app.encryption_status, "");
    assert_eq!(app.decryption_status, "");
    assert_eq!(app.key, "");
    assert_eq!(app.nonce, "");
    assert!(app.selected_file.is_none());
    assert_eq!(app.copy_status, "");
    // The chosen algorithm survives a return to the main screen.
    assert_eq!(app.selected_algorithm, Some(Algorithms::AES));
}
