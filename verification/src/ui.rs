//! The front end's state machine, as pure transitions.
//!
//! The interactive shell around the engine owns dialogs, the clipboard
//! and the file system; none of that happens here. A message goes into
//! [`MyApp::update`], which changes the state and answers with the one
//! [`UiAction`] the caller should perform. The caller reports the
//! outcome of an encryption, decryption or save through the `record_*`
//! methods, which set the status lines exactly as the contract states.

use vstd::prelude::*;

use crate::engine::Algorithms;

verus! {

/// A message delivered to the front end's state machine.
#[derive(Debug, Clone)]
pub enum MyAppMessage {
    AlgorithmSelected(Algorithms),
    StartEncryption,
    StartDecryption,
    FileSelected(Option<String>),
    OpenFileDialog,
    KeyInputChanged(String),
    NonceInputChanged(String),
    Decrypt,
    BackToMain,
    CopyKey,
    CopyNonce,
    DownloadFile,
}

/// The one piece of outside work a transition asks its caller to do.
#[derive(Debug, Clone)]
pub enum UiAction {
    /// Nothing to perform.
    Stay,
    /// Open a file picker and report the choice as `FileSelected`.
    PickFile,
    /// Put the carried text on the clipboard.
    CopyToClipboard(String),
    /// Encrypt the named file with the algorithm and report through
    /// `record_encryption_result`.
    RunEncryption(String, Algorithms),
    /// Decrypt the named file with the algorithm and the key and nonce
    /// strings, and report through `record_decryption_result`.
    RunDecryption(String, Algorithms, String, String),
    /// Offer the named processed file for saving and report through
    /// `record_save_result`.
    SaveFile(String),
}

/// The front end's state.
#[derive(Debug, Clone)]
pub struct MyApp {
    pub selected_algorithm: Option<Algorithms>,
    pub encryption_status: String,
    pub decryption_status: String,
    pub selected_file: Option<String>,
    pub key: String,
    pub nonce: String,
    pub show_key_nonce_input: bool,
    pub copy_status: String,
    pub processed_file: Option<String>,
}

/// [`MyApp`] as mathematical values: each string a character sequence.
pub struct MyAppState {
    pub selected_algorithm: Option<Algorithms>,
    pub encryption_status: Seq<char>,
    pub decryption_status: Seq<char>,
    pub selected_file: Option<Seq<char>>,
    pub key: Seq<char>,
    pub nonce: Seq<char>,
    pub show_key_nonce_input: bool,
    pub copy_status: Seq<char>,
    pub processed_file: Option<Seq<char>>,
}

/// An optional string as an optional character sequence.
pub open spec fn opt_view(o: Option<String>) -> Option<Seq<char>> {
    match o {
        Some(s) => Some(s@),
        None => None,
    }
}

impl View for MyApp {
    type V = MyAppState;

    open spec fn view(&self) -> MyAppState {
        MyAppState {
            selected_algorithm: self.selected_algorithm,
            encryption_status: self.encryption_status@,
            decryption_status: self.decryption_status@,
            selected_file: opt_view(self.selected_file),
            key: self.key@,
            nonce: self.nonce@,
            show_key_nonce_input: self.show_key_nonce_input,
            copy_status: self.copy_status@,
            processed_file: opt_view(self.processed_file),
        }
    }
}

/// What [`MyApp::update`] does for each message: how the state after the
/// call relates to the one before, and which action comes back.
pub open spec fn update_post(
    pre: MyAppState,
    post: MyAppState,
    msg: MyAppMessage,
    action: UiAction,
) -> bool {
    match msg {
        MyAppMessage::AlgorithmSelected(a) => post == (MyAppState {
            selected_algorithm: Some(a),
            ..pre
        }) && action is Stay,
        MyAppMessage::FileSelected(f) => post == (MyAppState {
            selected_file: opt_view(f),
            encryption_status: Seq::empty(),
            decryption_status: Seq::empty(),
            ..pre
        }) && action is Stay,
        MyAppMessage::OpenFileDialog => post == pre && action is PickFile,
        MyAppMessage::StartEncryption => {
            let started = MyAppState { encryption_status: "Encryption started"@, ..pre };
            match (pre.selected_file, pre.selected_algorithm) {
                (Some(file), Some(alg)) => post == started && (action matches
                UiAction::RunEncryption(p, a) && p@ == file && a == alg),
                _ => post == started && action is Stay,
            }
        },
        MyAppMessage::CopyKey => post == (MyAppState {
            copy_status: "Key copied to clipboard!"@,
            ..pre
        }) && (action matches UiAction::CopyToClipboard(s) && s@ == pre.key),
        MyAppMessage::CopyNonce => post == (MyAppState {
            copy_status: "Nonce copied to clipboard!"@,
            ..pre
        }) && (action matches UiAction::CopyToClipboard(s) && s@ == pre.nonce),
        MyAppMessage::BackToMain => post == (MyAppState {
            show_key_nonce_input: false,
            encryption_status: Seq::empty(),
            decryption_status: Seq::empty(),
            key: Seq::empty(),
            nonce: Seq::empty(),
            selected_file: None,
            copy_status: Seq::empty(),
            ..pre
        }) && action is Stay,
        MyAppMessage::StartDecryption => post == (MyAppState {
            show_key_nonce_input: true,
            encryption_status: Seq::empty(),
            key: Seq::empty(),
            nonce: Seq::empty(),
            selected_file: None,
            copy_status: Seq::empty(),
            ..pre
        }) && action is Stay,
        MyAppMessage::KeyInputChanged(k) => post == (MyAppState { key: k@, ..pre })
            && action is Stay,
        MyAppMessage::NonceInputChanged(n) => post == (MyAppState { nonce: n@, ..pre })
            && action is Stay,
        MyAppMessage::DownloadFile => {
            match pre.processed_file {
                Some(file) => post == pre && (action matches UiAction::SaveFile(s) && s@ == file),
                None => post == pre && action is Stay,
            }
        },
        MyAppMessage::Decrypt => {
            if pre.key.len() == 0 || pre.nonce.len() == 0 {
                post == (MyAppState {
                    decryption_status: "Please provide both key and nonce to decrypt"@,
                    ..pre
                }) && action is Stay
            } else {
                match (pre.selected_file, pre.selected_algorithm) {
                    (Some(file), Some(alg)) => post == pre && (action matches
                    UiAction::RunDecryption(p, a, k, n) && p@ == file && a == alg && k@ == pre.key
                        && n@ == pre.nonce),
                    _ => post == pre && action is Stay,
                }
            }
        },
    }
}

impl MyApp {
    /// A fresh front end: nothing selected, every status line empty.
    pub fn new() -> (r: MyApp)
        ensures
            r@ == (MyAppState {
                selected_algorithm: None,
                encryption_status: Seq::empty(),
                decryption_status: Seq::empty(),
                selected_file: None,
                key: Seq::empty(),
                nonce: Seq::empty(),
                show_key_nonce_input: false,
                copy_status: Seq::empty(),
                processed_file: None,
            }),
    {
        MyApp {
            selected_algorithm: None,
            encryption_status: String::new(),
            decryption_status: String::new(),
            selected_file: None,
            key: String::new(),
            nonce: String::new(),
            show_key_nonce_input: false,
            copy_status: String::new(),
            processed_file: None,
        }
    }

    /// The window title.
    pub fn title(&self) -> (r: String)
        ensures
            r@ == "File Encryption Tool"@,
    {
        String::from_str("File Encryption Tool")
    }

    /// Take one step of the state machine: apply `message` to the state
    /// and answer with the outside work this step asks for.
    pub fn update(&mut self, message: MyAppMessage) -> (action: UiAction)
        ensures
            update_post(old(self)@, final(self)@, message, action),
    {
        match message {
            MyAppMessage::AlgorithmSelected(algorithm) => {
                self.selected_algorithm = Some(algorithm);
                UiAction::Stay
            },
            MyAppMessage::FileSelected(file_path) => {
                self.selected_file = file_path;
                self.encryption_status = String::new();
                self.decryption_status = String::new();
                UiAction::Stay
            },
            MyAppMessage::OpenFileDialog => UiAction::PickFile,
            MyAppMessage::StartEncryption => {
                self.encryption_status = String::from_str("Encryption started");
                if let Some(selected_file) = &self.selected_file {
                    if let Some(algorithm) = self.selected_algorithm {
                        return UiAction::RunEncryption(selected_file.clone(), algorithm);
                    }
                }
                UiAction::Stay
            },
            MyAppMessage::CopyKey => {
                self.copy_status = String::from_str("Key copied to clipboard!");
                UiAction::CopyToClipboard(self.key.clone())
            },
            MyAppMessage::CopyNonce => {
                self.copy_status = String::from_str("Nonce copied to clipboard!");
                UiAction::CopyToClipboard(self.nonce.clone())
            },
            MyAppMessage::BackToMain => {
                self.show_key_nonce_input = false;
                self.encryption_status = String::new();
                self.decryption_status = String::new();
                self.key = String::new();
                self.nonce = String::new();
                self.selected_file = None;
                self.copy_status = String::new();
                UiAction::Stay
            },
            MyAppMessage::StartDecryption => {
                self.show_key_nonce_input = true;
                self.encryption_status = String::new();
                self.key = String::new();
                self.nonce = String::new();
                self.selected_file = None;
                self.copy_status = String::new();
                UiAction::Stay
            },
            MyAppMessage::KeyInputChanged(key) => {
                self.key = key;
                UiAction::Stay
            },
            MyAppMessage::NonceInputChanged(nonce) => {
                self.nonce = nonce;
                UiAction::Stay
            },
            MyAppMessage::DownloadFile => {
                if let Some(file_path) = &self.processed_file {
                    UiAction::SaveFile(file_path.clone())
                } else {
                    UiAction::Stay
                }
            },
            MyAppMessage::Decrypt => {
                if self.key.as_str().is_empty() || self.nonce.as_str().is_empty() {
                    self.decryption_status = String::from_str(
                        "Please provide both key and nonce to decrypt",
                    );
                    UiAction::Stay
                } else {
                    if let Some(selected_file) = &self.selected_file {
                        if let Some(algorithm) = self.selected_algorithm {
                            return UiAction::RunDecryption(
                                selected_file.clone(),
                                algorithm,
                                self.key.clone(),
                                self.nonce.clone(),
                            );
                        }
                    }
                    UiAction::Stay
                }
            },
        }
    }

    /// Record the outcome of a requested encryption: on success the
    /// credential pair goes on display and the artifact's path is held
    /// for saving; on failure the error lands in the status line.
    pub fn record_encryption_result(&mut self, result: Result<(String, String, String), String>)
        ensures
            result matches Ok(out) ==> final(self)@ == (MyAppState {
                key: out.0@,
                nonce: out.1@,
                processed_file: Some(out.2@),
                encryption_status: "File encrypted successfully"@,
                ..old(self)@
            }),
            result matches Err(e) ==> final(self)@ == (MyAppState {
                encryption_status: "Error encrypting file: "@ + e@,
                ..old(self)@
            }),
    {
        match result {
            Ok((key_hex, nonce_hex, output_path)) => {
                self.key = key_hex;
                self.nonce = nonce_hex;
                self.processed_file = Some(output_path);
                self.encryption_status = String::from_str("File encrypted successfully");
            },
            Err(e) => {
                self.encryption_status = String::from_str("Error encrypting file: ").concat(
                    e.as_str(),
                );
            },
        }
    }

    /// Record the outcome of a requested decryption: on success the
    /// plaintext's path is held for saving and the credential inputs
    /// close; on failure the error lands in the status line.
    pub fn record_decryption_result(&mut self, result: Result<String, String>)
        ensures
            result matches Ok(path) ==> final(self)@ == (MyAppState {
                processed_file: Some(path@),
                decryption_status: "File decrypted successfully"@,
                show_key_nonce_input: false,
                ..old(self)@
            }),
            result matches Err(e) ==> final(self)@ == (MyAppState {
                decryption_status: "Error decrypting file: "@ + e@,
                ..old(self)@
            }),
    {
        match result {
            Ok(output_path) => {
                self.processed_file = Some(output_path);
                self.decryption_status = String::from_str("File decrypted successfully");
                self.show_key_nonce_input = false;
            },
            Err(e) => {
                self.decryption_status = String::from_str("Error decrypting file: ").concat(
                    e.as_str(),
                );
            },
        }
    }

    /// Record the outcome of saving the processed file: once saved it is
    /// no longer offered; a failure lands in the copy status line.
    pub fn record_save_result(&mut self, result: Result<(), String>)
        ensures
            result is Ok ==> final(self)@ == (MyAppState {
                copy_status: "File saved successfully"@,
                processed_file: None,
                ..old(self)@
            }),
            result matches Err(e) ==> final(self)@ == (MyAppState {
                copy_status: "Error saving file: "@ + e@,
                ..old(self)@
            }),
    {
        match result {
            Ok(()) => {
                self.copy_status = String::from_str("File saved successfully");
                self.processed_file = None;
            },
            Err(e) => {
                self.copy_status = String::from_str("Error saving file: ").concat(e.as_str());
            },
        }
    }
}

} // verus!
