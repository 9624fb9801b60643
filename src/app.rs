//! The dashboard's state, and what one keystroke does to it.
use vstd::prelude::*;

use crate::selection::{selection_in_range, Selection};
use crate::text::{pop_char, push_char, push_str, trim_text, trimmed};

verus! {

/// The largest number of epochs an upload may ask for.
pub const MAX_EPOCHS: u32 = 200;

/// The smallest number of epochs an upload may ask for.
pub const MIN_EPOCHS: u32 = 1;

/// The screen shown; exactly one at a time.
#[derive(Clone, Copy, Debug, PartialEq, Eq, Structural)]
pub enum CurrentScreen {
    Splash,
    Dashboard,
    Uploader,
    Migrator,
    SharderAndEpochExtender,
}

/// A key that was pressed.
#[derive(Clone, Copy, Debug, PartialEq, Eq, Structural)]
pub enum Key {
    Char(char),
    Enter,
    Esc,
    Up,
    Down,
    Backspace,
    Other,
}

/// What the caller is asked to do after a keystroke. The operations take
/// their arguments from the state as it stands after the keystroke.
#[derive(Clone, Copy, Debug, PartialEq, Eq, Structural)]
pub enum Action {
    /// Nothing beyond drawing the new state.
    Nothing,
    /// Leave the event loop.
    Quit,
    /// Put the identifier of the blob at this row on the clipboard.
    CopyBlobId(usize),
    /// Upload `filename` for `epochs` epochs, then call `finish_upload`.
    Upload,
    /// Migrate with `pinata_api_key`, then call `finish_migration`.
    Migrate,
    /// Read the clipboard, then call `paste_api_key`.
    PasteApiKey,
    /// Shard `filename` with `shard_pass`, then call `finish_shard`.
    Shard,
    /// Extend the epochs of `extender_blob_id`, then call `finish_extend`.
    ExtendEpoch,
    /// Read the clipboard, then call `paste_blob_id`.
    PasteBlobId,
}

/// One row of the blob list.
#[derive(Clone, Debug)]
pub struct BlobInfo {
    pub blob_id: String,
}

/// The whole state of the dashboard.
pub struct App {
    pub sui_active_address: String,
    pub sui_active_env: String,
    pub walrus_system_info: String,
    pub current_screen: CurrentScreen,
    pub should_quit: bool,
    pub is_editing: bool,
    pub selection: Selection,
    pub user_blobs: Vec<BlobInfo>,
    pub filename: String,
    pub epochs: u32,
    pub file_upload_status: String,
    pub pinata_api_key: String,
    pub migration_status: String,
    pub shard_pass: String,
    pub sharder_status: String,
    pub extender_blob_id: String,
    pub extender_status: String,
}

/// The state of the dashboard as values.
pub struct AppModel {
    pub address: Seq<char>,
    pub env: Seq<char>,
    pub system_info: Seq<char>,
    pub screen: CurrentScreen,
    pub should_quit: bool,
    pub is_editing: bool,
    pub selection: Selection,
    pub items: Seq<BlobInfo>,
    pub filename: Seq<char>,
    pub epochs: u32,
    pub upload_status: Seq<char>,
    pub api_key: Seq<char>,
    pub migration_status: Seq<char>,
    pub shard_pass: Seq<char>,
    pub sharder_status: Seq<char>,
    pub extender_blob_id: Seq<char>,
    pub extender_status: Seq<char>,
}

impl View for App {
    type V = AppModel;

    open spec fn view(&self) -> AppModel {
        AppModel {
            address: self.sui_active_address@,
            env: self.sui_active_env@,
            system_info: self.walrus_system_info@,
            screen: self.current_screen,
            should_quit: self.should_quit,
            is_editing: self.is_editing,
            selection: self.selection,
            items: self.user_blobs@,
            filename: self.filename@,
            epochs: self.epochs,
            upload_status: self.file_upload_status@,
            api_key: self.pinata_api_key@,
            migration_status: self.migration_status@,
            shard_pass: self.shard_pass@,
            sharder_status: self.sharder_status@,
            extender_blob_id: self.extender_blob_id@,
            extender_status: self.extender_status@,
        }
    }
}

impl AppModel {
    /// The epoch count is in range, and the selection names a row of the
    /// list (or none) with the scroll position following it.
    pub open spec fn wf(self) -> bool {
        &&& MIN_EPOCHS <= self.epochs <= MAX_EPOCHS
        &&& self.items.len() <= usize::MAX
        &&& selection_in_range(self.selection.selected, self.items.len())
        &&& self.selection.synced()
    }
}

/// The screen that a numbered shortcut key selects.
pub open spec fn shortcut_screen(k: Key) -> Option<CurrentScreen> {
    if k == Key::Char('1') {
        Some(CurrentScreen::Dashboard)
    } else if k == Key::Char('2') {
        Some(CurrentScreen::Uploader)
    } else if k == Key::Char('3') {
        Some(CurrentScreen::Migrator)
    } else if k == Key::Char('4') {
        Some(CurrentScreen::SharderAndEpochExtender)
    } else {
        None
    }
}

/// The key is the letter `lower` in either case.
pub open spec fn is_letter(k: Key, lower: char, upper: char) -> bool {
    k == Key::Char(lower) || k == Key::Char(upper)
}

/// The password that the quick-shard key sets.
pub open spec fn quick_shard_password() -> Seq<char> {
    "password"@
}

pub open spec fn uploading_message() -> Seq<char> {
    "Uploading file..."@
}

pub open spec fn migrating_message() -> Seq<char> {
    "Migrating files..."@
}

pub open spec fn sharding_message() -> Seq<char> {
    "Sharding started..."@
}

pub open spec fn extending_message() -> Seq<char> {
    "Extending blob epochs..."@
}

/// What a keystroke does on the splash screen.
pub open spec fn splash_step(m: AppModel, k: Key) -> (AppModel, Action) {
    if k == Key::Enter {
        (
            AppModel {
                screen: CurrentScreen::Dashboard,
                selection: Selection::started(m.items.len()),
                ..m
            },
            Action::Nothing,
        )
    } else {
        (m, Action::Nothing)
    }
}

/// What a keystroke does on the dashboard.
pub open spec fn dashboard_step(m: AppModel, k: Key) -> (AppModel, Action) {
    if is_letter(k, 'c', 'C') {
        match m.selection.selected {
            Some(i) => if i < m.items.len() {
                (m, Action::CopyBlobId(i))
            } else {
                (m, Action::Nothing)
            },
            None => (m, Action::Nothing),
        }
    } else if k == Key::Up {
        (AppModel { selection: m.selection.retreated(m.items.len()), ..m }, Action::Nothing)
    } else if k == Key::Down {
        (AppModel { selection: m.selection.advanced(m.items.len()), ..m }, Action::Nothing)
    } else {
        (m, Action::Nothing)
    }
}

/// The file name after a backspace while editing.
pub open spec fn erased(s: Seq<char>) -> Seq<char> {
    if s.len() > 0 {
        s.drop_last()
    } else {
        s
    }
}

/// What a keystroke does on the uploader.
pub open spec fn uploader_step(m: AppModel, k: Key) -> (AppModel, Action) {
    if k == Key::Up || k == Key::Char('+') {
        (
            AppModel {
                epochs: if m.epochs < MAX_EPOCHS {
                    (m.epochs + 1) as u32
                } else {
                    m.epochs
                },
                ..m
            },
            Action::Nothing,
        )
    } else if k == Key::Down || k == Key::Char('-') {
        (
            AppModel {
                epochs: if m.epochs > MIN_EPOCHS {
                    (m.epochs - 1) as u32
                } else {
                    m.epochs
                },
                ..m
            },
            Action::Nothing,
        )
    } else if k == Key::Enter {
        (AppModel { upload_status: uploading_message(), ..m }, Action::Upload)
    } else if m.is_editing {
        match k {
            Key::Char(c) => (AppModel { filename: m.filename.push(c), ..m }, Action::Nothing),
            Key::Backspace => (AppModel { filename: erased(m.filename), ..m }, Action::Nothing),
            _ => (m, Action::Nothing),
        }
    } else {
        (m, Action::Nothing)
    }
}

/// What a keystroke does on the migrator.
pub open spec fn migrator_step(m: AppModel, k: Key) -> (AppModel, Action) {
    if is_letter(k, 'p', 'P') {
        (m, Action::PasteApiKey)
    } else if k == Key::Char('x') {
        (AppModel { api_key: Seq::empty(), ..m }, Action::Nothing)
    } else if is_letter(k, 'm', 'M') {
        (AppModel { migration_status: migrating_message(), ..m }, Action::Migrate)
    } else {
        (m, Action::Nothing)
    }
}

/// What a keystroke does on the sharder and epoch extender. While editing,
/// every character goes to the file name, the action letters included.
pub open spec fn sharder_step(m: AppModel, k: Key) -> (AppModel, Action) {
    if m.is_editing {
        match k {
            Key::Char(c) => (AppModel { filename: m.filename.push(c), ..m }, Action::Nothing),
            Key::Backspace => (AppModel { filename: erased(m.filename), ..m }, Action::Nothing),
            _ => (m, Action::Nothing),
        }
    } else if is_letter(k, 'k', 'K') {
        (AppModel { sharder_status: sharding_message(), ..m }, Action::Shard)
    } else if is_letter(k, 'y', 'Y') {
        (
            AppModel {
                shard_pass: quick_shard_password(),
                sharder_status: sharding_message(),
                ..m
            },
            Action::Shard,
        )
    } else if is_letter(k, 't', 'T') {
        (AppModel { extender_status: extending_message(), ..m }, Action::ExtendEpoch)
    } else if is_letter(k, 'p', 'P') {
        (m, Action::PasteBlobId)
    } else {
        (m, Action::Nothing)
    }
}

/// What one keystroke does: the new state and the action asked of the caller.
///
/// While a quit waits for confirmation only `y` (quit) and `n` (stay) count.
/// Otherwise Escape leaves edit mode, `e` enters it, `q` asks to quit
/// (neither of these two while editing), the digits 1 to 4 switch screens
/// and leave edit mode, and any other key goes to the current screen.
pub open spec fn step(m: AppModel, k: Key) -> (AppModel, Action) {
    if m.should_quit {
        if k == Key::Char('y') {
            (m, Action::Quit)
        } else if k == Key::Char('n') {
            (AppModel { should_quit: false, ..m }, Action::Nothing)
        } else {
            (m, Action::Nothing)
        }
    } else if k == Key::Esc {
        (AppModel { is_editing: false, ..m }, Action::Nothing)
    } else if is_letter(k, 'e', 'E') && !m.is_editing {
        (AppModel { is_editing: true, ..m }, Action::Nothing)
    } else if k == Key::Char('q') && !m.is_editing {
        (AppModel { should_quit: true, ..m }, Action::Nothing)
    } else if shortcut_screen(k) is Some {
        (
            AppModel { screen: shortcut_screen(k)->0, is_editing: false, ..m },
            Action::Nothing,
        )
    } else {
        match m.screen {
            CurrentScreen::Splash => splash_step(m, k),
            CurrentScreen::Dashboard => dashboard_step(m, k),
            CurrentScreen::Uploader => uploader_step(m, k),
            CurrentScreen::Migrator => migrator_step(m, k),
            CurrentScreen::SharderAndEpochExtender => sharder_step(m, k),
        }
    }
}

/// The state after the blob list was replaced by `items`; the selection is
/// kept unless its row no longer exists.
pub open spec fn with_items(m: AppModel, items: Seq<BlobInfo>) -> AppModel {
    AppModel { items, selection: m.selection.kept(items.len()), ..m }
}

/// The state after a re-fetch of the list, which may have failed (`None`).
pub open spec fn with_refreshed(m: AppModel, refreshed: Option<Vec<BlobInfo>>) -> AppModel {
    match refreshed {
        Some(v) => with_items(m, v@),
        None => m,
    }
}

/// The status shown after a successful operation whose re-fetch of the
/// list succeeded or not.
pub open spec fn success_message(head: Seq<char>, refreshed: bool) -> Seq<char> {
    if refreshed {
        head
    } else {
        head + " (blob list not refreshed)"@
    }
}

pub open spec fn upload_success_message(id: Seq<char>, refreshed: bool) -> Seq<char> {
    success_message("File uploaded successfully! Blob ID "@ + id, refreshed)
}

pub open spec fn upload_failure_message(error: Seq<char>) -> Seq<char> {
    "File upload failed: "@ + error
}

pub open spec fn migration_success_message(refreshed: bool) -> Seq<char> {
    success_message("Migration successful"@, refreshed)
}

pub open spec fn migration_failure_message(error: Seq<char>) -> Seq<char> {
    "Migration failed: "@ + error
}

pub open spec fn clipboard_failure_message() -> Seq<char> {
    "Clipboard unavailable"@
}

/// The key is the letter `lower` in either case.
fn key_is_letter(k: Key, lower: char, upper: char) -> (r: bool)
    ensures
        r == is_letter(k, lower, upper),
{
    k == Key::Char(lower) || k == Key::Char(upper)
}

impl App {
    /// A fresh session on the splash screen: no rows and none selected,
    /// empty text fields, one epoch.
    pub fn new() -> (r: App)
        ensures
            r@.screen == CurrentScreen::Splash,
            !r@.should_quit,
            !r@.is_editing,
            r@.selection == Selection::of(None),
            r@.items == Seq::<BlobInfo>::empty(),
            r@.epochs == MIN_EPOCHS,
            r@.address.len() == 0,
            r@.env.len() == 0,
            r@.system_info.len() == 0,
            r@.filename.len() == 0,
            r@.upload_status.len() == 0,
            r@.api_key.len() == 0,
            r@.migration_status.len() == 0,
            r@.shard_pass.len() == 0,
            r@.sharder_status.len() == 0,
            r@.extender_blob_id.len() == 0,
            r@.extender_status.len() == 0,
            r@.wf(),
    {
        App {
            sui_active_address: String::new(),
            sui_active_env: String::new(),
            walrus_system_info: String::new(),
            current_screen: CurrentScreen::Splash,
            should_quit: false,
            is_editing: false,
            selection: Selection::new(),
            user_blobs: Vec::new(),
            filename: String::new(),
            epochs: MIN_EPOCHS,
            file_upload_status: String::new(),
            pinata_api_key: String::new(),
            migration_status: String::new(),
            shard_pass: String::new(),
            sharder_status: String::new(),
            extender_blob_id: String::new(),
            extender_status: String::new(),
        }
    }

    /// Selects the next row of the blob list, wrapping to the first.
    pub fn next_row(&mut self)
        ensures
            final(self)@ == (AppModel {
                selection: old(self)@.selection.advanced(old(self)@.items.len()),
                ..old(self)@
            }),
    {
        self.selection.advance(self.user_blobs.len());
    }

    /// Selects the previous row of the blob list, wrapping to the last.
    pub fn prev_row(&mut self)
        ensures
            final(self)@ == (AppModel {
                selection: old(self)@.selection.retreated(old(self)@.items.len()),
                ..old(self)@
            }),
    {
        self.selection.retreat(self.user_blobs.len());
    }

    fn erase_last(&mut self)
        ensures
            final(self)@ == (AppModel { filename: erased(old(self)@.filename), ..old(self)@ }),
    {
        let _ = pop_char(&mut self.filename);
    }

    fn on_splash(&mut self, key: Key) -> (r: Action)
        ensures
            (final(self)@, r) == splash_step(old(self)@, key),
    {
        if key == Key::Enter {
            self.current_screen = CurrentScreen::Dashboard;
            self.selection.start(self.user_blobs.len());
        }
        Action::Nothing
    }

    fn on_dashboard(&mut self, key: Key) -> (r: Action)
        ensures
            (final(self)@, r) == dashboard_step(old(self)@, key),
    {
        if key_is_letter(key, 'c', 'C') {
            match self.selection.selected {
                Some(i) => if i < self.user_blobs.len() {
                    Action::CopyBlobId(i)
                } else {
                    Action::Nothing
                },
                None => Action::Nothing,
            }
        } else if key == Key::Up {
            self.prev_row();
            Action::Nothing
        } else if key == Key::Down {
            self.next_row();
            Action::Nothing
        } else {
            Action::Nothing
        }
    }

    fn on_uploader(&mut self, key: Key) -> (r: Action)
        ensures
            (final(self)@, r) == uploader_step(old(self)@, key),
    {
        if key == Key::Up || key == Key::Char('+') {
            if self.epochs < MAX_EPOCHS {
                self.epochs = self.epochs + 1;
            }
            Action::Nothing
        } else if key == Key::Down || key == Key::Char('-') {
            if self.epochs > MIN_EPOCHS {
                self.epochs = self.epochs - 1;
            }
            Action::Nothing
        } else if key == Key::Enter {
            self.file_upload_status = "Uploading file...".to_owned();
            Action::Upload
        } else if self.is_editing {
            match key {
                Key::Char(c) => push_char(&mut self.filename, c),
                Key::Backspace => self.erase_last(),
                _ => {},
            }
            Action::Nothing
        } else {
            Action::Nothing
        }
    }

    fn on_migrator(&mut self, key: Key) -> (r: Action)
        ensures
            (final(self)@, r) == migrator_step(old(self)@, key),
    {
        if key_is_letter(key, 'p', 'P') {
            Action::PasteApiKey
        } else if key == Key::Char('x') {
            self.pinata_api_key = String::new();
            Action::Nothing
        } else if key_is_letter(key, 'm', 'M') {
            self.migration_status = "Migrating files...".to_owned();
            Action::Migrate
        } else {
            Action::Nothing
        }
    }

    fn on_sharder(&mut self, key: Key) -> (r: Action)
        ensures
            (final(self)@, r) == sharder_step(old(self)@, key),
    {
        if self.is_editing {
            match key {
                Key::Char(c) => push_char(&mut self.filename, c),
                Key::Backspace => self.erase_last(),
                _ => {},
            }
            Action::Nothing
        } else if key_is_letter(key, 'k', 'K') {
            self.sharder_status = "Sharding started...".to_owned();
            Action::Shard
        } else if key_is_letter(key, 'y', 'Y') {
            self.shard_pass = "password".to_owned();
            self.sharder_status = "Sharding started...".to_owned();
            Action::Shard
        } else if key_is_letter(key, 't', 'T') {
            self.extender_status = "Extending blob epochs...".to_owned();
            Action::ExtendEpoch
        } else if key_is_letter(key, 'p', 'P') {
            Action::PasteBlobId
        } else {
            Action::Nothing
        }
    }

    /// Handles one keystroke: updates the state as `step` says and returns
    /// the action asked of the caller. A well-formed state stays well formed.
    pub fn handle_key(&mut self, key: Key) -> (r: Action)
        ensures
            (final(self)@, r) == step(old(self)@, key),
            old(self)@.wf() ==> final(self)@.wf(),
    {
        let r = self.dispatch(key);
        proof {
            if old(self)@.wf() {
                lemma_step_keeps_wf(old(self)@, key);
            }
        }
        r
    }

    fn dispatch(&mut self, key: Key) -> (r: Action)
        ensures
            (final(self)@, r) == step(old(self)@, key),
    {
        if self.should_quit {
            if key == Key::Char('y') {
                Action::Quit
            } else {
                if key == Key::Char('n') {
                    self.should_quit = false;
                }
                Action::Nothing
            }
        } else if key == Key::Esc {
            self.is_editing = false;
            Action::Nothing
        } else if key_is_letter(key, 'e', 'E') && !self.is_editing {
            self.is_editing = true;
            Action::Nothing
        } else if key == Key::Char('q') && !self.is_editing {
            self.should_quit = true;
            Action::Nothing
        } else if key == Key::Char('1') {
            self.switch_to(CurrentScreen::Dashboard)
        } else if key == Key::Char('2') {
            self.switch_to(CurrentScreen::Uploader)
        } else if key == Key::Char('3') {
            self.switch_to(CurrentScreen::Migrator)
        } else if key == Key::Char('4') {
            self.switch_to(CurrentScreen::SharderAndEpochExtender)
        } else {
            match self.current_screen {
                CurrentScreen::Splash => self.on_splash(key),
                CurrentScreen::Dashboard => self.on_dashboard(key),
                CurrentScreen::Uploader => self.on_uploader(key),
                CurrentScreen::Migrator => self.on_migrator(key),
                CurrentScreen::SharderAndEpochExtender => self.on_sharder(key),
            }
        }
    }

    /// Shows the active network, the active account and the storage system's
    /// description, each as the collaborator printed it, trimmed.
    pub fn set_session_info(&mut self, env: &str, address: &str, system_info: &str)
        ensures
            final(self)@ == (AppModel {
                env: trimmed(env@),
                address: trimmed(address@),
                system_info: trimmed(system_info@),
                ..old(self)@
            }),
    {
        self.sui_active_env = trim_text(env);
        self.sui_active_address = trim_text(address);
        self.walrus_system_info = trim_text(system_info);
    }

    fn note_refresh(msg: &mut String, refreshed: bool)
        ensures
            final(msg)@ == success_message(old(msg)@, refreshed),
    {
        if !refreshed {
            push_str(msg, " (blob list not refreshed)");
        }
    }

    fn apply_refresh(&mut self, refreshed: Option<Vec<BlobInfo>>)
        ensures
            final(self)@ == with_refreshed(old(self)@, refreshed),
            old(self)@.wf() ==> final(self)@.wf(),
    {
        if let Some(items) = refreshed {
            self.replace_items(items);
        }
    }

    /// Replaces the blob list; the selection is kept unless its row no
    /// longer exists.
    pub fn replace_items(&mut self, items: Vec<BlobInfo>)
        ensures
            final(self)@ == with_items(old(self)@, items@),
            old(self)@.wf() ==> final(self)@.wf(),
    {
        self.user_blobs = items;
        self.selection.reset(self.user_blobs.len());
    }

    /// Takes in the outcome of an upload: the new blob's identifier or the
    /// error's text. After a success the caller re-fetches the list and
    /// passes it in `refreshed`, or `None` where that failed; the list is
    /// then replaced, or kept with a note in the status.
    pub fn finish_upload(&mut self, outcome: Result<String, String>, refreshed: Option<Vec<BlobInfo>>)
        ensures
            outcome is Ok ==> final(self)@ == (AppModel {
                upload_status: upload_success_message(outcome->Ok_0@, refreshed is Some),
                ..with_refreshed(old(self)@, refreshed)
            }),
            outcome is Err ==> final(self)@ == (AppModel {
                upload_status: upload_failure_message(outcome->Err_0@),
                ..old(self)@
            }),
            old(self)@.wf() ==> final(self)@.wf(),
    {
        match outcome {
            Ok(id) => {
                let mut msg = "File uploaded successfully! Blob ID ".to_owned();
                push_str(&mut msg, id.as_str());
                App::note_refresh(&mut msg, refreshed.is_some());
                self.apply_refresh(refreshed);
                self.file_upload_status = msg;
            },
            Err(e) => {
                let mut msg = "File upload failed: ".to_owned();
                push_str(&mut msg, e.as_str());
                self.file_upload_status = msg;
            },
        }
    }

    /// Takes in the outcome of a migration: success or the error's text.
    /// After a success the caller re-fetches the list and passes it in
    /// `refreshed`, or `None` where that failed.
    pub fn finish_migration(&mut self, outcome: Result<(), String>, refreshed: Option<Vec<BlobInfo>>)
        ensures
            outcome is Ok ==> final(self)@ == (AppModel {
                migration_status: migration_success_message(refreshed is Some),
                ..with_refreshed(old(self)@, refreshed)
            }),
            outcome is Err ==> final(self)@ == (AppModel {
                migration_status: migration_failure_message(outcome->Err_0@),
                ..old(self)@
            }),
            old(self)@.wf() ==> final(self)@.wf(),
    {
        match outcome {
            Ok(()) => {
                let mut msg = "Migration successful".to_owned();
                App::note_refresh(&mut msg, refreshed.is_some());
                self.apply_refresh(refreshed);
                self.migration_status = msg;
            },
            Err(e) => {
                let mut msg = "Migration failed: ".to_owned();
                push_str(&mut msg, e.as_str());
                self.migration_status = msg;
            },
        }
    }

    /// Takes in what the clipboard held, or `None` where it could not be
    /// read; then the key is left as it was and the status says so.
    pub fn paste_api_key(&mut self, pasted: Option<String>)
        ensures
            pasted is Some ==> final(self)@ == (AppModel { api_key: pasted->0@, ..old(self)@ }),
            pasted is None ==> final(self)@ == (AppModel {
                migration_status: clipboard_failure_message(),
                ..old(self)@
            }),
    {
        match pasted {
            Some(text) => self.pinata_api_key = text,
            None => self.migration_status = "Clipboard unavailable".to_owned(),
        }
    }

    /// Takes in what the clipboard held, or `None` where it could not be
    /// read; then the blob id is left as it was and the status says so.
    pub fn paste_blob_id(&mut self, pasted: Option<String>)
        ensures
            pasted is Some ==> final(self)@ == (AppModel {
                extender_blob_id: pasted->0@,
                ..old(self)@
            }),
            pasted is None ==> final(self)@ == (AppModel {
                extender_status: clipboard_failure_message(),
                ..old(self)@
            }),
    {
        match pasted {
            Some(text) => self.extender_blob_id = text,
            None => self.extender_status = "Clipboard unavailable".to_owned(),
        }
    }

    /// Shows the outcome that the shard operation described.
    pub fn finish_shard(&mut self, status: String)
        ensures
            final(self)@ == (AppModel { sharder_status: status@, ..old(self)@ }),
    {
        self.sharder_status = status;
    }

    /// Shows the outcome that the epoch extension described.
    pub fn finish_extend(&mut self, status: String)
        ensures
            final(self)@ == (AppModel { extender_status: status@, ..old(self)@ }),
    {
        self.extender_status = status;
    }

    fn switch_to(&mut self, screen: CurrentScreen) -> (r: Action)
        ensures
            final(self)@ == (AppModel { screen, is_editing: false, ..old(self)@ }),
            r == Action::Nothing,
    {
        self.current_screen = screen;
        self.is_editing = false;
        Action::Nothing
    }
}

/// A keystroke keeps a well-formed state well formed.
pub proof fn lemma_step_keeps_wf(m: AppModel, k: Key)
    requires
        m.wf(),
    ensures
        step(m, k).0.wf(),
{
}

} // verus!
