//! What each key does in each mode.

use vstd::prelude::*;
use crate::nav::{App, AppView, Command, CommandView, InputMode};
use crate::picker::PickerView;
use crate::text::{is_blank, join2, lemma_trimmed_empty, trim_text, trimmed};

verus! {

/// A key of the keyboard, as far as the interaction tells keys apart.
#[derive(Clone, Copy, Debug, PartialEq, Eq, Structural)]
pub enum Key {
    Char(char),
    Enter,
    Esc,
    Backspace,
    Delete,
    Left,
    Right,
    Up,
    Down,
    /// Any other key.
    Other,
}

/// A key that was pressed, and whether the control key was held with it.
#[derive(Clone, Copy, Debug, PartialEq, Eq, Structural)]
pub struct KeyPress {
    pub key: Key,
    pub control: bool,
}

/// The state after a key and the work that the key asks for.
pub struct Step {
    pub state: AppView,
    pub command: CommandView,
}

/// A step that asks for no work.
pub open spec fn quiet(state: AppView) -> Step {
    Step { state, command: CommandView::Nothing }
}

/// A step that asks for the listing to be fetched anew where `reload`
/// holds.
pub open spec fn reloading(state: AppView, reload: bool) -> Step {
    Step { state, command: if reload { CommandView::Reload } else { CommandView::Nothing } }
}

/// The directory that a typed text names: none for a text that holds
/// nothing but white space, else the text without the white space around
/// it.
pub open spec fn destination_of(input: Seq<char>) -> Option<Seq<char>> {
    if is_blank(input) {
        None
    } else {
        Some(trimmed(input))
    }
}

impl AppView {
    /// A key while browsing.
    pub open spec fn normal_key(self, key: KeyPress) -> Step {
        match key.key {
            Key::Char('q') => if self.can_quit() {
                Step { state: self, command: CommandView::Quit }
            } else {
                quiet(self.start_quit_confirm())
            },
            Key::Char('r') => Step { state: self, command: CommandView::Reload },
            Key::Char('b') | Key::Left => reloading(self.go_back(), self.go_back_reloads()),
            Key::Char('d') => quiet(
                self.start_input(InputMode::DownloadDestination, "Download destination (dir)"@),
            ),
            Key::Char('u') => Step { state: self, command: CommandView::OpenPicker },
            Key::Char('x') | Key::Delete => quiet(self.start_delete_confirm()),
            Key::Up => quiet(self.select_previous()),
            Key::Down => quiet(self.select_next()),
            Key::Enter | Key::Right => reloading(self.open_selected(), self.open_reloads()),
            _ => quiet(self),
        }
    }

    /// The typed text committed: back to browsing, and the download of the
    /// highlighted row requested. A refusal shows in the status text.
    /// While a download runs the status line shows its progress; the
    /// status text is set to `Download completed` at once.
    pub open spec fn commit_input(self) -> Step {
        let cleared = AppView { input: Seq::empty(), input_mode: InputMode::Normal, ..self };
        if self.input_mode == InputMode::DownloadDestination {
            if cleared.download_refusal() is None {
                Step {
                    state: cleared.download_selected().with_status("Download completed"@),
                    command: CommandView::Download {
                        file_id: cleared.highlighted()->0.id,
                        destination: destination_of(self.input),
                    },
                }
            } else {
                quiet(cleared.download_selected())
            }
        } else {
            quiet(cleared)
        }
    }

    /// A key while a text is typed.
    pub open spec fn input_key(self, key: KeyPress) -> Step {
        match key.key {
            Key::Esc => quiet(self.cancel_input("Cancelled"@)),
            Key::Enter => self.commit_input(),
            Key::Backspace => quiet(
                AppView {
                    input: if self.input.len() > 0 {
                        self.input.drop_last()
                    } else {
                        self.input
                    },
                    ..self
                },
            ),
            Key::Char(ch) => if key.control {
                quiet(self)
            } else {
                quiet(AppView { input: self.input.push(ch), ..self })
            },
            _ => quiet(self),
        }
    }

    /// This state with another local browser.
    pub open spec fn with_picker(self, picker: PickerView) -> AppView {
        AppView { upload_picker: Some(picker), ..self }
    }

    /// The upload of `path` requested from the local browser: the browser
    /// closes, whether or not the upload can start.
    pub open spec fn upload_from_picker(self, path: Seq<char>) -> Step {
        let closed = AppView { input_mode: InputMode::Normal, upload_picker: None, ..self };
        Step {
            state: closed.start_upload_job(),
            command: if closed.upload_job is None {
                CommandView::Upload { path, parent: closed.current_folder_id }
            } else {
                CommandView::Nothing
            },
        }
    }

    /// A key in the local browser.
    pub open spec fn upload_picker_key(self, key: KeyPress) -> Step {
        match self.upload_picker {
            None => quiet(self.cancel_input("Upload picker closed"@)),
            Some(picker) => match key.key {
                Key::Esc | Key::Char('q') => quiet(self.cancel_input("Upload cancelled"@)),
                Key::Char('b') | Key::Left => match picker.parent_dir {
                    Some(parent) => Step { state: self, command: CommandView::ReadDir { path: parent } },
                    None => quiet(self),
                },
                Key::Right => match picker.highlighted() {
                    Some(entry) => if entry.is_dir {
                        Step { state: self, command: CommandView::ReadDir { path: entry.path } }
                    } else {
                        quiet(self)
                    },
                    None => quiet(self),
                },
                Key::Up => quiet(self.with_picker(picker.previous())),
                Key::Down => quiet(self.with_picker(picker.next())),
                Key::Enter => match picker.highlighted() {
                    Some(entry) => if entry.is_dir {
                        Step { state: self, command: CommandView::ReadDir { path: entry.path } }
                    } else {
                        quiet(
                            AppView {
                                upload_picker: Some(
                                    PickerView { selected_path: Some(entry.path), ..picker },
                                ),
                                status: "Selected "@ + entry.name,
                                ..self
                            },
                        )
                    },
                    None => quiet(self),
                },
                Key::Char('u') => match picker.selection() {
                    Some(path) => self.upload_from_picker(path),
                    None => quiet(self.with_status("No selection to upload"@)),
                },
                _ => quiet(self),
            },
        }
    }

    /// A key while a delete waits for its confirmation.
    pub open spec fn delete_confirm_key(self, key: KeyPress) -> Step {
        match key.key {
            Key::Esc | Key::Char('q') | Key::Char('n') | Key::Char('N') => quiet(
                AppView {
                    pending_delete: None,
                    input_mode: InputMode::Normal,
                    status: "Delete cancelled"@,
                    ..self
                },
            ),
            Key::Char('y') | Key::Char('Y') => match self.pending_delete {
                Some(item) => Step {
                    state: AppView { pending_delete: None, input_mode: InputMode::Normal, ..self },
                    command: CommandView::Delete { file_id: item.id, recursive: item.is_folder },
                },
                None => quiet(
                    AppView {
                        input_mode: InputMode::Normal,
                        status: "Nothing to delete"@,
                        ..self
                    },
                ),
            },
            _ => quiet(self),
        }
    }

    /// A key while quitting waits for its confirmation: `y` requests the
    /// exit, any other key goes back to browsing.
    pub open spec fn quit_confirm_key(self, key: KeyPress) -> Step {
        match key.key {
            Key::Char('y') | Key::Char('Y') => quiet(
                AppView { input_mode: InputMode::Normal, ..self }.request_exit(),
            ),
            _ => quiet(
                AppView { input_mode: InputMode::Normal, status: "Quit cancelled"@, ..self },
            ),
        }
    }

    /// A key in the mode that the state is in.
    pub open spec fn key_event(self, key: KeyPress) -> Step {
        match self.input_mode {
            InputMode::Normal => self.normal_key(key),
            InputMode::DownloadDestination => self.input_key(key),
            InputMode::UploadPicker => self.upload_picker_key(key),
            InputMode::DeleteConfirm => self.delete_confirm_key(key),
            InputMode::QuitConfirm => self.quit_confirm_key(key),
        }
    }
}

/// Handles a key in the mode that the state is in, and returns the work
/// that the key asks for.
pub fn handle_key_event(app: &mut App, key: KeyPress) -> (c: Command)
    ensures
        final(app)@ == old(app)@.key_event(key).state,
        c@ == old(app)@.key_event(key).command,
{
    match app.input_mode {
        InputMode::Normal => handle_normal_key(app, key),
        InputMode::DownloadDestination => handle_input_key(app, key),
        InputMode::UploadPicker => handle_upload_picker_key(app, key),
        InputMode::DeleteConfirm => handle_delete_confirm_key(app, key),
        InputMode::QuitConfirm => handle_quit_confirm_key(app, key),
    }
}

/// Handles a key while browsing.
pub fn handle_normal_key(app: &mut App, key: KeyPress) -> (c: Command)
    ensures
        final(app)@ == old(app)@.normal_key(key).state,
        c@ == old(app)@.normal_key(key).command,
{
    match key.key {
        Key::Char('q') => {
            if app.can_quit() {
                return Command::Quit;
            }
            app.start_quit_confirm();
            Command::Nothing
        },
        Key::Char('r') => Command::Reload,
        Key::Char('b') | Key::Left => app.go_back(),
        Key::Char('d') => {
            app.start_input(InputMode::DownloadDestination, "Download destination (dir)");
            Command::Nothing
        },
        Key::Char('u') => Command::OpenPicker,
        Key::Char('x') | Key::Delete => {
            app.start_delete_confirm();
            Command::Nothing
        },
        Key::Up => {
            app.select_previous();
            Command::Nothing
        },
        Key::Down => {
            app.select_next();
            Command::Nothing
        },
        Key::Enter | Key::Right => app.open_selected(),
        _ => Command::Nothing,
    }
}

/// Handles a key while a text is typed.
pub fn handle_input_key(app: &mut App, key: KeyPress) -> (c: Command)
    ensures
        final(app)@ == old(app)@.input_key(key).state,
        c@ == old(app)@.input_key(key).command,
{
    match key.key {
        Key::Esc => {
            app.cancel_input("Cancelled");
            Command::Nothing
        },
        Key::Enter => {
            let input = trim_text(app.input.as_str());
            proof {
                lemma_trimmed_empty(app.input@);
            }
            let mode = app.input_mode;
            app.input = String::new();
            app.input_mode = InputMode::Normal;
            match mode {
                InputMode::DownloadDestination => {
                    let destination = if input.as_str().unicode_len() == 0 {
                        None
                    } else {
                        Some(input)
                    };
                    match app.download_selected(destination) {
                        Ok(c) => {
                            app.status = String::from_str("Download completed");
                            c
                        },
                        Err(_) => Command::Nothing,
                    }
                },
                _ => Command::Nothing,
            }
        },
        Key::Backspace => {
            app.input.pop();
            Command::Nothing
        },
        Key::Char(ch) => {
            if !key.control {
                app.input.push(ch);
            }
            Command::Nothing
        },
        _ => Command::Nothing,
    }
}

/// Handles a key in the local browser.
pub fn handle_upload_picker_key(app: &mut App, key: KeyPress) -> (c: Command)
    ensures
        final(app)@ == old(app)@.upload_picker_key(key).state,
        c@ == old(app)@.upload_picker_key(key).command,
{
    let mut picker = match app.upload_picker.take() {
        Some(picker) => picker,
        None => {
            app.cancel_input("Upload picker closed");
            return Command::Nothing;
        },
    };
    match key.key {
        Key::Esc | Key::Char('q') => {
            app.cancel_input("Upload cancelled");
            Command::Nothing
        },
        Key::Char('b') | Key::Left => {
            let c = match picker.parent_dir() {
                Some(parent) => Command::ReadDir { path: parent.clone() },
                None => Command::Nothing,
            };
            app.upload_picker = Some(picker);
            c
        },
        Key::Right => {
            let c = match picker.highlighted() {
                Some(entry) => if entry.is_dir {
                    Command::ReadDir { path: entry.path.clone() }
                } else {
                    Command::Nothing
                },
                None => Command::Nothing,
            };
            app.upload_picker = Some(picker);
            c
        },
        Key::Up => {
            picker.select_previous();
            app.upload_picker = Some(picker);
            Command::Nothing
        },
        Key::Down => {
            picker.select_next();
            app.upload_picker = Some(picker);
            Command::Nothing
        },
        Key::Enter => {
            let found = match picker.highlighted() {
                Some(entry) => Some((entry.is_dir, entry.path.clone(), entry.name.clone())),
                None => None,
            };
            match found {
                Some((is_dir, path, name)) => {
                    if is_dir {
                        app.upload_picker = Some(picker);
                        Command::ReadDir { path }
                    } else {
                        picker.mark(path);
                        app.upload_picker = Some(picker);
                        app.status = join2("Selected ", name.as_str());
                        Command::Nothing
                    }
                },
                None => {
                    app.upload_picker = Some(picker);
                    Command::Nothing
                },
            }
        },
        Key::Char('u') => {
            match picker.selection() {
                Some(path) => {
                    app.input_mode = InputMode::Normal;
                    match app.start_upload_job(path) {
                        Ok(c) => c,
                        Err(_) => Command::Nothing,
                    }
                },
                None => {
                    app.upload_picker = Some(picker);
                    app.status = String::from_str("No selection to upload");
                    Command::Nothing
                },
            }
        },
        _ => {
            app.upload_picker = Some(picker);
            Command::Nothing
        },
    }
}

/// Handles a key while a delete waits for its confirmation.
pub fn handle_delete_confirm_key(app: &mut App, key: KeyPress) -> (c: Command)
    ensures
        final(app)@ == old(app)@.delete_confirm_key(key).state,
        c@ == old(app)@.delete_confirm_key(key).command,
{
    match key.key {
        Key::Esc | Key::Char('q') | Key::Char('n') | Key::Char('N') => {
            app.pending_delete = None;
            app.input_mode = InputMode::Normal;
            app.status = String::from_str("Delete cancelled");
            Command::Nothing
        },
        Key::Char('y') | Key::Char('Y') => {
            match app.pending_delete.take() {
                Some(item) => {
                    app.input_mode = InputMode::Normal;
                    Command::Delete { file_id: item.id, recursive: item.is_folder }
                },
                None => {
                    app.input_mode = InputMode::Normal;
                    app.status = String::from_str("Nothing to delete");
                    Command::Nothing
                },
            }
        },
        _ => Command::Nothing,
    }
}

/// Handles a key while quitting waits for its confirmation.
pub fn handle_quit_confirm_key(app: &mut App, key: KeyPress) -> (c: Command)
    ensures
        final(app)@ == old(app)@.quit_confirm_key(key).state,
        c@ == old(app)@.quit_confirm_key(key).command,
{
    match key.key {
        Key::Char('y') | Key::Char('Y') => {
            app.input_mode = InputMode::Normal;
            app.request_exit();
        },
        _ => {
            app.input_mode = InputMode::Normal;
            app.status = String::from_str("Quit cancelled");
        },
    }
    Command::Nothing
}

/// Quitting is blocked while a transfer runs: the quit key then asks for
/// a confirmation and does not end the loop. Confirming requests the exit
/// and asks every running transfer to stop, and the loop is to end exactly
/// when exit is requested and both job slots are empty.
pub proof fn lemma_quit_waits_for_transfers(s: AppView, control: bool)
    ensures
        s.has_active_transfer() ==> s.normal_key(KeyPress { key: Key::Char('q'), control }).command
            == CommandView::Nothing,
        s.has_active_transfer() ==> s.normal_key(
            KeyPress { key: Key::Char('q'), control },
        ).state.input_mode == InputMode::QuitConfirm,
        !s.has_active_transfer() ==> s.normal_key(KeyPress { key: Key::Char('q'), control }).command
            == CommandView::Quit,
        s.quit_confirm_key(KeyPress { key: Key::Char('y'), control }).state.exit_requested,
        s.quit_confirm_key(KeyPress { key: Key::Char('y'), control }).state.upload_job matches Some(
            job,
        ) ==> job.cancel,
        s.quit_confirm_key(
            KeyPress { key: Key::Char('y'), control },
        ).state.download_job matches Some(job) ==> job.cancel,
        s.quit_confirm_key(KeyPress { key: Key::Char('y'), control }).state.upload_job is Some
            <==> s.upload_job is Some,
        s.quit_confirm_key(KeyPress { key: Key::Char('y'), control }).state.download_job is Some
            <==> s.download_job is Some,
        s.should_exit() <==> s.exit_requested && s.upload_job is None && s.download_job is None,
{
}

/// No key but the confirmation of quitting requests the exit.
pub proof fn lemma_exit_only_on_confirmation(s: AppView, key: KeyPress)
    requires
        !s.exit_requested,
        s.key_event(key).state.exit_requested,
    ensures
        s.input_mode == InputMode::QuitConfirm,
        key.key == Key::Char('y') || key.key == Key::Char('Y'),
{
}

impl AppView {
    /// What belongs to a mode is there in that mode and in no other: text
    /// is typed only at the prompt, the local browser is open only in its
    /// mode, and a row waits for its deletion only while the confirmation
    /// is asked for.
    pub open spec fn modes_agree(self) -> bool {
        &&& self.input_mode != InputMode::DownloadDestination ==> self.input.len() == 0
        &&& self.upload_picker is Some <==> self.input_mode == InputMode::UploadPicker
        &&& self.pending_delete is Some <==> self.input_mode == InputMode::DeleteConfirm
    }
}

/// Only one mode is active at a time: the state at the start keeps what
/// belongs to each mode apart, and so does the state after every key. A
/// mode is therefore always entered without stale text.
pub proof fn lemma_modes_agree(s: AppView, key: KeyPress, now_ms: u64)
    ensures
        AppView::initial(now_ms).modes_agree(),
        s.modes_agree() ==> s.key_event(key).state.modes_agree(),
        s.modes_agree() && s.input_mode != InputMode::DownloadDestination && s.key_event(
            key,
        ).state.input_mode == InputMode::DownloadDestination ==> s.key_event(key).state.input.len()
            == 0,
{
}

/// The confirmation of quitting is asked for only while a transfer runs,
/// and the confirmation of a delete only for a row that can be deleted: a
/// copy of the highlighted row, which is not the parent marker and has an
/// identifier.
pub proof fn lemma_confirmations(s: AppView, key: KeyPress)
    ensures
        s.input_mode != InputMode::QuitConfirm && s.key_event(key).state.input_mode
            == InputMode::QuitConfirm ==> s.has_active_transfer(),
        s.input_mode != InputMode::DeleteConfirm && s.key_event(key).state.input_mode
            == InputMode::DeleteConfirm ==> s.key_event(key).state.pending_delete == s.highlighted()
            && (s.highlighted() matches Some(item) && !item.is_parent && item.id.len() > 0),
{
}

} // verus!
