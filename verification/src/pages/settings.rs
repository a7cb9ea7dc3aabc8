//! The settings page: a scratch copy of the application settings, edited
//! field by field and applied on save.
use vstd::prelude::*;

use crate::config::{AppSettings, ThemeMode};

verus! {

/// Settings state.
#[derive(Debug)]
pub struct State {
    /// Edited settings.
    pub edited_settings: Option<AppSettings>,
    /// Saving state.
    pub saving: bool,
}

impl State {
    /// The state the page starts in: no edits, nothing pending.
    pub open spec fn is_initial(self) -> bool {
        &&& self.edited_settings is None
        &&& !self.saving
    }
}

impl Default for State {
    fn default() -> (r: Self)
        ensures
            r.is_initial(),
    {
        State { edited_settings: None, saving: false }
    }
}

/// Settings messages.
#[derive(Debug, PartialEq, Eq)]
pub enum SettingsMessage {
    /// Edit backend URL.
    EditBackendUrl(String),
    /// Toggle theme mode.
    ToggleThemeMode(ThemeMode),
    /// Toggle notifications.
    ToggleNotifications(bool),
    /// Toggle auto sync.
    ToggleAutoSync(bool),
    /// Edit OCR upload directory.
    EditOcrUploadDir(String),
    /// Save settings.
    SaveSettings,
    /// Reset settings.
    ResetSettings,
}

/// What the binary is asked to perform after an update.
#[derive(Debug, PartialEq, Eq)]
pub enum Command {
    /// Nothing.
    NoOp,
    /// Store the given settings in the configuration store.
    Persist(AppSettings),
}

/// The settings an edit starts from: the scratch copy where one exists,
/// the live settings otherwise.
pub open spec fn edit_base(pre: State, settings: AppSettings) -> AppSettings {
    match pre.edited_settings {
        Some(e) => e,
        None => settings,
    }
}

/// How one message takes the page from `pre` to `post` and the live
/// settings from `settings_pre` to `settings_post`, asking for `cmd`.
pub open spec fn update_rel(
    pre: State,
    settings_pre: AppSettings,
    msg: SettingsMessage,
    post: State,
    settings_post: AppSettings,
    cmd: Command,
) -> bool {
    let base = edit_base(pre, settings_pre);
    &&& post.saving == pre.saving
    &&& match msg {
        SettingsMessage::EditBackendUrl(url) => {
            &&& post.edited_settings == Some(
                AppSettings { backend_url: url, ..base },
            )
            &&& settings_post == settings_pre
            &&& cmd is NoOp
        },
        SettingsMessage::ToggleThemeMode(mode) => {
            &&& post.edited_settings == Some(AppSettings { theme_mode: mode, ..base })
            &&& settings_post == settings_pre
            &&& cmd is NoOp
        },
        SettingsMessage::ToggleNotifications(enabled) => {
            &&& post.edited_settings == Some(
                AppSettings { notifications_enabled: enabled, ..base },
            )
            &&& settings_post == settings_pre
            &&& cmd is NoOp
        },
        SettingsMessage::ToggleAutoSync(enabled) => {
            &&& post.edited_settings == Some(AppSettings { auto_sync: enabled, ..base })
            &&& settings_post == settings_pre
            &&& cmd is NoOp
        },
        SettingsMessage::EditOcrUploadDir(dir) => {
            &&& post.edited_settings == Some(AppSettings { ocr_upload_dir: dir, ..base })
            &&& settings_post == settings_pre
            &&& cmd is NoOp
        },
        SettingsMessage::SaveSettings => {
            &&& post.edited_settings == Some(base)
            &&& settings_post == base
            &&& cmd matches Command::Persist(s) && s == base
        },
        SettingsMessage::ResetSettings => {
            &&& post.edited_settings matches Some(e) && e.is_default()
            &&& settings_post == settings_pre
            &&& cmd is NoOp
        },
    }
}

/// Update settings state.
pub fn update(state: &mut State, message: SettingsMessage, settings: &mut AppSettings) -> (cmd:
    Command)
    ensures
        update_rel(*old(state), *old(settings), message, *final (state), *final (settings), cmd),
{
    if state.edited_settings.is_none() {
        state.edited_settings = Some(settings.clone());
    }
    match message {
        SettingsMessage::EditBackendUrl(url) => {
            match &mut state.edited_settings {
                Some(edited) => {
                    edited.backend_url = url;
                },
                None => {
                    proof {
                        assert(false);
                    }
                },
            }
            Command::NoOp
        },
        SettingsMessage::ToggleThemeMode(mode) => {
            match &mut state.edited_settings {
                Some(edited) => {
                    edited.theme_mode = mode;
                },
                None => {
                    proof {
                        assert(false);
                    }
                },
            }
            Command::NoOp
        },
        SettingsMessage::ToggleNotifications(enabled) => {
            match &mut state.edited_settings {
                Some(edited) => {
                    edited.notifications_enabled = enabled;
                },
                None => {
                    proof {
                        assert(false);
                    }
                },
            }
            Command::NoOp
        },
        SettingsMessage::ToggleAutoSync(enabled) => {
            match &mut state.edited_settings {
                Some(edited) => {
                    edited.auto_sync = enabled;
                },
                None => {
                    proof {
                        assert(false);
                    }
                },
            }
            Command::NoOp
        },
        SettingsMessage::EditOcrUploadDir(dir) => {
            match &mut state.edited_settings {
                Some(edited) => {
                    edited.ocr_upload_dir = dir;
                },
                None => {
                    proof {
                        assert(false);
                    }
                },
            }
            Command::NoOp
        },
        SettingsMessage::SaveSettings => {
            match &state.edited_settings {
                Some(edited) => {
                    *settings = edited.clone();
                    Command::Persist(edited.clone())
                },
                None => {
                    proof {
                        assert(false);
                    }
                    Command::NoOp
                },
            }
        },
        SettingsMessage::ResetSettings => {
            state.edited_settings = Some(AppSettings::default());
            Command::NoOp
        },
    }
}

} // verus!
