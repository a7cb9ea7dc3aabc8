//! Application settings and the theme choice they carry.
use vstd::prelude::*;

verus! {

/// Theme mode for the application.
#[derive(Debug, Clone, Copy, PartialEq, Eq, Structural)]
pub enum ThemeMode {
    Light,
    Dark,
    System,
}

/// Application settings.
///
/// The upload directory is held as a plain path string; the binary turns
/// it into a platform path when it touches the file system.
#[derive(Debug, PartialEq, Eq)]
pub struct AppSettings {
    /// Backend API URL.
    pub backend_url: String,
    /// Theme mode.
    pub theme_mode: ThemeMode,
    /// Enable notifications.
    pub notifications_enabled: bool,
    /// Auto-sync data with backend.
    pub auto_sync: bool,
    /// OCR upload directory.
    pub ocr_upload_dir: String,
}

impl AppSettings {
    /// The out-of-the-box settings: a local backend, the system theme,
    /// notifications and auto-sync on.
    pub open spec fn is_default(self) -> bool {
        &&& self.backend_url@ == "http://localhost:8000"@
        &&& self.theme_mode == ThemeMode::System
        &&& self.notifications_enabled
        &&& self.auto_sync
        &&& self.ocr_upload_dir@ == "/tmp/myappassistant/ocr"@
    }
}

impl Clone for AppSettings {
    fn clone(&self) -> (r: Self)
        ensures
            r == *self,
    {
        AppSettings {
            backend_url: self.backend_url.clone(),
            theme_mode: self.theme_mode,
            notifications_enabled: self.notifications_enabled,
            auto_sync: self.auto_sync,
            ocr_upload_dir: self.ocr_upload_dir.clone(),
        }
    }
}

impl Default for AppSettings {
    fn default() -> (r: Self)
        ensures
            r.is_default(),
    {
        AppSettings {
            backend_url: "http://localhost:8000".to_owned(),
            theme_mode: ThemeMode::System,
            notifications_enabled: true,
            auto_sync: true,
            ocr_upload_dir: "/tmp/myappassistant/ocr".to_owned(),
        }
    }
}

} // verus!
