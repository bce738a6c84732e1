//! Verified core of a small integration service between HR exports, Banner, Canvas and PaperCut.

use vstd::prelude::*;

pub mod args;
pub mod banner;
pub mod canvas;
pub mod csv_row_definitions;
pub mod employees;
pub mod logging;
pub mod papercut;
pub mod search;
pub mod server;
pub mod text;
pub mod utils;

verus! {

/// The settings of the whole service.
pub struct Settings {
    pub banner: banner::Settings,
    pub canvas: canvas::Settings,
    pub email: utils::email::Settings,
    pub papercut: papercut::Settings,
}

impl Settings {
    /// Settings with their derived values rebuilt: the Canvas account URL is built
    /// again from the Canvas settings; the rest is kept.
    pub fn rebuild_cache(self) -> (r: Result<Settings, canvas::CanvasError>)
        ensures
            match canvas::spec_url_parse(canvas::spec_account_url_text(self.canvas.base_url@, self.canvas.account@)) {
                Some(u) => r matches Ok(s) && s.canvas.sis_account_url@ == u
                    && s.canvas.base_url == self.canvas.base_url && s.canvas.token == self.canvas.token
                    && s.canvas.account == self.canvas.account && s.canvas.username == self.canvas.username
                    && s.canvas.password == self.canvas.password
                    && s.banner == self.banner && s.email == self.email && s.papercut == self.papercut,
                None => r matches Err(canvas::CanvasError::InvalidUrl(_)),
            },
    {
        let Settings { banner, canvas, email, papercut } = self;
        match canvas.rebuild_cache() {
            Ok(canvas) => Ok(Settings { banner, canvas, email, papercut }),
            Err(e) => Err(e),
        }
    }
}

impl Default for Settings {
    /// Each part's example settings.
    fn default() -> (s: Settings)
        ensures
            s.banner.conn@ == "//localhost:1521/orcl"@,
            s.banner.update_user_id is None,
            s.canvas.base_url@ == "https://yoururl.instructure.com"@,
            s.canvas.sis_account_url@ == "https://unset/"@,
            s.email.smtp_server@ == "127.0.0.1"@,
            s.email.replies@.len() == 2,
            s.papercut.address@ == "10.0.1.3"@,
            s.papercut.port == 21,
    {
        Settings {
            banner: banner::Settings::default(),
            canvas: canvas::Settings::default(),
            email: utils::email::Settings::default(),
            papercut: papercut::Settings::default(),
        }
    }
}

} // verus!
