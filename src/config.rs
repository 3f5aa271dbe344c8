use vstd::prelude::*;

verus! {

/// Name shown in the window title, the application menu and every notification.
pub const APP_NAME: &'static str = "Discord";

/// The web application the window loads.
pub const APP_URL: &'static str = "https://discord.com/app";

/// Browser identification the webview presents.
pub const USER_AGENT: &'static str = "Mozilla/5.0 (Windows NT 10.0; Win64; x64) AppleWebKit/537.36 (KHTML, like Gecko) Chrome/112.0.0.0 Safari/537.36";

} // verus!
