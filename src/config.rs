//! Settings of the program and their defaults.

use vstd::prelude::*;
use crate::text::text_of;

verus! {

#[derive(Debug, Clone)]
pub struct Config {
    /// Where the settings were read from; not part of the document itself.
    pub config_path: String,
    pub whatsapp: WhatsAppConfig,
    pub media: MediaConfig,
    pub ui: UiConfig,
    pub notifications: NotificationConfig,
}

#[derive(Debug, Clone)]
pub struct WhatsAppConfig {
    pub service_url: String,
    pub session_path: String,
}

#[derive(Debug, Clone)]
pub struct MediaConfig {
    pub download_path: String,
    pub auto_download: bool,
    pub kitty_graphics: bool,
}

#[derive(Debug, Clone)]
pub struct UiConfig {
    pub theme: String,
    pub show_avatars: bool,
    pub relative_timestamps: bool,
}

#[derive(Debug, Clone)]
pub struct NotificationConfig {
    pub enabled: bool,
    pub muted_chats: Vec<String>,
}

/// The settings document of an earlier release, every field optional.
#[derive(Debug, Clone)]
pub struct LegacyConfig {
    pub session_path: Option<String>,
    pub download_media: Option<bool>,
    pub download_path: Option<String>,
    pub notifications: Option<bool>,
}

pub fn default_service_url() -> (r: String)
    ensures
        r@ == "ws://localhost:8080"@,
{
    text_of("ws://localhost:8080")
}

pub fn default_session_path() -> (r: String)
    ensures
        r@ == "./.wwebjs_auth"@,
{
    text_of("./.wwebjs_auth")
}

pub fn default_download_path() -> (r: String)
    ensures
        r@ == "./media"@,
{
    text_of("./media")
}

pub fn default_theme() -> (r: String)
    ensures
        r@ == "dark"@,
{
    text_of("dark")
}

pub fn default_true() -> (r: bool)
    ensures
        r,
{
    true
}

/// Every setting holds its default value.
pub open spec fn is_default_config(c: Config) -> bool {
    &&& c.config_path@ == "config.toml"@
    &&& c.whatsapp.service_url@ == "ws://localhost:8080"@
    &&& c.whatsapp.session_path@ == "./.wwebjs_auth"@
    &&& c.media.download_path@ == "./media"@
    &&& c.media.auto_download
    &&& c.media.kitty_graphics
    &&& c.ui.theme@ == "dark"@
    &&& c.ui.show_avatars
    &&& c.ui.relative_timestamps
    &&& c.notifications.enabled
    &&& c.notifications.muted_chats@.len() == 0
}

fn text_or(v: Option<String>, fallback: String) -> (r: String)
    ensures
        r == (match v { Some(t) => t, None => fallback }),
{
    match v {
        Some(t) => t,
        None => fallback,
    }
}

fn flag_or_true(v: Option<bool>) -> (r: bool)
    ensures
        r == (match v { Some(b) => b, None => true }),
{
    match v {
        Some(b) => b,
        None => default_true(),
    }
}

impl Config {
    /// Settings taken over from a legacy document: each field it holds is kept,
    /// every other setting takes its default.
    pub fn from_legacy(old: LegacyConfig) -> (r: Config)
        ensures
            r.config_path@ == "config.toml"@,
            r.whatsapp.service_url@ == "ws://localhost:8080"@,
            r.whatsapp.session_path@ == (match old.session_path { Some(t) => t@, None => "./.wwebjs_auth"@ }),
            r.media.download_path@ == (match old.download_path { Some(t) => t@, None => "./media"@ }),
            r.media.auto_download == (match old.download_media { Some(b) => b, None => true }),
            r.media.kitty_graphics,
            r.ui.theme@ == "dark"@,
            r.ui.show_avatars,
            r.ui.relative_timestamps,
            r.notifications.enabled == (match old.notifications { Some(b) => b, None => true }),
            r.notifications.muted_chats@.len() == 0,
    {
        Config {
            config_path: text_of("config.toml"),
            whatsapp: WhatsAppConfig {
                service_url: default_service_url(),
                session_path: text_or(old.session_path, default_session_path()),
            },
            media: MediaConfig {
                download_path: text_or(old.download_path, default_download_path()),
                auto_download: flag_or_true(old.download_media),
                kitty_graphics: true,
            },
            ui: UiConfig { theme: default_theme(), show_avatars: true, relative_timestamps: true },
            notifications: NotificationConfig {
                enabled: flag_or_true(old.notifications),
                muted_chats: Vec::new(),
            },
        }
    }
}

impl Default for Config {
    fn default() -> (r: Config)
        ensures
            is_default_config(r),
    {
        Config {
            config_path: text_of("config.toml"),
            whatsapp: WhatsAppConfig {
                service_url: default_service_url(),
                session_path: default_session_path(),
            },
            media: MediaConfig {
                download_path: default_download_path(),
                auto_download: default_true(),
                kitty_graphics: default_true(),
            },
            ui: UiConfig {
                theme: default_theme(),
                show_avatars: default_true(),
                relative_timestamps: default_true(),
            },
            notifications: NotificationConfig { enabled: default_true(), muted_chats: Vec::new() },
        }
    }
}

} // verus!
