//! Settings fixed at start-up, and where downloaded pictures are stored.

use vstd::prelude::*;
use crate::picture::Market;
use crate::text::{join_path, joined};

verus! {

/// Folder under the user's pictures directory that holds the pictures.
pub const PICTURES_SUBFOLDER: &'static str = "Bing Wallpapers";

/// Folder under the user's configuration directory that holds the settings.
pub const CONFIG_SUBFOLDER: &'static str = "bingwallpaper";

/// Configuration directory used when the platform names none.
pub const FALLBACK_CONFIG_DIRECTORY: &'static str = "~/.config/bingwallpaper";

/// Folder under the configuration directory that holds the pictures when the
/// platform names no pictures directory.
pub const CACHE_SUBFOLDER: &'static str = "bing-wallpaper-cache";

/// Relies on directories' `BaseDirs::new` and `BaseDirs::config_dir`: the
/// user's configuration directory, if the platform names one. It depends on
/// the environment, so nothing is promised of it.
#[verifier::external_body]
fn user_config_directory() -> (r: Option<String>) {
    directories::BaseDirs::new().map(|dirs| dirs.config_dir().to_string_lossy().into_owned())
}

/// The settings directory, given the user's configuration directory if any.
pub open spec fn config_directory_from(config: Option<Seq<char>>) -> Seq<char> {
    match config {
        Some(c) => joined(c, CONFIG_SUBFOLDER@),
        None => FALLBACK_CONFIG_DIRECTORY@,
    }
}

/// The pictures directory: the explicit choice if there is one, else the
/// subfolder of the user's pictures directory, else the subfolder of the
/// settings directory.
pub open spec fn pictures_directory_from(
    chosen: Option<Seq<char>>,
    pictures: Option<Seq<char>>,
    config: Option<Seq<char>>,
) -> Seq<char> {
    match chosen {
        Some(d) => d,
        None => match pictures {
            Some(p) => joined(p, PICTURES_SUBFOLDER@),
            None => joined(config_directory_from(config), CACHE_SUBFOLDER@),
        },
    }
}

pub open spec fn option_view(o: Option<String>) -> Option<Seq<char>> {
    match o {
        Some(s) => Some(s@),
        None => None,
    }
}

/// The settings directory, given the user's configuration directory if any.
pub fn config_directory(config: Option<String>) -> (r: String)
    ensures
        r@ == config_directory_from(option_view(config)),
{
    match config {
        Some(c) => join_path(c.as_str(), CONFIG_SUBFOLDER),
        None => String::from_str(FALLBACK_CONFIG_DIRECTORY),
    }
}

/// The pictures directory from an explicit choice and the platform's
/// pictures and configuration directories, in that order of preference.
pub fn pictures_directory(
    chosen: Option<String>,
    pictures: Option<String>,
    config: Option<String>,
) -> (r: String)
    ensures
        r@ == pictures_directory_from(
            option_view(chosen),
            option_view(pictures),
            option_view(config),
        ),
{
    match chosen {
        Some(d) => d,
        None => match pictures {
            Some(p) => join_path(p.as_str(), PICTURES_SUBFOLDER),
            None => {
                let c = config_directory(config);
                join_path(c.as_str(), CACHE_SUBFOLDER)
            },
        },
    }
}

/// Settings fixed at start-up.
#[derive(Debug, Clone, PartialEq, Eq)]
pub struct Configuration {
    pub market: Market,
    /// Directory for downloaded pictures in place of the platform's default.
    pub pictures_directory: Option<String>,
}

impl Default for Configuration {
    fn default() -> (r: Configuration)
        ensures
            r.market == Market::EnglishUS,
            r.pictures_directory is None,
    {
        Configuration { market: Market::EnglishUS, pictures_directory: None }
    }
}

impl Configuration {
    /// The user's settings directory, or its conventional place when the
    /// platform names none.
    pub fn get_config_directory() -> (r: String)
        ensures
            exists|config: Option<Seq<char>>| r@ == config_directory_from(config),
    {
        let config = user_config_directory();
        config_directory(config)
    }

    /// Where pictures are stored: the configured directory if set, else the
    /// subfolder of the user's pictures directory `pictures`, else the
    /// subfolder of the settings directory under the user's configuration
    /// directory `config`.
    pub fn get_pictures_directory(&self, pictures: Option<String>, config: Option<String>) -> (r:
        String)
        ensures
            r@ == pictures_directory_from(
                option_view(self.pictures_directory),
                option_view(pictures),
                option_view(config),
            ),
    {
        let chosen = match &self.pictures_directory {
            Some(d) => Some(d.clone()),
            None => None,
        };
        pictures_directory(chosen, pictures, config)
    }
}

} // verus!
