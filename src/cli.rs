//! The user-facing choices: player, provider, stream quality and subtitle
//! language, with their names.
use vstd::prelude::*;
use crate::text::{decimal_value, is_u32_text, parse_u32, str_eq, unsigned_digits};

verus! {

/// The supported video players.
#[derive(Debug, Clone, Copy, PartialEq, Eq, Structural)]
#[non_exhaustive]
pub enum Player {
    Mpv,
    Vlc,
    Iina,
    Celluloid,
    MpvAndroid,
    SyncPlay,
}

impl Default for Player {
    fn default() -> (r: Player)
        ensures
            r == Player::Mpv,
    {
        Player::Mpv
    }
}

#[derive(Debug)]
#[non_exhaustive]
pub enum PlayerError {
    /// The name did not correspond to a known video player.
    InvalidPlayer { player_name: String },
}

/// The player a lower-case name stands for.
pub open spec fn player_named(s: Seq<char>) -> Option<Player> {
    if s == "mpv"@ {
        Some(Player::Mpv)
    } else if s == "vlc"@ {
        Some(Player::Vlc)
    } else if s == "iina"@ {
        Some(Player::Iina)
    } else if s == "celluloid"@ {
        Some(Player::Celluloid)
    } else if s == "mpvandroid"@ {
        Some(Player::MpvAndroid)
    } else if s == "syncplay"@ {
        Some(Player::SyncPlay)
    } else {
        None
    }
}

impl Player {
    /// The player named `s` (`mpv`, `vlc`, `iina`, `celluloid`, `mpvandroid`,
    /// `syncplay`), or an error that carries the name.
    pub fn from_str(s: &str) -> (r: Result<Player, PlayerError>)
        ensures
            player_named(s@) matches Some(p) ==> r == Ok::<Player, PlayerError>(p),
            player_named(s@) is None ==> (r matches Err(PlayerError::InvalidPlayer { player_name })
                && player_name@ == s@),
    {
        if str_eq(s, "mpv") {
            Ok(Player::Mpv)
        } else if str_eq(s, "vlc") {
            Ok(Player::Vlc)
        } else if str_eq(s, "iina") {
            Ok(Player::Iina)
        } else if str_eq(s, "celluloid") {
            Ok(Player::Celluloid)
        } else if str_eq(s, "mpvandroid") {
            Ok(Player::MpvAndroid)
        } else if str_eq(s, "syncplay") {
            Ok(Player::SyncPlay)
        } else {
            Err(PlayerError::InvalidPlayer { player_name: s.to_owned() })
        }
    }
}

/// The provider families whose embeds can be resolved.
#[derive(Debug, Clone, Copy, PartialEq, Eq, Structural)]
pub enum Provider {
    Vidcloud,
    Upcloud,
}

pub open spec fn provider_name(p: Provider) -> Seq<char> {
    match p {
        Provider::Vidcloud => "Vidcloud"@,
        Provider::Upcloud => "Upcloud"@,
    }
}

/// The provider a server name stands for; names are matched exactly.
pub open spec fn provider_named(s: Seq<char>) -> Option<Provider> {
    if s == "Vidcloud"@ {
        Some(Provider::Vidcloud)
    } else if s == "Upcloud"@ {
        Some(Provider::Upcloud)
    } else {
        None
    }
}

impl Provider {
    /// The name under which the catalog advertises the provider.
    pub fn name(&self) -> (r: String)
        ensures
            r@ == provider_name(*self),
    {
        match self {
            Provider::Vidcloud => String::from_str("Vidcloud"),
            Provider::Upcloud => String::from_str("Upcloud"),
        }
    }

    /// The provider that a server name stands for, if it is a known one.
    pub fn from_name(s: &str) -> (r: Option<Provider>)
        ensures
            r == provider_named(s@),
    {
        if str_eq(s, "Vidcloud") {
            Some(Provider::Vidcloud)
        } else if str_eq(s, "Upcloud") {
            Some(Provider::Upcloud)
        } else {
            None
        }
    }
}

/// A stream height.
#[derive(Debug, Clone, Copy, PartialEq, Eq, Structural)]
pub enum Quality {
    Q360,
    Q720,
    Q1080,
}

pub open spec fn quality_height(q: Quality) -> u32 {
    match q {
        Quality::Q360 => 360,
        Quality::Q720 => 720,
        Quality::Q1080 => 1080,
    }
}

/// The quality nearest to a requested height: up to 600 is 360p, up to 840
/// is 720p, anything above is 1080p.
pub open spec fn quality_for(h: nat) -> Quality {
    if h <= 600 {
        Quality::Q360
    } else if h <= 840 {
        Quality::Q720
    } else {
        Quality::Q1080
    }
}

#[derive(Debug)]
pub enum StreamError {
    /// The quality was not a number.
    QualityParseError(std::num::ParseIntError),
}

impl Quality {
    /// The height in pixels.
    pub fn to_u32(self) -> (r: u32)
        ensures
            r == quality_height(self),
    {
        match self {
            Quality::Q360 => 360,
            Quality::Q720 => 720,
            Quality::Q1080 => 1080,
        }
    }

    /// The height as decimal text (`"720"`).
    pub fn label(&self) -> (r: String)
        ensures
            r@ == quality_label(*self),
    {
        match self {
            Quality::Q360 => String::from_str("360"),
            Quality::Q720 => String::from_str("720"),
            Quality::Q1080 => String::from_str("1080"),
        }
    }

    /// The quality for a requested height given as text.
    pub fn from_str(s: &str) -> (r: Result<Quality, StreamError>)
        ensures
            r is Ok <==> is_u32_text(s@),
            r matches Ok(q) ==> q == quality_for(decimal_value(unsigned_digits(s@))),
    {
        match parse_u32(s) {
            Ok(h) => if h <= 600 {
                Ok(Quality::Q360)
            } else if h <= 840 {
                Ok(Quality::Q720)
            } else {
                Ok(Quality::Q1080)
            },
            Err(e) => Err(StreamError::QualityParseError(e)),
        }
    }
}

pub open spec fn quality_label(q: Quality) -> Seq<char> {
    match q {
        Quality::Q360 => "360"@,
        Quality::Q720 => "720"@,
        Quality::Q1080 => "1080"@,
    }
}

/// Subtitle languages.
#[derive(Debug, Clone, Copy, PartialEq, Eq, Structural)]
pub enum Languages {
    Arabic,
    Turkish,
    Danish,
    Dutch,
    English,
    Finnish,
    German,
    Italian,
    Russian,
    Spanish,
}

impl Default for Languages {
    fn default() -> (r: Languages)
        ensures
            r == Languages::English,
    {
        Languages::English
    }
}

pub open spec fn language_name(l: Languages) -> Seq<char> {
    match l {
        Languages::Arabic => "Arabic"@,
        Languages::Turkish => "Turkish"@,
        Languages::Danish => "Danish"@,
        Languages::Dutch => "Dutch"@,
        Languages::English => "English"@,
        Languages::Finnish => "Finnish"@,
        Languages::German => "German"@,
        Languages::Italian => "Italian"@,
        Languages::Russian => "Russian"@,
        Languages::Spanish => "Spanish"@,
    }
}

impl Languages {
    /// The English name of the language, as subtitle labels carry it.
    pub fn name(&self) -> (r: String)
        ensures
            r@ == language_name(*self),
    {
        match self {
            Languages::Arabic => String::from_str("Arabic"),
            Languages::Turkish => String::from_str("Turkish"),
            Languages::Danish => String::from_str("Danish"),
            Languages::Dutch => String::from_str("Dutch"),
            Languages::English => String::from_str("English"),
            Languages::Finnish => String::from_str("Finnish"),
            Languages::German => String::from_str("German"),
            Languages::Italian => String::from_str("Italian"),
            Languages::Russian => String::from_str("Russian"),
            Languages::Spanish => String::from_str("Spanish"),
        }
    }
}

} // verus!
