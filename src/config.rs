//! The program's arguments and its configuration file's settings, and how
//! the settings fill in what the arguments leave open.
use vstd::prelude::*;
use crate::cli::{Languages, Provider, Quality};
use crate::flixhq::MediaType;

verus! {

/// The command-line arguments.
#[derive(Debug, Default)]
pub struct Args {
    pub query: Option<String>,
    pub clear_history: bool,
    pub resume: bool,
    pub download: Option<Option<String>>,
    pub rpc: bool,
    pub edit: bool,
    pub image_preview: bool,
    pub json: bool,
    pub language: Option<Languages>,
    pub rofi: bool,
    pub provider: Option<Provider>,
    pub quality: Option<Quality>,
    pub recent: Option<MediaType>,
    pub syncplay: bool,
    pub trending: Option<MediaType>,
    pub update: bool,
    pub debug: bool,
    pub no_subs: bool,
}

/// The settings of the configuration file.
#[derive(Debug)]
pub struct Config {
    pub use_external_menu: bool,
    pub download: String,
    pub provider: Provider,
    pub subs_language: Languages,
    pub player: String,
    pub history: bool,
    pub histfile: String,
    pub image_preview: bool,
    pub debug: bool,
}

/// The arguments that the settings do not touch are equal.
pub open spec fn same_untouched(a: Args, b: Args) -> bool {
    &&& a.query.deep_view() == b.query.deep_view()
    &&& a.clear_history == b.clear_history
    &&& a.resume == b.resume
    &&& a.rpc == b.rpc
    &&& a.edit == b.edit
    &&& a.json == b.json
    &&& a.quality == b.quality
    &&& a.recent == b.recent
    &&& a.syncplay == b.syncplay
    &&& a.trending == b.trending
    &&& a.update == b.update
    &&& a.no_subs == b.no_subs
}

/// A download directory: the one given, else `default` when a download was
/// asked for.
pub open spec fn download_choice(d: Option<Option<Seq<char>>>, default: Seq<char>) -> Option<
    Option<Seq<char>>,
> {
    match d {
        Some(Some(v)) => Some(Some(v)),
        Some(None) => Some(Some(default)),
        None => None,
    }
}

fn download_dir(d: &Option<Option<String>>, default: &String) -> (r: Option<Option<String>>)
    ensures
        r.deep_view() == download_choice(d.deep_view(), default@),
{
    match d {
        Some(Some(v)) => Some(Some(v.clone())),
        Some(None) => Some(Some(default.clone())),
        None => None,
    }
}

impl Config {
    /// Fills in the arguments from the settings: a flag is on when either
    /// turns it on (rofi only on Linux, `linux`), a download without a
    /// directory goes to the configured one, and the provider and subtitle
    /// language default to the configured ones.
    pub fn program_configuration(args: &mut Args, config: &Config, linux: bool)
        ensures
            final(args).rofi == (linux && (old(args).rofi || config.use_external_menu)),
            final(args).image_preview == (old(args).image_preview || config.image_preview),
            final(args).debug == (old(args).debug || config.debug),
            final(args).download.deep_view() == download_choice(
                old(args).download.deep_view(),
                config.download@,
            ),
            final(args).provider == Some(
                match old(args).provider {
                    Some(p) => p,
                    None => config.provider,
                },
            ),
            final(args).language == Some(
                match old(args).language {
                    Some(l) => l,
                    None => config.subs_language,
                },
            ),
            same_untouched(*old(args), *final(args)),
    {
        args.rofi = linux && (args.rofi || config.use_external_menu);
        args.image_preview = args.image_preview || config.image_preview;
        args.download = download_dir(&args.download, &config.download);
        args.provider = Some(
            match args.provider {
                Some(p) => p,
                None => config.provider,
            },
        );
        args.language = Some(
            match args.language {
                Some(l) => l,
                None => config.subs_language,
            },
        );
        args.debug = args.debug || config.debug;
    }
}

} // verus!
