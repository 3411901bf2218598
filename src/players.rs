//! The video players and the command lines they are started with.
use vstd::prelude::*;
use crate::args::{
    copy_strings, flag_arg, join_items, joined, prefixed_arg, push_flag, push_prefixed,
    sub_file_list,
};

verus! {

/// Options of an mpv run.
#[derive(Default, Debug)]
pub struct MpvArgs {
    pub url: String,
    pub sub_file: Option<String>,
    pub sub_files: Option<Vec<String>>,
    pub force_media_title: Option<String>,
    pub quiet: bool,
    pub really_quiet: bool,
    pub save_position_on_quit: bool,
    pub write_filename_in_watch_later_config: bool,
    pub watch_later_dir: Option<String>,
    pub input_ipc_server: Option<String>,
    pub msg_level: Option<String>,
}

/// The mpv player.
pub struct Mpv {
    pub executable: String,
    pub args: Vec<String>,
}

/// `--<name>=` followed by the subtitle files, when there are any.
pub open spec fn sub_files_arg(files: Option<Vec<String>>, name: Seq<char>) -> Seq<Seq<char>> {
    match files {
        Some(f) => seq![name + sub_file_list(f.deep_view())],
        None => Seq::empty(),
    }
}

fn push_sub_files(out: &mut Vec<String>, files: &Option<Vec<String>>, name: &str)
    ensures
        final(out).deep_view() == old(out).deep_view() + sub_files_arg(*files, name@),
{
    match files {
        Some(f) => {
            let mut a = name.to_owned();
            let list = join_items(f, ":", true);
            a.append(list.as_str());
            out.push(a);
        },
        None => {},
    }
    assert(final(out).deep_view() =~= old(out).deep_view() + sub_files_arg(*files, name@));
}

pub open spec fn mpv_command(base: Seq<Seq<char>>, a: MpvArgs) -> Seq<Seq<char>> {
    base + seq![a.url@] + flag_arg(a.quiet, "--quiet"@) + flag_arg(a.really_quiet, "--really-quiet"@)
        + prefixed_arg(a.msg_level.deep_view(), "--msg-level=all="@) + sub_files_arg(
        a.sub_files,
        "--sub-files="@,
    ) + flag_arg(a.save_position_on_quit, "--save-position-on-quit"@) + flag_arg(
        a.write_filename_in_watch_later_config,
        "--write-filename-in-watch-later-config"@,
    ) + prefixed_arg(a.watch_later_dir.deep_view(), "--watch-later-dir="@) + prefixed_arg(
        a.input_ipc_server.deep_view(),
        "--input-ipc-server="@,
    ) + prefixed_arg(a.sub_file.deep_view(), "--sub-file="@) + prefixed_arg(
        a.force_media_title.deep_view(),
        "--force-media-title="@,
    )
}

impl Mpv {
    pub fn new() -> (r: Self)
        ensures
            r.executable@ == "mpv"@,
            r.args@.len() == 0,
    {
        Mpv { executable: String::from_str("mpv"), args: Vec::new() }
    }

    /// The arguments mpv is started with: the URL, then each option given.
    pub fn command_args(&self, a: &MpvArgs) -> (r: Vec<String>)
        ensures
            r.deep_view() == mpv_command(self.args.deep_view(), *a),
    {
        let mut out = copy_strings(&self.args);
        out.push(a.url.clone());
        push_flag(&mut out, a.quiet, "--quiet");
        push_flag(&mut out, a.really_quiet, "--really-quiet");
        push_prefixed(&mut out, &a.msg_level, "--msg-level=all=");
        push_sub_files(&mut out, &a.sub_files, "--sub-files=");
        push_flag(&mut out, a.save_position_on_quit, "--save-position-on-quit");
        push_flag(
            &mut out,
            a.write_filename_in_watch_later_config,
            "--write-filename-in-watch-later-config",
        );
        push_prefixed(&mut out, &a.watch_later_dir, "--watch-later-dir=");
        push_prefixed(&mut out, &a.input_ipc_server, "--input-ipc-server=");
        push_prefixed(&mut out, &a.sub_file, "--sub-file=");
        push_prefixed(&mut out, &a.force_media_title, "--force-media-title=");
        out
    }
}

/// Options of a Celluloid run.
#[derive(Default, Debug)]
pub struct CelluloidArgs {
    pub url: String,
    pub mpv_sub_files: Option<Vec<String>>,
    pub mpv_force_media_title: Option<String>,
}

/// The Celluloid player.
pub struct Celluloid {
    pub executable: String,
    pub args: Vec<String>,
}

pub open spec fn celluloid_command(base: Seq<Seq<char>>, a: CelluloidArgs) -> Seq<Seq<char>> {
    base + seq![a.url@] + sub_files_arg(a.mpv_sub_files, "--mpv-sub-files="@) + prefixed_arg(
        a.mpv_force_media_title.deep_view(),
        "--mpv-force-media-title="@,
    )
}

impl Celluloid {
    pub fn new() -> (r: Self)
        ensures
            r.executable@ == "celluloid"@,
            r.args@.len() == 0,
    {
        Celluloid { executable: String::from_str("celluloid"), args: Vec::new() }
    }

    /// The arguments Celluloid is started with.
    pub fn command_args(&self, a: &CelluloidArgs) -> (r: Vec<String>)
        ensures
            r.deep_view() == celluloid_command(self.args.deep_view(), *a),
    {
        let mut out = copy_strings(&self.args);
        out.push(a.url.clone());
        push_sub_files(&mut out, &a.mpv_sub_files, "--mpv-sub-files=");
        push_prefixed(&mut out, &a.mpv_force_media_title, "--mpv-force-media-title=");
        out
    }
}

/// Options of an IINA run.
#[derive(Default, Debug)]
pub struct IinaArgs {
    pub url: String,
    pub no_stdin: bool,
    pub keep_running: bool,
    pub mpv_sub_files: Option<Vec<String>>,
    pub mpv_force_media_title: Option<String>,
}

/// The IINA player.
pub struct Iina {
    pub executable: String,
    pub args: Vec<String>,
}

pub open spec fn iina_command(base: Seq<Seq<char>>, a: IinaArgs) -> Seq<Seq<char>> {
    base + seq![a.url@] + flag_arg(a.no_stdin, "--no-stdin"@) + flag_arg(
        a.keep_running,
        "--keep-running"@,
    ) + sub_files_arg(a.mpv_sub_files, "--mpv-sub-files="@) + prefixed_arg(
        a.mpv_force_media_title.deep_view(),
        "--mpv-force-media-title="@,
    )
}

impl Iina {
    pub fn new() -> (r: Self)
        ensures
            r.executable@ == "iina"@,
            r.args@.len() == 0,
    {
        Iina { executable: String::from_str("iina"), args: Vec::new() }
    }

    /// The arguments IINA is started with.
    pub fn command_args(&self, a: &IinaArgs) -> (r: Vec<String>)
        ensures
            r.deep_view() == iina_command(self.args.deep_view(), *a),
    {
        let mut out = copy_strings(&self.args);
        out.push(a.url.clone());
        push_flag(&mut out, a.no_stdin, "--no-stdin");
        push_flag(&mut out, a.keep_running, "--keep-running");
        push_sub_files(&mut out, &a.mpv_sub_files, "--mpv-sub-files=");
        push_prefixed(&mut out, &a.mpv_force_media_title, "--mpv-force-media-title=");
        out
    }
}

/// Options of a VLC run.
#[derive(Default, Debug)]
pub struct VlcArgs {
    pub url: String,
    pub input_slave: Option<Vec<String>>,
    pub meta_title: Option<String>,
}

/// The VLC player.
pub struct Vlc {
    pub executable: String,
    pub args: Vec<String>,
}

/// `--input-slave="<files joined with #>"`, when there are files.
pub open spec fn input_slave_arg(files: Option<Vec<String>>) -> Seq<Seq<char>> {
    match files {
        Some(f) => seq!["--input-slave=\""@ + joined(f.deep_view(), "#"@) + "\""@],
        None => Seq::empty(),
    }
}

pub open spec fn vlc_command(base: Seq<Seq<char>>, a: VlcArgs) -> Seq<Seq<char>> {
    base + seq![a.url@] + input_slave_arg(a.input_slave) + prefixed_arg(
        a.meta_title.deep_view(),
        "--meta-title="@,
    )
}

impl Vlc {
    pub fn new() -> (r: Self)
        ensures
            r.executable@ == "vlc"@,
            r.args@.len() == 0,
    {
        Vlc { executable: String::from_str("vlc"), args: Vec::new() }
    }

    /// The arguments VLC is started with.
    pub fn command_args(&self, a: &VlcArgs) -> (r: Vec<String>)
        ensures
            r.deep_view() == vlc_command(self.args.deep_view(), *a),
    {
        let mut out = copy_strings(&self.args);
        out.push(a.url.clone());
        match &a.input_slave {
            Some(f) => {
                let mut s = String::from_str("--input-slave=\"");
                let list = join_items(f, "#", false);
                s.append(list.as_str());
                s.append("\"");
                out.push(s);
            },
            None => {},
        }
        push_prefixed(&mut out, &a.meta_title, "--meta-title=");
        out
    }
}

} // verus!
