//! The pickers (fzf, rofi) and the downloader (ffmpeg), and the command lines
//! they are started with.
use vstd::prelude::*;
use crate::args::{
    copy_strings, decimal_string, decimal_text, flag_arg, join_items, joined, pair_arg,
    prefixed_arg, push_flag, push_pair, push_prefixed,
};

verus! {

#[verifier::external_type_specification]
#[verifier::external_body]
pub struct ExIoError(std::io::Error);

/// Starting an external program failed.
#[derive(Debug)]
pub enum SpawnError {
    IOError(std::io::Error),
}

/// Options of an fzf run; `process_stdin` is what it is given to choose from.
#[derive(Default, Debug)]
pub struct FzfArgs {
    pub process_stdin: Option<String>,
    pub header: Option<String>,
    pub reverse: bool,
    pub preview: Option<String>,
    pub with_nth: Option<String>,
    pub ignore_case: bool,
    pub query: Option<String>,
    pub cycle: bool,
    pub prompt: Option<String>,
    pub delimiter: Option<String>,
    pub preview_window: Option<String>,
}

/// The fzf picker.
pub struct Fzf {
    pub executable: String,
    pub args: Vec<String>,
}

pub open spec fn fzf_command(base: Seq<Seq<char>>, a: FzfArgs) -> Seq<Seq<char>> {
    base + prefixed_arg(a.header.deep_view(), "--header="@) + pair_arg(
        a.prompt.deep_view(),
        "--prompt"@,
    ) + flag_arg(a.reverse, "--reverse"@) + prefixed_arg(a.preview.deep_view(), "--preview="@)
        + prefixed_arg(a.with_nth.deep_view(), "--with-nth="@) + flag_arg(
        a.ignore_case,
        "--ignore-case"@,
    ) + prefixed_arg(a.query.deep_view(), "--query="@) + flag_arg(a.cycle, "--cycle"@)
        + prefixed_arg(a.delimiter.deep_view(), "--delimiter="@) + prefixed_arg(
        a.preview_window.deep_view(),
        "--preview-window="@,
    )
}

impl Fzf {
    pub fn new() -> (r: Self)
        ensures
            r.executable@ == "fzf"@,
            r.args@.len() == 0,
    {
        Fzf { executable: String::from_str("fzf"), args: Vec::new() }
    }

    /// The arguments fzf is started with.
    pub fn command_args(&self, a: &FzfArgs) -> (r: Vec<String>)
        ensures
            r.deep_view() == fzf_command(self.args.deep_view(), *a),
    {
        let mut out = copy_strings(&self.args);
        push_prefixed(&mut out, &a.header, "--header=");
        push_pair(&mut out, &a.prompt, "--prompt");
        push_flag(&mut out, a.reverse, "--reverse");
        push_prefixed(&mut out, &a.preview, "--preview=");
        push_prefixed(&mut out, &a.with_nth, "--with-nth=");
        push_flag(&mut out, a.ignore_case, "--ignore-case");
        push_prefixed(&mut out, &a.query, "--query=");
        push_flag(&mut out, a.cycle, "--cycle");
        push_prefixed(&mut out, &a.delimiter, "--delimiter=");
        push_prefixed(&mut out, &a.preview_window, "--preview-window=");
        out
    }
}

/// Options of a rofi run; `process_stdin` is what it is given to choose from.
#[derive(Default, Debug)]
pub struct RofiArgs {
    pub process_stdin: Option<String>,
    pub mesg: Option<String>,
    pub filter: Option<String>,
    pub sort: bool,
    pub show_icons: bool,
    pub show: Option<String>,
    pub drun_categories: Option<String>,
    pub theme: Option<String>,
    pub dmenu: bool,
    pub case_sensitive: bool,
    pub width: Option<u32>,
    pub left_display_prompt: Option<String>,
    pub entry_prompt: Option<String>,
    pub display_columns: Option<u32>,
}

/// The rofi picker.
pub struct Rofi {
    pub executable: String,
    pub args: Vec<String>,
}

/// `[flag, n]` with `n` in decimal, when a number is given.
pub open spec fn number_arg(n: Option<u32>, flag: Seq<char>) -> Seq<Seq<char>> {
    match n {
        Some(v) => seq![flag, decimal_text(v as nat)],
        None => Seq::empty(),
    }
}

fn push_number(out: &mut Vec<String>, n: Option<u32>, flag: &str)
    ensures
        final(out).deep_view() == old(out).deep_view() + number_arg(n, flag@),
{
    match n {
        Some(v) => {
            out.push(flag.to_owned());
            out.push(decimal_string(v as usize));
        },
        None => {},
    }
    assert(final(out).deep_view() =~= old(out).deep_view() + number_arg(n, flag@));
}

pub open spec fn rofi_command(base: Seq<Seq<char>>, a: RofiArgs) -> Seq<Seq<char>> {
    base + pair_arg(a.filter.deep_view(), "-filter"@) + flag_arg(a.show_icons, "-show-icons"@)
        + pair_arg(a.drun_categories.deep_view(), "-drun-categories"@) + pair_arg(
        a.theme.deep_view(),
        "-theme"@,
    ) + flag_arg(a.sort, "-sort"@) + flag_arg(a.dmenu, "-dmenu"@) + flag_arg(
        a.case_sensitive,
        "-i"@,
    ) + number_arg(a.width, "-width"@) + pair_arg(a.show.deep_view(), "-show"@) + pair_arg(
        a.left_display_prompt.deep_view(),
        "-left-display-prompt"@,
    ) + pair_arg(a.entry_prompt.deep_view(), "-p"@) + number_arg(
        a.display_columns,
        "-display-columns"@,
    ) + pair_arg(a.mesg.deep_view(), "-mesg"@)
}

impl Rofi {
    pub fn new() -> (r: Self)
        ensures
            r.executable@ == "rofi"@,
            r.args@.len() == 0,
    {
        Rofi { executable: String::from_str("rofi"), args: Vec::new() }
    }

    /// The arguments rofi is started with.
    pub fn command_args(&self, a: &RofiArgs) -> (r: Vec<String>)
        ensures
            r.deep_view() == rofi_command(self.args.deep_view(), *a),
    {
        let mut out = copy_strings(&self.args);
        push_pair(&mut out, &a.filter, "-filter");
        push_flag(&mut out, a.show_icons, "-show-icons");
        push_pair(&mut out, &a.drun_categories, "-drun-categories");
        push_pair(&mut out, &a.theme, "-theme");
        push_flag(&mut out, a.sort, "-sort");
        push_flag(&mut out, a.dmenu, "-dmenu");
        push_flag(&mut out, a.case_sensitive, "-i");
        push_number(&mut out, a.width, "-width");
        push_pair(&mut out, &a.show, "-show");
        push_pair(&mut out, &a.left_display_prompt, "-left-display-prompt");
        push_pair(&mut out, &a.entry_prompt, "-p");
        push_number(&mut out, a.display_columns, "-display-columns");
        push_pair(&mut out, &a.mesg, "-mesg");
        out
    }
}

/// Options of an ffmpeg download: the stream, the subtitle files to embed and
/// their language, and where to write.
#[derive(Default)]
pub struct FfmpegArgs<'a> {
    pub input_file: String,
    pub stats: bool,
    pub log_level: Option<String>,
    pub output_file: String,
    pub subtitle_files: Option<&'a Vec<String>>,
    pub subtitle_language: Option<String>,
    pub codec: Option<String>,
}

/// The ffmpeg downloader.
pub struct Ffmpeg {
    pub executable: String,
    pub args: Vec<String>,
}

/// `-i <file>` for each subtitle file.
pub open spec fn subtitle_inputs(files: Seq<Seq<char>>) -> Seq<Seq<char>>
    decreases files.len(),
{
    if files.len() == 0 {
        Seq::empty()
    } else {
        subtitle_inputs(files.drop_last()) + seq!["-i"@, files.last()]
    }
}

/// `-map <i>` for `i` from 1 to `n`.
pub open spec fn subtitle_maps(n: nat) -> Seq<Seq<char>>
    decreases n,
{
    if n == 0 {
        Seq::empty()
    } else {
        subtitle_maps((n - 1) as nat) + seq!["-map"@, decimal_text(n)]
    }
}

/// `-metadata:s:s:<i-1> language=<lang>_<i>` (one argument) for `i` from 1
/// to `n`.
pub open spec fn subtitle_metadata(n: nat, lang: Seq<char>) -> Seq<Seq<char>>
    decreases n,
{
    if n == 0 {
        Seq::empty()
    } else {
        subtitle_metadata((n - 1) as nat, lang) + seq![
            "-metadata:s:s:"@ + decimal_text((n - 1) as nat) + " language="@ + lang + "_"@
                + decimal_text(n),
        ]
    }
}

/// The subtitle language, English when none is given.
pub open spec fn language_or_english(l: Option<Seq<char>>) -> Seq<char> {
    match l {
        Some(v) => v,
        None => "English"@,
    }
}

/// The arguments that embed the subtitle files: each as its own input with
/// its own language tag when there are several, else one input.
pub open spec fn subtitle_args(files: Option<Seq<Seq<char>>>, lang: Seq<char>) -> Seq<Seq<char>> {
    match files {
        None => Seq::empty(),
        Some(f) => if f.len() > 1 {
            subtitle_inputs(f) + seq!["-map"@, "0:v"@, "-map"@, "0:a"@] + subtitle_maps(f.len())
                + seq!["-c:v"@, "copy"@, "-c:a"@, "copy"@, "-c:s"@, "srt"@] + subtitle_metadata(
                f.len(),
                lang,
            )
        } else {
            seq![
                "-i"@,
                joined(f, "\n"@),
                "-map"@,
                "0:v"@,
                "-map"@,
                "0:a"@,
                "-map"@,
                "1"@,
                "-metadata:s:s:0"@,
                "language="@ + lang,
            ]
        },
    }
}

pub open spec fn ffmpeg_command(base: Seq<Seq<char>>, a: FfmpegArgs) -> Seq<Seq<char>> {
    base + seq!["-i"@, a.input_file@] + flag_arg(a.stats, "-stats"@) + pair_arg(
        a.log_level.deep_view(),
        "-loglevel"@,
    ) + subtitle_args(
        match a.subtitle_files {
            Some(f) => Some(f.deep_view()),
            None => None,
        },
        language_or_english(a.subtitle_language.deep_view()),
    ) + pair_arg(a.codec.deep_view(), "-c"@) + seq![a.output_file@]
}

fn push_strs(out: &mut Vec<String>, items: &[&str])
    ensures
        final(out).deep_view() == old(out).deep_view() + items@.map_values(|s: &str| s@),
{
    let mut i: usize = 0;
    while i < items.len()
        invariant
            i <= items@.len(),
            out.deep_view() == old(out).deep_view() + items@.take(i as int).map_values(
                |s: &str| s@,
            ),
        decreases items@.len() - i,
    {
        let ghost before = out.deep_view();
        out.push(items[i].to_owned());
        assert(items@.take(i + 1).map_values(|s: &str| s@) =~= items@.take(i as int).map_values(
            |s: &str| s@,
        ).push(items@[i as int]@));
        assert(out.deep_view() =~= before.push(items@[i as int]@));
        i = i + 1;
    }
    assert(items@.take(items@.len() as int) =~= items@);
}

fn push_subtitles(out: &mut Vec<String>, files: &Vec<String>, lang: &str)
    ensures
        final(out).deep_view() == old(out).deep_view() + subtitle_args(Some(files.deep_view()), lang@),
{
    let n = files.len();
    let ghost f = files.deep_view();
    let ghost start = out.deep_view();
    proof {
        reveal_strlit("-i");
        reveal_strlit("-map");
    }
    if n > 1 {
        let mut i: usize = 0;
        assert(f.take(0) =~= Seq::<Seq<char>>::empty());
        assert(start + subtitle_inputs(f.take(0)) =~= start);
        while i < n
            invariant
                n == files@.len(),
                f == files.deep_view(),
                i <= n,
                out.deep_view() == start + subtitle_inputs(f.take(i as int)),
            decreases n - i,
        {
            let ghost before = out.deep_view();
            assert(f.take(i + 1).drop_last() =~= f.take(i as int));
            assert(f.take(i + 1).last() == f[i as int]);
            assert(subtitle_inputs(f.take(i + 1)) == subtitle_inputs(f.take(i as int)) + seq![
                "-i"@,
                f[i as int],
            ]);
            out.push(String::from_str("-i"));
            out.push(files[i].clone());
            assert(out.deep_view() =~= before + seq!["-i"@, f[i as int]]);
            assert(out.deep_view() =~= start + subtitle_inputs(f.take(i + 1)));
            i = i + 1;
        }
        assert(f.take(n as int) =~= f);
        let ghost after_inputs = out.deep_view();
        push_strs(out, &["-map", "0:v", "-map", "0:a"]);
        let ghost after_streams = out.deep_view();
        let mut k: usize = 0;
        assert(after_streams + subtitle_maps(0) =~= after_streams);
        while k < n
            invariant
                n == files@.len(),
                k <= n,
                out.deep_view() == after_streams + subtitle_maps(k as nat),
            decreases n - k,
        {
            let ghost before = out.deep_view();
            out.push(String::from_str("-map"));
            out.push(decimal_string(k + 1));
            assert(out.deep_view() =~= before + seq!["-map"@, decimal_text((k + 1) as nat)]);
            assert(out.deep_view() =~= after_streams + subtitle_maps((k + 1) as nat));
            k = k + 1;
        }
        let ghost after_maps = out.deep_view();
        push_strs(out, &["-c:v", "copy", "-c:a", "copy", "-c:s", "srt"]);
        let ghost after_codecs = out.deep_view();
        let mut k: usize = 0;
        assert(after_codecs + subtitle_metadata(0, lang@) =~= after_codecs);
        while k < n
            invariant
                n == files@.len(),
                k <= n,
                out.deep_view() == after_codecs + subtitle_metadata(k as nat, lang@),
            decreases n - k,
        {
            let ghost before = out.deep_view();
            let mut m = String::from_str("-metadata:s:s:");
            m.append(decimal_string(k).as_str());
            m.append(" language=");
            m.append(lang);
            m.append("_");
            m.append(decimal_string(k + 1).as_str());
            out.push(m);
            assert(out.deep_view() =~= before.push(
                "-metadata:s:s:"@ + decimal_text(k as nat) + " language="@ + lang@ + "_"@
                    + decimal_text((k + 1) as nat),
            ));
            assert(out.deep_view() =~= after_codecs + subtitle_metadata((k + 1) as nat, lang@));
            k = k + 1;
        }
        assert(out.deep_view() =~= start + subtitle_args(Some(f), lang@));
    } else {
        let joined_files = join_items(files, "\n", false);
        assert(joined_files@ == joined(f, "\n"@));
        out.push(String::from_str("-i"));
        out.push(joined_files);
        let ghost mid = out.deep_view();
        assert(mid =~= start + seq!["-i"@, joined(f, "\n"@)]);
        let items: [&str; 7] = ["-map", "0:v", "-map", "0:a", "-map", "1", "-metadata:s:s:0"];
        push_strs(out, &items);
        assert(items@.map_values(|s: &str| s@) =~= seq![
            "-map"@,
            "0:v"@,
            "-map"@,
            "0:a"@,
            "-map"@,
            "1"@,
            "-metadata:s:s:0"@,
        ]);
        let ghost after = out.deep_view();
        assert(after == mid + items@.map_values(|s: &str| s@));
        let mut l = String::from_str("language=");
        l.append(lang);
        out.push(l);
        assert(out.deep_view() =~= after.push("language="@ + lang@));
        assert(f.len() <= 1);
        assert(out.deep_view() =~= mid + seq![
            "-map"@,
            "0:v"@,
            "-map"@,
            "0:a"@,
            "-map"@,
            "1"@,
            "-metadata:s:s:0"@,
        ].push("language="@ + lang@));
        assert(out.deep_view() =~= start + subtitle_args(Some(f), lang@));
    }
}

impl Ffmpeg {
    pub fn new() -> (r: Self)
        ensures
            r.executable@ == "ffmpeg"@,
            r.args@.len() == 0,
    {
        Ffmpeg { executable: String::from_str("ffmpeg"), args: Vec::new() }
    }

    /// The arguments ffmpeg is started with to download `input_file` into
    /// `output_file` with the subtitles embedded.
    pub fn command_args(&self, a: &FfmpegArgs) -> (r: Vec<String>)
        ensures
            r.deep_view() == ffmpeg_command(self.args.deep_view(), *a),
    {
        let mut out = copy_strings(&self.args);
        out.push(String::from_str("-i"));
        out.push(a.input_file.clone());
        proof {
            reveal_strlit("-i");
        }
        assert(out.deep_view() =~= self.args.deep_view() + seq!["-i"@, a.input_file@]);
        push_flag(&mut out, a.stats, "-stats");
        push_pair(&mut out, &a.log_level, "-loglevel");
        match a.subtitle_files {
            Some(f) => {
                let lang = match &a.subtitle_language {
                    Some(l) => l.clone(),
                    None => String::from_str("English"),
                };
                push_subtitles(&mut out, f, lang.as_str());
            },
            None => {},
        }
        push_pair(&mut out, &a.codec, "-c");
        out.push(a.output_file.clone());
        out
    }
}

} // verus!
