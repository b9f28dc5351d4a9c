//! The external commands of a job: fetching and reading the repository's
//! history, and the renderer piped into the encoder.

use vstd::prelude::*;
use crate::text::{decimal, decimal_text, push_arg, texts};

verus! {

/// Directory that holds the rendered videos.
pub const OUTPUT_DIR: &'static str = "/gource_videos";

/// Rendering options chosen by the caller. The default is all toggles off
/// and all font sizes zero.
#[derive(Clone, Copy, Debug, PartialEq, Eq, Structural)]
pub struct GourceSettings {
    pub show_file_extension_key: bool,
    pub show_usernames: bool,
    pub show_dirnames: bool,
    pub dir_font_size: u32,
    pub file_font_size: u32,
    pub user_font_size: u32,
}

impl GourceSettings {
    pub open spec fn is_default(self) -> bool {
        &&& !self.show_file_extension_key
        &&& !self.show_usernames
        &&& !self.show_dirnames
        &&& self.dir_font_size == 0
        &&& self.file_font_size == 0
        &&& self.user_font_size == 0
    }
}

impl Default for GourceSettings {
    fn default() -> (r: GourceSettings)
        ensures
            r.is_default(),
    {
        GourceSettings {
            show_file_extension_key: false,
            show_usernames: false,
            show_dirnames: false,
            dir_font_size: 0,
            file_font_size: 0,
            user_font_size: 0,
        }
    }
}

/// A program to run: its name, its arguments and the directory to run it in.
pub struct ProcessSpec {
    pub program: String,
    pub args: Vec<String>,
    pub current_dir: Option<String>,
}

pub ghost struct ProcessView {
    pub program: Seq<char>,
    pub args: Seq<Seq<char>>,
    pub current_dir: Option<Seq<char>>,
}

impl View for ProcessSpec {
    type V = ProcessView;

    open spec fn view(&self) -> ProcessView {
        ProcessView {
            program: self.program@,
            args: texts(self.args@),
            current_dir: self.current_dir.deep_view(),
        }
    }
}

/// Path of the video of job `job_id`; also the address it is served under.
pub open spec fn video_path_text(job_id: Seq<char>) -> Seq<char> {
    "/gource_videos/gource_"@ + job_id + ".mp4"@
}

/// `git clone <url> <dir>`.
pub open spec fn clone_process(url: Seq<char>, dir: Seq<char>) -> ProcessView {
    ProcessView { program: "git"@, args: seq!["clone"@, url, dir], current_dir: None }
}

/// `git rev-list --count HEAD`, in `dir`.
pub open spec fn count_process(dir: Seq<char>) -> ProcessView {
    ProcessView {
        program: "git"@,
        args: seq!["rev-list"@, "--count"@, "HEAD"@],
        current_dir: Some(dir),
    }
}

/// `git log --format=%ad --date=short`, in `dir`: one date per commit.
pub open spec fn dates_process(dir: Seq<char>) -> ProcessView {
    ProcessView {
        program: "git"@,
        args: seq!["log"@, "--format=%ad"@, "--date=short"@],
        current_dir: Some(dir),
    }
}

/// The elements the renderer hides: always the progress bar; file names
/// when asked; user and directory names unless the settings show them.
pub open spec fn hidden_elements(settings: GourceSettings, hide_filenames: bool) -> Seq<char> {
    "progress"@ + (if hide_filenames {
        ",filenames"@
    } else {
        Seq::empty()
    }) + (if !settings.show_usernames {
        ",usernames"@
    } else {
        Seq::empty()
    }) + (if !settings.show_dirnames {
        ",dirnames"@
    } else {
        Seq::empty()
    })
}

/// Renderer arguments up to the title.
pub open spec fn renderer_head(dir: Seq<char>, seconds_per_day: Seq<char>) -> Seq<Seq<char>> {
    seq![
        "-a"@, "gource"@, dir, "-1920x1200"@,
        "--seconds-per-day"@, seconds_per_day,
        "--auto-skip-seconds"@, "0.001"@,
        "--max-user-speed"@, "500"@,
        "--output-framerate"@, "30"@,
        "--multi-sampling"@,
        "--bloom-intensity"@, "0.2"@,
        "--user-scale"@, "0.75"@,
        "--elasticity"@, "0.01"@,
        "--background-colour"@, "000000"@,
        "--font-size"@, "14"@,
    ]
}

/// Renderer arguments from the title on.
pub open spec fn renderer_tail(
    title: Seq<char>,
    settings: GourceSettings,
    hide_filenames: bool,
) -> Seq<Seq<char>> {
    seq![
        "--title"@, title,
        "--dir-font-size"@, decimal(settings.dir_font_size as nat),
        "--file-font-size"@, decimal(settings.file_font_size as nat),
        "--user-font-size"@, decimal(settings.user_font_size as nat),
        "--stop-at-end"@,
    ] + (if settings.show_file_extension_key {
        seq!["--key"@]
    } else {
        Seq::empty()
    }) + seq!["--hide"@, hidden_elements(settings, hide_filenames), "-o"@, "-"@]
}

/// The renderer, run in a virtual display, writing frames to its output.
pub open spec fn renderer_process(
    dir: Seq<char>,
    seconds_per_day: Seq<char>,
    title: Seq<char>,
    settings: GourceSettings,
    hide_filenames: bool,
) -> ProcessView {
    ProcessView {
        program: "xvfb-run"@,
        args: renderer_head(dir, seconds_per_day) + renderer_tail(title, settings, hide_filenames),
        current_dir: None,
    }
}

/// The encoder, reading frames from its input and writing `output`.
pub open spec fn encoder_process(output: Seq<char>) -> ProcessView {
    ProcessView {
        program: "ffmpeg"@,
        args: seq![
            "-y"@, "-r"@, "30"@, "-f"@, "image2pipe"@, "-vcodec"@, "ppm"@, "-i"@, "-"@,
            "-vcodec"@, "libx264"@, "-preset"@, "fast"@, "-crf"@, "23"@,
            "-movflags"@, "+faststart"@, "-pix_fmt"@, "yuv420p"@,
            "-vf"@, "pad=ceil(iw/2)*2:ceil(ih/2)*2"@,
            "-acodec"@, "aac"@, "-b:a"@, "128k"@, output,
        ],
        current_dir: None,
    }
}

/// Path of the video of job `job_id`.
pub fn video_path(job_id: &str) -> (r: String)
    ensures
        r@ == video_path_text(job_id@),
{
    String::from_str("/gource_videos/gource_").concat(job_id).concat(".mp4")
}

pub fn clone_command(url: &str, dir: &str) -> (r: ProcessSpec)
    ensures
        r@ == clone_process(url@, dir@),
{
    let mut args: Vec<String> = Vec::new();
    push_arg(&mut args, "clone");
    push_arg(&mut args, url);
    push_arg(&mut args, dir);
    let r = ProcessSpec { program: String::from_str("git"), args, current_dir: None };
    assert(r@.args =~= clone_process(url@, dir@).args);
    r
}

pub fn count_command(dir: &str) -> (r: ProcessSpec)
    ensures
        r@ == count_process(dir@),
{
    let mut args: Vec<String> = Vec::new();
    push_arg(&mut args, "rev-list");
    push_arg(&mut args, "--count");
    push_arg(&mut args, "HEAD");
    let r = ProcessSpec {
        program: String::from_str("git"),
        args,
        current_dir: Some(String::from_str(dir)),
    };
    assert(r@.args =~= count_process(dir@).args);
    r
}

pub fn dates_command(dir: &str) -> (r: ProcessSpec)
    ensures
        r@ == dates_process(dir@),
{
    let mut args: Vec<String> = Vec::new();
    push_arg(&mut args, "log");
    push_arg(&mut args, "--format=%ad");
    push_arg(&mut args, "--date=short");
    let r = ProcessSpec {
        program: String::from_str("git"),
        args,
        current_dir: Some(String::from_str(dir)),
    };
    assert(r@.args =~= dates_process(dir@).args);
    r
}

fn hidden_list(settings: &GourceSettings, hide_filenames: bool) -> (r: String)
    ensures
        r@ == hidden_elements(*settings, hide_filenames),
{
    let mut r = String::from_str("progress");
    if hide_filenames {
        r.append(",filenames");
    }
    if !settings.show_usernames {
        r.append(",usernames");
    }
    if !settings.show_dirnames {
        r.append(",dirnames");
    }
    assert(r@ =~= hidden_elements(*settings, hide_filenames));
    r
}

/// The renderer command for the repository in `dir`.
pub fn renderer_command(
    dir: &str,
    seconds_per_day: &str,
    title: &str,
    settings: &GourceSettings,
    hide_filenames: bool,
) -> (r: ProcessSpec)
    ensures
        r@ == renderer_process(dir@, seconds_per_day@, title@, *settings, hide_filenames),
{
    let mut args: Vec<String> = Vec::new();
    push_arg(&mut args, "-a");
    push_arg(&mut args, "gource");
    push_arg(&mut args, dir);
    push_arg(&mut args, "-1920x1200");
    push_arg(&mut args, "--seconds-per-day");
    push_arg(&mut args, seconds_per_day);
    push_arg(&mut args, "--auto-skip-seconds");
    push_arg(&mut args, "0.001");
    push_arg(&mut args, "--max-user-speed");
    push_arg(&mut args, "500");
    push_arg(&mut args, "--output-framerate");
    push_arg(&mut args, "30");
    push_arg(&mut args, "--multi-sampling");
    push_arg(&mut args, "--bloom-intensity");
    push_arg(&mut args, "0.2");
    push_arg(&mut args, "--user-scale");
    push_arg(&mut args, "0.75");
    push_arg(&mut args, "--elasticity");
    push_arg(&mut args, "0.01");
    push_arg(&mut args, "--background-colour");
    push_arg(&mut args, "000000");
    push_arg(&mut args, "--font-size");
    push_arg(&mut args, "14");
    let ghost head = texts(args@);
    assert(head =~= renderer_head(dir@, seconds_per_day@));
    push_arg(&mut args, "--title");
    push_arg(&mut args, title);
    push_arg(&mut args, "--dir-font-size");
    push_arg(&mut args, decimal_text(settings.dir_font_size as u128).as_str());
    push_arg(&mut args, "--file-font-size");
    push_arg(&mut args, decimal_text(settings.file_font_size as u128).as_str());
    push_arg(&mut args, "--user-font-size");
    push_arg(&mut args, decimal_text(settings.user_font_size as u128).as_str());
    push_arg(&mut args, "--stop-at-end");
    if settings.show_file_extension_key {
        push_arg(&mut args, "--key");
    }
    push_arg(&mut args, "--hide");
    let hidden = hidden_list(settings, hide_filenames);
    push_arg(&mut args, hidden.as_str());
    push_arg(&mut args, "-o");
    push_arg(&mut args, "-");
    let r = ProcessSpec { program: String::from_str("xvfb-run"), args, current_dir: None };
    assert(texts(r.args@) =~= renderer_head(dir@, seconds_per_day@) + renderer_tail(
        title@,
        *settings,
        hide_filenames,
    ));
    r
}

/// The encoder command writing the video to `output`.
pub fn encoder_command(output: &str) -> (r: ProcessSpec)
    ensures
        r@ == encoder_process(output@),
{
    let mut args: Vec<String> = Vec::new();
    push_arg(&mut args, "-y");
    push_arg(&mut args, "-r");
    push_arg(&mut args, "30");
    push_arg(&mut args, "-f");
    push_arg(&mut args, "image2pipe");
    push_arg(&mut args, "-vcodec");
    push_arg(&mut args, "ppm");
    push_arg(&mut args, "-i");
    push_arg(&mut args, "-");
    push_arg(&mut args, "-vcodec");
    push_arg(&mut args, "libx264");
    push_arg(&mut args, "-preset");
    push_arg(&mut args, "fast");
    push_arg(&mut args, "-crf");
    push_arg(&mut args, "23");
    push_arg(&mut args, "-movflags");
    push_arg(&mut args, "+faststart");
    push_arg(&mut args, "-pix_fmt");
    push_arg(&mut args, "yuv420p");
    push_arg(&mut args, "-vf");
    push_arg(&mut args, "pad=ceil(iw/2)*2:ceil(ih/2)*2");
    push_arg(&mut args, "-acodec");
    push_arg(&mut args, "aac");
    push_arg(&mut args, "-b:a");
    push_arg(&mut args, "128k");
    push_arg(&mut args, output);
    let r = ProcessSpec { program: String::from_str("ffmpeg"), args, current_dir: None };
    assert(r@.args =~= encoder_process(output@).args);
    r
}

} // verus!
