//! Building the invocation of the external downloader.
//!
//! Given a download request, the launcher produces the full ordered
//! argument vector, deterministically: the machine-parsable progress
//! template, the post-processing tool location when one is known, the
//! output path template, the format selection, the embedding switches, and
//! the source URL last. Malformed requests are never rejected here; they
//! are encoded into arguments whose failure surfaces when the process
//! runs.

use vstd::prelude::*;

use crate::text::{contains_str, has_substring, str_eq, trim_spec, trim_str};

verus! {

/// One download request, immutable once submitted: the caller-assigned
/// identifier, the source URL, the destination directory, and the format
/// and embedding choices.
#[derive(Debug)]
pub struct DownloadRequest {
    pub id: String,
    pub url: String,
    pub output_path: String,
    pub format: Option<String>,
    pub audio_only: bool,
    pub quality: Option<String>,
    pub embed_thumbnail: bool,
    pub embed_metadata: bool,
}

/// The mathematical content of a download request.
pub struct RequestView {
    pub id: Seq<char>,
    pub url: Seq<char>,
    pub output_path: Seq<char>,
    pub format: Option<Seq<char>>,
    pub audio_only: bool,
    pub quality: Option<Seq<char>>,
    pub embed_thumbnail: bool,
    pub embed_metadata: bool,
}

impl View for DownloadRequest {
    type V = RequestView;

    open spec fn view(&self) -> RequestView {
        RequestView {
            id: self.id@,
            url: self.url@,
            output_path: self.output_path@,
            format: match self.format {
                Some(ref f) => Some(f@),
                None => None,
            },
            audio_only: self.audio_only,
            quality: match self.quality {
                Some(ref q) => Some(q@),
                None => None,
            },
            embed_thumbnail: self.embed_thumbnail,
            embed_metadata: self.embed_metadata,
        }
    }
}

/// The format selector for a named quality tier: a best-effort
/// video-plus-audio selector with a height ceiling for the tiers below
/// "best", and the unconstrained selector for the top tier and for
/// anything unrecognized.
pub open spec fn quality_selector(q: Seq<char>) -> Seq<char> {
    if q == "best"@ || q == "4k"@ || q == "2160p"@ {
        "bestvideo+bestaudio/best"@
    } else if q == "1080p"@ {
        "bestvideo[height<=1080]+bestaudio/best[height<=1080]/best"@
    } else if q == "720p"@ {
        "bestvideo[height<=720]+bestaudio/best[height<=720]/best"@
    } else if q == "480p"@ {
        "bestvideo[height<=480]+bestaudio/best[height<=480]/best"@
    } else if q == "360p"@ {
        "bestvideo[height<=360]+bestaudio/best[height<=360]/best"@
    } else {
        "bestvideo+bestaudio/best"@
    }
}

/// The format-selection arguments, in precedence order: the audio-only
/// flag wins; otherwise a non-empty explicit format string is used
/// verbatim (an empty one selects nothing); otherwise a quality tier maps
/// to a selector and forces a known container for the merged output.
pub open spec fn format_args(req: RequestView) -> Seq<Seq<char>> {
    if req.audio_only {
        seq!["-x"@, "--audio-format"@, "mp3"@, "--audio-quality"@, "0"@]
    } else {
        match req.format {
            Some(f) => if f.len() > 0 {
                seq!["-f"@, f]
            } else {
                Seq::<Seq<char>>::empty()
            },
            None => match req.quality {
                Some(q) => seq!["-f"@, quality_selector(q), "--merge-output-format"@, "mp4"@],
                None => Seq::<Seq<char>>::empty(),
            },
        }
    }
}

/// The embedding switches requested.
pub open spec fn embed_args(req: RequestView) -> Seq<Seq<char>> {
    (if req.embed_thumbnail {
        seq!["--embed-thumbnail"@]
    } else {
        Seq::<Seq<char>>::empty()
    }) + (if req.embed_metadata {
        seq!["--embed-metadata"@]
    } else {
        Seq::<Seq<char>>::empty()
    })
}

/// The full ordered argument vector for one download request.
pub open spec fn download_args(ffmpeg_location: Option<Seq<char>>, req: RequestView) -> Seq<
    Seq<char>,
> {
    seq![
        "--progress"@,
        "--newline"@,
        "--no-warnings"@,
        "--progress-template"@,
        "download:%(progress._percent_str)s|%(progress._speed_str)s|%(progress._eta_str)s|%(progress._downloaded_bytes_str)s|%(progress._total_bytes_str)s"@,
    ] + (match ffmpeg_location {
        Some(d) => seq!["--ffmpeg-location"@, d],
        None => Seq::<Seq<char>>::empty(),
    }) + seq!["-o"@, req.output_path + "/%(title)s.%(ext)s"@] + format_args(req) + embed_args(req)
        + seq![req.url]
}

/// The launcher: where the downloader binary was resolved to, and the
/// directory of the post-processing tool when one was found.
pub struct Downloader {
    yt_dlp_path: String,
    ffmpeg_location: Option<String>,
}

/// The mathematical content of a launcher.
pub struct DownloaderView {
    pub yt_dlp_path: Seq<char>,
    pub ffmpeg_location: Option<Seq<char>>,
}

impl View for Downloader {
    type V = DownloaderView;

    closed spec fn view(&self) -> DownloaderView {
        DownloaderView {
            yt_dlp_path: self.yt_dlp_path@,
            ffmpeg_location: match self.ffmpeg_location {
                Some(ref d) => Some(d@),
                None => None,
            },
        }
    }
}

/// Information about the resolved downloader binary: the version its
/// `--version` call printed, where it lives, and whether it is the
/// bundled copy.
#[derive(Debug)]
pub struct YtDlpInfo {
    pub version: String,
    pub path: String,
    pub is_embedded: bool,
}

impl Downloader {
    /// A launcher over a resolved downloader binary and, when known, the
    /// directory holding the post-processing tool.
    pub fn new(yt_dlp_path: String, ffmpeg_location: Option<String>) -> (r: Downloader)
        ensures
            r@.yt_dlp_path == yt_dlp_path@,
            r@.ffmpeg_location == match ffmpeg_location {
                Some(d) => Some(d@),
                None => None::<Seq<char>>,
            },
    {
        Downloader { yt_dlp_path, ffmpeg_location }
    }

    /// The resolved path of the downloader binary, for the runtime that
    /// spawns it.
    pub fn yt_dlp_path(&self) -> (r: &String)
        ensures
            r@ == self@.yt_dlp_path,
    {
        &self.yt_dlp_path
    }

    /// Describes the downloader installation from the text its version
    /// call printed: the version is that text trimmed, and the binary
    /// counts as embedded when its path runs through a `binaries`
    /// directory.
    pub fn yt_dlp_info(&self, version_output: &str) -> (r: YtDlpInfo)
        ensures
            r.version@ == trim_spec(version_output@),
            r.path@ == self@.yt_dlp_path,
            r.is_embedded == has_substring(self@.yt_dlp_path, "binaries"@),
    {
        YtDlpInfo {
            version: trim_str(version_output).to_owned(),
            path: self.yt_dlp_path.clone(),
            is_embedded: contains_str(self.yt_dlp_path.as_str(), "binaries"),
        }
    }

    /// Builds the full argument vector for `req`, exactly as
    /// `download_args` lays it out.
    pub fn build_download_args(&self, req: &DownloadRequest) -> (r: Vec<String>)
        ensures
            r.deep_view() == download_args(self@.ffmpeg_location, req@),
    {
        let mut args: Vec<String> = Vec::new();
        args.push(String::from_str("--progress"));
        args.push(String::from_str("--newline"));
        args.push(String::from_str("--no-warnings"));
        args.push(String::from_str("--progress-template"));
        args.push(
            String::from_str(
                "download:%(progress._percent_str)s|%(progress._speed_str)s|%(progress._eta_str)s|%(progress._downloaded_bytes_str)s|%(progress._total_bytes_str)s",
            ),
        );
        match &self.ffmpeg_location {
            Some(d) => {
                args.push(String::from_str("--ffmpeg-location"));
                args.push(d.clone());
            },
            None => {},
        }
        args.push(String::from_str("-o"));
        args.push(req.output_path.clone().concat("/%(title)s.%(ext)s"));
        if req.audio_only {
            args.push(String::from_str("-x"));
            args.push(String::from_str("--audio-format"));
            args.push(String::from_str("mp3"));
            args.push(String::from_str("--audio-quality"));
            args.push(String::from_str("0"));
        } else {
            match &req.format {
                Some(f) => {
                    if !f.as_str().is_empty() {
                        args.push(String::from_str("-f"));
                        args.push(f.clone());
                    }
                },
                None => {
                    match &req.quality {
                        Some(q) => {
                            args.push(String::from_str("-f"));
                            args.push(select_quality(q.as_str()));
                            args.push(String::from_str("--merge-output-format"));
                            args.push(String::from_str("mp4"));
                        },
                        None => {},
                    }
                },
            }
        }
        if req.embed_thumbnail {
            args.push(String::from_str("--embed-thumbnail"));
        }
        if req.embed_metadata {
            args.push(String::from_str("--embed-metadata"));
        }
        args.push(req.url.clone());
        proof {
            assert(args.deep_view() =~= download_args(self@.ffmpeg_location, req@));
        }
        args
    }
}

/// The bundled locations tried for the downloader binary, relative to the
/// application's resource directory, in probing order.
pub open spec fn yt_dlp_candidates(windows: bool, macos: bool) -> Seq<Seq<char>> {
    if windows {
        seq!["binaries/yt-dlp.exe"@, "yt-dlp.exe"@]
    } else if macos {
        seq!["binaries/yt-dlp_macos"@, "yt-dlp_macos"@, "binaries/yt-dlp"@, "yt-dlp"@]
    } else {
        seq!["binaries/yt-dlp"@, "yt-dlp"@]
    }
}

/// The executable counterpart of `yt_dlp_candidates`: the relative paths a
/// resolver probes for the downloader binary, in order.
pub fn yt_dlp_candidate_paths(windows: bool, macos: bool) -> (r: Vec<String>)
    ensures
        r.deep_view() == yt_dlp_candidates(windows, macos),
{
    let mut r: Vec<String> = Vec::new();
    if windows {
        r.push(String::from_str("binaries/yt-dlp.exe"));
        r.push(String::from_str("yt-dlp.exe"));
    } else if macos {
        r.push(String::from_str("binaries/yt-dlp_macos"));
        r.push(String::from_str("yt-dlp_macos"));
        r.push(String::from_str("binaries/yt-dlp"));
        r.push(String::from_str("yt-dlp"));
    } else {
        r.push(String::from_str("binaries/yt-dlp"));
        r.push(String::from_str("yt-dlp"));
    }
    proof {
        assert(r.deep_view() =~= yt_dlp_candidates(windows, macos));
    }
    r
}

/// The bundled locations tried for the post-processing tool, relative to
/// the application's resource directory, in probing order.
pub open spec fn ffmpeg_candidates(windows: bool) -> Seq<Seq<char>> {
    if windows {
        seq!["binaries/ffmpeg.exe"@, "ffmpeg.exe"@]
    } else {
        seq!["binaries/ffmpeg"@, "ffmpeg"@]
    }
}

/// The executable counterpart of `ffmpeg_candidates`.
pub fn ffmpeg_candidate_paths(windows: bool) -> (r: Vec<String>)
    ensures
        r.deep_view() == ffmpeg_candidates(windows),
{
    let mut r: Vec<String> = Vec::new();
    if windows {
        r.push(String::from_str("binaries/ffmpeg.exe"));
        r.push(String::from_str("ffmpeg.exe"));
    } else {
        r.push(String::from_str("binaries/ffmpeg"));
        r.push(String::from_str("ffmpeg"));
    }
    proof {
        assert(r.deep_view() =~= ffmpeg_candidates(windows));
    }
    r
}

/// The file name of the downloader binary inside the application data
/// directory.
pub fn yt_dlp_binary_name(windows: bool) -> (r: String)
    ensures
        r@ == if windows {
            "yt-dlp.exe"@
        } else {
            "yt-dlp"@
        },
{
    if windows {
        String::from_str("yt-dlp.exe")
    } else {
        String::from_str("yt-dlp")
    }
}

/// The file name of the post-processing binary inside the application
/// data directory.
pub fn ffmpeg_binary_name(windows: bool) -> (r: String)
    ensures
        r@ == if windows {
            "ffmpeg.exe"@
        } else {
            "ffmpeg"@
        },
{
    if windows {
        String::from_str("ffmpeg.exe")
    } else {
        String::from_str("ffmpeg")
    }
}

/// The popular platforms the downloader supports, as shown to the user.
pub open spec fn supported_platforms() -> Seq<Seq<char>> {
    seq![
        "YouTube"@,
        "Vimeo"@,
        "Dailymotion"@,
        "Facebook"@,
        "Instagram"@,
        "Twitter/X"@,
        "TikTok"@,
        "Twitch"@,
        "SoundCloud"@,
        "Spotify (with cookies)"@,
        "Reddit"@,
        "Bilibili"@,
        "NicoNico"@,
        "Bandcamp"@,
        "Mixcloud"@,
        "And 1000+ more..."@,
    ]
}

/// The list of popular supported platforms, exactly as `supported_platforms`
/// spells them.
pub fn get_supported_platforms() -> (r: Vec<String>)
    ensures
        r.deep_view() == supported_platforms(),
{
    let mut r: Vec<String> = Vec::new();
    r.push(String::from_str("YouTube"));
    r.push(String::from_str("Vimeo"));
    r.push(String::from_str("Dailymotion"));
    r.push(String::from_str("Facebook"));
    r.push(String::from_str("Instagram"));
    r.push(String::from_str("Twitter/X"));
    r.push(String::from_str("TikTok"));
    r.push(String::from_str("Twitch"));
    r.push(String::from_str("SoundCloud"));
    r.push(String::from_str("Spotify (with cookies)"));
    r.push(String::from_str("Reddit"));
    r.push(String::from_str("Bilibili"));
    r.push(String::from_str("NicoNico"));
    r.push(String::from_str("Bandcamp"));
    r.push(String::from_str("Mixcloud"));
    r.push(String::from_str("And 1000+ more..."));
    proof {
        assert(r.deep_view() =~= supported_platforms());
    }
    r
}

/// The executable counterpart of `quality_selector`.
fn select_quality(q: &str) -> (r: String)
    ensures
        r@ == quality_selector(q@),
{
    if str_eq(q, "best") || str_eq(q, "4k") || str_eq(q, "2160p") {
        String::from_str("bestvideo+bestaudio/best")
    } else if str_eq(q, "1080p") {
        String::from_str("bestvideo[height<=1080]+bestaudio/best[height<=1080]/best")
    } else if str_eq(q, "720p") {
        String::from_str("bestvideo[height<=720]+bestaudio/best[height<=720]/best")
    } else if str_eq(q, "480p") {
        String::from_str("bestvideo[height<=480]+bestaudio/best[height<=480]/best")
    } else if str_eq(q, "360p") {
        String::from_str("bestvideo[height<=360]+bestaudio/best[height<=360]/best")
    } else {
        String::from_str("bestvideo+bestaudio/best")
    }
}

} // verus!
