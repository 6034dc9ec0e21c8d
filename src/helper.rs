//! Small pieces of the media helper service: path allow-listing, hardware
//! acceleration and downloader discovery results, cache statistics, and the
//! plain records the service passes around.

use vstd::prelude::*;
use vstd::string::*;
use crate::text::{split_on, split_trimmed, trim};

verus! {

/// `prefix` opens `s`.
pub open spec fn starts_with(s: Seq<char>, prefix: Seq<char>) -> bool {
    prefix.len() <= s.len() && s.subrange(0, prefix.len() as int) == prefix
}

fn str_starts_with(s: &str, prefix: &str) -> (r: bool)
    ensures
        r == starts_with(s@, prefix@),
{
    let n = s.unicode_len();
    let m = prefix.unicode_len();
    if m > n {
        return false;
    }
    let mut i: usize = 0;
    while i < m
        invariant
            n == s@.len(),
            m == prefix@.len(),
            m <= n,
            0 <= i <= m,
            forall|j: int| 0 <= j < i ==> s@[j] == prefix@[j],
        decreases m - i,
    {
        if s.get_char(i) != prefix.get_char(i) {
            assert(s@.subrange(0, m as int)[i as int] != prefix@[i as int]);
            return false;
        }
        i = i + 1;
    }
    assert(s@.subrange(0, m as int) =~= prefix@);
    true
}

pub open spec fn is_sep(c: char) -> bool {
    c == '/' || c == '\\'
}

/// `path` is the directory `dir` or lies below it: it continues with a
/// separator right after `dir` (or `dir` itself ends with one).
pub open spec fn lies_under(path: Seq<char>, dir: Seq<char>) -> bool {
    path == dir || (starts_with(path, dir) && dir.len() > 0
        && (is_sep(dir.last()) || (path.len() > dir.len() && is_sep(path[dir.len() as int]))))
}

/// A `..` component starts at index `i` of `path`.
pub open spec fn parent_at(path: Seq<char>, i: int) -> bool {
    0 <= i && i + 1 < path.len() && path[i] == '.' && path[i + 1] == '.'
        && (i == 0 || is_sep(path[i - 1]))
        && (i + 2 == path.len() || is_sep(path[i + 2]))
}

/// `path` has a `..` component.
pub open spec fn has_parent_component(path: Seq<char>) -> bool {
    exists|i: int| parent_at(path, i)
}

fn char_is_sep(c: char) -> (r: bool)
    ensures
        r == is_sep(c),
{
    c == '/' || c == '\\'
}

fn parent_component_in(path: &str) -> (r: bool)
    ensures
        r == has_parent_component(path@),
{
    let n = path.unicode_len();
    let mut i: usize = 0;
    while i < n && i + 1 < n
        invariant
            n == path@.len(),
            0 <= i <= n,
            forall|j: int| 0 <= j < i ==> !parent_at(path@, j),
        decreases n - i,
    {
        if path.get_char(i) == '.' && path.get_char(i + 1) == '.'
            && (i == 0 || char_is_sep(path.get_char(i - 1)))
            && (i + 2 == n || char_is_sep(path.get_char(i + 2)))
        {
            assert(parent_at(path@, i as int));
            return true;
        }
        i = i + 1;
    }
    assert forall|j: int| !parent_at(path@, j) by {
        if 0 <= j && j < i {
        }
    }
    false
}

fn path_lies_under(path: &str, dir: &str) -> (r: bool)
    ensures
        r == lies_under(path@, dir@),
{
    assert(path@.subrange(0, path@.len() as int) =~= path@);
    if !str_starts_with(path, dir) {
        return false;
    }
    let n = path.unicode_len();
    let m = dir.unicode_len();
    if n == m {
        assert(path@ =~= path@.subrange(0, m as int));
        return true;
    }
    if m == 0 {
        return false;
    }
    char_is_sep(dir.get_char(m - 1)) || char_is_sep(path.get_char(m))
}

/// Whether `path` lies inside one of the `allowed` directories: it is one
/// of them or continues below one after a separator, and it has no `..`
/// component that could climb back out.
pub fn is_path_allowed(path: &str, allowed: &Vec<String>) -> (r: bool)
    ensures
        r == (!has_parent_component(path@)
            && exists|i: int| 0 <= i < allowed@.len() && lies_under(path@, #[trigger] allowed@[i]@)),
{
    if parent_component_in(path) {
        return false;
    }
    let mut i: usize = 0;
    while i < allowed.len()
        invariant
            0 <= i <= allowed@.len(),
            !has_parent_component(path@),
            forall|j: int| 0 <= j < i ==> !lies_under(path@, #[trigger] allowed@[j]@),
        decreases allowed@.len() - i,
    {
        if path_lies_under(path, allowed[i].as_str()) {
            assert(lies_under(path@, allowed@[i as int]@));
            return true;
        }
        i = i + 1;
    }
    false
}

/// Hardware acceleration methods, given which device nodes exist: the DRM
/// render node (VAAPI), the NVIDIA device (NVDEC), and the V4L2 codec
/// device (V4L2 M2M), in that order.
pub fn detect_hw_accel(render_node: bool, nvidia_device: bool, v4l2_device: bool) -> (r: Vec<String>)
    ensures
        r@.len() == (if render_node { 1int } else { 0 }) + (if nvidia_device { 1int } else { 0 })
            + (if v4l2_device { 1int } else { 0 }),
        render_node ==> r@[0]@ == "vaapi"@,
        nvidia_device ==> r@[if render_node { 1int } else { 0 }]@ == "nvdec"@,
        v4l2_device ==> r@[r@.len() - 1]@ == "v4l2m2m"@,
{
    let mut available: Vec<String> = Vec::new();
    if render_node {
        available.push(String::from_str("vaapi"));
    }
    if nvidia_device {
        available.push(String::from_str("nvdec"));
    }
    if v4l2_device {
        available.push(String::from_str("v4l2m2m"));
    }
    available
}

/// The downloader command: the located executable, else `yt-dlp` from PATH.
pub fn get_ytdlp_command(found: Option<String>) -> (r: String)
    ensures
        r@ == match found { Some(p) => p@, None => "yt-dlp"@ },
{
    match found {
        Some(p) => p,
        None => String::from_str("yt-dlp"),
    }
}

/// Extra downloader arguments selecting the located JavaScript runtime.
pub fn get_deno_args(deno_path: Option<String>) -> (r: Vec<String>)
    ensures
        match deno_path {
            Some(p) => r@.len() == 2 && r@[0]@ == "--js-runtimes"@ && r@[1]@ == "deno:"@ + p@,
            None => r@.len() == 0,
        },
{
    match deno_path {
        Some(p) => {
            let mut runtime = String::from_str("deno:");
            runtime.append(p.as_str());
            let mut v: Vec<String> = Vec::new();
            v.push(String::from_str("--js-runtimes"));
            v.push(runtime);
            v
        },
        None => Vec::new(),
    }
}

pub const BYTES_PER_MB: usize = 1024 * 1024;

/// A frame held in the frame cache.
#[derive(Clone, Debug)]
pub struct CachedFrame {
    pub data: Vec<u8>,
    pub width: u32,
    pub height: u32,
    /// When the frame was stored, in milliseconds of the cache's clock.
    pub timestamp_ms: u64,
}

impl CachedFrame {
    /// Bytes of pixel data.
    pub fn size(&self) -> (r: usize)
        ensures
            r == self.data@.len(),
    {
        self.data.len()
    }
}

/// Usage of the frame cache.
#[derive(Clone, Copy, Debug, PartialEq, Eq, Structural)]
pub struct CacheStats {
    pub used_bytes: usize,
    pub max_bytes: usize,
    pub frame_count: usize,
}

impl CacheStats {
    /// Used size in whole megabytes.
    pub fn used_mb(&self) -> (r: usize)
        ensures
            r == self.used_bytes / BYTES_PER_MB,
    {
        self.used_bytes / BYTES_PER_MB
    }

    /// Capacity in whole megabytes.
    pub fn max_mb(&self) -> (r: usize)
        ensures
            r == self.max_bytes / BYTES_PER_MB,
    {
        self.max_bytes / BYTES_PER_MB
    }
}

/// Settings of the helper's server.
#[derive(Clone, Debug, PartialEq, Eq)]
pub struct ServerConfig {
    pub port: u16,
    pub cache_mb: usize,
    pub max_decoders: usize,
    pub allowed_origins: Vec<String>,
}

/// Origins allowed when none are configured.
pub open spec fn default_origins() -> Seq<Seq<char>> {
    seq![
        "https://masterselects.app"@,
        "https://app.masterselects.com"@,
        "http://localhost:5173"@,
        "http://localhost:3000"@,
        "http://127.0.0.1:5173"@,
        "http://127.0.0.1:3000"@,
    ]
}

fn default_allowed_origins() -> (r: Vec<String>)
    ensures
        r@.len() == default_origins().len(),
        forall|i: int| 0 <= i < r@.len() ==> #[trigger] r@[i]@ == default_origins()[i],
{
    let mut v: Vec<String> = Vec::new();
    v.push(String::from_str("https://masterselects.app"));
    v.push(String::from_str("https://app.masterselects.com"));
    v.push(String::from_str("http://localhost:5173"));
    v.push(String::from_str("http://localhost:3000"));
    v.push(String::from_str("http://127.0.0.1:5173"));
    v.push(String::from_str("http://127.0.0.1:3000"));
    v
}

/// Server settings from the command line: the allowed origins are the
/// comma-separated list given (each entry trimmed), else the defaults.
pub fn build_config(port: u16, cache_mb: usize, max_decoders: usize, allowed_origins: Option<&str>) -> (r: ServerConfig)
    ensures
        r.port == port && r.cache_mb == cache_mb && r.max_decoders == max_decoders,
        match allowed_origins {
            Some(s) => r.allowed_origins@.len() == split_on(s@, ',').len()
                && forall|i: int| 0 <= i < r.allowed_origins@.len()
                    ==> #[trigger] r.allowed_origins@[i]@ == trim(split_on(s@, ',')[i]),
            None => r.allowed_origins@.len() == default_origins().len()
                && forall|i: int| 0 <= i < r.allowed_origins@.len()
                    ==> #[trigger] r.allowed_origins@[i]@ == default_origins()[i],
        },
{
    let origins = match allowed_origins {
        Some(s) => split_trimmed(s, ','),
        None => default_allowed_origins(),
    };
    ServerConfig { port, cache_mb, max_decoders, allowed_origins: origins }
}

/// A newer release and where to get it.
#[derive(Clone, Debug, PartialEq, Eq)]
pub struct UpdateInfo {
    pub version: String,
    pub download_url: String,
}

/// Progress of an encode job.
#[derive(Clone, Debug, PartialEq, Eq)]
pub enum EncodeStatus {
    Starting,
    Encoding { frames_done: u32, frames_total: u32 },
    Finishing,
    Completed { output_path: String },
    Failed { error: String },
    Cancelled,
}

/// Kind of a timeline track.
#[derive(Clone, Copy, Debug, PartialEq, Eq, Structural)]
pub enum TrackType {
    Video,
    Audio,
}

/// Pixels of one decoded frame.
#[derive(Clone, Debug, PartialEq, Eq)]
pub struct DecodedFrameData {
    pub width: u32,
    pub height: u32,
    pub data: Vec<u8>,
}

} // verus!
