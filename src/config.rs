use vstd::prelude::*;
use vstd::string::{StrSliceExecFns, StringExecFns};

verus! {

/// `part` appended to the path `base`, with a separator unless `base` is empty
/// or already ends with one.
pub open spec fn joined(base: Seq<char>, part: Seq<char>) -> Seq<char> {
    if base.len() == 0 || base.last() == '/' {
        base + part
    } else {
        base + seq!['/'] + part
    }
}

/// Appends the relative path `part` to the path `base`.
pub fn join_path(base: &str, part: &str) -> (r: String)
    ensures
        r@ == joined(base@, part@),
{
    let n = base.unicode_len();
    let mut r = String::from_str(base);
    if n > 0 && base.get_char(n - 1) != '/' {
        r.append("/");
        proof {
            reveal_strlit("/");
        }
    }
    r.append(part);
    r
}

/// The settings kept between runs.
#[derive(Debug, Clone)]
pub struct Config {
    pub download_dir: String,
    pub default_quality: String,
    pub default_format: String,
    pub ytdlp_path: Option<String>,
    pub max_concurrent_downloads: usize,
}

/// The settings of a first run, downloading under `dir`.
pub open spec fn defaults_under(c: Config, dir: Seq<char>) -> bool {
    &&& c.download_dir@ == dir
    &&& c.default_quality@ == "1080p"@
    &&& c.default_format@ == "video"@
    &&& c.ytdlp_path is None
    &&& c.max_concurrent_downloads == 3
}

/// The download root of a first run: "ryt" under the documents directory, else
/// under the home directory, else under the current one.
pub open spec fn default_root(documents: Option<Seq<char>>, home: Option<Seq<char>>) -> Seq<char> {
    let base = match documents {
        Some(d) => d,
        None => match home {
            Some(h) => h,
            None => "."@,
        },
    };
    joined(base, "ryt"@)
}

/// The text of an optional string.
pub open spec fn opt_view(o: Option<String>) -> Option<Seq<char>> {
    match o {
        Some(s) => Some(s@),
        None => None,
    }
}

/// The place of the settings file under the per-user configuration directory.
pub open spec fn config_file_under(dir: Seq<char>) -> Seq<char> {
    joined(joined(dir, "ryt"@), "config.toml"@)
}

/// Relies on `dirs::config_dir`: the per-user configuration directory, if the
/// platform knows one.
#[verifier::external_body]
fn user_config_dir() -> (r: Option<String>) {
    match dirs::config_dir() {
        Some(p) => Some(p.to_string_lossy().into_owned()),
        None => None,
    }
}

/// The download root of a first run, from the directories the platform reports.
pub fn default_download_dir(documents: Option<String>, home: Option<String>) -> (r: String)
    ensures
        r@ == default_root(opt_view(documents), opt_view(home)),
{
    match documents {
        Some(d) => join_path(d.as_str(), "ryt"),
        None => match home {
            Some(h) => join_path(h.as_str(), "ryt"),
            None => join_path(".", "ryt"),
        },
    }
}

/// The path of the settings file under the configuration directory `dir`.
pub fn config_file_path(dir: &str) -> (r: String)
    ensures
        r@ == config_file_under(dir@),
{
    let app = join_path(dir, "ryt");
    join_path(app.as_str(), "config.toml")
}

impl Config {
    /// The settings of a first run, downloading under `dir`.
    pub fn with_download_dir(dir: String) -> (r: Config)
        ensures
            defaults_under(r, dir@),
    {
        Config {
            download_dir: dir,
            default_quality: String::from_str("1080p"),
            default_format: String::from_str("video"),
            ytdlp_path: None,
            max_concurrent_downloads: 3,
        }
    }

    /// The settings of a first run, given the documents and home directories
    /// that the platform reports.
    pub fn first_run(documents: Option<String>, home: Option<String>) -> (r: Config)
        ensures
            defaults_under(r, default_root(opt_view(documents), opt_view(home))),
    {
        Config::with_download_dir(default_download_dir(documents, home))
    }

    /// The settings read from the file when they parsed, else those of a first
    /// run, given the documents and home directories that the platform reports.
    pub fn or_default(parsed: Option<Config>, documents: Option<String>, home: Option<String>) -> (r: Config)
        ensures
            parsed is Some ==> r == parsed.unwrap(),
            parsed is None ==> defaults_under(r, default_root(opt_view(documents), opt_view(home))),
    {
        match parsed {
            Some(c) => c,
            None => Config::first_run(documents, home),
        }
    }

    /// Where the settings file lives, when the platform has a configuration directory.
    pub fn config_path() -> (r: Option<String>)
        ensures
            r matches Some(p) ==> exists|d: Seq<char>| p@ == config_file_under(d),
    {
        match user_config_dir() {
            Some(d) => Some(config_file_path(d.as_str())),
            None => None,
        }
    }

    /// The directories that must exist before a download: the root and its two
    /// fixed subdirectories, in the order they are created.
    pub fn download_dirs(&self) -> (r: Vec<String>)
        ensures
            r@.len() == 3,
            r@[0]@ == self.download_dir@,
            r@[1]@ == joined(self.download_dir@, "single-videos"@),
            r@[2]@ == joined(self.download_dir@, "playlists"@),
    {
        let mut r: Vec<String> = Vec::new();
        r.push(self.download_dir.clone());
        r.push(join_path(self.download_dir.as_str(), "single-videos"));
        r.push(join_path(self.download_dir.as_str(), "playlists"));
        r
    }
}

} // verus!
