use vstd::prelude::*;
use vstd::string::{StrSliceExecFns, StringExecFns};
use crate::config::{joined, join_path, Config};
use crate::error::RytError;
use crate::text::{find, is_first_occurrence, never_occurs, to_chars};
use crate::ui::{height_text, ContentType, Format, Quality};

verus! {

/// The texts held by a vector of strings.
pub open spec fn texts(v: Seq<String>) -> Seq<Seq<char>> {
    v.map_values(|s: String| s@)
}

/// The format selection that caps both video and combined streams at height `h`.
pub open spec fn capped_selection(h: Seq<char>) -> Seq<char> {
    "bestvideo[height<="@ + h + "]+bestaudio/best[height<="@ + h + "]"@
}

/// The arguments that select what the external tool fetches.
pub open spec fn format_selection(format: Format, quality: Option<Quality>) -> Seq<Seq<char>> {
    match format {
        Format::Audio => seq![
            "--extract-audio"@,
            "--audio-format"@,
            "best"@,
            "--audio-quality"@,
            "0"@,
        ],
        Format::Video => match quality {
            Some(Quality::Best) => seq!["-f"@, "best"@],
            Some(q) => seq!["-f"@, capped_selection(height_text(q))],
            None => seq![],
        },
    }
}

/// The output template handed to the external tool, under the download root `dir`.
pub open spec fn output_template(dir: Seq<char>, content_type: ContentType) -> Seq<char> {
    match content_type {
        ContentType::Single => joined(joined(dir, "single-videos"@), "%(title)s.%(ext)s"@),
        ContentType::Playlist => joined(
            joined(dir, "playlists"@),
            "%(playlist_title)s/%(title)s.%(ext)s"@,
        ),
    }
}

/// The full argument list of one download.
pub open spec fn invocation(
    dir: Seq<char>,
    url: Seq<char>,
    content_type: ContentType,
    format: Format,
    quality: Option<Quality>,
) -> Seq<Seq<char>> {
    seq![url, "-o"@, output_template(dir, content_type)] + format_selection(format, quality)
        + seq!["--newline"@]
}

/// The pattern of a progress line; its group is the percentage.
pub open spec fn progress_pattern() -> Seq<char> {
    "\\[download\\]\\s+(\\d+(?:\\.\\d+)?)%"@
}

/// The text of the first group of the leftmost match of `pattern` in `haystack`.
pub uninterp spec fn first_capture(pattern: Seq<char>, haystack: Seq<char>) -> Option<Seq<char>>;

/// Relies on `regex::Regex::new`, `Regex::captures` and `Captures::get`: the
/// text of group 1 of the leftmost match, none when the pattern does not
/// compile, nothing matches or the group took no part; it depends on the two
/// texts alone.
#[verifier::external_body]
fn regex_first_group(pattern: &str, haystack: &str) -> (r: Option<String>)
    ensures
        match r {
            Some(c) => first_capture(pattern@, haystack@) == Some(c@),
            None => first_capture(pattern@, haystack@) is None,
        },
{
    match regex::Regex::new(pattern) {
        Ok(re) => re.captures(haystack).and_then(|c| c.get(1)).map(|m| m.as_str().to_string()),
        Err(_) => None,
    }
}

fn push_text(v: &mut Vec<String>, s: String)
    ensures
        texts(final(v)@) == texts(old(v)@).push(s@),
{
    v.push(s);
    assert(texts(final(v)@) =~= texts(old(v)@).push(s@));
}

/// The arguments that select what the external tool fetches: audio extraction
/// at the best quality, the best stream, or streams capped at a height.
pub fn format_args(format: Format, quality: Option<Quality>) -> (r: Vec<String>)
    ensures
        texts(r@) == format_selection(format, quality),
{
    let mut r: Vec<String> = Vec::new();
    match format {
        Format::Audio => {
            push_text(&mut r, String::from_str("--extract-audio"));
            push_text(&mut r, String::from_str("--audio-format"));
            push_text(&mut r, String::from_str("best"));
            push_text(&mut r, String::from_str("--audio-quality"));
            push_text(&mut r, String::from_str("0"));
        },
        Format::Video => match quality {
            Some(Quality::Best) => {
                push_text(&mut r, String::from_str("-f"));
                push_text(&mut r, String::from_str("best"));
            },
            Some(q) => {
                let h = q.to_height();
                let spec = String::from_str("bestvideo[height<=").concat(h).concat(
                    "]+bestaudio/best[height<=",
                ).concat(h).concat("]");
                push_text(&mut r, String::from_str("-f"));
                push_text(&mut r, spec);
            },
            None => {},
        },
    }
    assert(texts(r@) =~= format_selection(format, quality));
    r
}

/// Whether `c` is a decimal digit.
pub open spec fn is_digit(c: char) -> bool {
    '0' <= c && c <= '9'
}

/// Every character of `s` is a decimal digit.
pub open spec fn all_digits(s: Seq<char>) -> bool {
    forall|i: int| 0 <= i < s.len() ==> is_digit(#[trigger] s[i])
}

/// The value of a string of decimal digits.
pub open spec fn decimal_value(s: Seq<char>) -> nat
    decreases s.len(),
{
    if s.len() == 0 {
        0
    } else {
        decimal_value(s.drop_last()) * 10 + (s.last() as nat - '0' as nat) as nat
    }
}

/// The position of the first '.' of `s`, or its length when it has none.
pub open spec fn dot_position(s: Seq<char>) -> int {
    if exists|k: int| 0 <= k < s.len() && s[k] == '.' {
        choose|k: int|
            0 <= k < s.len() && s[k] == '.' && forall|j: int| 0 <= j < k ==> s[j] != '.'
    } else {
        s.len() as int
    }
}

/// The digits before the decimal point.
pub open spec fn whole_digits(s: Seq<char>) -> Seq<char> {
    s.take(dot_position(s))
}

/// The digits after the decimal point, if there is one.
pub open spec fn fraction_digits(s: Seq<char>) -> Seq<char> {
    if dot_position(s) < s.len() {
        s.skip(dot_position(s) + 1)
    } else {
        seq![]
    }
}

/// Digits, optionally followed by a point and more digits.
pub open spec fn is_number_text(s: Seq<char>) -> bool {
    &&& whole_digits(s).len() > 0
    &&& all_digits(whole_digits(s))
    &&& dot_position(s) < s.len() ==> fraction_digits(s).len() > 0 && all_digits(fraction_digits(s))
}

/// The number with whole part `w` and fraction digits `f` is at most a hundred.
pub open spec fn at_most_hundred(w: nat, f: Seq<char>) -> bool {
    w < 100 || (w == 100 && forall|i: int| 0 <= i < f.len() ==> f[i] == '0')
}

/// The percentage written in `s`, as its whole part and its fraction digits;
/// none when `s` is no number or the number exceeds a hundred.
pub open spec fn percent_in(s: Seq<char>) -> Option<(nat, Seq<char>)> {
    if is_number_text(s) && at_most_hundred(decimal_value(whole_digits(s)), fraction_digits(s)) {
        Some((decimal_value(whole_digits(s)), fraction_digits(s)))
    } else {
        None
    }
}

/// A completion percentage between 0 and 100: its whole part and the digits
/// after the decimal point, as written.
#[derive(Debug, Clone)]
pub struct Percent {
    pub whole: u64,
    pub fraction: String,
}

/// A percentage as its whole part and its fraction digits.
pub open spec fn percent_view(p: Percent) -> (nat, Seq<char>) {
    (p.whole as nat, p.fraction@)
}

/// An optional percentage as its whole part and its fraction digits.
pub open spec fn percent_opt_view(r: Option<Percent>) -> Option<(nat, Seq<char>)> {
    match r {
        Some(p) => Some(percent_view(p)),
        None => None,
    }
}

proof fn lemma_value_grows(s: Seq<char>, i: int, k: int)
    requires
        0 <= i <= k <= s.len(),
    ensures
        decimal_value(s.take(i)) <= decimal_value(s.take(k)),
    decreases k - i,
{
    if i < k {
        lemma_value_grows(s, i, k - 1);
        assert(s.take(k).drop_last() =~= s.take(k - 1));
    }
}

proof fn lemma_dot_after(s: Seq<char>, i: int)
    requires
        0 <= i <= s.len(),
        forall|j: int| 0 <= j < i ==> s[j] != '.',
    ensures
        i <= dot_position(s) <= s.len(),
        i < s.len() && s[i] == '.' ==> dot_position(s) == i,
        i == s.len() ==> dot_position(s) == s.len(),
{
    if exists|k: int| 0 <= k < s.len() && s[k] == '.' {
        let w = choose|k: int| 0 <= k < s.len() && s[k] == '.';
        lemma_first_dot(s, w);
        let k = choose|k: int|
            0 <= k < s.len() && s[k] == '.' && forall|j: int| 0 <= j < k ==> s[j] != '.';
        assert(k >= i) by {
            if k < i {
                assert(s[k] != '.');
            }
        }
        if i < s.len() && s[i] == '.' {
            assert(k == i) by {
                if k > i {
                    assert(s[i] != '.');
                }
            }
        }
    }
}

proof fn lemma_first_dot(s: Seq<char>, w: int)
    requires
        0 <= w < s.len(),
        s[w] == '.',
    ensures
        exists|k: int| 0 <= k < s.len() && s[k] == '.' && forall|j: int| 0 <= j < k ==> s[j] != '.',
    decreases w,
{
    if exists|j: int| 0 <= j < w && s[j] == '.' {
        let j = choose|j: int| 0 <= j < w && s[j] == '.';
        lemma_first_dot(s, j);
    } else {
        assert(forall|j: int| 0 <= j < w ==> s[j] != '.');
    }
}

/// Reads a percentage written as digits with an optional decimal fraction;
/// none when the text is no such number or exceeds a hundred.
pub fn parse_percent(text: &str) -> (r: Option<Percent>)
    ensures
        percent_opt_view(r) == percent_in(text@),
{
    let s = to_chars(text);
    let n = s.len();
    let mut i: usize = 0;
    let mut v: u64 = 0;
    while i < n && s[i] != '.'
        invariant
            s@ == text@,
            n == s@.len(),
            i <= n,
            forall|j: int| 0 <= j < i ==> s@[j] != '.' && is_digit(s@[j]),
            v == decimal_value(s@.take(i as int)),
            v <= 100,
        decreases n - i,
    {
        let c = s[i];
        if !('0' <= c && c <= '9') {
            proof {
                lemma_dot_after(s@, i as int + 1);
                assert(whole_digits(s@)[i as int] == c);
            }
            return None;
        }
        let d = (c as u32 - '0' as u32) as u64;
        proof {
            assert(s@.take(i + 1).drop_last() =~= s@.take(i as int));
        }
        v = v * 10 + d;
        if v > 100 {
            proof {
                lemma_dot_after(s@, i as int + 1);
                lemma_value_grows(s@, i + 1, dot_position(s@));
                assert(whole_digits(s@) =~= s@.take(dot_position(s@)));
            }
            return None;
        }
        i = i + 1;
    }
    proof {
        lemma_dot_after(s@, i as int);
        assert(whole_digits(s@) =~= s@.take(i as int));
    }
    if i == 0 {
        return None;
    }
    if i == n {
        proof {
            assert(fraction_digits(s@) =~= Seq::<char>::empty());
        }
        return Some(Percent { whole: v, fraction: String::new() });
    }
    let start = i + 1;
    if start == n {
        return None;
    }
    let mut j: usize = start;
    let mut zeros = true;
    while j < n
        invariant
            s@ == text@,
            n == s@.len(),
            start <= j <= n,
            dot_position(s@) == start - 1,
            forall|m: int| start <= m < j ==> is_digit(s@[m]),
            zeros == forall|m: int| start <= m < j ==> s@[m] == '0',
        decreases n - j,
    {
        let c = s[j];
        if !('0' <= c && c <= '9') {
            proof {
                assert(fraction_digits(s@)[j - start] == c);
            }
            return None;
        }
        if c != '0' {
            zeros = false;
        }
        j = j + 1;
    }
    proof {
        assert(fraction_digits(s@) =~= s@.subrange(start as int, n as int));
    }
    if v == 100 && !zeros {
        proof {
            let f = fraction_digits(s@);
            let m = choose|m: int| start <= m < j && s@[m] != '0';
            assert(f[m - start] != '0');
        }
        return None;
    }
    let fraction = String::from_str(text.substring_char(start, n));
    Some(Percent { whole: v, fraction })
}

/// `s` from position `m` on, where `m` is the first position at or after `from`
/// that holds no space.
pub open spec fn spaces_skipped(s: Seq<char>, from: int, m: int) -> bool {
    &&& from <= m <= s.len()
    &&& forall|j: int| from <= j < m ==> s[j] == ' '
    &&& m < s.len() ==> s[m] != ' '
}

/// `status` is what follows the first "] " of `line`, without the spaces that
/// lead it, or the whole line when it holds no "] ".
pub open spec fn status_of(line: Seq<char>, status: Seq<char>) -> bool {
    ||| exists|k: int, m: int|
        is_first_occurrence(line, "] "@, k) && spaces_skipped(line, k + 2, m) && status == line.skip(m)
    ||| never_occurs(line, "] "@) && status == line
}

/// Runs the external tool and reads its progress.
pub struct Downloader {
    pub config: Config,
    ytdlp_cmd: String,
}

/// The text of an optional string.
pub open spec fn opt_text(o: Option<String>) -> Option<Seq<char>> {
    match o {
        Some(s) => Some(s@),
        None => None,
    }
}

/// The program that a downloader runs: the configured path, else "yt-dlp".
pub open spec fn program_for(c: Config) -> Seq<char> {
    match c.ytdlp_path {
        Some(p) => p@,
        None => "yt-dlp"@,
    }
}

impl Downloader {
    /// The settings the downloader was made with.
    pub closed spec fn settings(&self) -> Config {
        self.config
    }

    /// The program that the downloader runs.
    pub closed spec fn tool(&self) -> Seq<char> {
        self.ytdlp_cmd@
    }

    pub fn new(config: Config) -> (r: Self)
        ensures
            r.settings() == config,
            r.tool() == program_for(config),
    {
        let ytdlp_cmd = match &config.ytdlp_path {
            Some(p) => p.clone(),
            None => String::from_str("yt-dlp"),
        };
        Downloader { config, ytdlp_cmd }
    }

    /// The settings the downloader was made with, as its callers see them.
    pub fn current_config(&self) -> (r: &Config)
        ensures
            *r == self.settings(),
    {
        &self.config
    }

    /// The program that is run.
    pub fn program(&self) -> (r: String)
        ensures
            r@ == self.tool(),
    {
        self.ytdlp_cmd.clone()
    }

    /// The arguments of the availability check.
    pub fn version_args(&self) -> (r: Vec<String>)
        ensures
            texts(r@) == seq!["--version"@],
    {
        let mut r: Vec<String> = Vec::new();
        push_text(&mut r, String::from_str("--version"));
        r
    }

    /// The verdict of the availability check: the tool was found when it could
    /// be started and exited with success.
    pub fn check_outcome(spawned: bool, exited_ok: bool) -> (r: Result<(), RytError>)
        ensures
            r is Ok <==> spawned && exited_ok,
            r is Err ==> r == Err::<(), RytError>(RytError::YtDlpNotFound),
    {
        if spawned && exited_ok {
            Ok(())
        } else {
            Err(RytError::YtDlpNotFound)
        }
    }

    /// The output template under the download root for the content type.
    pub fn output_path(&self, content_type: ContentType) -> (r: String)
        ensures
            r@ == output_template(self.settings().download_dir@, content_type),
    {
        match content_type {
            ContentType::Single => {
                let dir = join_path(self.config.download_dir.as_str(), "single-videos");
                join_path(dir.as_str(), "%(title)s.%(ext)s")
            },
            ContentType::Playlist => {
                let dir = join_path(self.config.download_dir.as_str(), "playlists");
                join_path(dir.as_str(), "%(playlist_title)s/%(title)s.%(ext)s")
            },
        }
    }

    /// The arguments of a download: the URL, the output template, the format
    /// selection and the flag that asks for one progress line per update.
    pub fn command_args(
        &self,
        url: &str,
        content_type: ContentType,
        format: Format,
        quality: Option<Quality>,
    ) -> (r: Vec<String>)
        ensures
            texts(r@) == invocation(self.settings().download_dir@, url@, content_type, format, quality),
    {
        let mut r: Vec<String> = Vec::new();
        push_text(&mut r, String::from_str(url));
        push_text(&mut r, String::from_str("-o"));
        push_text(&mut r, self.output_path(content_type));
        let sel = format_args(format, quality);
        let mut k: usize = 0;
        while k < sel.len()
            invariant
                k <= sel@.len(),
                texts(sel@) == format_selection(format, quality),
                texts(r@) == seq![url@, "-o"@, output_template(self.settings().download_dir@, content_type)]
                    + texts(sel@).take(k as int),
            decreases sel@.len() - k,
        {
            push_text(&mut r, sel[k].clone());
            proof {
                assert(texts(sel@).take(k + 1) =~= texts(sel@).take(k as int).push(sel@[k as int]@));
            }
            k = k + 1;
        }
        push_text(&mut r, String::from_str("--newline"));
        assert(texts(sel@).take(sel@.len() as int) =~= texts(sel@));
        assert(texts(r@) =~= invocation(self.settings().download_dir@, url@, content_type, format, quality));
        r
    }

    /// The percentage that a line of the tool's output reports, if any.
    pub fn parse_progress(&self, line: &str) -> (r: Option<Percent>)
        ensures
            percent_opt_view(r) == match first_capture(progress_pattern(), line@) {
                Some(t) => percent_in(t),
                None => None,
            },
    {
        match regex_first_group("\\[download\\]\\s+(\\d+(?:\\.\\d+)?)%", line) {
            Some(t) => parse_percent(t.as_str()),
            None => None,
        }
    }

    /// The status shown beside the progress: the line after its first "] "
    /// and the spaces that follow it, or the whole line.
    pub fn extract_status(&self, line: &str) -> (r: String)
        ensures
            status_of(line@, r@),
    {
        let s = to_chars(line);
        let marker = to_chars("] ");
        proof {
            reveal_strlit("] ");
        }
        match find(&s, &marker) {
            Some(k) => {
                assert(marker@.len() == 2);
                let n = s.len();
                assert(k + 2 <= n);
                let mut m: usize = k + 2;
                while m < n && s[m] == ' '
                    invariant
                        s@ == line@,
                        n == s@.len(),
                        k + 2 <= m <= n,
                        forall|j: int| k + 2 <= j < m ==> s@[j] == ' ',
                    decreases n - m,
                {
                    m = m + 1;
                }
                let rest = String::from_str(line.substring_char(m, n));
                assert(spaces_skipped(line@, k + 2, m as int));
                assert(rest@ =~= line@.skip(m as int));
                rest
            },
            None => String::from_str(line),
        }
    }
}

/// The percentage that a line of the tool's output reports, if any.
pub open spec fn line_percent(line: Seq<char>) -> Option<(nat, Seq<char>)> {
    match first_capture(progress_pattern(), line) {
        Some(t) => percent_in(t),
        None => None,
    }
}

/// Where one download stands: the tool is started, its output is read until it
/// closes, then its exit decides between success and failure.
#[derive(Debug, Clone, Copy, PartialEq, Eq, Structural)]
pub enum Phase {
    Spawning,
    Streaming,
    WaitingForExit,
    Succeeded,
    Failed,
}

/// The state of one download: its phase and the last progress shown, which each
/// new progress line overwrites.
pub struct DownloadSession {
    pub phase: Phase,
    pub position: u64,
    pub status: String,
}

impl DownloadSession {
    pub fn new() -> (r: Self)
        ensures
            r.phase == Phase::Spawning,
            r.position == 0,
            r.status@ == Seq::<char>::empty(),
    {
        DownloadSession { phase: Phase::Spawning, position: 0, status: String::new() }
    }

    /// The tool was started, or could not be.
    pub fn spawned(&mut self, ok: bool) -> (r: Result<(), RytError>)
        requires
            old(self).phase == Phase::Spawning,
        ensures
            ok ==> r is Ok && final(self).phase == Phase::Streaming,
            !ok ==> r == Err::<(), RytError>(RytError::YtDlpNotFound) && final(self).phase == Phase::Failed,
            final(self).position == old(self).position,
            final(self).status@ == old(self).status@,
    {
        if ok {
            self.phase = Phase::Streaming;
            Ok(())
        } else {
            self.phase = Phase::Failed;
            Err(RytError::YtDlpNotFound)
        }
    }

    /// A line of the tool's output: one that reports a percentage replaces the
    /// progress shown; any other leaves it as it was.
    pub fn line(&mut self, downloader: &Downloader, line: &str) -> (updated: bool)
        requires
            old(self).phase == Phase::Streaming,
        ensures
            final(self).phase == Phase::Streaming,
            updated == line_percent(line@) is Some,
            updated ==> final(self).position == line_percent(line@).unwrap().0 && status_of(
                line@,
                final(self).status@,
            ),
            !updated ==> final(self).position == old(self).position && final(self).status@ == old(
                self,
            ).status@,
    {
        match downloader.parse_progress(line) {
            Some(p) => {
                self.position = p.whole;
                self.status = downloader.extract_status(line);
                true
            },
            None => false,
        }
    }

    /// The tool's output closed; its exit is awaited next.
    pub fn output_closed(&mut self)
        requires
            old(self).phase == Phase::Streaming,
        ensures
            final(self).phase == Phase::WaitingForExit,
            final(self).position == old(self).position,
            final(self).status@ == old(self).status@,
    {
        self.phase = Phase::WaitingForExit;
    }

    /// The tool exited: with success the download succeeded, else it failed.
    pub fn exited(&mut self, success: bool) -> (r: Result<(), RytError>)
        requires
            old(self).phase == Phase::WaitingForExit,
        ensures
            success ==> r is Ok && final(self).phase == Phase::Succeeded,
            !success ==> r == Err::<(), RytError>(RytError::DownloadFailed) && final(self).phase
                == Phase::Failed,
            final(self).position == old(self).position,
            final(self).status@ == old(self).status@,
    {
        if success {
            self.phase = Phase::Succeeded;
            Ok(())
        } else {
            self.phase = Phase::Failed;
            Err(RytError::DownloadFailed)
        }
    }
}

proof fn lemma_template_is_long(dir: Seq<char>, content_type: ContentType)
    ensures
        output_template(dir, content_type).len() >= 17,
{
    reveal_strlit("%(title)s.%(ext)s");
    reveal_strlit("%(playlist_title)s/%(title)s.%(ext)s");
}

/// With audio asked for, the arguments hold the audio-extraction flags right
/// after the output template and no "-f" (unless the URL is itself "-f"), and
/// they are the same whatever the quality.
pub proof fn lemma_audio_arguments(
    dir: Seq<char>,
    url: Seq<char>,
    content_type: ContentType,
    q1: Option<Quality>,
    q2: Option<Quality>,
)
    requires
        url != "-f"@,
    ensures
        invocation(dir, url, content_type, Format::Audio, q1).subrange(3, 8) == seq![
            "--extract-audio"@,
            "--audio-format"@,
            "best"@,
            "--audio-quality"@,
            "0"@,
        ],
        forall|i: int|
            0 <= i < invocation(dir, url, content_type, Format::Audio, q1).len() ==> #[trigger] invocation(
                dir,
                url,
                content_type,
                Format::Audio,
                q1,
            )[i] != "-f"@,
        invocation(dir, url, content_type, Format::Audio, q1) == invocation(
            dir,
            url,
            content_type,
            Format::Audio,
            q2,
        ),
{
    let inv = invocation(dir, url, content_type, Format::Audio, q1);
    reveal_strlit("-f");
    reveal_strlit("-o");
    reveal_strlit("--extract-audio");
    reveal_strlit("--audio-format");
    reveal_strlit("best");
    reveal_strlit("--audio-quality");
    reveal_strlit("0");
    reveal_strlit("--newline");
    lemma_template_is_long(dir, content_type);
    assert(inv.subrange(3, 8) =~= seq![
        "--extract-audio"@,
        "--audio-format"@,
        "best"@,
        "--audio-quality"@,
        "0"@,
    ]);
    assert(inv.len() == 9);
    assert forall|i: int| 0 <= i < inv.len() implies #[trigger] inv[i] != "-f"@ by {
        if i == 1 {
            assert(inv[i][1] != "-f"@[1]);
        } else if i >= 2 {
            assert(inv[i].len() != "-f"@.len());
        }
    }
}

/// With video at the best quality, the arguments hold "-f" "best" right after
/// the output template and no "--extract-audio" (unless the URL is itself
/// that flag).
pub proof fn lemma_best_video_arguments(dir: Seq<char>, url: Seq<char>, content_type: ContentType)
    requires
        url != "--extract-audio"@,
    ensures
        invocation(dir, url, content_type, Format::Video, Some(Quality::Best)).subrange(3, 5) == seq![
            "-f"@,
            "best"@,
        ],
        forall|i: int|
            0 <= i < invocation(dir, url, content_type, Format::Video, Some(Quality::Best)).len()
                ==> #[trigger] invocation(dir, url, content_type, Format::Video, Some(Quality::Best))[i]
                != "--extract-audio"@,
{
    let inv = invocation(dir, url, content_type, Format::Video, Some(Quality::Best));
    reveal_strlit("-f");
    reveal_strlit("-o");
    reveal_strlit("--extract-audio");
    reveal_strlit("best");
    reveal_strlit("--newline");
    lemma_template_is_long(dir, content_type);
    assert(inv.subrange(3, 5) =~= seq!["-f"@, "best"@]);
    assert(inv.len() == 6);
    assert forall|i: int| 0 <= i < inv.len() implies #[trigger] inv[i] != "--extract-audio"@ by {
        if i >= 1 {
            assert(inv[i].len() != "--extract-audio"@.len());
        }
    }
}

/// Two downloaders made with the same tool path and download root run the same
/// program with the same arguments for the same request.
pub proof fn lemma_same_settings_same_command(
    c1: Config,
    c2: Config,
    url: Seq<char>,
    content_type: ContentType,
    format: Format,
    quality: Option<Quality>,
)
    requires
        opt_text(c1.ytdlp_path) == opt_text(c2.ytdlp_path),
        c1.download_dir@ == c2.download_dir@,
    ensures
        program_for(c1) == program_for(c2),
        invocation(c1.download_dir@, url, content_type, format, quality) == invocation(
            c2.download_dir@,
            url,
            content_type,
            format,
            quality,
        ),
{
}

} // verus!
