//! The verified fetcher's retry policy and the external-tool
//! invocation: backoff with jitter, the five-attempt budget,
//! post-download verification, and the fixed tool option set.

use vstd::prelude::*;
use vstd::string::StringExecFns;

verus! {

/// An error of one download attempt, carrying its description.
#[derive(Debug, Clone)]
pub struct DownloadError(pub String);

/// The permanent failure of a fetch: every attempt of the budget
/// failed; the last underlying error is carried.
#[derive(Debug, Clone)]
pub enum FetchError {
    ExhaustedRetries(DownloadError),
}

/// The description carried by a permanent fetch failure.
pub open spec fn spec_fetch_error_text(e: FetchError) -> Seq<char> {
    match e {
        FetchError::ExhaustedRetries(d) => d.0@,
    }
}

/// The attempt budget of the fetcher.
pub const MAX_RETRY: usize = 5;

/// The base backoff in milliseconds.
pub const BASE_BACKOFF_MS: u64 = 300;

/// Two to the power `n`.
pub open spec fn spec_pow2(n: nat) -> nat
    decreases n,
{
    if n == 0 {
        1
    } else {
        2 * spec_pow2((n - 1) as nat)
    }
}

/// The backoff before the attempt after failure number `retry_count`:
/// exponential with base 300 ms and multiplier 2 per attempt.
pub fn backoff_for_attempt(retry_count: u64) -> (r: u64)
    requires
        1 <= retry_count <= MAX_RETRY,
    ensures
        r == BASE_BACKOFF_MS * spec_pow2(retry_count as nat),
        600 <= r <= 9600,
{
    proof {
        assert(spec_pow2(0) == 1);
        assert(spec_pow2(1) == 2);
        assert(spec_pow2(2) == 4);
        assert(spec_pow2(3) == 8);
        assert(spec_pow2(4) == 16);
        assert(spec_pow2(5) == 32);
    }
    match retry_count {
        1 => 600,
        2 => 1200,
        3 => 2400,
        4 => 4800,
        _ => 9600,
    }
}

/// Relies on rand::random: a value drawn from the thread-local
/// generator.  Nothing can be promised of a random value.
pub assume_specification<T>[ rand::random::<T> ]() -> (r: T)
    where
        rand::distributions::Standard: rand::distributions::Distribution<T>,
;

/// The time to sleep before the attempt after failure number
/// `retry_count`: the exponential backoff plus a random jitter of at
/// most 30% of it.  Whatever the generator yields, the result stays
/// within that band.
pub fn sleep_before_retry(retry_count: u64) -> (r: u64)
    requires
        1 <= retry_count <= MAX_RETRY,
    ensures
        backoff_ms(retry_count as nat) <= r <= backoff_ms(retry_count as nat) + 3 * (backoff_ms(
            retry_count as nat,
        ) / 10),
{
    let backoff = backoff_for_attempt(retry_count);
    let draw: u64 = rand::random::<u64>();
    let m: u64 = draw % 1000;
    let tenth: u64 = backoff / 10;
    proof {
        assert(m <= 999);
        assert(tenth <= 960);
        assert(tenth * 3 * m <= 960 * 3 * 999 && tenth * 3 * m <= tenth * 3 * 999)
            by (nonlinear_arith)
            requires
                tenth <= 960,
                m <= 999,
        ;
    }
    let scaled: u64 = tenth * 3 * m;
    let jitter: u64 = scaled / 1000;
    proof {
        assert(scaled / 1000 <= tenth * 3) by (nonlinear_arith)
            requires
                scaled <= tenth * 3 * 999,
        ;
    }
    backoff + jitter
}

/// The backoff in milliseconds as a specification value.
pub open spec fn backoff_ms(retry_count: nat) -> u64 {
    (BASE_BACKOFF_MS * spec_pow2(retry_count)) as u64
}

/// A completed download is verified when the file is non-empty and,
/// when the origin declared a content length, exactly that long.
pub open spec fn spec_download_verified(size: u64, declared: Option<u64>) -> bool {
    size > 0 && (declared is Some ==> size == declared.unwrap())
}

/// Why post-download verification rejected a file.
#[derive(Clone, Copy, Debug, PartialEq, Eq, Structural)]
pub enum VerifyFailure {
    /// The file's size differs from the declared content length.
    SizeMismatch,
    /// The file is empty.
    EmptyFile,
}

/// Post-download verification: `None` exactly when the written file
/// passes; a size mismatch is reported before emptiness, as the
/// fetcher checks them in that order.
pub fn verify_download(size: u64, declared: Option<u64>) -> (r: Option<VerifyFailure>)
    ensures
        (r is None) <==> spec_download_verified(size, declared),
        declared is Some && size != declared.unwrap() ==> r == Some(VerifyFailure::SizeMismatch),
        (declared is None || size == declared.unwrap()) && size == 0 ==> r == Some(
            VerifyFailure::EmptyFile,
        ),
{
    match declared {
        Some(len) => {
            if size != len {
                return Some(VerifyFailure::SizeMismatch);
            }
        },
        None => {},
    }
    if size == 0 {
        return Some(VerifyFailure::EmptyFile);
    }
    None
}

/// Whether a failed attempt leaves budget for another one.
pub fn should_retry(failures: usize) -> (r: bool)
    ensures
        r == (failures < MAX_RETRY),
{
    failures < MAX_RETRY
}

/// Replays the fetch retry loop against per-attempt outcomes
/// (`None` is a successful attempt, `Some` its error).  At most five
/// attempts are ever used; after exactly five failed attempts the
/// result is `ExhaustedRetries` carrying the fifth error, and no sixth
/// outcome is consulted.
pub fn run_fetch_attempts(outcomes: &Vec<Option<DownloadError>>) -> (r: Result<usize, FetchError>)
    requires
        outcomes@.len() == MAX_RETRY,
    ensures
        r is Ok ==> {
            let used = r.unwrap() as int;
            &&& 1 <= used <= MAX_RETRY
            &&& outcomes@[used - 1] is None
            &&& forall|j: int| 0 <= j < used - 1 ==> #[trigger] outcomes@[j] is Some
        },
        r is Err ==> forall|j: int| 0 <= j < MAX_RETRY ==> #[trigger] outcomes@[j] is Some,
        r is Err ==> spec_fetch_error_text(r.unwrap_err()) == outcomes@[MAX_RETRY
            - 1].unwrap().0@,
{
    let mut attempt: usize = 0;
    loop
        invariant
            attempt < MAX_RETRY,
            outcomes@.len() == MAX_RETRY,
            forall|j: int| 0 <= j < attempt ==> #[trigger] outcomes@[j] is Some,
        decreases MAX_RETRY - attempt,
    {
        match &outcomes[attempt] {
            None => {
                return Ok(attempt + 1);
            },
            Some(e) => {
                if attempt + 1 == MAX_RETRY {
                    return Err(FetchError::ExhaustedRetries(DownloadError(e.0.clone())));
                }
                attempt += 1;
            },
        }
    }
}

/// Failure modes of the external download tool.
#[derive(Debug, Clone)]
pub enum ToolError {
    /// The tool binary is not present on the machine.
    BinaryMissing,
    /// The tool ran and exited non-zero; the exit status and its
    /// diagnostic output are carried.
    ExecutionFailed { status: String, stderr: String },
    /// The process could not be spawned although the binary exists.
    SpawnFailure(String),
}

/// What one invocation of the external tool was observed to do.
#[derive(Debug, Clone)]
pub enum ToolRunEvent {
    /// The process ran to completion with the rendered exit status and
    /// captured diagnostic output.
    Exited { success: bool, status: String, stderr: String },
    /// The process could not be started; `probe_found` reports whether
    /// a secondary existence probe still located the binary.
    SpawnError { probe_found: bool, message: String },
}

/// The tool result an observed invocation classifies to.
pub open spec fn spec_tool_classify(ev: ToolRunEvent) -> Result<(), ToolError> {
    match ev {
        ToolRunEvent::Exited { success, status, stderr } => {
            if success {
                Ok(())
            } else {
                Err(ToolError::ExecutionFailed { status, stderr })
            }
        },
        ToolRunEvent::SpawnError { probe_found, message } => {
            if probe_found {
                Err(ToolError::SpawnFailure(message))
            } else {
                Err(ToolError::BinaryMissing)
            }
        },
    }
}

/// Classifies one tool invocation: a clean exit succeeds; a non-zero
/// exit carries the exit status and diagnostics; a spawn error is a
/// missing binary exactly when the existence probe cannot find it
/// either.  A single invocation is classified once; the tool is never
/// retried on a missing binary.
pub fn classify_tool_outcome(ev: ToolRunEvent) -> (r: Result<(), ToolError>)
    ensures
        r == spec_tool_classify(ev),
{
    match ev {
        ToolRunEvent::Exited { success, status, stderr } => {
            if success {
                Ok(())
            } else {
                Err(ToolError::ExecutionFailed { status, stderr })
            }
        },
        ToolRunEvent::SpawnError { probe_found, message } => {
            if probe_found {
                Err(ToolError::SpawnFailure(message))
            } else {
                Err(ToolError::BinaryMissing)
            }
        },
    }
}

/// The guidance reported when the tool binary is absent.
pub fn tool_missing_message() -> (r: String)
    ensures
        r@ == (
        "yt-dlp is not installed. Please install it with 'pip install yt-dlp' or your system's package manager."
        )@,
{
    String::from_str(
        "yt-dlp is not installed. Please install it with 'pip install yt-dlp' or your system's package manager.",
    )
}

/// The user-facing description of a tool error.
pub fn tool_error_message(e: &ToolError) -> (r: String)
    ensures
        *e is BinaryMissing ==> r@ == (
        "yt-dlp is not installed. Please install it with 'pip install yt-dlp' or your system's package manager."
        )@,
        *e matches ToolError::ExecutionFailed { status, stderr } ==> r@ == (
        "yt-dlp execution failed (")@ + status@ + ("): ")@ + stderr@,
        *e matches ToolError::SpawnFailure(s) ==> r@ == ("Failed to execute yt-dlp: ")@ + s@,
{
    match e {
        ToolError::BinaryMissing => tool_missing_message(),
        ToolError::ExecutionFailed { status, stderr } => {
            let mut msg = String::from_str("yt-dlp execution failed (");
            msg.append(status.as_str());
            msg.append("): ");
            msg.append(stderr.as_str());
            msg
        },
        ToolError::SpawnFailure(s) => {
            let mut msg = String::from_str("Failed to execute yt-dlp: ");
            msg.append(s.as_str());
            msg
        },
    }
}

/// The templated output naming handed to the tool.
pub open spec fn spec_output_template(folder: Option<String>) -> Seq<char> {
    match folder {
        Some(f) => f@ + ("/%(title)s_%(id)s.%(ext)s")@,
        None => ("downloaded_media_%(id)s.%(ext)s")@,
    }
}

/// Renders the templated output naming for `folder`.
pub fn ytdlp_output_template(folder: &Option<String>) -> (r: String)
    ensures
        r@ == spec_output_template(*folder),
{
    match folder {
        Some(f) => {
            let mut s = f.clone();
            s.append("/%(title)s_%(id)s.%(ext)s");
            s
        },
        None => String::from_str("downloaded_media_%(id)s.%(ext)s"),
    }
}

/// The browser profile cookies are imported from; the default profile
/// when none is named.
pub open spec fn spec_cookie_browser(browser: Option<String>) -> Seq<char> {
    match browser {
        Some(b) => b@,
        None => ("chrome")@,
    }
}

/// The fixed option set of a tool invocation: bounded fragments and
/// retries, metadata embedding, no playlist expansion, the templated
/// output, cookie import exactly when requested, and the URL last.
pub open spec fn spec_tool_args(
    url: Seq<char>,
    output: Seq<char>,
    browser: Seq<char>,
    use_cookies: bool,
) -> Seq<Seq<char>> {
    let base = seq![
        ("--no-warnings")@,
        ("--concurrent-fragments")@,
        ("5")@,
        ("--add-metadata")@,
        ("--retry-sleep")@,
        ("3")@,
        ("--retries")@,
        ("10")@,
        ("--no-playlist")@,
        ("--progress")@,
        ("-o")@,
        output,
    ];
    if use_cookies {
        base + seq![("--cookies-from-browser")@, browser, url]
    } else {
        base + seq![url]
    }
}

/// Builds the argument list of a tool invocation.  Cookies are
/// imported from the named browser profile exactly when `use_cookies`
/// holds — used for content classes that need an authenticated
/// session, and never otherwise.
pub fn ytdlp_args(
    url: &str,
    folder: &Option<String>,
    browser: &Option<String>,
    use_cookies: bool,
) -> (r: Vec<String>)
    ensures
        r@.map_values(|s: String| s@) == spec_tool_args(
            url@,
            spec_output_template(*folder),
            spec_cookie_browser(*browser),
            use_cookies,
        ),
{
    let output = ytdlp_output_template(folder);
    let mut args: Vec<String> = Vec::new();
    args.push(String::from_str("--no-warnings"));
    args.push(String::from_str("--concurrent-fragments"));
    args.push(String::from_str("5"));
    args.push(String::from_str("--add-metadata"));
    args.push(String::from_str("--retry-sleep"));
    args.push(String::from_str("3"));
    args.push(String::from_str("--retries"));
    args.push(String::from_str("10"));
    args.push(String::from_str("--no-playlist"));
    args.push(String::from_str("--progress"));
    args.push(String::from_str("-o"));
    args.push(output);
    if use_cookies {
        args.push(String::from_str("--cookies-from-browser"));
        let b = match browser {
            Some(b) => b.clone(),
            None => String::from_str("chrome"),
        };
        args.push(b);
    }
    args.push(String::from_str(url));
    proof {
        assert(args@.map_values(|s: String| s@) =~= spec_tool_args(
            url@,
            spec_output_template(*folder),
            spec_cookie_browser(*browser),
            use_cookies,
        ));
    }
    args
}

/// The fixed outbound identity of the fetcher, mimicking a mobile
/// browser: the origin serves different payloads or blocks default
/// client identities.
pub fn fetch_headers() -> (r: Vec<(String, String)>)
    ensures
        r@.len() == 5,
        r@[0].0@ == ("User-Agent")@ && r@[0].1@ == (
        "Mozilla/5.0 (iPhone; CPU iPhone OS 16_0 like Mac OS X) AppleWebKit/605.1.15 (KHTML, like Gecko) CriOS/110.0.5481.177 Mobile/15E148 Safari/604.1"
        )@,
        r@[1].0@ == ("Referer")@ && r@[1].1@ == ("https://www.instagram.com/")@,
        r@[2].0@ == ("Accept")@ && r@[2].1@ == ("*/*")@,
        r@[3].0@ == ("Accept-Language")@ && r@[3].1@ == ("en-US,en;q=0.9")@,
        r@[4].0@ == ("Connection")@ && r@[4].1@ == ("keep-alive")@,
{
    let mut v: Vec<(String, String)> = Vec::new();
    v.push(
        (
            String::from_str("User-Agent"),
            String::from_str(
                "Mozilla/5.0 (iPhone; CPU iPhone OS 16_0 like Mac OS X) AppleWebKit/605.1.15 (KHTML, like Gecko) CriOS/110.0.5481.177 Mobile/15E148 Safari/604.1",
            ),
        ),
    );
    v.push((String::from_str("Referer"), String::from_str("https://www.instagram.com/")));
    v.push((String::from_str("Accept"), String::from_str("*/*")));
    v.push((String::from_str("Accept-Language"), String::from_str("en-US,en;q=0.9")));
    v.push((String::from_str("Connection"), String::from_str("keep-alive")));
    v
}

/// The file the tool wrote: the first folder entry other than the
/// direct-download file itself.
pub fn find_tool_output(paths: &Vec<String>, direct_path: &str) -> (r: Option<usize>)
    ensures
        r is None ==> forall|j: int| 0 <= j < paths@.len() ==> (#[trigger] paths@[j])@
            == direct_path@,
        r is Some ==> {
            let i = r.unwrap() as int;
            &&& 0 <= i < paths@.len()
            &&& paths@[i]@ != direct_path@
            &&& forall|j: int| 0 <= j < i ==> (#[trigger] paths@[j])@ == direct_path@
        },
{
    let n: usize = paths.len();
    let mut i: usize = 0;
    while i < n
        invariant
            i <= n,
            n == paths@.len(),
            forall|j: int| 0 <= j < i ==> (#[trigger] paths@[j])@ == direct_path@,
        decreases n - i,
    {
        if !crate::text::eq_str(paths[i].as_str(), direct_path) {
            return Some(i);
        }
        i += 1;
    }
    None
}

/// The file extension the direct-download fallback guesses from the
/// URL: a video when the URL names an `.mp4` resource, else an image.
pub open spec fn spec_direct_ext(url: Seq<char>) -> Seq<char> {
    if crate::text::has_substring(url, crate::media::mp4_suffix()) {
        ("mp4")@
    } else {
        ("jpg")@
    }
}

/// Guesses the direct-download extension for `url`.
pub fn direct_ext_for(url: &str) -> (r: &'static str)
    ensures
        r@ == spec_direct_ext(url@),
{
    let c = crate::text::contains_str(url, ".mp4");
    proof {
        reveal_strlit(".mp4");
        assert((".mp4")@ =~= crate::media::mp4_suffix());
    }
    if c {
        "mp4"
    } else {
        "jpg"
    }
}

/// The path the direct-download fallback writes to.
pub fn direct_download_filename(folder: &str, url: &str) -> (r: String)
    ensures
        r@ == folder@ + ("/direct_download.")@ + spec_direct_ext(url@),
{
    let mut s = String::from_str(folder);
    s.append("/direct_download.");
    s.append(direct_ext_for(url));
    s
}

} // verus!
