//! The rendering side of the pipeline: the stealth launch configuration
//! handed to the headless browser, detection of pages that required
//! JavaScript the renderer could not execute, and the decision taken on
//! what one navigation produced.

use vstd::prelude::*;
use vstd::string::StringExecFns;

use crate::error::LlmWebError;
use crate::text::chars_of;

verus! {

/// Whether the pattern `m` occurs in `h` starting at position `i`.
pub open spec fn matches_at(h: Seq<char>, m: Seq<char>, i: int) -> bool {
    0 <= i && i + m.len() <= h.len() && h.subrange(i, i + m.len()) == m
}

/// Whether the pattern `m` occurs anywhere in `h`.
pub open spec fn contains_substr(h: Seq<char>, m: Seq<char>) -> bool {
    exists|i: int| matches_at(h, m, i)
}

/// Whether the rendered document is the placeholder served to clients
/// without JavaScript: it carries the marker heading or the well-known
/// "Please enable JavaScript" notice.
pub open spec fn js_blocked_spec(h: Seq<char>) -> bool {
    contains_substr(h, "<h1>JavaScript is not available.</h1>"@) || contains_substr(
        h,
        "Please enable JavaScript"@,
    )
}

/// Whether `pat` occurs as a substring of `hay`.
fn contains_chars(hay: &Vec<char>, pat: &Vec<char>) -> (r: bool)
    ensures
        r == contains_substr(hay@, pat@),
{
    let n: usize = hay.len();
    let m: usize = pat.len();
    if m > n {
        proof {
            assert(forall|i: int| !matches_at(hay@, pat@, i));
        }
        return false;
    }
    let mut i: usize = 0;
    while i <= n - m
        invariant
            m <= n,
            n == hay@.len(),
            m == pat@.len(),
            i <= n - m + 1,
            forall|j: int| 0 <= j < i ==> !matches_at(hay@, pat@, j),
        decreases n - m - i + 1,
    {
        let mut k: usize = 0;
        while k < m && hay[i + k] == pat[k]
            invariant
                k <= m,
                i + m <= n,
                n == hay@.len(),
                m == pat@.len(),
                forall|j: int| 0 <= j < k ==> hay@[i + j] == pat@[j],
            decreases m - k,
        {
            k = k + 1;
        }
        if k == m {
            proof {
                assert(hay@.subrange(i as int, i + m as int) =~= pat@);
                assert(matches_at(hay@, pat@, i as int));
            }
            return true;
        }
        proof {
            assert(!matches_at(hay@, pat@, i as int)) by {
                if matches_at(hay@, pat@, i as int) {
                    assert(hay@.subrange(i as int, i + m as int)[k as int] == pat@[k as int]);
                }
            }
        }
        i = i + 1;
    }
    proof {
        assert(forall|j: int| matches_at(hay@, pat@, j) ==> 0 <= j < i);
    }
    false
}

/// Detects a JavaScript-blocked response: rendered HTML that carries a
/// known "JavaScript is not available" marker instead of the content.
pub fn is_js_blocked(html: &str) -> (r: bool)
    ensures
        r == js_blocked_spec(html@),
{
    let h = chars_of(html);
    let m1 = chars_of("<h1>JavaScript is not available.</h1>");
    let m2 = chars_of("Please enable JavaScript");
    contains_chars(&h, &m1) || contains_chars(&h, &m2)
}

/// The launch configuration of the rendering session: fully headless, a
/// fixed desktop viewport, and the fixed flag list that minimizes
/// automation fingerprints.
pub struct BrowserConfig {
    /// The browser runs without a visible window.
    pub headless: bool,
    /// Width of the fixed viewport, in pixels.
    pub window_width: u32,
    /// Height of the fixed viewport, in pixels.
    pub window_height: u32,
    /// The command-line flags handed to the browser process.
    pub args: Vec<String>,
}

/// Builds the stealth launch configuration: headless, a 1200x800
/// viewport, and the literal anti-detection flag list (automation markers
/// off, sandboxing off, web security off, a realistic desktop user agent,
/// an English locale, GPU and info bar off).
pub fn browser_config() -> (c: BrowserConfig)
    ensures
        c.headless,
        c.window_width == 1200,
        c.window_height == 800,
        c.args@.len() == 11,
        c.args@[0]@ == "--disable-blink-features=AutomationControlled"@,
        c.args@[1]@ == "--no-sandbox"@,
        c.args@[2]@ == "--disable-web-security"@,
        c.args@[3]@
            == "--user-agent=Mozilla/5.0 (Windows NT 10.0; Win64; x64) AppleWebKit/537.36 (KHTML, like Gecko) Chrome/91.0.4472.124 Safari/537.36"@,
        c.args@[4]@ == "--lang=en-US,en;q=0.9"@,
        c.args@[5]@ == "--disable-dev-shm-usage"@,
        c.args@[6]@ == "--disable-gpu"@,
        c.args@[7]@ == "--disable-infobars"@,
        c.args@[8]@ == "--no-first-run"@,
        c.args@[9]@ == "--enable-automation=false"@,
        c.args@[10]@ == "--enable-javascript=true"@,
{
    let mut args: Vec<String> = Vec::new();
    args.push("--disable-blink-features=AutomationControlled".to_owned());
    args.push("--no-sandbox".to_owned());
    args.push("--disable-web-security".to_owned());
    args.push(
        "--user-agent=Mozilla/5.0 (Windows NT 10.0; Win64; x64) AppleWebKit/537.36 (KHTML, like Gecko) Chrome/91.0.4472.124 Safari/537.36".to_owned(),
    );
    args.push("--lang=en-US,en;q=0.9".to_owned());
    args.push("--disable-dev-shm-usage".to_owned());
    args.push("--disable-gpu".to_owned());
    args.push("--disable-infobars".to_owned());
    args.push("--no-first-run".to_owned());
    args.push("--enable-automation=false".to_owned());
    args.push("--enable-javascript=true".to_owned());
    BrowserConfig { headless: true, window_width: 1200, window_height: 800, args }
}

/// What one navigation produced, as seen by the pipeline: the fully
/// rendered HTML, or a browser failure with its message.
pub enum RenderEvent {
    /// The navigation completed and the rendered document was read.
    Rendered(String),
    /// Browser launch, tab creation, navigation, or content read failed.
    Failed(String),
}

/// Decides the outcome of the rendering stage. Rendered HTML that carries
/// a JavaScript-blocked marker is rejected with the distinct `JsBlocked`
/// failure rather than returned as content; any browser failure is
/// surfaced as a rendering failure with its message preserved.
pub fn render_outcome(ev: RenderEvent) -> (r: Result<String, LlmWebError>)
    ensures
        (match ev {
            RenderEvent::Rendered(h) => if js_blocked_spec(h@) {
                r matches Err(e) && e is JsBlocked
            } else {
                r matches Ok(c) && c@ == h@
            },
            RenderEvent::Failed(m) => r matches Err(e) && e matches LlmWebError::Browser(b) && b@
                == m@,
        }),
{
    match ev {
        RenderEvent::Rendered(html) => {
            if is_js_blocked(html.as_str()) {
                Err(LlmWebError::JsBlocked)
            } else {
                Ok(html)
            }
        },
        RenderEvent::Failed(msg) => Err(LlmWebError::Browser(msg)),
    }
}

} // verus!
