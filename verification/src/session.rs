//! The browser session manager's verified core: the fixed stealth
//! capability set, the ordered automation-endpoint candidates, and the
//! connect-scan policy.

use vstd::prelude::*;
use vstd::string::StringExecFns;

verus! {

/// A terminal session failure: no automation endpoint accepted a
/// connection; the description carries the last error.
#[derive(Debug, Clone)]
pub struct SessionError(pub String);

/// The ordered automation-endpoint candidates: the default and the
/// alternative driver ports, on both local host names.
pub fn webdriver_endpoints() -> (r: Vec<String>)
    ensures
        r@.len() == 4,
        r@[0]@ == ("http://localhost:9515")@,
        r@[1]@ == ("http://localhost:4444")@,
        r@[2]@ == ("http://127.0.0.1:9515")@,
        r@[3]@ == ("http://127.0.0.1:4444")@,
{
    let mut v: Vec<String> = Vec::new();
    v.push(String::from_str("http://localhost:9515"));
    v.push(String::from_str("http://localhost:4444"));
    v.push(String::from_str("http://127.0.0.1:9515"));
    v.push(String::from_str("http://127.0.0.1:4444"));
    v
}

/// The browser arguments of the stealth capability set: sandbox and
/// automation markers off, a mobile user agent, headless rendering.
pub fn stealth_browser_args() -> (r: Vec<String>)
    ensures
        r@.len() == 13,
        r@[0]@ == ("--no-sandbox")@,
        r@[1]@ == ("--disable-setuid-sandbox")@,
        r@[2]@ == ("--disable-infobars")@,
        r@[3]@ == ("--window-position=0,0")@,
        r@[4]@ == ("--ignore-certificate-errors")@,
        r@[5]@ == ("--ignore-certificate-errors-spki-list")@,
        r@[6]@ == (
        "--user-agent=Mozilla/5.0 (iPhone; CPU iPhone OS 16_0 like Mac OS X) AppleWebKit/605.1.15 (KHTML, like Gecko) CriOS/110.0.5481.177 Mobile/15E148 Safari/604.1"
        )@,
        r@[7]@ == ("--disable-blink-features=AutomationControlled")@,
        r@[8]@ == ("--headless=new")@,
        r@[9]@ == ("--disable-gpu")@,
        r@[10]@ == ("--disable-extensions")@,
        r@[11]@ == ("--mute-audio")@,
        r@[12]@ == ("--hide-scrollbars")@,
{
    let mut v: Vec<String> = Vec::new();
    v.push(String::from_str("--no-sandbox"));
    v.push(String::from_str("--disable-setuid-sandbox"));
    v.push(String::from_str("--disable-infobars"));
    v.push(String::from_str("--window-position=0,0"));
    v.push(String::from_str("--ignore-certificate-errors"));
    v.push(String::from_str("--ignore-certificate-errors-spki-list"));
    v.push(
        String::from_str(
            "--user-agent=Mozilla/5.0 (iPhone; CPU iPhone OS 16_0 like Mac OS X) AppleWebKit/605.1.15 (KHTML, like Gecko) CriOS/110.0.5481.177 Mobile/15E148 Safari/604.1",
        ),
    );
    v.push(String::from_str("--disable-blink-features=AutomationControlled"));
    v.push(String::from_str("--headless=new"));
    v.push(String::from_str("--disable-gpu"));
    v.push(String::from_str("--disable-extensions"));
    v.push(String::from_str("--mute-audio"));
    v.push(String::from_str("--hide-scrollbars"));
    v
}

/// The in-page patch applied right after connecting, masking
/// automation-detectable browser properties.
pub fn stealth_script() -> (r: &'static str)
    ensures
        r@ == (
        "Object.defineProperty(navigator, 'webdriver', {get: () => undefined});\nif (!('ontouchstart' in window)) {\n    Object.defineProperty(navigator, 'maxTouchPoints', {get: () => 5});\n    window.ontouchstart = function(){};\n}\nif (navigator.userAgentData) {\n    Object.defineProperty(navigator.userAgentData, 'mobile', {get: () => true});\n}"
        )@,
{
    "Object.defineProperty(navigator, 'webdriver', {get: () => undefined});\nif (!('ontouchstart' in window)) {\n    Object.defineProperty(navigator, 'maxTouchPoints', {get: () => 5});\n    window.ontouchstart = function(){};\n}\nif (navigator.userAgentData) {\n    Object.defineProperty(navigator.userAgentData, 'mobile', {get: () => true});\n}"
}

/// The leaner browser arguments of the reel poll's own session.
pub fn reel_browser_args() -> (r: Vec<String>)
    ensures
        r@.len() == 6,
        r@[0]@ == ("--disable-blink-features=AutomationControlled")@,
        r@[1]@ == ("--no-sandbox")@,
        r@[2]@ == ("--disable-dev-shm-usage")@,
        r@[3]@ == ("--headless=new")@,
        r@[4]@ == ("--disable-gpu")@,
        r@[5]@ == ("--disable-extensions")@,
{
    let mut v: Vec<String> = Vec::new();
    v.push(String::from_str("--disable-blink-features=AutomationControlled"));
    v.push(String::from_str("--no-sandbox"));
    v.push(String::from_str("--disable-dev-shm-usage"));
    v.push(String::from_str("--headless=new"));
    v.push(String::from_str("--disable-gpu"));
    v.push(String::from_str("--disable-extensions"));
    v
}

/// The cookie databases site cookies can be imported from, in the
/// order they are probed.
pub fn cookie_db_candidates(home: &str) -> (r: Vec<String>)
    ensures
        r@.len() == 2,
        r@[0]@ == home@ + ("/.config/google-chrome/Default/Cookies")@,
        r@[1]@ == home@ + ("/.config/chromium/Default/Cookies")@,
{
    let mut first = String::from_str(home);
    first.append("/.config/google-chrome/Default/Cookies");
    let mut second = String::from_str(home);
    second.append("/.config/chromium/Default/Cookies");
    let mut v: Vec<String> = Vec::new();
    v.push(first);
    v.push(second);
    v
}

/// Picks the endpoint the session uses: the first candidate that
/// accepted a connection, or none when every attempt failed.
pub fn first_connected(results: &Vec<bool>) -> (r: Option<usize>)
    ensures
        r is None ==> forall|j: int| 0 <= j < results@.len() ==> !(#[trigger] results@[j]),
        r is Some ==> {
            let i = r.unwrap() as int;
            &&& 0 <= i < results@.len()
            &&& results@[i]
            &&& forall|j: int| 0 <= j < i ==> !(#[trigger] results@[j])
        },
{
    let n: usize = results.len();
    let mut i: usize = 0;
    while i < n
        invariant
            i <= n,
            n == results@.len(),
            forall|j: int| 0 <= j < i ==> !(#[trigger] results@[j]),
        decreases n - i,
    {
        if results[i] {
            return Some(i);
        }
        i += 1;
    }
    None
}

/// The terminal message when every endpoint failed, carrying the last
/// error where one was observed.
pub fn session_exhausted_message(last_error: &Option<String>) -> (r: String)
    ensures
        last_error matches Some(e) ==> r@ == (
        "Failed to connect to WebDriver. Please ensure ChromeDriver is running.\nLast error: ")@
            + e@,
        last_error is None ==> r@ == (
        "Failed to connect to WebDriver. Please ensure ChromeDriver is running.\nLast error: ")@
            + ("Unknown error")@,
{
    let mut s = String::from_str(
        "Failed to connect to WebDriver. Please ensure ChromeDriver is running.\nLast error: ",
    );
    match last_error {
        Some(e) => {
            s.append(e.as_str());
        },
        None => {
            s.append("Unknown error");
        },
    }
    s
}

} // verus!
