use vstd::prelude::*;

use crate::text::owned;

verus! {

/// A local browser whose session yt-dlp could read cookies from.
#[derive(Debug, Clone, Copy, PartialEq, Eq, Hash, Structural)]
pub enum BrowserSession {
    Firefox,
    Edge,
    Chrome,
    Brave,
}

/// The identifier of a browser, as yt-dlp's `--cookies-from-browser` names it.
pub open spec fn browser_id(b: BrowserSession) -> Seq<char> {
    match b {
        BrowserSession::Firefox => "firefox"@,
        BrowserSession::Edge => "edge"@,
        BrowserSession::Chrome => "chrome"@,
        BrowserSession::Brave => "brave"@,
    }
}

/// The name of a browser as the interface shows it.
pub open spec fn browser_label(b: BrowserSession) -> Seq<char> {
    match b {
        BrowserSession::Firefox => "Firefox"@,
        BrowserSession::Edge => "Edge"@,
        BrowserSession::Chrome => "Chrome"@,
        BrowserSession::Brave => "Brave"@,
    }
}

/// The browser whose identifier is `value`, if any.
pub open spec fn browser_of_id(value: Seq<char>) -> Option<BrowserSession> {
    if value == "firefox"@ {
        Some(BrowserSession::Firefox)
    } else if value == "edge"@ {
        Some(BrowserSession::Edge)
    } else if value == "chrome"@ {
        Some(BrowserSession::Chrome)
    } else if value == "brave"@ {
        Some(BrowserSession::Brave)
    } else {
        None
    }
}

impl BrowserSession {
    /// The identifier of this browser.
    pub fn as_str(self) -> (r: &'static str)
        ensures
            r@ == browser_id(self),
    {
        match self {
            BrowserSession::Firefox => "firefox",
            BrowserSession::Edge => "edge",
            BrowserSession::Chrome => "chrome",
            BrowserSession::Brave => "brave",
        }
    }

    /// The display name of this browser.
    pub fn label(self) -> (r: &'static str)
        ensures
            r@ == browser_label(self),
    {
        match self {
            BrowserSession::Firefox => "Firefox",
            BrowserSession::Edge => "Edge",
            BrowserSession::Chrome => "Chrome",
            BrowserSession::Brave => "Brave",
        }
    }

    /// The browser named by an identifier; `None` for any other text.
    pub fn parse(value: &str) -> (r: Option<BrowserSession>)
        ensures
            r == browser_of_id(value@),
    {
        let v = crate::text::chars_of(value);
        if crate::text::eq_lit(&v, "firefox") {
            Some(BrowserSession::Firefox)
        } else if crate::text::eq_lit(&v, "edge") {
            Some(BrowserSession::Edge)
        } else if crate::text::eq_lit(&v, "chrome") {
            Some(BrowserSession::Chrome)
        } else if crate::text::eq_lit(&v, "brave") {
            Some(BrowserSession::Brave)
        } else {
            None
        }
    }
}

/// How a YouTube request is made: anonymously, with a local proof-of-origin
/// token provider, or with a browser's session (optionally together with the
/// token provider).
#[derive(Debug, Clone, Copy, PartialEq, Eq, Structural)]
pub enum YoutubeAccessStrategy {
    Public,
    Pot,
    Browser { browser: BrowserSession, use_pot_provider: bool },
}

impl Default for YoutubeAccessStrategy {
    fn default() -> (r: Self)
        ensures
            r == YoutubeAccessStrategy::Public,
    {
        YoutubeAccessStrategy::Public
    }
}

/// The browser a strategy reads a session from, if any.
pub open spec fn strategy_browser(s: YoutubeAccessStrategy) -> Option<BrowserSession> {
    match s {
        YoutubeAccessStrategy::Browser { browser, .. } => Some(browser),
        _ => None,
    }
}

/// Whether a strategy uses the local token provider.
pub open spec fn strategy_uses_pot(s: YoutubeAccessStrategy) -> bool {
    match s {
        YoutubeAccessStrategy::Pot => true,
        YoutubeAccessStrategy::Browser { use_pot_provider, .. } => use_pot_provider,
        YoutubeAccessStrategy::Public => false,
    }
}

/// The name under which a strategy appears in the diagnostic log.
pub open spec fn strategy_diagnostic_name(s: YoutubeAccessStrategy) -> Seq<char> {
    match s {
        YoutubeAccessStrategy::Public => "public"@,
        YoutubeAccessStrategy::Pot => "pot_http"@,
        YoutubeAccessStrategy::Browser { browser, use_pot_provider } => if use_pot_provider {
            "browser_"@ + browser_id(browser) + "_pot_http"@
        } else {
            "browser_"@ + browser_id(browser)
        },
    }
}

impl YoutubeAccessStrategy {
    /// The browser whose session this strategy uses.
    pub fn browser(&self) -> (r: Option<BrowserSession>)
        ensures
            r == strategy_browser(*self),
    {
        match self {
            YoutubeAccessStrategy::Browser { browser, .. } => Some(*browser),
            _ => None,
        }
    }

    /// Whether this strategy needs the local token provider.
    pub fn uses_pot_provider(&self) -> (r: bool)
        ensures
            r == strategy_uses_pot(*self),
    {
        match self {
            YoutubeAccessStrategy::Pot => true,
            YoutubeAccessStrategy::Browser { use_pot_provider, .. } => *use_pot_provider,
            YoutubeAccessStrategy::Public => false,
        }
    }

    /// The strategy's name for the diagnostic log.
    pub fn diagnostic_name(&self) -> (r: String)
        ensures
            r@ == strategy_diagnostic_name(*self),
    {
        match self {
            YoutubeAccessStrategy::Public => owned("public"),
            YoutubeAccessStrategy::Pot => owned("pot_http"),
            YoutubeAccessStrategy::Browser { browser, use_pot_provider } => {
                let mut name = owned("browser_");
                name.append(browser.as_str());
                if *use_pot_provider {
                    name.append("_pot_http");
                }
                name
            },
        }
    }

    /// The fields that older front ends read in place of the strategy: the
    /// browser identifier and whether the token provider was used.
    pub fn legacy_fields(&self) -> (r: (Option<String>, bool))
        ensures
            r.0 matches Some(s) ==> strategy_browser(*self) matches Some(b) && s@ == browser_id(b),
            r.0 is None <==> strategy_browser(*self) is None,
            r.1 == strategy_uses_pot(*self),
    {
        let browser = match self.browser() {
            Some(b) => Some(owned(b.as_str())),
            None => None,
        };
        (browser, self.uses_pot_provider())
    }
}

/// The kinds into which yt-dlp's error text is sorted.
#[derive(Debug, Clone, Copy, PartialEq, Eq, Structural)]
pub enum YoutubeFailureClass {
    AntiBotChallenge,
    AccountRequired,
    PotRequired,
    PotUnavailable,
    CookieDatabaseLocked,
    CookieDecryptUnsupported,
    BrowserMissing,
    SessionRejected,
    ExtractorOutdated,
    RequestedFormatUnavailable,
    Private,
    Unavailable,
    GeoRestricted,
    RateLimited,
    Network,
    TimedOut,
    Other,
}

/// The code under which a failure class appears in the diagnostic log.
pub open spec fn failure_code(c: YoutubeFailureClass) -> Seq<char> {
    match c {
        YoutubeFailureClass::AntiBotChallenge => "anti_bot"@,
        YoutubeFailureClass::AccountRequired => "account_required"@,
        YoutubeFailureClass::PotRequired => "pot_required"@,
        YoutubeFailureClass::PotUnavailable => "pot_unavailable"@,
        YoutubeFailureClass::CookieDatabaseLocked => "cookie_db_locked"@,
        YoutubeFailureClass::CookieDecryptUnsupported => "cookie_decrypt_unsupported"@,
        YoutubeFailureClass::BrowserMissing => "browser_missing"@,
        YoutubeFailureClass::SessionRejected => "session_rejected"@,
        YoutubeFailureClass::ExtractorOutdated => "extractor_outdated"@,
        YoutubeFailureClass::RequestedFormatUnavailable => "format_unavailable"@,
        YoutubeFailureClass::Private => "private"@,
        YoutubeFailureClass::Unavailable => "unavailable"@,
        YoutubeFailureClass::GeoRestricted => "geo_restricted"@,
        YoutubeFailureClass::RateLimited => "rate_limited"@,
        YoutubeFailureClass::Network => "network"@,
        YoutubeFailureClass::TimedOut => "timeout"@,
        YoutubeFailureClass::Other => "other"@,
    }
}

/// The failures after which a retry with the token provider is worth making.
pub open spec fn warrants_pot_spec(c: YoutubeFailureClass) -> bool {
    c == YoutubeFailureClass::AntiBotChallenge || c == YoutubeFailureClass::PotRequired
}

impl YoutubeFailureClass {
    /// The class's code for the diagnostic log.
    pub fn code(self) -> (r: &'static str)
        ensures
            r@ == failure_code(self),
    {
        match self {
            YoutubeFailureClass::AntiBotChallenge => "anti_bot",
            YoutubeFailureClass::AccountRequired => "account_required",
            YoutubeFailureClass::PotRequired => "pot_required",
            YoutubeFailureClass::PotUnavailable => "pot_unavailable",
            YoutubeFailureClass::CookieDatabaseLocked => "cookie_db_locked",
            YoutubeFailureClass::CookieDecryptUnsupported => "cookie_decrypt_unsupported",
            YoutubeFailureClass::BrowserMissing => "browser_missing",
            YoutubeFailureClass::SessionRejected => "session_rejected",
            YoutubeFailureClass::ExtractorOutdated => "extractor_outdated",
            YoutubeFailureClass::RequestedFormatUnavailable => "format_unavailable",
            YoutubeFailureClass::Private => "private",
            YoutubeFailureClass::Unavailable => "unavailable",
            YoutubeFailureClass::GeoRestricted => "geo_restricted",
            YoutubeFailureClass::RateLimited => "rate_limited",
            YoutubeFailureClass::Network => "network",
            YoutubeFailureClass::TimedOut => "timeout",
            YoutubeFailureClass::Other => "other",
        }
    }

    /// Whether a retry with the local token provider is warranted.
    pub fn warrants_pot(self) -> (r: bool)
        ensures
            r == warrants_pot_spec(self),
    {
        match self {
            YoutubeFailureClass::AntiBotChallenge | YoutubeFailureClass::PotRequired => true,
            _ => false,
        }
    }

    /// Whether the content needs an account.
    pub fn is_account_requirement(self) -> (r: bool)
        ensures
            r == (self == YoutubeFailureClass::AccountRequired),
    {
        match self {
            YoutubeFailureClass::AccountRequired => true,
            _ => false,
        }
    }
}

} // verus!
