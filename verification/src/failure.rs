use vstd::prelude::*;

use crate::access::{browser_label, strategy_browser, YoutubeAccessStrategy, YoutubeFailureClass};
use crate::text::{chars_of, contains_text, has_lit, lower_chars, lower_text, owned};

verus! {

/// The failure class of yt-dlp's error text, given the text in ASCII lower
/// case. The first matching rule decides.
pub open spec fn class_of_lower(t: Seq<char>) -> YoutubeFailureClass {
    if contains_text(t, "could not copy chrome cookie database"@)
        || (contains_text(t, "permission denied"@) && contains_text(t, "cookie"@)) {
        YoutubeFailureClass::CookieDatabaseLocked
    } else if contains_text(t, "failed to decrypt with dpapi"@)
        || contains_text(t, "could not decrypt cookies"@)
        || contains_text(t, "could not decrypt with dpapi"@)
        || contains_text(t, "cannot decrypt v20"@)
        || contains_text(t, "unknown cookie version"@) {
        YoutubeFailureClass::CookieDecryptUnsupported
    } else if (contains_text(t, "could not find"@) && contains_text(t, "cookies database"@))
        || contains_text(t, "unsupported browser"@) {
        YoutubeFailureClass::BrowserMissing
    } else if contains_text(t, "private video"@) {
        if contains_text(t, "sign in"@) || contains_text(t, "granted access"@) {
            YoutubeFailureClass::AccountRequired
        } else {
            YoutubeFailureClass::Private
        }
    } else if contains_text(t, "not available in your country"@)
        || contains_text(t, "not available in your region"@)
        || contains_text(t, "geo-restricted"@) {
        YoutubeFailureClass::GeoRestricted
    } else if contains_text(t, "video unavailable"@)
        || contains_text(t, "this video is not available"@) {
        YoutubeFailureClass::Unavailable
    } else if contains_text(t, "requested format is not available"@) {
        YoutubeFailureClass::RequestedFormatUnavailable
    } else if contains_text(t, "http error 429"@) || contains_text(t, "too many requests"@) {
        YoutubeFailureClass::RateLimited
    } else if contains_text(t, "sign in to confirm"@)
        || contains_text(t, "confirm you’re not a bot"@)
        || contains_text(t, "confirm you're not a bot"@)
        || contains_text(t, "confirm you are not a bot"@) {
        YoutubeFailureClass::AntiBotChallenge
    } else if contains_text(t, "members-only"@)
        || contains_text(t, "members only"@)
        || contains_text(t, "join this channel"@)
        || contains_text(t, "login required"@)
        || contains_text(t, "log in to view"@)
        || contains_text(t, "sign in to view"@)
        || contains_text(t, "confirm your age"@)
        || contains_text(t, "age-restricted"@) {
        YoutubeFailureClass::AccountRequired
    } else if contains_text(t, "po token"@)
        || contains_text(t, "proof of origin"@)
        || contains_text(t, "pot provider"@)
        || contains_text(t, "pot is required"@) {
        YoutubeFailureClass::PotRequired
    } else if contains_text(t, "please update"@)
        || contains_text(t, "update to a nightly"@)
        || contains_text(t, "signature solving failed"@)
        || contains_text(t, "nsig extraction failed"@)
        || (contains_text(t, "no longer supported"@) && contains_text(t, "youtube"@)) {
        YoutubeFailureClass::ExtractorOutdated
    } else if contains_text(t, "http error 401"@) || contains_text(t, "http error 403"@) {
        YoutubeFailureClass::SessionRejected
    } else if contains_text(t, "timed out"@)
        || contains_text(t, "temporary failure in name resolution"@)
        || contains_text(t, "unable to download webpage"@)
        || contains_text(t, "connection reset"@)
        || contains_text(t, "connection refused"@)
        || contains_text(t, "network is unreachable"@) {
        YoutubeFailureClass::Network
    } else {
        YoutubeFailureClass::Other
    }
}

/// yt-dlp's report that the requested format is gone is recognised as such
/// (and so has its safe message) unless the text also speaks of a browser's
/// cookies, a private video, a region restriction or an unavailable video,
/// which the earlier rules take first.
pub proof fn lemma_requested_format_unavailable(technical: Seq<char>)
    requires
        contains_text(lower_text(technical), "requested format is not available"@),
        !contains_text(lower_text(technical), "cookie"@),
        !contains_text(lower_text(technical), "could not find"@),
        !contains_text(lower_text(technical), "unsupported browser"@),
        !contains_text(lower_text(technical), "dpapi"@),
        !contains_text(lower_text(technical), "cannot decrypt v20"@),
        !contains_text(lower_text(technical), "private video"@),
        !contains_text(lower_text(technical), "not available in your"@),
        !contains_text(lower_text(technical), "geo-restricted"@),
        !contains_text(lower_text(technical), "video unavailable"@),
        !contains_text(lower_text(technical), "this video is not available"@),
    ensures
        failure_class_of(technical) == YoutubeFailureClass::RequestedFormatUnavailable,
        class_message(failure_class_of(technical), "x"@) is Some,
{
    let t = lower_text(technical);
    reveal_strlit("could not copy chrome cookie database");
    reveal_strlit("cookie");
    reveal_strlit("could not decrypt cookies");
    reveal_strlit("unknown cookie version");
    reveal_strlit("failed to decrypt with dpapi");
    reveal_strlit("dpapi");
    reveal_strlit("could not decrypt with dpapi");
    reveal_strlit("not available in your country");
    reveal_strlit("not available in your");
    reveal_strlit("not available in your region");
    assert(!contains_text(t, "could not copy chrome cookie database"@)) by {
        assert("could not copy chrome cookie database"@.subrange(22, 28) =~= "cookie"@);
        lemma_contains_inner(t, "could not copy chrome cookie database"@, "cookie"@, 22);
    }
    assert(!contains_text(t, "could not decrypt cookies"@)) by {
        assert("could not decrypt cookies"@.subrange(18, 24) =~= "cookie"@);
        lemma_contains_inner(t, "could not decrypt cookies"@, "cookie"@, 18);
    }
    assert(!contains_text(t, "unknown cookie version"@)) by {
        assert("unknown cookie version"@.subrange(8, 14) =~= "cookie"@);
        lemma_contains_inner(t, "unknown cookie version"@, "cookie"@, 8);
    }
    assert(!contains_text(t, "failed to decrypt with dpapi"@)) by {
        assert("failed to decrypt with dpapi"@.subrange(23, 28) =~= "dpapi"@);
        lemma_contains_inner(t, "failed to decrypt with dpapi"@, "dpapi"@, 23);
    }
    assert(!contains_text(t, "could not decrypt with dpapi"@)) by {
        assert("could not decrypt with dpapi"@.subrange(23, 28) =~= "dpapi"@);
        lemma_contains_inner(t, "could not decrypt with dpapi"@, "dpapi"@, 23);
    }
    assert(!contains_text(t, "not available in your country"@)) by {
        assert("not available in your country"@.subrange(0, 21) =~= "not available in your"@);
        lemma_contains_inner(t, "not available in your country"@, "not available in your"@, 0);
    }
    assert(!contains_text(t, "not available in your region"@)) by {
        assert("not available in your region"@.subrange(0, 21) =~= "not available in your"@);
        lemma_contains_inner(t, "not available in your region"@, "not available in your"@, 0);
    }
}

/// A text that contains `outer` contains every part of it: here `inner`,
/// found in `outer` at `at`.
proof fn lemma_contains_inner(t: Seq<char>, outer: Seq<char>, inner: Seq<char>, at: int)
    requires
        0 <= at,
        at + inner.len() <= outer.len(),
        outer.subrange(at, at + inner.len()) == inner,
        !contains_text(t, inner),
    ensures
        !contains_text(t, outer),
{
    if contains_text(t, outer) {
        let i = choose|i: int| 0 <= i && i + outer.len() <= t.len() && #[trigger] t.subrange(i, i + outer.len()) == outer;
        assert(t.subrange(i + at, i + at + inner.len()) == outer.subrange(at, at + inner.len()));
    }
}

/// The failure class of yt-dlp's error text.
pub open spec fn failure_class_of(technical: Seq<char>) -> YoutubeFailureClass {
    class_of_lower(lower_text(technical))
}

/// Sorts yt-dlp's unstable error text into the small internal taxonomy. The
/// raw text itself is never handed on.
pub fn classify_youtube_failure(technical: &str) -> (r: YoutubeFailureClass)
    ensures
        r == failure_class_of(technical@),
{
    let raw = chars_of(technical);
    let t = lower_chars(&raw);
    if has_lit(&t, "could not copy chrome cookie database")
        || (has_lit(&t, "permission denied") && has_lit(&t, "cookie")) {
        return YoutubeFailureClass::CookieDatabaseLocked;
    }
    if has_lit(&t, "failed to decrypt with dpapi")
        || has_lit(&t, "could not decrypt cookies")
        || has_lit(&t, "could not decrypt with dpapi")
        || has_lit(&t, "cannot decrypt v20")
        || has_lit(&t, "unknown cookie version") {
        return YoutubeFailureClass::CookieDecryptUnsupported;
    }
    if (has_lit(&t, "could not find") && has_lit(&t, "cookies database"))
        || has_lit(&t, "unsupported browser") {
        return YoutubeFailureClass::BrowserMissing;
    }
    if has_lit(&t, "private video") {
        return if has_lit(&t, "sign in") || has_lit(&t, "granted access") {
            YoutubeFailureClass::AccountRequired
        } else {
            YoutubeFailureClass::Private
        };
    }
    if has_lit(&t, "not available in your country")
        || has_lit(&t, "not available in your region")
        || has_lit(&t, "geo-restricted") {
        return YoutubeFailureClass::GeoRestricted;
    }
    if has_lit(&t, "video unavailable") || has_lit(&t, "this video is not available") {
        return YoutubeFailureClass::Unavailable;
    }
    if has_lit(&t, "requested format is not available") {
        return YoutubeFailureClass::RequestedFormatUnavailable;
    }
    if has_lit(&t, "http error 429") || has_lit(&t, "too many requests") {
        return YoutubeFailureClass::RateLimited;
    }
    if has_lit(&t, "sign in to confirm")
        || has_lit(&t, "confirm you’re not a bot")
        || has_lit(&t, "confirm you're not a bot")
        || has_lit(&t, "confirm you are not a bot") {
        return YoutubeFailureClass::AntiBotChallenge;
    }
    if has_lit(&t, "members-only")
        || has_lit(&t, "members only")
        || has_lit(&t, "join this channel")
        || has_lit(&t, "login required")
        || has_lit(&t, "log in to view")
        || has_lit(&t, "sign in to view")
        || has_lit(&t, "confirm your age")
        || has_lit(&t, "age-restricted") {
        return YoutubeFailureClass::AccountRequired;
    }
    if has_lit(&t, "po token")
        || has_lit(&t, "proof of origin")
        || has_lit(&t, "pot provider")
        || has_lit(&t, "pot is required") {
        return YoutubeFailureClass::PotRequired;
    }
    if has_lit(&t, "please update")
        || has_lit(&t, "update to a nightly")
        || has_lit(&t, "signature solving failed")
        || has_lit(&t, "nsig extraction failed")
        || (has_lit(&t, "no longer supported") && has_lit(&t, "youtube")) {
        return YoutubeFailureClass::ExtractorOutdated;
    }
    if has_lit(&t, "http error 401") || has_lit(&t, "http error 403") {
        return YoutubeFailureClass::SessionRejected;
    }
    if has_lit(&t, "timed out")
        || has_lit(&t, "temporary failure in name resolution")
        || has_lit(&t, "unable to download webpage")
        || has_lit(&t, "connection reset")
        || has_lit(&t, "connection refused")
        || has_lit(&t, "network is unreachable") {
        return YoutubeFailureClass::Network;
    }
    YoutubeFailureClass::Other
}

/// Whether yt-dlp's error text says that the content needs an account.
pub fn youtube_requires_browser_session(technical: &str) -> (r: bool)
    ensures
        r == (failure_class_of(technical@) == YoutubeFailureClass::AccountRequired),
{
    classify_youtube_failure(technical).is_account_requirement()
}


/// How the interface refers to the browser of a strategy.
pub open spec fn browser_phrase(strategy: YoutubeAccessStrategy) -> Seq<char> {
    match strategy_browser(strategy) {
        Some(b) => browser_label(b),
        None => "el navegador local"@,
    }
}

/// The safe, actionable message for a failure class; `None` for failures that
/// have no specific advice.
pub open spec fn class_message(c: YoutubeFailureClass, browser: Seq<char>) -> Option<Seq<char>> {
    match c {
        YoutubeFailureClass::CookieDatabaseLocked => Some(
            "No se pudo usar la sesión de "@ + browser
                + " porque su base de datos está abierta. La aplicación continuó con las demás opciones sin cerrar el navegador."@,
        ),
        YoutubeFailureClass::CookieDecryptUnsupported => Some(
            "La protección de cookies de "@ + browser
                + " no es compatible con el motor actual. La aplicación no desactivó el cifrado y continuó con las demás opciones."@,
        ),
        YoutubeFailureClass::BrowserMissing => Some(
            "No se encontró una sesión utilizable de "@ + browser + "."@,
        ),
        YoutubeFailureClass::AntiBotChallenge => Some(
            "YouTube no aceptó todavía la verificación automática."@,
        ),
        YoutubeFailureClass::AccountRequired => Some(
            "YouTube exige una cuenta con acceso a este contenido y no se encontró una sesión local válida."@,
        ),
        YoutubeFailureClass::PotRequired => Some(
            "El verificador local de YouTube no estuvo disponible."@,
        ),
        YoutubeFailureClass::PotUnavailable => Some(
            "El verificador local de YouTube no estuvo disponible."@,
        ),
        YoutubeFailureClass::Private => Some("El video es privado."@),
        YoutubeFailureClass::Unavailable => Some("El video no está disponible."@),
        YoutubeFailureClass::GeoRestricted => Some("El video no está disponible en esta región."@),
        YoutubeFailureClass::RateLimited => Some(
            "YouTube limitó temporalmente las solicitudes. Esperá unos minutos antes de reintentar."@,
        ),
        YoutubeFailureClass::RequestedFormatUnavailable => Some(
            "La fuente ya no ofrece el formato original elegido; se volverá a buscar la misma resolución."@,
        ),
        YoutubeFailureClass::TimedOut => Some("YouTube tardó demasiado en responder."@),
        YoutubeFailureClass::Network => Some(
            "No se pudo conectar con YouTube. Comprobá la conexión y reintentá."@,
        ),
        YoutubeFailureClass::ExtractorOutdated => Some(
            "YouTube cambió su extractor y el motor local necesita actualizarse."@,
        ),
        YoutubeFailureClass::SessionRejected => Some("YouTube rechazó esta sesión local."@),
        YoutubeFailureClass::Other => None,
    }
}

/// Builds `first + middle + last`.
fn join3(first: &str, middle: &str, last: &str) -> (r: String)
    ensures
        r@ == first@ + middle@ + last@,
{
    let mut s = owned(first);
    s.append(middle);
    s.append(last);
    s
}

/// The safe message for a failure class, with the strategy's browser named
/// where the message is about a browser.
pub fn class_failure_message(class: YoutubeFailureClass, strategy: &YoutubeAccessStrategy) -> (r: Option<String>)
    ensures
        r matches Some(m) ==> class_message(class, browser_phrase(*strategy)) == Some(m@),
        r is None <==> class_message(class, browser_phrase(*strategy)) is None,
{
    let browser: &str = match strategy.browser() {
        Some(b) => b.label(),
        None => "el navegador local",
    };
    match class {
        YoutubeFailureClass::CookieDatabaseLocked => Some(join3(
            "No se pudo usar la sesión de ",
            browser,
            " porque su base de datos está abierta. La aplicación continuó con las demás opciones sin cerrar el navegador.",
        )),
        YoutubeFailureClass::CookieDecryptUnsupported => Some(join3(
            "La protección de cookies de ",
            browser,
            " no es compatible con el motor actual. La aplicación no desactivó el cifrado y continuó con las demás opciones.",
        )),
        YoutubeFailureClass::BrowserMissing => Some(join3(
            "No se encontró una sesión utilizable de ",
            browser,
            ".",
        )),
        YoutubeFailureClass::AntiBotChallenge => Some(owned(
            "YouTube no aceptó todavía la verificación automática.",
        )),
        YoutubeFailureClass::AccountRequired => Some(owned(
            "YouTube exige una cuenta con acceso a este contenido y no se encontró una sesión local válida.",
        )),
        YoutubeFailureClass::PotRequired => Some(owned(
            "El verificador local de YouTube no estuvo disponible.",
        )),
        YoutubeFailureClass::PotUnavailable => Some(owned(
            "El verificador local de YouTube no estuvo disponible.",
        )),
        YoutubeFailureClass::Private => Some(owned("El video es privado.")),
        YoutubeFailureClass::Unavailable => Some(owned("El video no está disponible.")),
        YoutubeFailureClass::GeoRestricted => Some(owned("El video no está disponible en esta región.")),
        YoutubeFailureClass::RateLimited => Some(owned(
            "YouTube limitó temporalmente las solicitudes. Esperá unos minutos antes de reintentar.",
        )),
        YoutubeFailureClass::RequestedFormatUnavailable => Some(owned(
            "La fuente ya no ofrece el formato original elegido; se volverá a buscar la misma resolución.",
        )),
        YoutubeFailureClass::TimedOut => Some(owned("YouTube tardó demasiado en responder.")),
        YoutubeFailureClass::Network => Some(owned(
            "No se pudo conectar con YouTube. Comprobá la conexión y reintentá.",
        )),
        YoutubeFailureClass::ExtractorOutdated => Some(owned(
            "YouTube cambió su extractor y el motor local necesita actualizarse.",
        )),
        YoutubeFailureClass::SessionRejected => Some(owned("YouTube rechazó esta sesión local.")),
        YoutubeFailureClass::Other => None,
    }
}

/// Produces only safe, actionable text for yt-dlp's error output: the raw
/// diagnostics, which can hold local profile paths and request data, never
/// reach the message.
pub fn youtube_failure_message(technical: &str, strategy: &YoutubeAccessStrategy) -> (r: Option<String>)
    ensures
        r matches Some(m) ==> class_message(failure_class_of(technical@), browser_phrase(*strategy)) == Some(m@),
        r is None <==> class_message(failure_class_of(technical@), browser_phrase(*strategy)) is None,
{
    class_failure_message(classify_youtube_failure(technical), strategy)
}

} // verus!
