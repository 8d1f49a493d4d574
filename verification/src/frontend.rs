//! Decisions of the desktop front end that do not depend on the toolkit:
//! the command line, the notices about Wi-Fi Direct sessions, the choice of
//! a device to hand a pending Wi-Fi Direct transfer to, and window sizing.
use vstd::prelude::*;

use crate::endpoint::{DeviceType, EndpointInfo, EndpointTransport};
use crate::manager::{ChannelDirection, State, TransferType};
use crate::mdns::Visibility;
use crate::numbers::{decimal_text, u128_text};
use crate::text::{
    chars_of, equals_text, matches_at, opt_str_text, opt_text, push_all, slice, starts_with, string_of,
    string_texts, trim, trimmed,
};
use crate::wifi_direct::{SessionView, WifiDirectSessionInfo, WifiDirectStatus};

verus! {

/// A request of the front end to send files to a Wi-Fi Direct peer.
#[derive(Debug, Clone, PartialEq, Eq)]
pub struct WifiDirectSendRequest {
    pub peer_id: String,
    pub peer_name: String,
    pub peer_mac: String,
    pub files: Vec<String>,
}

/// A Wi-Fi Direct session that became ready for the peer `peer_id`.
#[derive(Debug, Clone, PartialEq, Eq)]
pub struct WifiDirectSessionReady {
    pub peer_id: String,
    pub peer_name: String,
    pub session: WifiDirectSessionInfo,
}

// ---------------------------------------------------------------------------
// The command line
// ---------------------------------------------------------------------------

/// What the first command-line argument asks for.
#[derive(Debug, Clone, Copy, PartialEq, Eq, Structural)]
pub enum CliRequest {
    /// Print the version and exit.
    Version,
    /// Print the usage and exit.
    Help,
    /// Start the application.
    Run,
}

/// What the arguments `args` (the program's name first) ask for:
/// `--version`, `-V` or `-v` ask for the version, `--help` or `-h` for the
/// usage, as the first argument after the program's name.
pub open spec fn cli_request_of(args: Seq<Seq<char>>) -> CliRequest {
    if args.len() < 2 {
        CliRequest::Run
    } else if args[1] == "--version"@ || args[1] == "-V"@ || args[1] == "-v"@ {
        CliRequest::Version
    } else if args[1] == "--help"@ || args[1] == "-h"@ {
        CliRequest::Help
    } else {
        CliRequest::Run
    }
}

/// The flags of the command line, as the usage lists them: `-h` and
/// `--help` print the usage, `-v`, `-V` and `--version` the version, each
/// as the first argument after the program's name; anything else, or no
/// argument, starts the application.
pub proof fn lemma_cli_flags(args: Seq<Seq<char>>)
    ensures
        args.len() >= 2 && (args[1] == "--help"@ || args[1] == "-h"@) ==> cli_request_of(args)
            == CliRequest::Help,
        args.len() >= 2 && (args[1] == "--version"@ || args[1] == "-V"@ || args[1] == "-v"@)
            ==> cli_request_of(args) == CliRequest::Version,
        args.len() < 2 ==> cli_request_of(args) == CliRequest::Run,
        args.len() >= 2 && !(args[1] == "--help"@ || args[1] == "-h"@ || args[1] == "--version"@
            || args[1] == "-V"@ || args[1] == "-v"@) ==> cli_request_of(args) == CliRequest::Run,
{
    reveal_strlit("--help");
    reveal_strlit("-h");
    reveal_strlit("--version");
    reveal_strlit("-V");
    reveal_strlit("-v");
    assert("--help"@.len() == 6 && "--version"@.len() == 9 && "-V"@.len() == 2 && "-v"@.len()
        == 2);
    assert("-h"@[1] == 'h' && "-V"@[1] == 'V' && "-v"@[1] == 'v');
}

/// What the command-line arguments `args` ask for.
pub fn cli_request(args: &Vec<String>) -> (r: CliRequest)
    ensures
        r == cli_request_of(string_texts(args@)),
{
    if args.len() < 2 {
        return CliRequest::Run;
    }
    let a = chars_of(args[1].as_str());
    assert(string_texts(args@)[1] == a@);
    if equals_text(&a, "--version") || equals_text(&a, "-V") || equals_text(&a, "-v") {
        CliRequest::Version
    } else if equals_text(&a, "--help") || equals_text(&a, "-h") {
        CliRequest::Help
    } else {
        CliRequest::Run
    }
}

/// The usage, for the program of version `version`.
pub open spec fn usage_text(version: Seq<char>) -> Seq<char> {
    "GnomeQS "@ + version
        + "\n\nUsage:\n  gnomeqs [OPTIONS]\n\nOptions:\n  -h, --help       Show this help message\n  -v, -V, --version    Show version information"@
}

/// What the program prints for the request `request`, being of version
/// `version`, before it exits; nothing for a request to run.
pub fn cli_output(request: CliRequest, version: &str) -> (r: Option<String>)
    ensures
        request == CliRequest::Version ==> (r matches Some(t) && t@ == "gnomeqs "@ + version@),
        request == CliRequest::Help ==> (r matches Some(t) && t@ == usage_text(version@)),
        request == CliRequest::Run ==> r is None,
{
    match request {
        CliRequest::Version => {
            let mut out = chars_of("gnomeqs ");
            push_all(&mut out, &chars_of(version));
            Some(string_of(&out))
        },
        CliRequest::Help => {
            let mut out = chars_of("GnomeQS ");
            push_all(&mut out, &chars_of(version));
            push_all(
                &mut out,
                &chars_of(
                    "\n\nUsage:\n  gnomeqs [OPTIONS]\n\nOptions:\n  -h, --help       Show this help message\n  -v, -V, --version    Show version information",
                ),
            );
            Some(string_of(&out))
        },
        CliRequest::Run => None,
    }
}

/// The page that the arguments from position `i` on ask for, given that
/// the earlier ones asked for `page`: `--page <name>` and `--page=<name>`
/// set it, a later one overriding an earlier one, and a `--page` without
/// a name after it clears it.
pub open spec fn page_scan(args: Seq<Seq<char>>, i: int, page: Option<Seq<char>>) -> Option<
    Seq<char>,
>
    decreases args.len() + 2 - i,
{
    if i < 0 || i >= args.len() {
        page
    } else if args[i] == "--page"@ {
        page_scan(
            args,
            i + 2,
            if i + 1 < args.len() {
                Some(args[i + 1])
            } else {
                None
            },
        )
    } else if starts_with(args[i], "--page="@) {
        page_scan(args, i + 1, Some(args[i].skip(7)))
    } else {
        page_scan(args, i + 1, page)
    }
}

/// The page that the command-line arguments `args` (the program's name
/// first) ask to show.
pub fn requested_page(args: &Vec<String>) -> (r: Option<String>)
    ensures
        opt_text(r) == page_scan(string_texts(args@), 1, None),
{
    let ghost av = string_texts(args@);
    let prefix = chars_of("--page=");
    proof {
        reveal_strlit("--page=");
        assert("--page="@.len() == 7);
    }
    let mut page: Option<String> = None;
    let mut i: usize = 1;
    while i < args.len()
        invariant
            av == string_texts(args@),
            prefix@ == "--page="@,
            prefix@.len() == 7,
            1 <= i,
            page_scan(av, 1, None) == page_scan(av, i as int, opt_text(page)),
        decreases args.len() + 2 - i,
    {
        let a = chars_of(args[i].as_str());
        assert(av[i as int] == a@);
        if equals_text(&a, "--page") {
            if i + 1 < args.len() {
                assert(av[i + 1] == args@[i + 1]@);
                let next = args[i + 1].clone();
                assert(next@ == av[i + 1]);
                page = Some(next);
                i = i + 2;
            } else {
                assert(page_scan(av, i + 2, None) == None::<Seq<char>>);
                assert(page_scan(av, i + 1, None) == None::<Seq<char>>);
                page = None;
                i = i + 1;
            }
        } else if matches_at(&a, &prefix, 0) {
            assert(a@.subrange(0, 7) =~= a@.take(7));
            let rest = slice(&a, 7, a.len());
            assert(rest@ =~= a@.skip(7));
            page = Some(string_of(&rest));
            i = i + 1;
        } else {
            assert(!starts_with(a@, "--page="@)) by {
                if a@.len() >= 7 {
                    assert(a@.subrange(0, 7) =~= a@.take(7));
                }
            }
            i = i + 1;
        }
    }
    page
}

/// `a` asks for a page: it is `--page` or begins with `--page=`.
pub open spec fn is_page_argument(a: Seq<char>) -> bool {
    a == "--page"@ || (a.len() >= 7 && a.take(7) == "--page="@)
}

proof fn lemma_page_scan_quiet(args: Seq<Seq<char>>, i: int, page: Option<Seq<char>>)
    requires
        i >= 0,
        forall|j: int| i <= j < args.len() ==> !is_page_argument(#[trigger] args[j]),
    ensures
        page_scan(args, i, page) == page,
    decreases args.len() + 2 - i,
{
    if i < args.len() {
        assert(!is_page_argument(args[i]));
        assert(!starts_with(args[i], "--page="@)) by {
            reveal_strlit("--page=");
        }
        lemma_page_scan_quiet(args, i + 1, page);
    }
}

/// The page asked for on the command line: none where no argument asks
/// for one; `<name>` where the first argument after the program's name is
/// `--page` followed by `<name>`, or is `--page=<name>`, and no argument
/// after it asks for a page; and none again where the last argument is a
/// bare `--page`.
pub proof fn lemma_page_arguments(args: Seq<Seq<char>>)
    ensures
        (forall|j: int| 1 <= j < args.len() ==> !is_page_argument(#[trigger] args[j]))
            ==> page_scan(args, 1, None) == None::<Seq<char>>,
        (args.len() >= 3 && args[1] == "--page"@ && forall|j: int|
            3 <= j < args.len() ==> !is_page_argument(#[trigger] args[j])) ==> page_scan(args, 1, None)
            == Some(args[2]),
        (args.len() >= 2 && args[1].len() >= 7 && args[1].take(7) == "--page="@ && forall|j: int|
            2 <= j < args.len() ==> !is_page_argument(#[trigger] args[j])) ==> page_scan(args, 1, None)
            == Some(args[1].skip(7)),
        (args.len() == 2 && args[1] == "--page"@) ==> page_scan(args, 1, None) == None::<Seq<char>>,
{
    reveal_strlit("--page=");
    reveal_strlit("--page");
    if forall|j: int| 1 <= j < args.len() ==> !is_page_argument(#[trigger] args[j]) {
        lemma_page_scan_quiet(args, 1, None);
    }
    if args.len() >= 3 && args[1] == "--page"@ && forall|j: int|
        3 <= j < args.len() ==> !is_page_argument(#[trigger] args[j]) {
        lemma_page_scan_quiet(args, 3, Some(args[2]));
    }
    if args.len() >= 2 && args[1].len() >= 7 && args[1].take(7) == "--page="@ && forall|j: int|
        2 <= j < args.len() ==> !is_page_argument(#[trigger] args[j]) {
        assert(args[1] != "--page"@) by {
            assert(args[1].take(7)[6] == args[1][6]);
            assert("--page="@[6] == '=');
            if args[1] == "--page"@ {
                assert(args[1].len() == 6);
            }
        }
        lemma_page_scan_quiet(args, 2, Some(args[1].skip(7)));
    }
    if args.len() == 2 && args[1] == "--page"@ {
        assert(page_scan(args, 3, None) == None::<Seq<char>>);
    }
}

/// What the front end shows for a requested page.
#[derive(Debug, Clone, PartialEq, Eq)]
pub enum PageRequest {
    /// The settings window.
    Settings,
    /// The page of that name in the main window.
    Page(String),
}

/// What the front end shows for the requested page `page`.
pub fn page_request(page: String) -> (r: PageRequest)
    ensures
        page@ == "settings"@ ==> r == PageRequest::Settings,
        page@ != "settings"@ ==> (r matches PageRequest::Page(p) && p@ == page@),
{
    if equals_text(&chars_of(page.as_str()), "settings") {
        PageRequest::Settings
    } else {
        PageRequest::Page(page)
    }
}

// ---------------------------------------------------------------------------
// Notices
// ---------------------------------------------------------------------------

/// What the front end tells about an attempt to start a Wi-Fi Direct
/// session.
#[derive(Debug, Clone, Copy, PartialEq, Eq, Structural)]
pub enum WifiDirectNotice {
    /// The session started, but the ordinary Wi-Fi connection changed.
    UplinkChanged,
    /// The session started and a direct link to the peer was seen.
    PeerLinkDetected,
    /// The session started with an address; the handoff is experimental.
    ExperimentalHandoff,
    /// The session started without a direct IP link yet.
    NoDirectLink,
    /// Wi-Fi Direct is not available on this device.
    NotAvailable,
    /// The session state could not be verified.
    Unverified,
}

/// The notice for a session that started: a changed uplink first, then a
/// detected peer link, then an address of its own, else no link.
pub open spec fn session_notice_of(s: SessionView) -> WifiDirectNotice {
    if !s.wifi_connected {
        WifiDirectNotice::UplinkChanged
    } else if s.peer_ipv4_candidates.len() > 0 {
        WifiDirectNotice::PeerLinkDetected
    } else if s.ipv4_addresses.len() > 0 {
        WifiDirectNotice::ExperimentalHandoff
    } else {
        WifiDirectNotice::NoDirectLink
    }
}

/// The notice for a session that started says first that the Wi-Fi
/// connection changed, whatever else holds; with Wi-Fi kept, a peer seen
/// on the direct link comes before an address of its own; a session with
/// neither has no direct link.
pub proof fn lemma_session_notice_priority(s: SessionView)
    ensures
        !s.wifi_connected ==> session_notice_of(s) == WifiDirectNotice::UplinkChanged,
        s.wifi_connected && s.peer_ipv4_candidates.len() > 0 ==> session_notice_of(s)
            == WifiDirectNotice::PeerLinkDetected,
        s.wifi_connected && s.peer_ipv4_candidates.len() == 0 && s.ipv4_addresses.len() > 0
            ==> session_notice_of(s) == WifiDirectNotice::ExperimentalHandoff,
        s.wifi_connected && s.peer_ipv4_candidates.len() == 0 && s.ipv4_addresses.len() == 0
            ==> session_notice_of(s) == WifiDirectNotice::NoDirectLink,
{
}

/// The notice for the session `session` that started.
pub fn session_ready_notice(session: &WifiDirectSessionInfo) -> (r: WifiDirectNotice)
    ensures
        r == session_notice_of(session@),
{
    if !session.wifi_connected {
        WifiDirectNotice::UplinkChanged
    } else if session.peer_ipv4_candidates.len() > 0 {
        WifiDirectNotice::PeerLinkDetected
    } else if session.ipv4_addresses.len() > 0 {
        WifiDirectNotice::ExperimentalHandoff
    } else {
        WifiDirectNotice::NoDirectLink
    }
}

/// The text of a notice, in English.
pub open spec fn notice_text(n: WifiDirectNotice) -> Seq<char> {
    match n {
        WifiDirectNotice::UplinkChanged => "Wi-Fi Direct started, but your current Wi-Fi connection changed."@,
        WifiDirectNotice::PeerLinkDetected => "Wi-Fi Direct session started and a direct peer link was detected."@,
        WifiDirectNotice::ExperimentalHandoff => "Wi-Fi Direct session started. The direct transport handoff is still experimental."@,
        WifiDirectNotice::NoDirectLink => "Wi-Fi Direct session started, but no direct IP link is available yet."@,
        WifiDirectNotice::NotAvailable => "Wi-Fi Direct is not available on this device right now."@,
        WifiDirectNotice::Unverified => "Wi-Fi Direct started, but the session state could not be verified."@,
    }
}

impl WifiDirectNotice {
    /// The text of this notice, in English.
    pub fn message(&self) -> (r: &'static str)
        ensures
            r@ == notice_text(*self),
    {
        match self {
            WifiDirectNotice::UplinkChanged => "Wi-Fi Direct started, but your current Wi-Fi connection changed.",
            WifiDirectNotice::PeerLinkDetected => "Wi-Fi Direct session started and a direct peer link was detected.",
            WifiDirectNotice::ExperimentalHandoff => "Wi-Fi Direct session started. The direct transport handoff is still experimental.",
            WifiDirectNotice::NoDirectLink => "Wi-Fi Direct session started, but no direct IP link is available yet.",
            WifiDirectNotice::NotAvailable => "Wi-Fi Direct is not available on this device right now.",
            WifiDirectNotice::Unverified => "Wi-Fi Direct started, but the session state could not be verified.",
        }
    }
}

/// The message for the user after trying to start a Wi-Fi Direct session
/// with `peer_name`: that it could not be started where the peer could not
/// be asked to connect (`activated` false), else the notice for how the
/// wait for the session ended (`waited`: none where the wait failed, then
/// none where Wi-Fi Direct is not available, else the session).
pub fn session_start_message(
    peer_name: &str,
    activated: bool,
    waited: Option<Option<&WifiDirectSessionInfo>>,
) -> (r: String)
    ensures
        !activated ==> r@ == fill_braces("Could not start a Wi-Fi Direct session for {}."@, peer_name@),
        activated ==> r@ == match waited {
            None => notice_text(WifiDirectNotice::Unverified),
            Some(None) => notice_text(WifiDirectNotice::NotAvailable),
            Some(Some(session)) => notice_text(session_notice_of(session@)),
        },
{
    if !activated {
        return fill_placeholder("Could not start a Wi-Fi Direct session for {}.", peer_name);
    }
    let notice = match waited {
        None => WifiDirectNotice::Unverified,
        Some(None) => WifiDirectNotice::NotAvailable,
        Some(Some(session)) => session_ready_notice(session),
    };
    notice.message().to_owned()
}

/// The text shown in the settings for the Wi-Fi Direct status, in
/// English.
pub open spec fn status_text(status: WifiDirectStatus) -> Seq<char> {
    match status {
        WifiDirectStatus::BackendMissing => "Your device is not compatible with Wi-Fi Direct via NetworkManager."@,
        WifiDirectStatus::BackendNotRunning => "Your device is not compatible with Wi-Fi Direct right now because NetworkManager is not running."@,
        WifiDirectStatus::BackendQueryFailed => "Your device compatibility with Wi-Fi Direct could not be verified right now."@,
        WifiDirectStatus::NoWifiInterface => "Your device is not compatible with Wi-Fi Direct because no Wi-Fi interface was detected."@,
        WifiDirectStatus::WifiInterfaceUnavailable => "Your device is not compatible with Wi-Fi Direct right now because the Wi-Fi interface is unavailable."@,
        WifiDirectStatus::NoP2pInterface => "Your device is not compatible with Wi-Fi Direct because no P2P interface was detected."@,
        WifiDirectStatus::P2pInterfaceUnavailable => "Your device is compatible with Wi-Fi Direct through NetworkManager."@,
        WifiDirectStatus::P2pInterfaceAvailable => "Your device is compatible with Wi-Fi Direct through NetworkManager."@,
    }
}

/// The text shown in the settings for the Wi-Fi Direct status `status`.
pub fn wifi_direct_status_message(status: &WifiDirectStatus) -> (r: &'static str)
    ensures
        r@ == status_text(*status),
{
    match status {
        WifiDirectStatus::BackendMissing => "Your device is not compatible with Wi-Fi Direct via NetworkManager.",
        WifiDirectStatus::BackendNotRunning => "Your device is not compatible with Wi-Fi Direct right now because NetworkManager is not running.",
        WifiDirectStatus::BackendQueryFailed => "Your device compatibility with Wi-Fi Direct could not be verified right now.",
        WifiDirectStatus::NoWifiInterface => "Your device is not compatible with Wi-Fi Direct because no Wi-Fi interface was detected.",
        WifiDirectStatus::WifiInterfaceUnavailable => "Your device is not compatible with Wi-Fi Direct right now because the Wi-Fi interface is unavailable.",
        WifiDirectStatus::NoP2pInterface => "Your device is not compatible with Wi-Fi Direct because no P2P interface was detected.",
        WifiDirectStatus::P2pInterfaceUnavailable => "Your device is compatible with Wi-Fi Direct through NetworkManager.",
        WifiDirectStatus::P2pInterfaceAvailable => "Your device is compatible with Wi-Fi Direct through NetworkManager.",
    }
}

/// `template` with every `{}` replaced by `value`, left to right
/// (`str::replace("{}", value)`).
pub open spec fn fill_braces(template: Seq<char>, value: Seq<char>) -> Seq<char>
    decreases template.len(),
{
    if template.len() < 2 {
        template
    } else if template[0] == '{' && template[1] == '}' {
        value + fill_braces(template.skip(2), value)
    } else {
        seq![template[0]] + fill_braces(template.drop_first(), value)
    }
}

/// `template` with every `{}` replaced by `value`.
pub fn fill_placeholder(template: &str, value: &str) -> (r: String)
    ensures
        r@ == fill_braces(template@, value@),
{
    let t = chars_of(template);
    let v = chars_of(value);
    let mut out: Vec<char> = Vec::new();
    let mut i: usize = 0;
    assert(t@.skip(0) =~= t@);
    while i < t.len()
        invariant
            i <= t.len(),
            fill_braces(t@, v@) == out@ + fill_braces(t@.skip(i as int), v@),
        decreases t.len() - i,
    {
        let ghost rest = t@.skip(i as int);
        if i + 1 < t.len() && t[i] == '{' && t[i + 1] == '}' {
            let ghost before = out@;
            let mut k: usize = 0;
            while k < v.len()
                invariant
                    k <= v.len(),
                    out@ == before + v@.take(k as int),
                decreases v.len() - k,
            {
                out.push(v[k]);
                assert(v@.take(k + 1) =~= v@.take(k as int).push(v@[k as int]));
                k = k + 1;
            }
            assert(v@.take(v.len() as int) =~= v@);
            assert(rest.skip(2) =~= t@.skip(i + 2));
            assert(before + (v@ + fill_braces(rest.skip(2), v@)) =~= out@ + fill_braces(
                t@.skip(i + 2),
                v@,
            ));
            i = i + 2;
        } else {
            let ghost before = out@;
            out.push(t[i]);
            assert(rest.drop_first() =~= t@.skip(i + 1));
            proof {
                if rest.len() >= 2 {
                    assert(fill_braces(rest, v@) == seq![rest[0]] + fill_braces(
                        rest.drop_first(),
                        v@,
                    ));
                } else {
                    assert(rest.len() == 1);
                    assert(rest.drop_first().len() == 0);
                    assert(fill_braces(rest, v@) =~= seq![rest[0]] + fill_braces(
                        rest.drop_first(),
                        v@,
                    ));
                }
            }
            assert(before + (seq![t@[i as int]] + fill_braces(t@.skip(i + 1), v@)) =~= out@
                + fill_braces(t@.skip(i + 1), v@));
            i = i + 1;
        }
    }
    assert(out@ + fill_braces(t@.skip(i as int), v@) =~= out@);
    string_of(&out)
}

/// The notice of how long the history is kept: `days` days.
pub fn history_retention_notice(days: u32) -> (r: String)
    ensures
        r@ == fill_braces(
            "Transfer history is stored locally for up to {} days by default, unless changed in Settings."@,
            decimal_text(days as nat),
        ),
{
    let n = string_of(&u128_text(days as u128));
    fill_placeholder(
        "Transfer history is stored locally for up to {} days by default, unless changed in Settings.",
        n.as_str(),
    )
}

/// The locale settings that select an interface language.
#[derive(Debug, Clone, Copy, PartialEq, Eq)]
pub struct LanguageEnvironment {
    /// The value of `LANGUAGE`.
    pub language: &'static str,
    /// The value of `LANG`.
    pub lang: &'static str,
}

/// The locale settings for the interface language asked for: Brazilian
/// Portuguese or English; none for any other choice, which leaves the
/// environment as it is.
pub fn language_environment(language: Option<&str>) -> (r: Option<LanguageEnvironment>)
    ensures
        language matches Some(l) && l@ == "pt_BR"@ ==> (r matches Some(e) && e.language@ == "pt_BR"@
            && e.lang@ == "pt_BR.UTF-8"@),
        language matches Some(l) && l@ == "en"@ ==> (r matches Some(e) && e.language@ == "en"@
            && e.lang@ == "en_US.UTF-8"@),
        !(language matches Some(l) && (l@ == "pt_BR"@ || l@ == "en"@)) ==> r is None,
{
    proof {
        reveal_strlit("pt_BR");
        reveal_strlit("en");
        assert("pt_BR"@.len() != "en"@.len());
    }
    match language {
        Some(l) => {
            let c = chars_of(l);
            if equals_text(&c, "pt_BR") {
                Some(LanguageEnvironment { language: "pt_BR", lang: "pt_BR.UTF-8" })
            } else if equals_text(&c, "en") {
                Some(LanguageEnvironment { language: "en", lang: "en_US.UTF-8" })
            } else {
                None
            }
        },
        None => None,
    }
}

/// Whether to offer becoming visible when a nearby device asks: only while
/// hidden, and at most once every two minutes.
pub fn should_offer_visibility(visibility: Visibility, secs_since_last_offer: u64) -> (r: bool)
    ensures
        r == (visibility == Visibility::Invisible && secs_since_last_offer >= 120),
{
    match visibility {
        Visibility::Invisible => secs_since_last_offer >= 120,
        _ => false,
    }
}

/// How the visibility setting is shown in the receive view.
#[derive(Debug, Clone, Copy, PartialEq, Eq)]
pub struct VisibilityLook {
    pub subtitle: &'static str,
    pub icon: &'static str,
    /// The style of the icon.
    pub class: &'static str,
}

/// How the visibility `visibility` is shown: an open eye while the device
/// can be seen, for good or for a while, and a closed one while hidden.
pub fn visibility_look(visibility: Visibility) -> (r: VisibilityLook)
    ensures
        visibility == Visibility::Visible ==> r.subtitle@ == "Always visible"@ && r.icon@
            == "eye-open-negative-filled-symbolic"@ && r.class@ == "visibility-visible"@,
        visibility == Visibility::Invisible ==> r.subtitle@ == "Hidden from everyone"@ && r.icon@
            == "eye-not-looking-symbolic"@ && r.class@ == "visibility-hidden"@,
        visibility == Visibility::Temporarily ==> r.subtitle@ == "Temporarily visible"@ && r.icon@
            == "eye-open-negative-filled-symbolic"@ && r.class@ == "visibility-temporary"@,
{
    match visibility {
        Visibility::Visible => VisibilityLook {
            subtitle: "Always visible",
            icon: "eye-open-negative-filled-symbolic",
            class: "visibility-visible",
        },
        Visibility::Invisible => VisibilityLook {
            subtitle: "Hidden from everyone",
            icon: "eye-not-looking-symbolic",
            class: "visibility-hidden",
        },
        Visibility::Temporarily => VisibilityLook {
            subtitle: "Temporarily visible",
            icon: "eye-open-negative-filled-symbolic",
            class: "visibility-temporary",
        },
    }
}

// ---------------------------------------------------------------------------
// Devices in the send view
// ---------------------------------------------------------------------------

/// What `str::to_lowercase` gives for the text `s`: its lower case by
/// Unicode's case mapping.
pub uninterp spec fn lowercase_text(s: Seq<char>) -> Seq<char>;

/// `str::to_lowercase`: the lower case of `s`, by Unicode's case mapping.
/// Stated only as a name for its result.
#[verifier::external_body]
fn to_lowercase(s: &str) -> (r: String)
    ensures
        r@ == lowercase_text(s@),
{
    s.to_lowercase()
}

/// `name` without surrounding white space, in lower case.
pub fn normalize_device_name(name: &str) -> (r: String)
    ensures
        r@ == lowercase_text(trim(name@)),
{
    let t = string_of(&trimmed(&chars_of(name)));
    to_lowercase(t.as_str())
}

/// An endpoint update that adds a device to the send view: a Wi-Fi Direct
/// peer, or a device whose address and port are known.
pub fn endpoint_is_reachable(info: &EndpointInfo) -> (r: bool)
    ensures
        r == (info.transport == Some(EndpointTransport::WifiDirectPeer) || (info.ip is Some
            && info.port is Some)),
{
    match info.transport {
        Some(EndpointTransport::WifiDirectPeer) => true,
        _ => info.ip.is_some() && info.port.is_some(),
    }
}

/// The address `ip:port` to send to, with nothing for an unknown address
/// and `0` for an unknown port.
pub open spec fn endpoint_addr_of(ip: Option<Seq<char>>, port: Option<Seq<char>>) -> Seq<char> {
    let i = match ip {
        Some(v) => v,
        None => Seq::<char>::empty(),
    };
    let p = match port {
        Some(v) => v,
        None => "0"@,
    };
    i + ":"@ + p
}

/// The address to send to the device `info`.
pub fn endpoint_addr(info: &EndpointInfo) -> (r: String)
    ensures
        r@ == endpoint_addr_of(info@.ip, info@.port),
{
    let mut out: Vec<char> = match &info.ip {
        Some(ip) => chars_of(ip.as_str()),
        None => Vec::new(),
    };
    push_all(&mut out, &chars_of(":"));
    let port = match &info.port {
        Some(p) => chars_of(p.as_str()),
        None => chars_of("0"),
    };
    push_all(&mut out, &port);
    string_of(&out)
}

/// A device announced over mDNS, remembered so that a Wi-Fi Direct peer of
/// the same name can later be reached on its port.
#[derive(Debug, Clone, PartialEq, Eq)]
pub struct KnownMdnsEndpoint {
    pub name: String,
    pub port: String,
    pub device_type: DeviceType,
}

/// The key under which a device announced over mDNS is remembered, and
/// what is remembered: only for an mDNS device with a name and a port.
pub fn known_mdns_endpoint(info: &EndpointInfo) -> (r: Option<(String, KnownMdnsEndpoint)>)
    ensures
        r is Some <==> (info.transport == Some(EndpointTransport::MdnsTcp) && info.name is Some
            && info.port is Some),
        r matches Some((key, known)) ==> {
            &&& key@ == lowercase_text(trim(info.name->0@))
            &&& known.name@ == info.name->0@
            &&& known.port@ == info.port->0@
            &&& known.device_type == match info.rtype {
                Some(t) => t,
                None => DeviceType::Unknown,
            }
        },
{
    match info.transport {
        Some(EndpointTransport::MdnsTcp) => {},
        _ => return None,
    }
    match (&info.name, &info.port) {
        (Some(name), Some(port)) => {
            let device_type = match &info.rtype {
                Some(DeviceType::Phone) => DeviceType::Phone,
                Some(DeviceType::Tablet) => DeviceType::Tablet,
                Some(DeviceType::Laptop) => DeviceType::Laptop,
                _ => DeviceType::Unknown,
            };
            Some(
                (
                    normalize_device_name(name.as_str()),
                    KnownMdnsEndpoint { name: name.clone(), port: port.clone(), device_type },
                ),
            )
        },
        _ => None,
    }
}

/// Whether a ready Wi-Fi Direct session is the one a pending transfer
/// waits for: the same peer id, or the same device name.
pub fn session_matches_pending(
    pending_peer_id: &str,
    pending_peer_name: &str,
    ready_peer_id: &str,
    ready_peer_name: &str,
) -> (r: bool)
    ensures
        r == (pending_peer_id@ == ready_peer_id@ || lowercase_text(trim(pending_peer_name@))
            == lowercase_text(trim(ready_peer_name@))),
{
    if equals_text(&chars_of(pending_peer_id), ready_peer_id) {
        return true;
    }
    let a = normalize_device_name(pending_peer_name);
    let b = normalize_device_name(ready_peer_name);
    a == b
}

/// The address of the peer on the Wi-Fi Direct link: its first candidate
/// address with the port `port`, where there is a candidate.
pub fn handoff_addr(candidates: &Vec<String>, port: &str) -> (r: Option<String>)
    ensures
        candidates.len() == 0 ==> r is None,
        candidates.len() > 0 ==> (r matches Some(a) && a@ == candidates@[0]@ + ":"@ + port@),
{
    if candidates.len() == 0 {
        return None;
    }
    let mut out = chars_of(candidates[0].as_str());
    push_all(&mut out, &chars_of(":"));
    push_all(&mut out, &chars_of(port));
    Some(string_of(&out))
}

/// The port, in decimal, on which a peer without a remembered mDNS port
/// is reached.
pub fn port_text(port: u16) -> (r: String)
    ensures
        r@ == decimal_text(port as nat),
{
    string_of(&u128_text(port as u128))
}

/// A transfer id made unique by a time stamp: `stem-micros`.
pub fn timestamped_id(stem: &str, micros: u128) -> (r: String)
    ensures
        r@ == stem@ + "-"@ + decimal_text(micros as nat),
{
    let mut out = chars_of(stem);
    push_all(&mut out, &chars_of("-"));
    push_all(&mut out, &u128_text(micros));
    string_of(&out)
}

// ---------------------------------------------------------------------------
// Pages and messages of the window
// ---------------------------------------------------------------------------

/// How the window looks on a page.
#[derive(Debug, Clone, Copy, PartialEq, Eq)]
pub struct PageLook {
    /// The send page is shown.
    pub on_send_page: bool,
    pub title: &'static str,
    pub nav_bar_visible: bool,
    pub back_visible: bool,
    pub settings_visible: bool,
    /// Discovery runs (or else it stops).
    pub discovery_running: bool,
}

/// The look of the window on the send page (`send`) or another page.
pub open spec fn page_look_of(look: PageLook, send: bool) -> bool {
    &&& look.on_send_page == send
    &&& look.title@ == if send {
        "Send Files"@
    } else {
        "GnomeQS"@
    }
    &&& look.nav_bar_visible == !send
    &&& look.back_visible == send
    &&& look.settings_visible == !send
    &&& look.discovery_running == send
}

/// The page last shown, so that showing it again changes nothing.
pub struct PageTracker {
    last: Option<String>,
}

impl View for PageTracker {
    type V = Option<Seq<char>>;

    closed spec fn view(&self) -> Option<Seq<char>> {
        opt_text(self.last)
    }
}

impl PageTracker {
    /// No page shown yet.
    pub fn new() -> (r: Self)
        ensures
            r@ is None,
    {
        PageTracker { last: None }
    }

    /// The window now shows `page` (by name): how it is to look, or
    /// nothing where that page was shown already.
    pub fn visit(&mut self, page: Option<&str>) -> (r: Option<PageLook>)
        ensures
            opt_str_text(page) == old(self)@ ==> r is None && final(self)@ == old(self)@,
            opt_str_text(page) != old(self)@ ==> final(self)@ == opt_str_text(page) && (r matches Some(
                look,
            ) && page_look_of(look, opt_str_text(page) == Some("send"@))),
    {
        let same = match (&self.last, page) {
            (Some(a), Some(b)) => equals_text(&chars_of(a.as_str()), b),
            (None, None) => true,
            _ => false,
        };
        if same {
            return None;
        }
        self.last = match page {
            Some(p) => Some(p.to_owned()),
            None => None,
        };
        let send = match page {
            Some(p) => equals_text(&chars_of(p), "send"),
            None => false,
        };
        Some(
            PageLook {
                on_send_page: send,
                title: if send {
                    "Send Files"
                } else {
                    "GnomeQS"
                },
                nav_bar_visible: !send,
                back_visible: send,
                settings_visible: !send,
                discovery_running: send,
            },
        )
    }
}

/// Where a transfer message goes in the window.
#[derive(Debug, Clone, Copy, PartialEq, Eq, Structural)]
pub enum TransferRoute {
    /// A message the window does not show.
    Ignore,
    /// To the receive view, with a desktop notification when `notify`.
    Receive { notify: bool },
    /// To the send view.
    Send,
}

/// Where a message from the library about a transfer goes: messages of
/// outgoing transfers to the send view, the others to the receive view; an
/// incoming transfer that waits for consent, with its details, is also
/// notified.
pub fn route_transfer_update(
    direction: ChannelDirection,
    rtype: Option<TransferType>,
    state: Option<State>,
    has_meta: bool,
) -> (r: TransferRoute)
    ensures
        direction == ChannelDirection::FrontToLib ==> r == TransferRoute::Ignore,
        direction == ChannelDirection::LibToFront ==> r == match rtype {
            Some(TransferType::Outbound) => TransferRoute::Send,
            Some(TransferType::Inbound) => TransferRoute::Receive {
                notify: state == Some(State::WaitingForUserConsent) && has_meta,
            },
            None => TransferRoute::Receive { notify: false },
        },
{
    match direction {
        ChannelDirection::FrontToLib => TransferRoute::Ignore,
        ChannelDirection::LibToFront => match rtype {
            Some(TransferType::Outbound) => TransferRoute::Send,
            Some(TransferType::Inbound) => TransferRoute::Receive {
                notify: has_meta && matches!(state, Some(State::WaitingForUserConsent)),
            },
            None => TransferRoute::Receive { notify: false },
        },
    }
}

/// A message from the library to the window, by kind.
#[derive(Debug, Clone, Copy, PartialEq, Eq, Structural)]
pub enum UiMessage {
    /// News of a transfer.
    TransferUpdate {
        direction: ChannelDirection,
        rtype: Option<TransferType>,
        state: Option<State>,
        has_meta: bool,
    },
    /// A device found or gone.
    EndpointUpdate,
    /// The visibility setting changed.
    VisibilityChanged,
    /// A nearby device wants to share while this one is hidden.
    BleNearby,
    /// A message for the user.
    Toast,
    /// A Wi-Fi Direct session became ready.
    WifiDirectSessionReady,
    ShowWindow,
    ShowWindowOnPage,
    ShowSettings,
    Quit,
}

/// What the window does with a message.
#[derive(Debug, Clone, Copy, PartialEq, Eq, Structural)]
pub enum WindowAction {
    /// Hand a transfer's news on as `route` says.
    Transfer(TransferRoute),
    /// Hand the device update to the send view.
    SendViewEndpoint,
    /// Show the new visibility in the receive view.
    ReceiveViewVisibility,
    /// Show the offer to become visible.
    OfferVisibility,
    /// Show the message as a toast.
    ShowToast,
    /// Hand the session to the send view.
    SendViewSession,
    /// Show the window.
    Present,
    /// Show the window on the page named in the message.
    PresentOnPage,
    /// Show the window and its settings.
    PresentSettings,
    /// Save the window's state, quit, and read no further message.
    SaveAndQuit,
}

/// What the window does with the message `m`.
pub fn window_action(m: UiMessage) -> (r: WindowAction)
    ensures
        r == match m {
            UiMessage::TransferUpdate { direction, rtype, state, has_meta } => WindowAction::Transfer(
                if direction == ChannelDirection::FrontToLib {
                    TransferRoute::Ignore
                } else {
                    match rtype {
                        Some(TransferType::Outbound) => TransferRoute::Send,
                        Some(TransferType::Inbound) => TransferRoute::Receive {
                            notify: state == Some(State::WaitingForUserConsent) && has_meta,
                        },
                        None => TransferRoute::Receive { notify: false },
                    }
                },
            ),
            UiMessage::EndpointUpdate => WindowAction::SendViewEndpoint,
            UiMessage::VisibilityChanged => WindowAction::ReceiveViewVisibility,
            UiMessage::BleNearby => WindowAction::OfferVisibility,
            UiMessage::Toast => WindowAction::ShowToast,
            UiMessage::WifiDirectSessionReady => WindowAction::SendViewSession,
            UiMessage::ShowWindow => WindowAction::Present,
            UiMessage::ShowWindowOnPage => WindowAction::PresentOnPage,
            UiMessage::ShowSettings => WindowAction::PresentSettings,
            UiMessage::Quit => WindowAction::SaveAndQuit,
        },
{
    match m {
        UiMessage::TransferUpdate { direction, rtype, state, has_meta } => WindowAction::Transfer(
            route_transfer_update(direction, rtype, state, has_meta),
        ),
        UiMessage::EndpointUpdate => WindowAction::SendViewEndpoint,
        UiMessage::VisibilityChanged => WindowAction::ReceiveViewVisibility,
        UiMessage::BleNearby => WindowAction::OfferVisibility,
        UiMessage::Toast => WindowAction::ShowToast,
        UiMessage::WifiDirectSessionReady => WindowAction::SendViewSession,
        UiMessage::ShowWindow => WindowAction::Present,
        UiMessage::ShowWindowOnPage => WindowAction::PresentOnPage,
        UiMessage::ShowSettings => WindowAction::PresentSettings,
        UiMessage::Quit => WindowAction::SaveAndQuit,
    }
}

/// The offer shown when a nearby device wants to share while this one is
/// hidden.
pub fn visibility_offer_text() -> (r: &'static str)
    ensures
        r@ == "A nearby device wants to share. Tap to become visible."@,
{
    "A nearby device wants to share. Tap to become visible."
}

/// The text of the notification that `sender_name` (or an unknown device)
/// wants to share.
pub fn notification_body(sender_name: Option<&str>) -> (r: String)
    ensures
        r@ == match sender_name {
            Some(n) => n@,
            None => "Unknown"@,
        } + " wants to share"@,
{
    let mut out = match sender_name {
        Some(n) => chars_of(n),
        None => chars_of("Unknown"),
    };
    push_all(&mut out, &chars_of(" wants to share"));
    string_of(&out)
}

// ---------------------------------------------------------------------------
// The window
// ---------------------------------------------------------------------------

/// The size class of the window for its width: compact below 430 pixels,
/// tablet below 760, wide from there; none while the width is unknown.
pub fn size_class_for_width(width: i32) -> (r: Option<&'static str>)
    ensures
        width <= 0 ==> r is None,
        0 < width < 430 ==> (r matches Some(c) && c@ == "size-compact"@),
        430 <= width < 760 ==> (r matches Some(c) && c@ == "size-tablet"@),
        760 <= width ==> (r matches Some(c) && c@ == "size-wide"@),
{
    if width <= 0 {
        None
    } else if width < 430 {
        Some("size-compact")
    } else if width < 760 {
        Some("size-tablet")
    } else {
        Some("size-wide")
    }
}

/// A window dimension that can be kept: a positive one.
pub fn valid_window_size(value: i32) -> (r: Option<i32>)
    ensures
        r == (if value > 0 {
            Some(value)
        } else {
            None
        }),
{
    if value > 0 {
        Some(value)
    } else {
        None
    }
}

/// The window dimension to remember: the default size where it is set,
/// else the current size, else the one remembered before.
pub fn windowed_dimension(default_size: i32, current_size: i32, fallback: i32) -> (r: i32)
    ensures
        r == (if default_size > 0 {
            default_size
        } else if current_size > 0 {
            current_size
        } else {
            fallback
        }),
{
    match valid_window_size(default_size) {
        Some(v) => v,
        None => match valid_window_size(current_size) {
            Some(v) => v,
            None => fallback,
        },
    }
}

} // verus!
