//! Brand constants shared across the workspace: the project's public URLs,
//! its application identifiers, and the `openlogi://` deep-link commands.

use vstd::prelude::*;

use crate::chars::{chars_eq_str, lemma_strip_prefix_concat, strip_prefix, strip_prefix_chars, sub_chars};
use crate::text::{chars_of, eq_ignore_ascii_case, lower_seq, push_str, string_from_chars};

verus! {

/// The OpenLogi GitHub repository.
pub const REPO_URL: &'static str = "https://github.com/AprilNEA/OpenLogi";
/// The README, used as the in-app "Help" link.
pub const HELP_URL: &'static str = "https://github.com/AprilNEA/OpenLogi#readme";
/// The "latest release" page.
pub const RELEASES_URL: &'static str = "https://github.com/AprilNEA/OpenLogi/releases/latest";
/// The application identifier the GUI advertises.
pub const APP_ID: &'static str = "org.openlogi.openlogi";
/// The always-on agent's bundle identifier.
pub const AGENT_ID: &'static str = "org.openlogi.agent";
/// The Actions Ring overlay's bundle identifier.
pub const OVERLAY_ID: &'static str = "org.openlogi.overlay";
/// The agent's launchd service label.
pub const AGENT_SERVICE_LABEL: &'static str = "org.openlogi.agent.service";
/// What a dev build appends to every identifier.
pub const DEV_SUFFIX: &'static str = "-dev";
/// The dev suffix before it was hyphenated: recognised, never produced.
pub const LEGACY_DEV_SUFFIX: &'static str = ".dev";

/// Whether `s` ends, past at least one other character, with `suffix` up to
/// ASCII case.
pub open spec fn ends_with_ci(s: Seq<char>, suffix: Seq<char>) -> bool {
    s.len() > suffix.len() && lower_seq(s.subrange(s.len() - suffix.len(), s.len() as int)) == lower_seq(suffix)
}

/// `id` without a recognised dev suffix, or `id` unchanged.
pub open spec fn spec_strip_dev_suffix(id: Seq<char>) -> Seq<char> {
    if ends_with_ci(id, DEV_SUFFIX@) {
        id.subrange(0, id.len() - DEV_SUFFIX@.len())
    } else if ends_with_ci(id, LEGACY_DEV_SUFFIX@) {
        id.subrange(0, id.len() - LEGACY_DEV_SUFFIX@.len())
    } else {
        id
    }
}

/// Whether `id` names a dev build.
pub open spec fn spec_is_dev_id(id: Seq<char>) -> bool {
    spec_strip_dev_suffix(id) != id
}

/// `id`'s dev-channel counterpart.
pub fn dev_id(id: &str) -> (s: String)
    ensures
        s@ == id@ + DEV_SUFFIX@,
{
    let mut s = String::new();
    push_str(&mut s, id);
    push_str(&mut s, DEV_SUFFIX);
    s
}

/// Whether `haystack` ends, past at least one other character, with
/// `suffix` up to ASCII case.
fn ends_with_ignore_ascii_case(haystack: &[char], suffix: &str) -> (b: bool)
    ensures
        b == ends_with_ci(haystack@, suffix@),
{
    let n = suffix.unicode_len();
    if haystack.len() <= n {
        return false;
    }
    let tail = string_from_chars(sub_chars(haystack, haystack.len() - n, haystack.len()).as_slice());
    eq_ignore_ascii_case(tail.as_str(), suffix)
}

/// `id` with a recognised dev suffix removed, or `id` unchanged.
fn strip_dev_suffix(id: &[char]) -> (r: Vec<char>)
    ensures
        r@ == spec_strip_dev_suffix(id@),
{
    if ends_with_ignore_ascii_case(id, DEV_SUFFIX) {
        sub_chars(id, 0, id.len() - DEV_SUFFIX.unicode_len())
    } else if ends_with_ignore_ascii_case(id, LEGACY_DEV_SUFFIX) {
        sub_chars(id, 0, id.len() - LEGACY_DEV_SUFFIX.unicode_len())
    } else {
        crate::chars::sub_chars(id, 0, id.len())
    }
}

/// Whether `id` names a dev build: it ends with `-dev` (or the legacy
/// `.dev`), in any ASCII case, after at least one other character.
pub fn is_dev_id(id: &str) -> (b: bool)
    ensures
        b == spec_is_dev_id(id@),
{
    let chars = chars_of(id);
    let stripped = strip_dev_suffix(chars.as_slice());
    if stripped.len() != chars.len() {
        return true;
    }
    proof {
        assert(chars@.subrange(0, chars@.len() as int) =~= chars@);
    }
    false
}

/// Whether `c` separates path components (`\` or `/`).
pub open spec fn is_path_separator(c: char) -> bool {
    c == '\\' || c == '/'
}

/// Whether `i` is the position of the last path separator in `s`.
pub open spec fn is_last_separator(s: Seq<char>, i: int) -> bool {
    0 <= i < s.len() && is_path_separator(s[i]) && forall|j: int| i < j < s.len() ==> !is_path_separator(s[j])
}

/// The last path component of `s`: what follows its last separator, or all
/// of `s`.
pub open spec fn last_component(s: Seq<char>) -> Seq<char> {
    if exists|i: int| is_last_separator(s, i) {
        let i = choose|i: int| is_last_separator(s, i);
        s.subrange(i + 1, s.len() as int)
    } else {
        s
    }
}

fn last_component_chars(s: &[char]) -> (r: Vec<char>)
    ensures
        r@ == last_component(s@),
{
    let n = s.len();
    let mut i: usize = n;
    while i > 0
        invariant
            n == s@.len(),
            i <= n,
            forall|j: int| i <= j < n ==> !is_path_separator(s@[j]),
        decreases i,
    {
        if s[i - 1] == '\\' || s[i - 1] == '/' {
            let ghost k = (i - 1) as int;
            assert(is_last_separator(s@, k));
            let ghost c = choose|c: int| is_last_separator(s@, c);
            assert(c == k) by {
                if c < k {
                    assert(!is_path_separator(s@[k]));
                } else if c > k {
                    assert(!is_path_separator(s@[c]));
                }
            }
            return sub_chars(s, i, n);
        }
        i = i - 1;
    }
    assert forall|k: int| !is_last_separator(s@, k) by {}
    sub_chars(s, 0, n)
}

/// The executable names OpenLogi installs or runs as.
pub open spec fn is_own_executable(file: Seq<char>) -> bool {
    ||| lower_seq(file) == lower_seq("openlogi.exe"@)
    ||| lower_seq(file) == lower_seq("openlogi-agent.exe"@)
    ||| lower_seq(file) == lower_seq("openlogi-overlay.exe"@)
    ||| lower_seq(file) == lower_seq("openlogi-desktop.exe"@)
}

/// Whether `id`, a foreground-application identifier, names one of
/// OpenLogi's own processes: one of its bundle identifiers (a dev build's
/// included), or a path whose file name is one of its executables, up to
/// ASCII case.
pub open spec fn spec_is_openlogi_foreground_id(id: Seq<char>) -> bool {
    let base = spec_strip_dev_suffix(id);
    ||| lower_seq(base) == lower_seq(APP_ID@)
    ||| lower_seq(base) == lower_seq(AGENT_ID@)
    ||| lower_seq(base) == lower_seq(OVERLAY_ID@)
    ||| is_own_executable(last_component(id))
}

/// Whether `id` names one of OpenLogi's own three processes, in either the
/// bundle-identifier shape or the Windows executable-path shape.
pub fn is_openlogi_foreground_id(id: &str) -> (b: bool)
    ensures
        b == spec_is_openlogi_foreground_id(id@),
{
    let chars = chars_of(id);
    let base = string_from_chars(strip_dev_suffix(chars.as_slice()).as_slice());
    let own = eq_ignore_ascii_case(base.as_str(), APP_ID)
        || eq_ignore_ascii_case(base.as_str(), AGENT_ID)
        || eq_ignore_ascii_case(base.as_str(), OVERLAY_ID);
    if own {
        return true;
    }
    let file = string_from_chars(last_component_chars(chars.as_slice()).as_slice());
    eq_ignore_ascii_case(file.as_str(), "openlogi.exe")
        || eq_ignore_ascii_case(file.as_str(), "openlogi-agent.exe")
        || eq_ignore_ascii_case(file.as_str(), "openlogi-overlay.exe")
        || eq_ignore_ascii_case(file.as_str(), "openlogi-desktop.exe")
}

/// The release page for a specific version tag.
pub fn release_tag_url(version: &str) -> (s: String)
    ensures
        s@ == REPO_URL@ + "/releases/tag/v"@ + version@,
{
    let mut s = String::new();
    push_str(&mut s, REPO_URL);
    push_str(&mut s, "/releases/tag/v");
    push_str(&mut s, version);
    s
}

/// A GUI action requested by opening an `openlogi://<name>` URL.
#[derive(Clone, Copy, Debug, Eq, PartialEq, Structural)]
pub enum DeeplinkCommand {
    /// Show / foreground the main window.
    Show,
    /// Open the Settings window.
    OpenSettings,
    /// Open Settings on the About page.
    OpenAbout,
    /// Run a manual update check and open Settings on the Updates page.
    CheckForUpdates,
    /// Quit the GUI.
    Quit,
}

/// The URL scheme OpenLogi registers.
pub const SCHEME: &'static str = "openlogi";

/// The wire name of a command: the host component of its URL.
pub open spec fn command_name(c: DeeplinkCommand) -> Seq<char> {
    match c {
        DeeplinkCommand::Show => "show"@,
        DeeplinkCommand::OpenSettings => "open-settings"@,
        DeeplinkCommand::OpenAbout => "open-about"@,
        DeeplinkCommand::CheckForUpdates => "check-for-updates"@,
        DeeplinkCommand::Quit => "quit"@,
    }
}

/// The command a wire name names.
pub open spec fn command_named(name: Seq<char>) -> Option<DeeplinkCommand> {
    if name == "show"@ {
        Some(DeeplinkCommand::Show)
    } else if name == "open-settings"@ {
        Some(DeeplinkCommand::OpenSettings)
    } else if name == "open-about"@ {
        Some(DeeplinkCommand::OpenAbout)
    } else if name == "check-for-updates"@ {
        Some(DeeplinkCommand::CheckForUpdates)
    } else if name == "quit"@ {
        Some(DeeplinkCommand::Quit)
    } else {
        None
    }
}

/// Whether `c` ends a URL's host component (`/` or `?`).
pub open spec fn ends_host(c: char) -> bool {
    c == '/' || c == '?'
}

/// Whether `i` is the first position in `s` that ends the host component.
pub open spec fn is_host_end(s: Seq<char>, i: int) -> bool {
    0 <= i < s.len() && ends_host(s[i]) && forall|j: int| 0 <= j < i ==> !ends_host(s[j])
}

/// The host component at the start of `s`: everything before the first `/`
/// or `?`.
pub open spec fn host_part(s: Seq<char>) -> Seq<char> {
    if exists|i: int| is_host_end(s, i) {
        let i = choose|i: int| is_host_end(s, i);
        s.subrange(0, i)
    } else {
        s
    }
}

/// The command an `openlogi://` URL requests: the scheme, then `://`, then
/// a command name, with any path or query after it ignored.
pub open spec fn spec_parse_url(url: Seq<char>) -> Option<DeeplinkCommand> {
    match strip_prefix(url, SCHEME@) {
        Some(rest) => match strip_prefix(rest, "://"@) {
            Some(host) => command_named(host_part(host)),
            None => None,
        },
        None => None,
    }
}

fn host_part_chars(s: &[char]) -> (r: Vec<char>)
    ensures
        r@ == host_part(s@),
{
    let n = s.len();
    let mut i: usize = 0;
    while i < n
        invariant
            n == s@.len(),
            i <= n,
            forall|j: int| 0 <= j < i ==> !ends_host(s@[j]),
        decreases n - i,
    {
        if s[i] == '/' || s[i] == '?' {
            let ghost k = i as int;
            assert(is_host_end(s@, k));
            let ghost c = choose|c: int| is_host_end(s@, c);
            assert(c == k) by {
                if c < k {
                    assert(!ends_host(s@[c]));
                } else if c > k {
                    assert(!ends_host(s@[k]));
                }
            }
            return sub_chars(s, 0, i);
        }
        i = i + 1;
    }
    assert forall|k: int| !is_host_end(s@, k) by {}
    sub_chars(s, 0, n)
}

impl DeeplinkCommand {
    /// The wire name for this command: the host component of its URL.
    pub fn as_name(self) -> (s: &'static str)
        ensures
            s@ == command_name(self),
    {
        match self {
            DeeplinkCommand::Show => "show",
            DeeplinkCommand::OpenSettings => "open-settings",
            DeeplinkCommand::OpenAbout => "open-about",
            DeeplinkCommand::CheckForUpdates => "check-for-updates",
            DeeplinkCommand::Quit => "quit",
        }
    }

    /// Build the `openlogi://<name>` URL for this command.
    pub fn to_url(self) -> (s: String)
        ensures
            s@ == SCHEME@ + "://"@ + command_name(self),
    {
        let mut s = String::new();
        push_str(&mut s, SCHEME);
        push_str(&mut s, "://");
        push_str(&mut s, self.as_name());
        s
    }

    /// Parse a command from its wire name.
    pub fn from_name(name: &str) -> (c: Option<Self>)
        ensures
            c == command_named(name@),
    {
        let chars = chars_of(name);
        Self::from_name_chars(chars.as_slice())
    }

    fn from_name_chars(name: &[char]) -> (c: Option<Self>)
        ensures
            c == command_named(name@),
    {

        if chars_eq_str(name, "show") {
            Some(DeeplinkCommand::Show)
        } else if chars_eq_str(name, "open-settings") {
            Some(DeeplinkCommand::OpenSettings)
        } else if chars_eq_str(name, "open-about") {
            Some(DeeplinkCommand::OpenAbout)
        } else if chars_eq_str(name, "check-for-updates") {
            Some(DeeplinkCommand::CheckForUpdates)
        } else if chars_eq_str(name, "quit") {
            Some(DeeplinkCommand::Quit)
        } else {
            None
        }
    }

    /// Parse a full `openlogi://…` URL; a trailing path or query is ignored,
    /// and a foreign scheme or unknown command gives `None`.
    pub fn parse_url(url: &str) -> (c: Option<Self>)
        ensures
            c == spec_parse_url(url@),
    {
        let chars = chars_of(url);
        let rest = match strip_prefix_chars(chars.as_slice(), SCHEME) {
            Some(rest) => rest,
            None => return None,
        };
        let host = match strip_prefix_chars(rest.as_slice(), "://") {
            Some(host) => host,
            None => return None,
        };
        let name = host_part_chars(host.as_slice());
        Self::from_name_chars(name.as_slice())
    }
}

/// A command's URL parses back to the command.
pub proof fn lemma_url_round_trip(c: DeeplinkCommand)
    ensures
        spec_parse_url(SCHEME@ + "://"@ + command_name(c)) == Some(c),
{
    reveal_strlit("show");
    reveal_strlit("open-settings");
    reveal_strlit("open-about");
    reveal_strlit("check-for-updates");
    reveal_strlit("quit");
    let name = command_name(c);
    assert(SCHEME@ + "://"@ + name =~= SCHEME@ + ("://"@ + name));
    lemma_strip_prefix_concat(SCHEME@, "://"@ + name);
    lemma_strip_prefix_concat("://"@, name);
    assert forall|i: int| 0 <= i < name.len() implies !ends_host(#[trigger] name[i]) by {}
    assert(!exists|i: int| is_host_end(name, i));
    assert("show"@[0] == 's' && "quit"@[0] == 'q');
    assert("open-settings"@[5] == 's' && "open-about"@[5] == 'a');
}

/// A command's URL followed by a path or query (anything starting with `/`
/// or `?`) still parses back to the command, and its name reads back as
/// the command.
pub proof fn lemma_url_with_tail_round_trip(c: DeeplinkCommand, tail: Seq<char>)
    requires
        tail.len() == 0 || ends_host(tail[0]),
    ensures
        spec_parse_url(SCHEME@ + "://"@ + command_name(c) + tail) == Some(c),
        command_named(command_name(c)) == Some(c),
{
    reveal_strlit("show");
    reveal_strlit("open-settings");
    reveal_strlit("open-about");
    reveal_strlit("check-for-updates");
    reveal_strlit("quit");
    let name = command_name(c);
    let host = name + tail;
    assert(SCHEME@ + "://"@ + name + tail =~= SCHEME@ + ("://"@ + host));
    lemma_strip_prefix_concat(SCHEME@, "://"@ + host);
    lemma_strip_prefix_concat("://"@, host);
    assert forall|i: int| 0 <= i < name.len() implies !ends_host(#[trigger] name[i]) by {}
    assert("show"@[0] == 's' && "quit"@[0] == 'q');
    assert("open-settings"@[5] == 's' && "open-about"@[5] == 'a');
    if tail.len() == 0 {
        assert(host =~= name);
        assert(!exists|i: int| is_host_end(host, i));
    } else {
        let k = name.len() as int;
        assert(host[k] == tail[0]);
        assert forall|j: int| 0 <= j < k implies !ends_host(#[trigger] host[j]) by {
            assert(host[j] == name[j]);
        }
        assert(is_host_end(host, k));
        let e = choose|i: int| is_host_end(host, i);
        if e < k {
            assert(host[e] == name[e]);
        } else if e > k {
            assert(!ends_host(host[k]));
        }
        assert(host.subrange(0, k) =~= name);
    }
}

/// A dev identifier reads as dev exactly when the production identifier it
/// was made from is not empty; a bare suffix is no dev identifier.
pub proof fn lemma_dev_id_is_dev(id: Seq<char>)
    ensures
        spec_is_dev_id(id + DEV_SUFFIX@) <==> id.len() > 0,
{
    reveal_strlit("-dev");
    reveal_strlit(".dev");
    let d = id + DEV_SUFFIX@;
    assert(d.subrange(d.len() - 4, d.len() as int) =~= DEV_SUFFIX@);
    if id.len() > 0 {
        assert(ends_with_ci(d, DEV_SUFFIX@));
        assert(spec_strip_dev_suffix(d) =~= id);
        assert(spec_strip_dev_suffix(d).len() != d.len());
    } else {
        assert(!ends_with_ci(d, DEV_SUFFIX@));
        assert(!ends_with_ci(d, LEGACY_DEV_SUFFIX@));
    }
}

} // verus!
