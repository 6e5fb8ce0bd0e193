//! The setup guide's steps and Chrome installation detection.
use crate::config::Config;
use crate::text::{chars_of, has_prefix, has_suffix, same_text, spec_has_prefix, spec_has_suffix};
use vstd::prelude::*;
use vstd::string::*;

verus! {

/// A step of the setup guide.
#[derive(Clone, Copy, Debug, PartialEq, Eq, Structural)]
pub enum Step {
    Install,
    Pair,
    Connect,
    Ready,
}

/// What Chrome's profile files suggest about the extension. This is a hint
/// only; a live connection is the proof.
#[derive(Debug, PartialEq, Eq)]
pub enum Installation {
    NotFound,
    Found(String),
    LegacyOnly,
    Unknown,
}

impl Clone for Installation {
    fn clone(&self) -> (r: Self)
        ensures
            r == *self,
    {
        match self {
            Installation::NotFound => Installation::NotFound,
            Installation::Found(profile) => Installation::Found(profile.clone()),
            Installation::LegacyOnly => Installation::LegacyOnly,
            Installation::Unknown => Installation::Unknown,
        }
    }
}

/// The setup guide's state.
pub struct Setup {
    pub step: Step,
    pub installation: Installation,
    pub port: u16,
    pub token: String,
    pub extension_dir: String,
    pub revealed: bool,
    pub manual: bool,
    pub scroll: u16,
    pub recheck_requested: bool,
    pub account_error: Option<String>,
    pub retry_at_ms: Option<i64>,
}

/// The step that matches the live connection: pairing until Chrome is
/// connected, then the account check until the X account is identified.
pub open spec fn spec_step_for(connected: bool, identified: bool) -> Step {
    if !connected {
        Step::Pair
    } else if !identified {
        Step::Connect
    } else {
        Step::Ready
    }
}

/// The step that matches the live connection.
pub fn step_for(connected: bool, identified: bool) -> (r: Step)
    ensures
        r == spec_step_for(connected, identified),
{
    if !connected {
        Step::Pair
    } else if !identified {
        Step::Connect
    } else {
        Step::Ready
    }
}

/// The guide after moving to `step`: the secret hidden, manual mode and
/// scrolling reset, a queued recheck dropped, and at `Ready` the account
/// error cleared; everything else kept.
pub open spec fn spec_go(s: Setup, step: Step) -> Setup {
    Setup {
        step: step,
        revealed: false,
        manual: false,
        scroll: 0,
        recheck_requested: false,
        account_error: if step == Step::Ready {
            None
        } else {
            s.account_error
        },
        ..s
    }
}

impl Setup {
    /// The guide as it opens: at the install step, installation unknown,
    /// secret hidden, with the saved port and secret.
    pub fn new(config: &Config, extension_dir: String) -> (r: Self)
        ensures
            r.step == Step::Install,
            r.installation == Installation::Unknown,
            r.port == config.port,
            r.token == config.token,
            r.extension_dir == extension_dir,
            !r.revealed && !r.manual && r.scroll == 0 && !r.recheck_requested,
            r.account_error is None,
            r.retry_at_ms is None,
    {
        Setup {
            installation: Installation::Unknown,
            step: Step::Install,
            port: config.port,
            token: config.token.clone(),
            extension_dir,
            revealed: false,
            manual: false,
            scroll: 0,
            recheck_requested: false,
            account_error: None,
            retry_at_ms: None,
        }
    }

    /// Moves to `step` and resets what belongs to the old screen: the secret
    /// is hidden, manual mode and scrolling reset, and a queued recheck
    /// dropped. Reaching `Ready` clears the account error.
    pub fn go(&mut self, step: Step)
        ensures
            *final(self) == spec_go(*old(self), step),
    {
        self.step = step;
        self.revealed = false;
        self.manual = false;
        self.scroll = 0;
        self.recheck_requested = false;
        if step == Step::Ready {
            self.account_error = None;
        }
    }

    /// Records a fresh installation hint. A missing or only-legacy
    /// extension sends the guide to the install step, a found one to the
    /// pairing step, each as `go` does; an unknown result changes nothing
    /// else.
    pub fn refresh_installation(&mut self, installation: Installation)
        ensures
            *final(self) == (match installation {
                Installation::NotFound | Installation::LegacyOnly => Setup {
                    installation: installation,
                    ..spec_go(*old(self), Step::Install)
                },
                Installation::Found(_) => Setup {
                    installation: installation,
                    ..spec_go(*old(self), Step::Pair)
                },
                Installation::Unknown => Setup { installation: installation, ..*old(self) },
            }),
    {
        let found = match &installation {
            Installation::Found(_) => 1u8,
            Installation::NotFound | Installation::LegacyOnly => 2u8,
            Installation::Unknown => 0u8,
        };
        self.installation = installation;
        if found == 2 {
            self.go(Step::Install);
        } else if found == 1 {
            self.go(Step::Pair);
        }
    }
}


/// One extension registered in a Chrome profile's preferences.
pub struct ExtensionEntry {
    pub id: String,
    pub path: String,
}

/// What reading one preferences file gave.
pub enum PreferencesFile {
    /// The file does not exist.
    Missing,
    /// The file exists but could not be read.
    Unreadable,
    /// The file is not valid JSON.
    Malformed,
    /// The file parsed; its registered extensions, if any.
    Parsed(Vec<ExtensionEntry>),
}

/// One Chrome profile directory and its preferences files, secure
/// preferences first.
pub struct ProfileObservation {
    pub name: String,
    pub files: Vec<PreferencesFile>,
}

/// The members of the JSON object found at `pointer` in `bytes`, each with
/// its `field` string where it has one, in the order `serde_json` gives
/// the object's keys: `None` where the bytes are not JSON, `Some(None)`
/// where nothing at `pointer` is an object.
pub uninterp spec fn json_object_fields(
    bytes: Seq<u8>,
    pointer: Seq<char>,
    field: Seq<char>,
) -> Option<Option<Seq<(Seq<char>, Option<Seq<char>>)>>>;

/// The members and fields as text.
pub open spec fn fields_view(r: Option<Option<Vec<(String, Option<String>)>>>) -> Option<
    Option<Seq<(Seq<char>, Option<Seq<char>>)>>,
> {
    match r {
        None => None,
        Some(None) => Some(None),
        Some(Some(v)) => Some(
            Some(v@.map_values(|m: (String, Option<String>)| (m.0@, crate::app::opt_view(m.1)))),
        ),
    }
}

/// Parses `bytes` with `serde_json::from_slice` into a `Value`, takes the
/// value at `pointer` (`Value::pointer`) where it is an object
/// (`Value::as_object`), and gives each of its members with the string
/// (`Value::get`, `Value::as_str`) it holds under `field`. Claimed: the
/// result is `json_object_fields` of the bytes, the pointer and the field.
#[verifier::external_body]
fn object_fields(bytes: &[u8], pointer: &str, field: &str) -> (r: Option<Option<Vec<(String, Option<String>)>>>)
    ensures
        fields_view(r) == json_object_fields(bytes@, pointer@, field@),
{
    let value = serde_json::from_slice::<serde_json::Value>(bytes).ok()?;
    Some(value.pointer(pointer).and_then(serde_json::Value::as_object).map(|m| {
        m.iter().map(|(k, e)| (k.clone(), e.get(field).and_then(serde_json::Value::as_str).map(str::to_owned))).collect()
    }))
}

/// Where Chrome's preferences keep the registered extensions.
pub open spec fn settings_pointer() -> Seq<char> {
    "/extensions/settings"@
}

/// The extensions a preferences file registers, as `(id, path)` pairs:
/// `None` where the file is not JSON, none where it has no
/// `extensions.settings` object, and an empty path where an entry has none.
pub open spec fn spec_preference_entries(bytes: Seq<u8>) -> Option<Seq<(Seq<char>, Seq<char>)>> {
    match json_object_fields(bytes, settings_pointer(), "path"@) {
        None => None,
        Some(None) => Some(Seq::empty()),
        Some(Some(members)) => Some(
            members.map_values(
                |m: (Seq<char>, Option<Seq<char>>)|
                    (
                        m.0,
                        match m.1 {
                            Some(p) => p,
                            None => Seq::empty(),
                        },
                    ),
            ),
        ),
    }
}

/// What a preferences file that could be read says: malformed where it is
/// not JSON, else the extensions it registers.
pub fn preferences_from_bytes(bytes: &[u8]) -> (r: PreferencesFile)
    ensures
        match spec_preference_entries(bytes@) {
            None => r is Malformed,
            Some(entries) => r matches PreferencesFile::Parsed(v) && v@.map_values(
                |e: ExtensionEntry| (e.id@, e.path@),
            ) == entries,
        },
{
    let members = match object_fields(bytes, "/extensions/settings", "path") {
        None => {
            return PreferencesFile::Malformed;
        },
        Some(None) => {
            return PreferencesFile::Parsed(Vec::new());
        },
        Some(Some(m)) => m,
    };
    let ghost target = members@.map_values(
        |m: (String, Option<String>)|
            (
                m.0@,
                match crate::app::opt_view(m.1) {
                    Some(p) => p,
                    None => Seq::<char>::empty(),
                },
            ),
    );
    let mut out: Vec<ExtensionEntry> = Vec::new();
    let mut i: usize = 0;
    while i < members.len()
        invariant
            i <= members@.len(),
            target.len() == members@.len(),
            target == members@.map_values(
                |m: (String, Option<String>)|
                    (
                        m.0@,
                        match crate::app::opt_view(m.1) {
                            Some(p) => p,
                            None => Seq::<char>::empty(),
                        },
                    ),
            ),
            out@.len() == i,
            forall|j: int| 0 <= j < i ==> ((#[trigger] out@[j]).id@, out@[j].path@) == target[j],
        decreases members@.len() - i,
    {
        let path = match &members[i].1 {
            Some(p) => p.clone(),
            None => String::new(),
        };
        out.push(ExtensionEntry { id: members[i].0.clone(), path });
        i = i + 1;
    }
    proof {
        assert(out@.map_values(|e: ExtensionEntry| (e.id@, e.path@)) =~= target);
    }
    PreferencesFile::Parsed(out)
}

/// Whether two paths name the same location by `std::path::Path`'s
/// component-wise comparison.
pub uninterp spec fn path_eq(a: Seq<char>, b: Seq<char>) -> bool;

/// Compares two paths with `std::path::Path`'s `==`, which compares their
/// components. Claimed: the result is `path_eq` of the two strings, and
/// identical strings compare equal.
#[verifier::external_body]
fn same_path(a: &str, b: &str) -> (r: bool)
    ensures
        r == path_eq(a@, b@),
        a@ == b@ ==> r,
{
    std::path::Path::new(a) == std::path::Path::new(b)
}

pub open spec fn default_profile() -> Seq<char> {
    seq!['D', 'e', 'f', 'a', 'u', 'l', 't']
}

pub open spec fn profile_prefix() -> Seq<char> {
    seq!['P', 'r', 'o', 'f', 'i', 'l', 'e', ' ']
}

/// The directory name that the old extension was bundled under.
pub open spec fn legacy_suffix() -> Seq<char> {
    seq![
        '/', 'f', 'o', 'r', 'g', 'i', 'v', 'e', '-', 'm', 'e', '-', 'e', 'x', 't', 'e', 'n', 's',
        'i', 'o', 'n',
    ]
}

/// A Chrome profile directory: `Default` or `Profile <n>`.
pub open spec fn is_profile_name(name: Seq<char>) -> bool {
    name == default_profile() || spec_has_prefix(name, profile_prefix())
}

/// The entry is this installation's extension: its ID is the expected one,
/// or it is registered at this extension's path.
pub open spec fn entry_is_ours(e: ExtensionEntry, expected: Option<Seq<char>>, extension: Seq<char>) -> bool {
    expected == Some(e.id@) || path_eq(e.path@, extension)
}

/// The entry is the old extension.
pub open spec fn entry_is_legacy(e: ExtensionEntry) -> bool {
    spec_has_suffix(e.path@, legacy_suffix())
}

/// A parsed preferences file that registers this installation's extension.
pub open spec fn file_has_ours(f: PreferencesFile, expected: Option<Seq<char>>, extension: Seq<char>) -> bool {
    &&& f is Parsed
    &&& exists|k: int|
        0 <= k < f->Parsed_0@.len() && entry_is_ours(#[trigger] f->Parsed_0@[k], expected, extension)
}

/// A parsed preferences file that registers the old extension.
pub open spec fn file_has_legacy(f: PreferencesFile) -> bool {
    &&& f is Parsed
    &&& exists|k: int| 0 <= k < f->Parsed_0@.len() && entry_is_legacy(#[trigger] f->Parsed_0@[k])
}

/// A preferences file that exists but could not be read or parsed.
pub open spec fn file_uncertain(f: PreferencesFile) -> bool {
    f is Unreadable || f is Malformed
}

/// A profile whose preferences register this installation's extension.
pub open spec fn profile_has_ours(p: ProfileObservation, expected: Option<Seq<char>>, extension: Seq<char>) -> bool {
    is_profile_name(p.name@) && exists|f: int|
        0 <= f < p.files@.len() && file_has_ours(#[trigger] p.files@[f], expected, extension)
}

/// A profile with a preferences file that exists but could not be read.
pub open spec fn profile_uncertain(p: ProfileObservation) -> bool {
    is_profile_name(p.name@) && exists|f: int|
        0 <= f < p.files@.len() && file_uncertain(#[trigger] p.files@[f])
}

/// A profile whose preferences register the old extension.
pub open spec fn profile_has_legacy(p: ProfileObservation) -> bool {
    is_profile_name(p.name@) && exists|f: int|
        0 <= f < p.files@.len() && file_has_legacy(#[trigger] p.files@[f])
}

/// A profile with a preferences file that parsed.
pub open spec fn profile_readable(p: ProfileObservation) -> bool {
    is_profile_name(p.name@) && exists|f: int| 0 <= f < p.files@.len() && #[trigger] p.files@[f] is Parsed
}

/// The position of the first profile registering this installation's
/// extension, if any.
pub open spec fn first_with_ours(
    ps: Seq<ProfileObservation>,
    expected: Option<Seq<char>>,
    extension: Seq<char>,
) -> Option<int>
    decreases ps.len(),
{
    if ps.len() == 0 {
        None
    } else if profile_has_ours(ps[0], expected, extension) {
        Some(0)
    } else {
        match first_with_ours(ps.drop_first(), expected, extension) {
            Some(i) => Some(i + 1),
            None => None,
        }
    }
}


/// What the profiles say, in the order the rules are applied: this
/// installation's extension in the first profile that registers it; else
/// unknown if any preferences file could not be read; else the old
/// extension only; else not found if any preferences file was read; else
/// unknown.
pub open spec fn spec_detect(
    r: Installation,
    ps: Seq<ProfileObservation>,
    expected: Option<Seq<char>>,
    extension: Seq<char>,
) -> bool {
    match first_with_ours(ps, expected, extension) {
        Some(i) => r matches Installation::Found(name) && name@ == ps[i].name@,
        None => if exists|q: int| 0 <= q < ps.len() && profile_uncertain(#[trigger] ps[q]) {
            r is Unknown
        } else if exists|q: int| 0 <= q < ps.len() && profile_has_legacy(#[trigger] ps[q]) {
            r is LegacyOnly
        } else if exists|q: int| 0 <= q < ps.len() && profile_readable(#[trigger] ps[q]) {
            r is NotFound
        } else {
            r is Unknown
        },
    }
}

proof fn lemma_first_with_ours(
    ps: Seq<ProfileObservation>,
    expected: Option<Seq<char>>,
    extension: Seq<char>,
    i: int,
)
    requires
        0 <= i <= ps.len(),
        forall|q: int| 0 <= q < i ==> !profile_has_ours(#[trigger] ps[q], expected, extension),
    ensures
        i < ps.len() && profile_has_ours(ps[i], expected, extension) ==> first_with_ours(
            ps,
            expected,
            extension,
        ) == Some(i),
        i == ps.len() ==> first_with_ours(ps, expected, extension) is None,
    decreases ps.len(),
{
    if ps.len() > 0 && i > 0 {
        let rest = ps.drop_first();
        assert forall|q: int| 0 <= q < i - 1 implies !profile_has_ours(
            #[trigger] rest[q],
            expected,
            extension,
        ) by {
            assert(rest[q] == ps[q + 1]);
        }
        lemma_first_with_ours(rest, expected, extension, i - 1);
        assert(!profile_has_ours(ps[0], expected, extension));
        if i < ps.len() {
            assert(rest[i - 1] == ps[i]);
        }
    }
}

fn is_profile_dir(name: &str) -> (r: bool)
    ensures
        r == is_profile_name(name@),
{
    let chars = chars_of(name);
    let default = ['D', 'e', 'f', 'a', 'u', 'l', 't'];
    let prefix = ['P', 'r', 'o', 'f', 'i', 'l', 'e', ' '];
    assert(default@ =~= default_profile());
    assert(prefix@ =~= profile_prefix());
    let exact = chars.len() == 7 && has_prefix(chars.as_slice(), &default);
    proof {
        if chars@.len() == 7 && spec_has_prefix(chars@, default@) {
            assert(chars@ =~= chars@.take(7));
        }
        if chars@ == default_profile() {
            assert(chars@.take(7) =~= chars@);
        }
    }
    exact || has_prefix(chars.as_slice(), &prefix)
}

fn is_legacy_path(path: &str) -> (r: bool)
    ensures
        r == spec_has_suffix(path@, legacy_suffix()),
{
    let chars = chars_of(path);
    let suffix = [
        '/', 'f', 'o', 'r', 'g', 'i', 'v', 'e', '-', 'm', 'e', '-', 'e', 'x', 't', 'e', 'n', 's',
        'i', 'o', 'n',
    ];
    assert(suffix@ =~= legacy_suffix());
    has_suffix(chars.as_slice(), &suffix)
}

fn entry_matches(e: &ExtensionEntry, expected: Option<&str>, extension: &str) -> (r: bool)
    ensures
        r == entry_is_ours(
            *e,
            match expected {
                Some(x) => Some(x@),
                None => None,
            },
            extension@,
        ),
{
    let by_id = match expected {
        Some(x) => same_text(x, e.id.as_str()),
        None => false,
    };
    by_id || same_path(e.path.as_str(), extension)
}

/// Reads the installation hint from Chrome's profiles. `expected` is this
/// installation's extension ID where it could be computed, `extension`
/// its folder. Only directories named `Default` or `Profile <n>` count.
pub fn detect_installation(profiles: &Vec<ProfileObservation>, expected: Option<&str>, extension: &str) -> (r:
    Installation)
    ensures
        spec_detect(
            r,
            profiles@,
            match expected {
                Some(x) => Some(x@),
                None => None,
            },
            extension@,
        ),
{
    let ghost exp = match expected {
        Some(x) => Some(x@),
        None => None,
    };
    let ghost ps = profiles@;
    let mut uncertain = false;
    let mut legacy = false;
    let mut readable = false;
    let mut i: usize = 0;
    while i < profiles.len()
        invariant
            i <= ps.len(),
            ps == profiles@,
            exp == (match expected {
                Some(x) => Some(x@),
                None => None,
            }),
            forall|q: int| 0 <= q < i ==> !profile_has_ours(#[trigger] ps[q], exp, extension@),
            uncertain == exists|q: int| 0 <= q < i && profile_uncertain(#[trigger] ps[q]),
            legacy == exists|q: int| 0 <= q < i && profile_has_legacy(#[trigger] ps[q]),
            readable == exists|q: int| 0 <= q < i && profile_readable(#[trigger] ps[q]),
        decreases ps.len() - i,
    {
        let profile = &profiles[i];
        let ghost p = ps[i as int];
        if is_profile_dir(profile.name.as_str()) {
            let ghost u0 = uncertain;
            let ghost l0 = legacy;
            let ghost r0 = readable;
            let mut j: usize = 0;
            while j < profile.files.len()
                invariant
                    j <= p.files@.len(),
                    i < ps.len(),
                    ps == profiles@,
                    p == ps[i as int],
                    forall|q: int| 0 <= q < i ==> !profile_has_ours(#[trigger] ps[q], exp, extension@),
                    *profile == p,
                    is_profile_name(p.name@),
                    exp == (match expected {
                        Some(x) => Some(x@),
                        None => None,
                    }),
                    forall|f: int| 0 <= f < j ==> !file_has_ours(#[trigger] p.files@[f], exp, extension@),
                    uncertain == (u0 || exists|f: int| 0 <= f < j && file_uncertain(#[trigger] p.files@[f])),
                    legacy == (l0 || exists|f: int| 0 <= f < j && file_has_legacy(#[trigger] p.files@[f])),
                    readable == (r0 || exists|f: int| 0 <= f < j && #[trigger] p.files@[f] is Parsed),
                decreases p.files@.len() - j,
            {
                match &profile.files[j] {
                    PreferencesFile::Missing => {},
                    PreferencesFile::Unreadable | PreferencesFile::Malformed => {
                        uncertain = true;
                    },
                    PreferencesFile::Parsed(entries) => {
                        readable = true;
                        let ghost l1 = legacy;
                        let mut k: usize = 0;
                        while k < entries.len()
                            invariant
                                k <= entries@.len(),
                                i < ps.len(),
                                ps == profiles@,
                                p == ps[i as int],
                                forall|q: int| 0 <= q < i ==> !profile_has_ours(#[trigger] ps[q], exp, extension@),
                                j < p.files@.len(),
                                *profile == p,
                                is_profile_name(p.name@),
                                p.files@[j as int] == PreferencesFile::Parsed(*entries),
                                exp == (match expected {
                                    Some(x) => Some(x@),
                                    None => None,
                                }),
                                forall|e: int| 0 <= e < k ==> !entry_is_ours(#[trigger] entries@[e], exp, extension@),
                                legacy == (l1 || exists|e: int| 0 <= e < k && entry_is_legacy(#[trigger] entries@[e])),
                            decreases entries@.len() - k,
                        {
                            if entry_matches(&entries[k], expected, extension) {
                                proof {
                                    assert(entry_is_ours(entries@[k as int], exp, extension@));
                                    lemma_file_has_ours(*entries, k as int, exp, extension@);
                                    assert(file_has_ours(p.files@[j as int], exp, extension@));
                                    assert(profile_has_ours(p, exp, extension@));
                                    lemma_first_with_ours(ps, exp, extension@, i as int);
                                }
                                return Installation::Found(profile.name.clone());
                            }
                            if is_legacy_path(entries[k].path.as_str()) {
                                legacy = true;
                            }
                            k = k + 1;
                        }
                        assert(!file_has_ours(p.files@[j as int], exp, extension@));
                    },
                }
                j = j + 1;
            }
            assert(!profile_has_ours(p, exp, extension@));
        } else {
            assert(!profile_has_ours(p, exp, extension@));
            assert(!profile_uncertain(p) && !profile_has_legacy(p) && !profile_readable(p));
        }
        i = i + 1;
    }
    proof {
        lemma_first_with_ours(ps, exp, extension@, ps.len() as int);
    }
    if uncertain {
        Installation::Unknown
    } else if legacy {
        Installation::LegacyOnly
    } else if readable {
        Installation::NotFound
    } else {
        Installation::Unknown
    }
}


proof fn lemma_file_has_ours(es: Vec<ExtensionEntry>, k: int, x: Option<Seq<char>>, y: Seq<char>)
    requires 0 <= k < es@.len(), entry_is_ours(es@[k], x, y),
    ensures file_has_ours(PreferencesFile::Parsed(es), x, y),
{
    assert(PreferencesFile::Parsed(es)->Parsed_0 == es);
}


/// The text of the pairing guide's main panel: its title, its body, the
/// primary action and the other keys.
pub struct GuideText {
    pub title: &'static str,
    pub body: String,
    pub primary: &'static str,
    pub secondary: &'static str,
}

/// The guide's panel, in order: manual pairing (the secret only when
/// revealed), the account confirmation once the live account is known,
/// the account check while it runs or after it failed, signing in to X,
/// installing, and connecting the extension.
pub open spec fn spec_guide_text(
    manual: bool,
    revealed: bool,
    port: u16,
    token: Seq<char>,
    connected: bool,
    identified: bool,
    handle: Seq<char>,
    pending: bool,
    account_error: Option<Seq<char>>,
    step: Step,
    legacy_only: bool,
) -> (Seq<char>, Seq<char>, Seq<char>, Seq<char>) {
    if manual {
        (" Manual connection "@, "Open Connection help in the extension.\nPort: "@ + crate::text::spec_decimal(port as nat) + "\nSecret: "@ + (if revealed {
            token
        } else {
            "[hidden]"@
        }) + "\n\nPaste the secret there, then Save & connect."@, "Enter  Copy secret"@, "o open extension  v show/hide  Esc back  q quit"@)
    } else if connected && identified {
        (" Confirm your account "@, "Connected as @"@ + handle + "\n\nIs this the account you want to clean?\nContinue to review the cleanup rule. Nothing runs yet."@, "Enter  Use this account"@, "r recheck account  q quit"@)
    } else if connected && pending {
        (" Identifying your account "@, "Chrome is paired. Checking the signed-in X account.\n\nThis screen advances when the account is identified."@, "Checking X\u{2026}"@, "b open X  q quit"@)
    } else if connected && account_error is Some {
        (" X account check failed "@, account_error->0 + "\n\nChrome is still paired. Press b to open X, or o to open\nthe extension's repair settings."@, "Enter  Retry account check"@, "b open X  o extension  r retry  q quit"@)
    } else if connected {
        (" Sign in to X "@, "Open X in this Chrome profile and sign in.\n\nThe extension checks again when the page loads.\nAlready signed in? Press r to check again."@, "Enter  Open X"@, "r recheck account  m repair  q quit"@)
    } else if step == Step::Install {
        (" Add the Chrome extension "@, (if legacy_only {
            "The old extension cannot connect. Install the new R icon.\n\n"@
        } else {
            ""@
        }) + "Press Enter to open Chrome and copy the folder path.\n\n1. Turn on Developer mode. Select Load unpacked.\n2. Press Cmd+Shift+G, paste, and select the folder.\n3. Open Remover, then Open X in the same profile.\n\nPairing starts when the extension loads."@, "Enter  Set up Chrome"@, "r check again  o installed  m manual  q quit"@)
    } else {
        (" Connect your extension "@, "Open the extension and select Connect terminal.\nKeep this terminal running.\n\nIf disabled, enable Remover on chrome://extensions.\nPress i to install or reload it. Use the same Chrome\nprofile for the extension and X.\n\nThis screen advances when Chrome connects."@, "Enter  Open extension"@, "i install / reload  r check again  m manual  q quit"@)
    }
}

/// Writes the guide's panel.
pub fn guide_text(
    manual: bool,
    revealed: bool,
    port: u16,
    token: &str,
    connected: bool,
    identified: bool,
    handle: &str,
    pending: bool,
    account_error: Option<&str>,
    step: Step,
    legacy_only: bool,
) -> (r: GuideText)
    ensures
        (r.title@, r.body@, r.primary@, r.secondary@) == spec_guide_text(
            manual,
            revealed,
            port,
            token@,
            connected,
            identified,
            handle@,
            pending,
            match account_error {
                Some(e) => Some(e@),
                None => None,
            },
            step,
            legacy_only,
        ),
{
    if manual {
        let mut body = "Open Connection help in the extension.\nPort: ".to_owned();
        let digits = crate::text::decimal(port as u64);
        body.append(digits.as_str());
        body.append("\nSecret: ");
        body.append(if revealed {
            token
        } else {
            "[hidden]"
        });
        body.append("\n\nPaste the secret there, then Save & connect.");
        GuideText { title: " Manual connection ", body, primary: "Enter  Copy secret", secondary: "o open extension  v show/hide  Esc back  q quit" }
    } else if connected && identified {
        let mut body = "Connected as @".to_owned();
        body.append(handle);
        body.append("\n\nIs this the account you want to clean?\nContinue to review the cleanup rule. Nothing runs yet.");
        GuideText { title: " Confirm your account ", body, primary: "Enter  Use this account", secondary: "r recheck account  q quit" }
    } else if connected && pending {
        GuideText { title: " Identifying your account ", body: "Chrome is paired. Checking the signed-in X account.\n\nThis screen advances when the account is identified.".to_owned(), primary: "Checking X\u{2026}", secondary: "b open X  q quit" }
    } else if connected && account_error.is_some() {
        let mut body = match account_error {
            Some(e) => e.to_owned(),
            None => String::new(),
        };
        body.append("\n\nChrome is still paired. Press b to open X, or o to open\nthe extension's repair settings.");
        GuideText { title: " X account check failed ", body, primary: "Enter  Retry account check", secondary: "b open X  o extension  r retry  q quit" }
    } else if connected {
        GuideText { title: " Sign in to X ", body: "Open X in this Chrome profile and sign in.\n\nThe extension checks again when the page loads.\nAlready signed in? Press r to check again.".to_owned(), primary: "Enter  Open X", secondary: "r recheck account  m repair  q quit" }
    } else if step == Step::Install {
        proof {
            reveal_strlit("");
        }
        let mut body = if legacy_only {
            "The old extension cannot connect. Install the new R icon.\n\n".to_owned()
        } else {
            String::new()
        };
        body.append("Press Enter to open Chrome and copy the folder path.\n\n1. Turn on Developer mode. Select Load unpacked.\n2. Press Cmd+Shift+G, paste, and select the folder.\n3. Open Remover, then Open X in the same profile.\n\nPairing starts when the extension loads.");
        GuideText { title: " Add the Chrome extension ", body, primary: "Enter  Set up Chrome", secondary: "r check again  o installed  m manual  q quit" }
    } else {
        GuideText { title: " Connect your extension ", body: "Open the extension and select Connect terminal.\nKeep this terminal running.\n\nIf disabled, enable Remover on chrome://extensions.\nPress i to install or reload it. Use the same Chrome\nprofile for the extension and X.\n\nThis screen advances when Chrome connects.".to_owned(), primary: "Enter  Open extension", secondary: "i install / reload  r check again  m manual  q quit" }
    }
}

/// Law: the secret stays hidden. Outside manual pairing with the secret
/// revealed, the guide's panel is the same whatever the secret is, so no
/// part of it can show the secret.
pub proof fn law_secret_stays_hidden(
    manual: bool,
    revealed: bool,
    port: u16,
    token: Seq<char>,
    other_token: Seq<char>,
    connected: bool,
    identified: bool,
    handle: Seq<char>,
    pending: bool,
    account_error: Option<Seq<char>>,
    step: Step,
    legacy_only: bool,
)
    requires
        !(manual && revealed),
    ensures
        spec_guide_text(manual, revealed, port, token, connected, identified, handle, pending, account_error, step, legacy_only)
            == spec_guide_text(manual, revealed, port, other_token, connected, identified, handle, pending, account_error, step, legacy_only),
{
}

/// Law: the guide names a signed-in account ("Connected as") only when
/// Chrome is connected and the account identified.
pub proof fn law_account_named_only_when_live(
    manual: bool,
    revealed: bool,
    port: u16,
    token: Seq<char>,
    connected: bool,
    identified: bool,
    handle: Seq<char>,
    pending: bool,
    account_error: Option<Seq<char>>,
    step: Step,
    legacy_only: bool,
)
    ensures
        spec_guide_text(manual, revealed, port, token, connected, identified, handle, pending, account_error, step, legacy_only).0
            == " Confirm your account "@ <==> !manual && connected && identified,
{
    reveal_strlit(" Confirm your account ");
    assert(" Confirm your account "@.len() == 22);
    reveal_strlit(" Manual connection ");
    assert(" Manual connection "@.len() == 19);
    reveal_strlit(" Identifying your account ");
    assert(" Identifying your account "@.len() == 26);
    reveal_strlit(" X account check failed ");
    assert(" X account check failed "@.len() == 24);
    reveal_strlit(" Sign in to X ");
    assert(" Sign in to X "@.len() == 14);
    reveal_strlit(" Add the Chrome extension ");
    assert(" Add the Chrome extension "@.len() == 26);
    reveal_strlit(" Connect your extension ");
    assert(" Connect your extension "@.len() == 24);
}

/// The guide's status line for Chrome: connected with the extension's
/// version, or what the installation hint says.
pub open spec fn spec_chrome_line(connected: bool, version: Seq<char>, installation: Installation) -> Seq<char> {
    if connected {
        "\u{2713} Chrome connected / extension "@ + (if version.len() == 0 {
            "version unknown"@
        } else {
            version
        })
    } else {
        match installation {
            Installation::Found(profile) => "\u{25cb} Extension listed in "@ + profile@ + "; not connected"@,
            Installation::NotFound => "\u{25cb} Chrome extension not installed"@,
            Installation::LegacyOnly => "\u{25cb} Only the old extension was found"@,
            Installation::Unknown => "\u{25cb} Chrome not connected; installation not confirmed"@,
        }
    }
}

/// Writes the guide's status line for Chrome.
pub fn chrome_line(connected: bool, version: &str, installation: &Installation) -> (r: String)
    ensures
        r@ == spec_chrome_line(connected, version@, *installation),
{
    if connected {
        let mut s = "\u{2713} Chrome connected / extension ".to_owned();
        s.append(if version.unicode_len() == 0 {
            "version unknown"
        } else {
            version
        });
        s
    } else {
        match installation {
            Installation::Found(profile) => {
                let mut s = "\u{25cb} Extension listed in ".to_owned();
                s.append(profile.as_str());
                s.append("; not connected");
                s
            },
            Installation::NotFound => "\u{25cb} Chrome extension not installed".to_owned(),
            Installation::LegacyOnly => "\u{25cb} Only the old extension was found".to_owned(),
            Installation::Unknown => "\u{25cb} Chrome not connected; installation not confirmed".to_owned(),
        }
    }
}

/// The guide's status line for the X account: the handle once Chrome is
/// connected and the account identified.
pub open spec fn spec_account_line(connected: bool, identified: bool, handle: Seq<char>) -> Seq<char> {
    if connected && identified {
        "\u{2713} @"@ + handle
    } else if connected {
        "\u{25cb} X account not identified"@
    } else {
        "\u{b7} X account waits for Chrome"@
    }
}

/// Writes the guide's status line for the X account.
pub fn account_line(connected: bool, identified: bool, handle: &str) -> (r: String)
    ensures
        r@ == spec_account_line(connected, identified, handle@),
{
    if connected && identified {
        let mut s = "\u{2713} @".to_owned();
        s.append(handle);
        s
    } else if connected {
        "\u{25cb} X account not identified".to_owned()
    } else {
        "\u{b7} X account waits for Chrome".to_owned()
    }
}

/// The other keys, with a scrolling hint where the panel scrolls.
pub fn keys_hint(secondary: &str, max_scroll: u16) -> (r: String)
    ensures
        r@ == (if max_scroll > 0 {
            secondary@ + "   \u{2191}\u{2193} scroll"@
        } else {
            secondary@
        }),
{
    let mut s = secondary.to_owned();
    if max_scroll > 0 {
        s.append("   \u{2191}\u{2193} scroll");
    }
    s
}

/// The guide's scroll position, kept within its content.
pub fn clamp_scroll(scroll: u16, max_scroll: u16) -> (r: u16)
    ensures
        r == (if scroll < max_scroll {
            scroll
        } else {
            max_scroll
        }),
{
    if scroll < max_scroll {
        scroll
    } else {
        max_scroll
    }
}

/// What a request of the pairing guide does to the guide. `connected` and
/// `identified` describe the live connection. Requests that copy, open,
/// check or quit change nothing here and are carried out by the caller.
pub open spec fn setup_request_effect(
    o: Setup,
    n: Setup,
    req: crate::keys::SetupRequest,
    connected: bool,
    identified: bool,
    r: crate::controller::KeyOutcome,
) -> bool {
    match req {
        crate::keys::SetupRequest::Nothing => r == crate::controller::KeyOutcome::Done && n == o,
        crate::keys::SetupRequest::ToggleReveal => r == crate::controller::KeyOutcome::Done && n == (Setup {
            manual: true,
            revealed: !o.revealed,
            ..o
        }),
        crate::keys::SetupRequest::ToggleManual => r == crate::controller::KeyOutcome::Done && n == (Setup {
            manual: !o.manual,
            ..spec_go(o, Step::Pair)
        }),
        crate::keys::SetupRequest::OpenInstall => r == crate::controller::KeyOutcome::Perform && n == spec_go(
            o,
            Step::Install,
        ),
        crate::keys::SetupRequest::OpenOptions => r == crate::controller::KeyOutcome::Perform && n == (if !o.manual
            && !connected {
            spec_go(o, Step::Pair)
        } else {
            o
        }),
        crate::keys::SetupRequest::GoBack => r == crate::controller::KeyOutcome::Done && n == spec_go(
            o,
            spec_step_for(connected, identified),
        ),
        crate::keys::SetupRequest::ScrollDown => r == crate::controller::KeyOutcome::Done && n == (Setup {
            scroll: if o.scroll < 40 {
                (o.scroll + 1) as u16
            } else {
                40u16
            },
            ..o
        }),
        crate::keys::SetupRequest::ScrollUp => r == crate::controller::KeyOutcome::Done && n == (Setup {
            scroll: if o.scroll > 0 {
                (o.scroll - 1) as u16
            } else {
                0u16
            },
            ..o
        }),
        _ => r == crate::controller::KeyOutcome::Perform && n == o,
    }
}

/// Applies a request of the pairing guide.
pub fn apply_setup_request(
    setup: &mut Setup,
    req: crate::keys::SetupRequest,
    connected: bool,
    identified: bool,
) -> (r: crate::controller::KeyOutcome)
    ensures
        setup_request_effect(*old(setup), *final(setup), req, connected, identified, r),
{
    match req {
        crate::keys::SetupRequest::Nothing => crate::controller::KeyOutcome::Done,
        crate::keys::SetupRequest::ToggleReveal => {
            setup.manual = true;
            setup.revealed = !setup.revealed;
            crate::controller::KeyOutcome::Done
        },
        crate::keys::SetupRequest::ToggleManual => {
            let manual = !setup.manual;
            setup.go(Step::Pair);
            setup.manual = manual;
            crate::controller::KeyOutcome::Done
        },
        crate::keys::SetupRequest::OpenInstall => {
            setup.go(Step::Install);
            crate::controller::KeyOutcome::Perform
        },
        crate::keys::SetupRequest::OpenOptions => {
            if !setup.manual && !connected {
                setup.go(Step::Pair);
            }
            crate::controller::KeyOutcome::Perform
        },
        crate::keys::SetupRequest::GoBack => {
            let step = step_for(connected, identified);
            setup.go(step);
            crate::controller::KeyOutcome::Done
        },
        crate::keys::SetupRequest::ScrollDown => {
            setup.scroll = if setup.scroll < 40 {
                setup.scroll + 1
            } else {
                40
            };
            crate::controller::KeyOutcome::Done
        },
        crate::keys::SetupRequest::ScrollUp => {
            setup.scroll = if setup.scroll > 0 {
                setup.scroll - 1
            } else {
                0
            };
            crate::controller::KeyOutcome::Done
        },
        _ => crate::controller::KeyOutcome::Perform,
    }
}

} // verus!
