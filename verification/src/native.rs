//! Chrome native messaging: the extension's identity and the pairing reply.
//! The pairing secret travels only through the private stdio pipe.
use crate::bridge::{extension_scheme, is_extension_id, spec_valid_origin};
use crate::config::Config;
use crate::model::{is_hex_id, new_id};
use crate::text::same_text;
use sha2::{Digest, Sha256};
use vstd::prelude::*;
use vstd::string::*;

verus! {

/// The native messaging host name registered with Chrome.
pub const HOST: &'static str = "com.x_bot_follower_remover.pairing";

/// SHA-256 of a byte string.
pub uninterp spec fn sha256(data: Seq<u8>) -> Seq<u8>;

/// Hashes `data` with `sha2::Sha256::digest`. Claimed: the result is the
/// SHA-256 digest of `data` (named `sha256`), which is 32 bytes long.
#[verifier::external_body]
fn sha256_digest(data: &[u8]) -> (r: Vec<u8>)
    ensures
        r@ == sha256(data@),
        r@.len() == 32,
{
    Sha256::digest(data).to_vec()
}

/// The letter that encodes the nibble `n` (0..16): `a` for 0 up to `p`.
pub open spec fn nibble_letter(n: u8) -> char {
    (97 + n) as char
}

/// Chromium's ID for a digest: its first 16 bytes, each as two letters
/// `a`..`p`, high nibble first.
pub open spec fn spec_id_from_digest(digest: Seq<u8>) -> Seq<char> {
    Seq::new(
        32,
        |i: int|
            if i % 2 == 0 {
                nibble_letter(digest[i / 2] / 16)
            } else {
                nibble_letter(digest[i / 2] % 16)
            },
    )
}

/// The ID Chrome gives an unpacked extension at `path`.
pub open spec fn spec_extension_id(path: Seq<char>) -> Seq<char> {
    spec_id_from_digest(sha256(vstd::utf8::encode_utf8(path)))
}

fn letter(n: u8) -> (c: char)
    requires
        n < 16,
    ensures
        c == nibble_letter(n),
{
    (97 + n) as char
}

/// Encodes the first 16 bytes of a digest as a Chrome extension ID.
pub fn id_from_digest(digest: &[u8]) -> (r: String)
    requires
        digest@.len() >= 16,
    ensures
        r@ == spec_id_from_digest(digest@),
{
    let mut out = String::new();
    let mut i: usize = 0;
    while i < 16
        invariant
            i <= 16 <= digest@.len(),
            out@.len() == 2 * i,
            forall|j: int| 0 <= j < 2 * i ==> out@[j] == spec_id_from_digest(digest@)[j],
        decreases 16 - i,
    {
        let b = digest[i];
        out.push(letter(b / 16));
        out.push(letter(b % 16));
        i = i + 1;
    }
    assert(out@ =~= spec_id_from_digest(digest@));
    out
}

/// Chromium's ID for an unpacked extension: the first 128 bits of SHA-256
/// of its absolute path, encoded as letters `a`..`p`. The caller passes the
/// canonical absolute path.
pub fn extension_id(absolute_path: &str) -> (r: String)
    ensures
        r@ == spec_extension_id(absolute_path@),
        r@ == spec_id_from_digest(sha256(vstd::utf8::encode_utf8(absolute_path@))),
{
    let digest = sha256_digest(absolute_path.as_bytes());
    id_from_digest(digest.as_slice())
}

/// Law: an extension's ID is Chromium's for its path: 32 letters, the
/// first sixteen bytes of a single SHA-256 of the path's UTF-8 bytes, each
/// byte as two letters from `a` (0) to `p` (15), high nibble first.
pub proof fn law_extension_id_is_chromium_id(path: Seq<char>)
    ensures
        ({
            let id = spec_extension_id(path);
            let digest = sha256(vstd::utf8::encode_utf8(path));
            &&& id.len() == 32
            &&& forall|i: int|
                0 <= i < 16 ==> #[trigger] id[2 * i] == ((97 + digest[i] / 16) as char) && id[2 * i + 1] == ((97
                    + digest[i] % 16) as char)
        }),
{
    let id = spec_extension_id(path);
    let digest = sha256(vstd::utf8::encode_utf8(path));
    assert forall|i: int| 0 <= i < 16 implies #[trigger] id[2 * i] == ((97 + digest[i] / 16) as char) && id[2 * i
        + 1] == ((97 + digest[i] % 16) as char) by {
        assert((2 * i) / 2 == i && (2 * i) % 2 == 0);
        assert((2 * i + 1) / 2 == i && (2 * i + 1) % 2 == 1);
    }
}

/// Law: every computed extension ID is a well-formed ID, and the origin
/// built from it is accepted by the bridge as naming exactly that ID.
pub proof fn law_extension_ids_are_valid_origins(digest: Seq<u8>)
    requires
        digest.len() >= 16,
    ensures
        is_extension_id(spec_id_from_digest(digest)),
        spec_valid_origin(extension_scheme() + spec_id_from_digest(digest)) == Some(
            spec_id_from_digest(digest),
        ),
{
    let id = spec_id_from_digest(digest);
    assert forall|i: int| 0 <= i < id.len() implies 'a' <= #[trigger] id[i] <= 'p' by {
        let b = digest[i / 2];
        assert(b / 16 < 16 && b % 16 < 16);
    }
    let origin = extension_scheme() + id;
    assert(origin.take(19) =~= extension_scheme());
    assert(origin.skip(19) =~= id);
}


/// The text that stands for one single quote inside a single-quoted shell
/// word: close the quote, an escaped quote, reopen the quote.
pub open spec fn quote_escape() -> Seq<char> {
    seq!['\'', '\\', '\'', '\'']
}

/// `s` with every single quote replaced by `quote_escape()`.
pub open spec fn escape_quotes(s: Seq<char>) -> Seq<char>
    decreases s.len(),
{
    if s.len() == 0 {
        Seq::empty()
    } else if s[0] == '\'' {
        quote_escape() + escape_quotes(s.drop_first())
    } else {
        seq![s[0]] + escape_quotes(s.drop_first())
    }
}

/// `s` as one single-quoted POSIX shell word.
pub open spec fn spec_quote(s: Seq<char>) -> Seq<char> {
    seq!['\''] + escape_quotes(s) + seq!['\'']
}

/// `prefix` put in front of a parse result.
pub open spec fn prepend(prefix: Seq<char>, r: Option<Seq<char>>) -> Option<Seq<char>> {
    match r {
        Some(t) => Some(prefix + t),
        None => None,
    }
}

/// How a POSIX shell reads a word made of plain characters, backslash
/// escapes and single-quoted parts, starting outside any quote; `None` for
/// an unterminated quote or a trailing backslash.
pub open spec fn shell_word(s: Seq<char>) -> Option<Seq<char>>
    decreases s.len(), 1int,
{
    if s.len() == 0 {
        Some(Seq::empty())
    } else if s[0] == '\'' {
        shell_quoted(s.drop_first())
    } else if s[0] == '\\' {
        if s.len() >= 2 {
            prepend(seq![s[1]], shell_word(s.skip(2)))
        } else {
            None
        }
    } else {
        prepend(seq![s[0]], shell_word(s.drop_first()))
    }
}

/// How a POSIX shell reads the rest of a word inside a single quote, where
/// every character but the closing quote stands for itself.
pub open spec fn shell_quoted(s: Seq<char>) -> Option<Seq<char>>
    decreases s.len(), 0int,
{
    if s.len() == 0 {
        None
    } else if s[0] == '\'' {
        shell_word(s.drop_first())
    } else {
        prepend(seq![s[0]], shell_quoted(s.drop_first()))
    }
}

/// Escaping distributes over concatenation.
pub proof fn lemma_escape_append(a: Seq<char>, b: Seq<char>)
    ensures
        escape_quotes(a + b) == escape_quotes(a) + escape_quotes(b),
    decreases a.len(),
{
    if a.len() == 0 {
        assert(a + b =~= b);
    } else {
        lemma_escape_append(a.drop_first(), b);
        assert((a + b).drop_first() =~= a.drop_first() + b);
        assert((a + b)[0] == a[0]);
        if a[0] == '\'' {
            assert(quote_escape() + (escape_quotes(a.drop_first()) + escape_quotes(b))
                =~= quote_escape() + escape_quotes(a.drop_first()) + escape_quotes(b));
        } else {
            assert(seq![a[0]] + (escape_quotes(a.drop_first()) + escape_quotes(b))
                =~= seq![a[0]] + escape_quotes(a.drop_first()) + escape_quotes(b));
        }
    }
}

/// Inside a quote, an escaped text followed by the closing quote reads back
/// as the text, followed by whatever the rest reads as.
pub proof fn lemma_quoted_reads_back(s: Seq<char>, rest: Seq<char>)
    ensures
        shell_quoted(escape_quotes(s) + seq!['\''] + rest) == prepend(s, shell_word(rest)),
    decreases s.len(),
{
    let t = escape_quotes(s) + seq!['\''] + rest;
    if s.len() == 0 {
        assert(escape_quotes(s) =~= Seq::<char>::empty());
        assert(t =~= seq!['\''] + rest);
        assert(t[0] == '\'');
        assert(t.drop_first() =~= rest);
        assert(shell_quoted(t) == shell_word(rest));
        match shell_word(rest) {
            Some(w) => assert(s + w =~= w),
            None => {},
        }
    } else {
        let tail = escape_quotes(s.drop_first()) + seq!['\''] + rest;
        lemma_quoted_reads_back(s.drop_first(), rest);
        let inner = shell_quoted(tail);
        assert(inner == prepend(s.drop_first(), shell_word(rest)));
        if s[0] == '\'' {
            assert(t =~= quote_escape() + tail);
            assert(t[0] == '\'');
            let u = t.drop_first();
            assert(u =~= seq!['\\', '\'', '\''] + tail);
            assert(u[0] == '\\' && u[1] == '\'' && u.len() >= 2);
            let v = u.skip(2);
            assert(v =~= seq!['\''] + tail);
            assert(v[0] == '\'');
            assert(v.drop_first() =~= tail);
            assert(shell_word(v) == shell_quoted(tail));
            assert(shell_word(u) == prepend(seq!['\''], shell_word(v)));
            assert(shell_quoted(t) == shell_word(u));
            match shell_word(rest) {
                Some(w) => {
                    assert(seq!['\''] + (s.drop_first() + w) =~= s + w);
                },
                None => {},
            }
        } else {
            assert(t =~= seq![s[0]] + tail);
            assert(t[0] == s[0]);
            assert(t.drop_first() =~= tail);
            assert(shell_quoted(t) == prepend(seq![s[0]], inner));
            match shell_word(rest) {
                Some(w) => {
                    assert(seq![s[0]] + (s.drop_first() + w) =~= s + w);
                },
                None => {},
            }
        }
    }
}

/// Law: a quoted path reads back, in a POSIX shell, as exactly that path.
pub proof fn law_quote_reads_back(s: Seq<char>)
    ensures
        shell_word(spec_quote(s)) == Some(s),
{
    let q = spec_quote(s);
    assert(q.drop_first() =~= escape_quotes(s) + seq!['\''] + Seq::<char>::empty());
    lemma_quoted_reads_back(s, Seq::empty());
    assert(s + Seq::<char>::empty() =~= s);
}

/// Quotes a path for the native host's shell wrapper.
pub fn quote(path: &str) -> (r: String)
    ensures
        r@ == spec_quote(path@),
{
    let mut out = String::new();
    out.push('\'');
    for c in it: path.chars()
        invariant
            it.seq() == path@,
            out@ == seq!['\''] + escape_quotes(path@.take(it.index() as int)),
    {
        let ghost before = path@.take(it.index() as int);
        proof {
            assert(path@.take(it.index() + 1) =~= before + seq![c]);
            lemma_escape_append(before, seq![c]);
            assert(seq![c].drop_first() =~= Seq::<char>::empty());
            assert(escape_quotes(Seq::<char>::empty()) =~= Seq::<char>::empty());
            if c == '\'' {
                assert(escape_quotes(seq![c]) =~= quote_escape());
            } else {
                assert(escape_quotes(seq![c]) =~= seq![c]);
            }
        }
        if c == '\'' {
            out.push('\'');
            out.push('\\');
            out.push('\'');
            out.push('\'');
        } else {
            out.push(c);
        }
    }
    out.push('\'');
    proof {
        assert(path@.take(path@.len() as int) =~= path@);
    }
    out
}


/// Why a pairing request over the native pipe was refused, or why the
/// pairing could not be changed.
#[derive(Debug, PartialEq, Eq, Structural)]
pub enum PairingError {
    /// The request is not the one pairing request.
    UnsupportedRequest,
    /// The calling origin is not this installation's extension.
    IdentityRejected,
    /// No terminal holds the data directory's lock.
    TuiNotRunning,
    /// The saved secret or port is malformed.
    InvalidSettings,
    /// A different extension is paired.
    DifferentExtension,
    /// The operating system's random source failed.
    RandomnessUnavailable,
}

impl PairingError {
    pub fn message(&self) -> (r: &'static str)
        ensures
            *self == PairingError::UnsupportedRequest ==> r@ == "Unsupported pairing request"@,
            *self == PairingError::IdentityRejected ==> r@ == "Extension identity rejected"@,
            *self == PairingError::TuiNotRunning ==> r@ == "Start remover in your terminal first"@,
            *self == PairingError::InvalidSettings ==> r@ == "Invalid local pairing settings"@,
            *self == PairingError::DifferentExtension ==> r@
                == "A different extension is paired. Run remover pair --reset with the TUI closed"@,
            *self == PairingError::RandomnessUnavailable ==> r@
                == "operating system randomness unavailable"@,
    {
        match self {
            PairingError::UnsupportedRequest => "Unsupported pairing request",
            PairingError::IdentityRejected => "Extension identity rejected",
            PairingError::TuiNotRunning => "Start remover in your terminal first",
            PairingError::InvalidSettings => "Invalid local pairing settings",
            PairingError::DifferentExtension => "A different extension is paired. Run remover pair --reset with the TUI closed",
            PairingError::RandomnessUnavailable => "operating system randomness unavailable",
        }
    }
}

/// A member value of a pairing request, as far as the check reads it.
pub enum RequestValue {
    Text(String),
    /// A whole number that is not negative.
    Unsigned(u64),
    /// Anything else: another number, a flag, null, a list or an object.
    Other,
}

/// The member `"type": "pair"`.
pub open spec fn is_type_pair(m: (String, RequestValue)) -> bool {
    &&& m.0@ == "type"@
    &&& m.1 matches RequestValue::Text(t) && t@ == "pair"@
}

/// The member `"v": 1`.
pub open spec fn is_version_one(m: (String, RequestValue)) -> bool {
    m.0@ == "v"@ && m.1 == RequestValue::Unsigned(1)
}

/// The one pairing request: an object with exactly the members
/// `"type": "pair"` and `"v": 1`. `members` is `None` for a request that is
/// not an object.
pub open spec fn spec_pair_request(members: Option<Seq<(String, RequestValue)>>) -> bool {
    match members {
        None => false,
        Some(m) => m.len() == 2 && ((is_type_pair(m[0]) && is_version_one(m[1])) || (is_version_one(m[0])
            && is_type_pair(m[1]))),
    }
}

fn member_is_type_pair(m: &(String, RequestValue)) -> (r: bool)
    ensures
        r == is_type_pair(*m),
{
    proof {
        reveal_strlit("type");
        reveal_strlit("pair");
    }
    same_text(m.0.as_str(), "type") && match &m.1 {
        RequestValue::Text(t) => same_text(t.as_str(), "pair"),
        _ => false,
    }
}

fn member_is_version_one(m: &(String, RequestValue)) -> (r: bool)
    ensures
        r == is_version_one(*m),
{
    proof {
        reveal_strlit("v");
    }
    same_text(m.0.as_str(), "v") && match &m.1 {
        RequestValue::Unsigned(n) => *n == 1,
        _ => false,
    }
}

/// Checks that a request over the native pipe is the pairing request.
pub fn check_pair_request(members: &Option<Vec<(String, RequestValue)>>) -> (r: Result<(), PairingError>)
    ensures
        r == (if spec_pair_request(match members {
            Some(m) => Some(m@),
            None => None,
        }) {
            Ok::<(), PairingError>(())
        } else {
            Err::<(), PairingError>(PairingError::UnsupportedRequest)
        }),
{
    let ok = match members {
        None => false,
        Some(m) => m.len() == 2 && ((member_is_type_pair(&m[0]) && member_is_version_one(&m[1])) || (
        member_is_version_one(&m[0]) && member_is_type_pair(&m[1]))),
    };
    if ok {
        Ok(())
    } else {
        Err(PairingError::UnsupportedRequest)
    }
}

/// The origin Chrome reports for the extension `id` to a native host.
pub open spec fn spec_native_origin(id: Seq<char>) -> Seq<char> {
    extension_scheme() + id + seq!['/']
}

/// Whether `origin` is exactly `chrome-extension://<id>/`.
pub fn origin_matches(origin: &str, id: &str) -> (r: bool)
    ensures
        r == (origin@ == spec_native_origin(id@)),
{
    let mut expected = "chrome-extension://".to_owned();
    proof {
        reveal_strlit("chrome-extension://");
        assert("chrome-extension://"@ =~= extension_scheme());
    }
    assert(expected@ == extension_scheme());
    expected.append(id);
    assert(expected@ == extension_scheme() + id@);
    expected.push('/');
    assert(expected@ =~= spec_native_origin(id@));
    same_text(origin, expected.as_str())
}

/// An ASCII hexadecimal digit, either case.
pub open spec fn is_ascii_hex(c: char) -> bool {
    ('0' <= c <= '9') || ('a' <= c <= 'f') || ('A' <= c <= 'F')
}

/// Saved settings that may be handed to the extension: a 64-digit
/// hexadecimal secret and a port that is not privileged.
pub open spec fn settings_well_formed(settings: Config) -> bool {
    &&& settings.token@.len() == 64
    &&& forall|i: int| 0 <= i < settings.token@.len() ==> is_ascii_hex(#[trigger] settings.token@[i])
    &&& settings.port >= 1024
}

/// Checks saved settings before they are handed to the extension `id`:
/// they must be well formed, and no other extension may be paired.
pub fn check_pairing_settings(settings: &Config, id: &str) -> (r: Result<(), PairingError>)
    ensures
        !settings_well_formed(*settings) ==> r == Err::<(), PairingError>(
            PairingError::InvalidSettings,
        ),
        settings_well_formed(*settings) ==> match settings.extension_id {
            Some(paired) => if paired@ == id@ {
                r is Ok
            } else {
                r == Err::<(), PairingError>(PairingError::DifferentExtension)
            },
            None => r is Ok,
        },
{
    let token = crate::text::chars_of(settings.token.as_str());
    let mut ok = token.len() == 64 && settings.port >= 1024;
    let mut i: usize = 0;
    while i < token.len()
        invariant
            i <= token@.len(),
            token@ == settings.token@,
            ok == (token@.len() == 64 && settings.port >= 1024 && forall|j: int|
                0 <= j < i ==> is_ascii_hex(#[trigger] token@[j])),
        decreases token@.len() - i,
    {
        let c = token[i];
        let hex = ('0' <= c && c <= '9') || ('a' <= c && c <= 'f') || ('A' <= c && c <= 'F');
        ok = ok && hex;
        i = i + 1;
    }
    if !ok {
        return Err(PairingError::InvalidSettings);
    }
    match &settings.extension_id {
        Some(paired) => {
            if same_text(paired.as_str(), id) {
                Ok(())
            } else {
                Err(PairingError::DifferentExtension)
            }
        },
        None => Ok(()),
    }
}

/// Whether a native message may be read: its declared length is 1..=4096
/// bytes, so an oversize frame is refused before its body is read.
pub fn frame_length_acceptable(length: u32) -> (r: bool)
    ensures
        r == (1 <= length <= 4096),
{
    1 <= length && length <= 4096
}

/// Whether the saved pairing names the extension formerly bundled at
/// `legacy_path`.
pub fn pairs_with_legacy(settings: &Config, legacy_path: &str) -> (r: bool)
    ensures
        r == (settings.extension_id matches Some(id) && id@ == spec_extension_id(legacy_path@)),
{
    match &settings.extension_id {
        Some(id) => {
            let legacy = extension_id(legacy_path);
            same_text(id.as_str(), legacy.as_str())
        },
        None => false,
    }
}

/// Repairs only the known former bundled pairing: where the saved pairing
/// names the extension formerly at `legacy_path` and the current extension
/// `current_id` differs, a fresh secret is drawn and the current extension
/// is paired (`Ok(true)`, to be saved by the caller). Any other pairing,
/// including a manual one, is left alone (`Ok(false)`).
pub fn migrate_legacy_pairing(settings: &mut Config, legacy_path: &str, current_id: &str) -> (r:
    Result<bool, PairingError>)
    ensures
        !(old(settings).extension_id matches Some(id) && id@ == spec_extension_id(legacy_path@))
            ==> r == Ok::<bool, PairingError>(false) && *final(settings) == *old(settings),
        (old(settings).extension_id matches Some(id) && id@ == spec_extension_id(legacy_path@))
            && current_id@ == spec_extension_id(legacy_path@) ==> r == Ok::<bool, PairingError>(
            false,
        ) && *final(settings) == *old(settings),
        r == Ok::<bool, PairingError>(true) ==> {
            &&& old(settings).extension_id matches Some(id) && id@ == spec_extension_id(
                legacy_path@,
            )
            &&& current_id@ != spec_extension_id(legacy_path@)
            &&& is_hex_id(final(settings).token@)
            &&& final(settings).extension_id matches Some(id) && id@ == current_id@
            &&& final(settings).port == old(settings).port
        },
        r is Err ==> r == Err::<bool, PairingError>(PairingError::RandomnessUnavailable)
            && *final(settings) == *old(settings),
        r is Err ==> (old(settings).extension_id matches Some(id) && id@ == spec_extension_id(
            legacy_path@,
        )) && current_id@ != spec_extension_id(legacy_path@),
        (old(settings).extension_id matches Some(id) && id@ == spec_extension_id(legacy_path@))
            && current_id@ != spec_extension_id(legacy_path@) ==> (r == Ok::<bool, PairingError>(
            true,
        ) || r == Err::<bool, PairingError>(PairingError::RandomnessUnavailable)),
{
    if !pairs_with_legacy(settings, legacy_path) {
        return Ok(false);
    }
    let legacy = extension_id(legacy_path);
    if same_text(current_id, legacy.as_str()) {
        return Ok(false);
    }
    match new_id() {
        Some(token) => {
            settings.token = token;
            settings.extension_id = Some(current_id.to_owned());
            Ok(true)
        },
        None => Err(PairingError::RandomnessUnavailable),
    }
}

} // verus!
