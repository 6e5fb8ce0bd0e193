//! Admission rules of the local WebSocket bridge: only the paired Chrome
//! extension, with the current secret and protocol version, is accepted.
use crate::config::Config;
use crate::protocol::VERSION;
use subtle::ConstantTimeEq;
use vstd::prelude::*;
use vstd::string::*;
use crate::text::same_text;

verus! {

/// The scheme and separator that begin a Chrome extension origin.
pub open spec fn extension_scheme() -> Seq<char> {
    seq!['c', 'h', 'r', 'o', 'm', 'e', '-', 'e', 'x', 't', 'e', 'n', 's', 'i', 'o', 'n', ':', '/', '/']
}

/// A Chrome extension ID: 32 letters from `a` to `p`.
pub open spec fn is_extension_id(id: Seq<char>) -> bool {
    &&& id.len() == 32
    &&& forall|i: int| 0 <= i < id.len() ==> 'a' <= #[trigger] id[i] <= 'p'
}

/// The extension ID named by an origin of the exact form
/// `chrome-extension://<id>`, if it has that form.
pub open spec fn spec_valid_origin(origin: Seq<char>) -> Option<Seq<char>> {
    if origin.len() >= 19 && origin.take(19) == extension_scheme() && is_extension_id(
        origin.skip(19),
    ) {
        Some(origin.skip(19))
    } else {
        None
    }
}

fn scheme_chars() -> (r: [char; 19])
    ensures
        r@ == extension_scheme(),
{
    let r = ['c', 'h', 'r', 'o', 'm', 'e', '-', 'e', 'x', 't', 'e', 'n', 's', 'i', 'o', 'n', ':', '/', '/'];
    assert(r@ =~= extension_scheme());
    r
}

/// The extension ID of a Chrome extension origin; `None` for a web origin,
/// a lookalike, or any other text.
pub fn valid_origin(origin: &str) -> (r: Option<&str>)
    ensures
        match r {
            Some(id) => spec_valid_origin(origin@) == Some(id@),
            None => spec_valid_origin(origin@) is None,
        },
{
    let n = origin.unicode_len();
    if n != 51 {
        return None;
    }
    let scheme = scheme_chars();
    let mut i: usize = 0;
    while i < 19
        invariant
            i <= 19,
            n == origin@.len() == 51,
            scheme@ == extension_scheme(),
            forall|j: int| 0 <= j < i ==> origin@[j] == extension_scheme()[j],
        decreases 19 - i,
    {
        if origin.get_char(i) != scheme[i] {
            assert(origin@.take(19)[i as int] != extension_scheme()[i as int]);
            return None;
        }
        i = i + 1;
    }
    assert(origin@.take(19) =~= extension_scheme());
    let mut k: usize = 19;
    while k < 51
        invariant
            19 <= k <= 51,
            n == origin@.len() == 51,
            forall|j: int| 19 <= j < k ==> 'a' <= #[trigger] origin@[j] <= 'p',
        decreases 51 - k,
    {
        let c = origin.get_char(k);
        if !('a' <= c && c <= 'p') {
            assert(origin@.skip(19)[k - 19] == c);
            return None;
        }
        k = k + 1;
    }
    let id = origin.substring_char(19, 51);
    assert(id@ =~= origin@.skip(19));
    assert forall|j: int| 0 <= j < id@.len() implies 'a' <= #[trigger] id@[j] <= 'p' by {
        assert(id@[j] == origin@[j + 19]);
    }
    Some(id)
}


/// Compares two byte strings through `subtle::ConstantTimeEq::ct_eq`, whose
/// time does not depend on the contents when the lengths agree. Claimed:
/// the result is whether the two byte sequences are equal.
#[verifier::external_body]
fn bytes_equal_ct(a: &[u8], b: &[u8]) -> (r: bool)
    ensures
        r == (a@ == b@),
{
    bool::from(a.ct_eq(b))
}

/// Why a pairing greeting was refused.
#[derive(Debug, PartialEq, Eq, Structural)]
pub enum HelloError {
    /// Wrong protocol version, wrong secret, or an origin that does not name
    /// the extension that is greeting.
    Rejected,
    /// Another extension is already paired.
    DifferentExtension,
}

impl HelloError {
    pub fn message(&self) -> (r: &'static str)
        ensures
            *self == HelloError::Rejected ==> r@
                == "Pairing rejected: check token and protocol version"@,
            *self == HelloError::DifferentExtension ==> r@
                == "Extension ID differs from the paired extension; run remover pair --reset"@,
    {
        match self {
            HelloError::Rejected => "Pairing rejected: check token and protocol version",
            HelloError::DifferentExtension => "Extension ID differs from the paired extension; run remover pair --reset",
        }
    }
}

/// Whether a greeting proves the caller: the current protocol version, the
/// pairing secret, and an origin naming the greeting extension.
pub open spec fn hello_authentic(
    config: Config,
    v: u8,
    token: Seq<char>,
    extension_id: Seq<char>,
    origin: Seq<char>,
) -> bool {
    &&& v == VERSION
    &&& token == config.token@
    &&& spec_valid_origin(origin) == Some(extension_id)
}

/// The answer to a greeting under the saved configuration `config`.
pub open spec fn spec_hello_outcome(
    config: Config,
    v: u8,
    token: Seq<char>,
    extension_id: Seq<char>,
    origin: Seq<char>,
) -> Result<bool, HelloError> {
    if !hello_authentic(config, v, token, extension_id, origin) {
        Err(HelloError::Rejected)
    } else {
        match config.extension_id {
            Some(paired) => if paired@ == extension_id {
                Ok(false)
            } else {
                Err(HelloError::DifferentExtension)
            },
            None => Ok(true),
        }
    }
}

/// Admits or refuses the first message of a bridge connection. An authentic
/// greeting from the paired extension is admitted (`Ok(false)`); the first
/// authentic greeting when none is paired pairs that extension and asks the
/// caller to save the configuration (`Ok(true)`).
pub fn accept_hello(config: &mut Config, v: u8, token: &str, extension_id: &str, origin: &str) -> (r:
    Result<bool, HelloError>)
    ensures
        !hello_authentic(*old(config), v, token@, extension_id@, origin@) ==> r == Err::<
            bool,
            HelloError,
        >(HelloError::Rejected),
        hello_authentic(*old(config), v, token@, extension_id@, origin@) ==> match old(
            config,
        ).extension_id {
            Some(paired) => if paired@ == extension_id@ {
                r == Ok::<bool, HelloError>(false)
            } else {
                r == Err::<bool, HelloError>(HelloError::DifferentExtension)
            },
            None => r == Ok::<bool, HelloError>(true),
        },
        r == spec_hello_outcome(*old(config), v, token@, extension_id@, origin@),
        r == Ok::<bool, HelloError>(true) ==> (final(config).extension_id matches Some(id) && id@
            == extension_id@),
        r != Ok::<bool, HelloError>(true) ==> *final(config) == *old(config),
        final(config).token == old(config).token,
        final(config).port == old(config).port,
{
    broadcast use vstd::utf8::encode_utf8_decode_utf8;

    let same_secret = bytes_equal_ct(token.as_bytes(), config.token.as_str().as_bytes());
    proof {
        if same_secret {
            assert(vstd::utf8::decode_utf8(vstd::utf8::encode_utf8(token@)) == token@);
            assert(vstd::utf8::decode_utf8(vstd::utf8::encode_utf8(config.token@))
                == config.token@);
        }
    }
    let origin_ok = match valid_origin(origin) {
        Some(id) => same_text(id, extension_id),
        None => false,
    };
    if v != VERSION || !same_secret || !origin_ok {
        return Err(HelloError::Rejected);
    }
    match &config.extension_id {
        Some(paired) => {
            if same_text(paired.as_str(), extension_id) {
                Ok(false)
            } else {
                Err(HelloError::DifferentExtension)
            }
        },
        None => {
            config.extension_id = Some(extension_id.to_owned());
            Ok(true)
        },
    }
}

/// Law: once an extension has paired, the bridge admits no other: a
/// greeting naming any other extension is refused, whatever secret and
/// origin it shows, and the paired one is admitted without pairing again.
pub proof fn law_pairing_pins_extension(
    paired: Config,
    first: Seq<char>,
    v: u8,
    token: Seq<char>,
    extension_id: Seq<char>,
    origin: Seq<char>,
)
    requires
        paired.extension_id matches Some(id) && id@ == first,
    ensures
        extension_id != first ==> spec_hello_outcome(paired, v, token, extension_id, origin) is Err,
        extension_id == first ==> spec_hello_outcome(paired, v, token, extension_id, origin) != Ok::<
            bool,
            HelloError,
        >(true),
{
}

} // verus!
