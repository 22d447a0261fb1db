//! What the tray remembers for its user, and the secrets that it makes.

use crate::arguments::is_secret;
use crate::endpoint::{seen, server_base, validate_server_base, ServerFault};
use crate::text;
use vstd::prelude::*;

verus! {

/// The largest file of preferences that is read, in bytes.
pub const MAX_PREFERENCES_BYTES: usize = 16384;

/// Whether a file of preferences is small enough to be read.
pub fn preferences_readable(length: usize) -> (r: bool)
    ensures
        r == (length <= MAX_PREFERENCES_BYTES),
{
    length <= MAX_PREFERENCES_BYTES
}

/// What the tray remembers of the last pairing.
#[derive(Debug)]
pub struct TrayPreferences {
    pub server: String,
    /// The name that the host was given, if it was given one.
    pub name: Option<String>,
}

/// The server that is remembered: none, or the origin of the one that is stored.
pub open spec fn remembered(stored: Seq<char>) -> Result<Seq<char>, ServerFault> {
    if stored.len() == 0 {
        Ok(stored)
    } else {
        server_base(stored)
    }
}

/// The server that is remembered: none, or the origin of the one that is stored.
pub fn remembered_server(stored: &str) -> (r: Result<String, ServerFault>)
    ensures
        seen(r) == remembered(stored@),
{
    if text::to_chars(stored).len() == 0 {
        return Ok(text::owned(stored));
    }
    validate_server_base(stored)
}

/// Why the preferences cannot be used.
#[derive(Debug)]
pub enum PreferencesFault {
    /// The file could not be read; why.
    Unreadable(String),
    TooLarge,
    /// The file does not hold preferences; why.
    Invalid(String),
    Server(ServerFault),
    /// The name is none that a host may have; why.
    Name(String),
}

impl PreferencesFault {
    /// The words in which the fault is reported.
    pub open spec fn text(self) -> Seq<char> {
        match self {
            PreferencesFault::Unreadable(why) => why@,
            PreferencesFault::TooLarge => "tray preferences file is too large"@,
            PreferencesFault::Invalid(_) => "tray preferences are invalid"@,
            PreferencesFault::Server(fault) => fault.text(),
            PreferencesFault::Name(why) => why@,
        }
    }

    /// The words in which the fault is reported.
    pub fn message(&self) -> (r: String)
        ensures
            r@ == self.text(),
    {
        match self {
            PreferencesFault::Unreadable(why) => why.clone(),
            PreferencesFault::TooLarge => text::owned("tray preferences file is too large"),
            PreferencesFault::Invalid(_) => text::owned("tray preferences are invalid"),
            PreferencesFault::Server(fault) => fault.message(),
            PreferencesFault::Name(why) => why.clone(),
        }
    }
}

/// What the file of preferences holds.
#[derive(Debug)]
pub struct StoredPreferences {
    pub server: String,
    /// What came of the judgement of the name: none where no name is stored or it is blank.
    pub name: Result<Option<String>, String>,
}

/// The file of preferences as it was found.
#[derive(Debug)]
pub enum PreferencesFile {
    Missing,
    /// It could not be read; why.
    Unreadable(String),
    /// Its length in bytes, and what it holds or why that cannot be told.
    Found { length: usize, held: Result<StoredPreferences, String> },
}

/// The preferences in a file: none where there is no file, else the stored server and name, as far
/// as both are good.
pub fn load_preferences(file: PreferencesFile) -> (r: Result<TrayPreferences, PreferencesFault>)
    ensures
        match file {
            PreferencesFile::Missing => r matches Ok(preferences) && preferences.server@.len() == 0
                && preferences.name is None,
            PreferencesFile::Unreadable(why) => r == Err::<TrayPreferences, PreferencesFault>(
                PreferencesFault::Unreadable(why),
            ),
            PreferencesFile::Found { length, held } => if length > MAX_PREFERENCES_BYTES {
                r == Err::<TrayPreferences, PreferencesFault>(PreferencesFault::TooLarge)
            } else {
                match held {
                    Err(why) => r == Err::<TrayPreferences, PreferencesFault>(
                        PreferencesFault::Invalid(why),
                    ),
                    Ok(stored) => match (remembered(stored.server@), stored.name) {
                        (Err(fault), _) => r == Err::<TrayPreferences, PreferencesFault>(
                            PreferencesFault::Server(fault),
                        ),
                        (Ok(_), Err(why)) => r == Err::<TrayPreferences, PreferencesFault>(
                            PreferencesFault::Name(why),
                        ),
                        (Ok(server), Ok(name)) => r matches Ok(preferences)
                            && preferences.server@ == server && preferences.name == name,
                    },
                }
            },
        },
{
    let (length, held) = match file {
        PreferencesFile::Missing => {
            return Ok(TrayPreferences { server: String::new(), name: None });
        },
        PreferencesFile::Unreadable(why) => {
            return Err(PreferencesFault::Unreadable(why));
        },
        PreferencesFile::Found { length, held } => (length, held),
    };
    if !preferences_readable(length) {
        return Err(PreferencesFault::TooLarge);
    }
    let stored = match held {
        Err(why) => {
            return Err(PreferencesFault::Invalid(why));
        },
        Ok(stored) => stored,
    };
    let server = match remembered_server(stored.server.as_str()) {
        Err(fault) => {
            return Err(PreferencesFault::Server(fault));
        },
        Ok(server) => server,
    };
    match stored.name {
        Err(why) => Err(PreferencesFault::Name(why)),
        Ok(name) => Ok(TrayPreferences { server, name }),
    }
}

/// The server that a probe asks: the one on the page, or else the one that is remembered.
pub fn server_to_probe(requested: String, remembered: String) -> (r: String)
    ensures
        r == if text::trimmed(requested@).len() == 0 {
            remembered
        } else {
            requested
        },
{
    if text::to_chars(text::trim(requested.as_str()).as_str()).len() == 0 {
        remembered
    } else {
        requested
    }
}

// ---------------------------------------------------------------------------
// Secrets
// ---------------------------------------------------------------------------
/// `rand::random::<[u8; 32]>()`: thirty-two bytes, of any values at all.
#[verifier::external_body]
fn random_bytes() -> (bytes: Vec<u8>)
    ensures
        bytes@.len() == 32,
{
    rand::random::<[u8; 32]>().to_vec()
}

/// The two hexadecimal digits of each byte.
pub open spec fn hex_of(bytes: Seq<u8>) -> Seq<char>
    decreases bytes.len(),
{
    if bytes.len() == 0 {
        Seq::empty()
    } else {
        hex_of(bytes.drop_last()).push(
            crate::identifier::hex_digit(bytes.last() as int / 16),
        ).push(crate::identifier::hex_digit(bytes.last() as int % 16))
    }
}

fn hex_char(d: u8) -> (r: char)
    requires
        d < 16,
    ensures
        r == crate::identifier::hex_digit(d as int),
{
    if d < 10 {
        (0x30u8 + d) as char
    } else {
        (0x57u8 + d) as char
    }
}

/// The two hexadecimal digits of each byte.
pub fn hex_text(bytes: &Vec<u8>) -> (r: String)
    ensures
        r@ == hex_of(bytes@),
{
    proof {
        reveal_strlit("");
        assert(bytes@.take(0) =~= Seq::empty());
    }
    let mut out = text::owned("");
    assert(out@ =~= Seq::empty());
    let mut i: usize = 0;
    while i < bytes.len()
        invariant
            i <= bytes@.len(),
            out@ == hex_of(bytes@.take(i as int)),
        decreases bytes@.len() - i,
    {
        let byte: u8 = bytes[i];
        out.push(hex_char(byte / 16));
        out.push(hex_char(byte % 16));
        proof {
            assert(bytes@.take(i + 1).drop_last() =~= bytes@.take(i as int));
        }
        i += 1;
    }
    proof {
        assert(bytes@.take(i as int) =~= bytes@);
    }
    out
}

proof fn lemma_hex_is_hex(bytes: Seq<u8>)
    ensures
        hex_of(bytes).len() == 2 * bytes.len(),
        forall|i: int| 0 <= i < hex_of(bytes).len() ==> ({
            let c = #[trigger] hex_of(bytes)[i];
            '0' <= c <= '9' || 'a' <= c <= 'f'
        }),
    decreases bytes.len(),
{
    if bytes.len() > 0 {
        lemma_hex_is_hex(bytes.drop_last());
        let before = hex_of(bytes.drop_last());
        assert forall|i: int| 0 <= i < hex_of(bytes).len() implies ({
            let c = #[trigger] hex_of(bytes)[i];
            '0' <= c <= '9' || 'a' <= c <= 'f'
        }) by {
            if i < before.len() {
                assert(hex_of(bytes)[i] == before[i]);
            }
        }
    }
}

/// Thirty-two bytes are written as a secret.
pub proof fn a_written_secret_is_one(bytes: Seq<u8>)
    requires
        bytes.len() == 32,
    ensures
        is_secret(hex_of(bytes)),
{
    lemma_hex_is_hex(bytes);
}

/// A fresh secret.
pub fn random_secret() -> (r: String)
    ensures
        is_secret(r@),
        exists|bytes: Seq<u8>| bytes.len() == 32 && r@ == #[trigger] hex_of(bytes),
{
    let bytes = random_bytes();
    proof {
        a_written_secret_is_one(bytes@);
    }
    hex_text(&bytes)
}

/// Preferences that were never written are empty. What was written is taken where its file is not
/// too large, holds preferences, and names no server but a root origin and no host but a valid one;
/// the first of these that fails is told.
pub proof fn which_preferences_are_taken(
    file: PreferencesFile,
    r: Result<TrayPreferences, PreferencesFault>,
)
    requires
        call_ensures(load_preferences, (file,), r),
    ensures
        file is Missing ==> (r matches Ok(preferences) && preferences.server@ == Seq::<char>::empty()
            && preferences.name is None),
        file is Unreadable ==> (r matches Err(PreferencesFault::Unreadable(_))),
        r matches Err(PreferencesFault::TooLarge) <==> (file matches PreferencesFile::Found {
            length,
            ..
        } && length > 16384),
        (file matches PreferencesFile::Found { length, held: Err(_) } && length <= 16384) ==> r
            matches Err(PreferencesFault::Invalid(_)),
        (file matches PreferencesFile::Found { length, held: Ok(stored) } && length <= 16384) ==> {
            let stored = file->held->Ok_0;
            let acceptable = stored.server@.len() == 0 || server_base(stored.server@) is Ok;
            &&& r is Ok <==> acceptable && stored.name is Ok
            &&& !acceptable ==> (r matches Err(PreferencesFault::Server(_)))
            &&& acceptable && stored.name is Err ==> (r matches Err(PreferencesFault::Name(_)))
            &&& r matches Ok(preferences) ==> Ok::<Option<String>, String>(preferences.name)
                == stored.name
            &&& (r matches Ok(preferences) && stored.server@.len() == 0) ==> r->Ok_0.server@
                == stored.server@
            &&& (r matches Ok(preferences) && stored.server@.len() > 0) ==> Ok::<
                Seq<char>,
                ServerFault,
            >(r->Ok_0.server@) == server_base(stored.server@)
        },
{
}

/// The server that is asked about is the one that was typed, or else the one that is remembered.
pub proof fn which_server_is_asked(requested: String, remembered: String, r: String)
    requires
        call_ensures(server_to_probe, (requested, remembered), r),
    ensures
        text::trimmed(requested@).len() > 0 ==> r == requested,
        text::trimmed(requested@).len() == 0 ==> r == remembered,
{
}

/// Each byte is written as two hexadecimal digits, the higher first.
pub proof fn how_bytes_are_written(bytes: Seq<u8>, i: int)
    requires
        0 <= i < bytes.len(),
    ensures
        hex_of(bytes).len() == 2 * bytes.len(),
        hex_of(bytes)[2 * i] == "0123456789abcdef"@[bytes[i] as int / 16],
        hex_of(bytes)[2 * i + 1] == "0123456789abcdef"@[bytes[i] as int % 16],
    decreases bytes.len(),
{
    reveal_strlit("0123456789abcdef");
    let front = bytes.drop_last();
    if front.len() > 0 {
        how_bytes_are_written(front, if i < front.len() {
            i
        } else {
            0
        });
    } else {
        assert(hex_of(front) == Seq::<char>::empty());
    }
    let digits = "0123456789abcdef"@;
    assert forall|d: int| 0 <= d < 16 implies crate::identifier::hex_digit(d)
        == #[trigger] digits[d] by {
        assert(d == 0 || d == 1 || d == 2 || d == 3 || d == 4 || d == 5 || d == 6 || d == 7 || d
            == 8 || d == 9 || d == 10 || d == 11 || d == 12 || d == 13 || d == 14 || d == 15);
    }
    if i < front.len() {
        assert(front[i] == bytes[i]);
    } else {
        assert(digits[bytes[i] as int / 16] == crate::identifier::hex_digit(bytes[i] as int / 16));
        assert(digits[bytes[i] as int % 16] == crate::identifier::hex_digit(bytes[i] as int % 16));
    }
}

} // verus!
