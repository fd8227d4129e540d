//! Download links that carry their own authorisation: the file and an
//! optional expiry are serialised, encrypted under the server's secret and
//! percent-encoded. Nothing about an issued link is kept on the server.

use crate::clock::{current_time, Timestamp};
use magic_crypt::MagicCryptTrait;
use vstd::prelude::*;
use vstd::string::StringExecFns;
use vstd::utf8::encode_utf8;

verus! {

/// What a download link says before it is encoded.
#[derive(Debug)]
pub struct DownloadLinkStructure {
    /// The file the link gives access to.
    pub file: String,
    /// The instant after which the link is refused, if there is one.
    pub expiry: Option<Timestamp>,
}

/// The mathematical content of a [`DownloadLinkStructure`].
pub ghost struct LinkView {
    pub file: Seq<char>,
    pub expiry: Option<Timestamp>,
}

impl View for DownloadLinkStructure {
    type V = LinkView;

    open spec fn view(&self) -> LinkView {
        LinkView { file: self.file@, expiry: self.expiry }
    }
}

/// Why a token was refused.
#[derive(Clone, Copy, Debug, PartialEq, Eq, Structural)]
pub enum TokenError {
    /// The text is no token issued under this secret.
    Malformed,
    /// The token was valid once; its expiry lies in the past.
    Expired,
}

impl LinkView {
    /// Whether a link with this content is refused at `now`: it has an
    /// expiry, and `now` lies strictly after it.
    pub open spec fn expired_at(self, now: Timestamp) -> bool {
        self.expiry matches Some(expiry) && now.is_after(expiry)
    }
}

/// The bytes `bincode` writes for the pair of the file and the expiry as a
/// UTC date-time; `None` where the expiry is no date `chrono` can hold.
pub uninterp spec fn link_bytes(link: LinkView) -> Option<Seq<u8>>;

/// What `bincode` reads from `bytes` as such a pair; `None` where it
/// reports an error.
pub uninterp spec fn link_parsed(bytes: Seq<u8>) -> Option<LinkView>;

/// The Base64 text of `data` encrypted under the key derived from `secret`.
pub uninterp spec fn sealed(secret: Seq<char>, data: Seq<u8>) -> Seq<char>;

/// The bytes that decrypting `text` under the key derived from `secret`
/// yields; `None` where the text is no Base64 or the decryption fails.
pub uninterp spec fn unsealed(secret: Seq<char>, text: Seq<char>) -> Option<Seq<u8>>;

/// The text that percent-decoding `text` yields; `None` where the decoded
/// bytes are not UTF-8.
pub uninterp spec fn url_decoded(text: Seq<char>) -> Option<Seq<char>>;

/// The bytes that stand for themselves in a percent-encoded text: ASCII
/// letters and digits, `-`, `.`, `_` and `~`.
pub open spec fn is_unreserved(b: u8) -> bool {
    ||| 0x30 <= b <= 0x39
    ||| 0x41 <= b <= 0x5a
    ||| 0x61 <= b <= 0x7a
    ||| b == 0x2d
    ||| b == 0x2e
    ||| b == 0x5f
    ||| b == 0x7e
}

/// The upper-case hexadecimal digit for a value below sixteen.
pub open spec fn hex_digit(d: u8) -> char {
    if d < 10 {
        ((0x30 + d) as u8) as char
    } else {
        ((0x41 + d - 10) as u8) as char
    }
}

/// One byte, percent-encoded.
pub open spec fn percent_encoded_byte(b: u8) -> Seq<char> {
    if is_unreserved(b) {
        seq![b as char]
    } else {
        seq!['%', hex_digit(b / 16), hex_digit(b % 16)]
    }
}

/// A byte string, percent-encoded byte by byte.
pub open spec fn percent_encoded(bytes: Seq<u8>) -> Seq<char>
    decreases bytes.len(),
{
    if bytes.len() == 0 {
        Seq::empty()
    } else {
        percent_encoded(bytes.drop_last()) + percent_encoded_byte(bytes.last())
    }
}

/// The token for a link under a secret: its bytes, sealed, then
/// percent-encoded. `None` where the link has no bytes.
pub open spec fn minted_token(secret: Seq<char>, link: LinkView) -> Option<Seq<char>> {
    match link_bytes(link) {
        Some(bytes) => Some(percent_encoded(encode_utf8(sealed(secret, bytes)))),
        None => None,
    }
}

/// The link to `file` that never expires.
pub open spec fn unexpiring(file: Seq<char>) -> LinkView {
    LinkView { file, expiry: None }
}

/// The link that a request for `file` made at `now` describes: it expires
/// `expiry_secs` seconds after `now`, or never. `None` where that instant
/// does not fit the representation.
pub open spec fn link_for(file: Seq<char>, expiry_secs: Option<u64>, now: Timestamp) -> Option<
    LinkView,
> {
    match expiry_secs {
        None => Some(unexpiring(file)),
        Some(secs) => match now.plus_seconds(secs) {
            Some(expiry) => Some(LinkView { file, expiry: Some(expiry) }),
            None => None,
        },
    }
}

/// The path of a download link: `prefix` followed by the token of `link`.
/// `None` where the link has no token.
pub open spec fn minted_path(secret: Seq<char>, prefix: Seq<char>, link: LinkView) -> Option<
    Seq<char>,
> {
    match minted_token(secret, link) {
        Some(token) => Some(prefix + token),
        None => None,
    }
}

/// The path minted for a request for `file` made at `now`; `None` where the
/// expiry does not fit or the link has no token.
pub open spec fn minted_at(
    secret: Seq<char>,
    prefix: Seq<char>,
    file: Seq<char>,
    expiry_secs: Option<u64>,
    now: Timestamp,
) -> Option<Seq<char>> {
    match link_for(file, expiry_secs, now) {
        Some(link) => minted_path(secret, prefix, link),
        None => None,
    }
}

/// Whether `r` is `expected`, the text taken by its content.
pub open spec fn text_is(r: Option<String>, expected: Option<Seq<char>>) -> bool {
    match r {
        Some(text) => expected == Some(text@),
        None => expected is None,
    }
}

/// The link that `token` holds under `secret`: the token is
/// percent-decoded, decrypted and read back. `None` where a step fails.
pub open spec fn opened(secret: Seq<char>, token: Seq<char>) -> Option<LinkView> {
    match url_decoded(token) {
        None => None,
        Some(text) => match unsealed(secret, text) {
            None => None,
            Some(bytes) => link_parsed(bytes),
        },
    }
}

/// What redeeming `token` at `now` under `secret` gives: the token must
/// open, and the link must not have expired.
pub open spec fn redeemed(secret: Seq<char>, token: Seq<char>, now: Timestamp) -> Result<
    LinkView,
    TokenError,
> {
    match opened(secret, token) {
        None => Err(TokenError::Malformed),
        Some(link) => if link.expired_at(now) {
            Err(TokenError::Expired)
        } else {
            Ok(link)
        },
    }
}

/// Whether `r` is `expected`, the link taken by its content.
pub open spec fn link_is(r: Result<DownloadLinkStructure, TokenError>, expected: Result<
    LinkView,
    TokenError,
>) -> bool {
    match r {
        Ok(link) => expected == Ok::<LinkView, TokenError>(link@),
        Err(error) => expected == Err::<LinkView, TokenError>(error),
    }
}

/// Serialises the file and the expiry with `bincode::serialize`, the expiry
/// as the UTC date-time that `chrono::DateTime::from_timestamp` makes of it.
/// The result is named, not described: `None` where `chrono` has no such
/// date or `bincode` reports an error.
#[verifier::external_body]
fn serialize_link(link: &DownloadLinkStructure) -> (r: Option<Vec<u8>>)
    ensures
        match r {
            Some(bytes) => link_bytes(link@) == Some(bytes@),
            None => link_bytes(link@) is None,
        },
{
    let expiry = match link.expiry {
        Some(t) => Some(chrono::DateTime::<chrono::Utc>::from_timestamp(t.secs, t.nanos)?),
        None => None,
    };
    bincode::serialize(&(link.file.as_str(), expiry)).ok()
}

/// Reads a file and an expiry back with `bincode::deserialize`. The result
/// is named; the one fact claimed of it is that bytes written by
/// [`serialize_link`] are read back as the link they were written for.
#[verifier::external_body]
fn deserialize_link(bytes: &[u8]) -> (r: Option<DownloadLinkStructure>)
    ensures
        match r {
            Some(read) => link_parsed(bytes@) == Some(read@) && forall|link: LinkView|
                #[trigger] link_bytes(link) == Some(bytes@) ==> link == read@,
            None => link_parsed(bytes@) is None && forall|link: LinkView|
                #[trigger] link_bytes(link) != Some(bytes@),
        },
{
    let (file, expiry): (String, Option<chrono::DateTime<chrono::Utc>>) = bincode::deserialize(
        bytes,
    ).ok()?;
    let expiry = match expiry {
        Some(t) => Some(Timestamp { secs: t.timestamp(), nanos: t.timestamp_subsec_nanos() }),
        None => None,
    };
    Some(DownloadLinkStructure { file, expiry })
}

/// Encrypts with `MagicCrypt256::encrypt_bytes_to_base64`, under the cipher
/// that `MagicCrypt256::new` derives from the secret alone. The result is
/// named, not described.
#[verifier::external_body]
fn encrypt_to_base64(secret: &str, data: &[u8]) -> (text: String)
    ensures
        text@ == sealed(secret@, data@),
{
    magic_crypt::MagicCrypt256::new(secret, None::<String>).encrypt_bytes_to_base64(data)
}

/// Decrypts with `MagicCrypt256::decrypt_base64_to_bytes`, under the same
/// cipher as [`encrypt_to_base64`]. The result is named; the one fact
/// claimed of it is that a text sealed under this secret opens to the
/// bytes that were sealed.
#[verifier::external_body]
fn decrypt_base64(secret: &str, text: &str) -> (r: Option<Vec<u8>>)
    ensures
        match r {
            Some(opened) => unsealed(secret@, text@) == Some(opened@) && forall|data: Seq<u8>|
                text@ == #[trigger] sealed(secret@, data) ==> data == opened@,
            None => unsealed(secret@, text@) is None && forall|data: Seq<u8>|
                text@ != #[trigger] sealed(secret@, data),
        },
{
    magic_crypt::MagicCrypt256::new(secret, None::<String>).decrypt_base64_to_bytes(text).ok()
}

/// Percent-encodes with `urlencoding::encode`: every byte of the UTF-8 form
/// of the text but the unreserved ones becomes `%` and two upper-case
/// hexadecimal digits.
#[verifier::external_body]
fn url_encode(text: &str) -> (encoded: String)
    ensures
        encoded@ == percent_encoded(encode_utf8(text@)),
{
    urlencoding::encode(text).into_owned()
}

/// Percent-decodes with `urlencoding::decode`. The result is named; the one
/// fact claimed of it is that the percent-encoding of a text decodes to
/// that text.
#[verifier::external_body]
fn url_decode(text: &str) -> (r: Option<String>)
    ensures
        match r {
            Some(decoded) => url_decoded(text@) == Some(decoded@) && forall|plain: Seq<char>|
                text@ == #[trigger] percent_encoded(encode_utf8(plain)) ==> plain == decoded@,
            None => url_decoded(text@) is None && forall|plain: Seq<char>|
                text@ != #[trigger] percent_encoded(encode_utf8(plain)),
        },
{
    match urlencoding::decode(text) {
        Ok(decoded) => Some(decoded.into_owned()),
        Err(_) => None,
    }
}

/// Mints the path of a download link for `file` as requested at `now`:
/// `prefix` followed by the token. The link expires `expiry_secs` seconds
/// after `now`, or never. `None` where the expiry cannot be represented.
pub fn mint_at(
    secret: &str,
    prefix: &str,
    file: &str,
    expiry_secs: Option<u64>,
    now: Timestamp,
) -> (r: Option<String>)
    ensures
        text_is(r, minted_at(secret@, prefix@, file@, expiry_secs, now)),
{
    let expiry = match expiry_secs {
        Some(secs) => match now.add_seconds(secs) {
            Some(expiry) => Some(expiry),
            None => {
                return None;
            },
        },
        None => None,
    };
    let link = DownloadLinkStructure { file: file.to_owned(), expiry };
    match serialize_link(&link) {
        Some(bytes) => {
            let encrypted = encrypt_to_base64(secret, bytes.as_slice());
            let token = url_encode(encrypted.as_str());
            let mut path = prefix.to_owned();
            path.append(token.as_str());
            Some(path)
        },
        None => None,
    }
}

/// Mints the path of a download link for `file` as requested now. The
/// clock is read once; [`mint_at`] says what is minted for each reading,
/// and the reading is one that the clock can show. A link that never
/// expires does not depend on the reading.
pub fn mint(secret: &str, prefix: &str, file: &str, expiry_secs: Option<u64>) -> (r: Option<
    String,
>)
    ensures
        expiry_secs is None ==> text_is(r, minted_path(secret@, prefix@, unexpiring(file@))),
        exists|now: Timestamp|
            now.is_clock_reading() && #[trigger] text_is(
                r,
                minted_at(secret@, prefix@, file@, expiry_secs, now),
            ),
{
    let now = current_time();
    mint_at(secret, prefix, file, expiry_secs, now)
}

/// Redeems a token at `now`.
///
/// The token is percent-decoded, decrypted under `secret` and read back;
/// where any step fails it is `Malformed`. A link whose expiry lies
/// strictly before `now` is `Expired`; at the expiry itself it still holds.
///
/// A token minted under the same secret always opens to the link it was
/// minted for: it is refused only as expired, and one without an expiry is
/// never refused.
pub fn redeem_at(secret: &str, token: &str, now: Timestamp) -> (r: Result<
    DownloadLinkStructure,
    TokenError,
>)
    ensures
        link_is(r, redeemed(secret@, token@, now)),
        forall|link: LinkView| #[trigger]
            minted_token(secret@, link) == Some(token@) ==> opened(secret@, token@) == Some(
                link,
            ),
{
    let text = match url_decode(token) {
        Some(text) => text,
        None => {
            return Err(TokenError::Malformed);
        },
    };
    let bytes = match decrypt_base64(secret, text.as_str()) {
        Some(bytes) => bytes,
        None => {
            return Err(TokenError::Malformed);
        },
    };
    let link = match deserialize_link(bytes.as_slice()) {
        Some(link) => link,
        None => {
            return Err(TokenError::Malformed);
        },
    };
    match link.expiry {
        Some(expiry) => {
            if now.after(&expiry) {
                return Err(TokenError::Expired);
            }
        },
        None => {},
    }
    Ok(link)
}

/// Redeems a token now. The clock is read once; [`redeem_at`] says what is
/// returned for each reading.
///
/// Whatever the clock says: a token that does not open is `Malformed`, and
/// no other is; one that opens is returned as it is or is `Expired`, and
/// one without an expiry is always returned.
pub fn redeem(secret: &str, token: &str) -> (r: Result<DownloadLinkStructure, TokenError>)
    ensures
        exists|now: Timestamp|
            now.is_clock_reading() && #[trigger] link_is(r, redeemed(secret@, token@, now)),
        match opened(secret@, token@) {
            None => r matches Err(error) && error == TokenError::Malformed,
            Some(link) => match r {
                Ok(read) => read@ == link,
                Err(error) => error == TokenError::Expired && link.expiry is Some,
            },
        },
        forall|link: LinkView| #[trigger]
            minted_token(secret@, link) == Some(token@) ==> opened(secret@, token@) == Some(
                link,
            ),
{
    let now = current_time();
    redeem_at(secret, token, now)
}

/// A token that opens is refused only for its expiry: it is redeemed at
/// every instant up to the expiry, the expiry itself included, and is
/// `Expired` at every instant after it. Without an expiry it is redeemed at
/// every instant.
pub proof fn lemma_opened_token_is_refused_only_after_expiry(
    secret: Seq<char>,
    token: Seq<char>,
    link: LinkView,
    now: Timestamp,
)
    requires
        opened(secret, token) == Some(link),
    ensures
        link.expiry is None ==> redeemed(secret, token, now) == Ok::<LinkView, TokenError>(link),
        link.expiry matches Some(expiry) ==> redeemed(secret, token, now) == if now.is_after(
            expiry,
        ) {
            Err::<LinkView, TokenError>(TokenError::Expired)
        } else {
            Ok::<LinkView, TokenError>(link)
        },
{
}

/// Whether a character can stand in a URL path as it is: an unreserved
/// ASCII character, or the `%` that begins an escape.
pub open spec fn is_url_safe(c: char) -> bool {
    c == '%' || (c as u32 <= 0x7f && is_unreserved(c as u8))
}

/// A percent-encoded text holds nothing but URL-safe characters.
pub proof fn lemma_percent_encoded_is_url_safe(bytes: Seq<u8>)
    ensures
        forall|i: int|
            0 <= i < percent_encoded(bytes).len() ==> is_url_safe(
                #[trigger] percent_encoded(bytes)[i],
            ),
    decreases bytes.len(),
{
    if bytes.len() > 0 {
        lemma_percent_encoded_is_url_safe(bytes.drop_last());
        let b = bytes.last();
        let tail = percent_encoded_byte(b);
        let head = percent_encoded(bytes.drop_last());
        assert forall|i: int| 0 <= i < percent_encoded(bytes).len() implies is_url_safe(
            #[trigger] percent_encoded(bytes)[i],
        ) by {
            if i < head.len() {
                assert(percent_encoded(bytes)[i] == head[i]);
            } else {
                assert(percent_encoded(bytes)[i] == tail[i - head.len()]);
            }
        }
    }
}

/// Every token is URL-safe, whatever the link and the secret.
pub proof fn lemma_token_is_url_safe(secret: Seq<char>, link: LinkView)
    ensures
        minted_token(secret, link) matches Some(token) ==> forall|i: int|
            0 <= i < token.len() ==> is_url_safe(#[trigger] token[i]),
{
    if let Some(bytes) = link_bytes(link) {
        lemma_percent_encoded_is_url_safe(encode_utf8(sealed(secret, bytes)));
    }
}

} // verus!
