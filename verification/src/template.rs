//! The data handling of an off-chain worker: the keys and values it keeps in
//! off-chain storage, and what it makes of the answer to a web request.

use vstd::prelude::*;
use vstd::bytes::spec_u16_to_le_bytes;
use vstd::bytes::spec_u32_to_le_bytes;
use vstd::bytes::spec_u64_to_le_bytes;
use vstd::string::StrSliceExecFns;
use vstd::string::StringSliceAdditionalSpecFns;
use vstd::utf8::decode_utf8;
use vstd::utf8::encode_utf8_decode_utf8;
use vstd::utf8::valid_utf8;

verus! {

/// The number of a block.
pub type BlockNumber = u32;

/// Why a web request gave nothing.
#[derive(Clone, Copy, Debug, PartialEq, Eq)]
pub enum HttpError {
    /// The deadline passed before the answer came.
    DeadlineReached,
    /// The request could not be sent or timed out.
    IoError,
    /// The answer was not the one expected.
    Unknown,
}

/// What is known of an organisation on the code hosting site.
#[derive(Clone, PartialEq, Eq)]
pub struct GithubInfo {
    login: Vec<u8>,
    blog: Vec<u8>,
    public_repos: u32,
}

/// A value that is written to off-chain storage for the worker to find.
#[derive(Clone, Debug, PartialEq, Eq)]
pub struct IndexingData {
    pub name: Vec<u8>,
    pub number: u64,
}

/// The bytes of `node-template::storage::`, with which every key begins.
pub open spec fn key_prefix() -> Seq<u8> {
    seq![
        110u8, 111u8, 100u8, 101u8, 45u8, 116u8, 101u8, 109u8, 112u8, 108u8, 97u8, 116u8,
        101u8, 58u8, 58u8, 115u8, 116u8, 111u8, 114u8, 97u8, 103u8, 101u8, 58u8, 58u8,
    ]
}

/// The bytes of `submit_number_unsigned`, the name under which a submitted
/// number is indexed.
pub open spec fn submit_number_name() -> Seq<u8> {
    seq![
        115u8, 117u8, 98u8, 109u8, 105u8, 116u8, 95u8, 110u8, 117u8, 109u8, 98u8, 101u8,
        114u8, 95u8, 117u8, 110u8, 115u8, 105u8, 103u8, 110u8, 101u8, 100u8,
    ]
}

/// How a length is written in front of what has that length: in one byte
/// below 64, in two bytes below 16384, in four bytes below 1073741824, and
/// in five bytes from there on. The two lowest bits of the first byte tell
/// the cases apart; the other bits hold the length, least significant
/// byte first, and in the last case the four bytes after the first hold it.
pub open spec fn compact_length(length: u32) -> Seq<u8> {
    if length < 64 {
        seq![(4 * length) as u8]
    } else if length < 16384 {
        spec_u16_to_le_bytes((4 * length + 1) as u16)
    } else if length < 1073741824 {
        spec_u32_to_le_bytes((4 * length + 2) as u32)
    } else {
        seq![3u8] + spec_u32_to_le_bytes(length)
    }
}

/// The bytes that stand for a value in off-chain storage: the length of
/// its name, the name, and the number, least significant byte first.
pub open spec fn indexing_bytes(name: Seq<u8>, number: u64) -> Seq<u8> {
    compact_length(name.len() as u32) + name + spec_u64_to_le_bytes(number)
}

/// The character of a decimal digit.
pub open spec fn digit(value: nat) -> char {
    ((48 + value) as u8) as char
}

/// A number written in decimal digits, without leading zeros.
pub open spec fn decimal(number: nat) -> Seq<char>
    decreases number,
{
    if number < 10 {
        seq![digit(number)]
    } else {
        decimal(number / 10).push(digit(number % 10))
    }
}

/// The text that describes an organisation.
pub open spec fn info_text(login: Seq<char>, blog: Seq<char>, public_repos: u32) -> Seq<char> {
    "{ login: "@ + login + ", blog: "@ + blog + ", public_repos: "@ + decimal(public_repos as nat)
        + " }"@
}

/// `parity_scale_codec::Encode::encode` on a block number: its four bytes,
/// least significant first.
#[verifier::external_body]
fn encode_block_number(block_number: BlockNumber) -> (bytes: Vec<u8>)
    ensures
        bytes@ == spec_u32_to_le_bytes(block_number),
{
    parity_scale_codec::Encode::encode(&block_number)
}

/// `parity_scale_codec::Encode::encode` on the pair of a name and a number:
/// the name's length in compact form, the name's bytes, and the number's
/// eight bytes, least significant first. The codec does not encode a name
/// of more than `u32::MAX` bytes.
#[verifier::external_body]
fn encode_name_and_number(name: &Vec<u8>, number: u64) -> (bytes: Vec<u8>)
    requires
        name@.len() <= u32::MAX,
    ensures
        bytes@ == indexing_bytes(name@, number),
{
    parity_scale_codec::Encode::encode(&(name, number))
}

/// `core::str::from_utf8`: the bytes as a text, if they are valid UTF-8.
/// The text has exactly these bytes.
#[verifier::external_body]
fn text_of(bytes: &[u8]) -> (text: Option<&str>)
    ensures
        text is Some <==> valid_utf8(bytes@),
        text matches Some(decoded) ==> decoded.spec_bytes() == bytes@,
{
    core::str::from_utf8(bytes).ok()
}

/// `format!` on the description of an organisation: the fixed words, with
/// the two texts as they are and the number in decimal digits.
#[verifier::external_body]
fn format_info(login: &str, blog: &str, public_repos: u32) -> (text: String)
    ensures
        text@ == info_text(login@, blog@, public_repos),
{
    format!("{{ login: {}, blog: {}, public_repos: {} }}", login, blog, public_repos)
}

/// The bytes of a text.
pub fn de_string_to_bytes(text: &str) -> (bytes: Vec<u8>)
    ensures
        bytes@ == text.spec_bytes(),
{
    text.as_bytes_vec()
}

/// The key under which the worker keeps what belongs to a block: the
/// prefix `node-template::storage::` followed by the block's number as four
/// bytes, least significant first.
pub fn derive_key(block_number: BlockNumber) -> (key: Vec<u8>)
    ensures
        key@ == key_prefix() + spec_u32_to_le_bytes(block_number),
{
    let prefix: [u8; 24] = [
        110, 111, 100, 101, 45, 116, 101, 109, 112, 108, 97, 116, 101, 58, 58, 115, 116, 111, 114,
        97, 103, 101, 58, 58,
    ];
    let mut key: Vec<u8> = Vec::new();
    let mut i: usize = 0;
    while i < 24
        invariant
            i <= 24,
            key@ == prefix@.take(i as int),
        decreases 24 - i,
    {
        key.push(prefix[i]);
        i = i + 1;
        assert(prefix@.take(i as int) =~= prefix@.take(i - 1).push(prefix@[i - 1]));
    }
    assert(prefix@.take(24) =~= key_prefix());
    let mut encoded: Vec<u8> = encode_block_number(block_number);
    key.append(&mut encoded);
    key
}

/// What the answer to the request for an organisation holds: its body as
/// text, if the answer's status is 200 and its body is valid UTF-8.
/// Anything else is an unknown error.
pub fn response_text(code: u16, body: &[u8]) -> (text: Result<&str, HttpError>)
    ensures
        text is Ok <==> code == 200 && valid_utf8(body@),
        text matches Ok(decoded) ==> decoded@ == decode_utf8(body@),
        text matches Err(error) ==> error == HttpError::Unknown,
{
    if code != 200 {
        return Err(HttpError::Unknown);
    }
    match text_of(body) {
        Some(decoded) => {
            proof {
                encode_utf8_decode_utf8(decoded@);
            }
            Ok(decoded)
        },
        None => Err(HttpError::Unknown),
    }
}

impl IndexingData {
    /// The value under which a submitted number is indexed.
    pub fn submit_number(number: u64) -> (data: IndexingData)
        ensures
            data.name@ == submit_number_name(),
            data.number == number,
    {
        let name: [u8; 22] = [
            115, 117, 98, 109, 105, 116, 95, 110, 117, 109, 98, 101, 114, 95, 117, 110, 115, 105,
            103, 110, 101, 100,
        ];
        let mut bytes: Vec<u8> = Vec::new();
        let mut i: usize = 0;
        while i < 22
            invariant
                i <= 22,
                bytes@ == name@.take(i as int),
            decreases 22 - i,
        {
            bytes.push(name[i]);
            i = i + 1;
            assert(name@.take(i as int) =~= name@.take(i - 1).push(name@[i - 1]));
        }
        assert(name@.take(22) =~= submit_number_name());
        IndexingData { name: bytes, number }
    }

    /// The bytes that stand for the value in off-chain storage.
    pub fn encode(&self) -> (bytes: Vec<u8>)
        requires
            self.name@.len() <= u32::MAX,
        ensures
            bytes@ == indexing_bytes(self.name@, self.number),
    {
        encode_name_and_number(&self.name, self.number)
    }
}

impl GithubInfo {
    /// The login of the organisation, as bytes.
    pub closed spec fn login(&self) -> Seq<u8> {
        self.login@
    }

    /// The address of the organisation's blog, as bytes.
    pub closed spec fn blog(&self) -> Seq<u8> {
        self.blog@
    }

    /// How many public repositories the organisation has.
    pub closed spec fn public_repos(&self) -> u32 {
        self.public_repos
    }

    /// What is known of an organisation, from the texts and the number that
    /// the answer held.
    pub fn new(login: &str, blog: &str, public_repos: u32) -> (info: GithubInfo)
        ensures
            info.login() == login.spec_bytes(),
            info.blog() == blog.spec_bytes(),
            info.public_repos() == public_repos,
    {
        GithubInfo {
            login: de_string_to_bytes(login),
            blog: de_string_to_bytes(blog),
            public_repos,
        }
    }

    /// The organisation described in words: `{ login: `, the login, `,
    /// blog: `, the blog, `, public_repos: `, the number in decimal digits,
    /// and ` }`. There is no description where the login or the blog is not
    /// valid UTF-8.
    pub fn describe(&self) -> (text: Option<String>)
        ensures
            text is Some <==> valid_utf8(self.login()) && valid_utf8(self.blog()),
            text matches Some(words) ==> words@ == info_text(
                decode_utf8(self.login()),
                decode_utf8(self.blog()),
                self.public_repos(),
            ),
    {
        match text_of(self.login.as_slice()) {
            None => None,
            Some(login) => match text_of(self.blog.as_slice()) {
                None => None,
                Some(blog) => {
                    proof {
                        encode_utf8_decode_utf8(login@);
                        encode_utf8_decode_utf8(blog@);
                    }
                    Some(format_info(login, blog, self.public_repos))
                },
            },
        }
    }
}

} // verus!
