//! The addresses and identifiers that the chat transport's API takes, and
//! the order in which its answers are worked through.

use crate::text::{join2, join3, slice_chars};
use crate::types::{option_text, BlueBubblesMessage};
use vstd::prelude::*;

verus! {

/// How many conversations one query asks for.
pub const CHAT_QUERY_LIMIT: u32 = 500;

/// How many messages one query asks for.
pub const MESSAGE_QUERY_LIMIT: u32 = 50;

/// The endpoint that lists conversations.
pub const CHAT_QUERY_ENDPOINT: &'static str = "/chat/query";

/// The endpoint that lists messages.
pub const MESSAGE_QUERY_ENDPOINT: &'static str = "/message/query";

/// The endpoint that sends a text.
pub const SEND_TEXT_ENDPOINT: &'static str = "/message/text";

/// The endpoint that sends a file.
pub const SEND_ATTACHMENT_ENDPOINT: &'static str = "/message/attachment";

/// How long a request to the transport may take, in seconds.
pub const TRANSPORT_TIMEOUT_SECS: u64 = 30;

/// The order in which conversations are listed.
pub const CHAT_SORT: &'static str = "lastmessage";

/// The order in which messages are listed: newest first.
pub const MESSAGE_SORT: &'static str = "DESC";

/// What a conversation is listed with.
pub const CHAT_WITH_LAST_MESSAGE: &'static str = "lastMessage";

/// The media type under which a picture is sent.
pub const ATTACHMENT_MIME: &'static str = "image/png";

/// How many characters of a random identifier go into a temporary message
/// id.
pub const TEMP_GUID_SUFFIX_LEN: usize = 9;

/// The hyphenated lowercase text that `uuid` writes for the identifier
/// with the number `id`.
pub uninterp spec fn uuid_text_of(id: u128) -> Seq<char>;

/// The character of a decimal digit.
pub open spec fn digit_char(d: int) -> char {
    if d == 0 {
        '0'
    } else if d == 1 {
        '1'
    } else if d == 2 {
        '2'
    } else if d == 3 {
        '3'
    } else if d == 4 {
        '4'
    } else if d == 5 {
        '5'
    } else if d == 6 {
        '6'
    } else if d == 7 {
        '7'
    } else if d == 8 {
        '8'
    } else {
        '9'
    }
}

/// The decimal digits of a natural number, without leading zeros.
pub open spec fn natural_text(n: nat) -> Seq<char>
    decreases n,
{
    if n < 10 {
        seq![digit_char(n as int)]
    } else {
        natural_text(n / 10).push(digit_char((n % 10) as int))
    }
}

/// The decimal text of an integer: a minus sign for a negative number,
/// then the digits of its magnitude.
pub open spec fn decimal_of(n: i64) -> Seq<char> {
    if n < 0 {
        seq!['-'] + natural_text((-n) as nat)
    } else {
        natural_text(n as nat)
    }
}

/// The text of a decimal digit.
fn digit_text(d: u64) -> (r: &'static str)
    requires
        d < 10,
    ensures
        r@ == seq![digit_char(d as int)],
{
    proof {
        reveal_strlit("0");
        reveal_strlit("1");
        reveal_strlit("2");
        reveal_strlit("3");
        reveal_strlit("4");
        reveal_strlit("5");
        reveal_strlit("6");
        reveal_strlit("7");
        reveal_strlit("8");
        reveal_strlit("9");
    }
    let r = if d == 0 {
        "0"
    } else if d == 1 {
        "1"
    } else if d == 2 {
        "2"
    } else if d == 3 {
        "3"
    } else if d == 4 {
        "4"
    } else if d == 5 {
        "5"
    } else if d == 6 {
        "6"
    } else if d == 7 {
        "7"
    } else if d == 8 {
        "8"
    } else {
        "9"
    };
    assert(r@ =~= seq![digit_char(d as int)]);
    r
}

/// The decimal text of an integer.
pub fn decimal(n: i64) -> (r: String)
    ensures
        r@ == decimal_of(n),
{
    let magnitude: u64 = if n < 0 {
        (-(n as i128)) as u64
    } else {
        n as u64
    };
    let mut digits: String = digit_text(magnitude % 10).to_owned();
    let mut rest: u64 = magnitude / 10;
    while rest > 0
        invariant
            natural_text(magnitude as nat) == if rest > 0 {
                natural_text(rest as nat) + digits@
            } else {
                digits@
            },
        decreases rest,
    {
        let ghost before = digits@;
        digits = join2(digit_text(rest % 10), digits.as_str());
        assert(natural_text(rest as nat) + before =~= if rest / 10 > 0 {
            natural_text((rest / 10) as nat) + digits@
        } else {
            digits@
        });
        rest = rest / 10;
    }
    if n < 0 {
        proof {
            reveal_strlit("-");
        }
        let r = join2("-", digits.as_str());
        assert(r@ =~= seq!['-'] + digits@);
        r
    } else {
        digits
    }
}

/// Makes the identifier with `uuid::Uuid::from_u128` and writes it out
/// with its `to_string`. The contract only names the result.
#[verifier::external_body]
fn uuid_text(id: u128) -> (r: String)
    ensures
        r@ == uuid_text_of(id),
{
    uuid::Uuid::from_u128(id).to_string()
}

/// The address of an endpoint: the base address, the API's path, the
/// endpoint, and the password as a query where there is one.
pub open spec fn url_of(
    base_url: Seq<char>,
    password: Option<Seq<char>>,
    endpoint: Seq<char>,
) -> Seq<char> {
    base_url + "/api/v1"@ + endpoint + match password {
        Some(p) => "?password="@ + p,
        None => Seq::<char>::empty(),
    }
}

/// The address of an endpoint.
pub fn build_url(base_url: &str, password: &Option<String>, endpoint: &str) -> (r: String)
    ensures
        r@ == url_of(base_url@, option_text(*password), endpoint@),
{
    let head = join3(base_url, "/api/v1", endpoint);
    match password {
        Some(p) => join3(head.as_str(), "?password=", p.as_str()),
        None => {
            assert(head@ + Seq::<char>::empty() =~= head@);
            head
        },
    }
}

/// The first `n` characters of `s`, or all of `s` if it has fewer.
pub open spec fn take_chars(s: Seq<char>, n: int) -> Seq<char> {
    if s.len() > n {
        s.subrange(0, n)
    } else {
        s
    }
}

/// The temporary id of an outgoing message, made of the time and the
/// beginning of a random identifier's text.
pub open spec fn temp_guid_of(now_text: Seq<char>, id_text: Seq<char>) -> Seq<char> {
    "temp-"@ + now_text + "-"@ + take_chars(id_text, TEMP_GUID_SUFFIX_LEN as int)
}

/// The temporary id of an outgoing message, given the texts of the time
/// and of a random identifier.
pub fn temp_guid_from(now_text: &str, id_text: &str) -> (r: String)
    ensures
        r@ == temp_guid_of(now_text@, id_text@),
{
    let n: usize = id_text.unicode_len();
    let suffix = if n > TEMP_GUID_SUFFIX_LEN {
        slice_chars(id_text, 0, TEMP_GUID_SUFFIX_LEN)
    } else {
        assert(id_text@.subrange(0, n as int) =~= id_text@);
        slice_chars(id_text, 0, n)
    };
    let head = join3("temp-", now_text, "-");
    join2(head.as_str(), suffix.as_str())
}

/// The temporary id of a message sent at `now` (milliseconds since the
/// Unix epoch), made with the random identifier `id`.
pub fn temp_guid(now: i64, id: u128) -> (r: String)
    ensures
        r@ == temp_guid_of(decimal_of(now), uuid_text_of(id)),
{
    let now_text = decimal(now);
    let id_text = uuid_text(id);
    temp_guid_from(now_text.as_str(), id_text.as_str())
}

/// The temporary id of a message sent now, made with a fresh random
/// identifier. Whatever the clock and the identifier are, the id is made
/// of them as [`temp_guid_of`] says.
pub fn fresh_temp_guid() -> (r: String)
    ensures
        exists|now: i64, id: u128|
            r@ == temp_guid_of(decimal_of(now), uuid_text_of(id)) && crate::types::is_random_uuid(
                id,
            ),
{
    let now: i64 = crate::clock::now_millis();
    let id: u128 = crate::types::random_uuid();
    temp_guid(now, id)
}

/// The messages in the order in which they are worked through: the
/// transport lists the newest first, polling takes the oldest first.
pub fn oldest_first(messages: Vec<BlueBubblesMessage>) -> (r: Vec<BlueBubblesMessage>)
    ensures
        r@ == messages@.reverse(),
{
    let ghost all = messages@;
    let mut rest = messages;
    let mut r: Vec<BlueBubblesMessage> = Vec::new();
    while rest.len() > 0
        invariant
            rest@.len() + r@.len() == all.len(),
            rest@ == all.subrange(0, rest@.len() as int),
            forall|k: int| 0 <= k < r@.len() ==> r@[k] == all[all.len() - 1 - k],
        decreases rest@.len(),
    {
        let m = rest.pop().unwrap();
        r.push(m);
    }
    assert(r@ =~= all.reverse());
    r
}

/// The entries of an answer, none where the answer carries no data.
pub fn entries_or_none<T>(data: Option<Vec<T>>) -> (r: Vec<T>)
    ensures
        r@ == match data {
            Some(entries) => entries@,
            None => Seq::<T>::empty(),
        },
{
    match data {
        Some(entries) => entries,
        None => Vec::new(),
    }
}

} // verus!
