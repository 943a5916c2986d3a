//! Text encodings: hexadecimal, percent encoding, form bodies, UTF-8 and URLs.
use vstd::prelude::*;
use vstd::string::*;
use vstd::utf8::*;

use crate::params;
use crate::params::{Entry, ParamMap};
use crate::signing;

verus! {

// ---- hexadecimal ----

/// The lowercase hexadecimal digit of a number below sixteen.
pub open spec fn lower_hex(d: int) -> char {
    if d < 10 {
        (48 + d) as char
    } else {
        (87 + d) as char
    }
}

/// Bytes in lowercase hexadecimal, two digits for each, the high one first.
pub open spec fn hex_text(bytes: Seq<u8>) -> Seq<char> {
    Seq::new(
        2 * bytes.len(),
        |i: int|
            lower_hex(
                if i % 2 == 0 {
                    bytes[i / 2] as int / 16
                } else {
                    bytes[i / 2] as int % 16
                },
            ),
    )
}

/// The number that a hexadecimal digit of either case stands for.
pub open spec fn hex_value(c: char) -> Option<int> {
    if '0' <= c <= '9' {
        Some(c as int - 48)
    } else if 'a' <= c <= 'f' {
        Some(c as int - 87)
    } else if 'A' <= c <= 'F' {
        Some(c as int - 55)
    } else {
        None
    }
}

/// The bytes that a text in hexadecimal stands for: none where its length is odd or a
/// character is no hexadecimal digit.
pub open spec fn hex_bytes(text: Seq<char>) -> Option<Seq<u8>> {
    if text.len() % 2 == 0 && forall|i: int|
        0 <= i < text.len() ==> hex_value(#[trigger] text[i]) is Some {
        Some(
            Seq::new(
                text.len() / 2,
                |i: int| (16 * hex_value(text[2 * i])->0 + hex_value(text[2 * i + 1])->0) as u8,
            ),
        )
    } else {
        None
    }
}

/// Reading hexadecimal gives back the bytes that were written.
pub proof fn lemma_hex_round_trip(bytes: Seq<u8>)
    ensures
        hex_bytes(hex_text(bytes)) == Some(bytes),
{
    let text = hex_text(bytes);
    assert forall|i: int| 0 <= i < text.len() implies hex_value(#[trigger] text[i]) is Some by {
        let b = bytes[i / 2] as int;
        assert(0 <= b / 16 < 16 && 0 <= b % 16 < 16);
    }
    let back = hex_bytes(text)->0;
    assert forall|i: int| 0 <= i < bytes.len() implies back[i] == bytes[i] by {
        let b = bytes[i] as int;
        assert(0 <= b / 16 < 16 && 0 <= b % 16 < 16);
        assert((2 * i) / 2 == i && (2 * i + 1) / 2 == i);
        assert(hex_value(text[2 * i]) == Some(b / 16));
        assert(hex_value(text[2 * i + 1]) == Some(b % 16));
    }
    assert(back =~= bytes);
}

#[verifier::external_type_specification]
#[verifier::external_body]
pub struct ExFromHexError(hex::FromHexError);

/// `hex::encode`: writes each byte as two lowercase hexadecimal digits.
#[verifier::external_body]
pub(crate) fn hex_encode(data: &[u8]) -> (r: String)
    ensures
        r@ == hex_text(data@),
{
    hex::encode(data)
}

/// `hex::decode`: reads pairs of hexadecimal digits of either case, and fails exactly on an
/// odd length and on any other character. Which of its errors comes is not stated.
#[verifier::external_body]
pub(crate) fn hex_decode(text: &str) -> (r: Result<Vec<u8>, hex::FromHexError>)
    ensures
        r is Ok <==> hex_bytes(text@) is Some,
        r matches Ok(bytes) ==> Some(bytes@) == hex_bytes(text@),
{
    hex::decode(text)
}

// ---- percent encoding ----

/// Whether percent encoding leaves a byte as it is.
pub open spec fn unreserved(b: u8) -> bool {
    ||| 48 <= b <= 57
    ||| 65 <= b <= 90
    ||| 97 <= b <= 122
    ||| b == 45
    ||| b == 46
    ||| b == 95
    ||| b == 126
}

/// The uppercase hexadecimal digit of a number below sixteen.
pub open spec fn upper_hex(d: int) -> char {
    if d < 10 {
        (48 + d) as char
    } else {
        (55 + d) as char
    }
}

/// A byte in percent encoding: itself, or `%` and two uppercase hexadecimal digits.
pub open spec fn percent_byte(b: u8) -> Seq<char> {
    if unreserved(b) {
        seq![b as char]
    } else {
        seq!['%', upper_hex(b as int / 16), upper_hex(b as int % 16)]
    }
}

/// Bytes in percent encoding, one after the other.
pub open spec fn percent_bytes(bytes: Seq<u8>) -> Seq<char>
    decreases bytes.len(),
{
    if bytes.len() == 0 {
        seq![]
    } else {
        percent_byte(bytes[0]) + percent_bytes(bytes.drop_first())
    }
}

/// A text in percent encoding: that of its UTF-8 bytes.
pub open spec fn percent_text(text: Seq<char>) -> Seq<char> {
    percent_bytes(encode_utf8(text))
}

/// `urlencoding::encode`: percent-encodes every byte of the text but letters, digits, `-`,
/// `_`, `.` and `~`.
#[verifier::external_body]
pub(crate) fn percent_encode(text: &str) -> (r: String)
    ensures
        r@ == percent_text(text@),
{
    urlencoding::encode(text).into_owned()
}

// ---- query strings and form bodies ----

/// An entry as `key=value`, with the value in percent encoding and the key as it is.
pub open spec fn entry_text(entry: Entry) -> Seq<char> {
    entry.0 + seq!['='] + percent_text(entry.1)
}

/// Entries as a query string: `key=value` for each, joined by `&`.
pub open spec fn query_text(entries: Seq<Entry>) -> Seq<char>
    decreases entries.len(),
{
    if entries.len() == 0 {
        seq![]
    } else if entries.len() == 1 {
        entry_text(entries[0])
    } else {
        query_text(entries.drop_last()) + seq!['&'] + entry_text(entries.last())
    }
}

/// Percent encoding takes at most three characters for a byte.
proof fn lemma_percent_length(bytes: Seq<u8>)
    ensures
        percent_bytes(bytes).len() <= 3 * bytes.len(),
    decreases bytes.len(),
{
    if bytes.len() > 0 {
        lemma_percent_length(bytes.drop_first());
    }
}

/// How long a query string can be whose keys and values have at most `n` characters each.
pub proof fn lemma_query_text_length(entries: Seq<Entry>, n: nat)
    requires
        forall|i: int|
            0 <= i < entries.len() ==> (#[trigger] entries[i]).0.len() <= n && entries[i].1.len()
                <= n,
    ensures
        query_text(entries).len() <= entries.len() * (13 * n + 2),
    decreases entries.len(),
{
    if entries.len() > 0 {
        let last = entries[entries.len() - 1];
        signing::lemma_utf8_length(last.1);
        lemma_percent_length(encode_utf8(last.1));
        assert(entry_text(last).len() <= 13 * n + 1);
        if entries.len() > 1 {
            let front = entries.drop_last();
            assert forall|i: int| 0 <= i < front.len() implies (#[trigger] front[i]).0.len() <= n
                && front[i].1.len() <= n by {
                assert(front[i] == entries[i]);
            }
            lemma_query_text_length(front, n);
        }
        assert(entries.len() * (13 * n + 2) == (entries.len() - 1) * (13 * n + 2) + (13 * n + 2))
            by (nonlinear_arith);
    }
}

/// One entry is written as its key, `=` and its value in percent encoding; no entry as nothing;
/// and two lists one after the other as their query strings with `&` between them.
pub proof fn lemma_query_text_joins(a: Seq<Entry>, b: Seq<Entry>, key: Seq<char>, value: Seq<char>)
    ensures
        query_text(Seq::<Entry>::empty()) == Seq::<char>::empty(),
        query_text(seq![(key, value)]) == key + seq!['='] + percent_text(value),
        a.len() > 0 && b.len() > 0 ==> query_text(a + b) == query_text(a) + seq!['&'] + query_text(
            b,
        ),
    decreases b.len(),
{
    if a.len() > 0 && b.len() > 0 {
        let all = a + b;
        assert(all.last() == b.last());
        if b.len() == 1 {
            assert(all.drop_last() =~= a);
        } else {
            lemma_query_text_joins(a, b.drop_last(), key, value);
            assert(all.drop_last() =~= a + b.drop_last());
        }
        assert(query_text(all) =~= query_text(a) + seq!['&'] + query_text(b));
    }
}

/// Writes the entries of a map as a query string, in the order in which the map keeps them.
pub fn query_string(map: &ParamMap) -> (r: String)
    ensures
        r@ == query_text(map.entries()),
{
    let mut out = String::new();
    let ghost all = map.entries();
    let mut i: usize = 0;
    proof {
        reveal_strlit("=");
        reveal_strlit("&");
    }
    while i < map.len()
        invariant
            i <= all.len(),
            all == map.entries(),
            out@ == query_text(all.take(i as int)),
            "="@ == seq!['='],
            "&"@ == seq!['&'],
        decreases all.len() - i,
    {
        assert(all.take(i + 1).drop_last() =~= all.take(i as int));
        if i > 0 {
            out.append("&");
        }
        out.append(map.key(i).as_str());
        out.append("=");
        let value = percent_encode(map.value(i).as_str());
        out.append(value.as_str());
        assert(out@ =~= query_text(all.take(i + 1)));
        i = i + 1;
    }
    assert(all.take(i as int) =~= all);
    out
}

/// Whether a key needs no encoding.
pub open spec fn plain_key(key: Seq<char>) -> bool {
    forall|i: int| 0 <= i < key.len() ==> (#[trigger] key[i]) as int <= 127 && unreserved(key[i] as u8)
}

/// Whether no key needs encoding.
pub open spec fn plain_keys(entries: Seq<Entry>) -> bool {
    forall|i: int| 0 <= i < entries.len() ==> plain_key(#[trigger] entries[i].0)
}

/// The pairs that a form body holds, in the order in which they stand in it, as
/// `serde_urlencoded` reads them.
pub uninterp spec fn form_pairs(body: Seq<u8>) -> Seq<Entry>;

#[verifier::external_type_specification]
#[verifier::external_body]
pub struct ExFormError(serde_urlencoded::de::Error);

/// `serde_urlencoded::from_bytes` into pairs of texts. The pairs are those that `form_pairs`
/// names. Reading into texts never fails: whatever is no UTF-8 is replaced. A query string
/// whose keys need no encoding is read back as the entries that it was written from.
#[verifier::external_body]
pub(crate) fn form_decode(body: &[u8]) -> (r: Result<
    Vec<(String, String)>,
    serde_urlencoded::de::Error,
>)
    ensures
        r is Ok,
        r matches Ok(pairs) ==> params::entries_of(pairs@) == form_pairs(body@),
        forall|entries: Seq<Entry>|
            plain_keys(entries) && body@ == #[trigger] encode_utf8(query_text(entries)) ==> (r matches Ok(
                pairs,
            ) ==> params::entries_of(pairs@) == entries),
{
    serde_urlencoded::from_bytes(body)
}

/// What stands in a percent-encoded text: unreserved characters and `%`.
proof fn lemma_percent_characters(bytes: Seq<u8>)
    ensures
        forall|i: int|
            0 <= i < percent_bytes(bytes).len() ==> (#[trigger] percent_bytes(bytes)[i]) == '%' || (
            percent_bytes(bytes)[i] as int <= 127 && unreserved(percent_bytes(bytes)[i] as u8)),
    decreases bytes.len(),
{
    if bytes.len() > 0 {
        let head = percent_byte(bytes[0]);
        let rest = percent_bytes(bytes.drop_first());
        lemma_percent_characters(bytes.drop_first());
        let b = bytes[0] as int;
        assert(0 <= b / 16 < 16 && 0 <= b % 16 < 16);
        assert forall|i: int| 0 <= i < percent_bytes(bytes).len() implies (
        #[trigger] percent_bytes(bytes)[i]) == '%' || (percent_bytes(bytes)[i] as int <= 127
            && unreserved(percent_bytes(bytes)[i] as u8)) by {
            if i < head.len() {
                assert(percent_bytes(bytes)[i] == head[i]);
            } else {
                assert(percent_bytes(bytes)[i] == rest[i - head.len()]);
            }
        }
    }
}

/// Different bytes have different percent encodings.
proof fn lemma_percent_bytes_injective(a: Seq<u8>, b: Seq<u8>)
    requires
        percent_bytes(a) == percent_bytes(b),
    ensures
        a == b,
    decreases a.len(),
{
    let text = percent_bytes(a);
    if a.len() == 0 {
        if b.len() > 0 {
            assert(percent_bytes(b).len() > 0);
        }
        assert(a =~= b);
    } else {
        assert(text.len() > 0);
        assert(b.len() > 0);
        let x = a[0] as int;
        let y = b[0] as int;
        assert(0 <= x / 16 < 16 && 0 <= x % 16 < 16);
        assert(0 <= y / 16 < 16 && 0 <= y % 16 < 16);
        assert(text[0] == percent_byte(a[0])[0]);
        assert(percent_bytes(b)[0] == percent_byte(b[0])[0]);
        if !unreserved(a[0]) {
            assert(!unreserved(b[0]));
            assert(text[1] == upper_hex(x / 16) && text[2] == upper_hex(x % 16));
            assert(percent_bytes(b)[1] == upper_hex(y / 16));
            assert(percent_bytes(b)[2] == upper_hex(y % 16));
            assert(x / 16 == y / 16 && x % 16 == y % 16);
        }
        assert(a[0] == b[0]);
        let n = percent_byte(a[0]).len();
        assert(text.skip(n as int) =~= percent_bytes(a.drop_first()));
        assert(percent_bytes(b).skip(n as int) =~= percent_bytes(b.drop_first()));
        lemma_percent_bytes_injective(a.drop_first(), b.drop_first());
        assert(a =~= seq![a[0]] + a.drop_first());
        assert(b =~= seq![b[0]] + b.drop_first());
    }
}

/// An entry whose key needs no encoding is written without `&`, and its first `=` ends the
/// key.
proof fn lemma_entry_characters(entry: Entry)
    requires
        plain_key(entry.0),
    ensures
        forall|i: int| 0 <= i < entry_text(entry).len() ==> #[trigger] entry_text(entry)[i] != '&',
        forall|i: int| 0 <= i < entry.0.len() ==> #[trigger] entry_text(entry)[i] != '=',
        entry_text(entry)[entry.0.len() as int] == '=',
        entry_text(entry).len() > entry.0.len(),
{
    let value = percent_text(entry.1);
    lemma_percent_characters(encode_utf8(entry.1));
    let text = entry_text(entry);
    assert forall|i: int| 0 <= i < text.len() implies #[trigger] text[i] != '&' by {
        if i < entry.0.len() {
            assert(text[i] == entry.0[i]);
        } else if i > entry.0.len() {
            assert(text[i] == value[i - entry.0.len() - 1]);
        }
    }
    assert forall|i: int| 0 <= i < entry.0.len() implies #[trigger] text[i] != '=' by {
        assert(text[i] == entry.0[i]);
    }
}

/// An entry whose key needs no encoding is determined by how it is written.
proof fn lemma_entry_text_injective(a: Entry, b: Entry)
    requires
        plain_key(a.0),
        plain_key(b.0),
        entry_text(a) == entry_text(b),
    ensures
        a == b,
{
    lemma_entry_characters(a);
    lemma_entry_characters(b);
    let n = a.0.len() as int;
    if a.0.len() < b.0.len() {
        assert(entry_text(b)[n] != '=');
    } else if b.0.len() < a.0.len() {
        assert(entry_text(a)[b.0.len() as int] != '=');
    }
    assert(a.0 =~= entry_text(a).take(n));
    assert(b.0 =~= entry_text(b).take(n));
    assert(percent_text(a.1) =~= entry_text(a).skip(n + 1));
    assert(percent_text(b.1) =~= entry_text(b).skip(n + 1));
    lemma_percent_bytes_injective(encode_utf8(a.1), encode_utf8(b.1));
    encode_utf8_decode_utf8(a.1);
    encode_utf8_decode_utf8(b.1);
}

/// Where two texts are split at their last `&`, they agree before and after it.
proof fn lemma_split_at_last(x: Seq<char>, s: Seq<char>, y: Seq<char>, t: Seq<char>)
    requires
        x + seq!['&'] + s == y + seq!['&'] + t,
        forall|i: int| 0 <= i < s.len() ==> #[trigger] s[i] != '&',
        forall|i: int| 0 <= i < t.len() ==> #[trigger] t[i] != '&',
    ensures
        x == y,
        s == t,
{
    let whole = x + seq!['&'] + s;
    let other = y + seq!['&'] + t;
    assert(whole == other);
    assert(whole.len() == x.len() + 1 + s.len());
    assert(other.len() == y.len() + 1 + t.len());
    assert(whole[x.len() as int] == '&');
    assert(other[y.len() as int] == '&');
    if x.len() < y.len() {
        assert(whole[y.len() as int] == s[y.len() - x.len() - 1]);
    } else if y.len() < x.len() {
        assert(other[x.len() as int] == t[x.len() - y.len() - 1]);
    }
    assert(x =~= whole.take(x.len() as int));
    assert(y =~= other.take(x.len() as int));
    assert(s =~= whole.skip(x.len() as int + 1));
    assert(t =~= other.skip(x.len() as int + 1));
}

/// A query string determines the entries that it was written from, as long as the keys need
/// no encoding: no two parameter lists are signed as the same text.
pub proof fn lemma_query_text_injective(a: Seq<Entry>, b: Seq<Entry>)
    requires
        plain_keys(a),
        plain_keys(b),
        query_text(a) == query_text(b),
    ensures
        a == b,
    decreases a.len(),
{
    if a.len() > 0 {
        assert(plain_key(a[a.len() - 1].0));
        lemma_entry_characters(a.last());
    }
    if b.len() > 0 {
        assert(plain_key(b[b.len() - 1].0));
        lemma_entry_characters(b.last());
    }
    if a.len() == 0 || b.len() == 0 {
        assert(a.len() > 0 ==> query_text(a).len() > 0);
        assert(b.len() > 0 ==> query_text(b).len() > 0);
        assert(a =~= b);
    } else if a.len() == 1 && b.len() == 1 {
        lemma_entry_text_injective(a[0], b[0]);
        assert(a =~= b);
    } else if a.len() == 1 {
        let n = query_text(b.drop_last()).len() as int;
        assert(query_text(b)[n] == '&');
        assert(entry_text(a[0])[n] != '&');
    } else if b.len() == 1 {
        let n = query_text(a.drop_last()).len() as int;
        assert(query_text(a)[n] == '&');
        assert(entry_text(b[0])[n] != '&');
    } else {
        lemma_split_at_last(
            query_text(a.drop_last()),
            entry_text(a.last()),
            query_text(b.drop_last()),
            entry_text(b.last()),
        );
        assert(plain_keys(a.drop_last())) by {
            assert forall|i: int| 0 <= i < a.drop_last().len() implies plain_key(
                #[trigger] a.drop_last()[i].0,
            ) by {
                assert(a.drop_last()[i] == a[i]);
            }
        }
        assert(plain_keys(b.drop_last())) by {
            assert forall|i: int| 0 <= i < b.drop_last().len() implies plain_key(
                #[trigger] b.drop_last()[i].0,
            ) by {
                assert(b.drop_last()[i] == b[i]);
            }
        }
        lemma_query_text_injective(a.drop_last(), b.drop_last());
        lemma_entry_text_injective(a.last(), b.last());
        assert(a =~= a.drop_last().push(a.last()));
        assert(b =~= b.drop_last().push(b.last()));
    }
}

// ---- UTF-8 ----

/// `String::from_utf8`: the text of bytes that are valid UTF-8.
#[verifier::external_body]
pub(crate) fn text_from_utf8(bytes: Vec<u8>) -> (r: Option<String>)
    ensures
        r is Some <==> valid_utf8(bytes@),
        r matches Some(text) ==> text@ == decode_utf8(bytes@),
{
    String::from_utf8(bytes).ok()
}

// ---- URLs ----

/// What `url` makes of a text: the URL in its serialised form, or nothing where the text is
/// no absolute URL.
pub uninterp spec fn parsed_url(text: Seq<char>) -> Option<Seq<char>>;

#[verifier::external_type_specification]
#[verifier::external_body]
pub struct ExUrlParseError(url::ParseError);

/// `url::Url::parse`: the result is the one that `parsed_url` names. Which of its errors
/// comes is not stated.
#[verifier::external_body]
pub(crate) fn url_parse(text: &str) -> (r: Result<String, url::ParseError>)
    ensures
        r is Ok <==> parsed_url(text@) is Some,
        r matches Ok(url) ==> Some(url@) == parsed_url(text@),
{
    url::Url::parse(text).map(String::from)
}

} // verus!
