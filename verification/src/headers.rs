//! Writing propagation fields into an HTTP header map.

use axum::http::{HeaderMap, HeaderName, HeaderValue};
use vstd::prelude::*;
use vstd::utf8::encode_utf8;

verus! {

/// A map of HTTP headers, as the `http` crate has it.
#[verifier::external_type_specification]
#[verifier::external_body]
#[verifier::reject_recursive_types(T)]
pub struct ExHeaderMap<T>(axum::http::HeaderMap<T>);

/// The name of an HTTP header, as the `http` crate has it.
#[verifier::external_type_specification]
#[verifier::external_body]
pub struct ExHeaderName(axum::http::HeaderName);

/// The value of an HTTP header, as the `http` crate has it.
#[verifier::external_type_specification]
#[verifier::external_body]
pub struct ExHeaderValue(axum::http::HeaderValue);

/// What a header map holds: under each header name, in lower case, the values of
/// that header in the order in which they were added.
pub uninterp spec fn header_entries(headers: HeaderMap) -> Map<Seq<u8>, Seq<Seq<u8>>>;

/// The bytes that a header name holds.
pub uninterp spec fn header_name_bytes(name: HeaderName) -> Seq<u8>;

/// The bytes that a header value holds.
pub uninterp spec fn header_value_bytes(value: HeaderValue) -> Seq<u8>;

/// A header map that holds fewer names than this always takes one more.
pub const HEADER_ROOM: usize = 6554;

/// The longest header name, in bytes.
pub const MAX_NAME_LEN: usize = 65535;

/// The header map has no room for another name.
#[derive(Clone, Copy, Debug, PartialEq, Eq, Structural)]
pub struct HeadersFull;

/// The bytes of a token: letters, digits and ``!#$%&'*+-.^_`|~``.
pub open spec fn is_name_byte(b: u8) -> bool {
    ||| ('0' as u8) <= b <= ('9' as u8)
    ||| ('a' as u8) <= b <= ('z' as u8)
    ||| ('A' as u8) <= b <= ('Z' as u8)
    ||| b == '!' as u8 || b == '#' as u8 || b == '$' as u8 || b == '%' as u8 || b == '&' as u8 || b == '\'' as u8
    ||| b == '*' as u8 || b == '+' as u8 || b == '-' as u8 || b == '.' as u8 || b == '^' as u8 || b == '_' as u8
    ||| b == '`' as u8 || b == '|' as u8 || b == '~' as u8
}

/// The byte, in lower case where it is an ASCII letter.
pub open spec fn lower_byte(b: u8) -> u8 {
    if ('A' as u8) <= b <= ('Z' as u8) {
        (b + 32) as u8
    } else {
        b
    }
}

/// The bytes, with ASCII letters in lower case.
pub open spec fn lower_bytes(bytes: Seq<u8>) -> Seq<u8> {
    bytes.map_values(|b: u8| lower_byte(b))
}

/// Whether the bytes can be a header's name.
pub open spec fn is_header_name(bytes: Seq<u8>) -> bool {
    &&& 0 < bytes.len() <= MAX_NAME_LEN
    &&& forall|i: int| 0 <= i < bytes.len() ==> is_name_byte(#[trigger] bytes[i])
}

/// Whether the bytes can be a header's value: no control character but the tab.
pub open spec fn is_header_value(bytes: Seq<u8>) -> bool {
    forall|i: int|
        0 <= i < bytes.len() ==> (#[trigger] bytes[i] >= 32 && bytes[i] != 127 || bytes[i] == 9)
}

/// Whether a propagation field can be written as a header.
pub open spec fn is_header_field(key: Seq<char>, value: Seq<char>) -> bool {
    is_header_name(encode_utf8(key)) && is_header_value(encode_utf8(value))
}

/// The name under which the field `key` is found in a header map.
pub open spec fn field_name(key: Seq<char>) -> Seq<u8> {
    lower_bytes(encode_utf8(key))
}

/// The headers after one propagation field: the field replaces every value of its
/// header, and a field that cannot be written as a header changes nothing.
pub open spec fn with_field(
    entries: Map<Seq<u8>, Seq<Seq<u8>>>,
    key: Seq<char>,
    value: Seq<char>,
) -> Map<Seq<u8>, Seq<Seq<u8>>> {
    if is_header_field(key, value) {
        entries.insert(field_name(key), seq![encode_utf8(value)])
    } else {
        entries
    }
}

/// The headers after a sequence of propagation fields, written one after another.
pub open spec fn with_fields(
    entries: Map<Seq<u8>, Seq<Seq<u8>>>,
    fields: Seq<(Seq<char>, Seq<char>)>,
) -> Map<Seq<u8>, Seq<Seq<u8>>>
    decreases fields.len(),
{
    if fields.len() == 0 {
        entries
    } else {
        with_field(with_fields(entries, fields.drop_last()), fields.last().0, fields.last().1)
    }
}

/// Whether the headers hold the fields before the one at `n`, and none from it on,
/// which is a header field.
pub open spec fn cut_at(
    before: Map<Seq<u8>, Seq<Seq<u8>>>,
    fields: Seq<(Seq<char>, Seq<char>)>,
    n: int,
    after: Map<Seq<u8>, Seq<Seq<u8>>>,
) -> bool {
    &&& 0 <= n < fields.len()
    &&& after == with_fields(before, fields.take(n))
    &&& is_header_field(fields[n].0, fields[n].1)
}

/// Whether the headers hold a run of the fields that ends before some header field.
pub open spec fn cut_short(
    before: Map<Seq<u8>, Seq<Seq<u8>>>,
    fields: Seq<(Seq<char>, Seq<char>)>,
    after: Map<Seq<u8>, Seq<Seq<u8>>>,
) -> bool {
    exists|n: int| #[trigger] cut_at(before, fields, n, after)
}

/// The fields, as texts.
pub open spec fn fields_view(fields: Seq<(String, String)>) -> Seq<(Seq<char>, Seq<char>)> {
    fields.map_values(|field: (String, String)| (field.0@, field.1@))
}

/// `HeaderName::from_bytes`: it accepts one to 65535 token bytes, and the name holds
/// them with ASCII letters in lower case.
#[verifier::external_body]
fn parse_name(key: &[u8]) -> (r: Option<HeaderName>)
    ensures
        r is Some <==> is_header_name(key@),
        r matches Some(name) ==> header_name_bytes(name) == lower_bytes(key@),
{
    HeaderName::from_bytes(key).ok()
}

/// `HeaderValue::from_str`: it accepts a text whose UTF-8 bytes are neither control
/// characters other than the tab nor 127, and the value holds those bytes.
#[verifier::external_body]
fn parse_value(value: &str) -> (r: Option<HeaderValue>)
    ensures
        r is Some <==> is_header_value(encode_utf8(value@)),
        r matches Some(parsed) ==> header_value_bytes(parsed) == encode_utf8(value@),
{
    HeaderValue::from_str(value).ok()
}

/// `HeaderMap::try_insert`: the value replaces all values of that name, and the map
/// stays as it was where it is full. A map holds finitely many names. It is never full
/// below 6554 names: the table of at most 32768 slots is grown past its limit only
/// when all usable slots are taken, or when it is crowded by colliding names and a
/// fifth of the slots is taken. From 6554 names on nothing is said of when the map
/// is full.
#[verifier::external_body]
fn try_insert(headers: &mut HeaderMap, name: HeaderName, value: HeaderValue) -> (inserted: bool)
    ensures
        header_entries(*old(headers)).dom().finite(),
        inserted ==> header_entries(*final(headers)) == header_entries(*old(headers)).insert(
            header_name_bytes(name),
            seq![header_value_bytes(value)],
        ),
        !inserted ==> header_entries(*final(headers)) == header_entries(*old(headers)),
        header_entries(*old(headers)).dom().len() < HEADER_ROOM ==> inserted,
{
    headers.try_insert(name, value).is_ok()
}

/// Writes one propagation field into the headers.
///
/// The field replaces every value of its header. A key that is no header name, or a
/// value that is no header value, is passed over. `Err` is returned, and nothing
/// changed, where the map has no room.
pub fn set_header(headers: &mut HeaderMap, key: &str, value: &str) -> (r: Result<(), HeadersFull>)
    ensures
        r is Ok ==> header_entries(*final(headers)) == with_field(
            header_entries(*old(headers)),
            key@,
            value@,
        ),
        r is Err ==> header_entries(*final(headers)) == header_entries(*old(headers)),
        r is Err ==> is_header_field(key@, value@),
        r is Err ==> header_entries(*old(headers)).dom().len() >= HEADER_ROOM,
        is_header_field(key@, value@) ==> header_entries(*old(headers)).dom().finite(),
{
    if let Some(name) = parse_name(key.as_bytes()) {
        if let Some(parsed) = parse_value(value) {
            if !try_insert(headers, name, parsed) {
                return Err(HeadersFull);
            }
        }
    }
    Ok(())
}

/// Writes propagation fields into the headers, one after another.
///
/// `Err` is returned where the map has no room for a field; the fields before it have
/// then been written, and it and those behind it have not.
pub fn inject_fields(headers: &mut HeaderMap, fields: &Vec<(String, String)>) -> (r: Result<
    (),
    HeadersFull,
>)
    ensures
        r is Ok ==> header_entries(*final(headers)) == with_fields(
            header_entries(*old(headers)),
            fields_view(fields@),
        ),
        r is Err ==> cut_short(
            header_entries(*old(headers)),
            fields_view(fields@),
            header_entries(*final(headers)),
        ),
        r is Err ==> header_entries(*final(headers)).dom().len() >= HEADER_ROOM,
        header_entries(*old(headers)).dom().len() + fields@.len() <= HEADER_ROOM ==> r is Ok,
{
    let ghost before = header_entries(*headers);
    let ghost texts = fields_view(fields@);
    let mut i: usize = 0;
    while i < fields.len()
        invariant
            i <= fields.len(),
            texts == fields_view(fields@),
            before == header_entries(*old(headers)),
            header_entries(*headers) == with_fields(before, texts.take(i as int)),
            header_entries(*headers).dom().len() <= before.dom().len() + i,
        decreases fields.len() - i,
    {
        assert(texts.take(i + 1).drop_last() =~= texts.take(i as int));
        if let Err(full) = set_header(headers, fields[i].0.as_str(), fields[i].1.as_str()) {
            assert(cut_at(before, texts, i as int, header_entries(*headers)));
            return Err(full);
        }
        i += 1;
    }
    assert(texts.take(i as int) =~= texts);
    Ok(())
}

/// Whether one of the fields is written under `name`.
pub open spec fn writes(fields: Seq<(Seq<char>, Seq<char>)>, name: Seq<u8>) -> bool {
    exists|i: int|
        0 <= i < fields.len() && is_header_field((#[trigger] fields[i]).0, fields[i].1)
            && field_name(fields[i].0) == name
}

/// Injection touches no header but those of its fields: every other header keeps its
/// values, and no header is ever removed.
pub proof fn law_injection_keeps_other_headers(
    entries: Map<Seq<u8>, Seq<Seq<u8>>>,
    fields: Seq<(Seq<char>, Seq<char>)>,
    name: Seq<u8>,
)
    ensures
        with_fields(entries, fields).contains_key(name) <==> entries.contains_key(name) || writes(
            fields,
            name,
        ),
        !writes(fields, name) ==> with_fields(entries, fields)[name] == entries[name],
    decreases fields.len(),
{
    if fields.len() > 0 {
        let init = fields.drop_last();
        let last = fields.last();
        law_injection_keeps_other_headers(entries, init, name);
        assert(writes(fields, name) <==> writes(init, name) || is_header_field(last.0, last.1)
            && field_name(last.0) == name) by {
            if writes(fields, name) {
                let i = choose|i: int|
                    0 <= i < fields.len() && is_header_field((#[trigger] fields[i]).0, fields[i].1)
                        && field_name(fields[i].0) == name;
                if i < init.len() {
                    assert(init[i] == fields[i]);
                }
            }
        }
    }
}

/// The header of a field holds the field's value and nothing else, whatever it held
/// before: an inbound header of the same name is overwritten. Of several fields with
/// one name the last one stands.
pub proof fn law_injection_overwrites(
    entries: Map<Seq<u8>, Seq<Seq<u8>>>,
    fields: Seq<(Seq<char>, Seq<char>)>,
    i: int,
)
    requires
        0 <= i < fields.len(),
        is_header_field(fields[i].0, fields[i].1),
        !writes(fields.skip(i + 1), field_name(fields[i].0)),
    ensures
        with_fields(entries, fields).contains_key(field_name(fields[i].0)),
        with_fields(entries, fields)[field_name(fields[i].0)] == seq![encode_utf8(fields[i].1)],
{
    let (key, value) = fields[i];
    let head = fields.take(i + 1);
    let rest = fields.skip(i + 1);
    assert(head.drop_last() =~= fields.take(i));
    let written = with_fields(entries, head);
    assert(fields =~= head + rest);
    lemma_with_fields_concat(entries, head, rest);
    law_injection_keeps_other_headers(written, rest, field_name(key));
}

/// What a field is written under does not depend on what was there: two maps agree on
/// every header of the fields once these are written.
proof fn lemma_written_headers_agree(
    entries1: Map<Seq<u8>, Seq<Seq<u8>>>,
    entries2: Map<Seq<u8>, Seq<Seq<u8>>>,
    fields: Seq<(Seq<char>, Seq<char>)>,
    name: Seq<u8>,
)
    requires
        writes(fields, name),
    ensures
        with_fields(entries1, fields)[name] == with_fields(entries2, fields)[name],
    decreases fields.len(),
{
    let init = fields.drop_last();
    let last = fields.last();
    if !(is_header_field(last.0, last.1) && field_name(last.0) == name) {
        let i = choose|i: int|
            0 <= i < fields.len() && is_header_field((#[trigger] fields[i]).0, fields[i].1)
                && field_name(fields[i].0) == name;
        assert(init[i] == fields[i]);
        lemma_written_headers_agree(entries1, entries2, init, name);
    }
}

/// Injecting the same fields again changes nothing.
pub proof fn law_injection_idempotent(
    entries: Map<Seq<u8>, Seq<Seq<u8>>>,
    fields: Seq<(Seq<char>, Seq<char>)>,
)
    ensures
        with_fields(with_fields(entries, fields), fields) == with_fields(entries, fields),
{
    let once = with_fields(entries, fields);
    let twice = with_fields(once, fields);
    assert forall|name: Seq<u8>|
        (#[trigger] twice.contains_key(name) <==> once.contains_key(name)) && twice[name]
            == once[name] by {
        law_injection_keeps_other_headers(entries, fields, name);
        law_injection_keeps_other_headers(once, fields, name);
        if writes(fields, name) {
            lemma_written_headers_agree(entries, once, fields, name);
        }
    }
    assert(twice =~= once);
}

/// Writing two runs of fields in turn is writing them as one.
pub proof fn lemma_with_fields_concat(
    entries: Map<Seq<u8>, Seq<Seq<u8>>>,
    first: Seq<(Seq<char>, Seq<char>)>,
    second: Seq<(Seq<char>, Seq<char>)>,
)
    ensures
        with_fields(entries, first + second) == with_fields(with_fields(entries, first), second),
    decreases second.len(),
{
    if second.len() > 0 {
        assert((first + second).drop_last() =~= first + second.drop_last());
        lemma_with_fields_concat(entries, first, second.drop_last());
    }
}

/// A byte may occur in a header's name exactly if it is an ASCII letter or digit or one
/// of the fifteen marks of a token.
pub proof fn law_name_bytes(b: u8)
    ensures
        is_name_byte(b) <==> (48 <= b <= 57 || 65 <= b <= 90 || 97 <= b <= 122
            || "!#$%&'*+-.^_`|~"@.contains(b as char)),
{
    reveal_strlit("!#$%&'*+-.^_`|~");
    let marks = "!#$%&'*+-.^_`|~"@;
    assert(marks.len() == 15);
    if is_name_byte(b) && !(48 <= b <= 57 || 65 <= b <= 90 || 97 <= b <= 122) {
        assert(marks[0] == b as char || marks[1] == b as char || marks[2] == b as char || marks[3]
            == b as char || marks[4] == b as char || marks[5] == b as char || marks[6] == b as char
            || marks[7] == b as char || marks[8] == b as char || marks[9] == b as char || marks[10]
            == b as char || marks[11] == b as char || marks[12] == b as char || marks[13]
            == b as char || marks[14] == b as char);
    }
}

/// The name of a field is its key, byte by byte, with the ASCII letters in lower case.
pub proof fn law_field_name(key: Seq<char>, name: Seq<u8>)
    ensures
        field_name(key) == name <==> {
            &&& name.len() == encode_utf8(key).len()
            &&& forall|i: int|
                0 <= i < name.len() ==> #[trigger] name[i] == if 65 <= encode_utf8(key)[i] <= 90 {
                    encode_utf8(key)[i] + 32
                } else {
                    encode_utf8(key)[i] as int
                }
        },
{
    let bytes = encode_utf8(key);
    if name.len() == bytes.len() && forall|i: int|
        0 <= i < name.len() ==> #[trigger] name[i] == if 65 <= bytes[i] <= 90 {
            bytes[i] + 32
        } else {
            bytes[i] as int
        } {
        assert(field_name(key) =~= name);
    }
}

/// The fields as texts are the fields, key and value each, in their order.
pub proof fn law_fields_view(fields: Seq<(String, String)>)
    ensures
        fields_view(fields).len() == fields.len(),
        forall|i: int|
            0 <= i < fields.len() ==> #[trigger] fields_view(fields)[i] == (
                fields[i].0@,
                fields[i].1@,
            ),
{
}

/// Being a header's name and a header's value is enough to be written: a key of one to
/// 65535 token bytes, with a value whose bytes are no control character but the tab,
/// becomes the one value of its header, and no other header changes.
pub proof fn law_header_field_is_written(
    key: &str,
    value: &str,
    name: Seq<u8>,
    r: Result<(), HeadersFull>,
)
    requires
        r is Ok,
        1 <= encode_utf8(key@).len() <= 65535,
        forall|i: int|
            0 <= i < encode_utf8(key@).len() ==> is_name_byte(#[trigger] encode_utf8(key@)[i]),
        forall|i: int|
            0 <= i < encode_utf8(value@).len() ==> (#[trigger] encode_utf8(value@)[i] == 9 || 32
                <= encode_utf8(value@)[i] <= 126 || 128 <= encode_utf8(value@)[i]),
        name.len() == encode_utf8(key@).len(),
        forall|i: int|
            0 <= i < name.len() ==> #[trigger] name[i] == if 65 <= encode_utf8(key@)[i] <= 90 {
                encode_utf8(key@)[i] + 32
            } else {
                encode_utf8(key@)[i] as int
            },
    ensures
        forall|headers: &mut HeaderMap| #[trigger]
            call_ensures(set_header, (headers, key, value), r) ==> header_entries(*final(headers))
                == header_entries(*headers).insert(name, seq![encode_utf8(value@)]),
{
    law_field_name(key@, name);
}

/// Nothing else is written: a key that is empty, too long or no token, or a value with a
/// control character, leaves every header as it is, and that is no error.
pub proof fn law_other_field_is_passed_over(key: &str, value: &str, r: Result<(), HeadersFull>)
    requires
        !(1 <= encode_utf8(key@).len() <= 65535) || (exists|i: int|
            0 <= i < encode_utf8(key@).len() && !is_name_byte(#[trigger] encode_utf8(key@)[i]))
            || (exists|i: int|
            0 <= i < encode_utf8(value@).len() && (#[trigger] encode_utf8(value@)[i] < 32
                || encode_utf8(value@)[i] == 127) && encode_utf8(value@)[i] != 9),
    ensures
        forall|headers: &mut HeaderMap| #[trigger]
            call_ensures(set_header, (headers, key, value), r) ==> r is Ok && header_entries(
                *final(headers),
            ) == header_entries(*headers),
{
}

/// A field is refused only by a map of 6554 names or more, which then stays as it was.
pub proof fn law_refused_field_changes_nothing(key: &str, value: &str, r: Result<(), HeadersFull>)
    requires
        r is Err,
    ensures
        forall|headers: &mut HeaderMap| #[trigger]
            call_ensures(set_header, (headers, key, value), r) ==> header_entries(*final(headers))
                == header_entries(*headers) && header_entries(*headers).dom().len() >= 6554,
{
}

/// Every field that is a header's name with a header's value is in the headers after it
/// was written among others, unless a later field has its name: its header then holds
/// its value and nothing else.
pub proof fn law_each_field_stands(
    entries: Map<Seq<u8>, Seq<Seq<u8>>>,
    fields: Seq<(Seq<char>, Seq<char>)>,
    i: int,
)
    requires
        0 <= i < fields.len(),
        1 <= encode_utf8(fields[i].0).len() <= 65535,
        forall|k: int|
            0 <= k < encode_utf8(fields[i].0).len() ==> is_name_byte(
                #[trigger] encode_utf8(fields[i].0)[k],
            ),
        forall|k: int|
            0 <= k < encode_utf8(fields[i].1).len() ==> (#[trigger] encode_utf8(fields[i].1)[k] == 9
                || 32 <= encode_utf8(fields[i].1)[k] <= 126 || 128 <= encode_utf8(fields[i].1)[k]),
        forall|j: int|
            i < j < fields.len() ==> field_name((#[trigger] fields[j]).0) != field_name(
                fields[i].0,
            ),
    ensures
        with_fields(entries, fields).contains_pair(
            field_name(fields[i].0),
            seq![encode_utf8(fields[i].1)],
        ),
{
    let rest = fields.skip(i + 1);
    assert forall|j: int| 0 <= j < rest.len() implies field_name((#[trigger] rest[j]).0)
        != field_name(fields[i].0) by {
        assert(rest[j] == fields[i + 1 + j]);
    }
    law_injection_overwrites(entries, fields, i);
}

/// A header that no field names keeps what it held, and is not made up.
pub proof fn law_unnamed_header_stays(
    entries: Map<Seq<u8>, Seq<Seq<u8>>>,
    fields: Seq<(Seq<char>, Seq<char>)>,
    name: Seq<u8>,
)
    requires
        forall|j: int|
            0 <= j < fields.len() ==> field_name((#[trigger] fields[j]).0) != name,
    ensures
        with_fields(entries, fields).contains_key(name) <==> entries.contains_key(name),
        with_fields(entries, fields)[name] == entries[name],
{
    law_injection_keeps_other_headers(entries, fields, name);
}

/// A run of fields that was cut short left the headers as the fields before some point
/// do, written one after another.
pub proof fn law_cut_keeps_the_fields_before(
    before: Map<Seq<u8>, Seq<Seq<u8>>>,
    fields: Seq<(Seq<char>, Seq<char>)>,
    after: Map<Seq<u8>, Seq<Seq<u8>>>,
)
    requires
        cut_short(before, fields, after),
    ensures
        exists|n: int|
            0 <= n < fields.len() && after == with_fields(before, #[trigger] fields.take(n)),
{
    let n = choose|n: int| #[trigger] cut_at(before, fields, n, after);
    assert(after == with_fields(before, fields.take(n)));
}

/// Injected fields reach the headers: each field of a header's name and a header's value
/// is the one value of its header, unless a later one has its name.
pub proof fn law_injected_field_stands(
    fields: &Vec<(String, String)>,
    i: int,
    r: Result<(), HeadersFull>,
)
    requires
        r is Ok,
        0 <= i < fields@.len(),
        1 <= encode_utf8(fields@[i].0@).len() <= 65535,
        forall|k: int|
            0 <= k < encode_utf8(fields@[i].0@).len() ==> is_name_byte(
                #[trigger] encode_utf8(fields@[i].0@)[k],
            ),
        forall|k: int|
            0 <= k < encode_utf8(fields@[i].1@).len() ==> (#[trigger] encode_utf8(fields@[i].1@)[k]
                == 9 || 32 <= encode_utf8(fields@[i].1@)[k] <= 126 || 128 <= encode_utf8(
                fields@[i].1@,
            )[k]),
        forall|j: int|
            i < j < fields@.len() ==> field_name((#[trigger] fields@[j]).0@) != field_name(
                fields@[i].0@,
            ),
    ensures
        forall|headers: &mut HeaderMap| #[trigger]
            call_ensures(inject_fields, (headers, fields), r) ==> header_entries(
                *final(headers),
            ).contains_pair(field_name(fields@[i].0@), seq![encode_utf8(fields@[i].1@)]),
{
    let texts = fields_view(fields@);
    law_fields_view(fields@);
    assert forall|j: int| i < j < texts.len() implies field_name((#[trigger] texts[j]).0)
        != field_name(texts[i].0) by {
        assert(texts[j].0 == fields@[j].0@);
    }
    assert forall|headers: &mut HeaderMap| #[trigger]
        call_ensures(inject_fields, (headers, fields), r) implies header_entries(
        *final(headers),
    ).contains_pair(field_name(fields@[i].0@), seq![encode_utf8(fields@[i].1@)]) by {
        law_each_field_stands(header_entries(*headers), texts, i);
    }
}

/// Whether all fields were written or not, a header that none of them names stays as it
/// was.
pub proof fn law_injection_leaves_unnamed_headers(
    fields: &Vec<(String, String)>,
    name: Seq<u8>,
    r: Result<(), HeadersFull>,
)
    requires
        forall|j: int|
            0 <= j < fields@.len() ==> field_name((#[trigger] fields@[j]).0@) != name,
    ensures
        forall|headers: &mut HeaderMap| #[trigger]
            call_ensures(inject_fields, (headers, fields), r) ==> {
                &&& header_entries(*final(headers)).contains_key(name) <==> header_entries(
                    *headers,
                ).contains_key(name)
                &&& header_entries(*final(headers))[name] == header_entries(*headers)[name]
            },
{
    let texts = fields_view(fields@);
    law_fields_view(fields@);
    assert forall|j: int| 0 <= j < texts.len() implies field_name((#[trigger] texts[j]).0)
        != name by {
        assert(texts[j].0 == fields@[j].0@);
    }
    assert forall|headers: &mut HeaderMap| #[trigger]
        call_ensures(inject_fields, (headers, fields), r) implies {
        &&& header_entries(*final(headers)).contains_key(name) <==> header_entries(
            *headers,
        ).contains_key(name)
        &&& header_entries(*final(headers))[name] == header_entries(*headers)[name]
    } by {
        let (before, after) = (header_entries(*headers), header_entries(*final(headers)));
        if r is Err {
            law_cut_keeps_the_fields_before(before, texts, after);
            let n = choose|n: int|
                0 <= n < texts.len() && after == with_fields(before, #[trigger] texts.take(n));
            law_unnamed_header_stays(before, texts.take(n), name);
        } else {
            law_unnamed_header_stays(before, texts, name);
        }
    }
}

/// No field is refused while the names of the map and the fields are 6554 together at
/// most.
pub proof fn law_injection_has_room(fields: &Vec<(String, String)>, r: Result<(), HeadersFull>)
    ensures
        forall|headers: &mut HeaderMap| #[trigger]
            call_ensures(inject_fields, (headers, fields), r) && header_entries(
                *headers,
            ).dom().len() + fields@.len() <= 6554 ==> r is Ok,
{
}

} // verus!
