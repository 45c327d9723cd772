//! The wire protocol spoken with the conversion engine: one JSON object per
//! request, and for a key request one answer of comma-separated candidates.

use vstd::prelude::*;
use vstd::string::*;
use vstd::utf8::*;

use crate::error::ImeError;
use crate::guid::hex_digit;

verus! {

/// The size of the buffer that one answer of the engine is read into.
pub const RECEIVE_BUFFER_LEN: usize = 4096;

/// The byte that separates two candidates in an answer.
pub const CANDIDATE_SEPARATOR: u8 = 0x2C;

/// What a failed send reports in place of a byte count.
pub const SOCKET_ERROR: i32 = -1;

/// The error of `serde_json`, `serde_json::Error`. It is only carried from
/// the call to the place that turns it into a failure of this library;
/// nothing is read out of it.
#[verifier::external_type_specification]
#[verifier::external_body]
pub struct ExJsonError(serde_json::Error);

/// What stands for one character inside a JSON string: a short escape for
/// the quote, the backslash and five control characters, `\u00` and two
/// hexadecimal digits for the other characters below the space, and the
/// character itself otherwise.
pub open spec fn json_escape(c: char) -> Seq<char> {
    if c == '"' {
        seq!['\\', '"']
    } else if c == '\\' {
        seq!['\\', '\\']
    } else if c == '\u{8}' {
        seq!['\\', 'b']
    } else if c == '\t' {
        seq!['\\', 't']
    } else if c == '\n' {
        seq!['\\', 'n']
    } else if c == '\u{c}' {
        seq!['\\', 'f']
    } else if c == '\r' {
        seq!['\\', 'r']
    } else if (c as u32) < 0x20 {
        seq!['\\', 'u', '0', '0', hex_digit((c as u32) as int / 16), hex_digit((c as u32) as int % 16)]
    } else {
        seq![c]
    }
}

/// A text with each of its characters as it stands inside a JSON string.
pub open spec fn json_escaped(s: Seq<char>) -> Seq<char>
    decreases s.len(),
{
    if s.len() == 0 {
        Seq::empty()
    } else {
        json_escaped(s.drop_last()) + json_escape(s.last())
    }
}

/// The JSON text of a string: its characters, escaped, between two quotes.
pub open spec fn json_text(s: Seq<char>) -> Seq<char> {
    seq!['"'] + json_escaped(s) + seq!['"']
}

/// Calls `serde_json::to_string` on a string slice. For a string the call
/// does not fail: the string hands itself to the serializer, which writes
/// into memory. What it writes is the string between quotes, byte for byte
/// but for the bytes that its table of escapes names: the quote, the
/// backslash, and the bytes below the space.
#[verifier::external_body]
pub(crate) fn json_string(s: &str) -> (r: Result<String, serde_json::Error>)
    ensures
        r is Ok,
        r matches Ok(t) ==> t@ == json_text(s@),
{
    serde_json::to_string(s)
}

/// Calls `String::from_utf8`: the bytes become a string exactly when they are
/// well-formed UTF-8, and the string then holds the characters they encode.
#[verifier::external_body]
pub(crate) fn utf8_string(bytes: Vec<u8>) -> (r: Option<String>)
    ensures
        r is Some <==> valid_utf8(bytes@),
        r matches Some(s) ==> s@ == decode_utf8(bytes@),
{
    match String::from_utf8(bytes) {
        Ok(s) => Some(s),
        Err(_) => None,
    }
}

/// The character of a decimal digit.
pub open spec fn digit_char(d: nat) -> char
    recommends
        d < 10,
{
    if d == 0 {
        '0'
    } else if d == 1 {
        '1'
    } else if d == 2 {
        '2'
    } else if d == 3 {
        '3'
    } else if d == 4 {
        '4'
    } else if d == 5 {
        '5'
    } else if d == 6 {
        '6'
    } else if d == 7 {
        '7'
    } else if d == 8 {
        '8'
    } else {
        '9'
    }
}

/// The decimal numeral of `n`, without leading zeros.
pub open spec fn decimal_text(n: nat) -> Seq<char>
    decreases n,
{
    if n < 10 {
        seq![digit_char(n)]
    } else {
        decimal_text(n / 10).push(digit_char(n % 10))
    }
}

/// The one-character string of a decimal digit.
fn digit_str(d: u8) -> (s: &'static str)
    requires
        d < 10,
    ensures
        s@ == seq![digit_char(d as nat)],
{
    proof {
        reveal_strlit("0");
        reveal_strlit("1");
        reveal_strlit("2");
        reveal_strlit("3");
        reveal_strlit("4");
        reveal_strlit("5");
        reveal_strlit("6");
        reveal_strlit("7");
        reveal_strlit("8");
        reveal_strlit("9");
    }
    let s = if d == 0 {
        "0"
    } else if d == 1 {
        "1"
    } else if d == 2 {
        "2"
    } else if d == 3 {
        "3"
    } else if d == 4 {
        "4"
    } else if d == 5 {
        "5"
    } else if d == 6 {
        "6"
    } else if d == 7 {
        "7"
    } else if d == 8 {
        "8"
    } else {
        "9"
    };
    assert(s@ =~= seq![digit_char(d as nat)]);
    s
}

/// Writes a virtual key code as a decimal numeral.
pub fn decimal(code: u8) -> (text: String)
    ensures
        text@ == decimal_text(code as nat),
{
    let mut text = String::new();
    if code >= 100 {
        text.append(digit_str(code / 100));
        assert(text@ =~= decimal_text((code / 100) as nat));
    }
    if code >= 10 {
        text.append(digit_str((code / 10) % 10));
        assert(text@ =~= decimal_text((code / 10) as nat));
    }
    text.append(digit_str(code % 10));
    assert(text@ =~= decimal_text(code as nat));
    text
}

/// The text of a request, given the JSON texts of its two fields.
pub open spec fn request_text(kind_json: Seq<char>, message_json: Seq<char>) -> Seq<char> {
    "{\"type\":"@ + kind_json + ",\"message\":"@ + message_json + "}"@
}

/// The text of the request that carries `kind` and `message`.
pub open spec fn request_json(kind: Seq<char>, message: Seq<char>) -> Seq<char> {
    request_text(json_text(kind), json_text(message))
}

/// Nothing in the text is escaped inside a JSON string.
pub open spec fn is_plain(s: Seq<char>) -> bool {
    forall|i: int| 0 <= i < s.len() ==> #[trigger] json_escape(s[i]) == seq![s[i]]
}

/// A text in which nothing is escaped is written as it is, between quotes.
pub proof fn lemma_json_text_plain(s: Seq<char>)
    requires
        is_plain(s),
    ensures
        json_escaped(s) == s,
        json_text(s) == seq!['"'] + s + seq!['"'],
    decreases s.len(),
{
    if s.len() == 0 {
        assert(json_escaped(s) =~= s);
    } else {
        let init = s.drop_last();
        assert forall|i: int| 0 <= i < init.len() implies #[trigger] json_escape(init[i]) == seq![
            init[i],
        ] by {
            assert(init[i] == s[i]);
        }
        lemma_json_text_plain(init);
        assert(json_escape(s[s.len() - 1]) == seq![s[s.len() - 1]]);
        assert(json_escaped(s) =~= s);
    }
}

/// A decimal numeral holds digits only, and nothing in it is escaped.
pub proof fn lemma_decimal_is_plain(n: nat)
    ensures
        is_plain(decimal_text(n)),
    decreases n,
{
    if n >= 10 {
        lemma_decimal_is_plain(n / 10);
        let init = decimal_text(n / 10);
        let all = decimal_text(n);
        assert forall|i: int| 0 <= i < all.len() implies #[trigger] json_escape(all[i]) == seq![
            all[i],
        ] by {
            if i < init.len() {
                assert(all[i] == init[i]);
            }
        }
    }
}

/// The request that reports a key press is, for every key code, the object
/// with the type `key` and the code in decimal as its message, both as
/// strings: `{"type":"key","message":"65"}` for the code 65.
pub proof fn lemma_key_request(code: u8)
    ensures
        request_json("key"@, decimal_text(code as nat)) == "{\"type\":\"key\",\"message\":\""@
            + decimal_text(code as nat) + "\"}"@,
{
    reveal_strlit("key");
    reveal_strlit("{\"type\":");
    reveal_strlit(",\"message\":");
    reveal_strlit("}");
    reveal_strlit("{\"type\":\"key\",\"message\":\"");
    reveal_strlit("\"}");
    let digits = decimal_text(code as nat);
    lemma_decimal_is_plain(code as nat);
    lemma_json_text_plain(digits);
    assert(is_plain("key"@));
    lemma_json_text_plain("key"@);
    assert(request_json("key"@, digits) =~= "{\"type\":\"key\",\"message\":\""@ + digits + "\"}"@);
}

/// The request that hands over the text before the caret is, where nothing
/// in the text is escaped, the object with the type `left` and the text as
/// its message.
pub proof fn lemma_left_request(text: Seq<char>)
    requires
        is_plain(text),
    ensures
        request_json("left"@, text) == "{\"type\":\"left\",\"message\":\""@ + text + "\"}"@,
{
    reveal_strlit("left");
    reveal_strlit("{\"type\":");
    reveal_strlit(",\"message\":");
    reveal_strlit("}");
    reveal_strlit("{\"type\":\"left\",\"message\":\"");
    reveal_strlit("\"}");
    lemma_json_text_plain(text);
    assert(is_plain("left"@));
    lemma_json_text_plain("left"@);
    assert(request_json("left"@, text) =~= "{\"type\":\"left\",\"message\":\""@ + text + "\"}"@);
}

/// Puts the two fields of a request, already written as JSON, into the
/// request's object.
pub fn assemble_request(kind_json: &str, message_json: &str) -> (text: String)
    ensures
        text@ == request_text(kind_json@, message_json@),
{
    let mut text = String::from_str("{\"type\":");
    text.append(kind_json);
    text.append(",\"message\":");
    text.append(message_json);
    text.append("}");
    text
}

/// One request to the conversion engine.
#[derive(Debug, PartialEq, Eq)]
pub struct KeyEvent {
    /// What the request is: `key`, `left` or `debug`.
    pub kind: String,
    /// The request's payload.
    pub message: String,
}

impl KeyEvent {
    /// The request that reports a key press: its payload is the virtual key
    /// code in decimal.
    pub fn key(code: u8) -> (event: KeyEvent)
        ensures
            event.kind@ == "key"@,
            event.message@ == decimal_text(code as nat),
    {
        KeyEvent { kind: String::from_str("key"), message: decimal(code) }
    }

    /// The request that hands over the text before the caret.
    pub fn left(text: String) -> (event: KeyEvent)
        ensures
            event.kind@ == "left"@,
            event.message@ == text@,
    {
        KeyEvent { kind: String::from_str("left"), message: text }
    }

    /// The request that carries a diagnostic text. No answer is read for it.
    pub fn debug(message: String) -> (event: KeyEvent)
        ensures
            event.kind@ == "debug"@,
            event.message@ == message@,
    {
        KeyEvent { kind: String::from_str("debug"), message }
    }

    /// The request as JSON text: the object `{"type":..,"message":..}` with
    /// the kind and the message as JSON strings.
    pub fn to_json(&self) -> (text: String)
        ensures
            text@ == request_json(self.kind@, self.message@),
    {
        let kind_json = json_string(self.kind.as_str()).unwrap();
        let message_json = json_string(self.message.as_str()).unwrap();
        assemble_request(kind_json.as_str(), message_json.as_str())
    }

    /// The request as the bytes that go over the channel: its JSON text in
    /// UTF-8.
    pub fn to_bytes(&self) -> (bytes: Vec<u8>)
        ensures
            bytes@ == encode_utf8(request_json(self.kind@, self.message@)),
    {
        self.to_json().as_str().as_bytes_vec()
    }
}

/// The name of the conversion engine's socket, in the directory for
/// temporary files.
pub const SOCKET_FILE: &'static str = "azookey.sock";

/// How many bytes the path in a socket address can take.
pub const SUN_PATH_LEN: usize = 108;

/// A byte as the signed byte that a socket address holds.
pub open spec fn signed_byte(b: u8) -> i8 {
    if b < 128 {
        b as i8
    } else {
        (b as int - 256) as i8
    }
}

/// The path field of the socket address for `path`: the bytes of the path
/// and a zero after them, as many as fit, and zeros up to the field's size.
pub open spec fn sun_path_of(path: Seq<u8>) -> Seq<i8> {
    Seq::new(
        SUN_PATH_LEN as nat,
        |i: int|
            if i < path.len() {
                signed_byte(path[i])
            } else {
                0i8
            },
    )
}

/// Fills the path field of the socket address of the conversion engine. A
/// path that is too long for the field is cut where the field ends.
pub fn sun_path(path: &[u8]) -> (field: Vec<i8>)
    ensures
        field@ == sun_path_of(path@),
{
    let mut field: Vec<i8> = Vec::new();
    let mut i: usize = 0;
    while i < SUN_PATH_LEN
        invariant
            i <= SUN_PATH_LEN,
            field@ == sun_path_of(path@).take(i as int),
        decreases SUN_PATH_LEN - i,
    {
        let unit: i8 = if i < path.len() {
            let b = path[i];
            if b < 128 {
                b as i8
            } else {
                (b as i16 - 256) as i8
            }
        } else {
            0
        };
        field.push(unit);
        assert(field@ =~= sun_path_of(path@).take(i + 1));
        i += 1;
    }
    assert(sun_path_of(path@).take(SUN_PATH_LEN as int) =~= sun_path_of(path@));
    field
}

/// What one send reported: the count of bytes written, or `SOCKET_ERROR`.
pub fn sent(count: i32) -> (r: Result<(), ImeError>)
    ensures
        r is Ok <==> count != SOCKET_ERROR,
        r matches Err(e) ==> e == ImeError::TransportFailed,
{
    if count == SOCKET_ERROR {
        Err(ImeError::TransportFailed)
    } else {
        Ok(())
    }
}

/// What one read brought: the first `count` bytes of `buffer`. A count that
/// is not positive, or that the buffer cannot hold, is a failed read.
pub fn received(buffer: &[u8], count: i32) -> (r: Result<Vec<u8>, ImeError>)
    ensures
        r is Ok <==> 0 < count <= buffer@.len(),
        r matches Ok(answer) ==> answer@ == buffer@.take(count as int),
        r matches Err(e) ==> e == ImeError::TransportFailed,
{
    if count <= 0 || count as usize > buffer.len() {
        return Err(ImeError::TransportFailed);
    }
    let n = count as usize;
    let mut answer: Vec<u8> = Vec::new();
    let mut i: usize = 0;
    while i < n
        invariant
            i <= n <= buffer@.len(),
            answer@ == buffer@.take(i as int),
        decreases n - i,
    {
        answer.push(buffer[i]);
        assert(buffer@.take(i + 1) =~= buffer@.take(i as int).push(buffer@[i as int]));
        i += 1;
    }
    Ok(answer)
}

/// The pieces that `sep` cuts `s` into. There is always at least one piece,
/// and a separator at either end leaves an empty piece there.
pub open spec fn split_on(s: Seq<u8>, sep: u8) -> Seq<Seq<u8>>
    decreases s.len(),
{
    if s.len() == 0 {
        seq![Seq::<u8>::empty()]
    } else {
        let head = split_on(s.drop_last(), sep);
        if s.last() == sep {
            head.push(Seq::<u8>::empty())
        } else {
            head.drop_last().push(head.last().push(s.last()))
        }
    }
}

/// The texts of a sequence of strings.
pub open spec fn texts(v: Seq<String>) -> Seq<Seq<char>> {
    Seq::new(v.len(), |i: int| v[i]@)
}

/// The candidates that an answer holds: the texts of its pieces between
/// commas, in order, or `None` where a piece is not UTF-8.
pub open spec fn candidate_texts(answer: Seq<u8>) -> Option<Seq<Seq<char>>> {
    let pieces = split_on(answer, CANDIDATE_SEPARATOR);
    if forall|i: int| 0 <= i < pieces.len() ==> valid_utf8(#[trigger] pieces[i]) {
        Some(Seq::new(pieces.len(), |i: int| decode_utf8(pieces[i])))
    } else {
        None
    }
}

/// The candidates shown for an answer: those it holds, or none at all where
/// it cannot be decoded.
pub open spec fn shown_candidates(answer: Seq<u8>) -> Seq<Seq<char>> {
    match candidate_texts(answer) {
        Some(c) => c,
        None => Seq::empty(),
    }
}

/// Cutting always leaves at least one piece.
pub proof fn lemma_split_on_nonempty(s: Seq<u8>, sep: u8)
    ensures
        split_on(s, sep).len() >= 1,
    decreases s.len(),
{
    if s.len() > 0 {
        lemma_split_on_nonempty(s.drop_last(), sep);
    }
}

/// The place of the last `sep` in `s`.
pub open spec fn last_separator(s: Seq<u8>, sep: u8) -> Option<int>
    decreases s.len(),
{
    if s.len() == 0 {
        None
    } else if s.last() == sep {
        Some(s.len() - 1)
    } else {
        last_separator(s.drop_last(), sep)
    }
}

/// The last separator is a separator, and none follows it.
pub proof fn lemma_last_separator(s: Seq<u8>, sep: u8)
    ensures
        match last_separator(s, sep) {
            Some(c) => 0 <= c < s.len() && s[c] == sep && forall|i: int|
                c < i < s.len() ==> s[i] != sep,
            None => forall|i: int| 0 <= i < s.len() ==> s[i] != sep,
        },
    decreases s.len(),
{
    if s.len() > 0 && s.last() != sep {
        let init = s.drop_last();
        lemma_last_separator(init, sep);
        assert forall|i: int| 0 <= i < init.len() implies init[i] == s[i] by {}
    }
}

/// Text without a separator is one piece; other text is cut at its last
/// separator into the pieces before it and the piece behind it.
pub proof fn lemma_split_on_last(s: Seq<u8>, sep: u8)
    ensures
        match last_separator(s, sep) {
            Some(c) => split_on(s, sep) == split_on(s.take(c), sep).push(s.skip(c + 1)),
            None => split_on(s, sep) == seq![s],
        },
    decreases s.len(),
{
    if s.len() == 0 {
        assert(s =~= Seq::<u8>::empty());
    } else if s.last() == sep {
        assert(s.take(s.len() - 1) =~= s.drop_last());
        assert(s.skip(s.len() as int) =~= Seq::<u8>::empty());
    } else {
        let init = s.drop_last();
        lemma_split_on_last(init, sep);
        lemma_last_separator(init, sep);
        match last_separator(init, sep) {
            Some(c) => {
                let head = split_on(init, sep);
                assert(head.drop_last() =~= split_on(init.take(c), sep));
                assert(init.take(c) =~= s.take(c));
                assert(init.skip(c + 1).push(s.last()) =~= s.skip(c + 1));
            },
            None => {
                let head = split_on(init, sep);
                assert(head.drop_last() =~= Seq::<Seq<u8>>::empty());
                assert(init.push(s.last()) =~= s);
                assert(split_on(s, sep) =~= seq![s]);
            },
        }
    }
}

/// No piece holds a separator.
pub proof fn lemma_split_on_pieces(s: Seq<u8>, sep: u8)
    ensures
        forall|i: int, j: int|
            0 <= i < split_on(s, sep).len() && 0 <= j < split_on(s, sep)[i].len() ==> split_on(
                s,
                sep,
            )[i][j] != sep,
    decreases s.len(),
{
    lemma_split_on_last(s, sep);
    lemma_last_separator(s, sep);
    match last_separator(s, sep) {
        Some(c) => {
            lemma_split_on_pieces(s.take(c), sep);
            let before = split_on(s.take(c), sep);
            assert forall|i: int, j: int|
                0 <= i < split_on(s, sep).len() && 0 <= j < split_on(s, sep)[i].len() implies split_on(
                s,
                sep,
            )[i][j] != sep by {
                if i < before.len() {
                    assert(split_on(s, sep)[i] == before[i]);
                }
            }
        },
        None => {},
    }
}

/// A comma alone is UTF-8 and encodes the comma.
proof fn lemma_comma_is_utf8()
    ensures
        valid_utf8(seq![CANDIDATE_SEPARATOR]),
        decode_utf8(seq![CANDIDATE_SEPARATOR]) == seq![','],
{
    let comma = seq![CANDIDATE_SEPARATOR];
    assert(comma[0] == 0x2Cu8);
    assert(valid_first_scalar(comma));
    assert(pop_first_scalar(comma) =~= Seq::<u8>::empty());
    assert(valid_utf8(Seq::<u8>::empty()));
    assert(valid_utf8(comma));
    assert(decode_utf8(Seq::<u8>::empty()) =~= Seq::<char>::empty());
    assert(0x2Cu8 & 0x7F == 0x2Cu8) by (bit_vector);
    assert(decode_first_scalar(comma) == 0x2Cu32);
    assert((0x2Cu32 as char) == ',');
    assert(decode_utf8(comma) =~= seq![','] + decode_utf8(pop_first_scalar(comma)));
    assert(decode_utf8(comma) =~= seq![',']);
}

/// UTF-8 text with a comma at `c` is UTF-8 on both sides of the comma, and
/// encodes what the two sides encode, with a comma between.
proof fn lemma_utf8_around_comma(s: Seq<u8>, c: int)
    requires
        0 <= c < s.len(),
        s[c] == CANDIDATE_SEPARATOR,
        valid_utf8(s),
    ensures
        valid_utf8(s.take(c)),
        valid_utf8(s.skip(c + 1)),
        decode_utf8(s) == decode_utf8(s.take(c)) + seq![','] + decode_utf8(s.skip(c + 1)),
{
    vstd::utf8::is_char_boundary_iff_not_is_continuation_byte(s, c);
    vstd::utf8::valid_utf8_split(s, c);
    vstd::utf8::decode_utf8_split(s, c);
    let tail = s.subrange(c, s.len() as int);
    assert(s.subrange(0, c) =~= s.take(c));
    assert(tail[0] == 0x2Cu8);
    assert(valid_first_scalar(tail));
    assert(pop_first_scalar(tail) =~= s.skip(c + 1));
    assert(0x2Cu8 & 0x7F == 0x2Cu8) by (bit_vector);
    assert(decode_first_scalar(tail) == 0x2Cu32);
    assert((0x2Cu32 as char) == ',');
    assert(decode_utf8(tail) =~= seq![','] + decode_utf8(s.skip(c + 1)));
    assert(decode_utf8(s) =~= decode_utf8(s.take(c)) + seq![','] + decode_utf8(s.skip(c + 1)));
}

/// Two UTF-8 texts with a comma between them are UTF-8.
proof fn lemma_utf8_with_comma(before: Seq<u8>, behind: Seq<u8>)
    requires
        valid_utf8(before),
        valid_utf8(behind),
    ensures
        valid_utf8(before + seq![CANDIDATE_SEPARATOR] + behind),
{
    lemma_comma_is_utf8();
    vstd::utf8::valid_utf8_concat(before, seq![CANDIDATE_SEPARATOR]);
    vstd::utf8::valid_utf8_concat(before + seq![CANDIDATE_SEPARATOR], behind);
}

/// Every piece of the answer is UTF-8.
pub open spec fn pieces_are_utf8(answer: Seq<u8>) -> bool {
    forall|i: int|
        0 <= i < split_on(answer, CANDIDATE_SEPARATOR).len() ==> valid_utf8(
            #[trigger] split_on(answer, CANDIDATE_SEPARATOR)[i],
        )
}

/// The answer is UTF-8 exactly when each of its pieces is.
pub proof fn lemma_pieces_of_utf8(answer: Seq<u8>)
    ensures
        pieces_are_utf8(answer) <==> valid_utf8(answer),
    decreases answer.len(),
{
    let sep = CANDIDATE_SEPARATOR;
    let pieces = split_on(answer, sep);
    lemma_split_on_last(answer, sep);
    lemma_last_separator(answer, sep);
    match last_separator(answer, sep) {
        None => {
            assert(pieces[0] == answer);
        },
        Some(c) => {
            let before = answer.take(c);
            let behind = answer.skip(c + 1);
            let first = split_on(before, sep);
            lemma_pieces_of_utf8(before);
            assert(pieces[first.len() as int] == behind);
            assert forall|i: int| 0 <= i < first.len() implies pieces[i] == first[i] by {}
            if valid_utf8(answer) {
                lemma_utf8_around_comma(answer, c);
                assert(pieces_are_utf8(before));
                assert forall|i: int| 0 <= i < pieces.len() implies valid_utf8(
                    #[trigger] pieces[i],
                ) by {
                    if i < first.len() {
                        assert(valid_utf8(first[i]));
                    }
                }
            }
            if pieces_are_utf8(answer) {
                assert forall|i: int| 0 <= i < first.len() implies valid_utf8(
                    #[trigger] first[i],
                ) by {
                    assert(valid_utf8(pieces[i]));
                }
                assert(valid_utf8(pieces[first.len() as int]));
                lemma_utf8_with_comma(before, behind);
                assert(answer =~= before + seq![sep] + behind);
            }
        },
    }
}

/// An answer has candidates exactly when it is UTF-8, and its candidates
/// are then the text that it encodes, cut at the commas: joined by commas
/// they give that text back.
pub proof fn lemma_candidates_of_utf8(answer: Seq<u8>)
    ensures
        candidate_texts(answer) is Some <==> valid_utf8(answer),
        valid_utf8(answer) ==> crate::ui::joined(candidate_texts(answer)->0, ","@) == decode_utf8(
            answer,
        ),
    decreases answer.len(),
{
    let sep = CANDIDATE_SEPARATOR;
    let pieces = split_on(answer, sep);
    lemma_pieces_of_utf8(answer);
    if valid_utf8(answer) {
        let shown = candidate_texts(answer)->0;
        lemma_split_on_last(answer, sep);
        lemma_last_separator(answer, sep);
        match last_separator(answer, sep) {
            None => {
                assert(pieces[0] == answer);
                assert(shown =~= seq![decode_utf8(answer)]);
            },
            Some(c) => {
                let before = answer.take(c);
                let behind = answer.skip(c + 1);
                let first = split_on(before, sep);
                lemma_utf8_around_comma(answer, c);
                lemma_candidates_of_utf8(before);
                lemma_split_on_nonempty(before, sep);
                let shown_before = candidate_texts(before)->0;
                assert(pieces[first.len() as int] == behind);
                assert forall|i: int| 0 <= i < first.len() implies pieces[i] == first[i] by {}
                assert(shown.drop_last() =~= shown_before);
                assert(shown.last() == decode_utf8(behind));
                assert(","@ =~= seq![',']) by {
                    reveal_strlit(",");
                }
                assert(crate::ui::joined(shown, ","@) == crate::ui::joined(shown_before, ","@)
                    + ","@ + decode_utf8(behind));
            },
        }
    }
}

/// Reads the candidates out of an answer of the conversion engine: the answer
/// is cut at every comma and each piece is decoded as UTF-8. Fails with
/// `DecodeFailed` exactly where the answer is not UTF-8.
pub fn parse_candidates(answer: &[u8]) -> (r: Result<Vec<String>, ImeError>)
    ensures
        r is Ok <==> valid_utf8(answer@),
        match r {
            Ok(c) => candidate_texts(answer@) == Some(texts(c@)),
            Err(e) => e == ImeError::DecodeFailed && candidate_texts(answer@) is None,
        },
{
    proof {
        lemma_candidates_of_utf8(answer@);
    }
    let mut out: Vec<String> = Vec::new();
    let mut piece: Vec<u8> = Vec::new();
    let mut ok = true;
    let ghost mut done: Seq<Seq<u8>> = Seq::empty();
    let mut i: usize = 0;
    while i < answer.len()
        invariant
            i <= answer@.len(),
            split_on(answer@.take(i as int), CANDIDATE_SEPARATOR) == done.push(piece@),
            ok <==> forall|j: int| 0 <= j < done.len() ==> valid_utf8(#[trigger] done[j]),
            ok ==> out@.len() == done.len(),
            ok ==> forall|j: int| 0 <= j < done.len() ==> (#[trigger] out@[j])@ == decode_utf8(done[j]),
        decreases answer@.len() - i,
    {
        let b = answer[i];
        proof {
            let next = answer@.take(i + 1);
            assert(next.drop_last() =~= answer@.take(i as int));
            assert(next.last() == b);
            assert(done.push(piece@).drop_last() =~= done);
        }
        if b == CANDIDATE_SEPARATOR {
            let ghost finished = piece@;
            let ghost before = done;
            let ghost was_ok = ok;
            match utf8_string(piece) {
                Some(text) => {
                    out.push(text);
                },
                None => {
                    ok = false;
                },
            }
            piece = Vec::new();
            proof {
                done = before.push(finished);
                if !was_ok {
                    let j = choose|j: int| 0 <= j < before.len() && !valid_utf8(#[trigger] before[j]);
                    assert(done[j] == before[j]);
                } else if !valid_utf8(finished) {
                    assert(done[before.len() as int] == finished);
                } else {
                    assert forall|j: int| 0 <= j < done.len() implies valid_utf8(
                        #[trigger] done[j],
                    ) by {
                        if j < before.len() {
                            assert(done[j] == before[j]);
                        }
                    }
                }
            }
        } else {
            piece.push(b);
        }
        i += 1;
    }
    assert(answer@.take(i as int) =~= answer@);
    let ghost last = piece@;
    let ghost pieces = done.push(last);
    match utf8_string(piece) {
        Some(text) => {
            out.push(text);
        },
        None => {
            ok = false;
        },
    }
    if ok {
        proof {
            assert forall|j: int| 0 <= j < pieces.len() implies valid_utf8(#[trigger] pieces[j]) by {
                if j < done.len() {
                    assert(pieces[j] == done[j]);
                }
            }
            assert(texts(out@) =~= Seq::new(pieces.len(), |k: int| decode_utf8(pieces[k]))) by {
                assert forall|j: int| 0 <= j < pieces.len() implies (#[trigger] out@[j])@
                    == decode_utf8(pieces[j]) by {
                    if j < done.len() {
                        assert(pieces[j] == done[j]);
                    }
                }
            }
        }
        Ok(out)
    } else {
        proof {
            if valid_utf8(last) {
                let j = choose|j: int| 0 <= j < done.len() && !valid_utf8(#[trigger] done[j]);
                assert(pieces[j] == done[j]);
            } else {
                assert(pieces[done.len() as int] == last);
            }
        }
        Err(ImeError::DecodeFailed)
    }
}

/// The candidates to show for an answer of the conversion engine: those it
/// holds, or none where it cannot be decoded.
pub fn candidates(answer: &[u8]) -> (c: Vec<String>)
    ensures
        texts(c@) == shown_candidates(answer@),
{
    match parse_candidates(answer) {
        Ok(c) => c,
        Err(_) => {
            let c: Vec<String> = Vec::new();
            assert(texts(c@) =~= Seq::<Seq<char>>::empty());
            c
        },
    }
}

} // verus!
