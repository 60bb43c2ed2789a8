//! Query strings in the `application/x-www-form-urlencoded` syntax.
//!
//! The writing itself is done by `form_urlencoded::Serializer`. This module
//! states what that serializer writes and builds on it a writer whose output
//! is known pair by pair.

use form_urlencoded::Serializer;
use vstd::prelude::*;
use vstd::utf8::*;

verus! {

/// Whether the byte serializer copies this byte as it is: an ASCII letter or
/// digit, or one of `*`, `-`, `.` and `_`.
pub open spec fn byte_unchanged(byte: u8) -> bool {
    ||| byte == '*' as u8
    ||| byte == '-' as u8
    ||| byte == '.' as u8
    ||| ('0' as u8 <= byte && byte <= '9' as u8)
    ||| ('A' as u8 <= byte && byte <= 'Z' as u8)
    ||| byte == '_' as u8
    ||| ('a' as u8 <= byte && byte <= 'z' as u8)
}

/// The upper-case hexadecimal digit for `n`.
pub open spec fn hex_char(n: nat) -> char
    recommends
        n < 16,
{
    if n < 10 {
        crate::text::digit_char(n)
    } else if n == 10 {
        'A'
    } else if n == 11 {
        'B'
    } else if n == 12 {
        'C'
    } else if n == 13 {
        'D'
    } else if n == 14 {
        'E'
    } else {
        'F'
    }
}

/// What the byte serializer writes for one byte: the byte itself where it is
/// left unchanged, `+` for a space, and otherwise `%` with the byte's two
/// upper-case hexadecimal digits.
pub open spec fn serialized_byte(byte: u8) -> Seq<char> {
    if byte_unchanged(byte) {
        seq![byte as char]
    } else if byte == ' ' as u8 {
        seq!['+']
    } else {
        seq!['%', hex_char((byte / 16) as nat), hex_char((byte % 16) as nat)]
    }
}

/// What the byte serializer writes for a run of bytes.
pub open spec fn serialized_bytes(bytes: Seq<u8>) -> Seq<char>
    decreases bytes.len(),
{
    if bytes.len() == 0 {
        Seq::empty()
    } else {
        serialized_bytes(bytes.drop_last()) + serialized_byte(bytes.last())
    }
}

/// A name or a value as it stands in a query string: the byte serializer
/// applied to the text's UTF-8 bytes.
pub open spec fn form_encoded(text: Seq<char>) -> Seq<char> {
    serialized_bytes(encode_utf8(text))
}

/// Whether the serializer writes a character as it is: an ASCII letter or
/// digit, or one of `*`, `-`, `.` and `_`.
pub open spec fn plain_char(c: char) -> bool {
    c <= '\u{7f}' && byte_unchanged(c as u8)
}

proof fn lemma_char_from_zero(c: char)
    ensures
        '\0' <= c,
{
}

proof fn lemma_unchanged_bytes(bytes: Seq<u8>)
    requires
        forall|i: int| 0 <= i < bytes.len() ==> byte_unchanged(#[trigger] bytes[i]),
    ensures
        serialized_bytes(bytes) == Seq::new(bytes.len(), |i: int| bytes[i] as char),
    decreases bytes.len(),
{
    if bytes.len() > 0 {
        lemma_unchanged_bytes(bytes.drop_last());
    }
}

/// Text made of ASCII letters and digits and of `*`, `-`, `.` and `_` stands
/// in a query string as it is.
pub proof fn lemma_plain_text_unchanged(text: Seq<char>)
    requires
        forall|i: int| 0 <= i < text.len() ==> plain_char(#[trigger] text[i]),
    ensures
        form_encoded(text) == text,
{
    assert(is_ascii_chars(text)) by {
        assert forall|i: int| 0 <= i < text.len() implies '\0' <= #[trigger] text[i]
            <= '\u{7f}' by {
            lemma_char_from_zero(text[i]);
        }
    }
    is_ascii_chars_encode_utf8(text);
    let bytes = encode_utf8(text);
    assert forall|i: int| 0 <= i < bytes.len() implies byte_unchanged(#[trigger] bytes[i]) by {}
    lemma_unchanged_bytes(bytes);
    assert forall|i: int| 0 <= i < text.len() implies bytes[i] as char == text[i] by {
        char_u32_cast(text[i], text[i] as u32);
    }
}

/// A query string after one more pair: `&` if something stands there already,
/// then the encoded name, `=`, and the encoded value.
pub open spec fn with_pair(written: Seq<char>, name: Seq<char>, value: Seq<char>) -> Seq<char> {
    (if written.len() > 0 {
        written.push('&')
    } else {
        written
    }) + form_encoded(name).push('=') + form_encoded(value)
}

/// The query string of a list of name/value pairs.
pub open spec fn urlencoded(pairs: Seq<(Seq<char>, Seq<char>)>) -> Seq<char>
    decreases pairs.len(),
{
    if pairs.len() == 0 {
        Seq::empty()
    } else {
        with_pair(urlencoded(pairs.drop_last()), pairs.last().0, pairs.last().1)
    }
}

/// The pair that an optional parameter contributes: none where it is absent.
pub open spec fn optional_pair(name: Seq<char>, value: Option<String>) -> Seq<
    (Seq<char>, Seq<char>),
> {
    match value {
        Some(text) => seq![(name, text@)],
        None => Seq::empty(),
    }
}

/// A `form_urlencoded::Serializer` that writes into a `String` of its own.
#[verifier::external_body]
pub struct FormSerializer {
    inner: Serializer<'static, String>,
}

/// The text that a serializer has written into its target so far.
pub uninterp spec fn serializer_text(serializer: FormSerializer) -> Seq<char>;

/// Whether a serializer still holds its target. It gives the target away when
/// it is finished, and must not be used after that.
pub uninterp spec fn serializer_open(serializer: FormSerializer) -> bool;

/// `Serializer::new` on an empty `String`: the serializer holds its target and
/// has written nothing.
#[verifier::external_body]
fn serializer_new() -> (serializer: FormSerializer)
    ensures
        serializer_open(serializer),
        serializer_text(serializer) == Seq::<char>::empty(),
{
    FormSerializer { inner: Serializer::new(String::new()) }
}

/// `Serializer::append_pair`: writes `&` unless the target is still empty,
/// then the name and the value, each through the byte serializer, with `=`
/// between them. It panics on a finished serializer.
#[verifier::external_body]
fn serializer_append_pair(serializer: &mut FormSerializer, name: &str, value: &str)
    requires
        serializer_open(*old(serializer)),
    ensures
        serializer_open(*final(serializer)),
        serializer_text(*final(serializer)) == with_pair(
            serializer_text(*old(serializer)),
            name@,
            value@,
        ),
{
    serializer.inner.append_pair(name, value);
}

/// `Serializer::finish`: hands out the target with all that was written. It
/// panics on a serializer that was finished before.
#[verifier::external_body]
fn serializer_finish(serializer: FormSerializer) -> (text: String)
    requires
        serializer_open(serializer),
    ensures
        text@ == serializer_text(serializer),
{
    let mut serializer = serializer;
    serializer.inner.finish()
}

/// A serializer together with the pairs that were written through it.
pub struct QueryWriter {
    serializer: FormSerializer,
    pairs: Ghost<Seq<(Seq<char>, Seq<char>)>>,
}

impl QueryWriter {
    /// The serializer is open and holds the query string of the pairs.
    pub closed spec fn wf(&self) -> bool {
        &&& serializer_open(self.serializer)
        &&& serializer_text(self.serializer) == urlencoded(self.pairs@)
    }

    /// The pairs written so far, in order.
    pub closed spec fn pairs(&self) -> Seq<(Seq<char>, Seq<char>)> {
        self.pairs@
    }

    /// A writer that has written nothing.
    pub fn new() -> (writer: QueryWriter)
        ensures
            writer.wf(),
            writer.pairs() == Seq::<(Seq<char>, Seq<char>)>::empty(),
    {
        QueryWriter { serializer: serializer_new(), pairs: Ghost(Seq::empty()) }
    }

    /// Writes one pair.
    pub fn pair(&mut self, name: &str, value: &str)
        requires
            old(self).wf(),
        ensures
            final(self).wf(),
            final(self).pairs() == old(self).pairs() + seq![(name@, value@)],
    {
        serializer_append_pair(&mut self.serializer, name, value);
        proof {
            let before = self.pairs@;
            let after = before + seq![(name@, value@)];
            assert(after.drop_last() =~= before);
            self.pairs@ = after;
        }
    }

    /// Writes the pair of an optional parameter, if it is present.
    pub fn optional(&mut self, name: &str, value: &Option<String>)
        requires
            old(self).wf(),
        ensures
            final(self).wf(),
            final(self).pairs() == old(self).pairs() + optional_pair(name@, *value),
    {
        if let Some(text) = value {
            self.pair(name, text.as_str());
        }
    }

    /// The query string of all pairs written.
    pub fn finish(self) -> (text: String)
        requires
            self.wf(),
        ensures
            text@ == urlencoded(self.pairs()),
    {
        serializer_finish(self.serializer)
    }
}

} // verus!
