//! The `WWW-Authenticate` header of a payment challenge: a scheme name
//! followed by `key="value"` attributes, separated by commas or spaces.

use crate::encoding::{str_equal, text_view};
use crate::lightning::utils::DecodeError;
use vstd::prelude::*;

verus! {

/// The attributes that a challenge must carry.
#[derive(Clone, Copy, Debug, PartialEq, Eq, Structural)]
pub enum Attribute {
    Token,
    Invoice,
}

/// Why a payment challenge could not be read.
#[derive(Clone, Copy, Debug, PartialEq, Eq, Structural)]
pub enum ProtocolError {
    /// The response carried no `WWW-Authenticate` header.
    MissingHeader,
    /// The header does not begin with the scheme `L402`.
    WrongScheme,
    /// The named attribute is absent, or present with an empty value.
    MissingAttribute(Attribute),
    /// The invoice attribute does not decode.
    InvalidInvoice(DecodeError),
}

/// The characters that part one attribute from the next.
pub open spec fn is_separator(c: char) -> bool {
    c == ' ' || c == ','
}

/// The first position at or after `i` that holds no separator.
pub open spec fn skip_separators(s: Seq<char>, i: int) -> int
    decreases s.len() - i,
{
    if 0 <= i < s.len() && is_separator(s[i]) {
        skip_separators(s, i + 1)
    } else {
        i
    }
}

/// The first position at or after `i` that holds a separator, or the end.
pub open spec fn word_end(s: Seq<char>, i: int) -> int
    decreases s.len() - i,
{
    if 0 <= i < s.len() && !is_separator(s[i]) {
        word_end(s, i + 1)
    } else {
        i
    }
}

/// The scheme name, `L402`.
pub open spec fn scheme_name() -> Seq<char> {
    seq!['L', '4', '0', '2']
}

/// The attribute name `token`.
pub open spec fn token_key() -> Seq<char> {
    seq!['t', 'o', 'k', 'e', 'n']
}

/// The attribute name `invoice`.
pub open spec fn invoice_key() -> Seq<char> {
    seq!['i', 'n', 'v', 'o', 'i', 'c', 'e']
}

/// Whether `word` is `key`, an equals sign and a value.
pub open spec fn has_key(word: Seq<char>, key: Seq<char>) -> bool {
    &&& word.len() > key.len()
    &&& word.subrange(0, key.len() as int) == key
    &&& word[key.len() as int] == '='
}

/// A value without the double quotes around it, if it has them.
pub open spec fn unquoted(v: Seq<char>) -> Seq<char> {
    if v.len() >= 2 && v[0] == '"' && v[v.len() - 1] == '"' {
        v.subrange(1, v.len() - 1)
    } else {
        v
    }
}

/// The value of the first attribute named `key` among the words of `s`
/// that begin at or after `i`.
pub open spec fn attribute_from(s: Seq<char>, key: Seq<char>, i: int) -> Option<Seq<char>>
    decreases s.len() - i,
{
    let a = skip_separators(s, i);
    if i < 0 || a >= s.len() {
        None
    } else {
        let b = word_end(s, a);
        let word = s.subrange(a, b);
        if has_key(word, key) {
            Some(unquoted(word.skip(key.len() as int + 1)))
        } else if i < b <= s.len() {
            attribute_from(s, key, b)
        } else {
            None
        }
    }
}

/// The token and the invoice text of a challenge header, or the reason why
/// it has none: the first word must be the scheme name, and both attributes
/// must follow it with a value that is not empty.
pub open spec fn challenge_fields(h: Seq<char>) -> Result<(Seq<char>, Seq<char>), ProtocolError> {
    let a = skip_separators(h, 0);
    let b = word_end(h, a);
    let token = attribute_from(h, token_key(), b);
    let invoice = attribute_from(h, invoice_key(), b);
    if h.subrange(a, b) != scheme_name() {
        Err(ProtocolError::WrongScheme)
    } else if token is None || token->Some_0.len() == 0 {
        Err(ProtocolError::MissingAttribute(Attribute::Token))
    } else if invoice is None || invoice->Some_0.len() == 0 {
        Err(ProtocolError::MissingAttribute(Attribute::Invoice))
    } else {
        Ok((token->Some_0, invoice->Some_0))
    }
}

/// An attribute as it is written: the name, an equals sign and the value in
/// double quotes.
pub open spec fn attribute_word(key: Seq<char>, value: Seq<char>) -> Seq<char> {
    key + seq!['=', '"'] + value + seq!['"']
}

/// The challenge header that carries `token` and `invoice`.
pub open spec fn header_text(token: Seq<char>, invoice: Seq<char>) -> Seq<char> {
    scheme_name() + seq![' '] + attribute_word(token_key(), token) + seq![',', ' '] + attribute_word(
        invoice_key(),
        invoice,
    )
}

/// Whether no character of `text` is a separator.
pub open spec fn separator_free(text: Seq<char>) -> bool {
    forall|k: int| 0 <= k < text.len() ==> !is_separator(#[trigger] text[k])
}

/// Whether `text` can stand as an attribute's value: not empty, and free of
/// separators.
pub open spec fn is_attribute_value(text: Seq<char>) -> bool {
    &&& text.len() > 0
    &&& separator_free(text)
}

/// Mathematical value of an extraction outcome.
pub open spec fn fields_view(r: Result<(String, String), ProtocolError>) -> Result<
    (Seq<char>, Seq<char>),
    ProtocolError,
> {
    match r {
        Ok((token, invoice)) => Ok((token@, invoice@)),
        Err(e) => Err(e),
    }
}

fn is_separator_char(c: char) -> (r: bool)
    ensures
        r == is_separator(c),
{
    c == ' ' || c == ','
}

fn skip_separators_at(s: &str, len: usize, i: usize) -> (j: usize)
    requires
        len == s@.len(),
        i <= len,
    ensures
        j == skip_separators(s@, i as int),
        i <= j <= len,
        j < len ==> !is_separator(s@[j as int]),
{
    let mut j: usize = i;
    while j < len && is_separator_char(s.get_char(j))
        invariant
            len == s@.len(),
            i <= j <= len,
            skip_separators(s@, i as int) == skip_separators(s@, j as int),
        decreases len - j,
    {
        j += 1;
    }
    j
}

fn word_end_at(s: &str, len: usize, i: usize) -> (j: usize)
    requires
        len == s@.len(),
        i <= len,
    ensures
        j == word_end(s@, i as int),
        i <= j <= len,
        i < len && !is_separator(s@[i as int]) ==> i < j,
{
    let mut j: usize = i;
    while j < len && !is_separator_char(s.get_char(j))
        invariant
            len == s@.len(),
            i <= j <= len,
            word_end(s@, i as int) == word_end(s@, j as int),
            i < len && !is_separator(s@[i as int]) && j == i ==> !is_separator(s@[j as int]),
        decreases len - j,
    {
        j += 1;
    }
    j
}

/// Whether the word of `s` between `a` and `b` is `key`, an equals sign and
/// a value.
fn word_has_key(s: &str, a: usize, b: usize, key: &str) -> (r: bool)
    requires
        a <= b <= s@.len(),
    ensures
        r == has_key(s@.subrange(a as int, b as int), key@),
{
    let klen = key.unicode_len();
    let ghost word = s@.subrange(a as int, b as int);
    if b - a <= klen {
        return false;
    }
    let mut k: usize = 0;
    while k < klen
        invariant
            a <= b <= s@.len(),
            klen == key@.len(),
            b - a > klen,
            k <= klen,
            word == s@.subrange(a as int, b as int),
            forall|j: int| 0 <= j < k ==> word[j] == key@[j],
        decreases klen - k,
    {
        if s.get_char(a + k) != key.get_char(k) {
            assert(word.subrange(0, klen as int)[k as int] != key@[k as int]);
            return false;
        }
        k += 1;
    }
    assert(word.subrange(0, klen as int) =~= key@);
    s.get_char(a + klen) == '='
}

/// The value of a word of `s` that begins at `start` and ends at `b`,
/// without the quotes around it.
fn value_between(s: &str, start: usize, b: usize) -> (r: String)
    requires
        start <= b <= s@.len(),
    ensures
        r@ == unquoted(s@.subrange(start as int, b as int)),
{
    let value = s.substring_char(start, b);
    let n = b - start;
    if n >= 2 && value.get_char(0) == '"' && value.get_char(n - 1) == '"' {
        String::from_str(value.substring_char(1, n - 1))
    } else {
        String::from_str(value)
    }
}

/// The value of the first attribute named `key` at or after `from`.
fn find_attribute(s: &str, len: usize, key: &str, from: usize) -> (r: Option<String>)
    requires
        len == s@.len(),
        from <= len,
    ensures
        text_view(r) == attribute_from(s@, key@, from as int),
{
    let klen = key.unicode_len();
    let mut i: usize = from;
    loop
        invariant
            len == s@.len(),
            klen == key@.len(),
            from <= i <= len,
            attribute_from(s@, key@, from as int) == attribute_from(s@, key@, i as int),
        decreases len - i,
    {
        let a = skip_separators_at(s, len, i);
        if a >= len {
            return None;
        }
        let b = word_end_at(s, len, a);
        if word_has_key(s, a, b, key) {
            let ghost word = s@.subrange(a as int, b as int);
            assert(word.skip(klen + 1) =~= s@.subrange(a + klen + 1, b as int));
            return Some(value_between(s, a + klen + 1, b));
        }
        i = b;
    }
}

/// Reads the token and the invoice text out of a challenge header. Commas
/// and spaces both part attributes, the attributes may come in either
/// order, and a value may stand in double quotes or bare.
pub fn challenge_attributes(header: &str) -> (r: Result<(String, String), ProtocolError>)
    ensures
        fields_view(r) == challenge_fields(header@),
{
    let len = header.unicode_len();
    let a = skip_separators_at(header, len, 0);
    let b = word_end_at(header, len, a);
    let scheme = header.substring_char(a, b);
    proof {
        reveal_strlit("L402");
        reveal_strlit("token");
        reveal_strlit("invoice");
        assert("L402"@ =~= scheme_name());
        assert("token"@ =~= token_key());
        assert("invoice"@ =~= invoice_key());
    }
    if !str_equal(scheme, "L402") {
        return Err(ProtocolError::WrongScheme);
    }
    let token = find_attribute(header, len, "token", b);
    let invoice = find_attribute(header, len, "invoice", b);
    match token {
        None => Err(ProtocolError::MissingAttribute(Attribute::Token)),
        Some(token) => {
            if token.as_str().unicode_len() == 0 {
                return Err(ProtocolError::MissingAttribute(Attribute::Token));
            }
            match invoice {
                None => Err(ProtocolError::MissingAttribute(Attribute::Invoice)),
                Some(invoice) => {
                    if invoice.as_str().unicode_len() == 0 {
                        return Err(ProtocolError::MissingAttribute(Attribute::Invoice));
                    }
                    Ok((token, invoice))
                },
            }
        },
    }
}

/// A run of separators is skipped whole.
proof fn lemma_skip_run(s: Seq<char>, a: int, b: int)
    requires
        0 <= a <= b <= s.len(),
        forall|k: int| a <= k < b ==> is_separator(#[trigger] s[k]),
        b == s.len() || !is_separator(s[b]),
    ensures
        skip_separators(s, a) == b,
    decreases b - a,
{
    if a < b {
        lemma_skip_run(s, a + 1, b);
    }
}

/// A run of other characters is one word.
proof fn lemma_word_run(s: Seq<char>, a: int, b: int)
    requires
        0 <= a <= b <= s.len(),
        forall|k: int| a <= k < b ==> !is_separator(#[trigger] s[k]),
        b == s.len() || is_separator(s[b]),
    ensures
        word_end(s, a) == b,
    decreases b - a,
{
    if a < b {
        lemma_word_run(s, a + 1, b);
    }
}

/// The search looks at the word between `a` and `b` and, where that word is
/// not the attribute, goes on behind it.
proof fn lemma_attribute_step(s: Seq<char>, key: Seq<char>, i: int, a: int, b: int)
    requires
        0 <= i <= a < b <= s.len(),
        forall|k: int| i <= k < a ==> is_separator(#[trigger] s[k]),
        forall|k: int| a <= k < b ==> !is_separator(#[trigger] s[k]),
        b == s.len() || is_separator(s[b]),
    ensures
        attribute_from(s, key, i) == if has_key(s.subrange(a, b), key) {
            Some(unquoted(s.subrange(a, b).skip(key.len() as int + 1)))
        } else {
            attribute_from(s, key, b)
        },
{
    lemma_skip_run(s, i, a);
    lemma_word_run(s, a, b);
}

/// A written attribute is one word, is found under its name, and gives its
/// value back.
proof fn lemma_attribute_word(key: Seq<char>, value: Seq<char>)
    requires
        separator_free(key),
        separator_free(value),
    ensures
        separator_free(attribute_word(key, value)),
        attribute_word(key, value).len() == key.len() + value.len() + 3,
        has_key(attribute_word(key, value), key),
        unquoted(attribute_word(key, value).skip(key.len() as int + 1)) == value,
{
    let w = attribute_word(key, value);
    let n = key.len() as int;
    assert forall|k: int| 0 <= k < w.len() implies !is_separator(#[trigger] w[k]) by {
        if k < n {
            assert(w[k] == key[k]);
        } else if n + 2 <= k < n + 2 + value.len() {
            assert(w[k] == value[k - n - 2]);
        }
    }
    assert(w.subrange(0, n) =~= key);
    assert(w[n] == '=');
    let quoted = w.skip(n + 1);
    assert(quoted =~= seq!['"'] + value + seq!['"']);
    assert(quoted.subrange(1, quoted.len() - 1) =~= value);
}

/// In a text made of a first word, a space, a second word, a comma, a space
/// and a third word, the first word ends where the space stands, and the
/// search behind it looks at the second word and then at the third.
proof fn lemma_three_words(p: Seq<char>, w1: Seq<char>, w2: Seq<char>, key: Seq<char>)
    requires
        p.len() > 0,
        w1.len() > 0,
        w2.len() > 0,
        separator_free(p),
        separator_free(w1),
        separator_free(w2),
    ensures
        ({
            let s = p + seq![' '] + w1 + seq![',', ' '] + w2;
            &&& skip_separators(s, 0) == 0
            &&& word_end(s, 0) == p.len()
            &&& s.subrange(0, p.len() as int) == p
            &&& attribute_from(s, key, p.len() as int) == if has_key(w1, key) {
                Some(unquoted(w1.skip(key.len() as int + 1)))
            } else if has_key(w2, key) {
                Some(unquoted(w2.skip(key.len() as int + 1)))
            } else {
                None
            }
        }),
{
    let s = p + seq![' '] + w1 + seq![',', ' '] + w2;
    let a1 = p.len() as int + 1;
    let b1 = a1 + w1.len();
    let a2 = b1 + 2;
    let b2 = a2 + w2.len();
    assert(s.len() == b2);
    assert forall|k: int| 0 <= k < p.len() implies !is_separator(#[trigger] s[k]) by {
        assert(s[k] == p[k]);
    }
    assert forall|k: int| a1 <= k < b1 implies !is_separator(#[trigger] s[k]) by {
        assert(s[k] == w1[k - a1]);
    }
    assert forall|k: int| a2 <= k < b2 implies !is_separator(#[trigger] s[k]) by {
        assert(s[k] == w2[k - a2]);
    }
    assert(s[a1 - 1] == ' ');
    assert(s[b1] == ',');
    assert(s[b1 + 1] == ' ');
    assert(s.subrange(0, p.len() as int) =~= p);
    assert(s.subrange(a1, b1) =~= w1);
    assert(s.subrange(a2, b2) =~= w2);
    lemma_skip_run(s, 0, 0);
    lemma_word_run(s, 0, p.len() as int);
    lemma_attribute_step(s, key, p.len() as int, a1, b1);
    lemma_attribute_step(s, key, b1, a2, b2);
    lemma_skip_run(s, b2, b2);
}

/// Round trip of the header: for every token and invoice text that can
/// stand as an attribute's value, reading the header written from them gives
/// both back.
pub proof fn header_round_trip(token: Seq<char>, invoice: Seq<char>)
    requires
        is_attribute_value(token),
        is_attribute_value(invoice),
    ensures
        challenge_fields(header_text(token, invoice)) == Ok::<(Seq<char>, Seq<char>), ProtocolError>(
            (token, invoice),
        ),
{
    let first = attribute_word(token_key(), token);
    let second = attribute_word(invoice_key(), invoice);
    lemma_attribute_word(token_key(), token);
    lemma_attribute_word(invoice_key(), invoice);
    lemma_three_words(scheme_name(), first, second, token_key());
    lemma_three_words(scheme_name(), first, second, invoice_key());
    assert(first[0] == 't');
    assert(first.subrange(0, 7)[0] == 't');
    assert(invoice_key()[0] == 'i');
    assert(!has_key(first, invoice_key()));
}

/// A header whose scheme is right is refused for the token where the token
/// is absent, and for the invoice where the token is there and the invoice
/// is absent, whatever else the header holds.
pub proof fn missing_attribute_is_refused(h: Seq<char>)
    requires
        h.subrange(skip_separators(h, 0), word_end(h, skip_separators(h, 0))) == scheme_name(),
    ensures
        attribute_from(h, token_key(), word_end(h, skip_separators(h, 0))) is None ==> challenge_fields(h) == Err::<
            (Seq<char>, Seq<char>),
            ProtocolError,
        >(ProtocolError::MissingAttribute(Attribute::Token)),
        ({
            let token = attribute_from(h, token_key(), word_end(h, skip_separators(h, 0)));
            let invoice = attribute_from(h, invoice_key(), word_end(h, skip_separators(h, 0)));
            token is Some && token->Some_0.len() > 0 && invoice is None ==> challenge_fields(h) == Err::<
                (Seq<char>, Seq<char>),
                ProtocolError,
            >(ProtocolError::MissingAttribute(Attribute::Invoice))
        }),
{
}

/// The header that carries one attribute only.
pub open spec fn lone_attribute_header(key: Seq<char>, value: Seq<char>) -> Seq<char> {
    scheme_name() + seq![' '] + attribute_word(key, value)
}

/// In a text made of a first word, a space and a second word, the first
/// word ends where the space stands, and the search behind it looks at the
/// second word and at nothing else.
proof fn lemma_two_words(p: Seq<char>, w: Seq<char>, key: Seq<char>)
    requires
        p.len() > 0,
        w.len() > 0,
        separator_free(p),
        separator_free(w),
    ensures
        ({
            let s = p + seq![' '] + w;
            &&& skip_separators(s, 0) == 0
            &&& word_end(s, 0) == p.len()
            &&& s.subrange(0, p.len() as int) == p
            &&& attribute_from(s, key, p.len() as int) == if has_key(w, key) {
                Some(unquoted(w.skip(key.len() as int + 1)))
            } else {
                None
            }
        }),
{
    let s = p + seq![' '] + w;
    let a = p.len() as int + 1;
    let b = a + w.len();
    assert(s.len() == b);
    assert forall|k: int| 0 <= k < p.len() implies !is_separator(#[trigger] s[k]) by {
        assert(s[k] == p[k]);
    }
    assert forall|k: int| a <= k < b implies !is_separator(#[trigger] s[k]) by {
        assert(s[k] == w[k - a]);
    }
    assert(s[a - 1] == ' ');
    assert(s.subrange(0, p.len() as int) =~= p);
    assert(s.subrange(a, b) =~= w);
    lemma_skip_run(s, 0, 0);
    lemma_word_run(s, 0, p.len() as int);
    lemma_attribute_step(s, key, p.len() as int, a, b);
    lemma_skip_run(s, b, b);
}

/// A header that carries only the invoice lacks the token, and one that
/// carries only the token lacks the invoice.
pub proof fn lone_attribute_fields(value: Seq<char>)
    requires
        is_attribute_value(value),
    ensures
        challenge_fields(lone_attribute_header(invoice_key(), value)) == Err::<(Seq<char>, Seq<char>), ProtocolError>(
            ProtocolError::MissingAttribute(Attribute::Token),
        ),
        challenge_fields(lone_attribute_header(token_key(), value)) == Err::<(Seq<char>, Seq<char>), ProtocolError>(
            ProtocolError::MissingAttribute(Attribute::Invoice),
        ),
{
    let only_invoice = attribute_word(invoice_key(), value);
    let only_token = attribute_word(token_key(), value);
    lemma_attribute_word(invoice_key(), value);
    lemma_attribute_word(token_key(), value);
    lemma_two_words(scheme_name(), only_invoice, token_key());
    lemma_two_words(scheme_name(), only_invoice, invoice_key());
    lemma_two_words(scheme_name(), only_token, token_key());
    lemma_two_words(scheme_name(), only_token, invoice_key());
    assert(only_invoice.subrange(0, 5)[0] == 'i');
    assert(token_key()[0] == 't');
    assert(!has_key(only_invoice, token_key()));
    assert(only_token.subrange(0, 7)[0] == 't');
    assert(invoice_key()[0] == 'i');
    assert(!has_key(only_token, invoice_key()));
}

/// A word holds no separator and ends within the text.
proof fn lemma_word_is_separator_free(s: Seq<char>, a: int)
    requires
        0 <= a <= s.len(),
    ensures
        a <= word_end(s, a) <= s.len(),
        forall|k: int| a <= k < word_end(s, a) ==> !is_separator(#[trigger] s[k]),
    decreases s.len() - a,
{
    if a < s.len() && !is_separator(s[a]) {
        lemma_word_is_separator_free(s, a + 1);
    }
}

/// Skipping separators stays within the text.
proof fn lemma_skip_stays_within(s: Seq<char>, i: int)
    requires
        0 <= i <= s.len(),
    ensures
        i <= skip_separators(s, i) <= s.len(),
    decreases s.len() - i,
{
    if i < s.len() && is_separator(s[i]) {
        lemma_skip_stays_within(s, i + 1);
    }
}

/// The value of an attribute holds no separator.
proof fn lemma_attribute_is_separator_free(s: Seq<char>, key: Seq<char>, i: int)
    requires
        0 <= i <= s.len(),
    ensures
        attribute_from(s, key, i) is Some ==> separator_free(attribute_from(s, key, i)->Some_0),
    decreases s.len() - i,
{
    lemma_skip_stays_within(s, i);
    let a = skip_separators(s, i);
    if a < s.len() {
        lemma_word_is_separator_free(s, a);
        let b = word_end(s, a);
        let word = s.subrange(a, b);
        if has_key(word, key) {
            let value = word.skip(key.len() as int + 1);
            assert forall|k: int| 0 <= k < value.len() implies !is_separator(#[trigger] value[k]) by {
                assert(value[k] == s[a + key.len() + 1 + k]);
            }
            let bare = unquoted(value);
            assert forall|k: int| 0 <= k < bare.len() implies !is_separator(#[trigger] bare[k]) by {
                if bare != value {
                    assert(bare[k] == value[k + 1]);
                }
            }
        } else if i < b {
            lemma_attribute_is_separator_free(s, key, b);
        }
    }
}

/// Whatever header is read, the token and the invoice text that come out of
/// it can stand as attribute values again.
pub proof fn fields_are_attribute_values(h: Seq<char>)
    ensures
        challenge_fields(h) is Ok ==> is_attribute_value(challenge_fields(h)->Ok_0.0) && is_attribute_value(
            challenge_fields(h)->Ok_0.1,
        ),
{
    lemma_skip_stays_within(h, 0);
    let a = skip_separators(h, 0);
    lemma_word_is_separator_free(h, a);
    let b = word_end(h, a);
    lemma_attribute_is_separator_free(h, token_key(), b);
    lemma_attribute_is_separator_free(h, invoice_key(), b);
}

} // verus!
