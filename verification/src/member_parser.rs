//! The members of a bit field as its definition lists them: bit ranges `name: start..stop`
//! and bit flags `name: index`, separated by commas, each after the rustdoc comments that
//! describe it. The definition comes as tokens; the parser yields the members one by one and
//! stops at the first error.

use vstd::prelude::*;

verus! {

// ---------------------------------------------------------------------------------------------
// Numbers
// ---------------------------------------------------------------------------------------------

/// Why a text is not the decimal writing of a `u8` (the kinds of `std::num::IntErrorKind`
/// that parsing a `u8` gives).
#[derive(Debug, Clone, Copy, PartialEq, Eq)]
pub enum ParseU8Error {
    /// The text is empty.
    Empty,
    /// The text holds a character that is not a digit, or is a lone `+`.
    InvalidDigit,
    /// The number is larger than 255.
    PosOverflow,
}

/// Whether `c` is an ASCII decimal digit.
pub open spec fn is_digit(c: char) -> bool {
    '0' <= c && c <= '9'
}

/// The value of a sequence of decimal digits, most significant first.
pub open spec fn digits_value(d: Seq<char>) -> nat
    decreases d.len(),
{
    if d.len() == 0 {
        0
    } else {
        digits_value(d.drop_last()) * 10 + ((d.last() as nat) - ('0' as nat)) as nat
    }
}

/// The digits of a `u8` written as text: the text after an optional leading `+`.
pub open spec fn unsigned_digits(s: Seq<char>) -> Seq<char> {
    if s.len() > 0 && s[0] == '+' {
        s.drop_first()
    } else {
        s
    }
}

/// What parsing the text `s` as a `u8` gives, as `str::parse` does: an optional `+` followed
/// by one or more decimal digits whose value is at most 255.
pub open spec fn parse_u8_spec(s: Seq<char>) -> Result<u8, ParseU8Error> {
    let d = unsigned_digits(s);
    if s.len() == 0 {
        Err(ParseU8Error::Empty)
    } else if d.len() == 0 || exists|i: int| 0 <= i < d.len() && !is_digit(#[trigger] d[i]) {
        Err(ParseU8Error::InvalidDigit)
    } else if digits_value(d) > 255 {
        Err(ParseU8Error::PosOverflow)
    } else {
        Ok(digits_value(d) as u8)
    }
}

/// Parses the text `s` as a `u8` (see [`parse_u8_spec`]).
pub fn parse_u8(s: &str) -> (r: Result<u8, ParseU8Error>)
    ensures
        r == parse_u8_spec(s@),
{
    let n = s.unicode_len();
    if n == 0 {
        return Err(ParseU8Error::Empty);
    }
    let ghost d = unsigned_digits(s@);
    let start: usize = if s.get_char(0) == '+' {
        1
    } else {
        0
    };
    assert(d =~= s@.subrange(start as int, n as int));
    if start == n {
        assert(d.len() == 0);
        assert(parse_u8_spec(s@) == Err::<u8, ParseU8Error>(ParseU8Error::InvalidDigit));
        return Err(ParseU8Error::InvalidDigit);
    }
    let mut value: u32 = 0;
    let mut overflow = false;
    let mut i = start;
    while i < n
        invariant
            start <= i <= n,
            start < n,
            n == s@.len(),
            d == unsigned_digits(s@),
            d =~= s@.subrange(start as int, n as int),
            forall|j: int| start <= j < i ==> is_digit(#[trigger] s@[j]),
            !overflow ==> value == digits_value(s@.subrange(start as int, i as int)) && value <= 255,
            overflow ==> digits_value(s@.subrange(start as int, i as int)) > 255,
        decreases n - i,
    {
        let c = s.get_char(i);
        if !('0' <= c && c <= '9') {
            assert(!is_digit(d[i - start]));
            return Err(ParseU8Error::InvalidDigit);
        }
        let ghost prev = s@.subrange(start as int, i as int);
        let ghost next = s@.subrange(start as int, i + 1);
        assert(next.drop_last() =~= prev);
        if !overflow {
            let digit = (c as u32) - ('0' as u32);
            value = value * 10 + digit;
            if value > 255 {
                overflow = true;
            }
        } else {
            assert(digits_value(next) >= digits_value(prev) * 10) by (nonlinear_arith)
                requires
                    digits_value(next) == digits_value(prev) * 10 + ((c as nat) - ('0' as nat)) as nat,
            ;
        }
        i = i + 1;
    }
    assert(s@.subrange(start as int, n as int) =~= d);
    if overflow {
        return Err(ParseU8Error::PosOverflow);
    }
    Ok(value as u8)
}

// ---------------------------------------------------------------------------------------------
// Indices
// ---------------------------------------------------------------------------------------------

/// Error of [`index_field`].
#[derive(Debug, PartialEq, Eq)]
pub enum IndexFieldError {
    /// Failed to parse the start index.
    ParseStart(ParseU8Error),
    /// Start index outside of the valid range.
    InvalidStart {
        /// Parsed start index.
        start: u8,
        /// Valid range that `start` lies outside of.
        valid_range: core::ops::Range<u8>,
    },
    /// Failed to parse the stop index.
    ParseStop(ParseU8Error),
    /// Stop index outside of the valid range.
    InvalidStop {
        /// Parsed stop index.
        stop: u8,
        /// Valid range that `stop` lies outside of.
        valid_range: core::ops::RangeInclusive<u8>,
    },
}

/// An [`IndexFieldError`] with its inclusive range given by its bounds.
#[derive(Debug, Clone, Copy, PartialEq, Eq)]
pub enum IndexFieldErrorView {
    /// Failed to parse the start index.
    ParseStart(ParseU8Error),
    /// Start index `start` outside of `range_start..range_end`.
    InvalidStart { start: u8, range_start: u8, range_end: u8 },
    /// Failed to parse the stop index.
    ParseStop(ParseU8Error),
    /// Stop index `stop` outside of `range_start..=range_end`.
    InvalidStop { stop: u8, range_start: u8, range_end: u8 },
}

impl View for IndexFieldError {
    type V = IndexFieldErrorView;

    open spec fn view(&self) -> IndexFieldErrorView {
        match self {
            IndexFieldError::ParseStart(e) => IndexFieldErrorView::ParseStart(*e),
            IndexFieldError::InvalidStart { start, valid_range } => IndexFieldErrorView::InvalidStart {
                start: *start,
                range_start: valid_range.start,
                range_end: valid_range.end,
            },
            IndexFieldError::ParseStop(e) => IndexFieldErrorView::ParseStop(*e),
            IndexFieldError::InvalidStop { stop, valid_range } => IndexFieldErrorView::InvalidStop {
                stop: *stop,
                range_start: valid_range@.start,
                range_end: valid_range@.end,
            },
        }
    }
}

/// The bit range `start..stop` given by the texts of its indices, for a data type of `size`
/// bits: the start must lie in `0..size` and the stop in `start..=size`.
pub open spec fn index_field_spec(start_text: Seq<char>, stop_text: Seq<char>, size: u8) -> Result<
    (u8, u8),
    IndexFieldErrorView,
> {
    match parse_u8_spec(start_text) {
        Err(e) => Err(IndexFieldErrorView::ParseStart(e)),
        Ok(start) => if !(start < size) {
            Err(IndexFieldErrorView::InvalidStart { start, range_start: 0, range_end: size })
        } else {
            match parse_u8_spec(stop_text) {
                Err(e) => Err(IndexFieldErrorView::ParseStop(e)),
                Ok(stop) => if !(start <= stop && stop <= size) {
                    Err(IndexFieldErrorView::InvalidStop { stop, range_start: start, range_end: size })
                } else {
                    Ok((start, stop))
                },
            }
        },
    }
}

/// The view of a result that may carry an [`IndexFieldError`].
pub open spec fn field_result_view(r: Result<(u8, u8), IndexFieldError>) -> Result<(u8, u8), IndexFieldErrorView> {
    match r {
        Ok(v) => Ok(v),
        Err(e) => Err(e@),
    }
}

/// Checks the indices of a bit range, given as the texts of two literals, for a data type of
/// `size` bits (see [`index_field_spec`]).
pub fn index_field(start_token: &str, stop_token: &str, size: u8) -> (r: Result<(u8, u8), IndexFieldError>)
    ensures
        field_result_view(r) == index_field_spec(start_token@, stop_token@, size),
        r matches Err(IndexFieldError::InvalidStop { valid_range, .. }) ==> !valid_range@.exhausted,
{
    let start = match parse_u8(start_token) {
        Ok(s) => {
            if s < size {
                s
            } else {
                return Err(IndexFieldError::InvalidStart { start: s, valid_range: 0..size });
            }
        },
        Err(e) => return Err(IndexFieldError::ParseStart(e)),
    };
    let stop = match parse_u8(stop_token) {
        Ok(s) => {
            if start <= s && s <= size {
                s
            } else {
                return Err(
                    IndexFieldError::InvalidStop {
                        stop: s,
                        valid_range: core::ops::RangeInclusive::new(start, size),
                    },
                );
            }
        },
        Err(e) => return Err(IndexFieldError::ParseStop(e)),
    };
    Ok((start, stop))
}

/// Error of [`index_flag`].
#[derive(Debug, PartialEq, Eq)]
pub enum IndexFlagError {
    /// Failed to parse the index.
    Parse(ParseU8Error),
    /// Index outside of the valid range.
    Invalid {
        /// Parsed index.
        index: u8,
        /// Valid range that `index` lies outside of.
        valid_range: core::ops::Range<u8>,
    },
}

/// The bit index given by the text of a literal, for a data type of `size` bits: it must lie
/// in `0..size`.
pub open spec fn index_flag_spec(text: Seq<char>, size: u8) -> Result<u8, IndexFlagError> {
    match parse_u8_spec(text) {
        Err(e) => Err(IndexFlagError::Parse(e)),
        Ok(index) => if index < size {
            Ok(index)
        } else {
            Err(IndexFlagError::Invalid { index, valid_range: core::ops::Range { start: 0, end: size } })
        },
    }
}

/// Checks the index of a bit flag, given as the text of a literal, for a data type of `size`
/// bits (see [`index_flag_spec`]).
pub fn index_flag(index: &str, size: u8) -> (r: Result<u8, IndexFlagError>)
    ensures
        r == index_flag_spec(index@, size),
{
    match parse_u8(index) {
        Ok(s) => if s < size {
            Ok(s)
        } else {
            Err(IndexFlagError::Invalid { index: s, valid_range: 0..size })
        },
        Err(e) => Err(IndexFlagError::Parse(e)),
    }
}

// ---------------------------------------------------------------------------------------------
// Tokens
// ---------------------------------------------------------------------------------------------

/// The delimiter of a group of tokens.
#[derive(Debug, Clone, Copy, PartialEq, Eq)]
pub enum Delimiter {
    /// `( ... )`
    Parenthesis,
    /// `{ ... }`
    Brace,
    /// `[ ... ]`
    Bracket,
    /// An invisible delimiter (`Delimiter::None` of the token library).
    Invisible,
}

/// A token of a bit field's definition.
#[derive(Debug)]
pub enum Token {
    /// An identifier.
    Ident(String),
    /// A punctuation character.
    Punct(char),
    /// A literal, as written (a string literal with its quotes).
    Literal(String),
    /// A delimited group of tokens.
    Group(Delimiter, Vec<Token>),
}

/// Whether `c` is white space in the sense of Unicode (the `White_Space` property), as
/// `char::is_whitespace` decides.
pub open spec fn is_white_space(c: char) -> bool {
    ||| '\t' <= c && c <= '\r'
    ||| c == ' '
    ||| c == '\u{85}'
    ||| c == '\u{a0}'
    ||| c == '\u{1680}'
    ||| '\u{2000}' <= c && c <= '\u{200a}'
    ||| c == '\u{2028}'
    ||| c == '\u{2029}'
    ||| c == '\u{202f}'
    ||| c == '\u{205f}'
    ||| c == '\u{3000}'
}

/// The number of white-space characters that `s` starts with.
pub open spec fn leading_white_space(s: Seq<char>) -> nat
    decreases s.len(),
{
    if s.len() > 0 && is_white_space(s[0]) {
        1 + leading_white_space(s.drop_first())
    } else {
        0
    }
}

/// `s` without the white space it starts with, as `str::trim_start` gives it.
pub open spec fn trim_start_spec(s: Seq<char>) -> Seq<char> {
    s.subrange(leading_white_space(s) as int, s.len() as int)
}

proof fn lemma_leading_white_space(s: Seq<char>, i: int)
    requires
        0 <= i <= s.len(),
        forall|j: int| 0 <= j < i ==> is_white_space(#[trigger] s[j]),
    ensures
        leading_white_space(s) == i + leading_white_space(s.subrange(i, s.len() as int)),
    decreases i,
{
    if i > 0 {
        let t = s.drop_first();
        assert forall|j: int| 0 <= j < i - 1 implies is_white_space(#[trigger] t[j]) by {
            assert(t[j] == s[j + 1]);
        }
        lemma_leading_white_space(t, i - 1);
        assert(t.subrange(i - 1, t.len() as int) =~= s.subrange(i, s.len() as int));
    } else {
        assert(s.subrange(0, s.len() as int) =~= s);
    }
}

/// Whether `c` is white space (see [`is_white_space`]).
fn white_space(c: char) -> (r: bool)
    ensures
        r == is_white_space(c),
{
    ('\t' <= c && c <= '\r') || c == ' ' || c == '\u{85}' || c == '\u{a0}' || c == '\u{1680}' || (
    '\u{2000}' <= c && c <= '\u{200a}') || c == '\u{2028}' || c == '\u{2029}' || c == '\u{202f}'
        || c == '\u{205f}' || c == '\u{3000}'
}

/// `s` without the white space it starts with (see [`trim_start_spec`]).
pub fn trim_start(s: &str) -> (r: &str)
    ensures
        r@ == trim_start_spec(s@),
{
    let n = s.unicode_len();
    let mut i: usize = 0;
    while i < n && white_space(s.get_char(i))
        invariant
            0 <= i <= n,
            n == s@.len(),
            forall|j: int| 0 <= j < i ==> is_white_space(#[trigger] s@[j]),
        decreases n - i,
    {
        i = i + 1;
    }
    proof {
        lemma_leading_white_space(s@, i as int);
        let rest = s@.subrange(i as int, s@.len() as int);
        assert(leading_white_space(rest) == 0) by {
            if rest.len() > 0 {
                assert(rest[0] == s@[i as int]);
            }
        }
    }
    s.substring_char(i, n)
}

/// The opening delimiter of a group, as text.
pub open spec fn open_text(d: Delimiter) -> Seq<char> {
    match d {
        Delimiter::Parenthesis => seq!['('],
        Delimiter::Brace => seq!['{'],
        Delimiter::Bracket => seq!['['],
        Delimiter::Invisible => Seq::empty(),
    }
}

/// The closing delimiter of a group, as text.
pub open spec fn close_text(d: Delimiter) -> Seq<char> {
    match d {
        Delimiter::Parenthesis => seq![')'],
        Delimiter::Brace => seq!['}'],
        Delimiter::Bracket => seq![']'],
        Delimiter::Invisible => Seq::empty(),
    }
}

/// The text of a token: an identifier or a literal as written, a punctuation character, or a
/// group as its delimiters around the text of its tokens.
pub open spec fn token_text(t: Token) -> Seq<char>
    decreases t,
{
    match t {
        Token::Ident(s) => s@,
        Token::Punct(c) => seq![c],
        Token::Literal(s) => s@,
        Token::Group(d, inner) => open_text(d) + tokens_text(inner@) + close_text(d),
    }
}

/// The texts of tokens, separated by single spaces.
pub open spec fn tokens_text(ts: Seq<Token>) -> Seq<char>
    decreases ts,
{
    if ts.len() == 0 {
        Seq::empty()
    } else if ts.len() == 1 {
        token_text(ts[0])
    } else {
        token_text(ts[0]) + seq![' '] + tokens_text(ts.drop_first())
    }
}

/// `String::push` of the standard library: appends the character `c` to `s`.
#[verifier::external_body]
pub(crate) fn push_char(s: &mut String, c: char)
    ensures
        final(s)@ == old(s)@.push(c),
{
    s.push(c);
}

/// The texts of tokens after one more token.
proof fn lemma_tokens_text_push(ts: Seq<Token>, t: Token)
    ensures
        tokens_text(ts.push(t)) == (if ts.len() == 0 {
            token_text(t)
        } else {
            tokens_text(ts) + seq![' '] + token_text(t)
        }),
    decreases ts.len(),
{
    if ts.len() == 0 {
        assert(ts.push(t).len() == 1);
    } else {
        let rest = ts.drop_first();
        assert(ts.push(t).drop_first() =~= rest.push(t));
        lemma_tokens_text_push(rest, t);
        if rest.len() == 0 {
            assert(tokens_text(ts) == token_text(ts[0]));
        } else {
            assert(tokens_text(ts) == token_text(ts[0]) + seq![' '] + tokens_text(rest));
        }
    }
}

/// Appends a delimiter's text to `s`.
fn append_delimiter(s: &mut String, d: Delimiter, opening: bool)
    ensures
        final(s)@ == old(s)@ + (if opening {
            open_text(d)
        } else {
            close_text(d)
        }),
{
    match d {
        Delimiter::Parenthesis => push_char(s, if opening { '(' } else { ')' }),
        Delimiter::Brace => push_char(s, if opening { '{' } else { '}' }),
        Delimiter::Bracket => push_char(s, if opening { '[' } else { ']' }),
        Delimiter::Invisible => {},
    }
    assert(s@ =~= old(s)@ + (if opening {
        open_text(d)
    } else {
        close_text(d)
    }));
}

/// Appends the text of token `t` to `s` (see [`token_text`]).
pub fn append_token_text(s: &mut String, t: &Token)
    ensures
        final(s)@ == old(s)@ + token_text(*t),
    decreases t,
{
    match t {
        Token::Ident(x) => s.append(x.as_str()),
        Token::Punct(c) => {
            push_char(s, *c);
            assert(s@ =~= old(s)@ + token_text(*t));
        },
        Token::Literal(x) => s.append(x.as_str()),
        Token::Group(d, inner) => {
            append_delimiter(s, *d, true);
            let ghost start = s@;
            let mut i: usize = 0;
            while i < inner.len()
                invariant
                    0 <= i <= inner.len(),
                    *t == Token::Group(*d, *inner),
                    s@ == start + tokens_text(inner@.subrange(0, i as int)),
                decreases inner.len() - i,
            {
                proof {
                    lemma_tokens_text_push(inner@.subrange(0, i as int), inner@[i as int]);
                    assert(inner@.subrange(0, i + 1) =~= inner@.subrange(0, i as int).push(inner@[i as int]));
                }
                if i > 0 {
                    push_char(s, ' ');
                }
                assert(decreases_to!(*t => (*t)->Group_1));
                assert(decreases_to!((*t)->Group_1 => (*t)->Group_1@));
                assert(decreases_to!((*t)->Group_1@ => (*t)->Group_1@[i as int]));
                append_token_text(s, &inner[i]);
                i = i + 1;
                assert(s@ =~= start + tokens_text(inner@.subrange(0, i as int)));
            }
            assert(inner@.subrange(0, inner.len() as int) =~= inner@);
            append_delimiter(s, *d, false);
            assert(s@ =~= old(s)@ + token_text(*t));
        },
    }
}

/// The text of token `t` (see [`token_text`]).
pub fn token_string(t: &Token) -> (r: String)
    ensures
        r@ == token_text(*t),
{
    let mut s = String::new();
    append_token_text(&mut s, t);
    assert(s@ =~= token_text(*t));
    s
}

// ---------------------------------------------------------------------------------------------
// Members
// ---------------------------------------------------------------------------------------------

/// A bit range `start..stop` of a bit field.
#[derive(Debug, Clone, PartialEq, Eq)]
pub struct Field {
    /// First bit.
    pub start: u8,
    /// Its rustdoc comment.
    pub rustdoc: String,
    /// Its name.
    pub identifier: String,
    /// The bit after the last.
    pub stop: u8,
}

/// A bit flag of a bit field.
#[derive(Debug, Clone, PartialEq, Eq)]
pub struct Flag {
    /// Its bit.
    pub index: u8,
    /// Its rustdoc comment.
    pub rustdoc: String,
    /// Its name.
    pub identifier: String,
}

/// A member of a bit field.
#[derive(Debug, Clone, PartialEq, Eq)]
pub enum Member {
    /// A bit range.
    Field(Field),
    /// A bit flag.
    Flag(Flag),
}

/// A member of a bit field, its texts as character sequences.
pub enum MemberView {
    /// A bit range `start..stop`.
    Field { start: u8, stop: u8, rustdoc: Seq<char>, identifier: Seq<char> },
    /// A bit flag at `index`.
    Flag { index: u8, rustdoc: Seq<char>, identifier: Seq<char> },
}

impl View for Member {
    type V = MemberView;

    open spec fn view(&self) -> MemberView {
        match self {
            Member::Field(f) => MemberView::Field {
                start: f.start,
                stop: f.stop,
                rustdoc: f.rustdoc@,
                identifier: f.identifier@,
            },
            Member::Flag(f) => MemberView::Flag {
                index: f.index,
                rustdoc: f.rustdoc@,
                identifier: f.identifier@,
            },
        }
    }
}

/// Why the members of a bit field cannot be read.
#[derive(Debug, PartialEq, Eq)]
pub enum BitFieldMembersParserIterError {
    /// Identifier already used.
    DuplicateIdentifier,
    /// Bad indices of a bit range.
    IndexField(IndexFieldError),
    /// Bad index of a bit flag.
    IndexFlag(IndexFlagError),
    /// Malformed rustdoc comment.
    RustdocMalformed,
    /// Rustdoc comment missing enclosing `"` characters.
    RustdocUnenclosed,
    /// Badly defined members: the texts of the tokens left.
    BadlyDefinedMembers(Vec<String>),
}

/// A [`BitFieldMembersParserIterError`], its texts as character sequences.
pub enum ParserErrorView {
    /// Identifier already used.
    DuplicateIdentifier,
    /// Bad indices of a bit range.
    IndexField(IndexFieldErrorView),
    /// Bad index of a bit flag.
    IndexFlag(IndexFlagError),
    /// Malformed rustdoc comment.
    RustdocMalformed,
    /// Rustdoc comment missing enclosing `"` characters.
    RustdocUnenclosed,
    /// Badly defined members: the texts of the tokens left.
    BadlyDefinedMembers(Seq<Seq<char>>),
}

impl View for BitFieldMembersParserIterError {
    type V = ParserErrorView;

    open spec fn view(&self) -> ParserErrorView {
        match self {
            BitFieldMembersParserIterError::DuplicateIdentifier => ParserErrorView::DuplicateIdentifier,
            BitFieldMembersParserIterError::IndexField(e) => ParserErrorView::IndexField(e@),
            BitFieldMembersParserIterError::IndexFlag(e) => ParserErrorView::IndexFlag(*e),
            BitFieldMembersParserIterError::RustdocMalformed => ParserErrorView::RustdocMalformed,
            BitFieldMembersParserIterError::RustdocUnenclosed => ParserErrorView::RustdocUnenclosed,
            BitFieldMembersParserIterError::BadlyDefinedMembers(v) => ParserErrorView::BadlyDefinedMembers(
                v@.map_values(|s: String| s@),
            ),
        }
    }
}

/// The view of what the parser yields.
pub open spec fn item_view(r: Option<Result<Member, BitFieldMembersParserIterError>>) -> Option<
    Result<MemberView, ParserErrorView>,
> {
    match r {
        None => None,
        Some(Ok(m)) => Some(Ok(m@)),
        Some(Err(e)) => Some(Err(e@)),
    }
}

// ---------------------------------------------------------------------------------------------
// The parser
// ---------------------------------------------------------------------------------------------

/// Where the parser stands: the tokens, the position of the next one, the identifiers
/// already used, the rustdoc gathered for the next member, the size in bits of the data type,
/// and whether an error was met.
pub struct ParserState {
    pub tokens: Seq<Token>,
    pub pos: int,
    pub existing: Seq<Seq<char>>,
    pub rustdoc: Seq<char>,
    pub size: u8,
    pub error: bool,
}

/// Whether `t` is the punctuation character `c`.
pub open spec fn is_punct(t: Token, c: char) -> bool {
    t matches Token::Punct(x) && x == c
}

/// Whether the tokens start with a bit range `ident : literal . . literal`.
pub open spec fn starts_with_field(r: Seq<Token>) -> bool {
    &&& r.len() >= 6
    &&& r[0] is Ident
    &&& is_punct(r[1], ':')
    &&& r[2] is Literal
    &&& is_punct(r[3], '.')
    &&& is_punct(r[4], '.')
    &&& r[5] is Literal
}

/// Whether the tokens start with a bit flag `ident : literal`.
pub open spec fn starts_with_flag(r: Seq<Token>) -> bool {
    &&& r.len() >= 3
    &&& r[0] is Ident
    &&& is_punct(r[1], ':')
    &&& r[2] is Literal
}

/// Whether the tokens start with a rustdoc attribute `# [ ... ]`.
pub open spec fn starts_with_doc(r: Seq<Token>) -> bool {
    r.len() >= 2 && is_punct(r[0], '#') && r[1] matches Token::Group(Delimiter::Bracket, _)
}

/// The comment of the tokens of a rustdoc attribute `doc = "comment"`, its leading white
/// space removed.
pub open spec fn doc_comment(inner: Seq<Token>) -> Result<Seq<char>, ParserErrorView> {
    if inner.len() == 3 && inner[0] is Ident && inner[0]->Ident_0@ == seq!['d', 'o', 'c'] && is_punct(
        inner[1],
        '=',
    ) && inner[2] is Literal {
        let lit = inner[2]->Literal_0@;
        if lit.len() >= 2 && lit[0] == '"' && lit.last() == '"' {
            Ok(trim_start_spec(lit.subrange(1, lit.len() - 1)))
        } else {
            Err(ParserErrorView::RustdocUnenclosed)
        }
    } else {
        Err(ParserErrorView::RustdocMalformed)
    }
}

/// The state with the error met.
pub open spec fn failed(st: ParserState) -> ParserState {
    ParserState {
        tokens: st.tokens,
        pos: st.pos,
        existing: st.existing,
        rustdoc: st.rustdoc,
        size: st.size,
        error: true,
    }
}

/// The outcome of a bit range of `n` tokens (6, or 7 with its comma) at the position.
pub open spec fn field_step(st: ParserState, n: int) -> (Option<Result<MemberView, ParserErrorView>>, ParserState) {
    let r = st.tokens.subrange(st.pos, st.tokens.len() as int);
    let ident = r[0]->Ident_0@;
    if st.existing.contains(ident) {
        (Some(Err(ParserErrorView::DuplicateIdentifier)), failed(st))
    } else {
        let existing = st.existing.push(ident);
        match index_field_spec(r[2]->Literal_0@, r[5]->Literal_0@, st.size) {
            Ok((start, stop)) => (
                Some(Ok(MemberView::Field { start, stop, rustdoc: st.rustdoc, identifier: ident })),
                ParserState {
                    tokens: st.tokens,
                    pos: st.pos + n,
                    existing,
                    rustdoc: Seq::empty(),
                    size: st.size,
                    error: false,
                },
            ),
            Err(e) => (
                Some(Err(ParserErrorView::IndexField(e))),
                ParserState {
                    tokens: st.tokens,
                    pos: st.pos,
                    existing,
                    rustdoc: st.rustdoc,
                    size: st.size,
                    error: true,
                },
            ),
        }
    }
}

/// The outcome of a bit flag of `n` tokens (3, or 4 with its comma) at the position.
pub open spec fn flag_step(st: ParserState, n: int) -> (Option<Result<MemberView, ParserErrorView>>, ParserState) {
    let r = st.tokens.subrange(st.pos, st.tokens.len() as int);
    let ident = r[0]->Ident_0@;
    if st.existing.contains(ident) {
        (Some(Err(ParserErrorView::DuplicateIdentifier)), failed(st))
    } else {
        let existing = st.existing.push(ident);
        match index_flag_spec(r[2]->Literal_0@, st.size) {
            Ok(index) => (
                Some(Ok(MemberView::Flag { index, rustdoc: st.rustdoc, identifier: ident })),
                ParserState {
                    tokens: st.tokens,
                    pos: st.pos + n,
                    existing,
                    rustdoc: Seq::empty(),
                    size: st.size,
                    error: false,
                },
            ),
            Err(e) => (
                Some(Err(ParserErrorView::IndexFlag(e))),
                ParserState {
                    tokens: st.tokens,
                    pos: st.pos,
                    existing,
                    rustdoc: st.rustdoc,
                    size: st.size,
                    error: true,
                },
            ),
        }
    }
}

/// What the parser yields next from state `st`, and the state after: nothing once an error
/// was met or the tokens are exhausted; else, tried in this order, a bit range followed by a
/// comma, a bit range ending the tokens, a bit flag followed by a comma, a bit flag ending the
/// tokens (each an error when its identifier was used before or its indices are out of the
/// data type), or a rustdoc attribute, whose comment is added to the rustdoc of the next
/// member before going on (an error when malformed); any other tokens are an error that
/// carries their texts. After an error, the parser yields nothing more.
pub open spec fn next_spec(st: ParserState) -> (Option<Result<MemberView, ParserErrorView>>, ParserState)
    decreases st.tokens.len() - st.pos,
{
    let r = st.tokens.subrange(st.pos, st.tokens.len() as int);
    if st.error || st.pos < 0 || st.pos > st.tokens.len() {
        (None, st)
    } else if starts_with_field(r) && r.len() >= 7 && is_punct(r[6], ',') {
        field_step(st, 7)
    } else if starts_with_field(r) && r.len() == 6 {
        field_step(st, 6)
    } else if starts_with_flag(r) && r.len() >= 4 && is_punct(r[3], ',') {
        flag_step(st, 4)
    } else if starts_with_flag(r) && r.len() == 3 {
        flag_step(st, 3)
    } else if starts_with_doc(r) {
        match doc_comment(r[1]->Group_1@) {
            Ok(comment) => next_spec(
                ParserState {
                    tokens: st.tokens,
                    pos: st.pos + 2,
                    existing: st.existing,
                    rustdoc: st.rustdoc + comment + seq![' '],
                    size: st.size,
                    error: false,
                },
            ),
            Err(e) => (Some(Err(e)), failed(st)),
        }
    } else if r.len() == 0 {
        (None, st)
    } else {
        (
            Some(Err(ParserErrorView::BadlyDefinedMembers(r.map_values(|t: Token| token_text(t))))),
            failed(st),
        )
    }
}

/// Whether token `t` is the punctuation character `c`.
fn punct_is(t: &Token, c: char) -> (r: bool)
    ensures
        r == is_punct(*t, c),
{
    match t {
        Token::Punct(x) => *x == c,
        _ => false,
    }
}

/// Whether the tokens from `p` on start with a bit range.
fn field_at(tokens: &[Token], p: usize) -> (r: bool)
    requires
        p <= tokens@.len(),
    ensures
        r == starts_with_field(tokens@.subrange(p as int, tokens@.len() as int)),
{
    let n = tokens.len();
    if n - p < 6 {
        return false;
    }
    let ghost r = tokens@.subrange(p as int, n as int);
    assert(r[0] == tokens@[p as int] && r[1] == tokens@[p + 1] && r[2] == tokens@[p + 2]);
    assert(r[3] == tokens@[p + 3] && r[4] == tokens@[p + 4] && r[5] == tokens@[p + 5]);
    (match &tokens[p] {
        Token::Ident(_) => true,
        _ => false,
    }) && punct_is(&tokens[p + 1], ':') && (match &tokens[p + 2] {
        Token::Literal(_) => true,
        _ => false,
    }) && punct_is(&tokens[p + 3], '.') && punct_is(&tokens[p + 4], '.') && (match &tokens[p + 5] {
        Token::Literal(_) => true,
        _ => false,
    })
}

/// Whether the tokens from `p` on start with a bit flag.
fn flag_at(tokens: &[Token], p: usize) -> (r: bool)
    requires
        p <= tokens@.len(),
    ensures
        r == starts_with_flag(tokens@.subrange(p as int, tokens@.len() as int)),
{
    let n = tokens.len();
    if n - p < 3 {
        return false;
    }
    let ghost r = tokens@.subrange(p as int, n as int);
    assert(r[0] == tokens@[p as int] && r[1] == tokens@[p + 1] && r[2] == tokens@[p + 2]);
    (match &tokens[p] {
        Token::Ident(_) => true,
        _ => false,
    }) && punct_is(&tokens[p + 1], ':') && (match &tokens[p + 2] {
        Token::Literal(_) => true,
        _ => false,
    })
}

/// Whether the tokens from `p` on start with a rustdoc attribute.
fn doc_at(tokens: &[Token], p: usize) -> (r: bool)
    requires
        p <= tokens@.len(),
    ensures
        r == starts_with_doc(tokens@.subrange(p as int, tokens@.len() as int)),
{
    let n = tokens.len();
    if n - p < 2 {
        return false;
    }
    let ghost r = tokens@.subrange(p as int, n as int);
    assert(r[0] == tokens@[p as int] && r[1] == tokens@[p + 1]);
    punct_is(&tokens[p], '#') && (match &tokens[p + 1] {
        Token::Group(Delimiter::Bracket, _) => true,
        _ => false,
    })
}

/// Whether `ident` is one of the identifiers in `existing`.
fn known(existing: &Vec<String>, ident: &String) -> (r: bool)
    ensures
        r == existing@.map_values(|s: String| s@).contains(ident@),
{
    let ghost views = existing@.map_values(|s: String| s@);
    let mut i: usize = 0;
    while i < existing.len()
        invariant
            0 <= i <= existing.len(),
            views == existing@.map_values(|s: String| s@),
            forall|j: int| 0 <= j < i ==> views[j] != ident@,
        decreases existing.len() - i,
    {
        if existing[i] == *ident {
            assert(views[i as int] == ident@);
            return true;
        }
        i = i + 1;
    }
    false
}

/// Adds the comment of a rustdoc attribute with tokens `inner` to `rustdoc`, followed by a
/// space.
fn read_doc(inner: &Vec<Token>, rustdoc: &mut String) -> (r: Result<(), BitFieldMembersParserIterError>)
    ensures
        match doc_comment(inner@) {
            Ok(comment) => r is Ok && final(rustdoc)@ == old(rustdoc)@ + comment + seq![' '],
            Err(e) => r matches Err(x) && x@ == e && final(rustdoc)@ == old(rustdoc)@,
        },
{
    if inner.len() != 3 {
        return Err(BitFieldMembersParserIterError::RustdocMalformed);
    }
    let is_doc = match &inner[0] {
        Token::Ident(x) => {
            let t = x.as_str();
            t.unicode_len() == 3 && t.get_char(0) == 'd' && t.get_char(1) == 'o' && t.get_char(2) == 'c'
        },
        _ => false,
    };
    if is_doc {
        assert(inner@[0]->Ident_0@ =~= seq!['d', 'o', 'c']);
    }
    if !is_doc || !punct_is(&inner[1], '=') {
        return Err(BitFieldMembersParserIterError::RustdocMalformed);
    }
    let lit = match &inner[2] {
        Token::Literal(l) => l.as_str(),
        _ => return Err(BitFieldMembersParserIterError::RustdocMalformed),
    };
    let n = lit.unicode_len();
    if n < 2 || lit.get_char(0) != '"' || lit.get_char(n - 1) != '"' {
        return Err(BitFieldMembersParserIterError::RustdocUnenclosed);
    }
    let comment = trim_start(lit.substring_char(1, n - 1));
    rustdoc.append(comment);
    push_char(rustdoc, ' ');
    Ok(())
}

/// The texts of the tokens from `p` on.
fn texts_from(tokens: &[Token], p: usize) -> (r: Vec<String>)
    requires
        p <= tokens@.len(),
    ensures
        r@.map_values(|s: String| s@) == tokens@.subrange(p as int, tokens@.len() as int).map_values(
            |t: Token| token_text(t),
        ),
{
    let mut v: Vec<String> = Vec::new();
    let mut i = p;
    while i < tokens.len()
        invariant
            p <= i <= tokens.len(),
            v@.map_values(|s: String| s@) == tokens@.subrange(p as int, i as int).map_values(
                |t: Token| token_text(t),
            ),
        decreases tokens.len() - i,
    {
        let t = token_string(&tokens[i]);
        let ghost before = v@;
        v.push(t);
        i = i + 1;
        proof {
            let lhs = v@.map_values(|s: String| s@);
            let rhs = tokens@.subrange(p as int, i as int).map_values(|t: Token| token_text(t));
            let prev = tokens@.subrange(p as int, i - 1).map_values(|t: Token| token_text(t));
            assert(before.map_values(|s: String| s@) == prev);
            assert(before.len() == prev.len());
            assert(v@ == before.push(t));
            assert(lhs.len() == rhs.len());
            assert forall|k: int| 0 <= k < lhs.len() implies lhs[k] == rhs[k] by {
                if k < lhs.len() - 1 {
                    assert(v@[k] == before[k]);
                    assert(lhs[k] == prev[k]);
                }
            }
            assert(lhs =~= rhs);
        }
    }
    v
}

/// Reads the members of a bit field from its tokens, one by one.
pub struct BitFieldMembersParser<'a> {
    /// The tokens.
    tokens: &'a [Token],
    /// The position of the next token.
    pos: usize,
    /// The identifiers used so far.
    existing: Vec<String>,
    /// The rustdoc gathered for the next member.
    rustdoc: String,
    /// The size in bits of the data type, e.g. 8 for `u8`.
    size: u8,
    /// Whether an error was met.
    error: bool,
}

impl<'a> BitFieldMembersParser<'a> {
    /// Where the parser stands.
    pub closed spec fn state(&self) -> ParserState {
        ParserState {
            tokens: self.tokens@,
            pos: self.pos as int,
            existing: self.existing@.map_values(|s: String| s@),
            rustdoc: self.rustdoc@,
            size: self.size,
            error: self.error,
        }
    }

    /// A parser of the members of a bit field of a data type of `size` bits, from its tokens.
    pub fn new(size: u8, tokens: &'a [Token]) -> (r: Self)
        ensures
            r.state() == (ParserState {
                tokens: tokens@,
                pos: 0,
                existing: Seq::empty(),
                rustdoc: Seq::empty(),
                size,
                error: false,
            }),
    {
        let r = BitFieldMembersParser {
            tokens,
            pos: 0,
            existing: Vec::new(),
            rustdoc: String::new(),
            size,
            error: false,
        };
        assert(r.existing@.map_values(|s: String| s@) =~= Seq::<Seq<char>>::empty());
        r
    }

    /// Reads the bit range of `n` tokens (6, or 7 with its comma) at the position.
    fn take_field(&mut self, n: usize) -> (r: Option<Result<Member, BitFieldMembersParserIterError>>)
        requires
            !old(self).state().error,
            starts_with_field(old(self).state().tokens.subrange(old(self).state().pos, old(self).state().tokens.len() as int)),
            n == 6 || n == 7,
            old(self).state().pos + n <= old(self).state().tokens.len(),
        ensures
            (item_view(r), final(self).state()) == field_step(old(self).state(), n as int),
    {
        let tokens: &'a [Token] = self.tokens;
        let p = self.pos;
        let ghost rest = tokens@.subrange(p as int, tokens@.len() as int);
        assert(rest[0] == tokens@[p as int] && rest[2] == tokens@[p + 2] && rest[5] == tokens@[p + 5]);
        let ident = match &tokens[p] {
            Token::Ident(x) => x,
            _ => return None,
        };
        if known(&self.existing, ident) {
            self.error = true;
            return Some(Err(BitFieldMembersParserIterError::DuplicateIdentifier));
        }
        let ghost before = self.existing@;
        self.existing.push(ident.clone());
        assert(self.existing@.map_values(|s: String| s@) =~= before.map_values(|s: String| s@).push(
            ident@,
        ));
        let start_text = match &tokens[p + 2] {
            Token::Literal(l) => l.as_str(),
            _ => return None,
        };
        let stop_text = match &tokens[p + 5] {
            Token::Literal(l) => l.as_str(),
            _ => return None,
        };
        match index_field(start_text, stop_text, self.size) {
            Ok((start, stop)) => {
                let rustdoc = self.rustdoc.clone();
                self.rustdoc = String::new();
                self.pos = p + n;
                Some(Ok(Member::Field(Field { start, rustdoc, identifier: ident.clone(), stop })))
            },
            Err(e) => {
                self.error = true;
                Some(Err(BitFieldMembersParserIterError::IndexField(e)))
            },
        }
    }

    /// Reads the bit flag of `n` tokens (3, or 4 with its comma) at the position.
    fn take_flag(&mut self, n: usize) -> (r: Option<Result<Member, BitFieldMembersParserIterError>>)
        requires
            !old(self).state().error,
            starts_with_flag(old(self).state().tokens.subrange(old(self).state().pos, old(self).state().tokens.len() as int)),
            n == 3 || n == 4,
            old(self).state().pos + n <= old(self).state().tokens.len(),
        ensures
            (item_view(r), final(self).state()) == flag_step(old(self).state(), n as int),
    {
        let tokens: &'a [Token] = self.tokens;
        let p = self.pos;
        let ghost rest = tokens@.subrange(p as int, tokens@.len() as int);
        assert(rest[0] == tokens@[p as int] && rest[2] == tokens@[p + 2]);
        let ident = match &tokens[p] {
            Token::Ident(x) => x,
            _ => return None,
        };
        if known(&self.existing, ident) {
            self.error = true;
            return Some(Err(BitFieldMembersParserIterError::DuplicateIdentifier));
        }
        let ghost before = self.existing@;
        self.existing.push(ident.clone());
        assert(self.existing@.map_values(|s: String| s@) =~= before.map_values(|s: String| s@).push(
            ident@,
        ));
        let index_text = match &tokens[p + 2] {
            Token::Literal(l) => l.as_str(),
            _ => return None,
        };
        match index_flag(index_text, self.size) {
            Ok(index) => {
                let rustdoc = self.rustdoc.clone();
                self.rustdoc = String::new();
                self.pos = p + n;
                Some(Ok(Member::Flag(Flag { index, rustdoc, identifier: ident.clone() })))
            },
            Err(e) => {
                self.error = true;
                Some(Err(BitFieldMembersParserIterError::IndexFlag(e)))
            },
        }
    }

    /// Yields the next member, or the error that stops the reading, or nothing once the
    /// tokens are read or an error was yielded (see [`next_spec`]).
    pub fn next(&mut self) -> (r: Option<Result<Member, BitFieldMembersParserIterError>>)
        ensures
            (item_view(r), final(self).state()) == next_spec(old(self).state()),
    {
        let tokens: &'a [Token] = self.tokens;
        let n = tokens.len();
        if self.error || self.pos > n {
            return None;
        }
        loop
            invariant
                !self.state().error,
                self.tokens == tokens,
                n == tokens@.len(),
                self.pos <= n,
                next_spec(self.state()) == next_spec(old(self).state()),
            decreases n - self.pos,
        {
            let p = self.pos;
            let ghost rest = tokens@.subrange(p as int, n as int);
            let field = field_at(tokens, p);
            if field && n - p >= 7 {
                assert(rest[6] == tokens@[p + 6]);
                if punct_is(&tokens[p + 6], ',') {
                    return self.take_field(7);
                }
            }
            if field && n - p == 6 {
                return self.take_field(6);
            }
            let flag = flag_at(tokens, p);
            if flag && n - p >= 4 {
                assert(rest[3] == tokens@[p + 3]);
                if punct_is(&tokens[p + 3], ',') {
                    return self.take_flag(4);
                }
            }
            if flag && n - p == 3 {
                return self.take_flag(3);
            }
            if doc_at(tokens, p) {
                assert(rest[1] == tokens@[p + 1]);
                let inner = match &tokens[p + 1] {
                    Token::Group(_, inner) => inner,
                    _ => return None,
                };
                match read_doc(inner, &mut self.rustdoc) {
                    Ok(()) => {
                        self.pos = p + 2;
                    },
                    Err(e) => {
                        self.error = true;
                        return Some(Err(e));
                    },
                }
            } else if n == p {
                return None;
            } else {
                let texts = texts_from(tokens, p);
                self.error = true;
                return Some(Err(BitFieldMembersParserIterError::BadlyDefinedMembers(texts)));
            }
        }
    }
}

// ---------------------------------------------------------------------------------------------
// Laws
// ---------------------------------------------------------------------------------------------

/// The identifier of a member.
pub open spec fn identifier_of(m: MemberView) -> Seq<char> {
    match m {
        MemberView::Field { identifier, .. } => identifier,
        MemberView::Flag { identifier, .. } => identifier,
    }
}

/// Whether a member lies within a data type of `size` bits: a bit range `start..stop` with
/// `start < size` and `start <= stop <= size`, or a bit flag below `size`.
pub open spec fn within_size(m: MemberView, size: u8) -> bool {
    match m {
        MemberView::Field { start, stop, .. } => start < size && start <= stop && stop <= size,
        MemberView::Flag { index, .. } => index < size,
    }
}

/// The state of the parser after `n` more calls.
pub open spec fn state_after(st: ParserState, n: nat) -> ParserState
    decreases n,
{
    if n == 0 {
        st
    } else {
        state_after(next_spec(st).1, (n - 1) as nat)
    }
}

/// A call that yields an error leaves the parser failed.
proof fn lemma_error_fails(st: ParserState)
    ensures
        next_spec(st).0 matches Some(Err(_)) ==> next_spec(st).1.error,
    decreases st.tokens.len() - st.pos,
{
    let r = st.tokens.subrange(st.pos, st.tokens.len() as int);
    if !(st.error || st.pos < 0 || st.pos > st.tokens.len()) && !(starts_with_field(r) && r.len()
        >= 6) && !(starts_with_flag(r) && r.len() >= 3) && starts_with_doc(r) {
        if let Ok(comment) = doc_comment(r[1]->Group_1@) {
            lemma_error_fails(
                ParserState {
                    tokens: st.tokens,
                    pos: st.pos + 2,
                    existing: st.existing,
                    rustdoc: st.rustdoc + comment + seq![' '],
                    size: st.size,
                    error: false,
                },
            );
        }
    }
}

/// A failed parser stays as it is, whatever the number of calls.
proof fn lemma_failed_stays(st: ParserState, n: nat)
    requires
        st.error,
    ensures
        state_after(st, n) == st,
    decreases n,
{
    if n > 0 {
        lemma_failed_stays(next_spec(st).1, (n - 1) as nat);
    }
}

/// Once the parser yields an error, every later call yields nothing: the call after the
/// error and the `n` calls after that one.
pub proof fn lemma_nothing_after_error(st: ParserState, n: nat)
    ensures
        next_spec(st).0 matches Some(Err(_)) ==> next_spec(state_after(next_spec(st).1, n)).0 is None,
{
    lemma_error_fails(st);
    if next_spec(st).0 matches Some(Err(_)) {
        lemma_failed_stays(next_spec(st).1, n);
    }
}

/// Whether the tokens start with a member: a bit range or a bit flag, followed by a comma
/// or by nothing.
pub open spec fn starts_with_member(r: Seq<Token>) -> bool {
    ||| starts_with_field(r) && (r.len() == 6 || is_punct(r[6], ','))
    ||| starts_with_flag(r) && (r.len() == 3 || is_punct(r[3], ','))
}

/// A member whose identifier an earlier member bore is refused as a duplicate, and the
/// parser fails.
pub proof fn lemma_duplicate_refused(st: ParserState)
    requires
        !st.error,
        0 <= st.pos <= st.tokens.len(),
        starts_with_member(st.tokens.subrange(st.pos, st.tokens.len() as int)),
        st.existing.contains(st.tokens[st.pos]->Ident_0@),
    ensures
        next_spec(st) == (
            Some(Err::<MemberView, ParserErrorView>(ParserErrorView::DuplicateIdentifier)),
            failed(st),
        ),
{
    let r = st.tokens.subrange(st.pos, st.tokens.len() as int);
    assert(r[0] == st.tokens[st.pos]);
}

/// A member followed by anything but a comma makes the rest of the tokens badly defined
/// members, given as their texts, and the parser fails.
pub proof fn lemma_comma_needed(st: ParserState)
    requires
        !st.error,
        0 <= st.pos <= st.tokens.len(),
        ({
            let r = st.tokens.subrange(st.pos, st.tokens.len() as int);
            ||| starts_with_field(r) && r.len() > 6 && !is_punct(r[6], ',')
            ||| starts_with_flag(r) && !starts_with_field(r) && r.len() > 3 && !is_punct(r[3], ',')
        }),
    ensures
        next_spec(st) == (
            Some(
                Err::<MemberView, ParserErrorView>(
                    ParserErrorView::BadlyDefinedMembers(
                        st.tokens.subrange(st.pos, st.tokens.len() as int).map_values(
                            |t: Token| token_text(t),
                        ),
                    ),
                ),
            ),
            failed(st),
        ),
{
}

/// Every member the parser yields lies within the data type, bears an identifier that no
/// member before it bore, and that identifier is then counted as used; the data type and the
/// tokens stay the same.
pub proof fn lemma_members_valid_and_distinct(st: ParserState)
    ensures
        next_spec(st).1.size == st.size,
        next_spec(st).1.tokens == st.tokens,
        next_spec(st).0 matches Some(Ok(m)) ==> {
            &&& within_size(m, st.size)
            &&& !st.existing.contains(identifier_of(m))
            &&& next_spec(st).1.existing == st.existing.push(identifier_of(m))
        },
    decreases st.tokens.len() - st.pos,
{
    let r = st.tokens.subrange(st.pos, st.tokens.len() as int);
    if !(st.error || st.pos < 0 || st.pos > st.tokens.len()) && starts_with_doc(r) {
        if let Ok(comment) = doc_comment(r[1]->Group_1@) {
            lemma_members_valid_and_distinct(
                ParserState {
                    tokens: st.tokens,
                    pos: st.pos + 2,
                    existing: st.existing,
                    rustdoc: st.rustdoc + comment + seq![' '],
                    size: st.size,
                    error: false,
                },
            );
        }
    }
}

/// The identifiers counted as used only grow.
proof fn lemma_existing_grows(st: ParserState, x: Seq<char>)
    ensures
        st.existing.contains(x) ==> next_spec(st).1.existing.contains(x),
    decreases st.tokens.len() - st.pos,
{
    let r = st.tokens.subrange(st.pos, st.tokens.len() as int);
    if !(st.error || st.pos < 0 || st.pos > st.tokens.len()) && starts_with_doc(r) {
        if let Ok(comment) = doc_comment(r[1]->Group_1@) {
            lemma_existing_grows(
                ParserState {
                    tokens: st.tokens,
                    pos: st.pos + 2,
                    existing: st.existing,
                    rustdoc: st.rustdoc + comment + seq![' '],
                    size: st.size,
                    error: false,
                },
                x,
            );
        }
    }
    if st.existing.contains(x) {
        let i = choose|i: int| 0 <= i < st.existing.len() && st.existing[i] == x;
        let e = st.existing;
        // Pushing keeps the entries before the end.
        assert(e.push(seq![]).len() > i);
        assert forall|y: Seq<char>| e.push(y)[i] == x by {}
    }
}

/// The state of a parser after `k` calls of `next` from state `st`.
pub open spec fn state_after_calls(st: ParserState, k: nat) -> ParserState
    decreases k,
{
    if k == 0 {
        st
    } else {
        state_after_calls(next_spec(st).1, (k - 1) as nat)
    }
}

/// What call number `k` (counting from 0) of `next` yields, starting from state `st`.
pub open spec fn item_at(st: ParserState, k: nat) -> Option<Result<MemberView, ParserErrorView>> {
    next_spec(state_after_calls(st, k)).0
}

proof fn lemma_existing_kept(st: ParserState, i: nat, m: nat, x: Seq<char>)
    requires
        i <= m,
        state_after_calls(st, i).existing.contains(x),
    ensures
        state_after_calls(st, m).existing.contains(x),
    decreases m,
{
    if i < m {
        lemma_existing_kept(st, i, (m - 1) as nat, x);
        lemma_after_calls_step(st, (m - 1) as nat);
        lemma_existing_grows(state_after_calls(st, (m - 1) as nat), x);
    }
}

proof fn lemma_after_calls_step(st: ParserState, k: nat)
    ensures
        state_after_calls(st, k + 1) == next_spec(state_after_calls(st, k)).1,
    decreases k,
{
    assert(state_after_calls(st, k + 1) == state_after_calls(next_spec(st).1, k));
    if k > 0 {
        assert(state_after_calls(st, k) == state_after_calls(next_spec(st).1, (k - 1) as nat));
        lemma_after_calls_step(next_spec(st).1, (k - 1) as nat);
    } else {
        assert(state_after_calls(next_spec(st).1, 0) == next_spec(st).1);
    }
}

/// The members a parser yields over all its calls bear distinct identifiers, and each lies
/// within the data type.
pub proof fn lemma_distinct_identifiers(st: ParserState, i: nat, j: nat)
    requires
        i < j,
        item_at(st, i) is Some && item_at(st, i).unwrap() is Ok,
        item_at(st, j) is Some && item_at(st, j).unwrap() is Ok,
    ensures
        identifier_of(item_at(st, i).unwrap()->Ok_0) != identifier_of(item_at(st, j).unwrap()->Ok_0),
        within_size(item_at(st, i).unwrap()->Ok_0, state_after_calls(st, i).size),
{
    let si = state_after_calls(st, i);
    let a = item_at(st, i).unwrap()->Ok_0;
    lemma_members_valid_and_distinct(si);
    lemma_after_calls_step(st, i);
    let id = identifier_of(a);
    assert(state_after_calls(st, i + 1).existing == si.existing.push(id));
    assert(state_after_calls(st, i + 1).existing[si.existing.len() as int] == id);
    lemma_existing_kept(st, i + 1, j, id);
    lemma_members_valid_and_distinct(state_after_calls(st, j));
}

} // verus!
