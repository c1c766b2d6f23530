use firecracker::construct::format_radix;
use firecracker::member_parser::{
    index_field, index_flag, parse_u8, token_string, trim_start, BitFieldMembersParser,
    BitFieldMembersParserIterError, Delimiter, Field, Flag, IndexFieldError, IndexFlagError,
    Member, ParseU8Error, Token,
};

fn ident(s: &str) -> Token {
    Token::Ident(s.to_string())
}
fn punct(c: char) -> Token {
    Token::Punct(c)
}
fn unsuffixed(n: u8) -> Token {
    Token::Literal(n.to_string())
}
fn rustdoc(s: &str) -> Vec<Token> {
    vec![
        punct('#'),
        Token::Group(
            Delimiter::Bracket,
            vec![ident("doc"), punct('='), Token::Literal(format!("{:?}", s))],
        ),
    ]
}
fn field(name: &str, start: u8, stop: u8) -> Vec<Token> {
    vec![ident(name), punct(':'), unsuffixed(start), punct('.'), punct('.'), unsuffixed(stop)]
}
fn field_comma(name: &str, start: u8, stop: u8) -> Vec<Token> {
    let mut v = field(name, start, stop);
    v.push(punct(','));
    v
}
fn flag(name: &str, index: u8) -> Vec<Token> {
    vec![ident(name), punct(':'), unsuffixed(index)]
}
fn flag_comma(name: &str, index: u8) -> Vec<Token> {
    let mut v = flag(name, index);
    v.push(punct(','));
    v
}
fn concat(parts: Vec<Vec<Token>>) -> Vec<Token> {
    let mut v = Vec::new();
    for part in parts {
        v.extend(part);
    }
    v
}
fn is_field(
    item: Option<Result<Member, BitFieldMembersParserIterError>>,
    start: u8,
    stop: u8,
    doc: &str,
    name: &str,
) -> bool {
    matches!(item, Some(Ok(Member::Field(Field { start: s, rustdoc, identifier, stop: e })))
        if s == start && e == stop && rustdoc == doc && identifier == name)
}
fn is_flag(
    item: Option<Result<Member, BitFieldMembersParserIterError>>,
    index: u8,
    doc: &str,
    name: &str,
) -> bool {
    matches!(item, Some(Ok(Member::Flag(Flag { index: i, rustdoc, identifier })))
        if i == index && rustdoc == doc && identifier == name)
}

#[test]
fn bit_field_members_parser_empty() {
    let tokens: Vec<Token> = vec![];
    let mut parser = BitFieldMembersParser::new(8, &tokens);
    assert!(matches!(parser.next(), None));
}

#[test]
fn bit_field_members_parser_field() {
    let tokens = field("field", 0, 1);
    let mut parser = BitFieldMembersParser::new(8, &tokens);
    assert!(is_field(parser.next(), 0, 1, "", "field"));
    assert!(matches!(parser.next(), None));
}

#[test]
fn bit_field_members_parser_field_comma() {
    let tokens = field_comma("field", 0, 1);
    let mut parser = BitFieldMembersParser::new(8, &tokens);
    assert!(is_field(parser.next(), 0, 1, "", "field"));
    assert!(matches!(parser.next(), None));
}

#[test]
fn bit_field_members_parser_field_no_comma() {
    let tokens = concat(vec![field("field1", 0, 1), field("field2", 1, 2)]);
    let mut parser = BitFieldMembersParser::new(8, &tokens);
    assert!(matches!(parser.next(),
        Some(Err(BitFieldMembersParserIterError::BadlyDefinedMembers(vec)))
            if vec == vec!["field1", ":", "0", ".", ".", "1", "field2", ":", "1", ".", ".", "2"]));
    assert!(matches!(parser.next(), None));
}

#[test]
fn bit_field_members_parser_flag_duplicate() {
    let tokens = concat(vec![field_comma("field", 0, 1), field("field", 1, 2)]);
    let mut parser = BitFieldMembersParser::new(8, &tokens);
    assert!(is_field(parser.next(), 0, 1, "", "field"));
    assert!(matches!(
        parser.next(),
        Some(Err(BitFieldMembersParserIterError::DuplicateIdentifier))
    ));
    assert!(matches!(parser.next(), None));
}

#[test]
fn bit_field_members_parser_flag_comma_duplicate() {
    let tokens = concat(vec![field_comma("field", 0, 1), field_comma("field", 1, 2)]);
    let mut parser = BitFieldMembersParser::new(8, &tokens);
    assert!(is_field(parser.next(), 0, 1, "", "field"));
    assert!(matches!(
        parser.next(),
        Some(Err(BitFieldMembersParserIterError::DuplicateIdentifier))
    ));
    assert!(matches!(parser.next(), None));
    assert!(matches!(parser.next(), None));
}

#[test]
fn bit_field_members_parser_field_seperating_comma() {
    let tokens = concat(vec![field_comma("field1", 0, 1), field("field2", 1, 2)]);
    let mut parser = BitFieldMembersParser::new(8, &tokens);
    assert!(is_field(parser.next(), 0, 1, "", "field1"));
    assert!(is_field(parser.next(), 1, 2, "", "field2"));
    assert!(matches!(parser.next(), None));
}

#[test]
fn bit_field_members_parser_field_rustdoc() {
    let tokens = concat(vec![rustdoc("some docs"), field("field", 0, 1)]);
    let mut parser = BitFieldMembersParser::new(8, &tokens);
    assert!(is_field(parser.next(), 0, 1, "some docs ", "field"));
    assert!(matches!(parser.next(), None));
}

#[test]
fn bit_field_members_parser_flag() {
    let tokens = flag("flag", 0);
    let mut parser = BitFieldMembersParser::new(8, &tokens);
    assert!(is_flag(parser.next(), 0, "", "flag"));
    assert!(matches!(parser.next(), None));
}

#[test]
fn bit_field_members_parser_flag_comma() {
    let tokens = flag_comma("flag", 0);
    let mut parser = BitFieldMembersParser::new(8, &tokens);
    assert!(is_flag(parser.next(), 0, "", "flag"));
    assert!(matches!(parser.next(), None));
}

#[test]
fn bit_field_members_parser_flag_no_comma() {
    let tokens = concat(vec![flag("flag1", 0), flag("flag2", 1)]);
    let mut parser = BitFieldMembersParser::new(8, &tokens);
    assert!(matches!(parser.next(),
        Some(Err(BitFieldMembersParserIterError::BadlyDefinedMembers(vec)))
            if vec == vec!["flag1", ":", "0", "flag2", ":", "1"]));
    assert!(matches!(parser.next(), None));
}

#[test]
fn bit_field_members_parser_flag_seperating_comma() {
    let tokens = concat(vec![flag_comma("flag1", 0), flag("flag2", 1)]);
    let mut parser = BitFieldMembersParser::new(8, &tokens);
    assert!(is_flag(parser.next(), 0, "", "flag1"));
    assert!(is_flag(parser.next(), 1, "", "flag2"));
    assert!(matches!(parser.next(), None));
}

#[test]
fn bit_field_members_parser_flag_rustdoc() {
    let tokens = concat(vec![rustdoc("some docs"), flag("flag", 0)]);
    let mut parser = BitFieldMembersParser::new(8, &tokens);
    assert!(is_flag(parser.next(), 0, "some docs ", "flag"));
    assert!(matches!(parser.next(), None));
}

#[test]
fn bit_field_members_parser_mixed() {
    let tokens = concat(vec![
        rustdoc("some docs"),
        flag_comma("flag1", 0),
        rustdoc("some more docs"),
        field_comma("field1", 1, 2),
        flag_comma("flag2", 3),
        rustdoc("some extra docs"),
        field_comma("field2", 4, 5),
    ]);
    let mut parser = BitFieldMembersParser::new(8, &tokens);
    assert!(is_flag(parser.next(), 0, "some docs ", "flag1"));
    assert!(is_field(parser.next(), 1, 2, "some more docs ", "field1"));
    assert!(is_flag(parser.next(), 3, "", "flag2"));
    assert!(is_field(parser.next(), 4, 5, "some extra docs ", "field2"));
    assert!(matches!(parser.next(), None));
}

#[test]
fn index_field_suffixed() {
    let res = index_field("0u8", "4u8", 8);
    assert!(matches!(res, Err(IndexFieldError::ParseStart(_))));
    let res = index_field("0", "4u8", 8);
    assert!(matches!(res, Err(IndexFieldError::ParseStop(_))));
}

#[test]
fn index_field_unsuffixed() {
    let res = index_field("0", "4", 8);
    assert!(matches!(res, Ok((0, 4))));
}

#[test]
fn index_field_start_outside() {
    let res = index_field("8", "4", 8);
    assert!(matches!(res, Err(IndexFieldError::InvalidStart { start: 8, valid_range })
        if valid_range == (0..8)));
}

#[test]
fn index_field_stop_outside() {
    let res = index_field("0", "9", 8);
    assert!(matches!(res, Err(IndexFieldError::InvalidStop { stop: 9, valid_range })
        if valid_range == (0..=8)));
}

#[test]
fn index_field_stop_before() {
    let res = index_field("4", "3", 8);
    assert!(matches!(res, Err(IndexFieldError::InvalidStop { stop: 3, valid_range })
        if valid_range == (4..=8)));
}

#[test]
fn index_flag_suffixed() {
    let res = index_flag("4u8", 8);
    assert!(matches!(res, Err(IndexFlagError::Parse(_))));
}

#[test]
fn index_flag_unsuffixed() {
    let res = index_flag("4", 8);
    assert!(matches!(res, Ok(4)));
}

#[test]
fn index_flag_outside() {
    let res = index_flag("8", 8);
    assert!(matches!(res, Err(IndexFlagError::Invalid { index: 8, valid_range })
        if valid_range == (0..8)));
}

#[test]
fn u8_texts() {
    assert_eq!(parse_u8("0"), Ok(0));
    assert_eq!(parse_u8("+17"), Ok(17));
    assert_eq!(parse_u8("255"), Ok(255));
    assert_eq!(parse_u8("0007"), Ok(7));
    assert_eq!(parse_u8(""), Err(ParseU8Error::Empty));
    assert_eq!(parse_u8("+"), Err(ParseU8Error::InvalidDigit));
    assert_eq!(parse_u8("-1"), Err(ParseU8Error::InvalidDigit));
    assert_eq!(parse_u8(" 1"), Err(ParseU8Error::InvalidDigit));
    assert_eq!(parse_u8("\u{663}"), Err(ParseU8Error::InvalidDigit));
    assert_eq!(parse_u8("256"), Err(ParseU8Error::PosOverflow));
    assert_eq!(parse_u8("99999x"), Err(ParseU8Error::InvalidDigit));
    // The same outcomes as the standard library's parsing.
    for text in ["0", "+17", "255", "0007", "", "+", "-1", " 1", "256", "1_0"] {
        assert_eq!(parse_u8(text).is_ok(), text.parse::<u8>().is_ok());
        assert_eq!(parse_u8(text).ok(), text.parse::<u8>().ok());
    }
}

#[test]
fn white_space_trimming() {
    assert_eq!(trim_start("  \t\n docs "), "docs ");
    assert_eq!(trim_start("\u{3000}\u{a0}x"), "x");
    assert_eq!(trim_start("x  "), "x  ");
    assert_eq!(trim_start(""), "");
    for text in [" a", "\u{2028}b", "\u{200b}c", "\u{85}d"] {
        assert_eq!(trim_start(text), text.trim_start());
    }
}

#[test]
fn rustdoc_errors() {
    let tokens = vec![
        punct('#'),
        Token::Group(Delimiter::Bracket, vec![ident("dock"), punct('='), Token::Literal("\"x\"".to_string())]),
    ];
    let mut parser = BitFieldMembersParser::new(8, &tokens);
    assert!(matches!(parser.next(), Some(Err(BitFieldMembersParserIterError::RustdocMalformed))));
    assert!(matches!(parser.next(), None));
    let tokens = vec![
        punct('#'),
        Token::Group(Delimiter::Bracket, vec![ident("doc"), punct('='), Token::Literal("r\"x\"".to_string())]),
    ];
    let mut parser = BitFieldMembersParser::new(8, &tokens);
    assert!(matches!(parser.next(), Some(Err(BitFieldMembersParserIterError::RustdocUnenclosed))));
    let tokens = vec![
        punct('#'),
        Token::Group(Delimiter::Bracket, vec![ident("doc"), punct('='), Token::Literal("\"".to_string())]),
    ];
    let mut parser = BitFieldMembersParser::new(8, &tokens);
    assert!(matches!(parser.next(), Some(Err(BitFieldMembersParserIterError::RustdocUnenclosed))));
    // A rustdoc attribute in parentheses is no rustdoc attribute.
    let tokens = vec![
        punct('#'),
        Token::Group(Delimiter::Parenthesis, vec![ident("doc"), punct('='), Token::Literal("\"x\"".to_string())]),
    ];
    let mut parser = BitFieldMembersParser::new(8, &tokens);
    assert!(matches!(parser.next(),
        Some(Err(BitFieldMembersParserIterError::BadlyDefinedMembers(vec)))
            if vec == vec!["#", "(doc = \"x\")"]));
}

#[test]
fn member_errors() {
    let tokens = concat(vec![flag_comma("a", 1), field("a", 2, 3)]);
    let mut parser = BitFieldMembersParser::new(8, &tokens);
    assert!(is_flag(parser.next(), 1, "", "a"));
    assert!(matches!(parser.next(), Some(Err(BitFieldMembersParserIterError::DuplicateIdentifier))));
    let tokens = field("wide", 0, 17);
    let mut parser = BitFieldMembersParser::new(16, &tokens);
    assert!(matches!(parser.next(),
        Some(Err(BitFieldMembersParserIterError::IndexField(IndexFieldError::InvalidStop { stop: 17, .. })))));
    assert!(matches!(parser.next(), None));
    let tokens = flag("top", 32);
    let mut parser = BitFieldMembersParser::new(32, &tokens);
    assert!(matches!(parser.next(),
        Some(Err(BitFieldMembersParserIterError::IndexFlag(IndexFlagError::Invalid { index: 32, .. })))));
    let tokens = field("whole", 0, 32);
    let mut parser = BitFieldMembersParser::new(32, &tokens);
    assert!(is_field(parser.next(), 0, 32, "", "whole"));
}

#[test]
fn token_texts() {
    let group = Token::Group(
        Delimiter::Brace,
        vec![ident("a"), punct(':'), Token::Group(Delimiter::Parenthesis, vec![]), unsuffixed(7)],
    );
    assert_eq!(token_string(&group), "{a : () 7}");
    assert_eq!(token_string(&Token::Group(Delimiter::Invisible, vec![ident("x")])), "x");
    assert_eq!(token_string(&punct('#')), "#");
}

#[test]
fn radix_names() {
    assert_eq!(format_radix(0), "a");
    assert_eq!(format_radix(24), "y");
    assert_eq!(format_radix(25), "ba");
    assert_eq!(format_radix(26), "bb");
    assert_eq!(format_radix(625), "baa");
    let names: Vec<String> = (0..2000).map(format_radix).collect();
    let mut sorted = names.clone();
    sorted.sort();
    sorted.dedup();
    assert_eq!(sorted.len(), 2000);
}

#[test]
fn parser_stays_empty_after_error() {
    let tokens = concat(vec![flag("flag1", 0), flag_comma("flag2", 1), flag("flag3", 2)]);
    let mut parser = BitFieldMembersParser::new(8, &tokens);
    assert!(matches!(
        parser.next(),
        Some(Err(BitFieldMembersParserIterError::BadlyDefinedMembers(_)))
    ));
    for _ in 0..5 {
        assert!(matches!(parser.next(), None));
    }
}
