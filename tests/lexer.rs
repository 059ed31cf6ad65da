use hopes_lexer::bot::{fragments, Bot};
use hopes_lexer::id::{Error, Id, Path, Scheme};
use hopes_lexer::matcher::Matcher;
use hopes_lexer::number::{replace_first_comma, Number};
use hopes_lexer::token::{Bracket, Case, Command, Expression, Flow, Modifier, Token, Value};
use hopes_lexer::vocabulary::{Pattern, Vocabulary};

fn vocab() -> Vocabulary {
    Vocabulary::english().expect("the English patterns compile")
}

fn strings(v: &[&str]) -> Vec<String> {
    v.iter().map(|s| s.to_string()).collect()
}

#[test]
fn skip_agrees_with_whitespace_on_blank_space() {
    let v = vocab();
    for piece in [" ", "  ", "\t", "\n", "\r\n"] {
        assert!(v.whitespace(piece));
        assert!(v.skip(piece));
    }
}

#[test]
fn skip_covers_ignore_list_but_not_whitespace_test() {
    let v = vocab();
    for piece in [",", ";", ":", "!", "?"] {
        assert!(v.skip(piece));
        assert!(!v.whitespace(piece));
    }
}

#[test]
fn skip_never_takes_reserved_words_or_terms() {
    let v = vocab();
    for piece in ["next", "new", "this", "and", "if", "send", "=", "+", "(", "true", "word", "x_1"] {
        assert!(!v.skip(piece), "{piece}");
    }
}

#[test]
fn identifier_wins_over_version() {
    let v = vocab();
    assert!(v.val_version.is_match("v1.2"));
    assert!(v.val_id.is_match("v1.2"));
    assert_eq!(v.check_pattern("v1.2"), Some(Pattern::Id));
}

#[test]
fn check_pattern_categories() {
    let v = vocab();
    assert_eq!(v.check_pattern("#"), Some(Pattern::Comment));
    assert_eq!(v.check_pattern("user.name"), Some(Pattern::Id));
    assert_eq!(v.check_pattern("0123456789abcdef0123456789abcdef"), Some(Pattern::Seal));
    assert_eq!(v.check_pattern("\""), Some(Pattern::Text));
    assert_eq!(v.check_pattern("5min"), Some(Pattern::Time));
    assert_eq!(v.check_pattern("1.2.3"), Some(Pattern::Version));
    assert_eq!(v.check_pattern("hello"), None);
}

fn num(digits: &str, scale: usize) -> Number {
    Number { digits: digits.to_string(), scale }
}

#[test]
fn number_reads_decimal_comma() {
    let v = vocab();
    let expected = Some(num("314", 2));
    assert_eq!(v.number("3,14"), expected);
    assert_eq!(v.number("3.14"), expected);
    assert_eq!(v.number("3,14"), v.number("3.14"));
}

#[test]
fn number_with_several_commas_is_not_numeric() {
    let v = vocab();
    assert_eq!(v.number("1,2,3"), None);
    assert_eq!(replace_first_comma("1,2,3"), "1.2,3");
    assert_eq!(Number::from_string("1.2,3".to_string()), None);
}

#[test]
fn number_integers_and_rejections() {
    let v = vocab();
    assert_eq!(v.number("42"), Some(num("42", 0)));
    assert_eq!(v.number("0,5"), Some(num("05", 1)));
    assert_eq!(v.number("abc"), None);
    assert_eq!(v.number(""), None);
}

#[test]
fn number_of_any_length() {
    let v = vocab();
    assert_eq!(v.number("99999999999999999999"), Some(num("99999999999999999999", 0)));
    assert_eq!(v.number("123456789012345678901234,5"), Some(num("1234567890123456789012345", 1)));
}

#[test]
fn decimal_parsing() {
    assert_eq!(Number::from_string("18446744073709551616".to_string()), Some(num("18446744073709551616", 0)));
    assert_eq!(Number::from_string("1.".to_string()), None);
    assert_eq!(Number::from_string(".5".to_string()), None);
    assert_eq!(Number::from_string("1.2.3".to_string()), None);
    assert_eq!(Number::from_string("-1".to_string()), None);
    assert_eq!(Number::from_string("10.250".to_string()), Some(num("10250", 3)));
}

#[test]
fn id_ordering_is_structural() {
    let a = Id::reference(strings(&["a"]));
    let b = Id::reference(strings(&["b"]));
    assert!(a < b);
    assert!(Path::from_vec(strings(&["a"])) < Path::from_vec(strings(&["a", "b"])));
    assert!(Scheme::Custom("z".to_string()) < Scheme::Screen);
}

#[test]
fn first_comma_only() {
    assert_eq!(replace_first_comma("a,b,c"), "a.b,c");
    assert_eq!(replace_first_comma("abc"), "abc");
    assert_eq!(replace_first_comma(""), "");
}

#[test]
fn reserved_round_trip() {
    let v = vocab();
    let table = [
        ("next", Token::Mod(Modifier::Next)),
        ("new", Token::Mod(Modifier::New)),
        ("this", Token::This),
        ("and", Token::Case(Case::And)),
        ("is", Token::Case(Case::Equal)),
        ("if", Token::Case(Case::If)),
        ("then", Token::Case(Case::Then)),
        ("send", Token::Cmd(Command::Send)),
        ("show", Token::Cmd(Command::Show)),
        ("sum", Token::Cmd(Command::Sum)),
        ("=", Token::Exp(Expression::Assign)),
        ("/", Token::Exp(Expression::Divide)),
        (")", Token::Exp(Expression::End)),
        ("-", Token::Exp(Expression::Minus)),
        ("*", Token::Exp(Expression::Multiply)),
        ("+", Token::Exp(Expression::Plus)),
        ("(", Token::Exp(Expression::Start)),
        ("as", Token::Mod(Modifier::Binding)),
        ("of", Token::Mod(Modifier::Selection)),
        ("to", Token::Mod(Modifier::Targeting)),
        ("true", Token::Val(Value::Fact(true))),
        ("false", Token::Val(Value::Fact(false))),
    ];
    for (word, token) in table {
        assert_eq!(v.reserved(word), Some(token), "{word}");
    }
    assert_eq!(v.reserved("word"), None);
}

#[test]
fn reserved_words_come_before_terms() {
    let v = vocab();
    for word in ["next", "new", "this", "and", "if", "then", "send", "show", "sum", "as", "of", "to", "true"] {
        let picked = v.reserved(word).or_else(|| v.term(word));
        assert!(!matches!(picked, Some(Token::Term(_))), "{word}");
    }
}

#[test]
fn term_wraps_fragment() {
    let v = vocab();
    assert_eq!(v.term("word"), Some(Token::Term("word".to_string())));
    assert_eq!(v.term("+"), None);
    assert_eq!(v.term(" "), None);
}

#[test]
fn literal_end_modifiers() {
    let v = vocab();
    assert_eq!(v.literal_end("New"), Some(Token::Mod(Modifier::New)));
    assert_eq!(v.literal_end("next"), Some(Token::Mod(Modifier::Next)));
    assert_eq!(v.literal_end("this"), None);
}

#[test]
fn text_and_comment_ends() {
    let v = vocab();
    assert!(v.text_end("\""));
    assert!(!v.text_end("a"));
    assert!(v.comment_end("\n"));
    assert!(!v.comment_end("a"));
}

#[test]
fn id_rendering() {
    let r = Id::reference(strings(&["a", "b"]));
    assert_eq!(r.render(), "@hopes:a/b");
    assert_eq!(Id::ref_result().render(), "@hopes");
    assert_eq!(Id::from_str("x").unwrap().render(), "@x");
    assert_eq!(Id::from_text("y".to_string()).unwrap().render(), "@y");
}

#[test]
fn id_rendering_with_domain() {
    let id = Id { scheme: Scheme::Http, domain: Some("host".to_string()), path: Path::from_vec(strings(&["a", "b"])) };
    assert_eq!(id.render(), "@http://host/a/b");
    let screen = Id { scheme: Scheme::Screen, domain: None, path: Path::new() };
    assert_eq!(screen.render(), "@screen");
}

#[test]
fn get_term_cases() {
    assert_eq!(Id::reference(strings(&["only"])).get_term(), Ok("only".to_string()));
    assert_eq!(Id::reference(vec![]).get_term(), Err(Error::NotATerm));
    assert_eq!(Id::reference(strings(&["a", "b"])).get_term(), Err(Error::InvalidTerm));
    assert_eq!(Id::from_str("x").unwrap().get_term(), Err(Error::NotATerm));
}

#[test]
fn comment_sub_scan() {
    let mut v = vocab();
    v.comment_end = Matcher::new("^<end>$").unwrap();
    let bot = Bot { vocab: v };
    let pieces = strings(&["hello", " ", "world", "<end>", "next"]);
    let mut cursor = 0usize;
    let mut tokens = vec![Token::This];
    assert_eq!(bot.collect_comment(&pieces, &mut cursor, &mut tokens), Ok(()));
    assert_eq!(tokens, vec![Token::This, Token::Comment("hello world".to_string())]);
    assert_eq!(pieces[cursor], "next");
}

#[test]
fn comment_closed_by_end_of_input() {
    let bot = Bot { vocab: vocab() };
    let pieces = strings(&["a", " ", "b"]);
    let mut cursor = 1usize;
    let mut tokens = Vec::new();
    assert_eq!(bot.collect_comment(&pieces, &mut cursor, &mut tokens), Ok(()));
    assert_eq!(tokens, vec![Token::Comment(" b".to_string())]);
    assert_eq!(cursor, 3);
}

#[test]
fn comment_over_segmented_text() {
    let bot = Bot { vocab: vocab() };
    let pieces = fragments("# note here\nshow");
    assert_eq!(pieces, strings(&["#", " ", "note", " ", "here", "\n", "show"]));
    let mut cursor = 1usize;
    let mut tokens = Vec::new();
    bot.collect_comment(&pieces, &mut cursor, &mut tokens).unwrap();
    assert_eq!(tokens, vec![Token::Comment(" note here".to_string())]);
    assert_eq!(pieces[cursor], "show");
}

#[test]
fn fragments_rejoin_to_text() {
    let text = "The quick (\"brown\")  fox";
    let pieces = fragments(text);
    assert_eq!(pieces.concat(), text);
    assert_eq!(pieces, strings(&["The", " ", "quick", " ", "(", "\"", "brown", "\"", ")", "  ", "fox"]));
}

#[test]
fn path_rendering() {
    assert_eq!(Path::from_vec(strings(&["a"])).render(), "a");
    assert_eq!(Path::from_vec(strings(&["a", "b", "c"])).render(), "a/b/c");
    assert_eq!(Path::new().render(), "");
}

#[test]
fn path_queries() {
    let p = Path::from_vec(strings(&["a", "b"]));
    assert!(!p.empty());
    assert!(!p.single());
    assert_eq!(p.first_selector(), "a");
    assert!(Path::new().empty());
    assert!(Path::from_vec(strings(&["z"])).single());
}

#[test]
fn scheme_rendering() {
    assert_eq!(Scheme::Hopes.render(), "hopes");
    assert_eq!(Scheme::Screen.render(), "screen");
    assert_eq!(Scheme::Http.render(), "http");
    assert_eq!(Scheme::Custom("mine".to_string()).render(), "mine");
}

#[test]
fn token_glyphs() {
    assert_eq!(Token::Being.glyph(), "=");
    assert_eq!(Token::Exp(Expression::Plus).glyph(), "O");
    assert_eq!(Token::Val(Value::Fact(true)).glyph(), "V");
    assert_eq!(Token::Case(Case::If).glyph(), "C");
    assert_eq!(Token::Flow(Flow::Break).glyph(), ".");
    assert_eq!(Token::Flow(Flow::ExpressionStart).glyph(), "(");
    assert_eq!(Token::Flow(Flow::ExpressionEnd).glyph(), ")");
    assert_eq!(Token::Mod(Modifier::Binding).glyph(), "b");
    assert_eq!(Token::Mod(Modifier::Selection).glyph(), "s");
    assert_eq!(Token::Mod(Modifier::Targeting).glyph(), "t");
    assert_eq!(Token::Mod(Modifier::Plain).glyph(), "");
    assert_eq!(Token::Mod(Modifier::New).glyph(), "M");
    assert_eq!(Token::Bracket(Bracket::StructStart).glyph(), "{");
    assert_eq!(Token::Bracket(Bracket::StructEnd).glyph(), "}");
    assert_eq!(Token::Bracket(Bracket::ListStart).glyph(), "[");
    assert_eq!(Token::Bracket(Bracket::ListEnd).glyph(), "]");
    assert_eq!(Token::Term("x".to_string()).glyph(), "T");
    assert_eq!(Token::This.glyph(), "_");
    assert_eq!(Token::Cmd(Command::Show).glyph(), "Cmd");
    assert_eq!(Token::Comment("c".to_string()).glyph(), "#");
}

#[test]
fn invalid_pattern_is_refused() {
    assert!(Matcher::new("(").is_none());
    assert!(Matcher::new("^a$").unwrap().is_match("a"));
}
