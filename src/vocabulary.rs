//! The vocabulary: one compiled pattern per lexical category, and the
//! queries that classify a single fragment with them.
use vstd::prelude::*;
use vstd::string::StringExecFns;
use crate::matcher::{regex_compiles, Matcher};
use crate::number::{decimal_of, first_comma_to_point, number_view, replace_first_comma, Number};
use crate::token::{Case, Command, Expression, Modifier, Token, Value};

verus! {
pub const IGNORE: &'static str = "^[,;:!?]$";
pub const WHITESPACE: &'static str = "^\\s+$";
pub const NEXT: &'static str = "^(?i:next)$";
pub const NEW: &'static str = "^(?i:new)$";
pub const THIS: &'static str = "^(?i:this|it)$";
pub const TERM: &'static str = "^[\\p{L}_][\\p{L}\\p{N}_]*$";
pub const COMMENT_START: &'static str = "^#$";
pub const COMMENT_END: &'static str = "^(\r\n|\n|\r)$";
pub const VAL_FACT_FALSE: &'static str = "^(?i:false|no)$";
pub const VAL_FACT_TRUE: &'static str = "^(?i:true|yes)$";
pub const VAL_ID: &'static str = "^\\p{L}[\\p{L}\\p{N}_]*(\\.[\\p{L}\\p{N}_]+)+$";
pub const VAL_NUMBER: &'static str = "^[0-9]+([.,][0-9]+)?$";
pub const VAL_SEAL: &'static str = "^[0-9a-f]{32,}$";
pub const VAL_TEXT: &'static str = "^\"$";
pub const VAL_TIME: &'static str = "^[0-9]+(ms|s|min|h|d)$";
pub const VAL_VERSION: &'static str = "^v?[0-9]+(\\.[0-9]+)+$";
pub const MOD_BINDING: &'static str = "^(?i:as)$";
pub const MOD_SELECTION: &'static str = "^(?i:of)$";
pub const MOD_TARGETING: &'static str = "^(?i:to)$";
pub const CASE_AND: &'static str = "^(?i:and)$";
pub const CASE_EQUAL: &'static str = "^(?i:is|equals)$";
pub const CASE_IF: &'static str = "^(?i:if)$";
pub const CASE_THEN: &'static str = "^(?i:then)$";
pub const CMD_INCLUDE: &'static str = "^(?i:include)$";
pub const CMD_SEND: &'static str = "^(?i:send)$";
pub const CMD_SHOW: &'static str = "^(?i:show)$";
pub const CMD_SUM: &'static str = "^(?i:sum)$";
pub const EXP_ASSIGN: &'static str = "^=$";
pub const EXP_DIVIDE: &'static str = "^/$";
pub const EXP_END: &'static str = "^\\)$";
pub const EXP_START: &'static str = "^\\($";
pub const EXP_MINUS: &'static str = "^-$";
pub const EXP_MULTIPLY: &'static str = "^\\*$";
pub const EXP_PLUS: &'static str = "^\\+$";

/// The coarse category of a fragment that opens a literal or a comment.
#[derive(Clone, Copy, Debug, PartialEq, Eq, Structural)]
pub enum Pattern {
    Comment,
    Id,
    Seal,
    Text,
    Time,
    Version,
}

/// One matcher per lexical category.
#[derive(Debug)]
pub struct Vocabulary {
    /// Punctuation that carries no meaning.
    pub ignore: Matcher,
    /// Blank space.
    pub whitespace: Matcher,
    pub next: Matcher,
    pub new: Matcher,
    pub this: Matcher,
    /// A bare word.
    pub term: Matcher,
    pub comment_start: Matcher,
    /// A line break closes a comment.
    pub comment_end: Matcher,
    pub val_fact_false: Matcher,
    pub val_fact_true: Matcher,
    /// A dotted name.
    pub val_id: Matcher,
    /// Digits, with a decimal point or comma.
    pub val_number: Matcher,
    /// A hexadecimal digest.
    pub val_seal: Matcher,
    /// A quotation mark opens and closes text.
    pub val_text: Matcher,
    /// A duration.
    pub val_time: Matcher,
    /// A dotted version number.
    pub val_version: Matcher,
    pub mod_binding: Matcher,
    pub mod_selection: Matcher,
    pub mod_targeting: Matcher,
    pub case_and: Matcher,
    pub case_equal: Matcher,
    pub case_if: Matcher,
    pub case_then: Matcher,
    pub cmd_include: Matcher,
    pub cmd_send: Matcher,
    pub cmd_show: Matcher,
    pub cmd_sum: Matcher,
    pub exp_assign: Matcher,
    pub exp_divide: Matcher,
    pub exp_end: Matcher,
    pub exp_start: Matcher,
    pub exp_minus: Matcher,
    pub exp_multiply: Matcher,
    pub exp_plus: Matcher,
}

impl Vocabulary {
    /// Whether every matcher was compiled from the English pattern of its category.
    pub open spec fn is_english(&self) -> bool {
        &&& self.ignore.pattern() == IGNORE@
        &&& self.whitespace.pattern() == WHITESPACE@
        &&& self.next.pattern() == NEXT@
        &&& self.new.pattern() == NEW@
        &&& self.this.pattern() == THIS@
        &&& self.term.pattern() == TERM@
        &&& self.comment_start.pattern() == COMMENT_START@
        &&& self.comment_end.pattern() == COMMENT_END@
        &&& self.val_fact_false.pattern() == VAL_FACT_FALSE@
        &&& self.val_fact_true.pattern() == VAL_FACT_TRUE@
        &&& self.val_id.pattern() == VAL_ID@
        &&& self.val_number.pattern() == VAL_NUMBER@
        &&& self.val_seal.pattern() == VAL_SEAL@
        &&& self.val_text.pattern() == VAL_TEXT@
        &&& self.val_time.pattern() == VAL_TIME@
        &&& self.val_version.pattern() == VAL_VERSION@
        &&& self.mod_binding.pattern() == MOD_BINDING@
        &&& self.mod_selection.pattern() == MOD_SELECTION@
        &&& self.mod_targeting.pattern() == MOD_TARGETING@
        &&& self.case_and.pattern() == CASE_AND@
        &&& self.case_equal.pattern() == CASE_EQUAL@
        &&& self.case_if.pattern() == CASE_IF@
        &&& self.case_then.pattern() == CASE_THEN@
        &&& self.cmd_include.pattern() == CMD_INCLUDE@
        &&& self.cmd_send.pattern() == CMD_SEND@
        &&& self.cmd_show.pattern() == CMD_SHOW@
        &&& self.cmd_sum.pattern() == CMD_SUM@
        &&& self.exp_assign.pattern() == EXP_ASSIGN@
        &&& self.exp_divide.pattern() == EXP_DIVIDE@
        &&& self.exp_end.pattern() == EXP_END@
        &&& self.exp_start.pattern() == EXP_START@
        &&& self.exp_minus.pattern() == EXP_MINUS@
        &&& self.exp_multiply.pattern() == EXP_MULTIPLY@
        &&& self.exp_plus.pattern() == EXP_PLUS@
    }

    /// Whether every English pattern compiles.
    pub open spec fn english_compiles() -> bool {
        &&& regex_compiles(IGNORE@)
        &&& regex_compiles(WHITESPACE@)
        &&& regex_compiles(NEXT@)
        &&& regex_compiles(NEW@)
        &&& regex_compiles(THIS@)
        &&& regex_compiles(TERM@)
        &&& regex_compiles(COMMENT_START@)
        &&& regex_compiles(COMMENT_END@)
        &&& regex_compiles(VAL_FACT_FALSE@)
        &&& regex_compiles(VAL_FACT_TRUE@)
        &&& regex_compiles(VAL_ID@)
        &&& regex_compiles(VAL_NUMBER@)
        &&& regex_compiles(VAL_SEAL@)
        &&& regex_compiles(VAL_TEXT@)
        &&& regex_compiles(VAL_TIME@)
        &&& regex_compiles(VAL_VERSION@)
        &&& regex_compiles(MOD_BINDING@)
        &&& regex_compiles(MOD_SELECTION@)
        &&& regex_compiles(MOD_TARGETING@)
        &&& regex_compiles(CASE_AND@)
        &&& regex_compiles(CASE_EQUAL@)
        &&& regex_compiles(CASE_IF@)
        &&& regex_compiles(CASE_THEN@)
        &&& regex_compiles(CMD_INCLUDE@)
        &&& regex_compiles(CMD_SEND@)
        &&& regex_compiles(CMD_SHOW@)
        &&& regex_compiles(CMD_SUM@)
        &&& regex_compiles(EXP_ASSIGN@)
        &&& regex_compiles(EXP_DIVIDE@)
        &&& regex_compiles(EXP_END@)
        &&& regex_compiles(EXP_START@)
        &&& regex_compiles(EXP_MINUS@)
        &&& regex_compiles(EXP_MULTIPLY@)
        &&& regex_compiles(EXP_PLUS@)
    }

    /// Compiles the English vocabulary; `None` where a pattern does not compile.
    pub fn english() -> (r: Option<Vocabulary>)
        ensures
            r is Some <==> Vocabulary::english_compiles(),
            r matches Some(v) ==> v.is_english(),
    {
        let ignore = match Matcher::new(IGNORE) {
            Some(m) => m,
            None => return None,
        };
        let whitespace = match Matcher::new(WHITESPACE) {
            Some(m) => m,
            None => return None,
        };
        let next = match Matcher::new(NEXT) {
            Some(m) => m,
            None => return None,
        };
        let new = match Matcher::new(NEW) {
            Some(m) => m,
            None => return None,
        };
        let this = match Matcher::new(THIS) {
            Some(m) => m,
            None => return None,
        };
        let term = match Matcher::new(TERM) {
            Some(m) => m,
            None => return None,
        };
        let comment_start = match Matcher::new(COMMENT_START) {
            Some(m) => m,
            None => return None,
        };
        let comment_end = match Matcher::new(COMMENT_END) {
            Some(m) => m,
            None => return None,
        };
        let val_fact_false = match Matcher::new(VAL_FACT_FALSE) {
            Some(m) => m,
            None => return None,
        };
        let val_fact_true = match Matcher::new(VAL_FACT_TRUE) {
            Some(m) => m,
            None => return None,
        };
        let val_id = match Matcher::new(VAL_ID) {
            Some(m) => m,
            None => return None,
        };
        let val_number = match Matcher::new(VAL_NUMBER) {
            Some(m) => m,
            None => return None,
        };
        let val_seal = match Matcher::new(VAL_SEAL) {
            Some(m) => m,
            None => return None,
        };
        let val_text = match Matcher::new(VAL_TEXT) {
            Some(m) => m,
            None => return None,
        };
        let val_time = match Matcher::new(VAL_TIME) {
            Some(m) => m,
            None => return None,
        };
        let val_version = match Matcher::new(VAL_VERSION) {
            Some(m) => m,
            None => return None,
        };
        let mod_binding = match Matcher::new(MOD_BINDING) {
            Some(m) => m,
            None => return None,
        };
        let mod_selection = match Matcher::new(MOD_SELECTION) {
            Some(m) => m,
            None => return None,
        };
        let mod_targeting = match Matcher::new(MOD_TARGETING) {
            Some(m) => m,
            None => return None,
        };
        let case_and = match Matcher::new(CASE_AND) {
            Some(m) => m,
            None => return None,
        };
        let case_equal = match Matcher::new(CASE_EQUAL) {
            Some(m) => m,
            None => return None,
        };
        let case_if = match Matcher::new(CASE_IF) {
            Some(m) => m,
            None => return None,
        };
        let case_then = match Matcher::new(CASE_THEN) {
            Some(m) => m,
            None => return None,
        };
        let cmd_include = match Matcher::new(CMD_INCLUDE) {
            Some(m) => m,
            None => return None,
        };
        let cmd_send = match Matcher::new(CMD_SEND) {
            Some(m) => m,
            None => return None,
        };
        let cmd_show = match Matcher::new(CMD_SHOW) {
            Some(m) => m,
            None => return None,
        };
        let cmd_sum = match Matcher::new(CMD_SUM) {
            Some(m) => m,
            None => return None,
        };
        let exp_assign = match Matcher::new(EXP_ASSIGN) {
            Some(m) => m,
            None => return None,
        };
        let exp_divide = match Matcher::new(EXP_DIVIDE) {
            Some(m) => m,
            None => return None,
        };
        let exp_end = match Matcher::new(EXP_END) {
            Some(m) => m,
            None => return None,
        };
        let exp_start = match Matcher::new(EXP_START) {
            Some(m) => m,
            None => return None,
        };
        let exp_minus = match Matcher::new(EXP_MINUS) {
            Some(m) => m,
            None => return None,
        };
        let exp_multiply = match Matcher::new(EXP_MULTIPLY) {
            Some(m) => m,
            None => return None,
        };
        let exp_plus = match Matcher::new(EXP_PLUS) {
            Some(m) => m,
            None => return None,
        };
        Some(Vocabulary {
            ignore,
            whitespace,
            next,
            new,
            this,
            term,
            comment_start,
            comment_end,
            val_fact_false,
            val_fact_true,
            val_id,
            val_number,
            val_seal,
            val_text,
            val_time,
            val_version,
            mod_binding,
            mod_selection,
            mod_targeting,
            case_and,
            case_equal,
            case_if,
            case_then,
            cmd_include,
            cmd_send,
            cmd_show,
            cmd_sum,
            exp_assign,
            exp_divide,
            exp_end,
            exp_start,
            exp_minus,
            exp_multiply,
            exp_plus,
        })
    }

    /// The first category, in the order comment, identifier, seal, text,
    /// time, version, whose pattern matches.
    pub open spec fn spec_check_pattern(&self, piece: Seq<char>) -> Option<Pattern> {
        if self.comment_start.accepts(piece) {
            Some(Pattern::Comment)
        } else if self.val_id.accepts(piece) {
            Some(Pattern::Id)
        } else if self.val_seal.accepts(piece) {
            Some(Pattern::Seal)
        } else if self.val_text.accepts(piece) {
            Some(Pattern::Text)
        } else if self.val_time.accepts(piece) {
            Some(Pattern::Time)
        } else if self.val_version.accepts(piece) {
            Some(Pattern::Version)
        } else {
            None
        }
    }

    pub fn check_pattern(&self, piece: &str) -> (r: Option<Pattern>)
        ensures
            r == self.spec_check_pattern(piece@),
    {
        if self.comment_start.is_match(piece) {
            Some(Pattern::Comment)
        } else if self.val_id.is_match(piece) {
            Some(Pattern::Id)
        } else if self.val_seal.is_match(piece) {
            Some(Pattern::Seal)
        } else if self.val_text.is_match(piece) {
            Some(Pattern::Text)
        } else if self.val_time.is_match(piece) {
            Some(Pattern::Time)
        } else if self.val_version.is_match(piece) {
            Some(Pattern::Version)
        } else {
            None
        }
    }

    /// Whether a fragment is discarded: blank space or on the ignore list.
    pub open spec fn spec_skip(&self, piece: Seq<char>) -> bool {
        self.whitespace.accepts(piece) || self.ignore.accepts(piece)
    }

    pub fn skip(&self, piece: &str) -> (r: bool)
        ensures
            r == self.spec_skip(piece@),
    {
        if self.whitespace.is_match(piece) {
            true
        } else {
            self.ignore.is_match(piece)
        }
    }

    pub fn whitespace(&self, piece: &str) -> (r: bool)
        ensures
            r == self.whitespace.accepts(piece@),
    {
        self.whitespace.is_match(piece)
    }

    /// The modifier that ends a literal, "new" before "next".
    pub open spec fn spec_literal_end(&self, piece: Seq<char>) -> Option<Token> {
        if self.new.accepts(piece) {
            Some(Token::Mod(Modifier::New))
        } else if self.next.accepts(piece) {
            Some(Token::Mod(Modifier::Next))
        } else {
            None
        }
    }

    pub fn literal_end(&self, piece: &str) -> (r: Option<Token>)
        ensures
            r == self.spec_literal_end(piece@),
    {
        if self.new.is_match(piece) {
            Some(Token::Mod(Modifier::New))
        } else if self.next.is_match(piece) {
            Some(Token::Mod(Modifier::Next))
        } else {
            None
        }
    }

    /// A numeric fragment, read after its first comma becomes a decimal point.
    pub open spec fn spec_number(&self, piece: Seq<char>) -> Option<(Seq<char>, nat)> {
        if self.val_number.accepts(piece) {
            decimal_of(first_comma_to_point(piece))
        } else {
            None
        }
    }

    pub fn number(&self, piece: &str) -> (r: Option<Number>)
        ensures
            number_view(r) == self.spec_number(piece@),
    {
        if self.val_number.is_match(piece) {
            Number::from_string(replace_first_comma(piece))
        } else {
            None
        }
    }

    /// The reserved word table, first match wins.
    pub open spec fn spec_reserved(&self, piece: Seq<char>) -> Option<Token> {
        if self.next.accepts(piece) {
            Some(Token::Mod(Modifier::Next))
        } else if self.new.accepts(piece) {
            Some(Token::Mod(Modifier::New))
        } else if self.this.accepts(piece) {
            Some(Token::This)
        } else if self.case_and.accepts(piece) {
            Some(Token::Case(Case::And))
        } else if self.case_equal.accepts(piece) {
            Some(Token::Case(Case::Equal))
        } else if self.case_if.accepts(piece) {
            Some(Token::Case(Case::If))
        } else if self.case_then.accepts(piece) {
            Some(Token::Case(Case::Then))
        } else if self.cmd_send.accepts(piece) {
            Some(Token::Cmd(Command::Send))
        } else if self.cmd_show.accepts(piece) {
            Some(Token::Cmd(Command::Show))
        } else if self.cmd_sum.accepts(piece) {
            Some(Token::Cmd(Command::Sum))
        } else if self.exp_assign.accepts(piece) {
            Some(Token::Exp(Expression::Assign))
        } else if self.exp_divide.accepts(piece) {
            Some(Token::Exp(Expression::Divide))
        } else if self.exp_end.accepts(piece) {
            Some(Token::Exp(Expression::End))
        } else if self.exp_minus.accepts(piece) {
            Some(Token::Exp(Expression::Minus))
        } else if self.exp_multiply.accepts(piece) {
            Some(Token::Exp(Expression::Multiply))
        } else if self.exp_plus.accepts(piece) {
            Some(Token::Exp(Expression::Plus))
        } else if self.exp_start.accepts(piece) {
            Some(Token::Exp(Expression::Start))
        } else if self.mod_binding.accepts(piece) {
            Some(Token::Mod(Modifier::Binding))
        } else if self.mod_selection.accepts(piece) {
            Some(Token::Mod(Modifier::Selection))
        } else if self.mod_targeting.accepts(piece) {
            Some(Token::Mod(Modifier::Targeting))
        } else if self.val_fact_true.accepts(piece) {
            Some(Token::Val(Value::Fact(true)))
        } else if self.val_fact_false.accepts(piece) {
            Some(Token::Val(Value::Fact(false)))
        } else {
            None
        }
    }

    pub fn reserved(&self, piece: &str) -> (r: Option<Token>)
        ensures
            r == self.spec_reserved(piece@),
    {
        if self.next.is_match(piece) {
            Some(Token::Mod(Modifier::Next))
        } else if self.new.is_match(piece) {
            Some(Token::Mod(Modifier::New))
        } else if self.this.is_match(piece) {
            Some(Token::This)
        } else if self.case_and.is_match(piece) {
            Some(Token::Case(Case::And))
        } else if self.case_equal.is_match(piece) {
            Some(Token::Case(Case::Equal))
        } else if self.case_if.is_match(piece) {
            Some(Token::Case(Case::If))
        } else if self.case_then.is_match(piece) {
            Some(Token::Case(Case::Then))
        } else if self.cmd_send.is_match(piece) {
            Some(Token::Cmd(Command::Send))
        } else if self.cmd_show.is_match(piece) {
            Some(Token::Cmd(Command::Show))
        } else if self.cmd_sum.is_match(piece) {
            Some(Token::Cmd(Command::Sum))
        } else if self.exp_assign.is_match(piece) {
            Some(Token::Exp(Expression::Assign))
        } else if self.exp_divide.is_match(piece) {
            Some(Token::Exp(Expression::Divide))
        } else if self.exp_end.is_match(piece) {
            Some(Token::Exp(Expression::End))
        } else if self.exp_minus.is_match(piece) {
            Some(Token::Exp(Expression::Minus))
        } else if self.exp_multiply.is_match(piece) {
            Some(Token::Exp(Expression::Multiply))
        } else if self.exp_plus.is_match(piece) {
            Some(Token::Exp(Expression::Plus))
        } else if self.exp_start.is_match(piece) {
            Some(Token::Exp(Expression::Start))
        } else if self.mod_binding.is_match(piece) {
            Some(Token::Mod(Modifier::Binding))
        } else if self.mod_selection.is_match(piece) {
            Some(Token::Mod(Modifier::Selection))
        } else if self.mod_targeting.is_match(piece) {
            Some(Token::Mod(Modifier::Targeting))
        } else if self.val_fact_true.is_match(piece) {
            Some(Token::Val(Value::Fact(true)))
        } else if self.val_fact_false.is_match(piece) {
            Some(Token::Val(Value::Fact(false)))
        } else {
            None
        }
    }

    /// A bare term carrying the fragment's text.
    pub fn term(&self, piece: &str) -> (r: Option<Token>)
        ensures
            self.term.accepts(piece@) <==> r is Some,
            r matches Some(t) ==> t matches Token::Term(s) && s@ == piece@,
    {
        if self.term.is_match(piece) {
            Some(Token::Term(String::from_str(piece)))
        } else {
            None
        }
    }

    pub fn text_end(&self, piece: &str) -> (r: bool)
        ensures
            r == self.val_text.accepts(piece@),
    {
        self.val_text.is_match(piece)
    }

    pub fn comment_end(&self, piece: &str) -> (r: bool)
        ensures
            r == self.comment_end.accepts(piece@),
    {
        self.comment_end.is_match(piece)
    }
}

} // verus!
