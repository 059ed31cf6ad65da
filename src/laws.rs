//! Properties that the classification queries keep for every fragment.
use vstd::prelude::*;
use crate::token::{Case, Command, Expression, Modifier, Token, Value};
use crate::vocabulary::{Pattern, Vocabulary};

verus! {

/// Every whitespace fragment is skipped, so `skip` and `whitespace` agree on
/// it; and a fragment is skipped exactly when it is whitespace or on the
/// ignore list.
pub proof fn lemma_skip_agrees_on_whitespace(v: &Vocabulary, piece: Seq<char>)
    ensures
        v.whitespace.accepts(piece) ==> v.spec_skip(piece) == v.whitespace.accepts(piece),
        v.spec_skip(piece) <==> (v.whitespace.accepts(piece) || v.ignore.accepts(piece)),
{
}

/// A fragment that both the identifier and the version patterns match is
/// classified as an identifier, unless it opens a comment.
pub proof fn lemma_identifier_before_version(v: &Vocabulary, piece: Seq<char>)
    requires
        v.val_id.accepts(piece),
        v.val_version.accepts(piece),
    ensures
        v.comment_start.accepts(piece) ==> v.spec_check_pattern(piece) == Some(Pattern::Comment),
        !v.comment_start.accepts(piece) ==> v.spec_check_pattern(piece) == Some(Pattern::Id),
{
}

/// Each category is chosen only where its pattern matches and no pattern of
/// an earlier category does.
pub proof fn lemma_check_pattern_first_match(v: &Vocabulary, piece: Seq<char>)
    ensures
        v.spec_check_pattern(piece) == Some(Pattern::Comment) <==> v.comment_start.accepts(piece),
        v.spec_check_pattern(piece) == Some(Pattern::Id) <==> !v.comment_start.accepts(piece)
            && v.val_id.accepts(piece),
        v.spec_check_pattern(piece) == Some(Pattern::Seal) <==> !v.comment_start.accepts(piece)
            && !v.val_id.accepts(piece) && v.val_seal.accepts(piece),
        v.spec_check_pattern(piece) == Some(Pattern::Text) <==> !v.comment_start.accepts(piece)
            && !v.val_id.accepts(piece) && !v.val_seal.accepts(piece) && v.val_text.accepts(piece),
        v.spec_check_pattern(piece) == Some(Pattern::Time) <==> !v.comment_start.accepts(piece)
            && !v.val_id.accepts(piece) && !v.val_seal.accepts(piece) && !v.val_text.accepts(piece)
            && v.val_time.accepts(piece),
        v.spec_check_pattern(piece) == Some(Pattern::Version) <==> !v.comment_start.accepts(piece)
            && !v.val_id.accepts(piece) && !v.val_seal.accepts(piece) && !v.val_text.accepts(piece)
            && !v.val_time.accepts(piece) && v.val_version.accepts(piece),
        v.spec_check_pattern(piece) is None <==> !v.comment_start.accepts(piece)
            && !v.val_id.accepts(piece) && !v.val_seal.accepts(piece) && !v.val_text.accepts(piece)
            && !v.val_time.accepts(piece) && !v.val_version.accepts(piece),
{
}

/// A keyword is read as the token declared for it: where its own pattern
/// matches and no pattern earlier in the reserved table does, `reserved`
/// yields that token, and it yields nothing where no pattern matches.
pub proof fn lemma_reserved_table(v: &Vocabulary, piece: Seq<char>)
    ensures
        (v.next.accepts(piece)) ==> v.spec_reserved(piece) == Some(Token::Mod(Modifier::Next)),
        (v.new.accepts(piece)
            && !v.next.accepts(piece)
        ) ==> v.spec_reserved(piece) == Some(Token::Mod(Modifier::New)),
        (v.this.accepts(piece)
            && !v.next.accepts(piece)
            && !v.new.accepts(piece)
        ) ==> v.spec_reserved(piece) == Some(Token::This),
        (v.case_and.accepts(piece)
            && !v.next.accepts(piece)
            && !v.new.accepts(piece)
            && !v.this.accepts(piece)
        ) ==> v.spec_reserved(piece) == Some(Token::Case(Case::And)),
        (v.case_equal.accepts(piece)
            && !v.next.accepts(piece)
            && !v.new.accepts(piece)
            && !v.this.accepts(piece)
            && !v.case_and.accepts(piece)
        ) ==> v.spec_reserved(piece) == Some(Token::Case(Case::Equal)),
        (v.case_if.accepts(piece)
            && !v.next.accepts(piece)
            && !v.new.accepts(piece)
            && !v.this.accepts(piece)
            && !v.case_and.accepts(piece)
            && !v.case_equal.accepts(piece)
        ) ==> v.spec_reserved(piece) == Some(Token::Case(Case::If)),
        (v.case_then.accepts(piece)
            && !v.next.accepts(piece)
            && !v.new.accepts(piece)
            && !v.this.accepts(piece)
            && !v.case_and.accepts(piece)
            && !v.case_equal.accepts(piece)
            && !v.case_if.accepts(piece)
        ) ==> v.spec_reserved(piece) == Some(Token::Case(Case::Then)),
        (v.cmd_send.accepts(piece)
            && !v.next.accepts(piece)
            && !v.new.accepts(piece)
            && !v.this.accepts(piece)
            && !v.case_and.accepts(piece)
            && !v.case_equal.accepts(piece)
            && !v.case_if.accepts(piece)
            && !v.case_then.accepts(piece)
        ) ==> v.spec_reserved(piece) == Some(Token::Cmd(Command::Send)),
        (v.cmd_show.accepts(piece)
            && !v.next.accepts(piece)
            && !v.new.accepts(piece)
            && !v.this.accepts(piece)
            && !v.case_and.accepts(piece)
            && !v.case_equal.accepts(piece)
            && !v.case_if.accepts(piece)
            && !v.case_then.accepts(piece)
            && !v.cmd_send.accepts(piece)
        ) ==> v.spec_reserved(piece) == Some(Token::Cmd(Command::Show)),
        (v.cmd_sum.accepts(piece)
            && !v.next.accepts(piece)
            && !v.new.accepts(piece)
            && !v.this.accepts(piece)
            && !v.case_and.accepts(piece)
            && !v.case_equal.accepts(piece)
            && !v.case_if.accepts(piece)
            && !v.case_then.accepts(piece)
            && !v.cmd_send.accepts(piece)
            && !v.cmd_show.accepts(piece)
        ) ==> v.spec_reserved(piece) == Some(Token::Cmd(Command::Sum)),
        (v.exp_assign.accepts(piece)
            && !v.next.accepts(piece)
            && !v.new.accepts(piece)
            && !v.this.accepts(piece)
            && !v.case_and.accepts(piece)
            && !v.case_equal.accepts(piece)
            && !v.case_if.accepts(piece)
            && !v.case_then.accepts(piece)
            && !v.cmd_send.accepts(piece)
            && !v.cmd_show.accepts(piece)
            && !v.cmd_sum.accepts(piece)
        ) ==> v.spec_reserved(piece) == Some(Token::Exp(Expression::Assign)),
        (v.exp_divide.accepts(piece)
            && !v.next.accepts(piece)
            && !v.new.accepts(piece)
            && !v.this.accepts(piece)
            && !v.case_and.accepts(piece)
            && !v.case_equal.accepts(piece)
            && !v.case_if.accepts(piece)
            && !v.case_then.accepts(piece)
            && !v.cmd_send.accepts(piece)
            && !v.cmd_show.accepts(piece)
            && !v.cmd_sum.accepts(piece)
            && !v.exp_assign.accepts(piece)
        ) ==> v.spec_reserved(piece) == Some(Token::Exp(Expression::Divide)),
        (v.exp_end.accepts(piece)
            && !v.next.accepts(piece)
            && !v.new.accepts(piece)
            && !v.this.accepts(piece)
            && !v.case_and.accepts(piece)
            && !v.case_equal.accepts(piece)
            && !v.case_if.accepts(piece)
            && !v.case_then.accepts(piece)
            && !v.cmd_send.accepts(piece)
            && !v.cmd_show.accepts(piece)
            && !v.cmd_sum.accepts(piece)
            && !v.exp_assign.accepts(piece)
            && !v.exp_divide.accepts(piece)
        ) ==> v.spec_reserved(piece) == Some(Token::Exp(Expression::End)),
        (v.exp_minus.accepts(piece)
            && !v.next.accepts(piece)
            && !v.new.accepts(piece)
            && !v.this.accepts(piece)
            && !v.case_and.accepts(piece)
            && !v.case_equal.accepts(piece)
            && !v.case_if.accepts(piece)
            && !v.case_then.accepts(piece)
            && !v.cmd_send.accepts(piece)
            && !v.cmd_show.accepts(piece)
            && !v.cmd_sum.accepts(piece)
            && !v.exp_assign.accepts(piece)
            && !v.exp_divide.accepts(piece)
            && !v.exp_end.accepts(piece)
        ) ==> v.spec_reserved(piece) == Some(Token::Exp(Expression::Minus)),
        (v.exp_multiply.accepts(piece)
            && !v.next.accepts(piece)
            && !v.new.accepts(piece)
            && !v.this.accepts(piece)
            && !v.case_and.accepts(piece)
            && !v.case_equal.accepts(piece)
            && !v.case_if.accepts(piece)
            && !v.case_then.accepts(piece)
            && !v.cmd_send.accepts(piece)
            && !v.cmd_show.accepts(piece)
            && !v.cmd_sum.accepts(piece)
            && !v.exp_assign.accepts(piece)
            && !v.exp_divide.accepts(piece)
            && !v.exp_end.accepts(piece)
            && !v.exp_minus.accepts(piece)
        ) ==> v.spec_reserved(piece) == Some(Token::Exp(Expression::Multiply)),
        (v.exp_plus.accepts(piece)
            && !v.next.accepts(piece)
            && !v.new.accepts(piece)
            && !v.this.accepts(piece)
            && !v.case_and.accepts(piece)
            && !v.case_equal.accepts(piece)
            && !v.case_if.accepts(piece)
            && !v.case_then.accepts(piece)
            && !v.cmd_send.accepts(piece)
            && !v.cmd_show.accepts(piece)
            && !v.cmd_sum.accepts(piece)
            && !v.exp_assign.accepts(piece)
            && !v.exp_divide.accepts(piece)
            && !v.exp_end.accepts(piece)
            && !v.exp_minus.accepts(piece)
            && !v.exp_multiply.accepts(piece)
        ) ==> v.spec_reserved(piece) == Some(Token::Exp(Expression::Plus)),
        (v.exp_start.accepts(piece)
            && !v.next.accepts(piece)
            && !v.new.accepts(piece)
            && !v.this.accepts(piece)
            && !v.case_and.accepts(piece)
            && !v.case_equal.accepts(piece)
            && !v.case_if.accepts(piece)
            && !v.case_then.accepts(piece)
            && !v.cmd_send.accepts(piece)
            && !v.cmd_show.accepts(piece)
            && !v.cmd_sum.accepts(piece)
            && !v.exp_assign.accepts(piece)
            && !v.exp_divide.accepts(piece)
            && !v.exp_end.accepts(piece)
            && !v.exp_minus.accepts(piece)
            && !v.exp_multiply.accepts(piece)
            && !v.exp_plus.accepts(piece)
        ) ==> v.spec_reserved(piece) == Some(Token::Exp(Expression::Start)),
        (v.mod_binding.accepts(piece)
            && !v.next.accepts(piece)
            && !v.new.accepts(piece)
            && !v.this.accepts(piece)
            && !v.case_and.accepts(piece)
            && !v.case_equal.accepts(piece)
            && !v.case_if.accepts(piece)
            && !v.case_then.accepts(piece)
            && !v.cmd_send.accepts(piece)
            && !v.cmd_show.accepts(piece)
            && !v.cmd_sum.accepts(piece)
            && !v.exp_assign.accepts(piece)
            && !v.exp_divide.accepts(piece)
            && !v.exp_end.accepts(piece)
            && !v.exp_minus.accepts(piece)
            && !v.exp_multiply.accepts(piece)
            && !v.exp_plus.accepts(piece)
            && !v.exp_start.accepts(piece)
        ) ==> v.spec_reserved(piece) == Some(Token::Mod(Modifier::Binding)),
        (v.mod_selection.accepts(piece)
            && !v.next.accepts(piece)
            && !v.new.accepts(piece)
            && !v.this.accepts(piece)
            && !v.case_and.accepts(piece)
            && !v.case_equal.accepts(piece)
            && !v.case_if.accepts(piece)
            && !v.case_then.accepts(piece)
            && !v.cmd_send.accepts(piece)
            && !v.cmd_show.accepts(piece)
            && !v.cmd_sum.accepts(piece)
            && !v.exp_assign.accepts(piece)
            && !v.exp_divide.accepts(piece)
            && !v.exp_end.accepts(piece)
            && !v.exp_minus.accepts(piece)
            && !v.exp_multiply.accepts(piece)
            && !v.exp_plus.accepts(piece)
            && !v.exp_start.accepts(piece)
            && !v.mod_binding.accepts(piece)
        ) ==> v.spec_reserved(piece) == Some(Token::Mod(Modifier::Selection)),
        (v.mod_targeting.accepts(piece)
            && !v.next.accepts(piece)
            && !v.new.accepts(piece)
            && !v.this.accepts(piece)
            && !v.case_and.accepts(piece)
            && !v.case_equal.accepts(piece)
            && !v.case_if.accepts(piece)
            && !v.case_then.accepts(piece)
            && !v.cmd_send.accepts(piece)
            && !v.cmd_show.accepts(piece)
            && !v.cmd_sum.accepts(piece)
            && !v.exp_assign.accepts(piece)
            && !v.exp_divide.accepts(piece)
            && !v.exp_end.accepts(piece)
            && !v.exp_minus.accepts(piece)
            && !v.exp_multiply.accepts(piece)
            && !v.exp_plus.accepts(piece)
            && !v.exp_start.accepts(piece)
            && !v.mod_binding.accepts(piece)
            && !v.mod_selection.accepts(piece)
        ) ==> v.spec_reserved(piece) == Some(Token::Mod(Modifier::Targeting)),
        (v.val_fact_true.accepts(piece)
            && !v.next.accepts(piece)
            && !v.new.accepts(piece)
            && !v.this.accepts(piece)
            && !v.case_and.accepts(piece)
            && !v.case_equal.accepts(piece)
            && !v.case_if.accepts(piece)
            && !v.case_then.accepts(piece)
            && !v.cmd_send.accepts(piece)
            && !v.cmd_show.accepts(piece)
            && !v.cmd_sum.accepts(piece)
            && !v.exp_assign.accepts(piece)
            && !v.exp_divide.accepts(piece)
            && !v.exp_end.accepts(piece)
            && !v.exp_minus.accepts(piece)
            && !v.exp_multiply.accepts(piece)
            && !v.exp_plus.accepts(piece)
            && !v.exp_start.accepts(piece)
            && !v.mod_binding.accepts(piece)
            && !v.mod_selection.accepts(piece)
            && !v.mod_targeting.accepts(piece)
        ) ==> v.spec_reserved(piece) == Some(Token::Val(Value::Fact(true))),
        (v.val_fact_false.accepts(piece)
            && !v.next.accepts(piece)
            && !v.new.accepts(piece)
            && !v.this.accepts(piece)
            && !v.case_and.accepts(piece)
            && !v.case_equal.accepts(piece)
            && !v.case_if.accepts(piece)
            && !v.case_then.accepts(piece)
            && !v.cmd_send.accepts(piece)
            && !v.cmd_show.accepts(piece)
            && !v.cmd_sum.accepts(piece)
            && !v.exp_assign.accepts(piece)
            && !v.exp_divide.accepts(piece)
            && !v.exp_end.accepts(piece)
            && !v.exp_minus.accepts(piece)
            && !v.exp_multiply.accepts(piece)
            && !v.exp_plus.accepts(piece)
            && !v.exp_start.accepts(piece)
            && !v.mod_binding.accepts(piece)
            && !v.mod_selection.accepts(piece)
            && !v.mod_targeting.accepts(piece)
            && !v.val_fact_true.accepts(piece)
        ) ==> v.spec_reserved(piece) == Some(Token::Val(Value::Fact(false))),
        (!v.next.accepts(piece)
            && !v.new.accepts(piece)
            && !v.this.accepts(piece)
            && !v.case_and.accepts(piece)
            && !v.case_equal.accepts(piece)
            && !v.case_if.accepts(piece)
            && !v.case_then.accepts(piece)
            && !v.cmd_send.accepts(piece)
            && !v.cmd_show.accepts(piece)
            && !v.cmd_sum.accepts(piece)
            && !v.exp_assign.accepts(piece)
            && !v.exp_divide.accepts(piece)
            && !v.exp_end.accepts(piece)
            && !v.exp_minus.accepts(piece)
            && !v.exp_multiply.accepts(piece)
            && !v.exp_plus.accepts(piece)
            && !v.exp_start.accepts(piece)
            && !v.mod_binding.accepts(piece)
            && !v.mod_selection.accepts(piece)
            && !v.mod_targeting.accepts(piece)
            && !v.val_fact_true.accepts(piece)
            && !v.val_fact_false.accepts(piece)
        ) ==> v.spec_reserved(piece) is None,
{
}

} // verus!
