use vstd::prelude::*;
use crate::model::{ReceiverForm, ReceiverView};
use crate::token::{
    check_lifetime, check_punct, check_word, lemma_tokens_fit, lifetime_at, punct_at, text_at,
    token_text, word_at, Punct, Token,
};
use crate::types::{parse_type, type_at};

verus! {

pub open spec fn self_at(t: Seq<Token>, i: int) -> bool {
    word_at(t, i, "self"@)
}

pub open spec fn mut_at(t: Seq<Token>, i: int) -> bool {
    word_at(t, i, "mut"@)
}

/// A receiver of the form `self` or `self: Type` whose `self` stands at `i`.
pub open spec fn self_tail_at(t: Seq<Token>, i: int, mutable: bool) -> Result<
    Option<(ReceiverView, bool, int)>,
    int,
> {
    if punct_at(t, i + 1, Punct::Colon) {
        match type_at(t, i + 2) {
            Ok((ty, n)) => Ok(Some((ReceiverView::ByExplicitType { ty, mutable }, false, n))),
            Err(e) => Err(e),
        }
    } else {
        Ok(Some((ReceiverView::ByValue { mutable }, false, i + 1)))
    }
}

/// The receiver that opens a parameter list at `i`, if any: the form, whether
/// it was written as a raw pointer, and the position after it. `Ok(None)`
/// means that no receiver pattern matches and nothing is consumed.
pub open spec fn receiver_at(t: Seq<Token>, i: int) -> Result<
    Option<(ReceiverView, bool, int)>,
    int,
> {
    if punct_at(t, i, Punct::Amp) {
        if self_at(t, i + 1) {
            Ok(Some((ReceiverView::ByReference { lifetime: None, mutable: false }, false, i + 2)))
        } else if mut_at(t, i + 1) && self_at(t, i + 2) {
            Ok(Some((ReceiverView::ByReference { lifetime: None, mutable: true }, false, i + 3)))
        } else if lifetime_at(t, i + 1) && self_at(t, i + 2) {
            Ok(
                Some(
                    (
                        ReceiverView::ByReference {
                            lifetime: Some(text_at(t, i + 1)),
                            mutable: false,
                        },
                        false,
                        i + 3,
                    ),
                ),
            )
        } else if lifetime_at(t, i + 1) && mut_at(t, i + 2) && self_at(t, i + 3) {
            Ok(
                Some(
                    (
                        ReceiverView::ByReference {
                            lifetime: Some(text_at(t, i + 1)),
                            mutable: true,
                        },
                        false,
                        i + 4,
                    ),
                ),
            )
        } else {
            Ok(None)
        }
    } else if punct_at(t, i, Punct::Star) {
        if self_at(t, i + 1) {
            Ok(Some((ReceiverView::ByValue { mutable: false }, true, i + 2)))
        } else if (mut_at(t, i + 1) || word_at(t, i + 1, "const"@)) && self_at(t, i + 2) {
            Ok(Some((ReceiverView::ByValue { mutable: false }, true, i + 3)))
        } else {
            Ok(None)
        }
    } else if self_at(t, i) {
        self_tail_at(t, i, false)
    } else if mut_at(t, i) && self_at(t, i + 1) {
        self_tail_at(t, i + 1, true)
    } else {
        Ok(None)
    }
}

pub open spec fn receiver_result(r: Result<Option<(ReceiverForm, bool, usize)>, usize>) -> Result<
    Option<(ReceiverView, bool, int)>,
    int,
> {
    match r {
        Ok(Some((f, raw, n))) => Ok(Some((f@, raw, n as int))),
        Ok(None) => Ok(None),
        Err(e) => Err(e as int),
    }
}

fn parse_self_tail(toks: &Vec<Token>, i: usize, mutable: bool) -> (r: Result<
    Option<(ReceiverForm, bool, usize)>,
    usize,
>)
    requires
        i < toks@.len(),
    ensures
        receiver_result(r) == self_tail_at(toks@, i as int, mutable),
        match r {
            Ok(Some((_, _, n))) => i < n <= toks@.len(),
            Ok(None) => true,
            Err(e) => e <= toks@.len(),
        },
{
    proof {
        lemma_tokens_fit(toks);
    }
    if check_punct(toks, i + 1, Punct::Colon) {
        match parse_type(toks, i + 2) {
            Ok((ty, n)) => Ok(Some((ReceiverForm::ByExplicitType { ty, mutable }, false, n))),
            Err(e) => Err(e),
        }
    } else {
        Ok(Some((ReceiverForm::ByValue { mutable }, false, i + 1)))
    }
}

/// Decides, by bounded lookahead from `i`, whether a parameter list opens with
/// a receiver, and which form it has.
pub fn parse_receiver(toks: &Vec<Token>, i: usize) -> (r: Result<
    Option<(ReceiverForm, bool, usize)>,
    usize,
>)
    requires
        i <= toks@.len(),
    ensures
        receiver_result(r) == receiver_at(toks@, i as int),
        match r {
            Ok(Some((_, _, n))) => i < n <= toks@.len(),
            Ok(None) => true,
            Err(e) => e <= toks@.len(),
        },
{
    proof {
        lemma_tokens_fit(toks);
    }
    if check_punct(toks, i, Punct::Amp) {
        if check_word(toks, i + 1, "self") {
            Ok(Some((ReceiverForm::ByReference { lifetime: None, mutable: false }, false, i + 2)))
        } else if check_word(toks, i + 1, "mut") && check_word(toks, i + 2, "self") {
            Ok(Some((ReceiverForm::ByReference { lifetime: None, mutable: true }, false, i + 3)))
        } else if check_lifetime(toks, i + 1) && check_word(toks, i + 2, "self") {
            let lt = token_text(toks, i + 1);
            Ok(Some((ReceiverForm::ByReference { lifetime: Some(lt), mutable: false }, false, i + 3)))
        } else if check_lifetime(toks, i + 1) && check_word(toks, i + 2, "mut") && check_word(
            toks,
            i + 3,
            "self",
        ) {
            let lt = token_text(toks, i + 1);
            Ok(Some((ReceiverForm::ByReference { lifetime: Some(lt), mutable: true }, false, i + 4)))
        } else {
            Ok(None)
        }
    } else if check_punct(toks, i, Punct::Star) {
        if check_word(toks, i + 1, "self") {
            Ok(Some((ReceiverForm::ByValue { mutable: false }, true, i + 2)))
        } else if (check_word(toks, i + 1, "mut") || check_word(toks, i + 1, "const"))
            && check_word(toks, i + 2, "self") {
            Ok(Some((ReceiverForm::ByValue { mutable: false }, true, i + 3)))
        } else {
            Ok(None)
        }
    } else if check_word(toks, i, "self") {
        parse_self_tail(toks, i, false)
    } else if check_word(toks, i, "mut") && check_word(toks, i + 1, "self") {
        parse_self_tail(toks, i + 1, true)
    } else {
        Ok(None)
    }
}

} // verus!
