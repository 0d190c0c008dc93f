use vstd::prelude::*;
use crate::token::{
    check_ident, check_length, check_lifetime, check_punct, check_word, ident_at, length_at,
    lemma_tokens_fit, lifetime_at, punct_at, text_at, token_text, word_at, Punct, Token,
};

verus! {

/// What a parse step gives: the text it read and the position after it, or the
/// position of the offending token.
pub open spec fn text_result(r: Result<(String, usize), usize>) -> Result<(Seq<char>, int), int> {
    match r {
        Ok((s, n)) => Ok((s@, n as int)),
        Err(e) => Err(e as int),
    }
}

pub open spec fn list_result(r: Result<(String, usize, bool, usize), usize>) -> Result<
    (Seq<char>, nat, bool, int),
    int,
> {
    match r {
        Ok((s, n, trailing, k)) => Ok((s@, n as nat, trailing, k as int)),
        Err(e) => Err(e as int),
    }
}

/// A comma-separated list of types up to the token `close`, where `lifetimes`
/// also admits lifetimes as elements. It gives the elements rendered and joined
/// by `, `, their number, whether a comma stood just before `close`, and the
/// position of `close`.
pub open spec fn type_list_at(t: Seq<Token>, i: int, close: Punct, lifetimes: bool) -> Result<
    (Seq<char>, nat, bool, int),
    int,
>
    decreases t.len() - i, 3int,
{
    if !(0 <= i < t.len()) {
        Err(i)
    } else if punct_at(t, i, close) {
        Ok((Seq::empty(), 0, false, i))
    } else {
        let first = if lifetimes && lifetime_at(t, i) {
            Ok((text_at(t, i), i + 1))
        } else {
            type_at(t, i)
        };
        match first {
            Err(e) => Err(e),
            Ok((s, j)) => if punct_at(t, j, close) {
                Ok((s, 1, false, j))
            } else if punct_at(t, j, Punct::Comma) && i < j {
                // An element always takes at least one token; `i < j` records it.
                match type_list_at(t, j + 1, close, lifetimes) {
                    Ok((rest, n, trailing, k)) => if n == 0 {
                        Ok((s, 1, true, k))
                    } else {
                        Ok((s + ", "@ + rest, n + 1, trailing, k))
                    },
                    Err(e) => Err(e),
                }
            } else {
                Err(j)
            },
        }
    }
}

/// A path type at `i`: segments separated by `::`, each with optional generic
/// arguments (`Vec<i32>`, `a::B<'a, T>::C`), rendered as written with `, `
/// between arguments.
pub open spec fn type_path_at(t: Seq<Token>, i: int) -> Result<(Seq<char>, int), int>
    decreases t.len() - i, 1int,
{
    if !ident_at(t, i) {
        Err(i)
    } else {
        let args = if punct_at(t, i + 1, Punct::Lt) {
            match type_list_at(t, i + 2, Punct::Gt, true) {
                Ok((s, _, _, k)) => Ok(("<"@ + s + ">"@, k + 1)),
                Err(e) => Err(e),
            }
        } else {
            Ok((Seq::empty(), i + 1))
        };
        match args {
            Err(e) => Err(e),
            Ok((a, j)) => {
                let seg = text_at(t, i) + a;
                if punct_at(t, j, Punct::PathSep) {
                    if ident_at(t, j + 1) && i < j {
                        match type_path_at(t, j + 1) {
                            Ok((rest, n)) => Ok((seg + "::"@ + rest, n)),
                            Err(e) => Err(e),
                        }
                    } else {
                        Err(j + 1)
                    }
                } else {
                    Ok((seg, j))
                }
            },
        }
    }
}

/// A type expression at `i`, rendered as text: `& ['lt] [mut] Type`,
/// `* (const | mut) Type`, a tuple or parenthesised type `(A, B)`, `(A,)`,
/// `()`, `(A)`, a slice `[T]`, an array `[T; N]`, or a path type.
pub open spec fn type_at(t: Seq<Token>, i: int) -> Result<(Seq<char>, int), int>
    decreases t.len() - i, 2int,
{
    if punct_at(t, i, Punct::Amp) {
        let has_lt = lifetime_at(t, i + 1);
        let j = if has_lt { i + 2 } else { i + 1 };
        let lt = if has_lt { text_at(t, i + 1) + " "@ } else { Seq::empty() };
        let has_mut = word_at(t, j, "mut"@);
        let k = if has_mut { j + 1 } else { j };
        let m = if has_mut { "mut "@ } else { Seq::empty() };
        if k < t.len() {
            match type_at(t, k) {
                Ok((s, n)) => Ok(("&"@ + lt + m + s, n)),
                Err(e) => Err(e),
            }
        } else {
            Err(k)
        }
    } else if punct_at(t, i, Punct::Star) {
        if word_at(t, i + 1, "const"@) || word_at(t, i + 1, "mut"@) {
            if i + 2 < t.len() {
                match type_at(t, i + 2) {
                    Ok((s, n)) => Ok(("*"@ + text_at(t, i + 1) + " "@ + s, n)),
                    Err(e) => Err(e),
                }
            } else {
                Err(i + 2)
            }
        } else {
            Err(i + 1)
        }
    } else if punct_at(t, i, Punct::OpenParen) {
        match type_list_at(t, i + 1, Punct::CloseParen, false) {
            Ok((s, n, trailing, k)) => {
                let comma = if n == 1 && trailing { ","@ } else { Seq::empty() };
                Ok(("("@ + s + comma + ")"@, k + 1))
            },
            Err(e) => Err(e),
        }
    } else if punct_at(t, i, Punct::OpenBracket) {
        match type_at(t, i + 1) {
            Ok((s, j)) => if punct_at(t, j, Punct::CloseBracket) {
                Ok(("["@ + s + "]"@, j + 1))
            } else if !punct_at(t, j, Punct::Semi) {
                Err(j)
            } else if !length_at(t, j + 1) {
                Err(j + 1)
            } else if !punct_at(t, j + 2, Punct::CloseBracket) {
                Err(j + 2)
            } else {
                Ok(("["@ + s + "; "@ + text_at(t, j + 1) + "]"@, j + 3))
            },
            Err(e) => Err(e),
        }
    } else {
        type_path_at(t, i)
    }
}

pub fn parse_type_list(toks: &Vec<Token>, i: usize, close: Punct, lifetimes: bool) -> (r: Result<
    (String, usize, bool, usize),
    usize,
>)
    requires
        i <= toks@.len(),
    ensures
        list_result(r) == type_list_at(toks@, i as int, close, lifetimes),
        match r {
            Ok((_, n, _, k)) => i <= k < toks@.len() && n <= k - i,
            Err(e) => e <= toks@.len(),
        },
    decreases toks@.len() - i, 3int,
{
    proof {
        lemma_tokens_fit(toks);
        reveal_strlit(", ");
    }
    if i >= toks.len() {
        return Err(i);
    }
    if check_punct(toks, i, close) {
        return Ok((String::new(), 0, false, i));
    }
    let first = if lifetimes && check_lifetime(toks, i) {
        Ok((token_text(toks, i), i + 1))
    } else {
        parse_type(toks, i)
    };
    match first {
        Err(e) => Err(e),
        Ok((s, j)) => {
            if check_punct(toks, j, close) {
                Ok((s, 1, false, j))
            } else if check_punct(toks, j, Punct::Comma) {
                match parse_type_list(toks, j + 1, close, lifetimes) {
                    Ok((rest, n, trailing, k)) => {
                        if n == 0 {
                            Ok((s, 1, true, k))
                        } else {
                            let mut r = s;
                            r.append(", ");
                            r.append(rest.as_str());
                            Ok((r, n + 1, trailing, k))
                        }
                    },
                    Err(e) => Err(e),
                }
            } else {
                Err(j)
            }
        },
    }
}

pub fn parse_type_path(toks: &Vec<Token>, i: usize) -> (r: Result<(String, usize), usize>)
    requires
        i <= toks@.len(),
    ensures
        text_result(r) == type_path_at(toks@, i as int),
        match r {
            Ok((_, n)) => i < n <= toks@.len(),
            Err(e) => e <= toks@.len(),
        },
    decreases toks@.len() - i, 1int,
{
    proof {
        lemma_tokens_fit(toks);
        reveal_strlit("::");
        reveal_strlit("<");
        reveal_strlit(">");
    }
    if !check_ident(toks, i) {
        return Err(i);
    }
    let mut seg = token_text(toks, i);
    let mut j = i + 1;
    if check_punct(toks, i + 1, Punct::Lt) {
        match parse_type_list(toks, i + 2, Punct::Gt, true) {
            Ok((s, _, _, k)) => {
                seg.append("<");
                seg.append(s.as_str());
                seg.append(">");
                j = k + 1;
            },
            Err(e) => {
                return Err(e);
            },
        }
    }
    proof {
        let t = toks@;
        let a = if punct_at(t, i + 1, Punct::Lt) {
            "<"@ + type_list_at(t, i + 2, Punct::Gt, true)->Ok_0.0 + ">"@
        } else {
            Seq::empty()
        };
        assert(seg@ =~= text_at(t, i as int) + a);
    }
    if check_punct(toks, j, Punct::PathSep) {
        if check_ident(toks, j + 1) {
            match parse_type_path(toks, j + 1) {
                Ok((rest, n)) => {
                    seg.append("::");
                    seg.append(rest.as_str());
                    Ok((seg, n))
                },
                Err(e) => Err(e),
            }
        } else {
            Err(j + 1)
        }
    } else {
        Ok((seg, j))
    }
}

pub fn parse_type(toks: &Vec<Token>, i: usize) -> (r: Result<(String, usize), usize>)
    requires
        i <= toks@.len(),
    ensures
        text_result(r) == type_at(toks@, i as int),
        match r {
            Ok((_, n)) => i < n <= toks@.len(),
            Err(e) => e <= toks@.len(),
        },
    decreases toks@.len() - i, 2int,
{
    proof {
        lemma_tokens_fit(toks);
        reveal_strlit("mut");
        reveal_strlit("const");
        reveal_strlit("mut ");
        reveal_strlit("&");
        reveal_strlit("*");
        reveal_strlit(" ");
        reveal_strlit("(");
        reveal_strlit(")");
        reveal_strlit(",");
        reveal_strlit("[");
        reveal_strlit("]");
        reveal_strlit("; ");
    }
    if check_punct(toks, i, Punct::Amp) {
        let has_lt = check_lifetime(toks, i + 1);
        let mut r = "&".to_owned();
        let mut j = i + 1;
        if has_lt {
            let lt = token_text(toks, i + 1);
            r.append(lt.as_str());
            r.append(" ");
            j = i + 2;
        }
        let mut k = j;
        if check_word(toks, j, "mut") {
            r.append("mut ");
            k = j + 1;
        }
        proof {
            let t = toks@;
            let lt = if lifetime_at(t, i + 1) { text_at(t, i + 1) + " "@ } else { Seq::empty() };
            let m = if word_at(t, j as int, "mut"@) { "mut "@ } else { Seq::empty() };
            assert(r@ =~= "&"@ + lt + m);
        }
        if k < toks.len() {
            match parse_type(toks, k) {
                Ok((s, n)) => {
                    r.append(s.as_str());
                    Ok((r, n))
                },
                Err(e) => Err(e),
            }
        } else {
            Err(k)
        }
    } else if check_punct(toks, i, Punct::Star) {
        if check_word(toks, i + 1, "const") || check_word(toks, i + 1, "mut") {
            if i + 2 < toks.len() {
                match parse_type(toks, i + 2) {
                    Ok((s, n)) => {
                        let mut r = "*".to_owned();
                        let q = token_text(toks, i + 1);
                        r.append(q.as_str());
                        r.append(" ");
                        r.append(s.as_str());
                        Ok((r, n))
                    },
                    Err(e) => Err(e),
                }
            } else {
                Err(i + 2)
            }
        } else {
            Err(i + 1)
        }
    } else if check_punct(toks, i, Punct::OpenParen) {
        match parse_type_list(toks, i + 1, Punct::CloseParen, false) {
            Ok((s, n, trailing, k)) => {
                let mut r = "(".to_owned();
                r.append(s.as_str());
                if n == 1 && trailing {
                    r.append(",");
                }
                r.append(")");
                proof {
                    let comma = if n == 1 && trailing { ","@ } else { Seq::<char>::empty() };
                    assert(r@ =~= "("@ + s@ + comma + ")"@);
                }
                Ok((r, k + 1))
            },
            Err(e) => Err(e),
        }
    } else if check_punct(toks, i, Punct::OpenBracket) {
        match parse_type(toks, i + 1) {
            Ok((s, j)) => {
                let mut r = "[".to_owned();
                r.append(s.as_str());
                if check_punct(toks, j, Punct::CloseBracket) {
                    r.append("]");
                    Ok((r, j + 1))
                } else if !check_punct(toks, j, Punct::Semi) {
                    Err(j)
                } else if !check_length(toks, j + 1) {
                    Err(j + 1)
                } else if !check_punct(toks, j + 2, Punct::CloseBracket) {
                    Err(j + 2)
                } else {
                    let len_text = token_text(toks, j + 1);
                    r.append("; ");
                    r.append(len_text.as_str());
                    r.append("]");
                    Ok((r, j + 3))
                }
            },
            Err(e) => Err(e),
        }
    } else {
        parse_type_path(toks, i)
    }
}

} // verus!
