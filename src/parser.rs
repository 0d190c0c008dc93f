use vstd::prelude::*;
use crate::model::{
    descriptors_view, error_at, params_view, strings_view, ClassDecl, ClassView, DescriptorView,
    ErrorKind, ExpandError, MethodDescriptor, MethodVariant, Param, ReceiverView, Signature,
    SignatureView,
};
use crate::receiver::{parse_receiver, receiver_at};
use crate::token::{
    check_ident, check_punct, check_word, ident_at, lemma_tokens_fit, punct_at, text_at, token_text,
    word_at, Punct, Token,
};
use crate::types::{parse_type, type_at};

verus! {

/// An ordinary parameter `name: Type` at `i`.
pub open spec fn param_at(t: Seq<Token>, i: int) -> Result<((Seq<char>, Seq<char>), int), int> {
    if !ident_at(t, i) {
        Err(i)
    } else if !punct_at(t, i + 1, Punct::Colon) {
        Err(i + 1)
    } else {
        match type_at(t, i + 2) {
            Ok((ty, n)) => Ok(((text_at(t, i), ty), n)),
            Err(e) => Err(e),
        }
    }
}

/// Ordinary parameters separated by commas, a trailing comma allowed, up to the
/// closing parenthesis; the position returned is that of the parenthesis.
pub open spec fn params_at(t: Seq<Token>, i: int) -> Result<
    (Seq<(Seq<char>, Seq<char>)>, int),
    int,
>
    decreases t.len() - i,
{
    if punct_at(t, i, Punct::CloseParen) {
        Ok((Seq::empty(), i))
    } else {
        match param_at(t, i) {
            Err(e) => Err(e),
            Ok((p, j)) => if punct_at(t, j, Punct::CloseParen) {
                Ok((seq![p], j))
            } else if punct_at(t, j, Punct::Comma) && i < j {
                // A parameter always takes at least one token; `i < j` records it.
                match params_at(t, j + 1) {
                    Ok((ps, k)) => Ok((seq![p] + ps, k)),
                    Err(e) => Err(e),
                }
            } else {
                Err(j)
            },
        }
    }
}

/// A target path at `i`: identifiers separated by `.` or `::`.
pub open spec fn target_path_at(t: Seq<Token>, i: int) -> Result<(Seq<Seq<char>>, int), int>
    decreases t.len() - i,
{
    if !ident_at(t, i) {
        Err(i)
    } else if punct_at(t, i + 1, Punct::Dot) || punct_at(t, i + 1, Punct::PathSep) {
        match target_path_at(t, i + 2) {
            Ok((ss, n)) => Ok((seq![text_at(t, i)] + ss, n)),
            Err(e) => Err(e),
        }
    } else {
        Ok((seq![text_at(t, i)], i + 1))
    }
}

/// The inside of a parameter list that starts at `i` (just after the opening
/// parenthesis): the receiver, whether it was a raw pointer, the ordinary
/// parameters, and the position of the closing parenthesis.
pub open spec fn param_list_at(t: Seq<Token>, i: int, with_receiver: bool) -> Result<
    (Option<ReceiverView>, bool, Seq<(Seq<char>, Seq<char>)>, int),
    int,
> {
    let rec = if with_receiver {
        receiver_at(t, i)
    } else {
        Ok(None)
    };
    match rec {
        Err(e) => Err(e),
        Ok(None) => match params_at(t, i) {
            Ok((ps, k)) => Ok((None, false, ps, k)),
            Err(e) => Err(e),
        },
        Ok(Some((r, raw, j))) => if punct_at(t, j, Punct::CloseParen) {
            Ok((Some(r), raw, Seq::empty(), j))
        } else if punct_at(t, j, Punct::Comma) {
            match params_at(t, j + 1) {
                Ok((ps, k)) => Ok((Some(r), raw, ps, k)),
                Err(e) => Err(e),
            }
        } else {
            Err(j)
        },
    }
}

/// A function declaration at `i`: `( ... )` and an optional `-> Type`.
pub open spec fn signature_at(t: Seq<Token>, i: int, with_receiver: bool) -> Result<
    (SignatureView, int),
    int,
> {
    if !punct_at(t, i, Punct::OpenParen) {
        Err(i)
    } else {
        match param_list_at(t, i + 1, with_receiver) {
            Err(e) => Err(e),
            Ok((receiver, raw, params, k)) => if !punct_at(t, k, Punct::CloseParen) {
                Err(k)
            } else if punct_at(t, k + 1, Punct::Arrow) {
                match type_at(t, k + 2) {
                    Ok((ty, n)) => Ok(
                        (
                            SignatureView {
                                receiver,
                                raw_pointer_receiver: raw,
                                params,
                                return_type: Some(ty),
                            },
                            n,
                        ),
                    ),
                    Err(e) => Err(e),
                }
            } else {
                Ok(
                    (
                        SignatureView {
                            receiver,
                            raw_pointer_receiver: raw,
                            params,
                            return_type: None,
                        },
                        k + 1,
                    ),
                )
            },
        }
    }
}

pub open spec fn variant_of(w: Seq<char>) -> Option<MethodVariant> {
    if w == "constructor"@ {
        Some(MethodVariant::Constructor)
    } else if w == "method"@ {
        Some(MethodVariant::Method)
    } else if w == "static_method"@ {
        Some(MethodVariant::StaticMethod)
    } else {
        None
    }
}

/// One declaration `Variant Path ( ... ) [-> Type] ;` at `i`.
pub open spec fn entry_at(t: Seq<Token>, i: int) -> Result<(DescriptorView, int), ExpandError> {
    if !ident_at(t, i) {
        Err(error_at(ErrorKind::SyntaxError, i))
    } else {
        match variant_of(text_at(t, i)) {
            None => Err(error_at(ErrorKind::UnknownVariant, i)),
            Some(variant) => match target_path_at(t, i + 1) {
                Err(e) => Err(error_at(ErrorKind::SyntaxError, e)),
                Ok((target_path, j)) => match signature_at(
                    t,
                    j,
                    variant == MethodVariant::Method,
                ) {
                    Err(e) => Err(error_at(ErrorKind::SyntaxError, e)),
                    Ok((signature, k)) => if !punct_at(t, k, Punct::Semi) {
                        Err(error_at(ErrorKind::SyntaxError, k))
                    } else {
                        Ok((DescriptorView { variant, target_path, signature }, k + 1))
                    },
                },
            },
        }
    }
}

/// Declarations from `i` up to and including the closing brace.
pub open spec fn entries_at(t: Seq<Token>, i: int) -> Result<
    (Seq<DescriptorView>, int),
    ExpandError,
>
    decreases t.len() - i,
{
    if punct_at(t, i, Punct::CloseBrace) {
        Ok((Seq::empty(), i + 1))
    } else {
        match entry_at(t, i) {
            Err(e) => Err(e),
            // A declaration always takes at least one token; `i < j` records it.
            Ok((d, j)) => if i < j <= t.len() {
                match entries_at(t, j) {
                    Ok((ds, k)) => Ok((seq![d] + ds, k)),
                    Err(e) => Err(e),
                }
            } else {
                Err(error_at(ErrorKind::SyntaxError, j))
            },
        }
    }
}

/// A whole block `class Name { declarations }`.
pub open spec fn class_block(t: Seq<Token>) -> Result<ClassView, ExpandError> {
    if !word_at(t, 0, "class"@) {
        Err(error_at(ErrorKind::SyntaxError, 0))
    } else if !ident_at(t, 1) {
        Err(error_at(ErrorKind::SyntaxError, 1))
    } else if !punct_at(t, 2, Punct::OpenBrace) {
        Err(error_at(ErrorKind::SyntaxError, 2))
    } else {
        match entries_at(t, 3) {
            Ok((methods, _)) => Ok(ClassView { name: text_at(t, 1), methods }),
            Err(e) => Err(e),
        }
    }
}

impl MethodVariant {
    /// Classifies a declaration keyword.
    pub fn from_keyword(w: &String) -> (r: Option<MethodVariant>)
        ensures
            r == variant_of(w@),
    {
        if *w == "constructor".to_owned() {
            Some(MethodVariant::Constructor)
        } else if *w == "method".to_owned() {
            Some(MethodVariant::Method)
        } else if *w == "static_method".to_owned() {
            Some(MethodVariant::StaticMethod)
        } else {
            None
        }
    }
}

fn parse_param(toks: &Vec<Token>, i: usize) -> (r: Result<(Param, usize), usize>)
    requires
        i <= toks@.len(),
    ensures
        match r {
            Ok((p, n)) => param_at(toks@, i as int) == Ok::<_, int>((p@, n as int)) && i < n
                <= toks@.len(),
            Err(e) => param_at(toks@, i as int) == Err::<((Seq<char>, Seq<char>), int), int>(
                e as int,
            ) && e <= toks@.len(),
        },
{
    proof {
        lemma_tokens_fit(toks);
    }
    if !check_ident(toks, i) {
        Err(i)
    } else if !check_punct(toks, i + 1, Punct::Colon) {
        Err(i + 1)
    } else {
        match parse_type(toks, i + 2) {
            Ok((ty, n)) => Ok((Param { name: token_text(toks, i), ty }, n)),
            Err(e) => Err(e),
        }
    }
}

fn parse_params(toks: &Vec<Token>, i: usize) -> (r: Result<(Vec<Param>, usize), usize>)
    requires
        i <= toks@.len(),
    ensures
        match r {
            Ok((ps, n)) => params_at(toks@, i as int) == Ok::<_, int>(
                (params_view(ps@), n as int),
            ) && i <= n < toks@.len(),
            Err(e) => params_at(toks@, i as int) == Err::<
                (Seq<(Seq<char>, Seq<char>)>, int),
                int,
            >(e as int) && e <= toks@.len(),
        },
    decreases toks@.len() - i,
{
    proof {
        lemma_tokens_fit(toks);
    }
    if check_punct(toks, i, Punct::CloseParen) {
        let ps: Vec<Param> = Vec::new();
        proof {
            assert(params_view(ps@) =~= Seq::empty());
        }
        return Ok((ps, i));
    }
    match parse_param(toks, i) {
        Err(e) => Err(e),
        Ok((p, j)) => {
            if check_punct(toks, j, Punct::CloseParen) {
                let ps = vec![p];
                proof {
                    assert(params_view(ps@) =~= seq![p@]);
                }
                Ok((ps, j))
            } else if check_punct(toks, j, Punct::Comma) {
                match parse_params(toks, j + 1) {
                    Ok((rest, k)) => {
                        let ghost old_rest = rest@;
                        let mut ps = rest;
                        ps.insert(0, p);
                        proof {
                            assert(params_view(ps@) =~= seq![p@] + params_view(old_rest));
                        }
                        Ok((ps, k))
                    },
                    Err(e) => Err(e),
                }
            } else {
                Err(j)
            }
        },
    }
}

fn parse_target_path(toks: &Vec<Token>, i: usize) -> (r: Result<(Vec<String>, usize), usize>)
    requires
        i <= toks@.len(),
    ensures
        match r {
            Ok((ss, n)) => target_path_at(toks@, i as int) == Ok::<_, int>(
                (strings_view(ss@), n as int),
            ) && i < n <= toks@.len(),
            Err(e) => target_path_at(toks@, i as int) == Err::<(Seq<Seq<char>>, int), int>(
                e as int,
            ) && e <= toks@.len(),
        },
    decreases toks@.len() - i,
{
    proof {
        lemma_tokens_fit(toks);
    }
    if !check_ident(toks, i) {
        Err(i)
    } else if check_punct(toks, i + 1, Punct::Dot) || check_punct(toks, i + 1, Punct::PathSep) {
        match parse_target_path(toks, i + 2) {
            Ok((rest, n)) => {
                let ghost old_rest = rest@;
                let mut ss = rest;
                ss.insert(0, token_text(toks, i));
                proof {
                    assert(strings_view(ss@) =~= seq![text_at(toks@, i as int)] + strings_view(
                        old_rest,
                    ));
                }
                Ok((ss, n))
            },
            Err(e) => Err(e),
        }
    } else {
        let ss = vec![token_text(toks, i)];
        proof {
            assert(strings_view(ss@) =~= seq![text_at(toks@, i as int)]);
        }
        Ok((ss, i + 1))
    }
}

fn parse_param_list(toks: &Vec<Token>, i: usize, with_receiver: bool) -> (r: Result<
    (Option<crate::model::ReceiverForm>, bool, Vec<Param>, usize),
    usize,
>)
    requires
        i <= toks@.len(),
    ensures
        match r {
            Ok((rec, raw, ps, n)) => param_list_at(toks@, i as int, with_receiver) == Ok::<_, int>(
                (
                    match rec {
                        Some(f) => Some(f@),
                        None => None,
                    },
                    raw,
                    params_view(ps@),
                    n as int,
                ),
            ) && i <= n < toks@.len(),
            Err(e) => param_list_at(toks@, i as int, with_receiver) == Err::<
                (Option<ReceiverView>, bool, Seq<(Seq<char>, Seq<char>)>, int),
                int,
            >(e as int) && e <= toks@.len(),
        },
{
    proof {
        lemma_tokens_fit(toks);
    }
    let rec = if with_receiver {
        parse_receiver(toks, i)
    } else {
        Ok(None)
    };
    match rec {
        Err(e) => Err(e),
        Ok(None) => match parse_params(toks, i) {
            Ok((ps, k)) => Ok((None, false, ps, k)),
            Err(e) => Err(e),
        },
        Ok(Some((f, raw, j))) => {
            if check_punct(toks, j, Punct::CloseParen) {
                let ps: Vec<Param> = Vec::new();
                proof {
                    assert(params_view(ps@) =~= Seq::empty());
                }
                Ok((Some(f), raw, ps, j))
            } else if check_punct(toks, j, Punct::Comma) {
                match parse_params(toks, j + 1) {
                    Ok((ps, k)) => Ok((Some(f), raw, ps, k)),
                    Err(e) => Err(e),
                }
            } else {
                Err(j)
            }
        },
    }
}

/// Parses a function declaration at `i`; a receiver is looked for only when
/// `with_receiver` holds.
pub fn parse_signature(toks: &Vec<Token>, i: usize, with_receiver: bool) -> (r: Result<
    (Signature, usize),
    usize,
>)
    requires
        i <= toks@.len(),
    ensures
        match r {
            Ok((sig, n)) => signature_at(toks@, i as int, with_receiver) == Ok::<_, int>(
                (sig@, n as int),
            ) && i < n <= toks@.len(),
            Err(e) => signature_at(toks@, i as int, with_receiver) == Err::<
                (SignatureView, int),
                int,
            >(e as int) && e <= toks@.len(),
        },
{
    proof {
        lemma_tokens_fit(toks);
    }
    if !check_punct(toks, i, Punct::OpenParen) {
        return Err(i);
    }
    match parse_param_list(toks, i + 1, with_receiver) {
        Err(e) => Err(e),
        Ok((receiver, raw, params, k)) => {
            if !check_punct(toks, k, Punct::CloseParen) {
                Err(k)
            } else if check_punct(toks, k + 1, Punct::Arrow) {
                match parse_type(toks, k + 2) {
                    Ok((ty, n)) => Ok(
                        (
                            Signature {
                                receiver,
                                raw_pointer_receiver: raw,
                                params,
                                return_type: Some(ty),
                            },
                            n,
                        ),
                    ),
                    Err(e) => Err(e),
                }
            } else {
                Ok(
                    (
                        Signature {
                            receiver,
                            raw_pointer_receiver: raw,
                            params,
                            return_type: None,
                        },
                        k + 1,
                    ),
                )
            }
        },
    }
}

fn parse_entry(toks: &Vec<Token>, i: usize) -> (r: Result<(MethodDescriptor, usize), ExpandError>)
    requires
        i <= toks@.len(),
    ensures
        match r {
            Ok((d, n)) => entry_at(toks@, i as int) == Ok::<_, ExpandError>((d@, n as int)) && i
                < n <= toks@.len(),
            Err(e) => entry_at(toks@, i as int) == Err::<(DescriptorView, int), ExpandError>(e),
        },
{
    proof {
        lemma_tokens_fit(toks);
    }
    if !check_ident(toks, i) {
        return Err(ExpandError { kind: ErrorKind::SyntaxError, pos: i });
    }
    let word = token_text(toks, i);
    let variant = match MethodVariant::from_keyword(&word) {
        None => {
            return Err(ExpandError { kind: ErrorKind::UnknownVariant, pos: i });
        },
        Some(v) => v,
    };
    let (target_path, j) = match parse_target_path(toks, i + 1) {
        Err(e) => {
            return Err(ExpandError { kind: ErrorKind::SyntaxError, pos: e });
        },
        Ok(x) => x,
    };
    let (signature, k) = match parse_signature(toks, j, variant == MethodVariant::Method) {
        Err(e) => {
            return Err(ExpandError { kind: ErrorKind::SyntaxError, pos: e });
        },
        Ok(x) => x,
    };
    if !check_punct(toks, k, Punct::Semi) {
        return Err(ExpandError { kind: ErrorKind::SyntaxError, pos: k });
    }
    Ok((MethodDescriptor { variant, target_path, signature }, k + 1))
}

fn parse_entries(toks: &Vec<Token>, i: usize) -> (r: Result<
    (Vec<MethodDescriptor>, usize),
    ExpandError,
>)
    requires
        i <= toks@.len(),
    ensures
        match r {
            Ok((ds, n)) => entries_at(toks@, i as int) == Ok::<_, ExpandError>(
                (descriptors_view(ds@), n as int),
            ),
            Err(e) => entries_at(toks@, i as int) == Err::<(Seq<DescriptorView>, int), ExpandError>(
                e,
            ),
        },
    decreases toks@.len() - i,
{
    proof {
        lemma_tokens_fit(toks);
    }
    if check_punct(toks, i, Punct::CloseBrace) {
        let ds: Vec<MethodDescriptor> = Vec::new();
        proof {
            assert(descriptors_view(ds@) =~= Seq::empty());
        }
        return Ok((ds, i + 1));
    }
    match parse_entry(toks, i) {
        Err(e) => Err(e),
        Ok((d, j)) => match parse_entries(toks, j) {
            Ok((rest, k)) => {
                let ghost old_rest = rest@;
                let ghost dv = d@;
                let mut ds = rest;
                ds.insert(0, d);
                proof {
                    assert(descriptors_view(ds@) =~= seq![dv] + descriptors_view(old_rest));
                }
                Ok((ds, k))
            },
            Err(e) => Err(e),
        },
    }
}

/// Parses one block `class Name { declarations }` into its declarations, in
/// the order in which they appear. Tokens after the closing brace are not read.
pub fn parse_class_block(toks: &Vec<Token>) -> (r: Result<ClassDecl, ExpandError>)
    ensures
        match r {
            Ok(c) => class_block(toks@) == Ok::<_, ExpandError>(c@),
            Err(e) => class_block(toks@) == Err::<ClassView, ExpandError>(e),
        },
{
    if !check_word(toks, 0, "class") {
        return Err(ExpandError { kind: ErrorKind::SyntaxError, pos: 0 });
    }
    if !check_ident(toks, 1) {
        return Err(ExpandError { kind: ErrorKind::SyntaxError, pos: 1 });
    }
    if !check_punct(toks, 2, Punct::OpenBrace) {
        return Err(ExpandError { kind: ErrorKind::SyntaxError, pos: 2 });
    }
    let name = token_text(toks, 1);
    match parse_entries(toks, 3) {
        Ok((methods, _)) => Ok(ClassDecl { name, methods }),
        Err(e) => Err(e),
    }
}

} // verus!
