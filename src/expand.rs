use vstd::prelude::*;
use crate::emit::{emit, emit_spec, GeneratedFunction, GeneratedView};
use crate::model::{
    error_at, ClassDecl, DescriptorView, ErrorKind, ExpandError,
};
use crate::parser::{class_block, parse_class_block};
use crate::registry::TypeRegistry;
use crate::token::Token;

verus! {

/// The index of the first declaration whose receiver is a raw pointer.
pub open spec fn first_raw_receiver(ds: Seq<DescriptorView>) -> Option<int>
    decreases ds.len(),
{
    if ds.len() == 0 {
        None
    } else {
        match first_raw_receiver(ds.drop_last()) {
            Some(k) => Some(k),
            None => if ds.last().signature.raw_pointer_receiver {
                Some(ds.len() - 1)
            } else {
                None
            },
        }
    }
}

/// The bridges for `ds` in order, or the index of the first declaration that
/// has an unmapped type.
pub open spec fn emit_all(
    ds: Seq<DescriptorView>,
    class: Seq<char>,
    package: Seq<char>,
    reg: Map<Seq<char>, Seq<char>>,
) -> Result<Seq<GeneratedView>, int>
    decreases ds.len(),
{
    if ds.len() == 0 {
        Ok(Seq::empty())
    } else {
        match emit_all(ds.drop_last(), class, package, reg) {
            Err(k) => Err(k),
            Ok(fs) => match emit_spec(ds.last(), class, package, reg) {
                Err(_) => Err(ds.len() - 1),
                Ok(Some(g)) => Ok(fs.push(g)),
                Ok(None) => Ok(fs),
            },
        }
    }
}

/// The outcome of expanding a whole block.
pub open spec fn expansion(t: Seq<Token>, package: Seq<char>, reg: Map<Seq<char>, Seq<char>>) -> Result<
    Seq<GeneratedView>,
    ExpandError,
> {
    match class_block(t) {
        Err(e) => Err(e),
        Ok(c) => match first_raw_receiver(c.methods) {
            Some(k) => Err(error_at(ErrorKind::UnsupportedReceiverForm, k)),
            None => match emit_all(c.methods, c.name, package, reg) {
                Ok(fs) => Ok(fs),
                Err(k) => Err(error_at(ErrorKind::UnsupportedType, k)),
            },
        },
    }
}

pub open spec fn generated_view(fs: Seq<GeneratedFunction>) -> Seq<GeneratedView> {
    fs.map_values(|g: GeneratedFunction| g@)
}

/// The bridges for the declarations of a parsed block, in order. Fails with
/// `UnsupportedReceiverForm` at the first raw-pointer receiver, else with
/// `UnsupportedType` at the first declaration with an unmapped type.
pub fn emit_class(class: &ClassDecl, package: &String, reg: &TypeRegistry) -> (r: Result<
    Vec<GeneratedFunction>,
    ExpandError,
>)
    ensures
        match r {
            Ok(fs) => first_raw_receiver(class@.methods) is None && emit_all(
                class@.methods,
                class@.name,
                package@,
                reg.view(),
            ) == Ok::<_, int>(generated_view(fs@)),
            Err(e) => match first_raw_receiver(class@.methods) {
                Some(k) => e == error_at(ErrorKind::UnsupportedReceiverForm, k),
                None => emit_all(class@.methods, class@.name, package@, reg.view()) == Err::<
                    Seq<GeneratedView>,
                    int,
                >(e.pos as int) && e.kind == ErrorKind::UnsupportedType,
            },
        },
{
    let ghost ds = class@.methods;
    let n = class.methods.len();
    let mut i: usize = 0;
    while i < n
        invariant
            i <= n,
            n == ds.len(),
            ds == class@.methods,
            first_raw_receiver(ds.take(i as int)) is None,
        decreases n - i,
    {
        proof {
            assert(ds.take(i + 1).drop_last() =~= ds.take(i as int));
        }
        if class.methods[i].signature.raw_pointer_receiver {
            proof {
                assert(ds.take(n as int) =~= ds);
                lemma_first_raw_extends(ds, i as int, n as int);
            }
            return Err(ExpandError { kind: ErrorKind::UnsupportedReceiverForm, pos: i });
        }
        i = i + 1;
    }
    proof {
        assert(ds.take(n as int) =~= ds);
    }
    let mut out: Vec<GeneratedFunction> = Vec::new();
    proof {
        assert(generated_view(out@) =~= Seq::empty());
        assert(ds.take(0) =~= Seq::<DescriptorView>::empty());
    }
    let mut i: usize = 0;
    while i < n
        invariant
            i <= n,
            n == ds.len(),
            ds == class@.methods,
            first_raw_receiver(ds) is None,
            emit_all(ds.take(i as int), class@.name, package@, reg.view()) == Ok::<_, int>(
                generated_view(out@),
            ),
        decreases n - i,
    {
        proof {
            assert(ds.take(i + 1).drop_last() =~= ds.take(i as int));
        }
        match emit(&class.methods[i], &class.name, package, reg) {
            Err(_) => {
                proof {
                    lemma_emit_error_extends(ds, class@.name, package@, reg.view(), i as int, n as int);
                    assert(ds.take(n as int) =~= ds);
                }
                return Err(ExpandError { kind: ErrorKind::UnsupportedType, pos: i });
            },
            Ok(Some(g)) => {
                let ghost before = generated_view(out@);
                out.push(g);
                proof {
                    assert(generated_view(out@) =~= before.push(g@));
                }
            },
            Ok(None) => {},
        }
        i = i + 1;
    }
    proof {
        assert(ds.take(n as int) =~= ds);
    }
    Ok(out)
}

proof fn lemma_first_raw_extends(ds: Seq<DescriptorView>, i: int, m: int)
    requires
        0 <= i < m <= ds.len(),
        first_raw_receiver(ds.take(i)) is None,
        ds[i].signature.raw_pointer_receiver,
    ensures
        first_raw_receiver(ds.take(m)) == Some(i),
    decreases m - i,
{
    if m == i + 1 {
        assert(ds.take(m).drop_last() =~= ds.take(i));
    } else {
        lemma_first_raw_extends(ds, i, m - 1);
        assert(ds.take(m).drop_last() =~= ds.take(m - 1));
    }
}

proof fn lemma_emit_error_extends(
    ds: Seq<DescriptorView>,
    class: Seq<char>,
    package: Seq<char>,
    reg: Map<Seq<char>, Seq<char>>,
    i: int,
    m: int,
)
    requires
        0 <= i < m <= ds.len(),
        emit_all(ds.take(i), class, package, reg) is Ok,
        emit_spec(ds[i], class, package, reg) is Err,
    ensures
        emit_all(ds.take(m), class, package, reg) == Err::<Seq<GeneratedView>, int>(i),
    decreases m - i,
{
    if m == i + 1 {
        assert(ds.take(m).drop_last() =~= ds.take(i));
    } else {
        lemma_emit_error_extends(ds, class, package, reg, i, m - 1);
        assert(ds.take(m).drop_last() =~= ds.take(m - 1));
    }
}

/// Expands one class block into its bridge functions. Nothing is produced
/// unless the whole block parses, has no raw-pointer receiver, and maps every
/// type of every method.
pub fn expand(toks: &Vec<Token>, package: &String, reg: &TypeRegistry) -> (r: Result<
    Vec<GeneratedFunction>,
    ExpandError,
>)
    ensures
        match r {
            Ok(fs) => expansion(toks@, package@, reg.view()) == Ok::<_, ExpandError>(
                generated_view(fs@),
            ),
            Err(e) => expansion(toks@, package@, reg.view()) == Err::<Seq<GeneratedView>, ExpandError>(
                e,
            ),
        },
{
    match parse_class_block(toks) {
        Err(e) => Err(e),
        Ok(class) => emit_class(&class, package, reg),
    }
}

} // verus!
