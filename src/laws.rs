use vstd::prelude::*;
use crate::emit::{all_mapped, decimal, emit_spec, positional_name};
use crate::expand::{emit_all, expansion, first_raw_receiver};
use crate::model::{error_at, DescriptorView, ErrorKind, MethodVariant, ReceiverView};
use crate::parser::{class_block, entries_at, entry_at};
use crate::receiver::{mut_at, receiver_at, self_at};
use crate::token::{lifetime_at, punct_at, word_at, Punct, Token};

verus! {

/// The number of `method` declarations among `ds`.
pub open spec fn method_count(ds: Seq<DescriptorView>) -> nat
    decreases ds.len(),
{
    if ds.len() == 0 {
        0
    } else {
        method_count(ds.drop_last()) + if ds.last().variant == MethodVariant::Method {
            1nat
        } else {
            0nat
        }
    }
}

proof fn lemma_emit_all_count(
    ds: Seq<DescriptorView>,
    class: Seq<char>,
    package: Seq<char>,
    reg: Map<Seq<char>, Seq<char>>,
)
    requires
        forall|k: int|
            0 <= k < ds.len() && (#[trigger] ds[k]).variant == MethodVariant::Method ==> all_mapped(
                ds[k],
                reg,
            ),
    ensures
        emit_all(ds, class, package, reg) is Ok,
        emit_all(ds, class, package, reg)->Ok_0.len() == method_count(ds),
    decreases ds.len(),
{
    if ds.len() > 0 {
        let init = ds.drop_last();
        assert forall|k: int|
            0 <= k < init.len() && (#[trigger] init[k]).variant == MethodVariant::Method
                implies all_mapped(init[k], reg) by {
            assert(init[k] == ds[k]);
        }
        lemma_emit_all_count(init, class, package, reg);
        assert(ds.last() == ds[ds.len() - 1]);
    }
}

proof fn lemma_ok_count(
    ds: Seq<DescriptorView>,
    class: Seq<char>,
    package: Seq<char>,
    reg: Map<Seq<char>, Seq<char>>,
)
    requires
        emit_all(ds, class, package, reg) is Ok,
    ensures
        emit_all(ds, class, package, reg)->Ok_0.len() == method_count(ds),
    decreases ds.len(),
{
    if ds.len() > 0 {
        lemma_ok_count(ds.drop_last(), class, package, reg);
    }
}

/// A block that parses, has no raw-pointer receiver and maps every type of its
/// methods expands to exactly one bridge per `method` declaration; constructors
/// and static methods contribute none, so a block of methods only gives as
/// many bridges as it has declarations.
pub proof fn law_one_bridge_per_method(
    t: Seq<Token>,
    package: Seq<char>,
    reg: Map<Seq<char>, Seq<char>>,
)
    requires
        class_block(t) is Ok,
        first_raw_receiver(class_block(t)->Ok_0.methods) is None,
        forall|k: int|
            0 <= k < class_block(t)->Ok_0.methods.len() && (#[trigger] class_block(
                t,
            )->Ok_0.methods[k]).variant == MethodVariant::Method ==> all_mapped(
                class_block(t)->Ok_0.methods[k],
                reg,
            ),
    ensures
        expansion(t, package, reg) is Ok,
        expansion(t, package, reg)->Ok_0.len() == method_count(class_block(t)->Ok_0.methods),
        (forall|k: int|
            0 <= k < class_block(t)->Ok_0.methods.len() ==> (#[trigger] class_block(
                t,
            )->Ok_0.methods[k]).variant == MethodVariant::Method) ==> expansion(
            t,
            package,
            reg,
        )->Ok_0.len() == class_block(t)->Ok_0.methods.len(),
{
    let c = class_block(t)->Ok_0;
    lemma_emit_all_count(c.methods, c.name, package, reg);
    if forall|k: int|
        0 <= k < c.methods.len() ==> (#[trigger] c.methods[k]).variant == MethodVariant::Method {
        lemma_all_methods_count(c.methods);
    }
}

proof fn lemma_all_methods_count(ds: Seq<DescriptorView>)
    requires
        forall|k: int| 0 <= k < ds.len() ==> (#[trigger] ds[k]).variant == MethodVariant::Method,
    ensures
        method_count(ds) == ds.len(),
    decreases ds.len(),
{
    if ds.len() > 0 {
        let init = ds.drop_last();
        assert forall|k: int| 0 <= k < init.len() implies (#[trigger] init[k]).variant
            == MethodVariant::Method by {
            assert(init[k] == ds[k]);
        }
        lemma_all_methods_count(init);
        assert(ds.last() == ds[ds.len() - 1]);
    }
}

/// Whenever a block expands, the bridges number exactly its `method`
/// declarations.
pub proof fn law_bridge_count(t: Seq<Token>, package: Seq<char>, reg: Map<Seq<char>, Seq<char>>)
    requires
        expansion(t, package, reg) is Ok,
    ensures
        class_block(t) is Ok,
        expansion(t, package, reg)->Ok_0.len() == method_count(class_block(t)->Ok_0.methods),
{
    let c = class_block(t)->Ok_0;
    lemma_ok_count(c.methods, c.name, package, reg);
}

/// The bridge of a `method` declaration has three leading parameters and then
/// one per declared parameter, named `a_0`, `a_1`, ... in order and typed
/// through the registry.
pub proof fn law_bridge_parameters(
    d: DescriptorView,
    class: Seq<char>,
    package: Seq<char>,
    reg: Map<Seq<char>, Seq<char>>,
)
    requires
        d.variant == MethodVariant::Method,
        all_mapped(d, reg),
    ensures
        emit_spec(d, class, package, reg) is Ok,
        emit_spec(d, class, package, reg)->Ok_0 is Some,
        emit_spec(d, class, package, reg)->Ok_0->Some_0.params.len() == 3
            + d.signature.params.len(),
        forall|k: int|
            0 <= k < d.signature.params.len() ==> #[trigger] emit_spec(
                d,
                class,
                package,
                reg,
            )->Ok_0->Some_0.params[3 + k] == ("a_"@ + decimal(k as nat), reg[d.signature.params[k].1]),
{
    let g = emit_spec(d, class, package, reg)->Ok_0->Some_0;
    assert forall|k: int| 0 <= k < d.signature.params.len() implies #[trigger] g.params[3 + k] == (
        "a_"@ + decimal(k as nat),
        reg[d.signature.params[k].1],
    ) by {
        assert(positional_name(k as nat) == "a_"@ + decimal(k as nat));
    }
}

/// The rows of the receiver table, and the absence of a receiver.
#[derive(Clone, Copy, Debug, PartialEq, Eq, Structural)]
pub enum ReceiverPattern {
    RefSelf,
    RefMutSelf,
    RefLifetimeSelf,
    RefLifetimeMutSelf,
    RawSelf,
    RawQualifiedSelf,
    ValueSelf,
    TypedSelf,
    MutValueSelf,
    MutTypedSelf,
    NoReceiver,
}

/// Whether the tokens from `i` open with the lexical pattern `p`.
pub open spec fn pattern_matches(t: Seq<Token>, i: int, p: ReceiverPattern) -> bool {
    let amp = punct_at(t, i, Punct::Amp);
    let star = punct_at(t, i, Punct::Star);
    match p {
        ReceiverPattern::RefSelf => amp && self_at(t, i + 1),
        ReceiverPattern::RefMutSelf => amp && mut_at(t, i + 1) && self_at(t, i + 2),
        ReceiverPattern::RefLifetimeSelf => amp && lifetime_at(t, i + 1) && self_at(t, i + 2),
        ReceiverPattern::RefLifetimeMutSelf => amp && lifetime_at(t, i + 1) && mut_at(t, i + 2)
            && self_at(t, i + 3),
        ReceiverPattern::RawSelf => star && self_at(t, i + 1),
        ReceiverPattern::RawQualifiedSelf => star && (mut_at(t, i + 1) || word_at(
            t,
            i + 1,
            "const"@,
        )) && self_at(t, i + 2),
        ReceiverPattern::ValueSelf => self_at(t, i) && !punct_at(t, i + 1, Punct::Colon),
        ReceiverPattern::TypedSelf => self_at(t, i) && punct_at(t, i + 1, Punct::Colon),
        ReceiverPattern::MutValueSelf => mut_at(t, i) && self_at(t, i + 1) && !punct_at(
            t,
            i + 2,
            Punct::Colon,
        ),
        ReceiverPattern::MutTypedSelf => mut_at(t, i) && self_at(t, i + 1) && punct_at(
            t,
            i + 2,
            Punct::Colon,
        ),
        ReceiverPattern::NoReceiver => !(amp && self_at(t, i + 1)) && !(amp && mut_at(t, i + 1)
            && self_at(t, i + 2)) && !(amp && lifetime_at(t, i + 1) && self_at(t, i + 2)) && !(amp
            && lifetime_at(t, i + 1) && mut_at(t, i + 2) && self_at(t, i + 3)) && !(star && self_at(
            t,
            i + 1,
        )) && !(star && (mut_at(t, i + 1) || word_at(t, i + 1, "const"@)) && self_at(t, i + 2))
            && !self_at(t, i) && !(mut_at(t, i) && self_at(t, i + 1)),
    }
}

/// What the table gives for pattern `p`: the form, whether it is a rejected
/// raw pointer, and how many tokens it takes (a typed receiver takes its type
/// too, and fails where the type does).
pub open spec fn pattern_outcome(
    t: Seq<Token>,
    i: int,
    p: ReceiverPattern,
    r: Result<Option<(ReceiverView, bool, int)>, int>,
) -> bool {
    match p {
        ReceiverPattern::NoReceiver => r == Ok::<Option<(ReceiverView, bool, int)>, int>(None),
        ReceiverPattern::TypedSelf | ReceiverPattern::MutTypedSelf => match r {
            Ok(Some((ReceiverView::ByExplicitType { ty: _, mutable }, raw, _))) => !raw && mutable
                == (p == ReceiverPattern::MutTypedSelf),
            Ok(_) => false,
            Err(_) => true,
        },
        _ => match r {
            Ok(Some((form, raw, n))) => match p {
                ReceiverPattern::RefSelf => form == ReceiverView::ByReference {
                    lifetime: None,
                    mutable: false,
                } && !raw && n == i + 2,
                ReceiverPattern::RefMutSelf => form == ReceiverView::ByReference {
                    lifetime: None,
                    mutable: true,
                } && !raw && n == i + 3,
                ReceiverPattern::RefLifetimeSelf => (form matches ReceiverView::ByReference {
                    lifetime: Some(_),
                    mutable: false,
                }) && !raw && n == i + 3,
                ReceiverPattern::RefLifetimeMutSelf => (form matches ReceiverView::ByReference {
                    lifetime: Some(_),
                    mutable: true,
                }) && !raw && n == i + 4,
                ReceiverPattern::RawSelf => form == ReceiverView::ByValue { mutable: false } && raw
                    && n == i + 2,
                ReceiverPattern::RawQualifiedSelf => form == ReceiverView::ByValue {
                    mutable: false,
                } && raw && n == i + 3,
                ReceiverPattern::ValueSelf => form == ReceiverView::ByValue { mutable: false }
                    && !raw && n == i + 1,
                _ => form == ReceiverView::ByValue { mutable: true } && !raw && n == i + 2,
            },
            _ => false,
        },
    }
}

/// Receiver disambiguation is exhaustive and unambiguous: at any position
/// exactly one pattern of the table (or none) applies, and the outcome is the
/// one the table gives for it.
pub proof fn law_receiver_patterns(t: Seq<Token>, i: int, p: ReceiverPattern, q: ReceiverPattern)
    ensures
        exists|s: ReceiverPattern| pattern_matches(t, i, s),
        pattern_matches(t, i, p) && pattern_matches(t, i, q) ==> p == q,
        pattern_matches(t, i, p) ==> pattern_outcome(t, i, p, receiver_at(t, i)),
{
    reveal_strlit("self");
    reveal_strlit("mut");
    reveal_strlit("const");
    let s = if pattern_matches(t, i, ReceiverPattern::RefSelf) {
        ReceiverPattern::RefSelf
    } else if pattern_matches(t, i, ReceiverPattern::RefMutSelf) {
        ReceiverPattern::RefMutSelf
    } else if pattern_matches(t, i, ReceiverPattern::RefLifetimeSelf) {
        ReceiverPattern::RefLifetimeSelf
    } else if pattern_matches(t, i, ReceiverPattern::RefLifetimeMutSelf) {
        ReceiverPattern::RefLifetimeMutSelf
    } else if pattern_matches(t, i, ReceiverPattern::RawSelf) {
        ReceiverPattern::RawSelf
    } else if pattern_matches(t, i, ReceiverPattern::RawQualifiedSelf) {
        ReceiverPattern::RawQualifiedSelf
    } else if pattern_matches(t, i, ReceiverPattern::ValueSelf) {
        ReceiverPattern::ValueSelf
    } else if pattern_matches(t, i, ReceiverPattern::TypedSelf) {
        ReceiverPattern::TypedSelf
    } else if pattern_matches(t, i, ReceiverPattern::MutValueSelf) {
        ReceiverPattern::MutValueSelf
    } else if pattern_matches(t, i, ReceiverPattern::MutTypedSelf) {
        ReceiverPattern::MutTypedSelf
    } else {
        ReceiverPattern::NoReceiver
    };
    assert(pattern_matches(t, i, s));
    assert("self"@.len() != "mut"@.len());
    assert("self"@.len() != "const"@.len());
}

/// The two token sequences agree at position `k` (and on whether it exists).
pub open spec fn same_at(t1: Seq<Token>, t2: Seq<Token>, k: int) -> bool {
    &&& (0 <= k < t1.len()) == (0 <= k < t2.len())
    &&& 0 <= k < t1.len() ==> t1[k] == t2[k]
}

/// The two token sequences agree on the four tokens from `i`.
pub open spec fn same_window(t1: Seq<Token>, t2: Seq<Token>, i: int) -> bool {
    same_at(t1, t2, i) && same_at(t1, t2, i + 1) && same_at(t1, t2, i + 2) && same_at(t1, t2, i + 3)
}

/// The receiver decision is made on the lookahead window alone: the same
/// prefix gives the same outcome, whatever follows it (a typed receiver goes
/// on to read its type, and is left out here).
pub proof fn law_receiver_deterministic(t1: Seq<Token>, t2: Seq<Token>, i: int)
    requires
        same_window(t1, t2, i),
        !pattern_matches(t1, i, ReceiverPattern::TypedSelf),
        !pattern_matches(t1, i, ReceiverPattern::MutTypedSelf),
    ensures
        receiver_at(t1, i) == receiver_at(t2, i),
{
}

proof fn lemma_raw_found(ds: Seq<DescriptorView>, k: int)
    requires
        0 <= k < ds.len(),
        ds[k].signature.raw_pointer_receiver,
    ensures
        first_raw_receiver(ds) is Some,
        0 <= first_raw_receiver(ds)->Some_0 <= k,
    decreases ds.len(),
{
    if k < ds.len() - 1 {
        let init = ds.drop_last();
        assert(init[k] == ds[k]);
        lemma_raw_found(init, k);
    } else {
        lemma_raw_bound(ds.drop_last());
    }
}

proof fn lemma_raw_bound(ds: Seq<DescriptorView>)
    ensures
        first_raw_receiver(ds) matches Some(j) ==> 0 <= j < ds.len(),
    decreases ds.len(),
{
    if ds.len() > 0 {
        lemma_raw_bound(ds.drop_last());
    }
}

/// A block with a raw-pointer receiver anywhere never expands: it fails with
/// `UnsupportedReceiverForm` at the first such declaration, at or before it.
pub proof fn law_raw_receiver_rejected(
    t: Seq<Token>,
    package: Seq<char>,
    reg: Map<Seq<char>, Seq<char>>,
    k: int,
)
    requires
        class_block(t) is Ok,
        0 <= k < class_block(t)->Ok_0.methods.len(),
        class_block(t)->Ok_0.methods[k].signature.raw_pointer_receiver,
    ensures
        expansion(t, package, reg) is Err,
        exists|j: int|
            0 <= j <= k && expansion(t, package, reg)->Err_0 == error_at(
                ErrorKind::UnsupportedReceiverForm,
                j,
            ),
{
    lemma_raw_found(class_block(t)->Ok_0.methods, k);
}

proof fn lemma_entries_need_close(t: Seq<Token>, i: int)
    requires
        0 <= i,
        entries_at(t, i) is Ok,
    ensures
        exists|k: int| i <= k < t.len() && punct_at(t, k, Punct::CloseBrace),
    decreases t.len() - i,
{
    if !punct_at(t, i, Punct::CloseBrace) {
        let j = entry_at(t, i)->Ok_0.1;
        lemma_entries_need_close(t, j);
    }
}

/// A block whose body is never closed does not parse: the result is an error,
/// never a partial list of declarations.
pub proof fn law_unterminated_block_fails(t: Seq<Token>)
    requires
        forall|k: int| 3 <= k < t.len() ==> !punct_at(t, k, Punct::CloseBrace),
    ensures
        class_block(t) is Err,
{
    if class_block(t) is Ok {
        lemma_entries_need_close(t, 3);
    }
}

} // verus!
