use vstd::prelude::*;
use crate::model::{
    params_view, strings_view, DescriptorView, MethodDescriptor, MethodVariant, Param,
};
use crate::registry::TypeRegistry;

verus! {

pub open spec fn digit_char(d: nat) -> char {
    if d == 0 {
        '0'
    } else if d == 1 {
        '1'
    } else if d == 2 {
        '2'
    } else if d == 3 {
        '3'
    } else if d == 4 {
        '4'
    } else if d == 5 {
        '5'
    } else if d == 6 {
        '6'
    } else if d == 7 {
        '7'
    } else if d == 8 {
        '8'
    } else {
        '9'
    }
}

/// The decimal digits of `n`, most significant first, without leading zeros.
pub open spec fn decimal(n: nat) -> Seq<char>
    decreases n,
{
    if n < 10 {
        seq![digit_char(n)]
    } else {
        decimal(n / 10) + seq![digit_char(n % 10)]
    }
}

/// The name of the bridge parameter that carries declared parameter `k`.
pub open spec fn positional_name(k: nat) -> Seq<char> {
    "a_"@ + decimal(k)
}

/// The three parameters that open every bridge function: the calling
/// environment, the caller's class handle, and the receiver handle.
pub open spec fn fixed_params() -> Seq<(Seq<char>, Seq<char>)> {
    seq![("_"@, "*mut JNIEnv"@), ("_"@, "jclass"@), ("this"@, "jlong"@)]
}

/// The bridge type used where a declaration returns no value.
pub open spec fn no_value_type() -> Seq<char> {
    "c_void"@
}

pub open spec fn last_segment(path: Seq<Seq<char>>) -> Seq<char> {
    if path.len() == 0 {
        Seq::empty()
    } else {
        path.last()
    }
}

/// The exported name of the bridge for `method` of `class` in `package`.
pub open spec fn bridge_name(package: Seq<char>, class: Seq<char>, method: Seq<char>) -> Seq<
    char,
> {
    "Bridge_"@ + package + "_"@ + class + "_"@ + method
}

/// Every parameter type and the return type of `d` have an entry in `reg`.
pub open spec fn all_mapped(d: DescriptorView, reg: Map<Seq<char>, Seq<char>>) -> bool {
    &&& forall|k: int|
        0 <= k < d.signature.params.len() ==> reg.contains_key(
            #[trigger] d.signature.params[k].1,
        )
    &&& match d.signature.return_type {
        Some(t) => reg.contains_key(t),
        None => true,
    }
}

/// A generated bridge function. Its body turns the handle `this` into a
/// reference to a `receiver_type` and calls `call_target` with `call_args`.
#[derive(Clone, Debug)]
pub struct GeneratedFunction {
    pub external_name: String,
    pub params: Vec<Param>,
    pub return_type: String,
    pub receiver_type: String,
    pub call_target: Vec<String>,
    pub call_args: Vec<String>,
    /// The symbol keeps its name (no mangling).
    pub no_mangle: bool,
    pub public: bool,
}

pub struct GeneratedView {
    pub external_name: Seq<char>,
    pub params: Seq<(Seq<char>, Seq<char>)>,
    pub return_type: Seq<char>,
    pub receiver_type: Seq<char>,
    pub call_target: Seq<Seq<char>>,
    pub call_args: Seq<Seq<char>>,
    pub no_mangle: bool,
    pub public: bool,
}

impl View for GeneratedFunction {
    type V = GeneratedView;

    open spec fn view(&self) -> GeneratedView {
        GeneratedView {
            external_name: self.external_name@,
            params: params_view(self.params@),
            return_type: self.return_type@,
            receiver_type: self.receiver_type@,
            call_target: strings_view(self.call_target@),
            call_args: strings_view(self.call_args@),
            no_mangle: self.no_mangle,
            public: self.public,
        }
    }
}

/// The bridge for a `method` declaration whose types are all mapped.
pub open spec fn bridge_of(
    d: DescriptorView,
    class: Seq<char>,
    package: Seq<char>,
    reg: Map<Seq<char>, Seq<char>>,
) -> GeneratedView {
    let n = d.signature.params.len();
    GeneratedView {
        external_name: bridge_name(package, class, last_segment(d.target_path)),
        params: fixed_params() + Seq::new(
            n,
            |k: int| (positional_name(k as nat), reg[d.signature.params[k].1]),
        ),
        return_type: match d.signature.return_type {
            Some(t) => reg[t],
            None => no_value_type(),
        },
        receiver_type: class,
        call_target: d.target_path,
        call_args: seq!["this"@] + Seq::new(n, |k: int| positional_name(k as nat)),
        no_mangle: true,
        public: true,
    }
}

/// What the emitter makes of one declaration: nothing for constructors and
/// static methods, a bridge for a method, or a failure where a type is unmapped.
pub open spec fn emit_spec(
    d: DescriptorView,
    class: Seq<char>,
    package: Seq<char>,
    reg: Map<Seq<char>, Seq<char>>,
) -> Result<Option<GeneratedView>, ()> {
    if d.variant != MethodVariant::Method {
        Ok(None)
    } else if !all_mapped(d, reg) {
        Err(())
    } else {
        Ok(Some(bridge_of(d, class, package, reg)))
    }
}

pub open spec fn emit_result(r: Result<Option<GeneratedFunction>, ()>) -> Result<
    Option<GeneratedView>,
    (),
> {
    match r {
        Ok(Some(g)) => Ok(Some(g@)),
        Ok(None) => Ok(None),
        Err(u) => Err(u),
    }
}

fn digit_text(d: usize) -> (r: &'static str)
    requires
        d < 10,
    ensures
        r@ == seq![digit_char(d as nat)],
{
    proof {
        reveal_strlit("0");
        reveal_strlit("1");
        reveal_strlit("2");
        reveal_strlit("3");
        reveal_strlit("4");
        reveal_strlit("5");
        reveal_strlit("6");
        reveal_strlit("7");
        reveal_strlit("8");
        reveal_strlit("9");
    }
    let r = if d == 0 {
        "0"
    } else if d == 1 {
        "1"
    } else if d == 2 {
        "2"
    } else if d == 3 {
        "3"
    } else if d == 4 {
        "4"
    } else if d == 5 {
        "5"
    } else if d == 6 {
        "6"
    } else if d == 7 {
        "7"
    } else if d == 8 {
        "8"
    } else {
        "9"
    };
    assert(r@ =~= seq![digit_char(d as nat)]);
    r
}

/// `n` written in decimal.
pub fn decimal_text(n: usize) -> (r: String)
    ensures
        r@ == decimal(n as nat),
    decreases n,
{
    if n < 10 {
        digit_text(n).to_owned()
    } else {
        let mut s = decimal_text(n / 10);
        s.append(digit_text(n % 10));
        s
    }
}

/// `a_` followed by `k` in decimal.
pub fn positional_param_name(k: usize) -> (r: String)
    ensures
        r@ == positional_name(k as nat),
{
    let mut r = "a_".to_owned();
    let digits = decimal_text(k);
    r.append(digits.as_str());
    r
}

fn fixed_param_list() -> (r: Vec<Param>)
    ensures
        params_view(r@) == fixed_params(),
{
    let r = vec![
        Param { name: "_".to_owned(), ty: "*mut JNIEnv".to_owned() },
        Param { name: "_".to_owned(), ty: "jclass".to_owned() },
        Param { name: "this".to_owned(), ty: "jlong".to_owned() },
    ];
    assert(params_view(r@) =~= fixed_params());
    r
}

/// Builds the bridge function for one declaration: `Ok(None)` for a
/// constructor or static method, `Err(())` where a parameter or return type
/// has no entry in `reg`.
pub fn emit(d: &MethodDescriptor, class_name: &String, package: &String, reg: &TypeRegistry) -> (r:
    Result<Option<GeneratedFunction>, ()>)
    ensures
        emit_result(r) == emit_spec(d@, class_name@, package@, reg.view()),
{
    match d.variant {
        MethodVariant::Method => {},
        _ => {
            return Ok(None);
        },
    }
    let ghost dv = d@;
    let ghost m = reg.view();
    let n = d.signature.params.len();
    let mut params = fixed_param_list();
    let mut args: Vec<String> = vec!["this".to_owned()];
    proof {
        assert(strings_view(args@) =~= seq!["this"@]);
    }
    let mut j: usize = 0;
    while j < n
        invariant
            j <= n,
            n == dv.signature.params.len(),
            dv == d@,
            dv.variant == MethodVariant::Method,
            m == reg.view(),
            params_view(params@) == fixed_params() + Seq::new(
                j as nat,
                |k: int| (positional_name(k as nat), m[dv.signature.params[k].1]),
            ),
            strings_view(args@) == seq!["this"@] + Seq::new(
                j as nat,
                |k: int| positional_name(k as nat),
            ),
            forall|k: int| 0 <= k < j ==> m.contains_key(#[trigger] dv.signature.params[k].1),
        decreases n - j,
    {
        let ty = match reg.lookup(&d.signature.params[j].ty) {
            Some(t) => t,
            None => {
                proof {
                    assert(dv.signature.params[j as int].1 == d.signature.params@[j as int].ty@);
                }
                return Err(());
            },
        };
        let name = positional_param_name(j);
        let ghost old_params = params_view(params@);
        let ghost old_args = strings_view(args@);
        params.push(Param { name: name.clone(), ty });
        args.push(name);
        proof {
            assert(params_view(params@) =~= old_params.push(
                (positional_name(j as nat), m[dv.signature.params[j as int].1]),
            ));
            assert(strings_view(args@) =~= old_args.push(positional_name(j as nat)));
            assert(fixed_params() + Seq::new(
                (j + 1) as nat,
                |k: int| (positional_name(k as nat), m[dv.signature.params[k].1]),
            ) =~= old_params.push((positional_name(j as nat), m[dv.signature.params[j as int].1])));
            assert(seq!["this"@] + Seq::new((j + 1) as nat, |k: int| positional_name(k as nat))
                =~= old_args.push(positional_name(j as nat)));
        }
        j = j + 1;
    }
    let return_type = match &d.signature.return_type {
        None => "c_void".to_owned(),
        Some(t) => match reg.lookup(t) {
            Some(b) => b,
            None => {
                return Err(());
            },
        },
    };
    let segments = d.target_path.len();
    let method = if segments == 0 {
        String::new()
    } else {
        d.target_path[segments - 1].clone()
    };
    let mut external_name = "Bridge_".to_owned();
    external_name.append(package.as_str());
    external_name.append("_");
    external_name.append(class_name.as_str());
    external_name.append("_");
    external_name.append(method.as_str());
    let g = GeneratedFunction {
        external_name,
        params,
        return_type,
        receiver_type: class_name.clone(),
        call_target: d.target_path.clone(),
        call_args: args,
        no_mangle: true,
        public: true,
    };
    proof {
        assert(g@.params =~= bridge_of(dv, class_name@, package@, m).params);
        assert(g@.call_args =~= bridge_of(dv, class_name@, package@, m).call_args);
        assert(g@.external_name =~= bridge_of(dv, class_name@, package@, m).external_name);
    }
    Ok(Some(g))
}

} // verus!
