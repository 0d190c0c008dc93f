use vstd::prelude::*;

verus! {

/// The kind of member a declaration introduces.
#[derive(Clone, Copy, Debug, PartialEq, Eq, Structural)]
pub enum MethodVariant {
    Constructor,
    Method,
    StaticMethod,
}

/// The receiver of a method, by the lexical form it was written in.
#[derive(Clone, Debug)]
pub enum ReceiverForm {
    /// `self` or `mut self`.
    ByValue { mutable: bool },
    /// `&self`, `&mut self`, `&'a self`, `&'a mut self`.
    ByReference { lifetime: Option<String>, mutable: bool },
    /// `self: Type` or `mut self: Type`.
    ByExplicitType { ty: String, mutable: bool },
}

pub enum ReceiverView {
    ByValue { mutable: bool },
    ByReference { lifetime: Option<Seq<char>>, mutable: bool },
    ByExplicitType { ty: Seq<char>, mutable: bool },
}

impl View for ReceiverForm {
    type V = ReceiverView;

    open spec fn view(&self) -> ReceiverView {
        match self {
            ReceiverForm::ByValue { mutable } => ReceiverView::ByValue { mutable: *mutable },
            ReceiverForm::ByReference { lifetime, mutable } => ReceiverView::ByReference {
                lifetime: match lifetime {
                    Some(l) => Some(l@),
                    None => None,
                },
                mutable: *mutable,
            },
            ReceiverForm::ByExplicitType { ty, mutable } => ReceiverView::ByExplicitType {
                ty: ty@,
                mutable: *mutable,
            },
        }
    }
}

/// A declared parameter: its name and the text of its type.
#[derive(Clone, Debug)]
pub struct Param {
    pub name: String,
    pub ty: String,
}

impl View for Param {
    type V = (Seq<char>, Seq<char>);

    open spec fn view(&self) -> (Seq<char>, Seq<char>) {
        (self.name@, self.ty@)
    }
}

pub open spec fn params_view(ps: Seq<Param>) -> Seq<(Seq<char>, Seq<char>)> {
    ps.map_values(|p: Param| p@)
}

pub open spec fn strings_view(ss: Seq<String>) -> Seq<Seq<char>> {
    ss.map_values(|s: String| s@)
}

/// A parsed function declaration.
#[derive(Clone, Debug)]
pub struct Signature {
    pub receiver: Option<ReceiverForm>,
    /// The receiver was written as a raw pointer (`*self`, `*const self`,
    /// `*mut self`); it is read as `self` and always rejected.
    pub raw_pointer_receiver: bool,
    pub params: Vec<Param>,
    pub return_type: Option<String>,
}

pub struct SignatureView {
    pub receiver: Option<ReceiverView>,
    pub raw_pointer_receiver: bool,
    pub params: Seq<(Seq<char>, Seq<char>)>,
    pub return_type: Option<Seq<char>>,
}

impl View for Signature {
    type V = SignatureView;

    open spec fn view(&self) -> SignatureView {
        SignatureView {
            receiver: match self.receiver {
                Some(r) => Some(r@),
                None => None,
            },
            raw_pointer_receiver: self.raw_pointer_receiver,
            params: params_view(self.params@),
            return_type: match self.return_type {
                Some(t) => Some(t@),
                None => None,
            },
        }
    }
}

/// One declaration of a class block.
#[derive(Clone, Debug)]
pub struct MethodDescriptor {
    pub variant: MethodVariant,
    /// The segments of the target path (`Foo.bar` gives `Foo`, `bar`).
    pub target_path: Vec<String>,
    pub signature: Signature,
}

pub struct DescriptorView {
    pub variant: MethodVariant,
    pub target_path: Seq<Seq<char>>,
    pub signature: SignatureView,
}

impl View for MethodDescriptor {
    type V = DescriptorView;

    open spec fn view(&self) -> DescriptorView {
        DescriptorView {
            variant: self.variant,
            target_path: strings_view(self.target_path@),
            signature: self.signature@,
        }
    }
}

pub open spec fn descriptors_view(ds: Seq<MethodDescriptor>) -> Seq<DescriptorView> {
    ds.map_values(|d: MethodDescriptor| d@)
}

/// A whole parsed class block.
#[derive(Clone, Debug)]
pub struct ClassDecl {
    pub name: String,
    pub methods: Vec<MethodDescriptor>,
}

pub struct ClassView {
    pub name: Seq<char>,
    pub methods: Seq<DescriptorView>,
}

impl View for ClassDecl {
    type V = ClassView;

    open spec fn view(&self) -> ClassView {
        ClassView { name: self.name@, methods: descriptors_view(self.methods@) }
    }
}

/// Why an expansion failed.
#[derive(Clone, Copy, Debug, PartialEq, Eq, Structural)]
pub enum ErrorKind {
    /// A token other than the grammar expects.
    SyntaxError,
    /// A declaration keyword other than `constructor`, `method`, `static_method`.
    UnknownVariant,
    /// A parameter or return type with no entry in the type registry.
    UnsupportedType,
    /// A receiver passed by raw pointer.
    UnsupportedReceiverForm,
}

/// A failed expansion. For `SyntaxError` and `UnknownVariant`, `pos` is the
/// index of the offending token; for the other kinds it is the index of the
/// offending declaration within the block.
#[derive(Clone, Copy, Debug, PartialEq, Eq, Structural)]
pub struct ExpandError {
    pub kind: ErrorKind,
    pub pos: usize,
}

pub open spec fn error_at(kind: ErrorKind, pos: int) -> ExpandError {
    ExpandError { kind, pos: pos as usize }
}

} // verus!
