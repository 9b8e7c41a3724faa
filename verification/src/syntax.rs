//! A structural view of a syntax tree: for each node, the plain values that
//! the classification and the model builder read. The caller fills it from
//! whatever parser it has.

use crate::text::opt_text;
use vstd::prelude::*;
use vstd::string::*;

verus! {

/// An attribute: `#[program]`, `#[derive(Accounts)]`, `#[account(mut)]`.
#[derive(Debug, Clone)]
pub struct AttributeNode {
    /// The path of the attribute, where it is one identifier without
    /// arguments: `account` for `#[account(mut)]`.
    pub ident: Option<String>,
    /// The whole attribute as token text: `# [account (mut)]`.
    pub tokens: String,
}

/// The view of `AttributeNode`: what it holds, as sequences of characters.
pub struct AttributeNodeView {
    pub ident: Option<Seq<char>>,
    pub tokens: Seq<char>,
}

impl View for AttributeNode {
    type V = AttributeNodeView;

    open spec fn view(&self) -> AttributeNodeView {
        AttributeNodeView { ident: opt_text(self.ident), tokens: self.tokens@ }
    }
}

/// The views of attributes.
pub open spec fn attribute_views(attributes: Seq<AttributeNode>) -> Seq<AttributeNodeView> {
    attributes.map_values(|a: AttributeNode| a@)
}

/// How far an item can be seen.
#[derive(Debug, Clone)]
pub enum VisibilityNode {
    /// `pub`
    Public,
    /// `pub(path)`, with the path as token text.
    Restricted(String),
    /// Nothing written.
    Inherited,
}

/// The view of `VisibilityNode`: what it holds, as sequences of characters.
pub enum VisibilityNodeView {
    Public,
    Restricted(Seq<char>),
    Inherited,
}

impl View for VisibilityNode {
    type V = VisibilityNodeView;

    open spec fn view(&self) -> VisibilityNodeView {
        match self {
            VisibilityNode::Public => VisibilityNodeView::Public,
            VisibilityNode::Restricted(path) => VisibilityNodeView::Restricted(path@),
            VisibilityNode::Inherited => VisibilityNodeView::Inherited,
        }
    }
}

/// An argument between the angle brackets of a path segment.
#[derive(Debug, Clone)]
pub enum GenericArgumentNode {
    /// A type, as token text.
    Type(String),
    /// A lifetime, a constant or a binding.
    Other,
}

/// The view of `GenericArgumentNode`: what it holds, as sequences of characters.
pub enum GenericArgumentNodeView {
    Type(Seq<char>),
    Other,
}

impl View for GenericArgumentNode {
    type V = GenericArgumentNodeView;

    open spec fn view(&self) -> GenericArgumentNodeView {
        match self {
            GenericArgumentNode::Type(tokens) => GenericArgumentNodeView::Type(tokens@),
            GenericArgumentNode::Other => GenericArgumentNodeView::Other,
        }
    }
}

/// A segment of a path: `Context<Initialize>`.
#[derive(Debug, Clone)]
pub struct PathSegmentNode {
    pub ident: String,
    /// The arguments between angle brackets; none where the segment has no
    /// angle brackets.
    pub arguments: Vec<GenericArgumentNode>,
}

/// The view of `PathSegmentNode`: what it holds, as sequences of characters.
pub struct PathSegmentNodeView {
    pub ident: Seq<char>,
    pub arguments: Seq<GenericArgumentNodeView>,
}

impl View for PathSegmentNode {
    type V = PathSegmentNodeView;

    open spec fn view(&self) -> PathSegmentNodeView {
        PathSegmentNodeView {
            ident: self.ident@,
            arguments: self.arguments@.map_values(|a: GenericArgumentNode| a@),
        }
    }
}

/// The views of path segments.
pub open spec fn segment_views(segments: Seq<PathSegmentNode>) -> Seq<PathSegmentNodeView> {
    segments.map_values(|s: PathSegmentNode| s@)
}

/// What a type is behind its reference markers.
#[derive(Debug, Clone)]
pub enum TypeBase {
    /// A path: `anchor_lang::Context<Initialize>`.
    Path(Vec<PathSegmentNode>),
    /// Any other type.
    Other,
}

/// The view of `TypeBase`: what it holds, as sequences of characters.
pub enum TypeBaseView {
    Path(Seq<PathSegmentNodeView>),
    Other,
}

impl View for TypeBase {
    type V = TypeBaseView;

    open spec fn view(&self) -> TypeBaseView {
        match self {
            TypeBase::Path(segments) => TypeBaseView::Path(segment_views(segments@)),
            TypeBase::Other => TypeBaseView::Other,
        }
    }
}

/// A type.
#[derive(Debug, Clone)]
pub struct TypeNode {
    /// The type as token text: `& Context < Initialize >`.
    pub tokens: String,
    /// The reference markers that the type begins with, the outermost
    /// first: for each, whether it is `&mut`.
    pub references: Vec<bool>,
    /// What stands behind the reference markers.
    pub base: TypeBase,
}

/// The view of `TypeNode`: what it holds, as sequences of characters.
pub struct TypeNodeView {
    pub tokens: Seq<char>,
    pub references: Seq<bool>,
    pub base: TypeBaseView,
}

impl View for TypeNode {
    type V = TypeNodeView;

    open spec fn view(&self) -> TypeNodeView {
        TypeNodeView { tokens: self.tokens@, references: self.references@, base: self.base@ }
    }
}

/// The view of an optional type.
pub open spec fn opt_type(o: Option<TypeNode>) -> Option<TypeNodeView> {
    match o {
        Some(t) => Some(t@),
        None => None,
    }
}

/// A parameter of a function.
#[derive(Debug, Clone)]
pub enum FnArgNode {
    /// `self`, `&self`, `&mut self`.
    Receiver,
    /// A parameter with a type. `name` is the parameter's name, where its
    /// pattern is one identifier.
    Typed { name: Option<String>, ty: TypeNode },
}

/// The view of `FnArgNode`: what it holds, as sequences of characters.
pub enum FnArgNodeView {
    Receiver,
    Typed { name: Option<Seq<char>>, ty: TypeNodeView },
}

impl View for FnArgNode {
    type V = FnArgNodeView;

    open spec fn view(&self) -> FnArgNodeView {
        match self {
            FnArgNode::Receiver => FnArgNodeView::Receiver,
            FnArgNode::Typed { name, ty } => FnArgNodeView::Typed {
                name: opt_text(*name),
                ty: ty@,
            },
        }
    }
}

/// A function.
#[derive(Debug, Clone)]
pub struct FunctionNode {
    pub name: String,
    pub visibility: VisibilityNode,
    /// The parameters, in declaration order.
    pub inputs: Vec<FnArgNode>,
    /// The return type, where one is written.
    pub output: Option<TypeNode>,
}

/// The view of `FunctionNode`: what it holds, as sequences of characters.
pub struct FunctionNodeView {
    pub name: Seq<char>,
    pub visibility: VisibilityNodeView,
    pub inputs: Seq<FnArgNodeView>,
    pub output: Option<TypeNodeView>,
}

impl View for FunctionNode {
    type V = FunctionNodeView;

    open spec fn view(&self) -> FunctionNodeView {
        FunctionNodeView {
            name: self.name@,
            visibility: self.visibility@,
            inputs: self.inputs@.map_values(|a: FnArgNode| a@),
            output: opt_type(self.output),
        }
    }
}

/// A field of a struct.
#[derive(Debug, Clone)]
pub struct FieldNode {
    /// The name of the field; none for a field of a tuple struct.
    pub ident: Option<String>,
    pub visibility: VisibilityNode,
    pub ty: TypeNode,
    /// The attributes, in the order written.
    pub attributes: Vec<AttributeNode>,
}

/// The view of `FieldNode`: what it holds, as sequences of characters.
pub struct FieldNodeView {
    pub ident: Option<Seq<char>>,
    pub visibility: VisibilityNodeView,
    pub ty: TypeNodeView,
    pub attributes: Seq<AttributeNodeView>,
}

impl View for FieldNode {
    type V = FieldNodeView;

    open spec fn view(&self) -> FieldNodeView {
        FieldNodeView {
            ident: opt_text(self.ident),
            visibility: self.visibility@,
            ty: self.ty@,
            attributes: attribute_views(self.attributes@),
        }
    }
}

/// The views of fields.
pub open spec fn field_node_views(fields: Seq<FieldNode>) -> Seq<FieldNodeView> {
    fields.map_values(|f: FieldNode| f@)
}

/// The fields of a struct.
#[derive(Debug, Clone)]
pub enum FieldsNode {
    /// `struct S { a: A, b: B }`
    Named(Vec<FieldNode>),
    /// `struct S(A, B);`
    Unnamed(Vec<FieldNode>),
    /// `struct S;`
    Unit,
}

/// The view of `FieldsNode`: what it holds, as sequences of characters.
pub enum FieldsNodeView {
    Named(Seq<FieldNodeView>),
    Unnamed(Seq<FieldNodeView>),
    Unit,
}

impl FieldsNodeView {
    /// The fields, whatever the form of the struct.
    pub open spec fn all(self) -> Seq<FieldNodeView> {
        match self {
            FieldsNodeView::Named(fields) => fields,
            FieldsNodeView::Unnamed(fields) => fields,
            FieldsNodeView::Unit => Seq::empty(),
        }
    }
}

impl View for FieldsNode {
    type V = FieldsNodeView;

    open spec fn view(&self) -> FieldsNodeView {
        match self {
            FieldsNode::Named(fields) => FieldsNodeView::Named(field_node_views(fields@)),
            FieldsNode::Unnamed(fields) => FieldsNodeView::Unnamed(field_node_views(fields@)),
            FieldsNode::Unit => FieldsNodeView::Unit,
        }
    }
}

/// A struct.
#[derive(Debug, Clone)]
pub struct StructNode {
    pub name: String,
    pub visibility: VisibilityNode,
    /// The attributes, in the order written.
    pub attributes: Vec<AttributeNode>,
    pub fields: FieldsNode,
}

/// The view of `StructNode`: what it holds, as sequences of characters.
pub struct StructNodeView {
    pub name: Seq<char>,
    pub visibility: VisibilityNodeView,
    pub attributes: Seq<AttributeNodeView>,
    pub fields: FieldsNodeView,
}

impl View for StructNode {
    type V = StructNodeView;

    open spec fn view(&self) -> StructNodeView {
        StructNodeView {
            name: self.name@,
            visibility: self.visibility@,
            attributes: attribute_views(self.attributes@),
            fields: self.fields@,
        }
    }
}

/// What kind of item an item is.
#[derive(Debug, Clone, Copy, PartialEq, Eq, Structural)]
pub enum ItemKind {
    Const,
    Enum,
    ExternCrate,
    Fn,
    ForeignMod,
    Impl,
    Macro,
    Mod,
    Static,
    Struct,
    Trait,
    TraitAlias,
    Type,
    Union,
    Use,
    Verbatim,
    /// A kind that this list does not know.
    Unknown,
}

/// An item inside a module.
#[derive(Debug, Clone)]
pub enum ModuleItemNode {
    Function(FunctionNode),
    Struct(StructNode),
    /// A module inside the module: its name.
    Module(String),
    /// An item of another kind.
    Other(ItemKind),
}

/// The view of `ModuleItemNode`: what it holds, as sequences of characters.
pub enum ModuleItemNodeView {
    Function(FunctionNodeView),
    Struct(StructNodeView),
    Module(Seq<char>),
    Other(ItemKind),
}

impl ModuleItemNodeView {
    /// The kind of the item.
    pub open spec fn kind(self) -> ItemKind {
        match self {
            ModuleItemNodeView::Function(_) => ItemKind::Fn,
            ModuleItemNodeView::Struct(_) => ItemKind::Struct,
            ModuleItemNodeView::Module(_) => ItemKind::Mod,
            ModuleItemNodeView::Other(kind) => kind,
        }
    }
}

impl View for ModuleItemNode {
    type V = ModuleItemNodeView;

    open spec fn view(&self) -> ModuleItemNodeView {
        match self {
            ModuleItemNode::Function(f) => ModuleItemNodeView::Function(f@),
            ModuleItemNode::Struct(s) => ModuleItemNodeView::Struct(s@),
            ModuleItemNode::Module(name) => ModuleItemNodeView::Module(name@),
            ModuleItemNode::Other(kind) => ModuleItemNodeView::Other(*kind),
        }
    }
}

/// The views of the items of a module.
pub open spec fn module_item_views(items: Seq<ModuleItemNode>) -> Seq<ModuleItemNodeView> {
    items.map_values(|i: ModuleItemNode| i@)
}

/// The view of the content of a module.
pub open spec fn opt_content(o: Option<Vec<ModuleItemNode>>) -> Option<Seq<ModuleItemNodeView>> {
    match o {
        Some(items) => Some(module_item_views(items@)),
        None => None,
    }
}

/// A module at the top level of a file.
#[derive(Debug, Clone)]
pub struct ModuleNode {
    pub name: String,
    pub visibility: VisibilityNode,
    /// The attributes, in the order written.
    pub attributes: Vec<AttributeNode>,
    /// The items of the module, in declaration order; none for a module
    /// whose body stands in another file.
    pub content: Option<Vec<ModuleItemNode>>,
}

/// The view of `ModuleNode`: what it holds, as sequences of characters.
pub struct ModuleNodeView {
    pub name: Seq<char>,
    pub visibility: VisibilityNodeView,
    pub attributes: Seq<AttributeNodeView>,
    pub content: Option<Seq<ModuleItemNodeView>>,
}

impl View for ModuleNode {
    type V = ModuleNodeView;

    open spec fn view(&self) -> ModuleNodeView {
        ModuleNodeView {
            name: self.name@,
            visibility: self.visibility@,
            attributes: attribute_views(self.attributes@),
            content: opt_content(self.content),
        }
    }
}

/// An item at the top level of a file.
#[derive(Debug, Clone)]
pub enum ItemNode {
    Module(ModuleNode),
    Function(FunctionNode),
    Struct(StructNode),
    /// An item of another kind.
    Other(ItemKind),
}

/// The view of `ItemNode`: what it holds, as sequences of characters.
pub enum ItemNodeView {
    Module(ModuleNodeView),
    Function(FunctionNodeView),
    Struct(StructNodeView),
    Other(ItemKind),
}

impl ItemNodeView {
    /// The kind of the item.
    pub open spec fn kind(self) -> ItemKind {
        match self {
            ItemNodeView::Module(_) => ItemKind::Mod,
            ItemNodeView::Function(_) => ItemKind::Fn,
            ItemNodeView::Struct(_) => ItemKind::Struct,
            ItemNodeView::Other(kind) => kind,
        }
    }
}

impl View for ItemNode {
    type V = ItemNodeView;

    open spec fn view(&self) -> ItemNodeView {
        match self {
            ItemNode::Module(m) => ItemNodeView::Module(m@),
            ItemNode::Function(f) => ItemNodeView::Function(f@),
            ItemNode::Struct(s) => ItemNodeView::Struct(s@),
            ItemNode::Other(kind) => ItemNodeView::Other(*kind),
        }
    }
}

/// A source file: its items, in declaration order.
#[derive(Debug, Clone)]
pub struct SyntaxFile {
    pub items: Vec<ItemNode>,
}

/// The view of `SyntaxFile`: what it holds, as sequences of characters.
pub struct SyntaxFileView {
    pub items: Seq<ItemNodeView>,
}

impl View for SyntaxFile {
    type V = SyntaxFileView;

    open spec fn view(&self) -> SyntaxFileView {
        SyntaxFileView { items: self.items@.map_values(|i: ItemNode| i@) }
    }
}

} // verus!
