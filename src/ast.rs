//! An owned syntax tree of the parts of a program that module references live
//! in, and its mathematical model.
use vstd::prelude::*;

verus! {

broadcast use vstd::std_specs::vec::axiom_vec_index_decreases;

/// An expression or statement.
#[derive(Debug, PartialEq, Eq)]
pub enum Expr {
    /// A bare identifier, such as `require`.
    Ident(String),
    /// A string literal, holding its value.
    Str(String),
    /// A member access `object.property`.
    Member(Box<Expr>, String),
    /// A call expression.
    Call(CallExpr),
    /// Any other node, with its child nodes in source order.
    Other(Vec<Expr>),
}

/// What a call expression calls.
#[derive(Debug, PartialEq, Eq)]
pub enum Callee {
    Super,
    Import,
    Expr(Box<Expr>),
}

/// A function invocation: a callee and its ordered arguments.
#[derive(Debug, PartialEq, Eq)]
pub struct CallExpr {
    pub callee: Callee,
    pub args: Vec<Expr>,
}

/// A static import: `import <specifiers> from "<src>"`.
#[derive(Debug, PartialEq, Eq)]
pub struct ImportDecl {
    pub specifiers: Vec<String>,
    pub src: String,
}

/// An export list, re-exported from `src` when there is one.
#[derive(Debug, PartialEq, Eq)]
pub struct NamedExport {
    pub specifiers: Vec<String>,
    pub src: Option<String>,
}

/// A wildcard re-export: `export * from "<src>"`.
#[derive(Debug, PartialEq, Eq)]
pub struct ExportAll {
    pub src: String,
}

/// One top-level item of a module.
#[derive(Debug, PartialEq, Eq)]
pub enum ModuleItem {
    Import(ImportDecl),
    ExportNamed(NamedExport),
    ExportAll(ExportAll),
    Stmt(Expr),
}

/// A parsed module: its top-level items in order.
#[derive(Debug, PartialEq, Eq)]
pub struct Module {
    pub body: Vec<ModuleItem>,
}

/// Model of an expression: strings as character sequences.
pub enum ExprModel {
    Ident(Seq<char>),
    Str(Seq<char>),
    Member(Box<ExprModel>, Seq<char>),
    Call(CalleeModel, Seq<ExprModel>),
    Other(Seq<ExprModel>),
}

/// Model of a callee.
pub enum CalleeModel {
    Super,
    Import,
    Expr(Box<ExprModel>),
}

/// Model of a top-level module item.
pub enum ItemModel {
    Import(Seq<Seq<char>>, Seq<char>),
    ExportNamed(Seq<Seq<char>>, Option<Seq<char>>),
    ExportAll(Seq<char>),
    Stmt(ExprModel),
}

pub open spec fn strings_model(v: Seq<String>) -> Seq<Seq<char>> {
    v.map_values(|s: String| s@)
}

pub open spec fn expr_model(e: Expr) -> ExprModel
    decreases e,
{
    match e {
        Expr::Ident(s) => ExprModel::Ident(s@),
        Expr::Str(s) => ExprModel::Str(s@),
        Expr::Member(obj, prop) => ExprModel::Member(Box::new(expr_model(*obj)), prop@),
        Expr::Call(c) => ExprModel::Call(callee_model(c.callee), exprs_model(c.args)),
        Expr::Other(kids) => ExprModel::Other(exprs_model(kids)),
    }
}

pub open spec fn callee_model(c: Callee) -> CalleeModel
    decreases c,
{
    match c {
        Callee::Super => CalleeModel::Super,
        Callee::Import => CalleeModel::Import,
        Callee::Expr(e) => CalleeModel::Expr(Box::new(expr_model(*e))),
    }
}

pub open spec fn exprs_model(v: Vec<Expr>) -> Seq<ExprModel>
    decreases v,
{
    Seq::new(
        v.len() as nat,
        |i: int|
            if 0 <= i < v.len() {
                expr_model(v[i])
            } else {
                ExprModel::Other(Seq::empty())
            },
    )
}

pub open spec fn item_model(it: ModuleItem) -> ItemModel {
    match it {
        ModuleItem::Import(d) => ItemModel::Import(strings_model(d.specifiers@), d.src@),
        ModuleItem::ExportNamed(d) => ItemModel::ExportNamed(
            strings_model(d.specifiers@),
            match d.src {
                Some(s) => Some(s@),
                None => None,
            },
        ),
        ModuleItem::ExportAll(d) => ItemModel::ExportAll(d.src@),
        ModuleItem::Stmt(e) => ItemModel::Stmt(expr_model(e)),
    }
}

pub open spec fn items_model(v: Seq<ModuleItem>) -> Seq<ItemModel> {
    v.map_values(|it: ModuleItem| item_model(it))
}

impl View for Expr {
    type V = ExprModel;

    open spec fn view(&self) -> ExprModel {
        expr_model(*self)
    }
}

impl View for Callee {
    type V = CalleeModel;

    open spec fn view(&self) -> CalleeModel {
        callee_model(*self)
    }
}

impl View for CallExpr {
    type V = ExprModel;

    open spec fn view(&self) -> ExprModel {
        ExprModel::Call(callee_model(self.callee), exprs_model(self.args))
    }
}

impl View for ModuleItem {
    type V = ItemModel;

    open spec fn view(&self) -> ItemModel {
        item_model(*self)
    }
}

impl View for Module {
    type V = Seq<ItemModel>;

    open spec fn view(&self) -> Seq<ItemModel> {
        items_model(self.body@)
    }
}

} // verus!
