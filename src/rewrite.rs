//! The prefixing rules, stated over the model, and the in-place rewriter.
use vstd::prelude::*;
use crate::ast::{
    CallExpr, Callee, CalleeModel, Expr, ExprModel, ItemModel, Module, ModuleItem,
    callee_model, expr_model, exprs_model, item_model,
};

verus! {

broadcast use vstd::std_specs::vec::axiom_vec_index_decreases, vstd::seq::axiom_seq_index_decreases;

/// `s` begins with `p`.
pub open spec fn starts_with(s: Seq<char>, p: Seq<char>) -> bool {
    p.len() <= s.len() && s.subrange(0, p.len() as int) == p
}

/// The new value of a `require` argument: prefixed unless it already carries the prefix.
pub open spec fn require_target(prefix: Seq<char>, name: Seq<char>) -> Seq<char> {
    if starts_with(name, prefix) {
        name
    } else {
        prefix + name
    }
}

/// The callee is the bare identifier `require`.
pub open spec fn is_require_callee(c: CalleeModel) -> bool {
    match c {
        CalleeModel::Expr(e) => match *e {
            ExprModel::Ident(n) => n == "require"@,
            _ => false,
        },
        _ => false,
    }
}

/// The arguments of a `require` call after rewriting: only a string literal in
/// first position changes.
pub open spec fn require_args(prefix: Seq<char>, args: Seq<ExprModel>) -> Seq<ExprModel> {
    if args.len() > 0 && args[0] is Str {
        args.update(0, ExprModel::Str(require_target(prefix, args[0]->Str_0)))
    } else {
        args
    }
}

/// An expression after rewriting: `require` calls are rewritten and not descended
/// into; every other node is descended into.
pub open spec fn rewrite_expr(e: ExprModel, prefix: Seq<char>) -> ExprModel
    decreases e,
{
    match e {
        ExprModel::Member(obj, prop) => ExprModel::Member(
            Box::new(rewrite_expr(*obj, prefix)),
            prop,
        ),
        ExprModel::Call(callee, args) => if is_require_callee(callee) {
            ExprModel::Call(callee, require_args(prefix, args))
        } else {
            ExprModel::Call(rewrite_callee(callee, prefix), rewrite_exprs(args, prefix))
        },
        ExprModel::Other(kids) => ExprModel::Other(rewrite_exprs(kids, prefix)),
        _ => e,
    }
}

pub open spec fn rewrite_callee(c: CalleeModel, prefix: Seq<char>) -> CalleeModel
    decreases c,
{
    match c {
        CalleeModel::Expr(e) => CalleeModel::Expr(Box::new(rewrite_expr(*e, prefix))),
        _ => c,
    }
}

pub open spec fn rewrite_exprs(s: Seq<ExprModel>, prefix: Seq<char>) -> Seq<ExprModel>
    decreases s,
{
    Seq::new(
        s.len(),
        |i: int|
            if 0 <= i < s.len() {
                rewrite_expr(s[i], prefix)
            } else {
                ExprModel::Other(Seq::empty())
            },
    )
}

/// A top-level item after rewriting: static specifiers are always prefixed.
pub open spec fn rewrite_item(it: ItemModel, prefix: Seq<char>) -> ItemModel {
    match it {
        ItemModel::Import(specs, src) => ItemModel::Import(specs, prefix + src),
        ItemModel::ExportNamed(specs, src) => ItemModel::ExportNamed(
            specs,
            match src {
                Some(s) => Some(prefix + s),
                None => None,
            },
        ),
        ItemModel::ExportAll(src) => ItemModel::ExportAll(prefix + src),
        ItemModel::Stmt(e) => ItemModel::Stmt(rewrite_expr(e, prefix)),
    }
}

/// A module after rewriting: each top-level item rewritten in place.
pub open spec fn rewrite_module(items: Seq<ItemModel>, prefix: Seq<char>) -> Seq<ItemModel> {
    items.map_values(|it: ItemModel| rewrite_item(it, prefix))
}

/// Whether `s` begins with `p`.
pub fn has_prefix(s: &str, p: &str) -> (r: bool)
    ensures
        r == starts_with(s@, p@),
{
    let n = s.unicode_len();
    let m = p.unicode_len();
    if m > n {
        return false;
    }
    let mut i: usize = 0;
    while i < m
        invariant
            m == p@.len(),
            n == s@.len(),
            m <= n,
            i <= m,
            forall|j: int| 0 <= j < i ==> s@[j] == p@[j],
        decreases m - i,
    {
        if s.get_char(i) != p.get_char(i) {
            assert(s@.subrange(0, m as int)[i as int] != p@[i as int]);
            return false;
        }
        i = i + 1;
    }
    assert(s@.subrange(0, m as int) =~= p@);
    true
}

/// `prefix` followed by `name`.
pub fn prefixed(prefix: &str, name: &str) -> (r: String)
    ensures
        r@ == prefix@ + name@,
{
    let mut r = prefix.to_owned();
    r.append(name);
    r
}

/// The pass's configuration.
#[derive(Debug, PartialEq, Eq)]
pub struct Config {
    /// The text put in front of module references; empty disables the pass.
    pub module_prefix: String,
}

impl Config {
    /// Whether the pass runs: it is disabled by an empty prefix.
    pub fn is_enabled(&self) -> (r: bool)
        ensures
            r == (self.module_prefix@.len() > 0),
    {
        self.module_prefix.as_str().unicode_len() > 0
    }
}

/// What a call expression needs, decided from its callee and its first argument.
#[derive(Debug, PartialEq, Eq)]
pub enum CallAction {
    /// A `require` call whose first argument becomes this string.
    Rename(String),
    /// A `require` call that stays as it is and is not descended into.
    Keep,
    /// Not a `require` call: its callee and arguments are descended into.
    Descend,
}

/// The rewriter: walks a tree and prefixes the module references in it.
pub struct TransformVisitor {
    config: Config,
}

/// The name of a bare-identifier callee.
fn callee_ident(c: &Callee) -> (r: Option<&str>)
    ensures
        match c@ {
            CalleeModel::Expr(e) => match *e {
                ExprModel::Ident(n) => r matches Some(s) && s@ == n,
                _ => r is None,
            },
            _ => r is None,
        },
{
    match c {
        Callee::Expr(e) => match &**e {
            Expr::Ident(n) => Some(n.as_str()),
            _ => None,
        },
        _ => None,
    }
}

/// The value of the first argument, when it is a string literal.
fn first_str_arg(args: &Vec<Expr>) -> (r: Option<&str>)
    ensures
        exprs_model(*args).len() > 0 && exprs_model(*args)[0] is Str ==> (r matches Some(s)
            && s@ == exprs_model(*args)[0]->Str_0),
        !(exprs_model(*args).len() > 0 && exprs_model(*args)[0] is Str) ==> r is None,
{
    if args.len() > 0 {
        match &args[0] {
            Expr::Str(s) => Some(s.as_str()),
            _ => None,
        }
    } else {
        None
    }
}

impl TransformVisitor {
    /// The prefix this rewriter puts in front of module references.
    pub closed spec fn prefix(&self) -> Seq<char> {
        self.config.module_prefix@
    }

    pub fn new(config: Config) -> (r: Self)
        ensures
            r.prefix() == config.module_prefix@,
    {
        TransformVisitor { config }
    }

    pub fn config(&self) -> (r: &Config)
        ensures
            r.module_prefix@ == self.prefix(),
    {
        &self.config
    }

    /// Decides a call expression from the name of its callee, when the callee is a
    /// bare identifier, and the value of its first argument, when that is a string
    /// literal.
    pub fn call_action(&self, callee_ident: Option<&str>, first_str_arg: Option<&str>) -> (r:
        CallAction)
        ensures
            (callee_ident matches Some(n) && n@ == "require"@) ==> match first_str_arg {
                Some(s) => if starts_with(s@, self.prefix()) {
                    r is Keep
                } else {
                    r matches CallAction::Rename(t) && t@ == self.prefix() + s@
                },
                None => r is Keep,
            },
            !(callee_ident matches Some(n) && n@ == "require"@) ==> r is Descend,
    {
        let is_require = match callee_ident {
            Some(n) => {
                let word = "require".to_owned();
                let name = n.to_owned();
                name == word
            },
            None => false,
        };
        if !is_require {
            return CallAction::Descend;
        }
        match first_str_arg {
            Some(s) => {
                let p = self.config.module_prefix.as_str();
                if has_prefix(s, p) {
                    CallAction::Keep
                } else {
                    CallAction::Rename(prefixed(p, s))
                }
            },
            None => CallAction::Keep,
        }
    }

    /// Rewrites the `require` calls inside an expression.
    pub fn visit_mut_expr(&self, e: &mut Expr)
        ensures
            final(e)@ == rewrite_expr(old(e)@, self.prefix()),
        decreases *old(e),
    {
        match e {
            Expr::Member(obj, _) => {
                self.visit_mut_expr(&mut **obj);
            },
            Expr::Call(c) => {
                self.visit_mut_call_expr(c);
            },
            Expr::Other(kids) => {
                self.visit_mut_exprs(kids);
            },
            _ => {},
        }
    }

    /// Rewrites a call expression: a call of the bare identifier `require` has its
    /// string-literal first argument prefixed, unless it already carries the
    /// prefix, and is not descended into; any other call is descended into.
    pub fn visit_mut_call_expr(&self, call_expr: &mut CallExpr)
        ensures
            final(call_expr)@ == rewrite_expr(old(call_expr)@, self.prefix()),
        decreases *old(call_expr),
    {
        let action = self.call_action(callee_ident(&call_expr.callee), first_str_arg(&call_expr.args));
        match action {
            CallAction::Rename(name) => {
                assert(is_require_callee(callee_model(call_expr.callee)));
                call_expr.args[0] = Expr::Str(name);
                assert(exprs_model(call_expr.args) =~= require_args(
                    self.prefix(),
                    exprs_model(old(call_expr).args),
                ));
            },
            CallAction::Keep => {
                assert(is_require_callee(callee_model(call_expr.callee)));
                assert(exprs_model(call_expr.args) == require_args(
                    self.prefix(),
                    exprs_model(old(call_expr).args),
                ));
            },
            CallAction::Descend => {
                self.visit_mut_callee(&mut call_expr.callee);
                self.visit_mut_exprs(&mut call_expr.args);
            },
        }
    }

    fn visit_mut_callee(&self, c: &mut Callee)
        ensures
            final(c)@ == rewrite_callee(old(c)@, self.prefix()),
        decreases *old(c),
    {
        match c {
            Callee::Expr(e) => {
                self.visit_mut_expr(&mut **e);
            },
            _ => {},
        }
    }

    fn visit_mut_exprs(&self, v: &mut Vec<Expr>)
        ensures
            exprs_model(*final(v)) == rewrite_exprs(exprs_model(*old(v)), self.prefix()),
        decreases *old(v),
    {
        let n = v.len();
        let mut i: usize = 0;
        while i < n
            invariant
                n == old(v).len(),
                v.len() == n,
                i <= n,
                forall|j: int| 0 <= j < i ==> expr_model(#[trigger] v@[j]) == rewrite_expr(expr_model(old(v)@[j]), self.prefix()),
                forall|j: int| i <= j < n ==> #[trigger] v@[j] == old(v)@[j],
            decreases n - i,
        {
            self.visit_mut_expr(&mut v[i]);
            i = i + 1;
        }
        assert(exprs_model(*v) =~= rewrite_exprs(exprs_model(*old(v)), self.prefix()));
    }

    /// Rewrites the top-level items of a module in order: import and re-export
    /// specifiers are always prefixed; any other item is descended into.
    pub fn visit_mut_module(&self, module: &mut Module)
        ensures
            final(module)@ == rewrite_module(old(module)@, self.prefix()),
    {
        let n = module.body.len();
        let mut i: usize = 0;
        while i < n
            invariant
                n == old(module).body.len(),
                module.body.len() == n,
                i <= n,
                forall|j: int|
                    0 <= j < i ==> item_model(#[trigger] module.body@[j]) == rewrite_item(
                        item_model(old(module).body@[j]),
                        self.prefix(),
                    ),
                forall|j: int| i <= j < n ==> #[trigger] module.body@[j] == old(module).body@[j],
            decreases n - i,
        {
            let p = self.config.module_prefix.as_str();
            let item = &mut module.body[i];
            match item {
                ModuleItem::Import(decl) => {
                    decl.src = prefixed(p, decl.src.as_str());
                },
                ModuleItem::ExportNamed(decl) => {
                    let src = match &decl.src {
                        Some(s) => Some(prefixed(p, s.as_str())),
                        None => None,
                    };
                    decl.src = src;
                },
                ModuleItem::ExportAll(decl) => {
                    decl.src = prefixed(p, decl.src.as_str());
                },
                ModuleItem::Stmt(e) => {
                    self.visit_mut_expr(e);
                },
            }
            i = i + 1;
        }
        assert(module@ =~= rewrite_module(old(module)@, self.prefix()));
    }
}

/// Runs the pass on a module: with an empty prefix the module is handed back as
/// it came; otherwise every module reference in it is rewritten.
pub fn transform_module(module: Module, config: Config) -> (r: Module)
    ensures
        config.module_prefix@.len() == 0 ==> r == module,
        config.module_prefix@.len() > 0 ==> r@ == rewrite_module(module@, config.module_prefix@),
{
    if !config.is_enabled() {
        module
    } else {
        let visitor = TransformVisitor::new(config);
        let mut m = module;
        visitor.visit_mut_module(&mut m);
        m
    }
}

} // verus!
