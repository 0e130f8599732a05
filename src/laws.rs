//! Properties of the rewrite that relate several of its rules or runs.
use vstd::prelude::*;
use crate::ast::{CalleeModel, ExprModel, ItemModel};
use crate::rewrite::{
    rewrite_module, is_require_callee, require_args, require_target, rewrite_callee, rewrite_expr,
    rewrite_exprs, rewrite_item, starts_with,
};

verus! {

/// A name that carries the prefix after one rewrite of a `require` argument.
pub proof fn lemma_require_target_has_prefix(prefix: Seq<char>, name: Seq<char>)
    ensures
        starts_with(require_target(prefix, name), prefix),
{
    if !starts_with(name, prefix) {
        assert((prefix + name).subrange(0, prefix.len() as int) =~= prefix);
    }
}

/// A `require` call whose string argument already starts with the prefix is left
/// unchanged, so rewriting a `require` call twice gives what rewriting it once
/// gives.
pub proof fn lemma_require_idempotent(callee: CalleeModel, args: Seq<ExprModel>, prefix: Seq<char>)
    requires
        is_require_callee(callee),
    ensures
        (args.len() > 0 && args[0] is Str && starts_with(args[0]->Str_0, prefix))
            ==> rewrite_expr(ExprModel::Call(callee, args), prefix) == ExprModel::Call(
            callee,
            args,
        ),
        rewrite_expr(rewrite_expr(ExprModel::Call(callee, args), prefix), prefix) == rewrite_expr(
            ExprModel::Call(callee, args),
            prefix,
        ),
{
    if args.len() > 0 && args[0] is Str {
        let s = args[0]->Str_0;
        if starts_with(s, prefix) {
            assert(args.update(0, ExprModel::Str(s)) =~= args);
        }
        let once = require_args(prefix, args);
        lemma_require_target_has_prefix(prefix, s);
        let t = require_target(prefix, s);
        assert(once[0] == ExprModel::Str(t));
        assert(once.update(0, ExprModel::Str(require_target(prefix, t))) =~= once);
    }
}

/// Import and re-export specifiers are prefixed on every run, also where they
/// already start with the prefix: two runs prefix them twice.
pub proof fn lemma_static_specifier_always_prefixed(
    specs: Seq<Seq<char>>,
    src: Seq<char>,
    prefix: Seq<char>,
)
    ensures
        rewrite_item(ItemModel::Import(specs, src), prefix) == ItemModel::Import(
            specs,
            prefix + src,
        ),
        rewrite_item(ItemModel::ExportNamed(specs, Some(src)), prefix) == ItemModel::ExportNamed(
            specs,
            Some(prefix + src),
        ),
        rewrite_item(ItemModel::ExportAll(src), prefix) == ItemModel::ExportAll(prefix + src),
        rewrite_item(rewrite_item(ItemModel::Import(specs, src), prefix), prefix)
            == ItemModel::Import(specs, prefix + (prefix + src)),
        prefix.len() > 0 ==> rewrite_item(ItemModel::Import(specs, src), prefix)
            != ItemModel::Import(specs, src),
        prefix.len() > 0 ==> rewrite_item(ItemModel::ExportAll(src), prefix)
            != ItemModel::ExportAll(src),
{
    if prefix.len() > 0 {
        assert((prefix + src).len() != src.len());
    }
}

/// A call through a member access, such as `obj.require("x")`, is no `require`
/// call: its string argument is never rewritten, while its object and arguments
/// are still descended into.
pub proof fn lemma_member_call_not_rewritten(
    obj: ExprModel,
    prop: Seq<char>,
    args: Seq<ExprModel>,
    prefix: Seq<char>,
)
    ensures
        ({
            let callee = CalleeModel::Expr(Box::new(ExprModel::Member(Box::new(obj), prop)));
            let r = rewrite_expr(ExprModel::Call(callee, args), prefix);
            &&& r == ExprModel::Call(rewrite_callee(callee, prefix), rewrite_exprs(args, prefix))
            &&& (args.len() > 0 && args[0] is Str) ==> (r matches ExprModel::Call(_, a2) && a2[0]
                == args[0])
        }),
{
}

/// A `require` call whose first argument is missing or is no string literal is
/// left unchanged, including any `require` call nested in its arguments.
pub proof fn lemma_non_literal_require_untouched(
    callee: CalleeModel,
    args: Seq<ExprModel>,
    prefix: Seq<char>,
)
    requires
        is_require_callee(callee),
        !(args.len() > 0 && args[0] is Str),
    ensures
        rewrite_expr(ExprModel::Call(callee, args), prefix) == ExprModel::Call(callee, args),
{
}

/// With an empty prefix an expression is rewritten to itself.
pub proof fn lemma_empty_prefix_expr(e: ExprModel)
    ensures
        rewrite_expr(e, Seq::empty()) == e,
    decreases e,
{
    let p = Seq::<char>::empty();
    match e {
        ExprModel::Member(obj, prop) => {
            lemma_empty_prefix_expr(*obj);
            assert(Box::new(rewrite_expr(*obj, p)) == obj);
        },
        ExprModel::Call(callee, args) => {
            if is_require_callee(callee) {
                if args.len() > 0 && args[0] is Str {
                    let s = args[0]->Str_0;
                    assert(s.subrange(0, 0) =~= p);
                    assert(args.update(0, ExprModel::Str(s)) =~= args);
                    assert(require_target(p, s) == s);
                }
                assert(require_args(p, args) == args);
            } else {
                match callee {
                    CalleeModel::Expr(c) => {
                        lemma_empty_prefix_expr(*c);
                        assert(Box::new(rewrite_expr(*c, p)) == c);
                    },
                    _ => {},
                }
                lemma_empty_prefix_exprs(args);
                assert(rewrite_callee(callee, p) == callee);
            }
            assert(rewrite_expr(e, p) == e);
        },
        ExprModel::Other(kids) => {
            lemma_empty_prefix_exprs(kids);
            assert(rewrite_expr(e, p) == e);
        },
        _ => {},
    }
}

/// With an empty prefix a sequence of expressions is rewritten to itself.
pub proof fn lemma_empty_prefix_exprs(s: Seq<ExprModel>)
    ensures
        rewrite_exprs(s, Seq::empty()) == s,
    decreases s,
{
    assert forall|i: int| 0 <= i < s.len() implies rewrite_expr(s[i], Seq::empty()) == s[i] by {
        lemma_empty_prefix_expr(s[i]);
    }
    assert(rewrite_exprs(s, Seq::empty()) =~= s);
}

/// With an empty prefix the rewrite changes nothing: a disabled pass and a run
/// of the rewriter agree on every module.
pub proof fn lemma_empty_prefix_module(items: Seq<ItemModel>)
    ensures
        rewrite_module(items, Seq::empty()) == items,
{
    let p = Seq::<char>::empty();
    assert forall|i: int| 0 <= i < items.len() implies rewrite_item(items[i], p) == items[i] by {
        match items[i] {
            ItemModel::Import(_, src) => {
                assert(p + src =~= src);
            },
            ItemModel::ExportNamed(_, src) => {
                if let Some(s) = src {
                    assert(p + s =~= s);
                }
            },
            ItemModel::ExportAll(src) => {
                assert(p + src =~= src);
            },
            ItemModel::Stmt(e) => {
                lemma_empty_prefix_expr(e);
            },
        }
    }
    assert(rewrite_module(items, p) =~= items);
}

} // verus!
