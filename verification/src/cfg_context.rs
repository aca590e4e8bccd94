//! Which `#[cfg(..)]` conditions hold for the target a scan is made for.

use vstd::prelude::*;
use vstd::string::*;

use crate::id_sets::NameSet;
use crate::naming::str_eq;

verus! {

/// A target condition of a `cfg`.
#[derive(Debug)]
pub enum CfgTargetPredicate {
    /// `target_arch = ".."`.
    Arch(String),
    /// Any other `target_*` condition.
    Other,
}

/// One condition of a `cfg`.
#[derive(Debug)]
pub enum CfgPredicate {
    Target(CfgTargetPredicate),
    Test,
    DebugAssertions,
    ProcMacro,
    Feature(String),
    TargetFeature(String),
    Flag(String),
    KeyValue { key: String, val: String },
}

/// A `cfg` expression.
#[derive(Debug)]
pub enum CfgExpr {
    Predicate(CfgPredicate),
    All(Vec<CfgExpr>),
    Any(Vec<CfgExpr>),
    Not(Box<CfgExpr>),
}

/// The conditions a scan honours: the enabled features and the target
/// architecture. With `scan_all`, no item is filtered out.
pub struct CfgContext {
    pub features: NameSet,
    pub target_arch: Option<String>,
    pub scan_all: bool,
}

/// Whether the scan target's architecture is `arch`.
pub open spec fn arch_is(target_arch: Option<String>, arch: Seq<char>) -> bool {
    match target_arch {
        Some(a) => a@ == arch,
        None => false,
    }
}

/// Whether a condition holds: a feature when it is enabled, the
/// architecture when it is the target's, any other target condition and
/// any bare flag always; `test`, `debug_assertions`, `proc_macro` and
/// target features never; `feature = ".."` and `target_arch = ".."` as the
/// feature and the architecture, any other key-value pair always.
pub open spec fn predicate_holds(ctx: CfgContext, p: CfgPredicate) -> bool {
    match p {
        CfgPredicate::Feature(name) => ctx.features@.contains(name@),
        CfgPredicate::Target(CfgTargetPredicate::Arch(arch)) => arch_is(ctx.target_arch, arch@),
        CfgPredicate::Target(CfgTargetPredicate::Other) => true,
        CfgPredicate::Test => false,
        CfgPredicate::DebugAssertions => false,
        CfgPredicate::ProcMacro => false,
        CfgPredicate::TargetFeature(_) => false,
        CfgPredicate::Flag(_) => true,
        CfgPredicate::KeyValue { key, val } => if key@ == "feature"@ {
            ctx.features@.contains(val@)
        } else if key@ == "target_arch"@ {
            arch_is(ctx.target_arch, val@)
        } else {
            true
        },
    }
}

/// Whether a `cfg` expression holds: `all` of its parts, `any` of them,
/// the negation, or a single condition.
pub open spec fn expr_holds(ctx: CfgContext, e: CfgExpr) -> bool
    decreases e, 1nat,
{
    match e {
        CfgExpr::Predicate(p) => predicate_holds(ctx, p),
        CfgExpr::All(parts) => all_hold(ctx, parts@),
        CfgExpr::Any(parts) => any_holds(ctx, parts@),
        CfgExpr::Not(inner) => !expr_holds(ctx, *inner),
    }
}

/// Whether every expression holds.
pub open spec fn all_hold(ctx: CfgContext, es: Seq<CfgExpr>) -> bool
    decreases es, 0nat,
{
    if es.len() == 0 {
        true
    } else {
        all_hold(ctx, es.drop_last()) && expr_holds(ctx, es.last())
    }
}

/// Whether some expression holds.
pub open spec fn any_holds(ctx: CfgContext, es: Seq<CfgExpr>) -> bool
    decreases es, 0nat,
{
    if es.len() == 0 {
        false
    } else {
        any_holds(ctx, es.drop_last()) || expr_holds(ctx, es.last())
    }
}

/// Whether one `cfg` attribute holds; one whose expression could not be
/// read holds.
pub open spec fn cfg_attr_holds(ctx: CfgContext, cfg: Option<CfgExpr>) -> bool {
    match cfg {
        Some(e) => expr_holds(ctx, e),
        None => true,
    }
}

impl CfgContext {
    /// The context that scans everything.
    pub fn scan_everything() -> (res: Self)
        ensures
            res.features@ == Set::<Seq<char>>::empty(),
            res.target_arch is None,
            res.scan_all,
    {
        CfgContext { features: NameSet::new(), target_arch: None, scan_all: true }
    }

    fn arch_matches(&self, arch: &str) -> (res: bool)
        ensures
            res == arch_is(self.target_arch, arch@),
    {
        match &self.target_arch {
            Some(a) => str_eq(a.as_str(), arch),
            None => false,
        }
    }

    /// Whether a condition holds; see [`predicate_holds`].
    pub fn eval_predicate(&self, pred: &CfgPredicate) -> (res: bool)
        ensures
            res == predicate_holds(*self, *pred),
    {
        match pred {
            CfgPredicate::Feature(name) => self.features.contains(name.as_str()),
            CfgPredicate::Target(CfgTargetPredicate::Arch(arch)) => self.arch_matches(arch.as_str()),
            CfgPredicate::Target(CfgTargetPredicate::Other) => true,
            CfgPredicate::Test => false,
            CfgPredicate::DebugAssertions => false,
            CfgPredicate::ProcMacro => false,
            CfgPredicate::TargetFeature(_) => false,
            CfgPredicate::Flag(_) => true,
            CfgPredicate::KeyValue { key, val } => {
                if str_eq(key.as_str(), "feature") {
                    self.features.contains(val.as_str())
                } else if str_eq(key.as_str(), "target_arch") {
                    self.arch_matches(val.as_str())
                } else {
                    true
                }
            },
        }
    }

    /// Whether a `cfg` expression holds; see [`expr_holds`].
    #[verifier::loop_isolation(false)]
    pub fn eval_expr(&self, expr: &CfgExpr) -> (res: bool)
        ensures
            res == expr_holds(*self, *expr),
        decreases expr,
    {
        match expr {
            CfgExpr::Predicate(p) => self.eval_predicate(p),
            CfgExpr::Not(inner) => !self.eval_expr(inner),
            CfgExpr::All(parts) => {
                let mut i: usize = 0;
                let mut acc = true;
                while i < parts.len()
                    invariant
                        i <= parts@.len(),
                        acc == all_hold(*self, parts@.take(i as int)),
                    decreases parts.len() - i,
                {
                    assert(parts@.take(i + 1).drop_last() =~= parts@.take(i as int));
                    proof {
                        assert(decreases_to!(*expr => parts@[i as int]));
                    }
                    let b = self.eval_expr(&parts[i]);
                    acc = acc && b;
                    i = i + 1;
                }
                assert(parts@.take(parts@.len() as int) =~= parts@);
                acc
            },
            CfgExpr::Any(parts) => {
                let mut i: usize = 0;
                let mut acc = false;
                while i < parts.len()
                    invariant
                        i <= parts@.len(),
                        acc == any_holds(*self, parts@.take(i as int)),
                    decreases parts.len() - i,
                {
                    assert(parts@.take(i + 1).drop_last() =~= parts@.take(i as int));
                    proof {
                        assert(decreases_to!(*expr => parts@[i as int]));
                    }
                    let b = self.eval_expr(&parts[i]);
                    acc = acc || b;
                    i = i + 1;
                }
                assert(parts@.take(parts@.len() as int) =~= parts@);
                acc
            },
        }
    }

    /// Whether an item with the given `cfg` attributes is scanned: always
    /// with `scan_all`, otherwise when every attribute holds. An attribute
    /// whose expression could not be read (`None`) holds.
    pub fn is_active(&self, cfgs: &Vec<Option<CfgExpr>>) -> (res: bool)
        ensures
            res == (self.scan_all || forall|i: int| 0 <= i < cfgs@.len() ==> #[trigger] cfg_attr_holds(*self, cfgs@[i])),
    {
        if self.scan_all {
            return true;
        }
        let mut i: usize = 0;
        while i < cfgs.len()
            invariant
                i <= cfgs@.len(),
                !self.scan_all,
                forall|k: int| 0 <= k < i ==> #[trigger] cfg_attr_holds(*self, cfgs@[k]),
            decreases cfgs.len() - i,
        {
            match &cfgs[i] {
                Some(e) => {
                    if !self.eval_expr(e) {
                        assert(!cfg_attr_holds(*self, cfgs@[i as int]));
                        return false;
                    }
                },
                None => {},
            }
            i = i + 1;
        }
        true
    }
}

proof fn lemma_all_hold_every(ctx: CfgContext, es: Seq<CfgExpr>)
    ensures
        all_hold(ctx, es) <==> forall|i: int| 0 <= i < es.len() ==> expr_holds(ctx, #[trigger] es[i]),
    decreases es.len(),
{
    if es.len() > 0 {
        lemma_all_hold_every(ctx, es.drop_last());
        if all_hold(ctx, es) {
            assert forall|i: int| 0 <= i < es.len() implies expr_holds(ctx, #[trigger] es[i]) by {
                if i < es.len() - 1 {
                    assert(es.drop_last()[i] == es[i]);
                }
            }
        }
        if forall|i: int| 0 <= i < es.len() ==> expr_holds(ctx, #[trigger] es[i]) {
            assert forall|i: int| 0 <= i < es.drop_last().len() implies expr_holds(ctx, #[trigger] es.drop_last()[i]) by {
                assert(es.drop_last()[i] == es[i]);
            }
            assert(expr_holds(ctx, es[es.len() - 1]));
        }
    }
}

proof fn lemma_any_hold_some(ctx: CfgContext, es: Seq<CfgExpr>)
    ensures
        any_holds(ctx, es) <==> exists|i: int| 0 <= i < es.len() && expr_holds(ctx, #[trigger] es[i]),
    decreases es.len(),
{
    if es.len() > 0 {
        lemma_any_hold_some(ctx, es.drop_last());
        if any_holds(ctx, es.drop_last()) {
            let i = choose|i: int| 0 <= i < es.drop_last().len() && expr_holds(ctx, #[trigger] es.drop_last()[i]);
            assert(es[i] == es.drop_last()[i]);
        }
        if exists|i: int| 0 <= i < es.len() && expr_holds(ctx, #[trigger] es[i]) {
            let i = choose|i: int| 0 <= i < es.len() && expr_holds(ctx, #[trigger] es[i]);
            if i < es.len() - 1 {
                assert(es.drop_last()[i] == es[i]);
            }
        }
    }
}

/// How `cfg` expressions combine, for every context: `all(..)` holds
/// exactly when every part holds (so one part that does not hold filters
/// the item out), `any(..)` exactly when some part holds, and `not(..)`
/// exactly when its part does not; `feature = ".."` holds exactly when the
/// feature is enabled, and `target_arch = ".."` exactly when it is the
/// target's architecture.
pub proof fn lemma_cfg_combinators(ctx: CfgContext, parts: Vec<CfgExpr>, inner: CfgExpr, feature: String, arch: String)
    ensures
        expr_holds(ctx, CfgExpr::Predicate(CfgPredicate::Target(CfgTargetPredicate::Arch(arch)))) <==> (ctx.target_arch matches Some(
            a,
        ) && a@ == arch@),
        expr_holds(ctx, CfgExpr::All(parts)) <==> forall|i: int| 0 <= i < parts@.len() ==> expr_holds(ctx, #[trigger] parts@[i]),
        expr_holds(ctx, CfgExpr::Any(parts)) <==> exists|i: int| 0 <= i < parts@.len() && expr_holds(ctx, #[trigger] parts@[i]),
        expr_holds(ctx, CfgExpr::Not(Box::new(inner))) <==> !expr_holds(ctx, inner),
        expr_holds(ctx, CfgExpr::Predicate(CfgPredicate::Feature(feature))) <==> ctx.features@.contains(feature@),
{
    lemma_all_hold_every(ctx, parts@);
    lemma_any_hold_some(ctx, parts@);
}

} // verus!
