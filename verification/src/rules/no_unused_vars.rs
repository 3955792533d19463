//! `no-unused-vars`: variables, catch bindings, imports and value
//! parameters that nothing reads.
use vstd::prelude::*;

use crate::engine::{views, DiagView, LintContext};
use crate::frontend::{SymbolFact, SymbolView};
use crate::lint::{LintDiagnostic, Severity};
use crate::text::{chars_of, eq_str};

verus! {

/// Flags declared bindings that are never read.
pub struct NoUnusedVars;

/// Declaring node kinds whose bindings the rule checks.
pub open spec fn binding_kind(k: Seq<char>) -> bool {
    ||| k == "VariableDeclarator"@
    ||| k == "CatchParameter"@
    ||| k == "ImportSpecifier"@
    ||| k == "ImportDefaultSpecifier"@
    ||| k == "ImportNamespaceSpecifier"@
}

pub open spec fn param_kind(k: Seq<char>) -> bool {
    k == "FormalParameter"@ || k == "FormalParameterRest"@
}

/// Kinds inside which a parameter only describes a type.
pub open spec fn type_level_kind(k: Seq<char>) -> bool {
    ||| k == "TSMethodSignature"@
    ||| k == "TSCallSignatureDeclaration"@
    ||| k == "TSFunctionType"@
    ||| k == "TSInterfaceDeclaration"@
    ||| k == "TSTypeAliasDeclaration"@
}

/// Export declarations: `export const x`, `export { x }`, `export { x } from`, `export default`.
pub open spec fn export_kind(k: Seq<char>) -> bool {
    ||| k == "ExportDeclaration"@
    ||| k == "ExportNamedDeclaration"@
    ||| k == "ExportFromDeclaration"@
    ||| k == "ExportDefaultDeclaration"@
}

/// Walking up from position `j` of the lineage (the declaring node, then
/// its ancestors), the first binding or parameter node found is a binding,
/// or a parameter of a value-level function.
pub open spec fn supported_from(lin: Seq<Seq<char>>, j: int) -> bool
    decreases lin.len() - j,
{
    if j < 0 || j >= lin.len() {
        false
    } else if binding_kind(lin[j]) {
        true
    } else if param_kind(lin[j]) {
        !(exists|m: int| j < m < lin.len() && #[trigger] type_level_kind(lin[m]))
    } else {
        supported_from(lin, j + 1)
    }
}

/// Some ancestor of the declaring node is an export declaration.
pub open spec fn exported(lin: Seq<Seq<char>>) -> bool {
    exists|m: int| 1 <= m < lin.len() && #[trigger] export_kind(lin[m])
}

/// Some resolved reference reads the symbol or uses it as a type.
pub open spec fn used(sym: SymbolView) -> bool {
    exists|k: int| 0 <= k < sym.references.len() && ((#[trigger] sym.references[k]).0 || sym.references[k].1)
}

/// What the rule reports for one symbol and the kinds above its declaration.
pub open spec fn unused_report(cx: &LintContext, sym: SymbolView, lin: Seq<Seq<char>>) -> Option<DiagView> {
    if (sym.is_variable || sym.is_catch_variable || sym.is_import) && !used(sym) && !(sym.name.len() > 0
        && sym.name[0] == '_') && !exported(lin) && supported_from(lin, 0) {
        Some(
            cx.builtin(
                "no-unused-vars"@,
                "`"@ + sym.name + "` is declared but never used"@,
                sym.start,
                sym.end,
                Severity::Error,
            ),
        )
    } else {
        None
    }
}

/// The texts of a list of character vectors.
pub open spec fn kinds(lin: Seq<Vec<char>>) -> Seq<Seq<char>> {
    lin.map_values(|v: Vec<char>| v@)
}

/// The lineage recorded for symbol `k`, if any.
pub open spec fn lineage_at(lins: Seq<Seq<Seq<char>>>, k: int) -> Seq<Seq<char>> {
    if 0 <= k < lins.len() {
        lins[k]
    } else {
        Seq::empty()
    }
}

/// What the rule reports for the first `n` symbols, in order.
pub open spec fn unused_reports(
    cx: &LintContext,
    syms: Seq<SymbolView>,
    lins: Seq<Seq<Seq<char>>>,
    n: int,
) -> Seq<DiagView>
    decreases n,
{
    if n <= 0 {
        Seq::empty()
    } else {
        let before = unused_reports(cx, syms, lins, n - 1);
        match unused_report(cx, syms[n - 1], lineage_at(lins, n - 1)) {
            Some(d) => before.push(d),
            None => before,
        }
    }
}

fn is_one_of(k: &Vec<char>, names: &[&str]) -> (b: bool)
    ensures
        b == exists|m: int| 0 <= m < names@.len() && k@ == (#[trigger] names@[m])@,
{
    let mut m: usize = 0;
    while m < names.len()
        invariant
            m <= names@.len(),
            forall|q: int| 0 <= q < m ==> k@ != (#[trigger] names@[q])@,
        decreases names@.len() - m,
    {
        if eq_str(k, names[m]) {
            return true;
        }
        m = m + 1;
    }
    false
}

fn binding_kind_exec(k: &Vec<char>) -> (b: bool)
    ensures
        b == binding_kind(k@),
{
    let names = [
        "VariableDeclarator",
        "CatchParameter",
        "ImportSpecifier",
        "ImportDefaultSpecifier",
        "ImportNamespaceSpecifier",
    ];
    let r = is_one_of(k, &names);
    proof {
        if r {
            let m = choose|m: int| 0 <= m < names@.len() && k@ == (#[trigger] names@[m])@;
            assert(0 <= m < 5);
        } else {
            assert(k@ != names@[0]@);
            assert(k@ != names@[1]@);
            assert(k@ != names@[2]@);
            assert(k@ != names@[3]@);
            assert(k@ != names@[4]@);
        }
    }
    r
}

fn type_level_kind_exec(k: &Vec<char>) -> (b: bool)
    ensures
        b == type_level_kind(k@),
{
    let names = [
        "TSMethodSignature",
        "TSCallSignatureDeclaration",
        "TSFunctionType",
        "TSInterfaceDeclaration",
        "TSTypeAliasDeclaration",
    ];
    let r = is_one_of(k, &names);
    proof {
        if r {
            let m = choose|m: int| 0 <= m < names@.len() && k@ == (#[trigger] names@[m])@;
            assert(0 <= m < 5);
        } else {
            assert(k@ != names@[0]@);
            assert(k@ != names@[1]@);
            assert(k@ != names@[2]@);
            assert(k@ != names@[3]@);
            assert(k@ != names@[4]@);
        }
    }
    r
}

/// The kinds of a lineage as character vectors.
fn lineage_chars(lin: &Vec<String>) -> (r: Vec<Vec<char>>)
    ensures
        kinds(r@) == lin@.map_values(|s: String| s@),
{
    let mut out: Vec<Vec<char>> = Vec::new();
    let mut k: usize = 0;
    while k < lin.len()
        invariant
            k <= lin@.len(),
            out@.len() == k,
            kinds(out@) == lin@.take(k as int).map_values(|s: String| s@),
        decreases lin@.len() - k,
    {
        let c = chars_of(lin[k].as_str());
        assert(c@ == lin@[k as int]@);
        let ghost before = out@;
        out.push(c);
        proof {
            assert forall|q: int| 0 <= q < k + 1 implies #[trigger] kinds(out@)[q] == lin@.take(k + 1)[q]@ by {
                if q < k {
                    assert(out@[q] == before[q]);
                    assert(kinds(before)[q] == lin@.take(k as int).map_values(|s: String| s@)[q]);
                }
            }
            assert(kinds(out@) =~= lin@.take(k + 1).map_values(|s: String| s@));
        }
        k = k + 1;
    }
    assert(lin@.take(k as int) =~= lin@);
    out
}

fn any_type_level_after(lin: &Vec<Vec<char>>, j: usize) -> (b: bool)
    ensures
        b == exists|m: int| j < m < lin@.len() && #[trigger] type_level_kind(kinds(lin@)[m]),
{
    let ghost l = kinds(lin@);
    if j >= lin.len() {
        return false;
    }
    let mut m: usize = j + 1;
    while m < lin.len()
        invariant
            j < lin@.len(),
            j < m <= lin@.len(),
            l == kinds(lin@),
            forall|q: int| j < q < m ==> !#[trigger] type_level_kind(l[q]),
        decreases lin@.len() - m,
    {
        if type_level_kind_exec(&lin[m]) {
            assert(type_level_kind(l[m as int]));
            return true;
        }
        m = m + 1;
    }
    false
}

fn supported_exec(lin: &Vec<Vec<char>>) -> (b: bool)
    ensures
        b == supported_from(kinds(lin@), 0),
{
    let ghost l = kinds(lin@);
    let mut j: usize = 0;
    while j < lin.len()
        invariant
            j <= lin@.len(),
            l == kinds(lin@),
            supported_from(l, 0) == supported_from(l, j as int),
        decreases lin@.len() - j,
    {
        if binding_kind_exec(&lin[j]) {
            return true;
        }
        if eq_str(&lin[j], "FormalParameter") || eq_str(&lin[j], "FormalParameterRest") {
            return !any_type_level_after(lin, j);
        }
        j = j + 1;
    }
    false
}

fn exported_exec(lin: &Vec<Vec<char>>) -> (b: bool)
    ensures
        b == exported(kinds(lin@)),
{
    let ghost l = kinds(lin@);
    let mut m: usize = 1;
    while m < lin.len()
        invariant
            1 <= m,
            l == kinds(lin@),
            forall|q: int| 1 <= q < m && q < l.len() ==> !#[trigger] export_kind(l[q]),
        decreases lin@.len() - m,
    {
        if eq_str(&lin[m], "ExportDeclaration") || eq_str(&lin[m], "ExportNamedDeclaration") || eq_str(
            &lin[m],
            "ExportFromDeclaration",
        ) || eq_str(&lin[m], "ExportDefaultDeclaration") {
            assert(export_kind(l[m as int]));
            return true;
        }
        m = m + 1;
    }
    false
}

fn used_exec(sym: &SymbolFact) -> (b: bool)
    ensures
        b == used(sym@),
{
    let mut k: usize = 0;
    while k < sym.references.len()
        invariant
            k <= sym.references@.len(),
            forall|q: int| 0 <= q < k ==> !((#[trigger] sym.references@[q]).0 || sym.references@[q].1),
        decreases sym.references@.len() - k,
    {
        let (read, ty) = sym.references[k];
        if read || ty {
            assert(sym@.references[k as int].0 || sym@.references[k as int].1);
            return true;
        }
        k = k + 1;
    }
    false
}

fn unused_check(cx: &LintContext, sym: &SymbolFact, lin: &Vec<String>) -> (d: Option<LintDiagnostic>)
    requires
        cx.wf(),
    ensures
        crate::engine::opt_diag(d) == unused_report(cx, sym@, lin@.map_values(|s: String| s@)),
{
    let kinds = lineage_chars(lin);
    if !(sym.is_variable || sym.is_catch_variable || sym.is_import) || used_exec(sym) {
        return None;
    }
    let name = chars_of(sym.name.as_str());
    if name.len() > 0 && name[0] == '_' {
        return None;
    }
    if exported_exec(&kinds) || !supported_exec(&kinds) {
        return None;
    }
    let mut msg = chars_of("`");
    msg.append(&mut name.clone());
    msg.append(&mut chars_of("` is declared but never used"));
    assert(msg@ =~= "`"@ + sym@.name + "` is declared but never used"@);
    Some(cx.diagnostic("no-unused-vars", &msg, sym.start, sym.end, Severity::Error))
}

impl NoUnusedVars {
    pub fn name(&self) -> (r: &'static str)
        ensures
            r@ == "no-unused-vars"@,
    {
        "no-unused-vars"
    }

    /// One error per checked symbol that nothing reads, in symbol order;
    /// `lineages[k]` holds the kinds of the declaring node of `symbols[k]`
    /// and of its ancestors.
    pub fn run(&self, cx: &LintContext, symbols: &Vec<SymbolFact>, lineages: &Vec<Vec<String>>) -> (r: Vec<
        LintDiagnostic,
    >)
        requires
            cx.wf(),
        ensures
            views(r@) == unused_reports(
                cx,
                symbols@.map_values(|f: SymbolFact| f@),
                lineages@.map_values(|l: Vec<String>| l@.map_values(|s: String| s@)),
                symbols@.len() as int,
            ),
    {
        let ghost syms = symbols@.map_values(|f: SymbolFact| f@);
        let ghost lins = lineages@.map_values(|l: Vec<String>| l@.map_values(|s: String| s@));
        let empty: Vec<String> = Vec::new();
        let mut out: Vec<LintDiagnostic> = Vec::new();
        let mut k: usize = 0;
        while k < symbols.len()
            invariant
                cx.wf(),
                k <= symbols@.len(),
                syms == symbols@.map_values(|f: SymbolFact| f@),
                lins == lineages@.map_values(|l: Vec<String>| l@.map_values(|s: String| s@)),
                empty@.len() == 0,
                views(out@) == unused_reports(cx, syms, lins, k as int),
            decreases symbols@.len() - k,
        {
            let lin = if k < lineages.len() {
                &lineages[k]
            } else {
                &empty
            };
            proof {
                assert(lin@.map_values(|s: String| s@) =~= lineage_at(lins, k as int));
            }
            match unused_check(cx, &symbols[k], lin) {
                Some(d) => {
                    proof {
                        crate::engine::lemma_views_push(out@, d);
                    }
                    out.push(d);
                },
                None => {},
            }
            k = k + 1;
        }
        out
    }
}

} // verus!
