//! Reference extraction and the elision-eligibility decision.

use vstd::prelude::*;

use crate::ast::{ExplicitSelf, FnDecl, FnKind, FunctionRetTy, Lifetime, Ty, STATIC_NAME};

verus! {

/// The region of a `&`-reference.
#[derive(PartialEq, Eq, Structural, Clone, Copy, Debug)]
pub enum RefLt {
    /// No annotation is written; the region is inferred.
    Unnamed,
    /// The whole-program region.
    Static,
    /// A user-chosen region identifier; two `Named` descriptors are equal
    /// iff their symbols are.
    Named(u64),
}

/// The descriptor a written region annotation contributes.
pub open spec fn lt_descr(l: Lifetime) -> RefLt {
    if l.name == STATIC_NAME {
        RefLt::Static
    } else {
        RefLt::Named(l.name)
    }
}

/// The descriptor an optional annotation on a reference contributes.
pub open spec fn opt_descr(lt: Option<Lifetime>) -> RefLt {
    match lt {
        Option::Some(l) => lt_descr(l),
        Option::None => RefLt::Unnamed,
    }
}

/// The region descriptors of every reference in a type expression, in
/// pre-order encounter sequence. Region bounds on trait objects are not
/// collected.
pub open spec fn refs_of_ty(t: Ty) -> Seq<RefLt>
    decreases t,
{
    match t {
        Ty::Rptr(lt, inner) => seq![opt_descr(lt)] + refs_of_ty(*inner),
        Ty::Tup(tys) => refs_of_tys(tys@),
        Ty::Path(lts, args) => descrs_of_lts(lts@) + refs_of_tys(args@),
        Ty::ObjectSum(inner, _) => refs_of_ty(*inner),
        Ty::Infer => Seq::empty(),
    }
}

/// The descriptors of the region arguments of a generic application, in
/// order. A region argument is written, so it is never `Unnamed`.
pub open spec fn descrs_of_lts(lts: Seq<Lifetime>) -> Seq<RefLt>
    decreases lts,
{
    if lts.len() == 0 {
        Seq::empty()
    } else {
        descrs_of_lts(lts.drop_last()).push(lt_descr(lts.last()))
    }
}

/// The region descriptors of a list of type expressions, in order.
pub open spec fn refs_of_tys(tys: Seq<Ty>) -> Seq<RefLt>
    decreases tys,
{
    if tys.len() == 0 {
        Seq::empty()
    } else {
        refs_of_tys(tys.drop_last()) + refs_of_ty(tys.last())
    }
}

/// The descriptors contributed by the receiver: a by-reference receiver
/// carries its region out-of-band and contributes exactly that region; a
/// fully written receiver type is walked like any parameter type; other
/// definitions contribute nothing.
pub open spec fn receiver_refs(kind: FnKind) -> Seq<RefLt> {
    match kind {
        FnKind::FkMethod(es) => match es {
            ExplicitSelf::SelfRegion(lt) => seq![opt_descr(lt)],
            ExplicitSelf::SelfExplicit(t) => refs_of_ty(*t),
            _ => Seq::empty(),
        },
        _ => Seq::empty(),
    }
}

/// The input sequence of a signature: the receiver's descriptors, then
/// those of every parameter type, in declaration order.
pub open spec fn input_refs(kind: FnKind, func: FnDecl) -> Seq<RefLt> {
    receiver_refs(kind) + refs_of_tys(func.inputs@)
}

/// The output sequence of a signature: the return type's descriptors; an
/// absent return type contributes an empty sequence.
pub open spec fn output_refs(func: FnDecl) -> Seq<RefLt> {
    match func.output {
        FunctionRetTy::Return(t) => refs_of_ty(*t),
        FunctionRetTy::DefaultReturn => Seq::empty(),
    }
}

/// A visitor usable for `walk_ty`: it collects the region descriptor of
/// each reference it is shown, in encounter order.
pub struct RefVisitor(pub Vec<RefLt>);

impl RefVisitor {
    /// Records the descriptor of one reference's optional region
    /// annotation.
    pub fn record(&mut self, lifetime: &Option<Lifetime>)
        ensures
            final(self).0@ == old(self).0@.push(opt_descr(*lifetime)),
    {
        if let Some(lt) = lifetime {
            if lt.name == STATIC_NAME {
                self.0.push(RefLt::Static);
            } else {
                self.0.push(RefLt::Named(lt.name));
            }
        } else {
            self.0.push(RefLt::Unnamed);
        }
    }

    /// Hands out everything recorded so far, in encounter order.
    pub fn into_vec(self) -> (v: Vec<RefLt>)
        ensures
            v@ == self.0@,
    {
        self.0
    }

    /// For the region of a reference.
    pub fn visit_opt_lifetime_ref(&mut self, lifetime: &Option<Lifetime>)
        ensures
            final(self).0@ == old(self).0@.push(opt_descr(*lifetime)),
    {
        self.record(lifetime);
    }

    /// For a region standing as an argument of a generic application.
    pub fn visit_lifetime_ref(&mut self, lifetime: &Lifetime)
        ensures
            final(self).0@ == old(self).0@.push(lt_descr(*lifetime)),
    {
        self.record(&Some(*lifetime));
    }

    /// For a region bound: bounds constrain, they do not annotate a
    /// reference, so nothing is recorded.
    pub fn visit_lifetime_bound(&mut self, _lifetime: &Lifetime)
        ensures
            final(self).0@ == old(self).0@,
    {
    }
}

proof fn lemma_refs_of_tys_step(tys: Seq<Ty>, i: int)
    requires
        0 <= i < tys.len(),
    ensures
        refs_of_tys(tys.subrange(0, i + 1)) == refs_of_tys(tys.subrange(0, i)) + refs_of_ty(
            tys[i],
        ),
{
    assert(tys.subrange(0, i + 1).drop_last() =~= tys.subrange(0, i));
    assert(tys.subrange(0, i + 1).last() == tys[i]);
}

proof fn lemma_descrs_of_lts_step(lts: Seq<Lifetime>, i: int)
    requires
        0 <= i < lts.len(),
    ensures
        descrs_of_lts(lts.subrange(0, i + 1)) == descrs_of_lts(lts.subrange(0, i)).push(
            lt_descr(lts[i]),
        ),
{
    assert(lts.subrange(0, i + 1).drop_last() =~= lts.subrange(0, i));
    assert(lts.subrange(0, i + 1).last() == lts[i]);
}

/// Walks a type expression, recording the region of every reference in
/// pre-order encounter sequence; region bounds are visited but not
/// recorded.
pub fn walk_ty(visitor: &mut RefVisitor, ty: &Ty)
    ensures
        final(visitor).0@ == old(visitor).0@ + refs_of_ty(*ty),
    decreases *ty,
{
    match ty {
        Ty::Rptr(lt, inner) => {
            visitor.visit_opt_lifetime_ref(lt);
            walk_ty(visitor, inner);
            proof {
                assert(old(visitor).0@.push(opt_descr(*lt)) + refs_of_ty(**inner) =~= old(
                    visitor,
                ).0@ + (seq![opt_descr(*lt)] + refs_of_ty(**inner)));
            }
        },
        Ty::Tup(tys) => {
            walk_ty_list(visitor, tys);
        },
        Ty::Path(lts, args) => {
            let ghost entry = visitor.0@;
            for i in 0..lts.len()
                invariant
                    visitor.0@ == entry + descrs_of_lts(lts@.subrange(0, i as int)),
            {
                visitor.visit_lifetime_ref(&lts[i]);
                proof {
                    lemma_descrs_of_lts_step(lts@, i as int);
                }
            }
            proof {
                assert(lts@.subrange(0, lts@.len() as int) =~= lts@);
            }
            walk_ty_list(visitor, args);
            proof {
                assert(entry + descrs_of_lts(lts@) + refs_of_tys(args@) =~= entry + (descrs_of_lts(
                    lts@,
                ) + refs_of_tys(args@)));
            }
        },
        Ty::ObjectSum(inner, bounds) => {
            walk_ty(visitor, inner);
            for i in 0..bounds.len()
                invariant
                    visitor.0@ == old(visitor).0@ + refs_of_ty(**inner),
            {
                visitor.visit_lifetime_bound(&bounds[i]);
            }
        },
        Ty::Infer => {},
    }
}

/// Walks each type of a list, in order.
pub fn walk_ty_list(visitor: &mut RefVisitor, tys: &Vec<Ty>)
    ensures
        final(visitor).0@ == old(visitor).0@ + refs_of_tys(tys@),
    decreases tys@,
{
    let ghost entry = visitor.0@;
    for i in 0..tys.len()
        invariant
            visitor.0@ == entry + refs_of_tys(tys@.subrange(0, i as int)),
    {
        walk_ty(visitor, &tys[i]);
        proof {
            lemma_refs_of_tys_step(tys@, i as int);
            assert(entry + refs_of_tys(tys@.subrange(0, i as int)) + refs_of_ty(tys@[i as int])
                =~= entry + refs_of_tys(tys@.subrange(0, i + 1)));
        }
    }
    proof {
        assert(tys@.subrange(0, tys@.len() as int) =~= tys@);
    }
}

/// The number of distinct descriptors in a sequence: duplicates collapse,
/// `Named` descriptors with different symbols stay apart. Discovery order
/// never changes this count.
pub open spec fn unique_count(s: Seq<RefLt>) -> nat {
    s.to_set().len()
}

/// The eligibility decision over the two extracted sequences. `true` iff
/// the signature's explicit annotations are needless under the elision
/// rules:
/// - no references at all, or a lone already-implicit input: nothing to
///   simplify;
/// - no output reference: eligible exactly when every input descriptor is
///   pairwise distinct;
/// - an output reference: eligible exactly when all output references
///   share one region, there is exactly one input reference, and the pair
///   (input, output) is `Named`/`Named` with equal symbols,
///   `Named`/`Unnamed`, or `Unnamed`/`Named`.
pub open spec fn elision_verdict(input: Seq<RefLt>, output: Seq<RefLt>) -> bool {
    if input.len() == 0 {
        false
    } else if output.len() == 0 {
        if input.len() == 1 && input[0] == RefLt::Unnamed {
            false
        } else {
            unique_count(input) == input.len()
        }
    } else {
        if unique_count(output) > 1 {
            false
        } else if input.len() == 1 {
            match (input[0], output[0]) {
                (RefLt::Named(n1), RefLt::Named(n2)) => n1 == n2,
                (RefLt::Named(_), RefLt::Unnamed) => true,
                (RefLt::Unnamed, RefLt::Named(_)) => true,
                _ => false,
            }
        } else {
            false
        }
    }
}

/// Number of unique region descriptors in the given vector.
pub fn unique_lifetimes(lts: &Vec<RefLt>) -> (n: usize)
    ensures
        n == unique_count(lts@),
{

    let mut seen: Vec<RefLt> = Vec::new();
    for i in 0..lts.len()
        invariant
            seen@.to_set() == lts@.subrange(0, i as int).to_set(),
            seen@.no_duplicates(),
    {
        let mut found = false;
        for j in 0..seen.len()
            invariant
                i < lts@.len(),
                found <==> exists|k: int| 0 <= k < j && seen@[k] == lts@[i as int],
        {
            if seen[j] == lts[i] {
                found = true;
            }
        }
        proof {
            let x = lts@[i as int];
            let pre = lts@.subrange(0, i as int);
            assert(lts@.subrange(0, i + 1) =~= pre.push(x));
            pre.lemma_push_to_set_commute(x);
            assert(pre.push(x).to_set() == pre.to_set().insert(x));
            if found {
                assert(seen@.contains(x));
                assert(seen@.to_set().contains(x));
                assert(seen@.to_set() =~= pre.to_set().insert(x));
            } else {
                assert(!seen@.contains(x));
                seen@.lemma_push_to_set_commute(x);
                assert(seen@.push(x).to_set() == seen@.to_set().insert(x));
                assert(seen@.push(x).no_duplicates()) by {
                    assert(forall|k: int|
                        0 <= k < seen@.len() ==> seen@.push(x)[k] == seen@[k]);
                    assert(seen@.push(x)[seen@.len() as int] == x);
                }
            }
        }
        if !found {
            seen.push(lts[i]);
        }
    }
    proof {
        assert(lts@.subrange(0, lts@.len() as int) =~= lts@);
        seen@.unique_seq_to_set();
    }
    seen.len()
}

/// Decides whether the explicit region annotations of the given
/// signature could be elided: extracts the input-side and output-side
/// descriptor sequences, then applies the elision rules.
pub fn could_use_elision(kind: &FnKind, func: &FnDecl) -> (r: bool)
    ensures
        r == elision_verdict(input_refs(*kind, *func), output_refs(*func)),
{
    // There are two scenarios where elision works:
    // * no output references, all input references have different regions
    // * output references, exactly one input reference with same region
    let mut input_visitor = RefVisitor(Vec::new());
    let mut output_visitor = RefVisitor(Vec::new());

    // a "self" taken by reference carries its region out-of-band: record
    // it directly instead of walking a synthetic receiver type
    if let FnKind::FkMethod(explicit_self) = kind {
        match explicit_self {
            ExplicitSelf::SelfRegion(opt_lt) => input_visitor.record(opt_lt),
            ExplicitSelf::SelfExplicit(ty) => walk_ty(&mut input_visitor, ty),
            _ => {},
        }
    }
    // extract regions in input argument types
    walk_ty_list(&mut input_visitor, &func.inputs);
    // extract regions in the output type
    if let FunctionRetTy::Return(ty) = &func.output {
        walk_ty(&mut output_visitor, ty);
    }

    let input_lts = input_visitor.into_vec();
    let output_lts = output_visitor.into_vec();

    proof {
        assert(input_lts@ =~= input_refs(*kind, *func));
        assert(output_lts@ =~= output_refs(*func));
    }

    // no input regions? easy case!
    if input_lts.len() == 0 {
        return false;
    } else if output_lts.len() == 0 {
        // no output regions, check distinctness of input regions

        // only one reference with unnamed region, ok
        if input_lts.len() == 1 && input_lts[0] == RefLt::Unnamed {
            return false;
        }
        // we have no output reference, so we only need all distinct regions
        if input_lts.len() == unique_lifetimes(&input_lts) {
            return true;
        }
    } else {
        // we have output references, so we need one input reference,
        // and all output regions must be the same
        if unique_lifetimes(&output_lts) > 1 {
            return false;
        }
        if input_lts.len() == 1 {
            match (&input_lts[0], &output_lts[0]) {
                (RefLt::Named(n1), RefLt::Named(n2)) => {
                    if n1 == n2 {
                        return true;
                    }
                },
                (RefLt::Named(_), RefLt::Unnamed) => {
                    return true;
                },
                (RefLt::Unnamed, RefLt::Named(_)) => {
                    return true;
                },
                _ => {},  // already elided, different named regions
                // or something static going on
            }
        }
    }
    false
}

/// The advisory pass: one verdict per function definition.
#[derive(Copy, Clone)]
pub struct LifetimePass;

impl LifetimePass {
    /// Checks one function definition. Definitions that originate from
    /// macro-expanded code are skipped: the driver passes that origin in
    /// `in_external_macro`. The result says whether the driver should
    /// flag the signature at its source location.
    pub fn check_fn(&mut self, kind: &FnKind, decl: &FnDecl, in_external_macro: bool) -> (flag:
        bool)
        ensures
            flag == (!in_external_macro && elision_verdict(
                input_refs(*kind, *decl),
                output_refs(*decl),
            )),
    {
        if in_external_macro {
            return false;
        }
        could_use_elision(kind, decl)
    }
}

} // verus!
