//! Laws of deriving: which parameter or column each field binds or reads.

use vstd::prelude::*;
use vstd::utf8::encode_utf8;

use crate::derive::{
    duplicate_name_message, nul_name_message, offset_spec, plan_fields, scan_attrs, BindingView, FieldAttrView,
    FieldInputView, FieldPlanView, MemberView, NameView, PlanView, ProblemView, Site, What,
};
use crate::path::holds_nul;

verus! {

/// How field `pos` with name `ident` is named in the generated code.
pub open spec fn member_of(ident: Option<Seq<char>>, pos: int) -> MemberView {
    match ident {
        Some(id) => MemberView::Named(id),
        None => MemberView::Unnamed(pos as usize),
    }
}

/// Whether `after` is `before` with one more decided field, bound as
/// `binding`, and the running index at `index`.
pub open spec fn adds_field(
    before: PlanView,
    after: PlanView,
    member: MemberView,
    binding: BindingView,
    index: usize,
) -> bool {
    &&& after.complete
    &&& after.index == index
    &&& after.problems == before.problems
    &&& after.fields == before.fields.push(FieldPlanView { member, binding })
}

/// Whether `after` is `before` with one more problem and no field decided.
pub open spec fn adds_problem(before: PlanView, after: PlanView, problem: ProblemView) -> bool {
    &&& after.complete
    &&& after.index == before.index
    &&& after.fields == before.fields
    &&& after.problems == before.problems.push(problem)
}

/// Scanning a single attribute item.
proof fn lemma_scan_one(a: FieldAttrView, index: usize)
    ensures
        scan_attrs(seq![a], index) == match a {
            FieldAttrView::Index(n) => Some((n, None::<NameView>)),
            FieldAttrView::Name(n) => Some((index, Some(n))),
        },
{
    reveal_with_fuel(scan_attrs, 2);
    assert(seq![a].drop_last() =~= Seq::<FieldAttrView>::empty());
    assert(seq![a].last() == a);
}

/// Under `Bind`, a field whose only attribute is a name given as a C string
/// binds the parameter of exactly that name, whatever the fields before it,
/// and leaves the running index where it was.
pub proof fn lemma_cstr_name_binds_itself(
    fields: Seq<FieldInputView>,
    ident: Option<Seq<char>>,
    b: Seq<u8>,
    named: bool,
)
    requires
        plan_fields(fields, named, What::Bind).complete,
    ensures
        ({
            let f = FieldInputView { ident, attrs: seq![FieldAttrView::Name(NameView::CStr(b))] };
            let before = plan_fields(fields, named, What::Bind);
            adds_field(
                before,
                plan_fields(fields.push(f), named, What::Bind),
                member_of(ident, fields.len() as int),
                BindingView::Name(b),
                before.index,
            )
        }),
{
    let f = FieldInputView { ident, attrs: seq![FieldAttrView::Name(NameView::CStr(b))] };
    assert(fields.push(f).drop_last() =~= fields);
    lemma_scan_one(FieldAttrView::Name(NameView::CStr(b)), plan_fields(fields, named, What::Bind).index);
}

/// Under `Bind`, a field whose only attribute is a name given as a string
/// binds the parameter named by the UTF-8 bytes of the string; a string
/// holding a NUL byte cannot name a parameter and is a problem at the name.
pub proof fn lemma_str_name_binds_its_bytes(
    fields: Seq<FieldInputView>,
    ident: Option<Seq<char>>,
    s: Seq<char>,
    named: bool,
)
    requires
        plan_fields(fields, named, What::Bind).complete,
    ensures
        ({
            let f = FieldInputView { ident, attrs: seq![FieldAttrView::Name(NameView::Str(s))] };
            let before = plan_fields(fields, named, What::Bind);
            let after = plan_fields(fields.push(f), named, What::Bind);
            if holds_nul(encode_utf8(s)) {
                adds_problem(
                    before,
                    after,
                    ProblemView {
                        site: Site::Name(fields.len() as usize),
                        message: nul_name_message(s),
                    },
                )
            } else {
                adds_field(
                    before,
                    after,
                    member_of(ident, fields.len() as int),
                    BindingView::Name(encode_utf8(s)),
                    before.index,
                )
            }
        }),
{
    let f = FieldInputView { ident, attrs: seq![FieldAttrView::Name(NameView::Str(s))] };
    assert(fields.push(f).drop_last() =~= fields);
    lemma_scan_one(FieldAttrView::Name(NameView::Str(s)), plan_fields(fields, named, What::Bind).index);
}

/// Under `Bind` of a struct with named fields, a field with no attribute
/// binds the parameter named after the field with a leading colon.
pub proof fn lemma_named_field_binds_colon_name(fields: Seq<FieldInputView>, id: Seq<char>)
    requires
        plan_fields(fields, true, What::Bind).complete,
        !holds_nul(encode_utf8(":"@ + id)),
    ensures
        ({
            let f = FieldInputView { ident: Some(id), attrs: Seq::empty() };
            let before = plan_fields(fields, true, What::Bind);
            adds_field(
                before,
                plan_fields(fields.push(f), true, What::Bind),
                MemberView::Named(id),
                BindingView::Name(encode_utf8(":"@ + id)),
                before.index,
            )
        }),
{
    let f = FieldInputView { ident: Some(id), attrs: Seq::empty() };
    assert(fields.push(f).drop_last() =~= fields);
}

/// A field whose only attribute is `index = n` binds or reads index `n`
/// itself when it goes by index (reading a row, or binding a tuple struct),
/// and the fields after it count on from `n + 1`.
pub proof fn lemma_index_attribute_sets_the_index(
    fields: Seq<FieldInputView>,
    ident: Option<Seq<char>>,
    n: usize,
    named: bool,
    what: What,
)
    requires
        plan_fields(fields, named, what).complete,
        what == What::Row || !named,
        n <= 0x7fff_ffff,
    ensures
        ({
            let f = FieldInputView { ident, attrs: seq![FieldAttrView::Index(n)] };
            adds_field(
                plan_fields(fields, named, what),
                plan_fields(fields.push(f), named, what),
                member_of(ident, fields.len() as int),
                BindingView::Index(n as i32),
                (n + 1) as usize,
            )
        }),
{
    let f = FieldInputView { ident, attrs: seq![FieldAttrView::Index(n)] };
    assert(fields.push(f).drop_last() =~= fields);
    lemma_scan_one(FieldAttrView::Index(n), plan_fields(fields, named, what).index);
}

/// Fields without attributes that go by index take consecutive indexes from
/// the first parameter (1) or column (0): field `k` binds or reads index
/// `offset + k`, and nothing is reported.
pub proof fn lemma_plain_fields_are_consecutive(fields: Seq<FieldInputView>, named: bool, what: What)
    requires
        what == What::Row || !named,
        forall|k: int| 0 <= k < fields.len() ==> (#[trigger] fields[k]).attrs.len() == 0,
        offset_spec(what) + fields.len() <= 0x8000_0000,
    ensures
        ({
            let st = plan_fields(fields, named, what);
            &&& st.complete
            &&& st.problems.len() == 0
            &&& st.index == offset_spec(what) + fields.len()
            &&& st.fields.len() == fields.len()
            &&& forall|k: int| 0 <= k < fields.len() ==> #[trigger] st.fields[k] == (FieldPlanView {
                member: member_of(fields[k].ident, k),
                binding: BindingView::Index((offset_spec(what) + k) as i32),
            })
        }),
    decreases fields.len(),
{
    if fields.len() > 0 {
        let init = fields.drop_last();
        assert forall|k: int| 0 <= k < init.len() implies (#[trigger] init[k]).attrs.len() == 0 by {
            assert(init[k] == fields[k]);
        }
        lemma_plain_fields_are_consecutive(init, named, what);
        assert(fields.last().attrs =~= Seq::<FieldAttrView>::empty());
        let st = plan_fields(fields, named, what);
        assert forall|k: int| 0 <= k < fields.len() implies #[trigger] st.fields[k] == (FieldPlanView {
            member: member_of(fields[k].ident, k),
            binding: BindingView::Index((offset_spec(what) + k) as i32),
        }) by {
            if k < init.len() {
                assert(init[k] == fields[k]);
            }
        }
    }
}

/// A field with two `name` items stops deriving with a problem at its
/// name, and no field after it is decided.
pub proof fn lemma_second_name_stops_deriving(
    fields: Seq<FieldInputView>,
    ident: Option<Seq<char>>,
    n1: NameView,
    n2: NameView,
    later: FieldInputView,
    named: bool,
    what: What,
)
    requires
        plan_fields(fields, named, what).complete,
    ensures
        ({
            let f = FieldInputView { ident, attrs: seq![FieldAttrView::Name(n1), FieldAttrView::Name(n2)] };
            let before = plan_fields(fields, named, what);
            let after = plan_fields(fields.push(f), named, what);
            &&& !after.complete
            &&& after.fields == before.fields
            &&& after.problems == before.problems.push(
                ProblemView { site: Site::Name(fields.len() as usize), message: duplicate_name_message() },
            )
            &&& plan_fields(fields.push(f).push(later), named, what) == after
        }),
{
    let f = FieldInputView { ident, attrs: seq![FieldAttrView::Name(n1), FieldAttrView::Name(n2)] };
    assert(fields.push(f).drop_last() =~= fields);
    assert(fields.push(f).push(later).drop_last() =~= fields.push(f));
    let attrs = seq![FieldAttrView::Name(n1), FieldAttrView::Name(n2)];
    assert(attrs.drop_last() =~= seq![FieldAttrView::Name(n1)]);
    lemma_scan_one(FieldAttrView::Name(n1), plan_fields(fields, named, what).index);
}

} // verus!
