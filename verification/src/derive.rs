//! The rules by which `Bind` and `Row` are derived for a struct.
//!
//! Deriving takes the fields of a struct, in order, with the `sql`
//! attributes written on them, and decides for each field the parameter it
//! binds to or the column it reads from. Parsing the attributes and writing
//! out the implementation are left to the code generator; the decisions,
//! and every problem they report, are made here.

use vstd::prelude::*;
use vstd::slice::slice_to_vec;
use vstd::string::StringSliceAdditionalSpecFns;
use vstd::utf8::encode_utf8;

use crate::path::{has_nul, holds_nul};
use crate::text::{decimal, push_decimal};

verus! {

/// What is being derived.
#[derive(Clone, Copy, Debug, PartialEq, Eq, Structural)]
pub enum What {
    /// `Bind`: fields bind parameters, the first of which has index 1.
    Bind,
    /// `Row`: fields read columns, the first of which has index 0.
    Row,
}

/// The index of the first parameter or column.
pub open spec fn offset_spec(what: What) -> int {
    match what {
        What::Bind => 1,
        What::Row => 0,
    }
}

impl What {
    /// The index of the first parameter or column.
    pub fn offset_index(&self) -> (r: isize)
        ensures
            r == offset_spec(*self),
    {
        match self {
            What::Bind => 1,
            What::Row => 0,
        }
    }
}

/// The value of a `name` attribute: a string or a C string literal.
#[derive(Clone, Debug)]
pub enum NameLit {
    /// A string literal.
    Str(String),
    /// A C string literal, by its bytes without the terminating NUL.
    CStr(Vec<u8>),
}

/// The value of a `name` attribute, as a mathematical object.
pub enum NameView {
    /// A string literal.
    Str(Seq<char>),
    /// A C string literal.
    CStr(Seq<u8>),
}

impl View for NameLit {
    type V = NameView;

    open spec fn view(&self) -> NameView {
        match self {
            NameLit::Str(s) => NameView::Str(s@),
            NameLit::CStr(b) => NameView::CStr(b@),
        }
    }
}

/// One item of a `sql` attribute on a field.
#[derive(Clone, Debug)]
pub enum FieldAttr {
    /// `index = n`: the field and those after it count from `n`.
    Index(usize),
    /// `name = ".."`: the field binds the parameter of that name.
    Name(NameLit),
}

/// An item of a field attribute, as a mathematical object.
pub enum FieldAttrView {
    /// `index = n`.
    Index(usize),
    /// `name = ..`.
    Name(NameView),
}

impl View for FieldAttr {
    type V = FieldAttrView;

    open spec fn view(&self) -> FieldAttrView {
        match self {
            FieldAttr::Index(n) => FieldAttrView::Index(*n),
            FieldAttr::Name(n) => FieldAttrView::Name(n@),
        }
    }
}

/// A field of the struct: its name, if it has one, and the items of its
/// `sql` attributes in the order they are written.
#[derive(Clone, Debug)]
pub struct FieldInput {
    /// The name of the field; `None` for a field of a tuple struct.
    pub ident: Option<String>,
    /// The items of the field's `sql` attributes.
    pub attrs: Vec<FieldAttr>,
}

/// A field, as a mathematical object.
pub struct FieldInputView {
    /// The name of the field.
    pub ident: Option<Seq<char>>,
    /// The items of the field's attributes.
    pub attrs: Seq<FieldAttrView>,
}

impl View for FieldInput {
    type V = FieldInputView;

    open spec fn view(&self) -> FieldInputView {
        FieldInputView {
            ident: match self.ident {
                Some(s) => Some(s@),
                None => None,
            },
            attrs: self.attrs@.map_values(|a: FieldAttr| a@),
        }
    }
}

/// How a field is named in the generated code.
#[derive(Clone, Debug, PartialEq, Eq)]
pub enum Member {
    /// By its name.
    Named(String),
    /// By its position.
    Unnamed(usize),
}

/// How a field is named, as a mathematical object.
pub enum MemberView {
    /// By its name.
    Named(Seq<char>),
    /// By its position.
    Unnamed(usize),
}

impl View for Member {
    type V = MemberView;

    open spec fn view(&self) -> MemberView {
        match self {
            Member::Named(s) => MemberView::Named(s@),
            Member::Unnamed(i) => MemberView::Unnamed(*i),
        }
    }
}

/// The parameter or column of a field.
#[derive(Clone, Debug, PartialEq, Eq)]
pub enum Binding {
    /// The parameter or column of this index.
    Index(i32),
    /// The parameter of this name, by the bytes of its C string.
    Name(Vec<u8>),
}

/// The parameter or column of a field, as a mathematical object.
pub enum BindingView {
    /// By index.
    Index(i32),
    /// By name.
    Name(Seq<u8>),
}

impl View for Binding {
    type V = BindingView;

    open spec fn view(&self) -> BindingView {
        match self {
            Binding::Index(i) => BindingView::Index(*i),
            Binding::Name(b) => BindingView::Name(b@),
        }
    }
}

/// The decision for one field.
#[derive(Clone, Debug, PartialEq, Eq)]
pub struct FieldPlan {
    /// How the field is named in the generated code.
    pub member: Member,
    /// The parameter or column of the field.
    pub binding: Binding,
}

/// The decision for one field, as a mathematical object.
pub struct FieldPlanView {
    /// How the field is named.
    pub member: MemberView,
    /// Its parameter or column.
    pub binding: BindingView,
}

impl View for FieldPlan {
    type V = FieldPlanView;

    open spec fn view(&self) -> FieldPlanView {
        FieldPlanView { member: self.member@, binding: self.binding@ }
    }
}

/// Where in the input a problem is reported, fields counted from 0.
#[derive(Clone, Copy, Debug, PartialEq, Eq, Structural)]
pub enum Site {
    /// The name of the type.
    Input,
    /// A whole field.
    Field(usize),
    /// The `name` attribute of a field.
    Name(usize),
    /// The name of a field.
    Ident(usize),
    /// The type of a field.
    FieldType(usize),
}

/// A problem in the input, reported as a compile error.
#[derive(Clone, Debug)]
pub struct Problem {
    /// Where the problem is reported.
    pub site: Site,
    /// The message of the compile error.
    pub message: String,
}

/// A problem, as a mathematical object.
pub struct ProblemView {
    /// Where it is reported.
    pub site: Site,
    /// Its message.
    pub message: Seq<char>,
}

impl View for Problem {
    type V = ProblemView;

    open spec fn view(&self) -> ProblemView {
        ProblemView { site: self.site, message: self.message@ }
    }
}

/// The result of deriving: the fields that were decided, the problems
/// found, and whether the derive ran to the end. Code is written out only
/// when it did and no problem was found.
#[derive(Clone, Debug)]
pub struct Plan {
    /// The decided fields, in order.
    pub fields: Vec<FieldPlan>,
    /// The problems found, in order.
    pub problems: Vec<Problem>,
    /// Whether deriving ran to the end.
    pub complete: bool,
}

/// The state of deriving after some of the fields.
pub struct PlanView {
    /// The index the next field counts from.
    pub index: usize,
    /// The decided fields.
    pub fields: Seq<FieldPlanView>,
    /// The problems found.
    pub problems: Seq<ProblemView>,
    /// Whether deriving can go on.
    pub complete: bool,
}

impl Plan {
    /// The fields, problems and completeness of this plan.
    pub open spec fn outcome(&self) -> (Seq<FieldPlanView>, Seq<ProblemView>, bool) {
        (
            self.fields@.map_values(|f: FieldPlan| f@),
            self.problems@.map_values(|p: Problem| p@),
            self.complete,
        )
    }
}

/// Calls `format!` with `{:?}` on a string: the string quoted, with special
/// characters escaped, as `Debug` for `str` writes it.
pub uninterp spec fn debug_quoted(s: Seq<char>) -> Seq<char>;

/// Calls `format!("{:?}", s)`, which quotes and escapes the string as
/// `Debug` for `str` does; the result is a function of the string alone.
#[verifier::external_body]
fn debug_str(s: &str) -> (r: String)
    ensures
        r@ == debug_quoted(s@),
{
    format!("{:?}", s)
}

/// The message of a field name that cannot be a C string.
pub open spec fn nul_name_message(name: Seq<char>) -> Seq<char> {
    "custom field name "@ + debug_quoted(name) + " contains interior null byte"@
}

/// The message of a second `name` attribute on a field.
pub open spec fn duplicate_name_message() -> Seq<char> {
    "duplicate `name` attribute for field"@
}

/// The message of a field with no name under `named`.
pub open spec fn unnamed_field_message() -> Seq<char> {
    "named fields require field names derive"@
}

/// The message of an index too large for SQLite.
pub open spec fn index_too_large_message(n: nat) -> Seq<char> {
    "underlying index "@ + decimal(n) + " is too large for a c_int"@
}

/// The message for a type that is not a struct.
pub open spec fn not_struct_message() -> Seq<char> {
    "Row can only be derived for structs"@
}

/// The running index and the name after the attribute items `attrs`,
/// starting from `index`; `None` when a second `name` item occurs.
pub open spec fn scan_attrs(attrs: Seq<FieldAttrView>, index: usize) -> Option<(usize, Option<NameView>)>
    decreases attrs.len(),
{
    if attrs.len() == 0 {
        Some((index, None))
    } else {
        match scan_attrs(attrs.drop_last(), index) {
            None => None,
            Some((i, name)) => match attrs.last() {
                FieldAttrView::Index(n) => Some((n, name)),
                FieldAttrView::Name(n) => if name is Some {
                    None
                } else {
                    Some((i, Some(n)))
                },
            },
        }
    }
}

/// How the name of a field is resolved.
pub enum NameChoice {
    /// The field binds the parameter whose C string has these bytes.
    Named(Seq<u8>),
    /// The field binds or reads by index.
    Indexed,
    /// The field is skipped, with this problem.
    Skipped(ProblemView),
}

/// How the name of field `pos` is resolved.
pub open spec fn choose_name(
    what: What,
    named: bool,
    name: Option<NameView>,
    ident: Option<Seq<char>>,
    pos: usize,
) -> NameChoice {
    match what {
        What::Row => NameChoice::Indexed,
        What::Bind => match name {
            Some(NameView::CStr(b)) => NameChoice::Named(b),
            Some(NameView::Str(s)) => if holds_nul(encode_utf8(s)) {
                NameChoice::Skipped(ProblemView { site: Site::Name(pos), message: nul_name_message(s) })
            } else {
                NameChoice::Named(encode_utf8(s))
            },
            None => if !named {
                NameChoice::Indexed
            } else {
                match ident {
                    Some(id) => {
                        let m = ":"@ + id;
                        if holds_nul(encode_utf8(m)) {
                            NameChoice::Skipped(
                                ProblemView { site: Site::Ident(pos), message: nul_name_message(m) },
                            )
                        } else {
                            NameChoice::Named(encode_utf8(m))
                        }
                    },
                    None => NameChoice::Skipped(
                        ProblemView { site: Site::FieldType(pos), message: unnamed_field_message() },
                    ),
                }
            },
        },
    }
}

/// The state after deciding field `pos`, `f`, from state `st`.
pub open spec fn field_step(st: PlanView, f: FieldInputView, pos: usize, named: bool, what: What) -> PlanView {
    match scan_attrs(f.attrs, st.index) {
        None => PlanView {
            problems: st.problems.push(
                ProblemView { site: Site::Name(pos), message: duplicate_name_message() },
            ),
            complete: false,
            ..st
        },
        Some((index, name)) => {
            let member = match f.ident {
                Some(id) => MemberView::Named(id),
                None => MemberView::Unnamed(pos),
            };
            match choose_name(what, named, name, f.ident, pos) {
                NameChoice::Skipped(p) => PlanView { index, problems: st.problems.push(p), ..st },
                NameChoice::Named(b) => PlanView {
                    index,
                    fields: st.fields.push(FieldPlanView { member, binding: BindingView::Name(b) }),
                    ..st
                },
                NameChoice::Indexed => {
                    if index > i32::MAX {
                        PlanView {
                            index,
                            problems: st.problems.push(
                                ProblemView {
                                    site: Site::Field(pos),
                                    message: index_too_large_message(index as nat),
                                },
                            ),
                            ..st
                        }
                    } else {
                        PlanView {
                            index: (index + 1) as usize,
                            fields: st.fields.push(
                                FieldPlanView { member, binding: BindingView::Index(index as i32) },
                            ),
                            ..st
                        }
                    }
                },
            }
        },
    }
}

/// The state after deciding the fields `fields`: fields are decided in
/// order, and deciding stops at the first field with a second `name` item.
pub open spec fn plan_fields(fields: Seq<FieldInputView>, named: bool, what: What) -> PlanView
    decreases fields.len(),
{
    if fields.len() == 0 {
        PlanView {
            index: offset_spec(what) as usize,
            fields: Seq::empty(),
            problems: Seq::empty(),
            complete: true,
        }
    } else {
        let st = plan_fields(fields.drop_last(), named, what);
        if !st.complete {
            st
        } else {
            field_step(st, fields.last(), (fields.len() - 1) as usize, named, what)
        }
    }
}

/// Scan the attribute items of a field.
fn scan_field_attrs(attrs: &Vec<FieldAttr>, start: usize) -> (r: Option<(usize, Option<NameLit>)>)
    ensures
        match (r, scan_attrs(attrs@.map_values(|a: FieldAttr| a@), start)) {
            (None, None) => true,
            (Some((i, n)), Some((j, m))) => i == j && match (n, m) {
                (None, None) => true,
                (Some(a), Some(b)) => a@ == b,
                _ => false,
            },
            _ => false,
        },
{
    let ghost views = attrs@.map_values(|a: FieldAttr| a@);
    let mut index = start;
    let mut name: Option<NameLit> = None;
    let mut k: usize = 0;
    while k < attrs.len()
        invariant
            k <= attrs@.len(),
            views == attrs@.map_values(|a: FieldAttr| a@),
            scan_attrs(views.take(k as int), start) matches Some((j, m)) && j == index && match (
                name,
                m,
            ) {
                (None, None) => true,
                (Some(a), Some(b)) => a@ == b,
                _ => false,
            },
        decreases attrs@.len() - k,
    {
        assert(views.take(k + 1).drop_last() == views.take(k as int));
        match &attrs[k] {
            FieldAttr::Index(n) => {
                index = *n;
            },
            FieldAttr::Name(n) => {
                if name.is_some() {
                    proof {
                        lemma_scan_stays_none(views, (k + 1) as int, start);
                        assert(views.take(attrs@.len() as int) == views);
                    }
                    return None;
                }
                name = Some(n.clone_lit());
            },
        }
        k = k + 1;
    }
    assert(views.take(attrs@.len() as int) == views);
    Some((index, name))
}

/// Once a second `name` item is seen, the scan fails whatever follows.
proof fn lemma_scan_stays_none(views: Seq<FieldAttrView>, k: int, start: usize)
    requires
        0 <= k <= views.len(),
        scan_attrs(views.take(k), start) is None,
    ensures
        scan_attrs(views, start) is None,
    decreases views.len() - k,
{
    if k < views.len() {
        assert(views.take(k + 1).drop_last() == views.take(k));
        lemma_scan_stays_none(views, k + 1, start);
    } else {
        assert(views.take(k) == views);
    }
}

impl NameLit {
    /// A copy of this literal.
    pub fn clone_lit(&self) -> (r: NameLit)
        ensures
            r@ == self@,
    {
        match self {
            NameLit::Str(s) => NameLit::Str(s.clone()),
            NameLit::CStr(b) => NameLit::CStr(slice_to_vec(b.as_slice())),
        }
    }
}

/// The bytes of a string.
fn string_bytes(s: &str) -> (b: Vec<u8>)
    ensures
        b@ == s.spec_bytes(),
{
    slice_to_vec(s.as_bytes())
}

/// The message of a field name that cannot be a C string.
fn nul_name_problem(site: Site, name: &str) -> (p: Problem)
    ensures
        p@ == (ProblemView { site, message: nul_name_message(name@) }),
{
    let mut m = String::from_str("custom field name ");
    let quoted = debug_str(name);
    m.append(quoted.as_str());
    m.append(" contains interior null byte");
    Problem { site, message: m }
}

/// A problem with a fixed message.
fn problem(site: Site, message: &str) -> (p: Problem)
    ensures
        p@ == (ProblemView { site, message: message@ }),
{
    Problem { site, message: String::from_str(message) }
}

/// Decide field `pos`, `f`, given the running index, and record the outcome.
fn step_field(
    plan: &mut Plan,
    index: &mut usize,
    f: &FieldInput,
    pos: usize,
    named: bool,
    what: What,
)
    requires
        old(plan).complete,
    ensures
        ({
            let before = PlanView {
                index: *old(index),
                fields: old(plan).fields@.map_values(|f: FieldPlan| f@),
                problems: old(plan).problems@.map_values(|p: Problem| p@),
                complete: true,
            };
            let after = field_step(before, f@, pos, named, what);
            &&& *final(index) == after.index
            &&& final(plan).fields@.map_values(|f: FieldPlan| f@) == after.fields
            &&& final(plan).problems@.map_values(|p: Problem| p@) == after.problems
            &&& final(plan).complete == after.complete
        }),
{
    let ghost fields0 = plan.fields@;
    let ghost problems0 = plan.problems@;
    let scanned = scan_field_attrs(&f.attrs, *index);
    let (i, name) = match scanned {
        None => {
            plan.problems.push(problem(Site::Name(pos), "duplicate `name` attribute for field"));
            plan.complete = false;
            proof {
                assert(plan.problems@.map_values(|p: Problem| p@) =~= problems0.map_values(
                    |p: Problem| p@,
                ).push(ProblemView { site: Site::Name(pos), message: duplicate_name_message() }));
            }
            return;
        },
        Some(s) => s,
    };
    *index = i;
    let member = match &f.ident {
        Some(id) => Member::Named(id.clone()),
        None => Member::Unnamed(pos),
    };
    assert(member@ == match f@.ident {
        Some(id) => MemberView::Named(id),
        None => MemberView::Unnamed(pos),
    });
    let chosen: Option<Vec<u8>> = match what {
        What::Row => None,
        What::Bind => match &name {
            Some(NameLit::CStr(b)) => Some(slice_to_vec(b.as_slice())),
            Some(NameLit::Str(s)) => {
                if has_nul(s.as_str()) {
                    let p = nul_name_problem(Site::Name(pos), s.as_str());
                    plan.problems.push(p);
                    proof {
                        assert(plan.problems@.map_values(|p: Problem| p@) =~= problems0.map_values(
                            |p: Problem| p@,
                        ).push(p@));
                        assert(plan.fields@ == fields0);
                    }
                    return;
                }
                Some(string_bytes(s.as_str()))
            },
            None => {
                if !named {
                    None
                } else {
                    match &f.ident {
                        Some(id) => {
                            let mut m = String::from_str(":");
                            m.append(id.as_str());
                            if has_nul(m.as_str()) {
                                let p = nul_name_problem(Site::Ident(pos), m.as_str());
                                plan.problems.push(p);
                                proof {
                                    assert(plan.problems@.map_values(|p: Problem| p@)
                                        =~= problems0.map_values(|p: Problem| p@).push(p@));
                                }
                                return;
                            }
                            Some(string_bytes(m.as_str()))
                        },
                        None => {
                            let p = problem(
                                Site::FieldType(pos),
                                "named fields require field names derive",
                            );
                            plan.problems.push(p);
                            proof {
                                assert(plan.problems@.map_values(|p: Problem| p@) =~= problems0.map_values(
                                    |p: Problem| p@,
                                ).push(p@));
                            }
                            return;
                        },
                    }
                }
            },
        },
    };
    match chosen {
        Some(bytes) => {
            let ghost b = bytes@;
            let fp = FieldPlan { member, binding: Binding::Name(bytes) };
            plan.fields.push(fp);
            proof {
                assert(plan.fields@.map_values(|f: FieldPlan| f@) =~= fields0.map_values(
                    |f: FieldPlan| f@,
                ).push(FieldPlanView { member: member@, binding: BindingView::Name(b) }));
            }
        },
        None => {
            let n: usize = i;
            if n > 0x7fff_ffff {
                let mut m = String::from_str("underlying index ");
                push_decimal(&mut m, n as u128);
                m.append(" is too large for a c_int");
                let p = Problem { site: Site::Field(pos), message: m };
                plan.problems.push(p);
                proof {
                    assert(plan.problems@.map_values(|p: Problem| p@) =~= problems0.map_values(
                        |p: Problem| p@,
                    ).push(p@));
                }
                return;
            }
            let fp = FieldPlan { member, binding: Binding::Index(n as i32) };
            plan.fields.push(fp);
            *index = i + 1;
            proof {
                assert(plan.fields@.map_values(|f: FieldPlan| f@) =~= fields0.map_values(
                    |f: FieldPlan| f@,
                ).push(FieldPlanView { member: member@, binding: BindingView::Index(n as i32) }));
            }
        },
    }
}

/// Decide the fields of a struct for deriving `what`; under `named`, a
/// `Bind` field with neither index nor name binds the parameter named after
/// it, with a leading colon.
///
/// Fields count upwards from the first parameter (index 1) for `Bind` and
/// the first column (index 0) for `Row`; an `index` item sets the count to its
/// value, which is the parameter or column index itself, and the fields after
/// it continue from there. A field with a `name` binds by name and does not
/// move the count. A field of a tuple struct keeps its own position as its
/// member, whatever index it binds or reads.
/// A field with a problem is left out and the next field goes on; a second
/// `name` item on one field stops deriving.
pub fn plan_struct(fields: &Vec<FieldInput>, named: bool, what: What) -> (plan: Plan)
    ensures
        plan.outcome() == ({
            let st = plan_fields(fields@.map_values(|f: FieldInput| f@), named, what);
            (st.fields, st.problems, st.complete)
        }),
{
    let ghost views = fields@.map_values(|f: FieldInput| f@);
    let mut plan = Plan { fields: Vec::new(), problems: Vec::new(), complete: true };
    let mut index: usize = if what.offset_index() == 1 {
        1
    } else {
        0
    };
    let mut k: usize = 0;
    assert(plan.fields@.map_values(|f: FieldPlan| f@) =~= Seq::<FieldPlanView>::empty());
    assert(plan.problems@.map_values(|p: Problem| p@) =~= Seq::<ProblemView>::empty());
    while k < fields.len()
        invariant
            k <= fields@.len(),
            views == fields@.map_values(|f: FieldInput| f@),
            ({
                let st = plan_fields(views.take(k as int), named, what);
                &&& st.index == index
                &&& st.fields == plan.fields@.map_values(|f: FieldPlan| f@)
                &&& st.problems == plan.problems@.map_values(|p: Problem| p@)
                &&& st.complete == plan.complete
            }),
        decreases fields@.len() - k,
    {
        assert(views.take(k + 1).drop_last() == views.take(k as int));
        if !plan.complete {
            proof {
                lemma_plan_stays_incomplete(views, (k + 1) as int, named, what);
            }
            k = k + 1;
            continue;
        }
        step_field(&mut plan, &mut index, &fields[k], k, named, what);
        k = k + 1;
    }
    assert(views.take(fields@.len() as int) == views);
    plan
}

/// Once deriving has stopped, further fields change nothing.
proof fn lemma_plan_stays_incomplete(views: Seq<FieldInputView>, k: int, named: bool, what: What)
    requires
        1 <= k <= views.len(),
        !plan_fields(views.take(k - 1), named, what).complete,
    ensures
        plan_fields(views.take(k), named, what) == plan_fields(views.take(k - 1), named, what),
{
    assert(views.take(k).drop_last() == views.take(k - 1));
}

/// Decide a derive: a type that is not a struct is a problem of its own,
/// and a struct is decided field by field as `plan_struct` says.
pub fn plan_derive(is_struct: bool, fields: &Vec<FieldInput>, named: bool, what: What) -> (plan: Plan)
    ensures
        !is_struct ==> plan.outcome() == (
            Seq::<FieldPlanView>::empty(),
            seq![ProblemView { site: Site::Input, message: not_struct_message() }],
            false,
        ),
        is_struct ==> plan.outcome() == ({
            let st = plan_fields(fields@.map_values(|f: FieldInput| f@), named, what);
            (st.fields, st.problems, st.complete)
        }),
{
    if !is_struct {
        let mut problems = Vec::new();
        problems.push(problem(Site::Input, "Row can only be derived for structs"));
        let plan = Plan { fields: Vec::new(), problems, complete: false };
        assert(plan.fields@.map_values(|f: FieldPlan| f@) =~= Seq::<FieldPlanView>::empty());
        assert(plan.problems@.map_values(|p: Problem| p@) =~= seq![
            ProblemView { site: Site::Input, message: not_struct_message() },
        ]);
        return plan;
    }
    plan_struct(fields, named, what)
}

/// A `Row` derive never reads a field by name: every decided field reads a
/// column by index.
pub proof fn lemma_row_reads_by_index(fields: Seq<FieldInputView>, named: bool)
    ensures
        forall|i: int|
            0 <= i < plan_fields(fields, named, What::Row).fields.len() ==> #[trigger] plan_fields(
                fields,
                named,
                What::Row,
            ).fields[i].binding is Index,
    decreases fields.len(),
{
    if fields.len() > 0 {
        lemma_row_reads_by_index(fields.drop_last(), named);
    }
}

/// Fields without attributes, outside `named`, are decided in order onto
/// consecutive indexes: the first parameter for `Bind`, the first column for
/// `Row`, and so on, with no problem.
pub proof fn lemma_plain_fields_consecutive(fields: Seq<FieldInputView>, what: What)
    requires
        forall|i: int| 0 <= i < fields.len() ==> (#[trigger] fields[i]).attrs.len() == 0,
        fields.len() < 0x7fff_0000,
    ensures
        ({
            let st = plan_fields(fields, false, what);
            &&& st.complete
            &&& st.problems.len() == 0
            &&& st.index == fields.len() + offset_spec(what)
            &&& st.fields.len() == fields.len()
            &&& forall|i: int|
                0 <= i < fields.len() ==> #[trigger] st.fields[i].binding == BindingView::Index(
                    (i + offset_spec(what)) as i32,
                )
        }),
    decreases fields.len(),
{
    if fields.len() > 0 {
        let init = fields.drop_last();
        assert forall|i: int| 0 <= i < init.len() implies (#[trigger] init[i]).attrs.len() == 0 by {
            assert(init[i] == fields[i]);
        }
        lemma_plain_fields_consecutive(init, what);
        let last = fields.last();
        assert(last.attrs.len() == 0);
        assert(last.attrs == Seq::<FieldAttrView>::empty());
    }
}


/// A key of a `sql` attribute on the struct itself.
#[derive(Clone, Copy, Debug, PartialEq, Eq, Structural)]
pub enum TypeAttrKey {
    /// `crate = ..`: the path of this library.
    Crate,
    /// `named`: fields bind parameters named after them.
    Named,
}

/// A key of a `sql` attribute on a field.
#[derive(Clone, Copy, Debug, PartialEq, Eq, Structural)]
pub enum FieldAttrKey {
    /// `index = ..`.
    Index,
    /// `name = ..`.
    Name,
}

/// The message of a key that a `sql` attribute does not have.
pub open spec fn unknown_key_message() -> Seq<char> {
    "unknown attribute for `Row` derive"@
}

/// Whether two strings are the same text.
fn same_text(a: &str, b: &str) -> (r: bool)
    ensures
        r == (a@ == b@),
{
    let x = a.as_bytes();
    let y = b.as_bytes();
    proof {
        vstd::utf8::encode_utf8_decode_utf8(a@);
        vstd::utf8::encode_utf8_decode_utf8(b@);
    }
    if x.len() != y.len() {
        return false;
    }
    let mut i: usize = 0;
    while i < x.len()
        invariant
            i <= x@.len(),
            x@.len() == y@.len(),
            x@ == a.spec_bytes(),
            y@ == b.spec_bytes(),
            forall|j: int| 0 <= j < i ==> x@[j] == y@[j],
        decreases x@.len() - i,
    {
        if x[i] != y[i] {
            return false;
        }
        i = i + 1;
    }
    assert(x@ =~= y@);
    true
}

/// The key of a `sql` attribute on the struct: `crate` or `named`, and the
/// error message for any other.
pub fn type_attr_key(key: &str) -> (r: Result<TypeAttrKey, String>)
    ensures
        key@ == "crate"@ ==> r == Ok::<TypeAttrKey, String>(TypeAttrKey::Crate),
        key@ == "named"@ ==> r == Ok::<TypeAttrKey, String>(TypeAttrKey::Named),
        key@ != "crate"@ && key@ != "named"@ ==> (r matches Err(m) && m@ == unknown_key_message()),
{
    proof {
        reveal_strlit("crate");
        reveal_strlit("named");
        assert("crate"@[0] != "named"@[0]);
    }
    if same_text(key, "crate") {
        Ok(TypeAttrKey::Crate)
    } else if same_text(key, "named") {
        Ok(TypeAttrKey::Named)
    } else {
        Err(String::from_str("unknown attribute for `Row` derive"))
    }
}

/// The key of a `sql` attribute on a field: `index` or `name`, and the error
/// message for any other.
pub fn field_attr_key(key: &str) -> (r: Result<FieldAttrKey, String>)
    ensures
        key@ == "index"@ ==> r == Ok::<FieldAttrKey, String>(FieldAttrKey::Index),
        key@ == "name"@ ==> r == Ok::<FieldAttrKey, String>(FieldAttrKey::Name),
        key@ != "index"@ && key@ != "name"@ ==> (r matches Err(m) && m@ == unknown_key_message()),
{
    proof {
        reveal_strlit("index");
        reveal_strlit("name");
        assert("index"@.len() != "name"@.len());
    }
    if same_text(key, "index") {
        Ok(FieldAttrKey::Index)
    } else if same_text(key, "name") {
        Ok(FieldAttrKey::Name)
    } else {
        Err(String::from_str("unknown attribute for `Row` derive"))
    }
}

} // verus!
