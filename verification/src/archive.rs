//! Where the entries of a source archive are extracted to.
//!
//! An exported source archive holds everything under one top-level
//! directory, which is dropped. An entry whose path climbs out with `..` is
//! skipped, as is one matched by an exclusion pattern; `.` components are
//! ignored.

use vstd::prelude::*;

verus! {

/// A component of a relative path.
#[derive(Clone, Debug, PartialEq, Eq)]
pub enum PathPart {
    /// `.`.
    CurDir,
    /// `..`.
    ParentDir,
    /// Any other component.
    Normal(String),
}

/// A component of a relative path, as a mathematical object.
pub enum PartView {
    /// `.`.
    CurDir,
    /// `..`.
    ParentDir,
    /// Any other component.
    Normal(Seq<char>),
}

impl View for PathPart {
    type V = PartView;

    open spec fn view(&self) -> PartView {
        match self {
            PathPart::CurDir => PartView::CurDir,
            PathPart::ParentDir => PartView::ParentDir,
            PathPart::Normal(s) => PartView::Normal(s@),
        }
    }
}

/// Whether a name is safe to join below a directory: not empty, not `.` or
/// `..`, and without a `/`.
pub open spec fn safe_name(s: Seq<char>) -> bool {
    &&& s.len() > 0
    &&& s != "."@
    &&& s != ".."@
    &&& forall|i: int| 0 <= i < s.len() ==> s[i] != '/'
}

/// A path with the separators at its start taken off.
pub open spec fn trim_separators(s: Seq<char>) -> Seq<char>
    decreases s.len(),
{
    if s.len() > 0 && s[0] == '/' {
        trim_separators(s.drop_first())
    } else {
        s
    }
}

/// The index of the first separator of `s`, or its length when it has
/// none.
pub open spec fn separator_at(s: Seq<char>) -> nat
    decreases s.len(),
{
    if s.len() == 0 || s[0] == '/' {
        0
    } else {
        1 + separator_at(s.drop_first())
    }
}

/// The component that the text between two separators reads as.
pub open spec fn part_of(slice: Seq<char>) -> PartView {
    if slice == "."@ {
        PartView::CurDir
    } else if slice == ".."@ {
        PartView::ParentDir
    } else {
        PartView::Normal(slice)
    }
}

/// The first component of a path as `relative_path` reads it, and the rest
/// of the path after it: the separators at the start are skipped, the
/// component runs to the next separator or to the end, and the rest is what
/// follows with its leading separators skipped. A path of nothing but
/// separators has no component.
pub open spec fn first_component(path: Seq<char>) -> Option<(PartView, Seq<char>)> {
    let s = trim_separators(path);
    if s.len() == 0 {
        None
    } else {
        let i = separator_at(s) as int;
        Some((part_of(s.take(i)), trim_separators(s.skip(i))))
    }
}

/// Calls `next` on `relative_path::RelativePath::components` of the path,
/// and `as_relative_path` on what is left: as the source of the crate
/// shows, that is `first_component` of the path.
#[verifier::external_body]
fn next_component(path: &str) -> (r: Option<(PathPart, &str)>)
    ensures
        match r {
            None => first_component(path@) is None,
            Some((part, rest)) => first_component(path@) == Some((part@, rest@)),
        },
{
    let mut it = relative_path::RelativePath::new(path).components();
    let part = match it.next()? {
        relative_path::Component::CurDir => PathPart::CurDir,
        relative_path::Component::ParentDir => PathPart::ParentDir,
        relative_path::Component::Normal(s) => PathPart::Normal(s.to_string()),
    };
    Some((part, it.as_relative_path().as_str()))
}

/// Taking the separators off the start of a path leaves a suffix of it that
/// does not start with a separator.
proof fn lemma_trim_separators(s: Seq<char>)
    ensures
        trim_separators(s).len() <= s.len(),
        trim_separators(s).len() > 0 ==> trim_separators(s)[0] != '/',
    decreases s.len(),
{
    if s.len() > 0 && s[0] == '/' {
        lemma_trim_separators(s.drop_first());
    }
}

/// No separator comes before `separator_at`, which is within the text and,
/// for a text that does not start with a separator, past its start.
proof fn lemma_separator_at(s: Seq<char>)
    ensures
        separator_at(s) <= s.len(),
        forall|j: int| 0 <= j < separator_at(s) ==> s[j] != '/',
        s.len() > 0 && s[0] != '/' ==> separator_at(s) >= 1,
    decreases s.len(),
{
    if s.len() > 0 && s[0] != '/' {
        lemma_separator_at(s.drop_first());
        assert forall|j: int| 0 <= j < separator_at(s) implies s[j] != '/' by {
            if j > 0 {
                assert(s[j] == s.drop_first()[j - 1]);
            }
        }
    }
}

/// The first component of a path is never empty: what is left after it is
/// shorter than the path, and a normal component is a safe name.
pub proof fn lemma_first_component(path: Seq<char>)
    ensures
        first_component(path) matches Some((part, rest)) ==> rest.len() < path.len() && (
        part matches PartView::Normal(n) ==> safe_name(n)),
{
    let s = trim_separators(path);
    lemma_trim_separators(path);
    if s.len() > 0 {
        lemma_separator_at(s);
        let i = separator_at(s) as int;
        lemma_trim_separators(s.skip(i));
        let slice = s.take(i);
        assert forall|j: int| 0 <= j < slice.len() implies slice[j] != '/' by {
            assert(slice[j] == s[j]);
        }
    }
}

/// The components of a path, in order. (`first_component` always leaves a
/// shorter rest, by `lemma_first_component`; the guard only makes the
/// definition terminate.)
pub open spec fn components(path: Seq<char>) -> Seq<PartView>
    decreases path.len(),
{
    match first_component(path) {
        None => Seq::empty(),
        Some((part, rest)) => if rest.len() < path.len() {
            seq![part] + components(rest)
        } else {
            Seq::empty()
        },
    }
}

/// The error, if any, with which `regex::RegexSet::new` refuses a list of
/// patterns; a function of the patterns alone.
pub uninterp spec fn patterns_error(patterns: Seq<Seq<char>>) -> Option<Seq<char>>;

/// Whether any of the patterns, which `regex::RegexSet::new` accepts,
/// matches somewhere in the text; a function of the patterns and the text
/// alone.
pub uninterp spec fn patterns_match(patterns: Seq<Seq<char>>, text: Seq<char>) -> bool;

/// The patterns of a list of strings.
pub open spec fn pattern_views(patterns: Seq<String>) -> Seq<Seq<char>> {
    patterns.map_values(|p: String| p@)
}

/// Calls `regex::RegexSet::new` on the patterns and gives the text of the
/// error it reports, if any.
#[verifier::external_body]
fn check_patterns(patterns: &Vec<String>) -> (r: Option<String>)
    ensures
        match r {
            None => patterns_error(pattern_views(patterns@)) is None,
            Some(e) => patterns_error(pattern_views(patterns@)) == Some(e@),
        },
{
    regex::RegexSet::new(patterns).err().map(|e| e.to_string())
}

/// Calls `regex::RegexSet::new` on the patterns, which it accepts, and
/// `is_match` on the text.
#[verifier::external_body]
fn match_patterns(patterns: &Vec<String>, text: &str) -> (r: bool)
    requires
        patterns_error(pattern_views(patterns@)) is None,
    ensures
        r == patterns_match(pattern_views(patterns@), text@),
{
    regex::RegexSet::new(patterns).unwrap().is_match(text)
}

/// A list of exclusion patterns that `regex` accepts.
pub struct Exclusions {
    patterns: Vec<String>,
}

impl Exclusions {
    /// The patterns are accepted.
    #[verifier::type_invariant]
    closed spec fn accepted(&self) -> bool {
        patterns_error(pattern_views(self.patterns@)) is None
    }

    /// The patterns.
    pub closed spec fn patterns_spec(&self) -> Seq<Seq<char>> {
        pattern_views(self.patterns@)
    }

    /// The exclusions of the given patterns, or the error with which `regex`
    /// refuses them.
    pub fn new(patterns: Vec<String>) -> (r: Result<Exclusions, String>)
        ensures
            match r {
                Ok(e) => e.patterns_spec() == pattern_views(patterns@) && patterns_error(
                    pattern_views(patterns@),
                ) is None,
                Err(m) => patterns_error(pattern_views(patterns@)) == Some(m@),
            },
    {
        match check_patterns(&patterns) {
            Some(e) => Err(e),
            None => Ok(Exclusions { patterns }),
        }
    }

    /// Whether there are no patterns.
    pub fn is_empty(&self) -> (b: bool)
        ensures
            b == (self.patterns_spec().len() == 0),
    {
        self.patterns.len() == 0
    }

    /// Whether any pattern matches the text.
    pub fn is_match(&self, text: &str) -> (b: bool)
        ensures
            b == patterns_match(self.patterns_spec(), text@),
    {
        proof {
            use_type_invariant(self);
        }
        match_patterns(&self.patterns, text)
    }
}

/// What to do with an entry of the archive.
#[derive(Clone, Debug, PartialEq, Eq)]
pub enum EntryAction {
    /// Leave the entry out.
    Skip,
    /// Create the directory at these components below the output directory.
    CreateDir(Vec<String>),
    /// Write the file to these components below the output directory.
    WriteFile(Vec<String>),
}

/// What to do with an entry, as a mathematical object.
pub enum ActionView {
    /// Leave the entry out.
    Skip,
    /// Create the directory.
    CreateDir(Seq<Seq<char>>),
    /// Write the file.
    WriteFile(Seq<Seq<char>>),
}

impl View for EntryAction {
    type V = ActionView;

    open spec fn view(&self) -> ActionView {
        match self {
            EntryAction::Skip => ActionView::Skip,
            EntryAction::CreateDir(v) => ActionView::CreateDir(v@.map_values(|s: String| s@)),
            EntryAction::WriteFile(v) => ActionView::WriteFile(v@.map_values(|s: String| s@)),
        }
    }
}

/// The names of the normal components, in order.
pub open spec fn normal_names(parts: Seq<PartView>) -> Seq<Seq<char>>
    decreases parts.len(),
{
    if parts.len() == 0 {
        Seq::empty()
    } else {
        match parts.last() {
            PartView::Normal(s) => normal_names(parts.drop_last()).push(s),
            _ => normal_names(parts.drop_last()),
        }
    }
}

/// Whether a `..` component occurs.
pub open spec fn climbs(parts: Seq<PartView>) -> bool {
    exists|i: int| 0 <= i < parts.len() && parts[i] is ParentDir
}

/// What to do with an entry named `name` given the exclusion patterns: the
/// top-level directory is dropped; an entry with nothing below it, with a
/// `..` component, or matched by a pattern is skipped; otherwise the
/// directory is created or the file written at its normal components.
pub open spec fn entry_action(name: Seq<char>, is_dir: bool, patterns: Seq<Seq<char>>) -> ActionView {
    match first_component(name) {
        None => ActionView::Skip,
        Some((_, rest)) => {
            let parts = components(rest);
            if parts.len() == 0 || climbs(parts) || (patterns.len() > 0 && patterns_match(
                patterns,
                rest,
            )) {
                ActionView::Skip
            } else if is_dir {
                ActionView::CreateDir(normal_names(parts))
            } else {
                ActionView::WriteFile(normal_names(parts))
            }
        },
    }
}

/// Decide what to do with the entry `name` of an archive, which is a
/// directory when `is_dir`, as `entry_action` says.
pub fn plan_entry(name: &str, is_dir: bool, exclude: &Exclusions) -> (a: EntryAction)
    ensures
        a@ == entry_action(name@, is_dir, exclude.patterns_spec()),
        a matches EntryAction::CreateDir(parts) ==> forall|i: int|
            0 <= i < parts@.len() ==> safe_name(#[trigger] parts@[i]@),
        a matches EntryAction::WriteFile(parts) ==> forall|i: int|
            0 <= i < parts@.len() ==> safe_name(#[trigger] parts@[i]@),
{
    let rest = match next_component(name) {
        None => return EntryAction::Skip,
        Some((_, rest)) => rest,
    };
    let mut out: Vec<String> = Vec::new();
    let mut cur: &str = rest;
    let mut any = false;
    let ghost mut seen: Seq<PartView> = Seq::empty();
    loop
        invariant
            first_component(name@) matches Some((_, r)) && r == rest@,
            components(rest@) == seen + components(cur@),
            out@.map_values(|s: String| s@) == normal_names(seen),
            !climbs(seen),
            any == (seen.len() > 0),
            forall|i: int| 0 <= i < out@.len() ==> safe_name(#[trigger] out@[i]@),
        ensures
            components(rest@) == seen,
        decreases cur@.len(),
    {
        let next = next_component(cur);
        proof {
            lemma_first_component(cur@);
        }
        match next {
            None => {
                assert(seen + components(cur@) =~= seen);
                break;
            },
            Some((part, r)) => {
                let ghost before = seen;
                proof {
                    seen = seen.push(part@);
                    assert(components(cur@) == seq![part@] + components(r@));
                    assert(before + (seq![part@] + components(r@)) =~= seen + components(r@));
                    assert(seen.drop_last() =~= before);
                }
                match part {
                    PathPart::CurDir => {},
                    PathPart::ParentDir => {
                        proof {
                            assert(components(rest@)[before.len() as int] is ParentDir);
                            assert(climbs(components(rest@)));
                        }
                        return EntryAction::Skip;
                    },
                    PathPart::Normal(s) => {
                        let ghost o = out@;
                        out.push(s);
                        proof {
                            assert(out@.map_values(|s: String| s@) =~= o.map_values(
                                |s: String| s@,
                            ).push(seen.last()->Normal_0));
                        }
                    },
                }
                proof {
                    assert forall|i: int| 0 <= i < seen.len() implies !(seen[i] is ParentDir) by {
                        if i < before.len() {
                            assert(seen[i] == before[i]);
                        }
                    }
                }
                any = true;
                cur = r;
            },
        }
    }
    if !any {
        return EntryAction::Skip;
    }
    if !exclude.is_empty() && exclude.is_match(rest) {
        return EntryAction::Skip;
    }
    if is_dir {
        EntryAction::CreateDir(out)
    } else {
        EntryAction::WriteFile(out)
    }
}


/// Whether `t` is a single path component: not empty and without a
/// separator.
pub open spec fn plain_component(t: Seq<char>) -> bool {
    t.len() > 0 && forall|i: int| 0 <= i < t.len() ==> t[i] != '/'
}

/// The first separator after a component without separators is right
/// after it.
proof fn lemma_separator_after(t: Seq<char>, u: Seq<char>)
    requires
        forall|i: int| 0 <= i < t.len() ==> t[i] != '/',
    ensures
        separator_at(t + u) == t.len() + separator_at(u),
    decreases t.len(),
{
    if t.len() > 0 {
        assert((t + u).drop_first() =~= t.drop_first() + u);
        lemma_separator_after(t.drop_first(), u);
    } else {
        assert(t + u =~= u);
    }
}

/// A path that starts with a component and a separator reads that
/// component first, and then the rest with its leading separators skipped.
pub proof fn lemma_first_of_joined(t: Seq<char>, r: Seq<char>)
    requires
        plain_component(t),
    ensures
        first_component(t + seq!['/'] + r) == Some((part_of(t), trim_separators(r))),
{
    let s = t + seq!['/'] + r;
    assert(trim_separators(s) == s);
    lemma_separator_after(t, seq!['/'] + r);
    assert(t + seq!['/'] + r =~= t + (seq!['/'] + r));
    assert(separator_at(seq!['/'] + r) == 0);
    assert(s.take(t.len() as int) =~= t);
    assert(s.skip(t.len() as int) =~= seq!['/'] + r);
    assert((seq!['/'] + r).drop_first() =~= r);
}

/// A path that is a single component reads as that component, with
/// nothing after it.
proof fn lemma_first_of_single(t: Seq<char>)
    requires
        plain_component(t),
    ensures
        first_component(t) == Some((part_of(t), Seq::<char>::empty())),
        components(t) == seq![part_of(t)],
{
    assert(trim_separators(t) == t);
    lemma_separator_after(t, Seq::empty());
    assert(t + Seq::<char>::empty() =~= t);
    assert(t.take(t.len() as int) =~= t);
    assert(t.skip(t.len() as int) =~= Seq::<char>::empty());
    assert(components(Seq::<char>::empty()) =~= Seq::<PartView>::empty());
    assert(seq![part_of(t)] + Seq::<PartView>::empty() =~= seq![part_of(t)]);
}

/// The top-level directory of an archive is dropped whatever its name: two
/// entries that differ only in it are handled alike.
pub proof fn lemma_top_directory_is_dropped(
    t1: Seq<char>,
    t2: Seq<char>,
    r: Seq<char>,
    is_dir: bool,
    patterns: Seq<Seq<char>>,
)
    requires
        plain_component(t1),
        plain_component(t2),
    ensures
        entry_action(t1 + seq!['/'] + r, is_dir, patterns) == entry_action(
            t2 + seq!['/'] + r,
            is_dir,
            patterns,
        ),
{
    lemma_first_of_joined(t1, r);
    lemma_first_of_joined(t2, r);
}

/// An entry whose path climbs out of the top-level directory with `..` is
/// skipped.
pub proof fn lemma_climbing_entry_is_skipped(t: Seq<char>, r: Seq<char>, is_dir: bool, patterns: Seq<Seq<char>>)
    requires
        plain_component(t),
    ensures
        entry_action(t + seq!['/'] + ("../"@ + r), is_dir, patterns) == ActionView::Skip,
{
    reveal_strlit("../");
    reveal_strlit("..");
    let rest = "../"@ + r;
    lemma_first_of_joined(t, rest);
    assert(trim_separators(rest) == rest);
    assert(".."@ =~= seq!['.', '.']);
    assert(rest =~= ".."@ + seq!['/'] + r);
    assert(plain_component(".."@));
    lemma_first_of_joined(".."@, r);
    lemma_first_component(rest);
    reveal_strlit(".");
    assert(".."@.len() != "."@.len());
    assert(part_of(".."@) == PartView::ParentDir);
    assert(first_component(rest) == Some((PartView::ParentDir, trim_separators(r))));
    let parts = components(rest);
    assert(parts == seq![PartView::ParentDir] + components(trim_separators(r)));
    assert(parts[0] == PartView::ParentDir);
    assert(climbs(parts));
}

/// A file two levels below the top-level directory, with no exclusion
/// patterns, is written at exactly those two names.
pub proof fn lemma_file_is_written_at_its_names(t: Seq<char>, a: Seq<char>, b: Seq<char>)
    requires
        plain_component(t),
        safe_name(a),
        safe_name(b),
    ensures
        entry_action(t + seq!['/'] + (a + seq!['/'] + b), false, Seq::empty()) == ActionView::WriteFile(
            seq![a, b],
        ),
{
    let rest = a + seq!['/'] + b;
    lemma_first_of_joined(t, rest);
    assert(plain_component(a));
    assert(plain_component(b));
    assert(a[0] != '/');
    assert(rest[0] == a[0]);
    assert(trim_separators(rest) == rest);
    lemma_first_of_joined(a, b);
    assert(b[0] != '/');
    assert(trim_separators(b) == b);
    lemma_first_of_single(b);
    assert(part_of(a) == PartView::Normal(a));
    assert(part_of(b) == PartView::Normal(b));
    let parts = components(rest);
    assert(parts =~= seq![PartView::Normal(a), PartView::Normal(b)]);
    assert(!climbs(parts));
    assert(seq![PartView::Normal(a), PartView::Normal(b)].drop_last() =~= seq![PartView::Normal(a)]);
    assert(seq![PartView::Normal(a)].drop_last() =~= Seq::<PartView>::empty());
    reveal_with_fuel(normal_names, 3);
    assert(normal_names(parts) =~= seq![a, b]);
}

/// An entry whose path below the top-level directory matches one of the
/// exclusion patterns is skipped.
pub proof fn lemma_excluded_entry_is_skipped(t: Seq<char>, r: Seq<char>, is_dir: bool, patterns: Seq<Seq<char>>)
    requires
        plain_component(t),
        patterns.len() > 0,
        patterns_match(patterns, trim_separators(r)),
    ensures
        entry_action(t + seq!['/'] + r, is_dir, patterns) == ActionView::Skip,
{
    lemma_first_of_joined(t, r);
}

/// A directory entry is created at the same names at which a file entry of
/// the same path would be written.
pub proof fn lemma_directories_and_files_alike(name: Seq<char>, patterns: Seq<Seq<char>>)
    ensures
        entry_action(name, false, patterns) matches ActionView::WriteFile(n) ==> entry_action(
            name,
            true,
            patterns,
        ) == ActionView::CreateDir(n),
        entry_action(name, false, patterns) is Skip <==> entry_action(name, true, patterns) is Skip,
{
}

} // verus!
