//! Path handling for the origin private file system.
//!
//! The origin private file system holds one root per origin and has no
//! symbolic links, so a path is nothing but the list of names that lead
//! from that root to an entry. A leading slash is accepted and ignored,
//! because there is no second root to be absolute against.

use vstd::prelude::*;
use crate::fs::error::{ErrorKind, IoError};

verus! {

/// One component of a path, as the standard library splits it.
#[derive(Clone, Debug, PartialEq, Eq)]
pub enum PathComponent {
    /// The leading slash of an absolute path.
    RootDir,
    /// A `.`.
    CurDir,
    /// A `..`.
    ParentDir,
    /// A name.
    Normal(String),
    /// A name that is not valid UTF-8.
    NotUnicode,
    /// A drive prefix such as `C:`, which only Windows paths carry.
    Prefix,
}

/// A path component as a mathematical value.
pub ghost enum PathStep {
    Root,
    Current,
    Parent,
    Name(Seq<char>),
    NotUnicode,
    Prefix,
}

impl View for PathComponent {
    type V = PathStep;

    open spec fn view(&self) -> PathStep {
        match self {
            PathComponent::RootDir => PathStep::Root,
            PathComponent::CurDir => PathStep::Current,
            PathComponent::ParentDir => PathStep::Parent,
            PathComponent::Normal(name) => PathStep::Name(name@),
            PathComponent::NotUnicode => PathStep::NotUnicode,
            PathComponent::Prefix => PathStep::Prefix,
        }
    }
}

/// Why a path cannot name an entry of the origin private file system.
#[derive(Clone, Copy, Debug, PartialEq, Eq, Structural)]
pub enum PathFailure {
    /// A `..` climbs above the root.
    LeadsOut,
    /// A name is not valid UTF-8.
    NotUnicode,
    /// The path carries a drive prefix.
    DrivePrefix,
    /// The path names the root itself, where an entry in it was wanted.
    NamesRoot,
}

/// The message of the error for each failure.
pub open spec fn spec_failure_message(failure: PathFailure) -> Seq<char> {
    match failure {
        PathFailure::LeadsOut => "path leads out of the origin private file system"@,
        PathFailure::NotUnicode => "path is not valid UTF-8"@,
        PathFailure::DrivePrefix => "path carries a drive prefix, which the origin private file system has no room for"@,
        PathFailure::NamesRoot => "path names the root itself, not an entry in it"@,
    }
}

/// Returns the message of the error for `failure`.
pub fn failure_message(failure: PathFailure) -> (message: &'static str)
    ensures
        message@ == spec_failure_message(failure),
{
    match failure {
        PathFailure::LeadsOut => "path leads out of the origin private file system",
        PathFailure::NotUnicode => "path is not valid UTF-8",
        PathFailure::DrivePrefix => "path carries a drive prefix, which the origin private file system has no room for",
        PathFailure::NamesRoot => "path names the root itself, not an entry in it",
    }
}

/// The names that lead from the root to where `steps` end up, walking them
/// in order: the root and `.` stay put, `..` goes back one name, a name goes
/// one further. The first step that cannot be taken ends the walk.
pub open spec fn spec_walk(steps: Seq<PathStep>) -> Result<Seq<Seq<char>>, PathFailure>
    decreases steps.len(),
{
    if steps.len() == 0 {
        Ok(Seq::empty())
    } else {
        match spec_walk(steps.drop_last()) {
            Err(failure) => Err(failure),
            Ok(names) => match steps.last() {
                PathStep::Root => Ok(names),
                PathStep::Current => Ok(names),
                PathStep::Parent => if names.len() == 0 {
                    Err(PathFailure::LeadsOut)
                } else {
                    Ok(names.drop_last())
                },
                PathStep::Name(name) => Ok(names.push(name)),
                PathStep::NotUnicode => Err(PathFailure::NotUnicode),
                PathStep::Prefix => Err(PathFailure::DrivePrefix),
            },
        }
    }
}

/// The steps of a path.
pub open spec fn spec_steps(components: Seq<PathComponent>) -> Seq<PathStep> {
    components.map_values(|c: PathComponent| c@)
}

/// The names in a list of strings.
pub open spec fn spec_names(names: Seq<String>) -> Seq<Seq<char>> {
    names.map_values(|n: String| n@)
}

/// Whether `e` is the error that reports `failure`.
pub open spec fn reports(e: IoError, failure: PathFailure) -> bool {
    e.spec_kind() == ErrorKind::InvalidInput && e.spec_message() == spec_failure_message(failure)
}

/// Splits a path into the names that lead from the root to an entry.
///
/// `..` is resolved here rather than passed on. That is safe because the
/// origin private file system has no symbolic links, so no name can lead
/// somewhere other than where it reads.
pub fn split_path(components: &Vec<PathComponent>) -> (split: Result<Vec<String>, IoError>)
    ensures
        match spec_walk(spec_steps(components@)) {
            Ok(names) => split matches Ok(found) && spec_names(found@) == names,
            Err(failure) => split matches Err(e) && reports(e, failure),
        },
{
    let mut names: Vec<String> = Vec::new();
    let mut i: usize = 0;
    assert(spec_steps(components@.take(0)) =~= Seq::<PathStep>::empty());
    assert(spec_names(names@) =~= Seq::<Seq<char>>::empty());
    while i < components.len()
        invariant
            i <= components.len(),
            spec_walk(spec_steps(components@.take(i as int))) == Ok::<
                Seq<Seq<char>>,
                PathFailure,
            >(spec_names(names@)),
        decreases components.len() - i,
    {
        let ghost before = names@;
        let ghost prefix = spec_steps(components@.take(i as int));
        let ghost next = spec_steps(components@.take(i + 1));
        assert(next.drop_last() =~= prefix);
        assert(next.last() == components@[i as int]@);
        match &components[i] {
            PathComponent::RootDir => {},
            PathComponent::CurDir => {},
            PathComponent::ParentDir => {
                if names.len() == 0 {
                    proof {
                        assert(components@.take(i + 1) =~= components@.take(i + 1));
                        lemma_walk_failure_persists(components@, (i + 1) as nat);
                    }
                    return Err(IoError::new(ErrorKind::InvalidInput, failure_message(PathFailure::LeadsOut)));
                }
                names.pop();
                assert(spec_names(names@) =~= spec_names(before).drop_last());
            },
            PathComponent::Normal(name) => {
                names.push(name.clone());
                assert(spec_names(names@) =~= spec_names(before).push(name@));
            },
            PathComponent::NotUnicode => {
                proof {
                    lemma_walk_failure_persists(components@, (i + 1) as nat);
                }
                return Err(IoError::new(ErrorKind::InvalidInput, failure_message(PathFailure::NotUnicode)));
            },
            PathComponent::Prefix => {
                proof {
                    lemma_walk_failure_persists(components@, (i + 1) as nat);
                }
                return Err(IoError::new(ErrorKind::InvalidInput, failure_message(PathFailure::DrivePrefix)));
            },
        }
        i = i + 1;
    }
    assert(components@.take(components@.len() as int) =~= components@);
    Ok(names)
}

/// A `..` right after a name takes that name back: whatever names a walk
/// has reached, going into one more name and then up again reaches the
/// same names.
pub proof fn lemma_a_parent_cancels_the_name_before_it(steps: Seq<PathStep>, name: Seq<char>)
    requires
        spec_walk(steps) is Ok,
    ensures
        spec_walk(steps.push(PathStep::Name(name)).push(PathStep::Parent)) == spec_walk(steps),
{
    let into = steps.push(PathStep::Name(name));
    let back = into.push(PathStep::Parent);
    assert(back.drop_last() =~= into);
    assert(into.drop_last() =~= steps);
    let names = spec_walk(steps)->Ok_0;
    assert(into.last() == PathStep::Name(name));
    assert(back.last() == PathStep::Parent);
    assert(spec_walk(into) == Ok::<Seq<Seq<char>>, PathFailure>(names.push(name)));
    assert(names.push(name).drop_last() =~= names);
    assert(spec_walk(back) == Ok::<Seq<Seq<char>>, PathFailure>(names.push(name).drop_last()));
}

/// A `..` leads out only from the root: after a walk that reached some
/// names, going up fails exactly when no name was reached, and otherwise
/// leaves the last name behind.
pub proof fn lemma_a_parent_fails_only_at_the_root(steps: Seq<PathStep>)
    requires
        spec_walk(steps) is Ok,
    ensures
        spec_walk(steps.push(PathStep::Parent)) is Err <==> spec_walk(steps) == Ok::<
            Seq<Seq<char>>,
            PathFailure,
        >(Seq::empty()),
        spec_walk(steps.push(PathStep::Parent)) is Err ==> spec_walk(steps.push(PathStep::Parent))
            == Err::<Seq<Seq<char>>, PathFailure>(PathFailure::LeadsOut),
        spec_walk(steps.push(PathStep::Parent)) matches Ok(up) ==> up.push(
            spec_walk(steps)->Ok_0.last(),
        ) == spec_walk(steps)->Ok_0,
{
    let up = steps.push(PathStep::Parent);
    assert(up.drop_last() =~= steps);
    let names = spec_walk(steps)->Ok_0;
    if names.len() == 0 {
        assert(names =~= Seq::<Seq<char>>::empty());
    } else {
        assert(names.drop_last().push(names.last()) =~= names);
    }
}

/// Once a walk fails at some step, walking further steps keeps that failure.
proof fn lemma_walk_failure_persists(components: Seq<PathComponent>, n: nat)
    requires
        n <= components.len(),
        spec_walk(spec_steps(components.take(n as int))) is Err,
    ensures
        spec_walk(spec_steps(components)) == spec_walk(spec_steps(components.take(n as int))),
    decreases components.len() - n,
{
    if n < components.len() {
        let longer = spec_steps(components.take((n + 1) as int));
        assert(longer.drop_last() =~= spec_steps(components.take(n as int)));
        lemma_walk_failure_persists(components, n + 1);
    } else {
        assert(components.take(n as int) =~= components);
    }
}

/// Splits a path into the directories that lead to an entry
/// and the name of the entry itself.
pub fn split_parent(components: &Vec<PathComponent>) -> (split: Result<(Vec<String>, String), IoError>)
    ensures
        match spec_walk(spec_steps(components@)) {
            Ok(names) => if names.len() == 0 {
                split matches Err(e) && reports(e, PathFailure::NamesRoot)
            } else {
                split matches Ok((directories, name)) && spec_names(directories@)
                    == names.drop_last() && name@ == names.last()
            },
            Err(failure) => split matches Err(e) && reports(e, failure),
        },
{
    let mut names = match split_path(components) {
        Ok(names) => names,
        Err(e) => return Err(e),
    };
    let ghost all = spec_names(names@);
    match names.pop() {
        Some(name) => {
            assert(spec_names(names@) =~= all.drop_last());
            Ok((names, name))
        },
        None => Err(IoError::new(ErrorKind::InvalidInput, failure_message(PathFailure::NamesRoot))),
    }
}

/// The path that `path` becomes when `name` is pushed onto it, the way the
/// standard library does it where `/` is the only separator: an absolute
/// name replaces the path, and a relative one is joined to it by a slash
/// unless the path is empty or already ends in one.
pub open spec fn spec_push(path: Seq<char>, name: Seq<char>) -> Seq<char> {
    if name.len() > 0 && name[0] == '/' {
        name
    } else if path.len() > 0 && path.last() != '/' {
        path + seq!['/'] + name
    } else {
        path + name
    }
}

/// The path that `names` spell when pushed onto `path` one after another.
pub open spec fn spec_push_all(path: Seq<char>, names: Seq<Seq<char>>) -> Seq<char>
    decreases names.len(),
{
    if names.len() == 0 {
        path
    } else {
        spec_push(spec_push_all(path, names.drop_last()), names.last())
    }
}

/// Pushes `name` onto `path`; see [`spec_push`].
pub fn push_name(path: &mut String, name: &str)
    ensures
        final(path)@ == spec_push(old(path)@, name@),
{
    let name_len = name.unicode_len();
    if name_len > 0 && name.get_char(0) == '/' {
        *path = name.to_owned();
        return;
    }
    let path_len = path.as_str().unicode_len();
    if path_len > 0 && path.as_str().get_char(path_len - 1) != '/' {
        path.append("/");
    }
    path.append(name);
    proof {
        reveal_strlit("/");
    }
}

/// Joins names back into the one form that names an entry:
/// each pushed in turn onto the root.
pub fn join_names(names: &Vec<String>) -> (path: String)
    ensures
        path@ == spec_push_all("/"@, spec_names(names@)),
{
    let mut path = "/".to_owned();
    let mut i: usize = 0;
    while i < names.len()
        invariant
            i <= names.len(),
            path@ == spec_push_all("/"@, spec_names(names@.take(i as int))),
        decreases names.len() - i,
    {
        let ghost before = spec_names(names@.take(i as int));
        push_name(&mut path, names[i].as_str());
        assert(spec_names(names@.take(i + 1)).drop_last() =~= before);
        i = i + 1;
    }
    assert(names@.take(names@.len() as int) =~= names@);
    path
}

/// Names that carry no slash join into a path that spells each of them
/// after a slash: `/a/b/c` for `a`, `b` and `c`.
pub proof fn lemma_plain_names_join_with_slashes(names: Seq<Seq<char>>)
    requires
        forall|i: int| 0 <= i < names.len() ==> names[i].len() > 0 && !names[i].contains('/'),
    ensures
        names.len() > 0 ==> spec_push_all("/"@, names) == spec_slashed(names),
        names.len() == 0 ==> spec_push_all("/"@, names) == "/"@,
    decreases names.len(),
{
    reveal_strlit("/");
    if names.len() > 1 {
        lemma_plain_names_join_with_slashes(names.drop_last());
        let before = spec_slashed(names.drop_last());
        let last = names.last();
        assert(before.last() == names.drop_last().last().last());
        assert(names.drop_last().last().len() > 0);
        assert(before.last() != '/') by {
            let prior = names.drop_last().last();
            assert(names.drop_last().last() == names[names.len() - 2]);
            assert(prior[prior.len() - 1] != '/') by {
                if prior[prior.len() - 1] == '/' {
                    assert(prior.contains('/'));
                }
            }
        }
        assert(last.len() > 0 && last[0] != '/') by {
            assert(last == names[names.len() - 1]);
            if last[0] == '/' {
                assert(last.contains('/'));
            }
        }
    } else if names.len() == 1 {
        assert(names.drop_last() =~= Seq::<Seq<char>>::empty());
        let last = names.last();
        assert(last == names[0]);
        assert(last[0] != '/') by {
            if last[0] == '/' {
                assert(last.contains('/'));
            }
        }
        assert(spec_push_all("/"@, names.drop_last()) == "/"@);
        assert(spec_slashed(names.drop_last()) == Seq::<char>::empty());
        assert(spec_slashed(names) =~= seq!['/'] + last);
    }
}

/// The steps that the standard library splits a path spelled from the
/// root and `names` into: the root, then one name step for each name.
pub open spec fn spec_joined_steps(names: Seq<Seq<char>>) -> Seq<PathStep> {
    seq![PathStep::Root] + names.map_values(|name: Seq<char>| PathStep::Name(name))
}

/// Joining names and splitting the path again gives the names back: names
/// that are each a single path component (not empty, no slash, not `.` or
/// `..`) join into the root followed by each name after a slash, which
/// splits into the root and one name step for each name, and walking those
/// steps leads to exactly the names that were joined.
pub proof fn lemma_joined_names_split_back(names: Seq<Seq<char>>)
    requires
        forall|i: int|
            0 <= i < names.len() ==> {
                &&& names[i].len() > 0
                &&& !names[i].contains('/')
                &&& names[i] != "."@
                &&& names[i] != ".."@
            },
    ensures
        names.len() > 0 ==> spec_push_all("/"@, names) == spec_slashed(names),
        names.len() == 0 ==> spec_push_all("/"@, names) == "/"@,
        spec_walk(spec_joined_steps(names)) == Ok::<Seq<Seq<char>>, PathFailure>(names),
{
    lemma_plain_names_join_with_slashes(names);
    lemma_walk_joined_steps(names);
}

/// Walking the root and then a name step for each of `names` leads to
/// those names.
proof fn lemma_walk_joined_steps(names: Seq<Seq<char>>)
    ensures
        spec_walk(spec_joined_steps(names)) == Ok::<Seq<Seq<char>>, PathFailure>(names),
    decreases names.len(),
{
    let steps = spec_joined_steps(names);
    if names.len() == 0 {
        assert(steps.drop_last() =~= Seq::<PathStep>::empty());
        assert(steps.last() == PathStep::Root);
        assert(spec_walk(steps.drop_last()) == Ok::<Seq<Seq<char>>, PathFailure>(Seq::empty()));
        assert(names =~= Seq::<Seq<char>>::empty());
    } else {
        lemma_walk_joined_steps(names.drop_last());
        assert(steps.drop_last() =~= spec_joined_steps(names.drop_last()));
        assert(steps.last() == PathStep::Name(names.last()));
        assert(names.drop_last().push(names.last()) =~= names);
    }
}

/// Each name after a slash: `/a/b/c` for `a`, `b` and `c`.
pub open spec fn spec_slashed(names: Seq<Seq<char>>) -> Seq<char>
    decreases names.len(),
{
    if names.len() == 0 {
        Seq::empty()
    } else {
        spec_slashed(names.drop_last()) + seq!['/'] + names.last()
    }
}

} // verus!
