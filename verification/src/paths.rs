//! Paths held as UTF-8 strings and handled by the Unix rules on every
//! platform: joining, lexical normalisation of `.` and `..`, the test that a
//! path lies within a directory; and the directories that `dirs` reports.
use vstd::prelude::*;

verus! {

/// An absolute path on Unix: it begins at the root `/`.
pub open spec fn is_absolute(p: Seq<char>) -> bool {
    p.len() > 0 && p[0] == '/'
}

/// `part` joined to `base` by the Unix rules (those of `std::path::Path::join`
/// on Unix): an absolute `part` replaces the base; a relative one is appended,
/// after a separator `/` where the base is not empty and does not already end
/// with one. The library uses these rules on every platform.
pub open spec fn joined_path(base: Seq<char>, part: Seq<char>) -> Seq<char> {
    if is_absolute(part) {
        part
    } else if base.len() > 0 && base.last() != '/' {
        base + seq!['/'] + part
    } else {
        base + part
    }
}

/// Joins `part` to `base` by the Unix rules.
pub fn join_paths(base: &str, part: &str) -> (joined: String)
    ensures
        joined@ == joined_path(base@, part@),
{
    let n = base.unicode_len();
    if part.unicode_len() > 0 && part.get_char(0) == '/' {
        String::from_str(part)
    } else if n > 0 && base.get_char(n - 1) != '/' {
        let mut joined = String::from_str(base);
        proof {
            reveal_strlit("/");
        }
        joined.append("/");
        joined.append(part);
        joined
    } else {
        let mut joined = String::from_str(base);
        joined.append(part);
        joined
    }
}

/// `path` made absolute against the working directory `working_dir`.
pub open spec fn absolute_in(path: Seq<char>, working_dir: Seq<char>) -> Seq<char> {
    if is_absolute(path) {
        path
    } else {
        joined_path(working_dir, path)
    }
}

/// Makes `path` absolute: a relative path is taken from `working_dir`.
pub fn absolute_path(path: &str, working_dir: &str) -> (r: String)
    ensures
        r@ == absolute_in(path@, working_dir@),
{
    if path.unicode_len() > 0 && path.get_char(0) == '/' {
        String::from_str(path)
    } else {
        join_paths(working_dir, path)
    }
}

/// The component `.`.
pub open spec fn dot() -> Seq<char> {
    seq!['.']
}

/// The component `..`.
pub open spec fn dot_dot() -> Seq<char> {
    seq!['.', '.']
}

/// Adds the component `comp` to the normalised components `stack`: empty
/// components and `.` are dropped; `..` removes the last component, stays at
/// the root of an absolute path, and is kept at the start of a relative one.
pub open spec fn push_component(absolute: bool, stack: Seq<Seq<char>>, comp: Seq<char>) -> Seq<
    Seq<char>,
> {
    if comp.len() == 0 || comp == dot() {
        stack
    } else if comp == dot_dot() {
        if stack.len() > 0 && stack.last() != dot_dot() {
            stack.drop_last()
        } else if absolute {
            stack
        } else {
            stack.push(comp)
        }
    } else {
        stack.push(comp)
    }
}

/// Reads `p` from the left: the normalised components so far, and the
/// component being read.
pub open spec fn scan_path(absolute: bool, p: Seq<char>) -> (Seq<Seq<char>>, Seq<char>)
    decreases p.len(),
{
    if p.len() == 0 {
        (Seq::empty(), Seq::empty())
    } else {
        let prev = scan_path(absolute, p.drop_last());
        if p.last() == '/' {
            (push_component(absolute, prev.0, prev.1), Seq::empty())
        } else {
            (prev.0, prev.1.push(p.last()))
        }
    }
}

/// The components of `p` with `.` and `..` resolved lexically.
pub open spec fn normal_components(p: Seq<char>) -> Seq<Seq<char>> {
    let s = scan_path(is_absolute(p), p);
    push_component(is_absolute(p), s.0, s.1)
}

/// Whether `path` lies within the directory `base`: both are absolute or both
/// relative, and once `.` and `..` are resolved, the components of `base`
/// begin those of `path`.
pub open spec fn lies_within(path: Seq<char>, base: Seq<char>) -> bool {
    let np = normal_components(path);
    let nb = normal_components(base);
    &&& is_absolute(path) == is_absolute(base)
    &&& nb.len() <= np.len()
    &&& np.take(nb.len() as int) == nb
}

/// The character sequences of a list of components.
pub open spec fn views(v: Seq<Vec<char>>) -> Seq<Seq<char>> {
    v.map_values(|c: Vec<char>| c@)
}

fn is_dot(comp: &Vec<char>) -> (b: bool)
    ensures
        b == (comp@ == dot()),
{
    let b = comp.len() == 1 && comp[0] == '.';
    if b {
        assert(comp@ =~= dot());
    }
    b
}

fn is_dot_dot(comp: &Vec<char>) -> (b: bool)
    ensures
        b == (comp@ == dot_dot()),
{
    let b = comp.len() == 2 && comp[0] == '.' && comp[1] == '.';
    if b {
        assert(comp@ =~= dot_dot());
    }
    b
}

fn push_normal_component(absolute: bool, stack: &mut Vec<Vec<char>>, comp: Vec<char>)
    ensures
        views(final(stack)@) == push_component(absolute, views(old(stack)@), comp@),
{
    let ghost old_views = views(stack@);
    if comp.len() == 0 || is_dot(&comp) {
    } else if is_dot_dot(&comp) {
        let n = stack.len();
        if n > 0 && !is_dot_dot(&stack[n - 1]) {
            stack.pop();
            assert(views(stack@) =~= old_views.drop_last());
        } else if absolute {
        } else {
            stack.push(comp);
            assert(views(stack@) =~= old_views.push(comp@));
        }
    } else {
        stack.push(comp);
        assert(views(stack@) =~= old_views.push(comp@));
    }
}

/// The components of `path` with `.` and `..` resolved lexically.
pub fn normalize_path(path: &str) -> (r: Vec<Vec<char>>)
    ensures
        views(r@) == normal_components(path@),
{
    let n = path.unicode_len();
    let absolute = n > 0 && path.get_char(0) == '/';
    let ghost p = path@;
    let mut stack: Vec<Vec<char>> = Vec::new();
    let mut cur: Vec<char> = Vec::new();
    let mut i: usize = 0;
    assert(p.take(0) =~= Seq::<char>::empty());
    assert(views(stack@) =~= Seq::<Seq<char>>::empty());
    while i < n
        invariant
            n == p.len(),
            p == path@,
            absolute == is_absolute(p),
            i <= n,
            (views(stack@), cur@) == scan_path(absolute, p.take(i as int)),
        decreases n - i,
    {
        let c = path.get_char(i);
        assert(p.take(i + 1).drop_last() =~= p.take(i as int));
        assert(p.take(i + 1).last() == c);
        if c == '/' {
            push_normal_component(absolute, &mut stack, cur);
            cur = Vec::new();
            assert(cur@ =~= Seq::<char>::empty());
        } else {
            cur.push(c);
        }
        i = i + 1;
    }
    assert(p.take(n as int) =~= p);
    push_normal_component(absolute, &mut stack, cur);
    stack
}

fn same_chars(a: &Vec<char>, b: &Vec<char>) -> (r: bool)
    ensures
        r == (a@ == b@),
{
    if a.len() != b.len() {
        return false;
    }
    let mut i: usize = 0;
    while i < a.len()
        invariant
            a@.len() == b@.len(),
            i <= a@.len(),
            forall|j: int| 0 <= j < i ==> a@[j] == b@[j],
        decreases a@.len() - i,
    {
        if a[i] != b[i] {
            return false;
        }
        i = i + 1;
    }
    assert(a@ =~= b@);
    true
}

/// Tests whether `path` lies within the directory `base`, with `.` and `..`
/// resolved lexically in both.
pub fn path_lies_within(path: &str, base: &str) -> (r: bool)
    ensures
        r == lies_within(path@, base@),
{
    let path_absolute = path.unicode_len() > 0 && path.get_char(0) == '/';
    let base_absolute = base.unicode_len() > 0 && base.get_char(0) == '/';
    if path_absolute != base_absolute {
        return false;
    }
    let np = normalize_path(path);
    let nb = normalize_path(base);
    let ghost vp = views(np@);
    let ghost vb = views(nb@);
    if nb.len() > np.len() {
        return false;
    }
    let mut j: usize = 0;
    while j < nb.len()
        invariant
            vp == views(np@),
            vb == views(nb@),
            vp == normal_components(path@),
            vb == normal_components(base@),
            is_absolute(path@) == is_absolute(base@),
            nb@.len() <= np@.len(),
            j <= nb@.len(),
            forall|k: int| 0 <= k < j ==> vp[k] == vb[k],
        decreases nb@.len() - j,
    {
        assert(vp[j as int] == np@[j as int]@ && vb[j as int] == nb@[j as int]@);
        if !same_chars(&np[j], &nb[j]) {
            assert(vp.take(vb.len() as int)[j as int] != vb[j as int]);
            return false;
        }
        j = j + 1;
    }
    assert(vp.take(vb.len() as int) =~= vb);
    true
}

/// The home directory that the system reports. It has a type of its own, so
/// that it cannot be taken for the configuration directory.
pub(crate) struct HomeDir {
    path: String,
}

impl HomeDir {
    pub(crate) closed spec fn path_view(&self) -> Seq<char> {
        self.path@
    }

    /// The home directory as a path.
    pub(crate) fn home_path(&self) -> (p: &str)
        ensures
            p@ == self.path_view(),
    {
        self.path.as_str()
    }
}

/// The configuration directory that the system reports. It has a type of its
/// own, so that it cannot be taken for the home directory.
pub(crate) struct ConfigBaseDir {
    path: String,
}

impl ConfigBaseDir {
    pub(crate) closed spec fn path_view(&self) -> Seq<char> {
        self.path@
    }

    /// The system configuration directory as a path.
    pub(crate) fn into_config_base(self) -> (p: String)
        ensures
            p@ == self.path_view(),
    {
        self.path
    }
}

/// Calls `dirs::home_dir`, and converts the path to a string (lossily, where
/// it is not UTF-8). The answer depends on the environment of the process,
/// so nothing is stated of it.
#[verifier::external_body]
pub(crate) fn system_home_dir() -> Option<HomeDir> {
    match dirs::home_dir() {
        Some(p) => Some(HomeDir { path: p.to_string_lossy().into_owned() }),
        None => None,
    }
}

/// Calls `dirs::config_dir`, and converts the path to a string (lossily,
/// where it is not UTF-8). The answer depends on the environment of the
/// process, so nothing is stated of it.
#[verifier::external_body]
pub(crate) fn system_config_dir() -> Option<ConfigBaseDir> {
    match dirs::config_dir() {
        Some(p) => Some(ConfigBaseDir { path: p.to_string_lossy().into_owned() }),
        None => None,
    }
}

} // verus!
