//! Paths as the transfer sees them: strings of characters in which `/`
//! separates the components, whatever the host's own convention is.

use vstd::prelude::*;

verus! {

/// Index of the last `/` in `path`, or `-1` when it holds none.
pub open spec fn last_slash(path: Seq<char>) -> int
    decreases path.len(),
{
    if path.len() == 0 {
        -1
    } else if path.last() == '/' {
        path.len() - 1
    } else {
        last_slash(path.drop_last())
    }
}

/// The directory that holds `path`: what stands before its last separator.
/// A path without a separator has the empty parent, and the parent of a path
/// directly under the root is the root.
pub open spec fn parent_of(path: Seq<char>) -> Seq<char> {
    let k = last_slash(path);
    if k < 0 {
        Seq::empty()
    } else if k == 0 {
        path.take(1)
    } else {
        path.take(k)
    }
}

/// The last component of `path`: what follows its last separator.
pub open spec fn file_name_of(path: Seq<char>) -> Seq<char> {
    path.skip(last_slash(path) + 1)
}

/// Whether `path` ends with `suffix`.
pub open spec fn has_suffix(path: Seq<char>, suffix: Seq<char>) -> bool {
    suffix.len() <= path.len() && path.skip(path.len() - suffix.len()) == suffix
}

/// Whether `path` starts with `prefix`.
pub open spec fn has_prefix(path: Seq<char>, prefix: Seq<char>) -> bool {
    prefix.len() <= path.len() && path.take(prefix.len() as int) == prefix
}

/// Whether `path` names a file that the operating system keeps for itself,
/// which is never read nor transferred.
pub open spec fn is_os_metadata_path(path: Seq<char>) -> bool {
    has_suffix(path, ".DS_Store"@)
}

/// `last_slash` finds the separator behind which none follows.
pub proof fn lemma_last_slash(path: Seq<char>, k: int)
    requires
        -1 <= k < path.len(),
        k >= 0 ==> path[k] == '/',
        forall|j: int| k < j < path.len() ==> path[j] != '/',
    ensures
        last_slash(path) == k,
    decreases path.len(),
{
    if path.len() > 0 && k < path.len() - 1 {
        lemma_last_slash(path.drop_last(), k);
    }
}

/// `last_slash` is an index into the path, or `-1`.
pub proof fn lemma_last_slash_range(path: Seq<char>)
    ensures
        -1 <= last_slash(path) < path.len(),
    decreases path.len(),
{
    if path.len() > 0 && path.last() != '/' {
        lemma_last_slash_range(path.drop_last());
    }
}

/// The characters of `s`, one by one.
fn chars_of(s: &str) -> (v: Vec<char>)
    ensures
        v@ == s@,
{
    let n: usize = s.unicode_len();
    let mut v: Vec<char> = Vec::new();
    let mut i: usize = 0;
    while i < n
        invariant
            i <= n,
            n == s@.len(),
            v@ == s@.take(i as int),
        decreases n - i,
    {
        v.push(s.get_char(i));
        i += 1;
        assert(v@ =~= s@.take(i as int));
    }
    assert(s@.take(n as int) =~= s@);
    v
}

/// Index of the last `/` among the first `end` of `chars`, if there is one.
fn find_last_slash(chars: &Vec<char>, end: usize) -> (r: Option<usize>)
    requires
        end <= chars@.len(),
    ensures
        match r {
            Some(k) => last_slash(chars@.take(end as int)) == k && k < end,
            None => last_slash(chars@.take(end as int)) == -1,
        },
{
    let mut i: usize = end;
    while i > 0
        invariant
            i <= end <= chars@.len(),
            forall|j: int| i <= j < end ==> chars@[j] != '/',
        decreases i,
    {
        if chars[i - 1] == '/' {
            proof {
                lemma_last_slash(chars@.take(end as int), i - 1);
            }
            return Some(i - 1);
        }
        i -= 1;
    }
    proof {
        lemma_last_slash(chars@.take(end as int), -1);
    }
    None
}

/// The part of `s` from character `from` up to character `to`.
fn substring(s: &str, from: usize, to: usize) -> (r: String)
    requires
        from <= to <= s@.len(),
    ensures
        r@ == s@.subrange(from as int, to as int),
{
    s.substring_char(from, to).to_owned()
}

/// The directory that holds `path`.
pub fn parent(path: &str) -> (r: String)
    ensures
        r@ == parent_of(path@),
{
    let chars = chars_of(path);
    assert(chars@.take(chars@.len() as int) =~= path@);
    match find_last_slash(&chars, chars.len()) {
        None => String::new(),
        Some(k) => {
            if k == 0 {
                substring(path, 0, 1)
            } else {
                substring(path, 0, k)
            }
        },
    }
}

/// The last component of `path`.
pub fn file_name(path: &str) -> (r: String)
    ensures
        r@ == file_name_of(path@),
{
    let chars = chars_of(path);
    let end: usize = chars.len();
    assert(chars@.take(chars@.len() as int) =~= path@);
    let start: usize = match find_last_slash(&chars, end) {
        None => 0,
        Some(k) => k + 1,
    };
    substring(path, start, end)
}

/// Whether `chars` ends with `suffix`.
fn ends_with(chars: &Vec<char>, suffix: &Vec<char>) -> (r: bool)
    ensures
        r == has_suffix(chars@, suffix@),
{
    if suffix.len() > chars.len() {
        return false;
    }
    let shift: usize = chars.len() - suffix.len();
    let mut i: usize = 0;
    while i < suffix.len()
        invariant
            i <= suffix.len(),
            shift + suffix.len() == chars.len(),
            forall|j: int| 0 <= j < i ==> chars@[shift + j] == suffix@[j],
        decreases suffix.len() - i,
    {
        if chars[shift + i] != suffix[i] {
            assert(chars@.skip(shift as int)[i as int] != suffix@[i as int]);
            return false;
        }
        i += 1;
    }
    assert(chars@.skip(shift as int) =~= suffix@);
    true
}

/// Whether `path` names a file that is never read nor transferred: one whose
/// path ends in `.DS_Store`.
pub fn is_os_metadata(path: &str) -> (r: bool)
    ensures
        r == is_os_metadata_path(path@),
{
    let chars = chars_of(path);
    let suffix = chars_of(".DS_Store");
    ends_with(&chars, &suffix)
}

/// What is left of `path` behind `prefix`, or `None` when `path` does not
/// start with `prefix`.
pub fn strip_prefix(path: &str, prefix: &str) -> (r: Option<String>)
    ensures
        r is Some <==> has_prefix(path@, prefix@),
        r matches Some(rest) ==> rest@ == path@.skip(prefix@.len() as int),
{
    let chars = chars_of(path);
    let head = chars_of(prefix);
    if head.len() > chars.len() {
        return None;
    }
    let mut i: usize = 0;
    while i < head.len()
        invariant
            i <= head.len() <= chars.len(),
            chars@ == path@,
            head@ == prefix@,
            forall|j: int| 0 <= j < i ==> chars@[j] == head@[j],
        decreases head.len() - i,
    {
        if chars[i] != head[i] {
            assert(path@.take(prefix@.len() as int)[i as int] != prefix@[i as int]);
            assert(!has_prefix(path@, prefix@));
            return None;
        }
        i += 1;
    }
    assert(chars@.take(head.len() as int) =~= head@);
    Some(substring(path, head.len(), chars.len()))
}

/// `path` without its first character, or `None` when it is empty.
pub fn drop_first_char(path: &str) -> (r: Option<String>)
    ensures
        r is Some <==> path@.len() > 0,
        r matches Some(rest) ==> rest@ == path@.skip(1),
{
    let n: usize = path.unicode_len();
    if n == 0 {
        None
    } else {
        Some(substring(path, 1, n))
    }
}

/// `head` followed by `tail`.
pub fn append(head: &str, tail: &str) -> (r: String)
    ensures
        r@ == head@ + tail@,
{
    head.to_owned().concat(tail)
}

/// A name without a separator, stored under a directory, is found again as
/// the last component of its path.
pub proof fn lemma_file_name_of_stored(dir: Seq<char>, name: Seq<char>)
    requires
        forall|i: int| 0 <= i < name.len() ==> name[i] != '/',
    ensures
        file_name_of(dir + seq!['/'] + name) == name,
        last_slash(dir + seq!['/'] + name) == dir.len(),
{
    let path = dir + seq!['/'] + name;
    lemma_last_slash(path, dir.len() as int);
    assert(path.skip(dir.len() + 1 as int) =~= name);
}

/// The components of `path`, each with a separator in front: `path` without
/// empty components and without a separator at its end.
pub open spec fn normalized(path: Seq<char>) -> Seq<char>
    decreases path.len(),
    via normalized_decreases
{
    if path.len() == 0 {
        Seq::empty()
    } else {
        let k = last_slash(path);
        let head = if k < 0 {
            Seq::empty()
        } else {
            path.take(k)
        };
        if k + 1 < path.len() {
            normalized(head) + seq!['/'] + path.skip(k + 1)
        } else {
            normalized(head)
        }
    }
}

/// What stands in `path` before the separator in front of its last
/// component; separators at the end of `path` are passed over.
pub open spec fn before_last_component(path: Seq<char>) -> Seq<char>
    decreases path.len(),
    via before_last_component_decreases
{
    if path.len() == 0 {
        Seq::empty()
    } else {
        let k = last_slash(path);
        if k < 0 {
            Seq::empty()
        } else if k + 1 < path.len() {
            path.take(k)
        } else {
            before_last_component(path.take(k))
        }
    }
}

#[via_fn]
proof fn normalized_decreases(path: Seq<char>) {
    lemma_last_slash_range(path);
}

#[via_fn]
proof fn before_last_component_decreases(path: Seq<char>) {
    lemma_last_slash_range(path);
}

/// The directory of `path` from the root on: the components of `path` but
/// the last, each with a separator in front; the root itself when none is
/// left.
pub open spec fn rooted_parent_of(path: Seq<char>) -> Seq<char> {
    let dir = normalized(before_last_component(path));
    if dir.len() == 0 {
        seq!['/']
    } else {
        dir
    }
}

fn normalize(path: &str, chars: &Vec<char>, end: usize) -> (r: String)
    requires
        chars@ == path@,
        end <= chars@.len(),
    ensures
        r@ == normalized(path@.take(end as int)),
    decreases end,
{
    if end == 0 {
        return String::new();
    }
    let ghost prefix = path@.take(end as int);
    proof {
        reveal_strlit("/");
        assert("/"@ =~= seq!['/']);
    }
    match find_last_slash(chars, end) {
        None => {
            let tail = substring(path, 0, end);
            assert(prefix.skip(0) =~= tail@);
            assert(normalized(Seq::<char>::empty()) =~= Seq::<char>::empty());
            let r = String::from_str("/").concat(tail.as_str());
            assert(r@ =~= normalized(prefix));
            r
        },
        Some(k) => {
            let head = normalize(path, chars, k);
            assert(prefix.take(k as int) =~= path@.take(k as int));
            if k + 1 < end {
                let tail = substring(path, k + 1, end);
                assert(prefix.skip(k + 1) =~= tail@);
                let r = head.concat("/").concat(tail.as_str());
                assert(r@ =~= normalized(prefix));
                r
            } else {
                head
            }
        },
    }
}

fn before_last(path: &str, chars: &Vec<char>) -> (r: usize)
    requires
        chars@ == path@,
    ensures
        r <= path@.len(),
        path@.take(r as int) == before_last_component(path@),
{
    let mut end: usize = chars.len();
    assert(path@.take(end as int) =~= path@);
    loop
        invariant
            chars@ == path@,
            end <= chars@.len(),
            before_last_component(path@.take(end as int)) == before_last_component(path@),
        decreases end,
    {
        if end == 0 {
            assert(path@.take(0) =~= Seq::<char>::empty());
            return 0;
        }
        let ghost prefix = path@.take(end as int);
        match find_last_slash(chars, end) {
            None => {
                assert(path@.take(0) =~= Seq::<char>::empty());
                return 0;
            },
            Some(k) => {
                assert(prefix.take(k as int) =~= path@.take(k as int));
                if k + 1 < end {
                    return k;
                }
                end = k;
            },
        }
    }
}

/// The directory of `path` from the root on.
pub fn rooted_parent(path: &str) -> (r: String)
    ensures
        r@ == rooted_parent_of(path@),
{
    let chars = chars_of(path);
    let end = before_last(path, &chars);
    let dir = normalize(path, &chars, end);
    if dir.as_str().unicode_len() == 0 {
        proof {
            reveal_strlit("/");
            assert("/"@ =~= seq!['/']);
        }
        String::from_str("/")
    } else {
        dir
    }
}

} // verus!
