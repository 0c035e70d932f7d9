//! The environment of the backend process: what it inherits, and what the
//! configuration assigns to it.

use vstd::prelude::*;
use crate::text::same_text;

verus! {

/// The kind of system that the backend runs on.
#[derive(Debug, Clone, Copy, PartialEq, Eq, Structural)]
pub enum Platform {
    Unix,
    Windows,
    Other,
}

/// The search path of a backend where the host has none.
pub open spec fn fallback_path_of(platform: Platform) -> Seq<char> {
    match platform {
        Platform::Unix => "/usr/local/bin:/usr/bin:/bin"@,
        Platform::Windows => "C:\\Windows\\System32;C:\\Windows"@,
        Platform::Other => ""@,
    }
}

/// The search path of a backend where the host has none.
pub fn fallback_exec_path(platform: Platform) -> (path: &'static str)
    ensures
        path@ == fallback_path_of(platform),
{
    match platform {
        Platform::Unix => "/usr/local/bin:/usr/bin:/bin",
        Platform::Windows => "C:\\Windows\\System32;C:\\Windows",
        Platform::Other => "",
    }
}

/// What the host knows: its variables, and what stands in for those that every
/// backend gets.
pub struct Host<V> {
    pub platform: Platform,
    pub variables: Vec<(String, V)>,
    pub fallback_path: V,
    pub home_dir: Option<V>,
    pub temp_dir: V,
}

/// The value that a list gives a name first; `None` where it does not name it.
pub open spec fn first_of<V>(list: Seq<(String, V)>, name: Seq<char>) -> Option<V>
    decreases list.len(),
{
    if list.len() == 0 {
        None
    } else if list[0].0@ == name {
        Some(list[0].1)
    } else {
        first_of(list.drop_first(), name)
    }
}

/// The value that a list gives a name last: the one that stays where the list is
/// carried out from its start.
pub open spec fn last_of<V>(list: Seq<(String, V)>, name: Seq<char>) -> Option<V>
    decreases list.len(),
{
    if list.len() == 0 {
        None
    } else if list.last().0@ == name {
        Some(list.last().1)
    } else {
        last_of(list.drop_last(), name)
    }
}

/// The variables that a backend on Windows takes over from the host.
pub open spec fn is_windows_name(name: Seq<char>) -> bool {
    ||| name == "USERPROFILE"@
    ||| name == "APPDATA"@
    ||| name == "LOCALAPPDATA"@
    ||| name == "TEMP"@
    ||| name == "TMP"@
    ||| name == "SYSTEMROOT"@
    ||| name == "COMSPEC"@
    ||| name == "PATHEXT"@
}

/// The variables that a backend may have without being assigned them.
pub open spec fn is_safe_name(platform: Platform, name: Seq<char>) -> bool {
    ||| name == "PATH"@
    ||| name == "HOME"@
    ||| name == "TMPDIR"@
    ||| platform == Platform::Windows && is_windows_name(name)
}

/// The value where there is one, and else the other.
pub open spec fn or<V>(value: Option<V>, other: Option<V>) -> Option<V> {
    match value {
        Some(v) => Some(v),
        None => other,
    }
}

/// The value that a variable has in a backend that is assigned nothing.
pub open spec fn default_variable<V>(host: Host<V>, name: Seq<char>) -> Option<V> {
    let inherited = first_of(host.variables@, name);
    if name == "PATH"@ {
        or(inherited, Some(host.fallback_path))
    } else if name == "HOME"@ {
        or(inherited, host.home_dir)
    } else if name == "TMPDIR"@ {
        or(inherited, Some(host.temp_dir))
    } else if is_safe_name(host.platform, name) {
        inherited
    } else {
        None
    }
}

/// The value that a variable has in the backend: the one that it is assigned, or
/// else the default. Names are taken as they are written. A system that takes
/// several spellings for one variable, as Windows does, lets the last of them
/// stand (see `assignments_come_last`).
pub open spec fn child_variable<V>(
    host: Host<V>,
    backend: Seq<(String, V)>,
    name: Seq<char>,
) -> Option<V> {
    or(last_of(backend, name), default_variable(host, name))
}

/// Every name on the list is safe.
pub open spec fn names_only_safe<V>(platform: Platform, list: Seq<(String, &V)>) -> bool {
    forall|i: int| 0 <= i < list.len() ==> is_safe_name(platform, (#[trigger] list[i]).0@)
}

/// The list is safe variables first, and then the assignments of the backend, in
/// their order. So the backend has the last word on every variable that it
/// assigns, however the system compares names.
pub open spec fn assignments_come_last<V>(
    platform: Platform,
    list: Seq<(String, &V)>,
    backend: Seq<(String, V)>,
) -> bool {
    let start = list.len() - backend.len();
    &&& start >= 0
    &&& names_only_safe(platform, list.take(start))
    &&& forall|i: int|
        start <= i < list.len() ==> (#[trigger] list[i]).0@ == backend[i - start].0@ && *list[i].1
            == backend[i - start].1
}

/// The variables that are asked of the host.
pub fn safe_names(platform: Platform) -> (names: Vec<&'static str>)
    ensures
        forall|name: Seq<char>|
            is_safe_name(platform, name) <==> exists|i: int|
                0 <= i < names@.len() && (#[trigger] names@[i])@ == name,
{
    let mut names: Vec<&'static str> = Vec::new();
    names.push("PATH");
    names.push("HOME");
    names.push("TMPDIR");
    if platform == Platform::Windows {
        names.push("USERPROFILE");
        names.push("APPDATA");
        names.push("LOCALAPPDATA");
        names.push("TEMP");
        names.push("TMP");
        names.push("SYSTEMROOT");
        names.push("COMSPEC");
        names.push("PATHEXT");
    }
    assert forall|name: Seq<char>| is_safe_name(platform, name) implies exists|i: int|
        0 <= i < names@.len() && (#[trigger] names@[i])@ == name by {
        assert(names@[0]@ == "PATH"@ && names@[1]@ == "HOME"@ && names@[2]@ == "TMPDIR"@);
        if platform == Platform::Windows {
            assert(names@[3]@ == "USERPROFILE"@ && names@[4]@ == "APPDATA"@);
            assert(names@[5]@ == "LOCALAPPDATA"@ && names@[6]@ == "TEMP"@);
            assert(names@[7]@ == "TMP"@ && names@[8]@ == "SYSTEMROOT"@);
            assert(names@[9]@ == "COMSPEC"@ && names@[10]@ == "PATHEXT"@);
        }
    }
    names
}

/// The value that a list gives a name first.
fn find<'a, V>(list: &'a Vec<(String, V)>, name: &str) -> (value: Option<&'a V>)
    ensures
        match value {
            Some(v) => first_of(list@, name@) == Some(*v),
            None => first_of(list@, name@) is None,
        },
{
    let mut i: usize = 0;
    assert(list@.skip(0) == list@);
    while i < list.len()
        invariant
            i <= list.len(),
            first_of(list@, name@) == first_of(list@.skip(i as int), name@),
        decreases list.len() - i,
    {
        assert(list@.skip(i as int).drop_first() == list@.skip(i + 1));
        if same_text(list[i].0.as_str(), name) {
            return Some(&list[i].1);
        }
        i += 1;
    }
    None
}

/// The value that carrying out a list of assignments leaves a name with.
pub open spec fn assigned<V>(list: Seq<(String, &V)>, name: Seq<char>) -> Option<V> {
    match last_of(list, name) {
        Some(v) => Some(*v),
        None => None,
    }
}

/// Adds an assignment to a list.
fn assign<'a, V>(list: &mut Vec<(String, &'a V)>, name: &str, value: &'a V)
    ensures
        forall|n: Seq<char>| #[trigger]
            assigned(final(list)@, n) == if n == name@ {
                Some(*value)
            } else {
                assigned(old(list)@, n)
            },
        final(list)@.len() == old(list)@.len() + 1,
        final(list)@.drop_last() == old(list)@,
        final(list)@.last().0@ == name@,
        final(list)@.last().1 == value,
        forall|p: Platform|
            names_only_safe(p, old(list)@) && is_safe_name(p, name@) ==> #[trigger] names_only_safe(
                p,
                final(list)@,
            ),
{
    list.push((name.to_owned(), value));
    assert forall|p: Platform|
        names_only_safe(p, old(list)@) && is_safe_name(p, name@) implies #[trigger] names_only_safe(
        p,
        list@,
    ) by {
        assert forall|i: int| 0 <= i < list@.len() implies is_safe_name(
            p,
            (#[trigger] list@[i]).0@,
        ) by {
            if i < old(list)@.len() {
                assert(list@[i] == old(list)@[i]);
            }
        }
    }
    assert(list@.drop_last() == old(list)@);
}

/// Adds the host's value of a name to a list, if the host has one.
fn inherit<'a, V>(list: &mut Vec<(String, &'a V)>, host: &'a Host<V>, name: &str)
    ensures
        forall|n: Seq<char>| #[trigger]
            assigned(final(list)@, n) == if n == name@ {
                or(first_of(host.variables@, n), assigned(old(list)@, n))
            } else {
                assigned(old(list)@, n)
            },
        forall|p: Platform|
            names_only_safe(p, old(list)@) && is_safe_name(p, name@) ==> #[trigger] names_only_safe(
                p,
                final(list)@,
            ),
{
    match find(&host.variables, name) {
        Some(value) => assign(list, name, value),
        None => {},
    }
}

/// The assignments that make up the environment of a backend, which starts from
/// an empty one. They are to be carried out in order.
pub fn configure_child_environment<'a, V>(
    host: &'a Host<V>,
    backend: &'a Vec<(String, V)>,
) -> (list: Vec<(String, &'a V)>)
    ensures
        forall|name: Seq<char>| #[trigger]
            assigned(list@, name) == child_variable(*host, backend@, name),
        assignments_come_last(host.platform, list@, backend@),
{
    proof {
        reveal_strlit("PATH");
        reveal_strlit("HOME");
        reveal_strlit("TMPDIR");
        assert("PATH"@[0] != "HOME"@[0]);
        assert("TMPDIR"@.len() != "HOME"@.len());
        assert("TMPDIR"@.len() != "PATH"@.len());
    }
    let mut list: Vec<(String, &'a V)> = Vec::new();
    assign(&mut list, "PATH", &host.fallback_path);
    inherit(&mut list, host, "PATH");
    match &host.home_dir {
        Some(dir) => assign(&mut list, "HOME", dir),
        None => {},
    }
    inherit(&mut list, host, "HOME");
    assign(&mut list, "TMPDIR", &host.temp_dir);
    inherit(&mut list, host, "TMPDIR");
    if host.platform == Platform::Windows {
        inherit(&mut list, host, "USERPROFILE");
        inherit(&mut list, host, "APPDATA");
        inherit(&mut list, host, "LOCALAPPDATA");
        inherit(&mut list, host, "TEMP");
        inherit(&mut list, host, "TMP");
        inherit(&mut list, host, "SYSTEMROOT");
        inherit(&mut list, host, "COMSPEC");
        inherit(&mut list, host, "PATHEXT");
    }
    let ghost base = list@;
    assert(names_only_safe(host.platform, base));
    assert forall|name: Seq<char>| #[trigger]
        assigned(base, name) == default_variable(*host, name) by {}
    let mut i: usize = 0;
    assert(backend@.take(0) == Seq::<(String, V)>::empty());
    while i < backend.len()
        invariant
            i <= backend.len(),
            list@.len() == base.len() + i,
            list@.take(base.len() as int) == base,
            forall|j: int|
                base.len() <= j < list@.len() ==> (#[trigger] list@[j]).0@ == backend@[j
                    - base.len()].0@ && *list@[j].1 == backend@[j - base.len()].1,
            forall|name: Seq<char>| #[trigger]
                assigned(list@, name) == or(
                    last_of(backend@.take(i as int), name),
                    assigned(base, name),
                ),
        decreases backend.len() - i,
    {
        assert(backend@.take(i + 1).drop_last() == backend@.take(i as int));
        let ghost before = list@;
        assign(&mut list, backend[i].0.as_str(), &backend[i].1);
        proof {
            assert forall|j: int| 0 <= j < before.len() implies #[trigger] list@[j]
                == before[j] by {
                assert(list@.drop_last()[j] == before[j]);
            }
            assert(list@.take(base.len() as int) == base);
        }
        i += 1;
    }
    assert(backend@.take(i as int) == backend@);
    list
}

} // verus!
