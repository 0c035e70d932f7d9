//! What value each variable has in a backend, name by name.

use vstd::prelude::*;
use crate::environment::{
    assigned, child_variable, fallback_path_of, first_of, is_safe_name, last_of, Host, Platform,
};

verus! {

/// What a list gives a name first.
pub open spec fn gives_first<V>(list: Seq<(String, V)>, name: Seq<char>, found: Option<V>) -> bool {
    match found {
        Some(value) => exists|i: int|
            0 <= i < list.len() && (#[trigger] list[i]).0@ == name && list[i].1 == value && (
            forall|j: int| 0 <= j < i ==> (#[trigger] list[j]).0@ != name),
        None => forall|j: int| 0 <= j < list.len() ==> (#[trigger] list[j]).0@ != name,
    }
}

/// What a list gives a name last.
pub open spec fn gives_last<V>(list: Seq<(String, V)>, name: Seq<char>, found: Option<V>) -> bool {
    match found {
        Some(value) => exists|i: int|
            0 <= i < list.len() && (#[trigger] list[i]).0@ == name && list[i].1 == value && (
            forall|j: int| i < j < list.len() ==> (#[trigger] list[j]).0@ != name),
        None => forall|j: int| 0 <= j < list.len() ==> (#[trigger] list[j]).0@ != name,
    }
}

/// The names of the variables that a backend on Windows takes over besides.
pub open spec fn windows_names() -> Seq<Seq<char>> {
    seq![
        "USERPROFILE"@,
        "APPDATA"@,
        "LOCALAPPDATA"@,
        "TEMP"@,
        "TMP"@,
        "SYSTEMROOT"@,
        "COMSPEC"@,
        "PATHEXT"@,
    ]
}

/// What a list gives a name first is the value at its first place.
proof fn lemma_first<V>(list: Seq<(String, V)>, name: Seq<char>, found: Option<V>)
    requires
        gives_first(list, name, found),
    ensures
        first_of(list, name) == found,
    decreases list.len(),
{
    if list.len() > 0 {
        let rest = list.drop_first();
        if list[0].0@ != name {
            match found {
                Some(value) => {
                    let i = choose|i: int|
                        0 <= i < list.len() && (#[trigger] list[i]).0@ == name && list[i].1 == value
                            && (forall|j: int| 0 <= j < i ==> (#[trigger] list[j]).0@ != name);
                    assert(rest[i - 1] == list[i]);
                    assert forall|j: int| 0 <= j < i - 1 implies (#[trigger] rest[j]).0@ != name by {
                        assert(rest[j] == list[j + 1]);
                    }
                },
                None => {
                    assert forall|j: int| 0 <= j < rest.len() implies (#[trigger] rest[j]).0@
                        != name by {
                        assert(rest[j] == list[j + 1]);
                    }
                },
            }
            lemma_first(rest, name, found);
        }
    }
}

/// What a list gives a name last is the value at its last place.
proof fn lemma_last<V>(list: Seq<(String, V)>, name: Seq<char>, found: Option<V>)
    requires
        gives_last(list, name, found),
    ensures
        last_of(list, name) == found,
    decreases list.len(),
{
    if list.len() > 0 {
        let rest = list.drop_last();
        assert(list.last() == list[list.len() - 1]);
        if list.last().0@ != name {
            match found {
                Some(value) => {
                    let i = choose|i: int|
                        0 <= i < list.len() && (#[trigger] list[i]).0@ == name && list[i].1 == value
                            && (forall|j: int|
                            i < j < list.len() ==> (#[trigger] list[j]).0@ != name);
                    assert(rest[i] == list[i]);
                    assert forall|j: int| i < j < rest.len() implies (#[trigger] rest[j]).0@
                        != name by {
                        assert(rest[j] == list[j]);
                    }
                },
                None => {
                    assert forall|j: int| 0 <= j < rest.len() implies (#[trigger] rest[j]).0@
                        != name by {
                        assert(rest[j] == list[j]);
                    }
                },
            }
            lemma_last(rest, name, found);
        }
    }
}

/// The safe names are these, and no others.
pub proof fn law_safe_names(platform: Platform, name: Seq<char>)
    ensures
        is_safe_name(platform, name) <==> (name == "PATH"@ || name == "HOME"@ || name == "TMPDIR"@
            || platform == Platform::Windows && windows_names().contains(name)),
{
    let names = windows_names();
    assert(names[0] == "USERPROFILE"@ && names[1] == "APPDATA"@ && names[2] == "LOCALAPPDATA"@);
    assert(names[3] == "TEMP"@ && names[4] == "TMP"@ && names[5] == "SYSTEMROOT"@);
    assert(names[6] == "COMSPEC"@ && names[7] == "PATHEXT"@);
}

/// A variable has the value that the backend assigns it last. Without one, the
/// search path, the home directory and the directory for temporary files have the
/// host's value or else what stands in for it, the few others on Windows have the
/// host's value if there is one, and every other variable has none.
pub proof fn law_variable_has_its_value<V>(
    host: Host<V>,
    backend: Seq<(String, V)>,
    name: Seq<char>,
    inherited: Option<V>,
    set: Option<V>,
)
    requires
        gives_first(host.variables@, name, inherited),
        gives_last(backend, name, set),
    ensures
        child_variable(host, backend, name) == match (set, inherited) {
            (Some(value), _) => Some(value),
            (None, Some(value)) => if name == "PATH"@ || name == "HOME"@ || name == "TMPDIR"@ || (
            host.platform == Platform::Windows && windows_names().contains(name)) {
                Some(value)
            } else {
                None
            },
            (None, None) => if name == "PATH"@ {
                Some(host.fallback_path)
            } else if name == "HOME"@ {
                host.home_dir
            } else if name == "TMPDIR"@ {
                Some(host.temp_dir)
            } else {
                None
            },
        },
{
    lemma_first(host.variables@, name, inherited);
    lemma_last(backend, name, set);
    law_safe_names(host.platform, name);
}

/// Carrying out a list of assignments leaves a name with the value that the list
/// gives it last.
pub proof fn law_last_assignment_stands<V>(
    list: Seq<(String, &V)>,
    name: Seq<char>,
    found: Option<&V>,
)
    requires
        gives_last(list, name, found),
    ensures
        assigned(list, name) == match found {
            Some(value) => Some(*value),
            None => None,
        },
{
    lemma_last(list, name, found);
}

/// The search path that stands in where the host has none.
pub proof fn law_fallback_path()
    ensures
        fallback_path_of(Platform::Unix) == "/usr/local/bin:/usr/bin:/bin"@,
        fallback_path_of(Platform::Windows) == "C:\\Windows\\System32;C:\\Windows"@,
        fallback_path_of(Platform::Other).len() == 0,
{
    reveal_strlit("");
}

} // verus!
