//! What a module asks of its host, and whether the sandbox lets it run.
//!
//! A module runs only where every function it imports is one of a few calls
//! of the system interface: the ones that hand out the argument list and the
//! environment, describe a descriptor, write to one, and end the program.
//! These are the calls that cannot make the host panic, whatever the module
//! passes them. A module that wants more, or that has a start function, which
//! would run before the module's memory is attached to the environment, is
//! turned away before any of its code runs.

use vstd::prelude::*;

verus! {

/// The namespace of the system interface that modules may import from.
pub open spec fn spec_interface() -> Seq<char> {
    "wasi_snapshot_preview1"@
}

/// Whether `name` is a call of the system interface that a module may make.
pub open spec fn spec_is_admitted_call(name: Seq<char>) -> bool {
    ||| name == "args_get"@
    ||| name == "args_sizes_get"@
    ||| name == "environ_get"@
    ||| name == "environ_sizes_get"@
    ||| name == "fd_fdstat_get"@
    ||| name == "fd_prestat_get"@
    ||| name == "fd_prestat_dir_name"@
    ||| name == "fd_write"@
    ||| name == "proc_exit"@
}

/// Whether a module may import the function `name` from `namespace`.
pub open spec fn spec_is_admitted_import(namespace: Seq<char>, name: Seq<char>) -> bool {
    namespace == spec_interface() && spec_is_admitted_call(name)
}

/// Whether a module may run: it has no start function, and every function
/// it imports is admitted. `imports` holds the namespace and the name of
/// each function import.
pub open spec fn spec_may_run(
    has_start_function: bool,
    imports: Seq<(Seq<char>, Seq<char>)>,
) -> bool {
    !has_start_function && forall|i: int|
        0 <= i < imports.len() ==> spec_is_admitted_import(
            (#[trigger] imports[i]).0,
            imports[i].1,
        )
}

/// The function imports of a module, as the sequences that the contracts
/// speak of.
pub open spec fn import_names(imports: Seq<(String, String)>) -> Seq<(Seq<char>, Seq<char>)> {
    Seq::new(imports.len(), |i: int| (imports[i].0@, imports[i].1@))
}

/// Whether `text` is the word `word`.
fn is_word(text: &String, word: &str) -> (same: bool)
    ensures
        same == (text@ == word@),
{
    let expected = word.to_owned();
    *text == expected
}

/// Whether a module may import the function `name` from `namespace`.
pub fn is_admitted_import(namespace: &String, name: &String) -> (admitted: bool)
    ensures
        admitted == spec_is_admitted_import(namespace@, name@),
{
    is_word(namespace, "wasi_snapshot_preview1") && (is_word(name, "args_get") || is_word(
        name,
        "args_sizes_get",
    ) || is_word(name, "environ_get") || is_word(name, "environ_sizes_get") || is_word(
        name,
        "fd_fdstat_get",
    ) || is_word(name, "fd_prestat_get") || is_word(name, "fd_prestat_dir_name") || is_word(
        name,
        "fd_write",
    ) || is_word(name, "proc_exit"))
}

/// Whether a module may run, given whether it has a start function and the
/// namespace and name of each function it imports.
pub fn may_run(has_start_function: bool, imports: &Vec<(String, String)>) -> (admitted: bool)
    ensures
        admitted == spec_may_run(has_start_function, import_names(imports@)),
{
    if has_start_function {
        return false;
    }
    let mut i: usize = 0;
    while i < imports.len()
        invariant
            i <= imports@.len(),
            forall|j: int|
                0 <= j < i ==> spec_is_admitted_import(
                    (#[trigger] import_names(imports@)[j]).0,
                    import_names(imports@)[j].1,
                ),
        decreases imports@.len() - i,
    {
        if !is_admitted_import(&imports[i].0, &imports[i].1) {
            assert(!spec_is_admitted_import(
                import_names(imports@)[i as int].0,
                import_names(imports@)[i as int].1,
            ));
            return false;
        }
        i += 1;
    }
    true
}

/// A module with a start function does not run, whatever it imports.
pub proof fn lemma_start_function_is_refused(imports: Seq<(Seq<char>, Seq<char>)>)
    ensures
        !spec_may_run(true, imports),
{
}

/// A module that imports nothing and starts nothing may run, and one import
/// that is not admitted keeps a module from running.
pub proof fn lemma_one_import_decides(
    imports: Seq<(Seq<char>, Seq<char>)>,
    namespace: Seq<char>,
    name: Seq<char>,
)
    ensures
        spec_may_run(false, Seq::empty()),
        spec_may_run(false, imports.push((namespace, name))) <==> spec_may_run(false, imports)
            && spec_is_admitted_import(namespace, name),
{
    let more = imports.push((namespace, name));
    if spec_may_run(false, more) {
        assert forall|i: int| 0 <= i < imports.len() implies spec_is_admitted_import(
            (#[trigger] imports[i]).0,
            imports[i].1,
        ) by {
            assert(more[i] == imports[i]);
        }
        assert(more[imports.len() as int] == (namespace, name));
    }
    if spec_may_run(false, imports) && spec_is_admitted_import(namespace, name) {
        assert forall|i: int| 0 <= i < more.len() implies spec_is_admitted_import(
            (#[trigger] more[i]).0,
            more[i].1,
        ) by {
            if i < imports.len() {
                assert(more[i] == imports[i]);
            }
        }
    }
}

} // verus!
