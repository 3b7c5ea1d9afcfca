use vstd::prelude::*;
use crate::error::BuildError;

verus! {

/// A named, described group of permissions.
#[derive(Clone, Debug)]
pub struct PermissionSet {
    pub identifier: String,
    pub description: String,
}

/// The permission granted when none is requested explicitly.
#[derive(Clone, Debug)]
pub struct DefaultPermission {
    pub description: Option<String>,
}

/// A single named capability.
#[derive(Clone, Debug)]
pub struct Permission {
    pub identifier: String,
    pub description: Option<String>,
}

/// One declaration file: its sets, its default and its permissions, in
/// declaration order.
#[derive(Clone, Debug)]
pub struct PermissionFile {
    pub default: Option<DefaultPermission>,
    pub set: Vec<PermissionSet>,
    pub permission: Vec<Permission>,
}

/// The set identifiers of one file, in order.
pub open spec fn file_set_ids(f: PermissionFile) -> Seq<Seq<char>> {
    f.set@.map_values(|s: PermissionSet| s.identifier@)
}

/// The permission identifiers of one file, in order.
pub open spec fn file_permission_ids(f: PermissionFile) -> Seq<Seq<char>> {
    f.permission@.map_values(|p: Permission| p.identifier@)
}

/// All set identifiers of a collection: file order, then declaration order.
pub open spec fn set_ids(files: Seq<PermissionFile>) -> Seq<Seq<char>>
    decreases files.len(),
{
    if files.len() == 0 {
        seq![]
    } else {
        set_ids(files.drop_last()) + file_set_ids(files.last())
    }
}

/// All permission identifiers of a collection: file order, then declaration order.
pub open spec fn permission_ids(files: Seq<PermissionFile>) -> Seq<Seq<char>>
    decreases files.len(),
{
    if files.len() == 0 {
        seq![]
    } else {
        permission_ids(files.drop_last()) + file_permission_ids(files.last())
    }
}

/// The identifier at `j` repeats one before it.
pub open spec fn repeats_earlier(ids: Seq<Seq<char>>, j: int) -> bool {
    exists|i: int| 0 <= i < j && ids[i] == ids[j]
}

/// Every identifier is non-empty and none occurs twice.
pub open spec fn ids_valid(ids: Seq<Seq<char>>) -> bool {
    &&& forall|i: int| 0 <= i < ids.len() ==> ids[i].len() > 0
    &&& forall|i: int, j: int| 0 <= i < j < ids.len() ==> ids[i] != ids[j]
}

/// A collection that can be merged: set identifiers and permission
/// identifiers are each non-empty and unique across all files.
pub open spec fn collection_valid(files: Seq<PermissionFile>) -> bool {
    ids_valid(set_ids(files)) && ids_valid(permission_ids(files))
}

/// Views a list of strings as a sequence of character sequences.
pub open spec fn strings_view(v: Seq<String>) -> Seq<Seq<char>> {
    v.map_values(|s: String| s@)
}

/// Every set identifier of the collection, in order.
pub fn collect_set_ids(files: &Vec<PermissionFile>) -> (r: Vec<String>)
    ensures
        strings_view(r@) == set_ids(files@),
{
    let mut r: Vec<String> = Vec::new();
    let mut i: usize = 0;
    while i < files.len()
        invariant
            i <= files@.len(),
            strings_view(r@) == set_ids(files@.subrange(0, i as int)),
        decreases files@.len() - i,
    {
        let f = &files[i];
        let ghost before = r@;
        let mut k: usize = 0;
        while k < f.set.len()
            invariant
                k <= f.set@.len(),
                r@.len() == before.len() + k,
                r@.subrange(0, before.len() as int) == before,
                forall|m: int| 0 <= m < k ==> r@[before.len() + m]@ == f.set@[m].identifier@,
            decreases f.set@.len() - k,
        {
            r.push(f.set[k].identifier.clone());
            k = k + 1;
        }
        proof {
            let pre = files@.subrange(0, i as int);
            let next = files@.subrange(0, i + 1);
            assert(next.drop_last() =~= pre);
            assert(strings_view(r@) =~= set_ids(pre) + file_set_ids(*f)) by {
                assert(strings_view(before) == set_ids(pre));
            }
        }
        i = i + 1;
    }
    assert(files@.subrange(0, files@.len() as int) =~= files@);
    r
}

/// Every permission identifier of the collection, in order.
pub fn collect_permission_ids(files: &Vec<PermissionFile>) -> (r: Vec<String>)
    ensures
        strings_view(r@) == permission_ids(files@),
{
    let mut r: Vec<String> = Vec::new();
    let mut i: usize = 0;
    while i < files.len()
        invariant
            i <= files@.len(),
            strings_view(r@) == permission_ids(files@.subrange(0, i as int)),
        decreases files@.len() - i,
    {
        let f = &files[i];
        let ghost before = r@;
        let mut k: usize = 0;
        while k < f.permission.len()
            invariant
                k <= f.permission@.len(),
                r@.len() == before.len() + k,
                r@.subrange(0, before.len() as int) == before,
                forall|m: int| 0 <= m < k ==> r@[before.len() + m]@ == f.permission@[m].identifier@,
            decreases f.permission@.len() - k,
        {
            r.push(f.permission[k].identifier.clone());
            k = k + 1;
        }
        proof {
            let pre = files@.subrange(0, i as int);
            let next = files@.subrange(0, i + 1);
            assert(next.drop_last() =~= pre);
            assert(strings_view(r@) =~= permission_ids(pre) + file_permission_ids(*f)) by {
                assert(strings_view(before) == permission_ids(pre));
            }
        }
        i = i + 1;
    }
    assert(files@.subrange(0, files@.len() as int) =~= files@);
    r
}

/// The first identifier that is empty or repeats an earlier one, if any.
pub fn find_invalid_id(ids: &Vec<String>) -> (r: Option<usize>)
    ensures
        r is None <==> ids_valid(strings_view(ids@)),
        r matches Some(j) ==> j < ids@.len() && (ids@[j as int]@.len() == 0
            || repeats_earlier(strings_view(ids@), j as int)),
{
    let ghost v = strings_view(ids@);
    let mut j: usize = 0;
    while j < ids.len()
        invariant
            v == strings_view(ids@),
            j <= ids@.len(),
            ids_valid(v.subrange(0, j as int)),
        decreases ids@.len() - j,
    {
        assert(v[j as int] == ids@[j as int]@);
        if ids[j].as_str().unicode_len() == 0 {
            return Some(j);
        }
        let mut i: usize = 0;
        while i < j
            invariant
                v == strings_view(ids@),
                i <= j < ids@.len(),
                forall|m: int| 0 <= m < i ==> v[m] != v[j as int],
            decreases j - i,
        {
            assert(v[i as int] == ids@[i as int]@);
            if ids[i] == ids[j] {
                assert(repeats_earlier(v, j as int));
                return Some(j);
            }
            i = i + 1;
        }
        assert(ids_valid(v.subrange(0, j + 1))) by {
            let s = v.subrange(0, j + 1);
            assert forall|a: int, b: int| 0 <= a < b < s.len() implies s[a] != s[b] by {
                if b < j {
                    assert(v.subrange(0, j as int)[a] == s[a]);
                    assert(v.subrange(0, j as int)[b] == s[b]);
                }
            }
            assert forall|a: int| 0 <= a < s.len() implies s[a].len() > 0 by {
                if a < j {
                    assert(v.subrange(0, j as int)[a] == s[a]);
                }
            }
        }
        j = j + 1;
    }
    assert(v.subrange(0, v.len() as int) =~= v);
    None
}

/// Checks a loaded collection before it is merged: every set identifier and
/// every permission identifier must be non-empty and unique across all
/// files. The merged collection is the files themselves, in their order.
pub fn merge_permission_files(files: Vec<PermissionFile>) -> (r: Result<Vec<PermissionFile>, BuildError>)
    ensures
        r is Ok <==> collection_valid(files@),
        r matches Ok(merged) ==> merged@ == files@,
        r matches Err(e) ==> e matches BuildError::Validation(id) && (
            (exists|j: int| 0 <= j < set_ids(files@).len() && set_ids(files@)[j] == id@
                && (id@.len() == 0 || repeats_earlier(set_ids(files@), j)))
            || (exists|j: int| 0 <= j < permission_ids(files@).len()
                && permission_ids(files@)[j] == id@
                && (id@.len() == 0 || repeats_earlier(permission_ids(files@), j)))),
{
    let sets = collect_set_ids(&files);
    match find_invalid_id(&sets) {
        Some(j) => {
            assert(strings_view(sets@)[j as int] == sets@[j as int]@);
            return Err(BuildError::Validation(sets[j].clone()));
        },
        None => {},
    }
    let perms = collect_permission_ids(&files);
    match find_invalid_id(&perms) {
        Some(j) => {
            assert(strings_view(perms@)[j as int] == perms@[j as int]@);
            return Err(BuildError::Validation(perms[j].clone()));
        },
        None => {},
    }
    Ok(files)
}

/// The identifiers of a collection of two files are those of the first,
/// then those of the second.
pub proof fn lemma_two_file_ids(f: PermissionFile, g: PermissionFile)
    ensures
        set_ids(seq![f, g]) == file_set_ids(f) + file_set_ids(g),
        permission_ids(seq![f, g]) == file_permission_ids(f) + file_permission_ids(g),
{
    let two = seq![f, g];
    assert(two.drop_last() =~= seq![f]);
    assert(seq![f].drop_last() =~= Seq::<PermissionFile>::empty());
    reveal_with_fuel(set_ids, 3);
    reveal_with_fuel(permission_ids, 3);
    assert(set_ids(two) =~= file_set_ids(f) + file_set_ids(g));
    assert(permission_ids(two) =~= file_permission_ids(f) + file_permission_ids(g));
}

/// Two declaration files that define a permission set under the same
/// identifier cannot be merged.
pub proof fn lemma_shared_set_id_conflicts(f: PermissionFile, g: PermissionFile, i: int, j: int)
    requires
        0 <= i < f.set@.len(),
        0 <= j < g.set@.len(),
        f.set@[i].identifier@ == g.set@[j].identifier@,
    ensures
        !collection_valid(seq![f, g]),
{
    lemma_two_file_ids(f, g);
    let ids = set_ids(seq![f, g]);
    assert(ids[i] == f.set@[i].identifier@);
    assert(ids[f.set@.len() + j] == g.set@[j].identifier@);
}

/// Two declaration files, each valid alone and sharing no identifier of the
/// same kind, can be merged; the merge keeps file order, then declaration
/// order (see `merge_permission_files`).
pub proof fn lemma_disjoint_files_merge(f: PermissionFile, g: PermissionFile)
    requires
        ids_valid(file_set_ids(f)),
        ids_valid(file_set_ids(g)),
        ids_valid(file_permission_ids(f)),
        ids_valid(file_permission_ids(g)),
        forall|a: int, b: int|
            0 <= a < f.set@.len() && 0 <= b < g.set@.len() ==> f.set@[a].identifier@
                != g.set@[b].identifier@,
        forall|a: int, b: int|
            0 <= a < f.permission@.len() && 0 <= b < g.permission@.len()
                ==> f.permission@[a].identifier@ != g.permission@[b].identifier@,
    ensures
        collection_valid(seq![f, g]),
{
    lemma_two_file_ids(f, g);
    lemma_concat_valid(file_set_ids(f), file_set_ids(g));
    lemma_concat_valid(file_permission_ids(f), file_permission_ids(g));
}

/// Two valid identifier lists with nothing in common join into a valid one.
pub proof fn lemma_concat_valid(a: Seq<Seq<char>>, b: Seq<Seq<char>>)
    requires
        ids_valid(a),
        ids_valid(b),
        forall|i: int, j: int| 0 <= i < a.len() && 0 <= j < b.len() ==> a[i] != b[j],
    ensures
        ids_valid(a + b),
{
    let c = a + b;
    assert forall|i: int, j: int| 0 <= i < j < c.len() implies c[i] != c[j] by {
        if j < a.len() {
        } else if i < a.len() {
            assert(c[j] == b[j - a.len()]);
        } else {
            assert(c[i] == b[i - a.len()]);
            assert(c[j] == b[j - a.len()]);
        }
    }
    assert forall|i: int| 0 <= i < c.len() implies c[i].len() > 0 by {
        if i >= a.len() {
            assert(c[i] == b[i - a.len()]);
        }
    }
}

} // verus!
