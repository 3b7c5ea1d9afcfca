use vstd::prelude::*;
use crate::permissions::{DefaultPermission, Permission, PermissionFile, PermissionSet};

verus! {

/// An optional string, viewed as an optional character sequence.
pub open spec fn opt_text(o: Option<String>) -> Option<Seq<char>> {
    match o {
        Some(s) => Some(s@),
        None => None,
    }
}

/// One Markdown section: a heading, the description if there is one, and a
/// blank line.
pub open spec fn section(id: Seq<char>, desc: Option<Seq<char>>) -> Seq<char> {
    "## "@ + id + match desc {
        Some(d) => "\n\n"@ + d,
        None => Seq::empty(),
    } + "\n\n"@
}

/// The sections of a run of permission sets, in order.
pub open spec fn sets_text(sets: Seq<PermissionSet>) -> Seq<char>
    decreases sets.len(),
{
    if sets.len() == 0 {
        Seq::empty()
    } else {
        sets_text(sets.drop_last()) + section(sets.last().identifier@, Some(sets.last().description@))
    }
}

/// The sections of a run of permissions, in order.
pub open spec fn permissions_text(perms: Seq<Permission>) -> Seq<char>
    decreases perms.len(),
{
    if perms.len() == 0 {
        Seq::empty()
    } else {
        permissions_text(perms.drop_last()) + section(
            perms.last().identifier@,
            opt_text(perms.last().description),
        )
    }
}

/// The section of a default permission, headed `default`; nothing if absent.
pub open spec fn default_text(d: Option<DefaultPermission>) -> Seq<char> {
    match d {
        Some(d) => section("default"@, opt_text(d.description)),
        None => Seq::empty(),
    }
}

/// The sections of one file: its sets, its default, then its permissions.
pub open spec fn file_text(f: PermissionFile) -> Seq<char> {
    sets_text(f.set@) + default_text(f.default) + permissions_text(f.permission@)
}

/// The sections of all files, in collection order.
pub open spec fn files_text(files: Seq<PermissionFile>) -> Seq<char>
    decreases files.len(),
{
    if files.len() == 0 {
        Seq::empty()
    } else {
        files_text(files.drop_last()) + file_text(files.last())
    }
}

/// The whole reference document of a collection.
pub open spec fn reference_text(files: Seq<PermissionFile>) -> Seq<char> {
    "# Permissions\n\n"@ + files_text(files)
}

/// Appends one section to a document.
pub fn push_section(docs: &mut String, id: &str, description: Option<&str>)
    ensures
        final(docs)@ == old(docs)@ + section(
            id@,
            match description {
                Some(d) => Some(d@),
                None => None,
            },
        ),
{
    docs.append("## ");
    docs.append(id);
    match description {
        Some(d) => {
            docs.append("\n\n");
            docs.append(d);
        },
        None => {},
    }
    docs.append("\n\n");
    proof {
        let ghost desc = match description {
            Some(d) => Some(d@),
            None => None::<Seq<char>>,
        };
        assert(final(docs)@ =~= old(docs)@ + section(id@, desc));
    }
}

/// Appends the sections of one file to a document.
pub fn push_file(docs: &mut String, f: &PermissionFile)
    ensures
        final(docs)@ == old(docs)@ + file_text(*f),
{
    let ghost start = docs@;
    let mut i: usize = 0;
    while i < f.set.len()
        invariant
            i <= f.set@.len(),
            docs@ == start + sets_text(f.set@.subrange(0, i as int)),
        decreases f.set@.len() - i,
    {
        let s = &f.set[i];
        push_section(docs, s.identifier.as_str(), Some(s.description.as_str()));
        proof {
            assert(f.set@.subrange(0, i + 1).drop_last() =~= f.set@.subrange(0, i as int));
            assert(docs@ =~= start + sets_text(f.set@.subrange(0, i + 1)));
        }
        i = i + 1;
    }
    assert(f.set@.subrange(0, f.set@.len() as int) =~= f.set@);
    let ghost mid = docs@;
    match &f.default {
        Some(d) => {
            let desc = match &d.description {
                Some(t) => Some(t.as_str()),
                None => None,
            };
            push_section(docs, "default", desc);
            assert(docs@ =~= mid + default_text(f.default));
        },
        None => {
            assert(docs@ =~= mid + default_text(f.default));
        },
    }
    let ghost after_default = docs@;
    let mut k: usize = 0;
    while k < f.permission.len()
        invariant
            k <= f.permission@.len(),
            docs@ == after_default + permissions_text(f.permission@.subrange(0, k as int)),
        decreases f.permission@.len() - k,
    {
        let p = &f.permission[k];
        let desc = match &p.description {
            Some(t) => Some(t.as_str()),
            None => None,
        };
        push_section(docs, p.identifier.as_str(), desc);
        proof {
            assert(f.permission@.subrange(0, k + 1).drop_last() =~= f.permission@.subrange(0, k as int));
            assert(docs@ =~= after_default + permissions_text(f.permission@.subrange(0, k + 1)));
        }
        k = k + 1;
    }
    assert(f.permission@.subrange(0, f.permission@.len() as int) =~= f.permission@);
    assert(docs@ =~= start + file_text(*f));
}

/// Renders the Markdown reference of a collection: a title, then for each
/// file in order its sets, its default and its permissions, each under a
/// heading of its own.
pub fn generate_docs(files: &Vec<PermissionFile>) -> (r: String)
    ensures
        r@ == reference_text(files@),
{
    let mut docs = String::from_str("# Permissions\n\n");
    let mut i: usize = 0;
    while i < files.len()
        invariant
            i <= files@.len(),
            docs@ == "# Permissions\n\n"@ + files_text(files@.subrange(0, i as int)),
        decreases files@.len() - i,
    {
        push_file(&mut docs, &files[i]);
        proof {
            assert(files@.subrange(0, i + 1).drop_last() =~= files@.subrange(0, i as int));
            assert(docs@ =~= "# Permissions\n\n"@ + files_text(files@.subrange(0, i + 1)));
        }
        i = i + 1;
    }
    assert(files@.subrange(0, files@.len() as int) =~= files@);
    docs
}

} // verus!
