use vstd::prelude::*;
use vstd::string::StringExecFns;

verus! {

/// A snapshot of one directory entry: a regular file, or a subdirectory
/// with its own entries. The edge lists the filesystem into such a
/// snapshot; the walk over the snapshot is verified. Entries that could
/// not be read are surfaced by the edge and never enter the snapshot.
pub enum FsEntry {
    File { name: String },
    Dir { name: String, entries: Vec<FsEntry> },
}

/// The name of an entry.
pub open spec fn spec_entry_name(e: FsEntry) -> Seq<char> {
    match e {
        FsEntry::File { name } => name@,
        FsEntry::Dir { name, entries } => name@,
    }
}

/// The paths the walk yields for one entry under a path prefix: a file
/// yields its one path; a directory is never yielded itself, and its
/// contents only when the walk is recursive.
pub open spec fn spec_walk_entry(e: FsEntry, recursive: bool, prefix: Seq<char>) -> Seq<
    Seq<char>,
>
    decreases e,
{
    match e {
        FsEntry::File { name } => seq![prefix + name@],
        FsEntry::Dir { name, entries } => if recursive {
            spec_walk_entries(entries@, recursive, prefix + name@ + "/"@)
        } else {
            Seq::empty()
        },
    }
}

/// The paths the walk yields for a listing, in listing order, each
/// entry's contribution before the next entry's.
pub open spec fn spec_walk_entries(
    entries: Seq<FsEntry>,
    recursive: bool,
    prefix: Seq<char>,
) -> Seq<Seq<char>>
    decreases entries,
{
    if entries.len() == 0 {
        Seq::empty()
    } else {
        spec_walk_entry(entries.first(), recursive, prefix) + spec_walk_entries(
            entries.drop_first(),
            recursive,
            prefix,
        )
    }
}

/// How many files one entry contributes to the walk.
pub open spec fn spec_file_count(e: FsEntry, recursive: bool) -> nat
    decreases e,
{
    match e {
        FsEntry::File { name } => 1,
        FsEntry::Dir { name, entries } => if recursive {
            spec_file_count_entries(entries@, recursive)
        } else {
            0
        },
    }
}

/// How many files a listing contributes to the walk.
pub open spec fn spec_file_count_entries(entries: Seq<FsEntry>, recursive: bool) -> nat
    decreases entries,
{
    if entries.len() == 0 {
        0
    } else {
        spec_file_count(entries.first(), recursive) + spec_file_count_entries(
            entries.drop_first(),
            recursive,
        )
    }
}

proof fn lemma_walk_entry_count(e: FsEntry, recursive: bool, prefix: Seq<char>)
    ensures
        spec_walk_entry(e, recursive, prefix).len() == spec_file_count(e, recursive),
    decreases e,
{
    match e {
        FsEntry::File { name } => {
        },
        FsEntry::Dir { name, entries } => {
            if recursive {
                law_walk_yields_every_file(entries@, recursive, prefix + name@ + "/"@);
            }
        },
    }
}

/// Law: the walk yields exactly one path per file it covers — every
/// direct child file when non-recursive, and every file of the whole
/// tree when recursive.
pub proof fn law_walk_yields_every_file(
    entries: Seq<FsEntry>,
    recursive: bool,
    prefix: Seq<char>,
)
    ensures
        spec_walk_entries(entries, recursive, prefix).len() == spec_file_count_entries(
            entries,
            recursive,
        ),
    decreases entries,
{
    if entries.len() > 0 {
        lemma_walk_entry_count(entries.first(), recursive, prefix);
        law_walk_yields_every_file(entries.drop_first(), recursive, prefix);
    }
}

proof fn lemma_walk_entries_push(
    s: Seq<FsEntry>,
    e: FsEntry,
    recursive: bool,
    prefix: Seq<char>,
)
    ensures
        spec_walk_entries(s.push(e), recursive, prefix) == spec_walk_entries(
            s,
            recursive,
            prefix,
        ) + spec_walk_entry(e, recursive, prefix),
    decreases s,
{
    assert(spec_walk_entries(Seq::<FsEntry>::empty(), recursive, prefix)
        == Seq::<Seq<char>>::empty());
    if s.len() == 0 {
        assert(s.push(e).first() == e);
        assert(s.push(e).drop_first() =~= Seq::<FsEntry>::empty());
        assert(spec_walk_entries(s.push(e), recursive, prefix) =~= spec_walk_entries(
            s,
            recursive,
            prefix,
        ) + spec_walk_entry(e, recursive, prefix));
    } else {
        assert(s.push(e).first() == s.first());
        assert(s.push(e).drop_first() =~= s.drop_first().push(e));
        lemma_walk_entries_push(s.drop_first(), e, recursive, prefix);
        assert(spec_walk_entries(s.push(e), recursive, prefix) =~= spec_walk_entries(
            s,
            recursive,
            prefix,
        ) + spec_walk_entry(e, recursive, prefix));
    }
}

/// The views of a vector of path strings.
pub open spec fn spec_path_views(paths: Seq<String>) -> Seq<Seq<char>> {
    Seq::new(paths.len(), |i: int| paths[i]@)
}

fn walk_into(e: &FsEntry, recursive: bool, prefix: &str, out: &mut Vec<String>)
    ensures
        spec_path_views(final(out)@) == spec_path_views(old(out)@) + spec_walk_entry(
            *e,
            recursive,
            prefix@,
        ),
    decreases *e,
{
    match e {
        FsEntry::File { name } => {
            let mut p = prefix.to_owned();
            p.append(name.as_str());
            out.push(p);
            proof {
                assert(spec_path_views(out@) =~= spec_path_views(old(out)@) + spec_walk_entry(
                    *e,
                    recursive,
                    prefix@,
                ));
            }
        },
        FsEntry::Dir { name, entries } => {
            if recursive {
                let mut child_prefix = prefix.to_owned();
                child_prefix.append(name.as_str());
                child_prefix.append("/");
                let n = entries.len();
                proof {
                    assert(entries@.take(0) =~= Seq::<FsEntry>::empty());
                    assert(spec_path_views(out@) =~= spec_path_views(old(out)@)
                        + spec_walk_entries(entries@.take(0), recursive, child_prefix@));
                }
                let mut i: usize = 0;
                while i < n
                    invariant
                        i <= n,
                        n == entries@.len(),
                        recursive,
                        *e == (FsEntry::Dir { name: *name, entries: *entries }),
                        child_prefix@ == prefix@ + name@ + "/"@,
                        spec_path_views(out@) == spec_path_views(old(out)@) + spec_walk_entries(
                            entries@.take(i as int),
                            recursive,
                            child_prefix@,
                        ),
                    decreases n - i,
                {
                    proof {
                        assert((*e)->Dir_entries == *entries);
                        assert(decreases_to!(*e => (*e)->Dir_entries));
                        assert(decreases_to!(*entries => entries@));
                        assert(decreases_to!(entries@ => entries@[i as int]));
                    }
                    walk_into(&entries[i], recursive, child_prefix.as_str(), out);
                    proof {
                        lemma_walk_entries_push(
                            entries@.take(i as int),
                            entries@[i as int],
                            recursive,
                            child_prefix@,
                        );
                        assert(entries@.take(i + 1) =~= entries@.take(i as int).push(
                            entries@[i as int],
                        ));
                    }
                    i += 1;
                }
                proof {
                    assert(entries@.take(n as int) =~= entries@);
                }
            } else {
                proof {
                    assert(spec_path_views(out@) =~= spec_path_views(old(out)@)
                        + spec_walk_entry(*e, recursive, prefix@));
                }
            }
        },
    }
}

/// Walks a snapshot, yielding the path of every file it covers relative
/// to the snapshot's root, in listing order, subdirectories depth first.
pub fn walk_files(entries: &Vec<FsEntry>, recursive: bool) -> (r: Vec<String>)
    ensures
        spec_path_views(r@) == spec_walk_entries(entries@, recursive, Seq::empty()),
{
    let mut out: Vec<String> = Vec::new();
    let prefix = String::new();
    let n = entries.len();
    proof {
        assert(entries@.take(0) =~= Seq::<FsEntry>::empty());
        assert(spec_path_views(out@) =~= Seq::<Seq<char>>::empty() + spec_walk_entries(
            entries@.take(0),
            recursive,
            prefix@,
        ));
    }
    let mut i: usize = 0;
    while i < n
        invariant
            i <= n,
            n == entries@.len(),
            prefix@ == Seq::<char>::empty(),
            spec_path_views(out@) == spec_walk_entries(
                entries@.take(i as int),
                recursive,
                prefix@,
            ),
        decreases n - i,
    {
        walk_into(&entries[i], recursive, prefix.as_str(), &mut out);
        proof {
            lemma_walk_entries_push(
                entries@.take(i as int),
                entries@[i as int],
                recursive,
                prefix@,
            );
            assert(entries@.take(i + 1) =~= entries@.take(i as int).push(entries@[i as int]));
            assert(spec_path_views(out@) =~= spec_walk_entries(
                entries@.take(i + 1),
                recursive,
                prefix@,
            ));
        }
        i += 1;
    }
    proof {
        assert(entries@.take(n as int) =~= entries@);
    }
    out
}

// ---------------------------------------------------------------------------
// No path is yielded twice
// ---------------------------------------------------------------------------

/// A name a snapshot entry may carry: nonempty, with no path separator —
/// what a filesystem directory listing reports for each of its entries.
pub open spec fn spec_name_ok(name: Seq<char>) -> bool {
    name.len() > 0 && forall|k: int| 0 <= k < name.len() ==> name[k] != '/'
}

/// A well-formed snapshot entry: its name is a single path segment, and
/// a directory's entries are well-formed in turn.
pub open spec fn spec_wf_entry(e: FsEntry) -> bool
    decreases e,
{
    match e {
        FsEntry::File { name } => spec_name_ok(name@),
        FsEntry::Dir { name, entries } => spec_name_ok(name@) && spec_wf_entries(entries@),
    }
}

/// A well-formed listing: every entry is well-formed and sibling names
/// are unique, as a directory listing reports them.
pub open spec fn spec_wf_entries(s: Seq<FsEntry>) -> bool
    decreases s,
{
    &&& forall|i: int| 0 <= i < s.len() ==> spec_wf_entry(#[trigger] s[i])
    &&& forall|i: int, j: int|
        0 <= i < j < s.len() ==> spec_entry_name(s[i]) != spec_entry_name(s[j])
}

/// No path occurs twice.
pub open spec fn spec_paths_distinct(paths: Seq<Seq<char>>) -> bool {
    forall|i: int, j: int| 0 <= i < j < paths.len() ==> paths[i] != paths[j]
}

/// Where the first path separator of a sequence stands, or its end.
spec fn spec_seg_end(rest: Seq<char>) -> int
    decreases rest.len(),
{
    if rest.len() == 0 {
        0
    } else if rest.first() == '/' {
        0
    } else {
        1 + spec_seg_end(rest.drop_first())
    }
}

/// The leading path segment of a sequence, up to its first separator.
spec fn spec_first_seg(rest: Seq<char>) -> Seq<char> {
    rest.take(spec_seg_end(rest))
}

proof fn lemma_seg_end_no_slash(u: Seq<char>)
    requires
        forall|k: int| 0 <= k < u.len() ==> u[k] != '/',
    ensures
        spec_seg_end(u) == u.len(),
    decreases u.len(),
{
    if u.len() > 0 {
        assert(u.first() == u[0]);
        assert forall|k: int| 0 <= k < u.drop_first().len() implies u.drop_first()[k]
            != '/' by {
            assert(u.drop_first()[k] == u[k + 1]);
        }
        lemma_seg_end_no_slash(u.drop_first());
    }
}

proof fn lemma_seg_end_at(u: Seq<char>, m: int)
    requires
        0 <= m < u.len(),
        forall|k: int| 0 <= k < m ==> u[k] != '/',
        u[m] == '/',
    ensures
        spec_seg_end(u) == m,
    decreases m,
{
    if m == 0 {
        assert(u.first() == u[0]);
    } else {
        assert(u.first() == u[0]);
        assert(u[0] != '/');
        assert(u.drop_first()[m - 1] == u[m]);
        assert forall|k: int| 0 <= k < m - 1 implies u.drop_first()[k] != '/' by {
            assert(u.drop_first()[k] == u[k + 1]);
        }
        lemma_seg_end_at(u.drop_first(), m - 1);
    }
}

/// Whether a path extends a prefix by at least one character.
spec fn path_extends(p: Seq<char>, prefix: Seq<char>) -> bool {
    p.len() > prefix.len() && p.take(prefix.len() as int) == prefix
}

proof fn lemma_walk_entry_shape(e: FsEntry, recursive: bool, prefix: Seq<char>)
    requires
        spec_wf_entry(e),
    ensures
        spec_paths_distinct(spec_walk_entry(e, recursive, prefix)),
        forall|k: int|
            0 <= k < spec_walk_entry(e, recursive, prefix).len() ==> {
                &&& path_extends(#[trigger] spec_walk_entry(e, recursive, prefix)[k], prefix)
                &&& spec_first_seg(
                    spec_walk_entry(e, recursive, prefix)[k].skip(prefix.len() as int),
                ) == spec_entry_name(e)
            },
    decreases e,
{
    match e {
        FsEntry::File { name } => {
            let p = prefix + name@;
            assert(p.take(prefix.len() as int) =~= prefix);
            assert(p.skip(prefix.len() as int) =~= name@);
            lemma_seg_end_no_slash(name@);
            assert(spec_first_seg(p.skip(prefix.len() as int)) =~= name@);
        },
        FsEntry::Dir { name, entries } => {
            if recursive {
                let cp = prefix + name@ + "/"@;
                reveal_strlit("/");
                assert(cp.len() == prefix.len() + name@.len() + 1);
                lemma_walk_entries_shape(entries@, recursive, cp);
                let paths = spec_walk_entry(e, recursive, prefix);
                assert forall|k: int| 0 <= k < paths.len() implies {
                    &&& path_extends(#[trigger] paths[k], prefix)
                    &&& spec_first_seg(paths[k].skip(prefix.len() as int)) == spec_entry_name(e)
                } by {
                    let p = paths[k];
                    assert(path_extends(p, cp));
                    assert(p.take(prefix.len() as int) =~= prefix);
                    let u = p.skip(prefix.len() as int);
                    assert forall|t: int| 0 <= t < name@.len() implies u[t] != '/' by {
                        assert(u[t] == p[prefix.len() + t]);
                        assert(p[prefix.len() + t] == p.take(cp.len() as int)[prefix.len() + t]);
                        assert(cp[prefix.len() + t] == name@[t]);
                    }
                    assert(u[name@.len() as int] == p[prefix.len() + name@.len() as int]);
                    assert(p[prefix.len() + name@.len() as int] == p.take(cp.len() as int)[prefix.len()
                        + name@.len() as int]);
                    assert(cp[prefix.len() + name@.len() as int] == '/');
                    lemma_seg_end_at(u, name@.len() as int);
                    assert forall|t: int| 0 <= t < name@.len() implies u[t] == name@[t] by {
                        assert(u[t] == p[prefix.len() + t]);
                        assert(p[prefix.len() + t] == p.take(cp.len() as int)[prefix.len() + t]);
                        assert(cp[prefix.len() + t] == name@[t]);
                    }
                    assert(spec_first_seg(u) =~= name@);
                }
            }
        },
    }
}

proof fn lemma_walk_entries_shape(s: Seq<FsEntry>, recursive: bool, prefix: Seq<char>)
    requires
        spec_wf_entries(s),
    ensures
        spec_paths_distinct(spec_walk_entries(s, recursive, prefix)),
        forall|k: int|
            0 <= k < spec_walk_entries(s, recursive, prefix).len() ==> {
                &&& path_extends(#[trigger] spec_walk_entries(s, recursive, prefix)[k], prefix)
                &&& exists|i: int|
                    0 <= i < s.len() && spec_first_seg(
                        spec_walk_entries(s, recursive, prefix)[k].skip(prefix.len() as int),
                    ) == spec_entry_name(#[trigger] s[i])
            },
    decreases s,
{
    if s.len() > 0 {
        assert(spec_wf_entry(s[0]));
        lemma_walk_entry_shape(s.first(), recursive, prefix);
        assert forall|i: int| 0 <= i < s.drop_first().len() implies spec_wf_entry(
            #[trigger] s.drop_first()[i],
        ) by {
            assert(s.drop_first()[i] == s[i + 1]);
        }
        assert forall|i: int, j: int| 0 <= i < j < s.drop_first().len() implies spec_entry_name(
            s.drop_first()[i],
        ) != spec_entry_name(s.drop_first()[j]) by {
            assert(s.drop_first()[i] == s[i + 1]);
            assert(s.drop_first()[j] == s[j + 1]);
        }
        lemma_walk_entries_shape(s.drop_first(), recursive, prefix);
        let head = spec_walk_entry(s.first(), recursive, prefix);
        let tail = spec_walk_entries(s.drop_first(), recursive, prefix);
        let paths = spec_walk_entries(s, recursive, prefix);
        assert(paths == head + tail);
        assert forall|k: int| 0 <= k < paths.len() implies {
            &&& path_extends(#[trigger] paths[k], prefix)
            &&& exists|i: int|
                0 <= i < s.len() && spec_first_seg(paths[k].skip(prefix.len() as int))
                    == spec_entry_name(#[trigger] s[i])
        } by {
            if k < head.len() {
                assert(paths[k] == head[k]);
                assert(spec_first_seg(paths[k].skip(prefix.len() as int)) == spec_entry_name(
                    s[0],
                ));
            } else {
                assert(paths[k] == tail[k - head.len()]);
                let i0 = choose|i: int|
                    0 <= i < s.drop_first().len() && spec_first_seg(
                        tail[k - head.len()].skip(prefix.len() as int),
                    ) == spec_entry_name(#[trigger] s.drop_first()[i]);
                assert(s.drop_first()[i0] == s[i0 + 1]);
                assert(spec_first_seg(paths[k].skip(prefix.len() as int)) == spec_entry_name(
                    s[i0 + 1],
                ));
            }
        }
        assert forall|k1: int, k2: int| 0 <= k1 < k2 < paths.len() implies paths[k1]
            != paths[k2] by {
            if k2 < head.len() {
                assert(paths[k1] == head[k1]);
                assert(paths[k2] == head[k2]);
            } else if k1 >= head.len() {
                assert(paths[k1] == tail[k1 - head.len()]);
                assert(paths[k2] == tail[k2 - head.len()]);
            } else {
                let p = paths[k1];
                let q = paths[k2];
                assert(p == head[k1]);
                assert(q == tail[k2 - head.len()]);
                assert(spec_first_seg(p.skip(prefix.len() as int)) == spec_entry_name(s[0]));
                let i0 = choose|i: int|
                    0 <= i < s.drop_first().len() && spec_first_seg(
                        tail[k2 - head.len()].skip(prefix.len() as int),
                    ) == spec_entry_name(#[trigger] s.drop_first()[i]);
                assert(s.drop_first()[i0] == s[i0 + 1]);
                assert(spec_entry_name(s[0]) != spec_entry_name(s[i0 + 1]));
                assert(spec_first_seg(q.skip(prefix.len() as int)) == spec_entry_name(
                    s[i0 + 1],
                ));
            }
        }
    }
}

/// Law: over a well-formed snapshot — entry names single path segments,
/// unique among siblings, as a directory listing reports them — the walk
/// never yields the same path twice.
pub proof fn law_walk_no_duplicates(entries: Seq<FsEntry>, recursive: bool)
    requires
        spec_wf_entries(entries),
    ensures
        spec_paths_distinct(spec_walk_entries(entries, recursive, Seq::empty())),
{
    lemma_walk_entries_shape(entries, recursive, Seq::empty());
}

} // verus!
