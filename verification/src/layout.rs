//! The toolchain stager: the on-disk directory layout computed from a
//! workspace root and a triple string, the directory-creation plan, and the
//! plan for copying stage-1 build outputs into the per-triple destination.

use vstd::prelude::*;
use vstd::string::*;

verus! {

/// `a/b`: path components joined by the directory separator.
pub open spec fn joined_path(a: Seq<char>, b: Seq<char>) -> Seq<char> {
    a + "/"@ + b
}

/// `<root>/<out>/release`: where the stage-1 build leaves its outputs.
pub open spec fn spec_build_dir(root: Seq<char>, out: Seq<char>) -> Seq<char> {
    joined_path(joined_path(root, out), "release"@)
}

/// `<root>/<out>/dist`: the root under which staged toolchains live.
pub open spec fn spec_distribution_root(root: Seq<char>, out: Seq<char>) -> Seq<char> {
    joined_path(joined_path(root, out), "dist"@)
}

/// `<root>/<out>/dist/<triple>`: the staging destination for one triple.
pub open spec fn spec_destination_dir(root: Seq<char>, out: Seq<char>, triple: Seq<char>) -> Seq<
    char,
> {
    joined_path(spec_distribution_root(root, out), triple)
}

/// The staging directories for one workspace, toolchain output root and
/// target triple. Pure functions of those inputs: recomputed each run,
/// never cached across runs.
pub struct ToolchainLayout {
    pub build_dir: String,
    pub distribution_root: String,
    pub destination_dir: String,
}

/// Join two path components with the directory separator.
pub fn join_path(a: &str, b: &str) -> (r: String)
    ensures
        r@ == joined_path(a@, b@),
{
    let mut s = String::from_str(a);
    s.append("/");
    s.append(b);
    proof {
        assert(s@ =~= joined_path(a@, b@));
    }
    s
}

impl ToolchainLayout {
    /// Compute the three staging paths for a workspace root, a toolchain
    /// output root and a rendered triple string.
    pub fn new(workspace_root: &str, toolchain_out: &str, triple_str: &str) -> (r: ToolchainLayout)
        ensures
            r.build_dir@ == spec_build_dir(workspace_root@, toolchain_out@),
            r.distribution_root@ == spec_distribution_root(workspace_root@, toolchain_out@),
            r.destination_dir@ == spec_destination_dir(
                workspace_root@,
                toolchain_out@,
                triple_str@,
            ),
    {
        let base = join_path(workspace_root, toolchain_out);
        let build_dir = join_path(base.as_str(), "release");
        let distribution_root = join_path(base.as_str(), "dist");
        let destination_dir = join_path(distribution_root.as_str(), triple_str);
        ToolchainLayout { build_dir, distribution_root, destination_dir }
    }

    /// The directories to create before staging, in creation order:
    /// nothing when the destination already exists; otherwise the
    /// distribution root first if it too is missing, then the destination.
    pub fn creation_plan(&self, destination_exists: bool, distribution_exists: bool) -> (r: Vec<
        String,
    >)
        ensures
            destination_exists ==> r.deep_view() == Seq::<Seq<char>>::empty(),
            !destination_exists && distribution_exists ==> r.deep_view() == seq![
                self.destination_dir@,
            ],
            !destination_exists && !distribution_exists ==> r.deep_view() == seq![
                self.distribution_root@,
                self.destination_dir@,
            ],
    {
        let mut r: Vec<String> = Vec::new();
        if !destination_exists {
            if !distribution_exists {
                r.push(self.distribution_root.clone());
            }
            r.push(self.destination_dir.clone());
        }
        proof {
            if destination_exists {
                assert(r.deep_view() =~= Seq::<Seq<char>>::empty());
            } else if distribution_exists {
                assert(r.deep_view() =~= seq![self.destination_dir@]);
            } else {
                assert(r.deep_view() =~= seq![self.distribution_root@, self.destination_dir@]);
            }
        }
        r
    }
}

/// One top-level entry of the stage-1 build directory, as the caller found
/// it on disk: the file name and whether the entry is a directory.
pub struct StagedEntry {
    pub name: String,
    pub is_dir: bool,
}

/// The names the copy step stages: the names of the non-directory entries,
/// in order of appearance. Subdirectories are neither recursed into nor
/// copied.
pub open spec fn copy_names(entries: Seq<StagedEntry>) -> Seq<Seq<char>>
    decreases entries.len(),
{
    if entries.len() == 0 {
        Seq::empty()
    } else {
        let rest = copy_names(entries.drop_last());
        if entries.last().is_dir {
            rest
        } else {
            rest.push(entries.last().name@)
        }
    }
}

/// The destination's set of top-level file names after the copy step:
/// whatever was already there, plus every staged name. Same-named files
/// are overwritten in place; stale extra files are never purged.
pub open spec fn staged_file_set(dest: Set<Seq<char>>, entries: Seq<StagedEntry>) -> Set<
    Seq<char>,
> {
    dest.union(copy_names(entries).to_set())
}

/// The copy step is idempotent: running it a second time against the same
/// source entries and destination leaves the destination with exactly the
/// same set of top-level files.
pub proof fn lemma_staging_idempotent(dest: Set<Seq<char>>, entries: Seq<StagedEntry>)
    ensures
        staged_file_set(staged_file_set(dest, entries), entries) == staged_file_set(dest, entries),
{
    assert(staged_file_set(staged_file_set(dest, entries), entries) =~= staged_file_set(
        dest,
        entries,
    ));
}

/// Every staged name is the name of a top-level non-directory entry of the
/// source listing: files inside source subdirectories never appear in the
/// destination.
pub proof fn lemma_copies_from_top_level(entries: Seq<StagedEntry>, nm: Seq<char>)
    requires
        copy_names(entries).contains(nm),
    ensures
        exists|i: int|
            0 <= i < entries.len() && !(#[trigger] entries[i]).is_dir && entries[i].name@ == nm,
    decreases entries.len(),
{
    let names = copy_names(entries);
    if entries.len() != 0 {
        let prefix = entries.drop_last();
        if !entries.last().is_dir && entries.last().name@ == nm {
            assert(entries[entries.len() - 1] == entries.last());
        } else {
            assert(copy_names(prefix).contains(nm)) by {
                let j = choose|j: int| 0 <= j < names.len() && names[j] == nm;
                assert(copy_names(prefix)[j] == nm);
            }
            lemma_copies_from_top_level(prefix, nm);
            let i = choose|i: int|
                0 <= i < prefix.len() && !(#[trigger] prefix[i]).is_dir && prefix[i].name@ == nm;
            assert(entries[i] == prefix[i]);
        }
    }
}

/// The names to copy from a directory listing, in order: one per
/// non-directory entry, none for subdirectories.
pub fn plan_copies(entries: &Vec<StagedEntry>) -> (names: Vec<String>)
    ensures
        names.deep_view() == copy_names(entries@),
{
    let mut names: Vec<String> = Vec::new();
    let mut i: usize = 0;
    proof {
        assert(entries@.take(0) =~= Seq::<StagedEntry>::empty());
        assert(names.deep_view() =~= copy_names(entries@.take(0)));
    }
    while i < entries.len()
        invariant
            i <= entries@.len(),
            names.deep_view() == copy_names(entries@.take(i as int)),
        decreases entries@.len() - i,
    {
        let ghost old_dv = names.deep_view();
        if !entries[i].is_dir {
            names.push(entries[i].name.clone());
        }
        proof {
            assert(entries@.take(i + 1).drop_last() =~= entries@.take(i as int));
            assert(entries@.take(i + 1).last() == entries@[i as int]);
            if !entries@[i as int].is_dir {
                assert(names.deep_view() =~= old_dv.push(entries@[i as int].name@));
            }
        }
        i = i + 1;
    }
    proof {
        assert(entries@.take(entries@.len() as int) =~= entries@);
    }
    names
}

} // verus!
