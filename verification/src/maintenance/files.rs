//! The fixed files of an installation: where they are, what they may be, and how their access
//! lists are saved and restored.

use crate::maintenance::transaction::snapshot_supported;
use crate::platform::{below, path_below};
use crate::text;
use vstd::prelude::*;

verus! {

// ---------------------------------------------------------------------------
// Where they are
// ---------------------------------------------------------------------------
/// The fixed paths of an installation.
#[derive(Debug)]
pub struct FixedPaths {
    pub program_root: String,
    pub state_root: String,
    pub journal_root: String,
    pub uninstall_journal_root: String,
    pub quarantine_root: String,
    pub program_exe: String,
    pub config: String,
}

/// A known folder as it was found.
#[derive(Debug)]
pub struct KnownFolder {
    pub path: String,
    pub absolute: bool,
    /// It is no file system root.
    pub has_parent: bool,
}

/// Why a known folder cannot be used.
#[derive(Clone, Copy, PartialEq, Eq, Structural, Debug)]
pub enum RootFault {
    NotAbsolute,
    FilesystemRoot,
}

impl RootFault {
    /// The words in which the fault of the folder `label` is reported.
    pub fn message(&self, label: &str) -> (r: String)
        ensures
            r@ == label@ + match *self {
                RootFault::NotAbsolute => " did not resolve to an absolute path"@,
                RootFault::FilesystemRoot => " resolved to a filesystem root"@,
            },
    {
        match self {
            RootFault::NotAbsolute => text::cat(label, " did not resolve to an absolute path"),
            RootFault::FilesystemRoot => text::cat(label, " resolved to a filesystem root"),
        }
    }
}

/// Whether a known folder can be used.
pub open spec fn root_verdict(folder: KnownFolder) -> Result<(), RootFault> {
    if !folder.absolute {
        Err(RootFault::NotAbsolute)
    } else if !folder.has_parent {
        Err(RootFault::FilesystemRoot)
    } else {
        Ok(())
    }
}

/// Whether a known folder can be used.
pub fn ensure_absolute_root(folder: &KnownFolder) -> (r: Result<(), RootFault>)
    ensures
        r == root_verdict(*folder),
{
    if !folder.absolute {
        return Err(RootFault::NotAbsolute);
    }
    if !folder.has_parent {
        return Err(RootFault::FilesystemRoot);
    }
    Ok(())
}

impl FixedPaths {
    /// The paths of an installation below two known folders.
    pub open spec fn placed(self, program_files: Seq<char>, program_data: Seq<char>) -> bool {
        &&& self.program_root@ == below(program_files, "UnionC Agent"@)
        &&& self.state_root@ == below(program_data, "UnionC Agent"@)
        &&& self.journal_root@ == below(program_data, "UnionC Agent.install-journal-0.3.2"@)
        &&& self.uninstall_journal_root@ == below(
            program_data,
            "UnionC Agent.uninstall-journal-0.3.2"@,
        )
        &&& self.quarantine_root@ == below(program_data, "UnionC Agent.purge-quarantine-0.3.2"@)
        &&& self.program_exe@ == below(self.program_root@, "unionc-agent.exe"@)
        &&& self.config@ == below(self.state_root@, "config.json"@)
    }

    /// The paths below the two known folders: the first folder that cannot be used is refused,
    /// with what it is called.
    pub fn discover(program_files: &KnownFolder, program_data: &KnownFolder) -> (r: Result<
        FixedPaths,
        String,
    >)
        ensures
            match r {
                Ok(paths) => root_verdict(*program_files) is Ok && root_verdict(*program_data) is Ok
                    && paths.placed(program_files.path@, program_data.path@),
                Err(message) => match (root_verdict(*program_files), root_verdict(*program_data)) {
                    (Err(RootFault::NotAbsolute), _) => message@
                        == "Program Files did not resolve to an absolute path"@,
                    (Err(RootFault::FilesystemRoot), _) => message@
                        == "Program Files resolved to a filesystem root"@,
                    (Ok(()), Err(RootFault::NotAbsolute)) => message@
                        == "ProgramData did not resolve to an absolute path"@,
                    (Ok(()), Err(RootFault::FilesystemRoot)) => message@
                        == "ProgramData resolved to a filesystem root"@,
                    (Ok(()), Ok(())) => false,
                },
            },
    {
        proof {
            reveal_strlit("Program Files");
            reveal_strlit("ProgramData");
            reveal_strlit(" did not resolve to an absolute path");
            reveal_strlit(" resolved to a filesystem root");
            reveal_strlit("Program Files did not resolve to an absolute path");
            reveal_strlit("Program Files resolved to a filesystem root");
            reveal_strlit("ProgramData did not resolve to an absolute path");
            reveal_strlit("ProgramData resolved to a filesystem root");
        }
        match ensure_absolute_root(program_files) {
            Err(fault) => {
                return Err(fault.message("Program Files"));
            },
            Ok(()) => {},
        }
        match ensure_absolute_root(program_data) {
            Err(fault) => {
                return Err(fault.message("ProgramData"));
            },
            Ok(()) => {},
        }
        let data = program_data.path.as_str();
        let program_root = path_below(program_files.path.as_str(), "UnionC Agent");
        let state_root = path_below(data, "UnionC Agent");
        Ok(
            FixedPaths {
                program_exe: path_below(program_root.as_str(), "unionc-agent.exe"),
                config: path_below(state_root.as_str(), "config.json"),
                journal_root: path_below(data, "UnionC Agent.install-journal-0.3.2"),
                uninstall_journal_root: path_below(data, "UnionC Agent.uninstall-journal-0.3.2"),
                quarantine_root: path_below(data, "UnionC Agent.purge-quarantine-0.3.2"),
                program_root,
                state_root,
            },
        )
    }
}

// ---------------------------------------------------------------------------
// What they may be
// ---------------------------------------------------------------------------
/// What is at a path, without following a reparse point.
#[derive(Clone, Copy, PartialEq, Eq, Structural, Debug)]
pub struct Found {
    pub is_directory: bool,
    pub is_file: bool,
    pub is_reparse_point: bool,
    /// How many names a file has.
    pub links: u32,
}

/// Why something must not be at a path.
#[derive(Clone, Copy, PartialEq, Eq, Structural, Debug)]
pub enum FileFault {
    NotDirectory,
    ReparsePoint,
    NotRegular,
    ManyLinks,
    Content,
}

/// Whether a managed directory is a real one.
pub fn judge_directory(found: Found) -> (r: Result<(), FileFault>)
    ensures
        r == if !found.is_directory {
            Err::<(), FileFault>(FileFault::NotDirectory)
        } else if found.is_reparse_point {
            Err(FileFault::ReparsePoint)
        } else {
            Ok(())
        },
{
    if !found.is_directory {
        return Err(FileFault::NotDirectory);
    }
    if found.is_reparse_point {
        return Err(FileFault::ReparsePoint);
    }
    Ok(())
}

/// Whether a file is a regular one with a single name.
pub open spec fn regular_verdict(found: Found) -> Result<(), FileFault> {
    if !found.is_file {
        Err(FileFault::NotRegular)
    } else if found.is_reparse_point {
        Err(FileFault::ReparsePoint)
    } else if found.links != 1 {
        Err(FileFault::ManyLinks)
    } else {
        Ok(())
    }
}

/// Whether a file is a regular one with a single name.
pub fn judge_regular_single_link(found: Found) -> (r: Result<(), FileFault>)
    ensures
        r == regular_verdict(found),
{
    if !found.is_file {
        return Err(FileFault::NotRegular);
    }
    if found.is_reparse_point {
        return Err(FileFault::ReparsePoint);
    }
    if found.links != 1 {
        return Err(FileFault::ManyLinks);
    }
    Ok(())
}

/// Whether an entry of a managed tree may be there; it is entered where it is a directory.
pub open spec fn entry_verdict(found: Found) -> Result<bool, FileFault> {
    if found.is_reparse_point {
        Err(FileFault::ReparsePoint)
    } else if found.is_directory {
        Ok(true)
    } else if !found.is_file {
        Err(FileFault::NotRegular)
    } else if found.links != 1 {
        Err(FileFault::ManyLinks)
    } else {
        Ok(false)
    }
}

/// Whether an entry of a managed tree may be there; it is entered where it is a directory.
pub fn judge_tree_entry(found: Found) -> (r: Result<bool, FileFault>)
    ensures
        r == entry_verdict(found),
{
    if found.is_reparse_point {
        return Err(FileFault::ReparsePoint);
    }
    if found.is_directory {
        return Ok(true);
    }
    if !found.is_file {
        return Err(FileFault::NotRegular);
    }
    if found.links != 1 {
        return Err(FileFault::ManyLinks);
    }
    Ok(false)
}

/// The fault of an entry of a managed tree, in words.
pub fn tree_fault_message(fault: FileFault, path: &str) -> (r: String)
    ensures
        r@ == match fault {
            FileFault::ReparsePoint => "managed tree contains a reparse point: "@ + path@,
            FileFault::ManyLinks => "managed tree contains a multiply-linked file: "@ + path@,
            _ => "managed tree contains a special file: "@ + path@,
        },
{
    match fault {
        FileFault::ReparsePoint => text::cat("managed tree contains a reparse point: ", path),
        FileFault::ManyLinks => text::cat("managed tree contains a multiply-linked file: ", path),
        _ => text::cat("managed tree contains a special file: ", path),
    }
}

/// The fault of a directory that is called `label`, in words.
pub fn directory_fault_message(fault: FileFault, label: &str, path: &str) -> (r: String)
    ensures
        r@ == match fault {
            FileFault::ReparsePoint => label@ + " is a reparse point: "@ + path@,
            _ => label@ + " is not a directory: "@ + path@,
        },
{
    match fault {
        FileFault::ReparsePoint => text::cat3(label, " is a reparse point: ", path),
        _ => text::cat3(label, " is not a directory: ", path),
    }
}

/// The fault of a file that is called `label`, in words.
pub fn file_fault_message(fault: FileFault, label: &str) -> (r: String)
    ensures
        r@ == label@ + match fault {
            FileFault::ReparsePoint => " is a reparse point"@,
            FileFault::ManyLinks => " has multiple hard links"@,
            FileFault::Content => " content is invalid"@,
            _ => " is not a regular file"@,
        },
{
    match fault {
        FileFault::ReparsePoint => text::cat(label, " is a reparse point"),
        FileFault::ManyLinks => text::cat(label, " has multiple hard links"),
        FileFault::Content => text::cat(label, " content is invalid"),
        _ => text::cat(label, " is not a regular file"),
    }
}

/// The name of the file that marks the state root as the agent's.
pub fn state_marker() -> (r: &'static str)
    ensures
        r@ == ".unionc-agent-managed-0.3.2"@,
{
    ".unionc-agent-managed-0.3.2"
}

/// What that file holds.
pub fn state_marker_content() -> (r: &'static str)
    ensures
        r@ == "unionc-agent-windows-state-0.3.2\r\n"@,
{
    "unionc-agent-windows-state-0.3.2\r\n"
}

/// What the file holds that marks a purge as begun.
pub fn purge_started_content() -> (r: &'static str)
    ensures
        r@ == "unionc-agent-purge-started-v2-0.3.2\r\n"@,
{
    "unionc-agent-purge-started-v2-0.3.2\r\n"
}

/// Whether the marker of the state root is the agent's.
pub fn judge_marker_file(found: Found, content: &Vec<u8>) -> (r: Result<(), FileFault>)
    ensures
        r == if regular_verdict(found) is Err {
            regular_verdict(found)
        } else if content@ != vstd::utf8::encode_utf8("unionc-agent-windows-state-0.3.2\r\n"@) {
            Err(FileFault::Content)
        } else {
            Ok(())
        },
{
    match judge_regular_single_link(found) {
        Err(fault) => {
            return Err(fault);
        },
        Ok(()) => {},
    }
    let expected = text::to_bytes(state_marker_content());
    if !text::same_bytes(content, &expected) {
        return Err(FileFault::Content);
    }
    Ok(())
}

/// Whether a purge has begun, by what its marker holds where there is one: nothing where the
/// marker is not of this package.
pub fn purge_started(content: Option<Vec<u8>>) -> (r: Option<bool>)
    ensures
        r == match content {
            None => Some(false),
            Some(bytes) => if bytes@ == vstd::utf8::encode_utf8(
                "unionc-agent-purge-started-v2-0.3.2\r\n"@,
            ) {
                Some(true)
            } else {
                None
            },
        },
{
    match content {
        None => Some(false),
        Some(bytes) => {
            let expected = text::to_bytes(purge_started_content());
            if text::same_bytes(&bytes, &expected) {
                Some(true)
            } else {
                None
            }
        },
    }
}

/// A tree is removed from its leaves: nothing that the walk over it enters is a reparse point.
pub proof fn a_walk_stays_in_its_tree(found: Found)
    ensures
        entry_verdict(found) is Ok ==> !found.is_reparse_point,
        entry_verdict(found) == Ok::<bool, FileFault>(false) ==> found.is_file && found.links == 1,
        entry_verdict(found) == Ok::<bool, FileFault>(true) ==> found.is_directory,
{
}

// ---------------------------------------------------------------------------
// Saved access lists
// ---------------------------------------------------------------------------
/// The access list of one file or directory of a tree.
#[derive(Debug)]
pub struct AclEntry {
    /// Its path below the root of the tree, in UTF-16; empty for the root.
    pub path: Vec<u16>,
    /// How many components the path has.
    pub depth: usize,
    /// All of them are plain names.
    pub plain: bool,
    pub is_directory: bool,
    pub sddl: String,
}

/// Why a saved list cannot be restored.
#[derive(Clone, Copy, PartialEq, Eq, Structural, Debug)]
pub enum AclFault {
    Version,
    Empty,
    Duplicate,
    NoRoot,
    NotRelative,
    Reparse,
    TypeChanged,
    ManyLinks,
}

impl AclFault {
    /// The words in which the fault is reported.
    pub open spec fn text(self) -> Seq<char> {
        match self {
            AclFault::Version => "unsupported ACL snapshot version"@,
            AclFault::Empty => "ACL snapshot is empty"@,
            AclFault::Duplicate => "ACL snapshot contains a duplicate path"@,
            AclFault::NoRoot => "ACL snapshot does not contain its managed root"@,
            AclFault::NotRelative => "ACL snapshot contains a non-relative managed path"@,
            AclFault::Reparse => "ACL snapshot target became a reparse point"@,
            AclFault::TypeChanged => "ACL snapshot target changed type"@,
            AclFault::ManyLinks => "ACL snapshot target became multiply linked"@,
        }
    }

    /// The words in which the fault is reported.
    pub fn message(&self) -> (r: String)
        ensures
            r@ == self.text(),
    {
        match self {
            AclFault::Version => text::owned("unsupported ACL snapshot version"),
            AclFault::Empty => text::owned("ACL snapshot is empty"),
            AclFault::Duplicate => text::owned("ACL snapshot contains a duplicate path"),
            AclFault::NoRoot => text::owned("ACL snapshot does not contain its managed root"),
            AclFault::NotRelative => text::owned(
                "ACL snapshot contains a non-relative managed path",
            ),
            AclFault::Reparse => text::owned("ACL snapshot target became a reparse point"),
            AclFault::TypeChanged => text::owned("ACL snapshot target changed type"),
            AclFault::ManyLinks => text::owned("ACL snapshot target became multiply linked"),
        }
    }
}

/// Two entries are of the same path.
pub open spec fn has_duplicate(entries: Seq<AclEntry>) -> bool {
    exists|i: int, j: int|
        0 <= i < j < entries.len() && #[trigger] entries[i].path@ == #[trigger] entries[j].path@
}

/// Some entry is of the root.
pub open spec fn has_root(entries: Seq<AclEntry>) -> bool {
    exists|i: int| 0 <= i < entries.len() && (#[trigger] entries[i]).path@.len() == 0
}

/// Whether a snapshot can be restored as a whole.
pub open spec fn snapshot_verdict(format: u32, version: Seq<char>, entries: Seq<AclEntry>) -> Result<
    (),
    AclFault,
> {
    if format != crate::maintenance::transaction::SNAPSHOT_FORMAT || version != "0.3.2"@ {
        Err(AclFault::Version)
    } else if entries.len() == 0 {
        Err(AclFault::Empty)
    } else if has_duplicate(entries) {
        Err(AclFault::Duplicate)
    } else if !has_root(entries) {
        Err(AclFault::NoRoot)
    } else {
        Ok(())
    }
}

fn same_units(a: &Vec<u16>, b: &Vec<u16>) -> (r: bool)
    ensures
        r == (a@ == b@),
{
    if a.len() != b.len() {
        return false;
    }
    let mut i: usize = 0;
    while i < a.len()
        invariant
            i <= a@.len(),
            a@.len() == b@.len(),
            forall|j: int| 0 <= j < i ==> a@[j] == b@[j],
        decreases a@.len() - i,
    {
        if a[i] != b[i] {
            return false;
        }
        i += 1;
    }
    assert(a@ =~= b@);
    true
}

fn find_duplicate(entries: &Vec<AclEntry>) -> (r: bool)
    ensures
        r == has_duplicate(entries@),
{
    let mut j: usize = 0;
    while j < entries.len()
        invariant
            j <= entries@.len(),
            forall|a: int, b: int|
                0 <= a < b < j ==> #[trigger] entries@[a].path@ != #[trigger] entries@[b].path@,
        decreases entries@.len() - j,
    {
        let mut i: usize = 0;
        while i < j
            invariant
                i <= j < entries@.len(),
                forall|a: int|
                    0 <= a < i ==> #[trigger] entries@[a].path@ != entries@[j as int].path@,
            decreases j - i,
        {
            if same_units(&entries[i].path, &entries[j].path) {
                assert(entries@[i as int].path@ == entries@[j as int].path@);
                return true;
            }
            i += 1;
        }
        j += 1;
    }
    false
}

fn find_root(entries: &Vec<AclEntry>) -> (r: bool)
    ensures
        r == has_root(entries@),
{
    let mut i: usize = 0;
    while i < entries.len()
        invariant
            i <= entries@.len(),
            forall|a: int| 0 <= a < i ==> (#[trigger] entries@[a]).path@.len() != 0,
        decreases entries@.len() - i,
    {
        if entries[i].path.len() == 0 {
            return true;
        }
        i += 1;
    }
    false
}

/// Whether a snapshot can be restored as a whole.
pub fn judge_acl_snapshot(format: u32, version: &str, entries: &Vec<AclEntry>) -> (r: Result<
    (),
    AclFault,
>)
    ensures
        r == snapshot_verdict(format, version@, entries@),
{
    if !snapshot_supported(format, version) {
        return Err(AclFault::Version);
    }
    if entries.len() == 0 {
        return Err(AclFault::Empty);
    }
    if find_duplicate(entries) {
        return Err(AclFault::Duplicate);
    }
    if !find_root(entries) {
        return Err(AclFault::NoRoot);
    }
    Ok(())
}

/// Each of the numbers below `n` stands in `order` once.
pub open spec fn is_ordering(order: Seq<usize>, n: nat) -> bool {
    &&& order.len() == n
    &&& forall|i: int| 0 <= i < n ==> (#[trigger] order[i]) < n
    &&& forall|i: int, j: int| 0 <= i < j < n ==> #[trigger] order[i] != #[trigger] order[j]
}

/// `order` takes the entries by their depth, and those of one depth as they stand.
pub open spec fn by_depth(order: Seq<usize>, entries: Seq<AclEntry>) -> bool {
    &&& is_ordering(order, entries.len())
    &&& forall|i: int, j: int|
        0 <= i < j < order.len() ==> {
            let a = entries[#[trigger] order[i] as int].depth;
            let b = entries[#[trigger] order[j] as int].depth;
            a < b || a == b && order[i] < order[j]
        }
}

/// The order in which the entries are restored: a directory before what is in it.
pub fn restoration_order(entries: &Vec<AclEntry>) -> (r: Vec<usize>)
    ensures
        by_depth(r@, entries@),
{
    let mut order: Vec<usize> = Vec::new();
    let mut n: usize = 0;
    while n < entries.len()
        invariant
            n <= entries@.len(),
            is_ordering(order@, n as nat),
            forall|i: int, j: int|
                0 <= i < j < order@.len() ==> {
                    let a = entries@[#[trigger] order@[i] as int].depth;
                    let b = entries@[#[trigger] order@[j] as int].depth;
                    a < b || a == b && order@[i] < order@[j]
                },
        decreases entries@.len() - n,
    {
        let depth: usize = entries[n].depth;
        let mut at: usize = order.len();
        while at > 0 && entries[order[at - 1]].depth > depth
            invariant
                at <= order@.len(),
                n < entries@.len(),
                is_ordering(order@, n as nat),
                depth == entries@[n as int].depth,
                forall|k: int|
                    at <= k < order@.len() ==> entries@[#[trigger] order@[k] as int].depth > depth,
            decreases at,
        {
            at -= 1;
        }
        let ghost before = order@;
        proof {
            assert forall|k: int| 0 <= k < at implies entries@[#[trigger] before[k] as int].depth
                <= depth by {
                assert(entries@[before[at - 1] as int].depth <= depth);
                if k < at - 1 {
                    let a = entries@[before[k] as int].depth;
                    let b = entries@[before[at - 1] as int].depth;
                    assert(a <= b);
                }
            }
        }
        order.insert(at, n);
        proof {
            let after = order@;
            assert(after =~= before.insert(at as int, n));
            assert forall|i: int| 0 <= i < n + 1 implies (#[trigger] after[i]) < n + 1 by {
                if i < at {
                    assert(after[i] == before[i]);
                } else if i > at {
                    assert(after[i] == before[i - 1]);
                }
            }
            assert forall|i: int, j: int| 0 <= i < j < n + 1 implies #[trigger] after[i]
                != #[trigger] after[j] && ({
                let a = entries@[after[i] as int].depth;
                let b = entries@[after[j] as int].depth;
                a < b || a == b && after[i] < after[j]
            }) by {
                let i0 = if i < at { i } else { i - 1 };
                let j0 = if j < at { j } else { j - 1 };
                if i != at {
                    assert(after[i] == before[i0]);
                }
                if j != at {
                    assert(after[j] == before[j0]);
                }
                if i != at && j != at {
                    assert(before[i0] != before[j0]);
                }
            }
        }
        n += 1;
    }
    order
}

/// `a` stands before `b` in a snapshot, or is the same path: the first code unit that differs
/// decides, and a path stands before those that continue it.
pub open spec fn precedes(a: Seq<u16>, b: Seq<u16>) -> bool
    decreases a.len(),
{
    a.len() == 0 || b.len() > 0 && (a[0] < b[0] || a[0] == b[0] && precedes(
        a.drop_first(),
        b.drop_first(),
    ))
}

proof fn lemma_precedes_total(a: Seq<u16>, b: Seq<u16>)
    ensures
        precedes(a, b) || precedes(b, a),
    decreases a.len(),
{
    if a.len() > 0 && b.len() > 0 {
        lemma_precedes_total(a.drop_first(), b.drop_first());
    }
}

proof fn lemma_precedes_transitive(a: Seq<u16>, b: Seq<u16>, c: Seq<u16>)
    requires
        precedes(a, b),
        precedes(b, c),
    ensures
        precedes(a, c),
    decreases a.len(),
{
    if a.len() > 0 && b.len() > 0 && c.len() > 0 && a[0] == b[0] && b[0] == c[0] {
        lemma_precedes_transitive(a.drop_first(), b.drop_first(), c.drop_first());
    }
}

fn stands_before(a: &Vec<u16>, b: &Vec<u16>) -> (r: bool)
    ensures
        r == precedes(a@, b@),
{
    let mut i: usize = 0;
    assert(a@.skip(0) =~= a@);
    assert(b@.skip(0) =~= b@);
    while i < a.len()
        invariant
            i <= a@.len(),
            i <= b@.len(),
            precedes(a@, b@) == precedes(a@.skip(i as int), b@.skip(i as int)),
        decreases a@.len() - i,
    {
        if i >= b.len() {
            return false;
        }
        if a[i] != b[i] {
            return a[i] < b[i];
        }
        proof {
            assert(a@.skip(i as int).drop_first() =~= a@.skip(i + 1));
            assert(b@.skip(i as int).drop_first() =~= b@.skip(i + 1));
        }
        i += 1;
    }
    true
}

/// Put the entries of a snapshot in the order in which they are saved.
pub fn sort_entries(entries: Vec<AclEntry>) -> (r: Vec<AclEntry>)
    ensures
        r@.to_multiset() == entries@.to_multiset(),
        forall|i: int, j: int|
            0 <= i < j < r@.len() ==> precedes(#[trigger] r@[i].path@, #[trigger] r@[j].path@),
{
    let ghost given = entries@;
    let mut rest = entries;
    let mut sorted: Vec<AclEntry> = Vec::new();
    proof {
        assert(sorted@.to_multiset().add(rest@.to_multiset()) =~= given.to_multiset()) by {
            sorted@.to_multiset_ensures();
        }
    }
    while rest.len() > 0
        invariant
            sorted@.to_multiset().add(rest@.to_multiset()) =~= given.to_multiset(),
            forall|i: int, j: int|
                0 <= i < j < sorted@.len() ==> precedes(
                    #[trigger] sorted@[i].path@,
                    #[trigger] sorted@[j].path@,
                ),
        decreases rest@.len(),
    {
        let ghost left = rest@;
        let entry = rest.remove(0);
        let ghost before = sorted@;
        let mut at: usize = sorted.len();
        while at > 0 && !stands_before(&sorted[at - 1].path, &entry.path)
            invariant
                at <= sorted@.len(),
                sorted@ == before,
                forall|k: int|
                    at <= k < sorted@.len() ==> precedes(entry.path@, #[trigger] sorted@[k].path@),
            decreases at,
        {
            proof {
                lemma_precedes_total(sorted@[at - 1].path@, entry.path@);
            }
            at -= 1;
        }
        sorted.insert(at, entry);
        proof {
            let after = sorted@;
            assert(after =~= before.insert(at as int, entry));
            assert forall|i: int, j: int| 0 <= i < j < after.len() implies precedes(
                #[trigger] after[i].path@,
                #[trigger] after[j].path@,
            ) by {
                if j == at {
                    assert(after[i] == before[i]);
                    if i < at - 1 {
                        lemma_precedes_transitive(
                            before[i].path@,
                            before[at - 1].path@,
                            entry.path@,
                        );
                    }
                } else if i == at {
                    assert(after[j] == before[j - 1]);
                } else {
                    let i0 = if i < at { i } else { i - 1 };
                    let j0 = if j < at { j } else { j - 1 };
                    assert(after[i] == before[i0]);
                    assert(after[j] == before[j0]);
                }
            }
            assert(left =~= seq![entry] + rest@);
            vstd::seq_lib::lemma_multiset_commutative(seq![entry], rest@);
            vstd::seq_lib::to_multiset_insert(before, at as int, entry);
            assert(seq![entry].to_multiset() =~= vstd::multiset::Multiset::singleton(entry)) by {
                Seq::<AclEntry>::empty().to_multiset_ensures();
                assert(seq![entry] =~= Seq::<AclEntry>::empty().push(entry));
            }
        }
    }
    proof {
        rest@.to_multiset_ensures();
        assert(rest@.to_multiset() =~= vstd::multiset::Multiset::empty());
    }
    sorted
}

/// Whether one saved list may be restored to what is at its path now.
pub open spec fn target_verdict(entry: AclEntry, found: Found) -> Result<(), AclFault> {
    if !entry.plain {
        Err(AclFault::NotRelative)
    } else if found.is_reparse_point {
        Err(AclFault::Reparse)
    } else if found.is_directory != entry.is_directory {
        Err(AclFault::TypeChanged)
    } else if found.is_file && found.links != 1 {
        Err(AclFault::ManyLinks)
    } else {
        Ok(())
    }
}

/// Whether one saved list may be restored to what is at its path now.
pub fn judge_acl_target(entry: &AclEntry, found: Found) -> (r: Result<(), AclFault>)
    ensures
        r == target_verdict(*entry, found),
{
    if !entry.plain {
        return Err(AclFault::NotRelative);
    }
    if found.is_reparse_point {
        return Err(AclFault::Reparse);
    }
    if found.is_directory != entry.is_directory {
        return Err(AclFault::TypeChanged);
    }
    if found.is_file && found.links != 1 {
        return Err(AclFault::ManyLinks);
    }
    Ok(())
}

/// In a snapshot that may be restored the order begins with an entry of the least depth, and no
/// entry comes before one of less depth.
pub proof fn directories_are_restored_first(order: Seq<usize>, entries: Seq<AclEntry>, i: int, j: int)
    requires
        by_depth(order, entries),
        0 <= i < order.len(),
        0 <= j < order.len(),
        entries[order[i] as int].depth < entries[order[j] as int].depth,
    ensures
        i < j,
{
    if j < i {
        let a = entries[order[j] as int].depth;
        let b = entries[order[i] as int].depth;
        assert(a <= b);
    }
}

/// The fixed paths are found exactly where both folders are absolute and no file system roots.
pub proof fn where_the_fixed_paths_lie(
    program_files: KnownFolder,
    program_data: KnownFolder,
    r: Result<FixedPaths, String>,
)
    requires
        call_ensures(FixedPaths::discover, (&program_files, &program_data), r),
    ensures
        r is Ok <==> program_files.absolute && program_files.has_parent && program_data.absolute
            && program_data.has_parent,
        r matches Ok(paths) ==> {
            let data = program_data.path@;
            let program = below(program_files.path@, "UnionC Agent"@);
            let state = below(data, "UnionC Agent"@);
            &&& paths.program_root@ == program
            &&& paths.program_exe@ == below(program, "unionc-agent.exe"@)
            &&& paths.state_root@ == state
            &&& paths.config@ == below(state, "config.json"@)
            &&& paths.journal_root@ == below(data, "UnionC Agent.install-journal-0.3.2"@)
            &&& paths.uninstall_journal_root@ == below(
                data,
                "UnionC Agent.uninstall-journal-0.3.2"@,
            )
            &&& paths.quarantine_root@ == below(data, "UnionC Agent.purge-quarantine-0.3.2"@)
        },
        r matches Err(message) ==> message@ == (if !program_files.absolute
            || !program_files.has_parent {
            "Program Files"@
        } else {
            "ProgramData"@
        }) + (if !program_files.absolute || program_files.has_parent && !program_data.absolute {
            " did not resolve to an absolute path"@
        } else {
            " resolved to a filesystem root"@
        }),
{
    reveal_strlit("Program Files");
    reveal_strlit("ProgramData");
    reveal_strlit(" did not resolve to an absolute path");
    reveal_strlit(" resolved to a filesystem root");
    reveal_strlit("Program Files did not resolve to an absolute path");
    reveal_strlit("Program Files resolved to a filesystem root");
    reveal_strlit("ProgramData did not resolve to an absolute path");
    reveal_strlit("ProgramData resolved to a filesystem root");
    assert("Program Files"@ + " did not resolve to an absolute path"@
        =~= "Program Files did not resolve to an absolute path"@);
    assert("Program Files"@ + " resolved to a filesystem root"@
        =~= "Program Files resolved to a filesystem root"@);
    assert("ProgramData"@ + " did not resolve to an absolute path"@
        =~= "ProgramData did not resolve to an absolute path"@);
    assert("ProgramData"@ + " resolved to a filesystem root"@
        =~= "ProgramData resolved to a filesystem root"@);
}

/// A directory is accepted exactly where it is one and no reparse point; a file where it is a
/// regular one, no reparse point and known by one name alone.
pub proof fn which_directories_and_files_are_accepted(found: Found, r: Result<(), FileFault>)
    requires
        call_ensures(judge_directory, (found,), r),
    ensures
        r is Ok <==> found.is_directory && !found.is_reparse_point,
        r == Err::<(), FileFault>(FileFault::NotDirectory) <==> !found.is_directory,
        r matches Err(fault) ==> fault == FileFault::NotDirectory || fault
            == FileFault::ReparsePoint,
        regular_verdict(found) is Ok <==> found.is_file && !found.is_reparse_point && found.links
            == 1,
        regular_verdict(found) == Err::<(), FileFault>(FileFault::NotRegular) <==> !found.is_file,
        regular_verdict(found) == Err::<(), FileFault>(FileFault::ReparsePoint) <==> found.is_file
            && found.is_reparse_point,
        regular_verdict(found) == Err::<(), FileFault>(FileFault::ManyLinks) <==> found.is_file
            && !found.is_reparse_point && found.links != 1,
{
}

/// What a walk finds is a directory to go into or a regular file with one name; anything else ends
/// it, a reparse point before all.
pub proof fn what_a_walk_accepts(found: Found)
    ensures
        entry_verdict(found) == Ok::<bool, FileFault>(true) <==> !found.is_reparse_point
            && found.is_directory,
        entry_verdict(found) == Ok::<bool, FileFault>(false) <==> !found.is_reparse_point
            && !found.is_directory && found.is_file && found.links == 1,
        entry_verdict(found) == Err::<bool, FileFault>(FileFault::ReparsePoint)
            <==> found.is_reparse_point,
        entry_verdict(found) == Err::<bool, FileFault>(FileFault::NotRegular)
            <==> !found.is_reparse_point && !found.is_directory && !found.is_file,
        entry_verdict(found) == Err::<bool, FileFault>(FileFault::ManyLinks)
            <==> !found.is_reparse_point && !found.is_directory && found.is_file && found.links
            != 1,
{
}

/// A marker is accepted where it is a regular file that holds the words of the marker and nothing
/// else.
pub proof fn which_markers_are_accepted(found: Found, content: Vec<u8>, r: Result<(), FileFault>)
    requires
        call_ensures(judge_marker_file, (found, &content), r),
    ensures
        r is Ok <==> found.is_file && !found.is_reparse_point && found.links == 1 && content@
            == vstd::utf8::encode_utf8("unionc-agent-windows-state-0.3.2\r\n"@),
        r == Err::<(), FileFault>(FileFault::Content) ==> found.is_file && !found.is_reparse_point
            && found.links == 1,
        !found.is_file ==> r == Err::<(), FileFault>(FileFault::NotRegular),
{
}

/// A purge has started where its mark is there and holds its words; without a mark it has not, and
/// a mark with other words says neither.
pub proof fn when_a_purge_has_started(content: Option<Vec<u8>>, r: Option<bool>)
    requires
        call_ensures(purge_started, (content,), r),
    ensures
        r == Some(false) <==> content is None,
        r == Some(true) <==> (content matches Some(bytes) && bytes@ == vstd::utf8::encode_utf8(
            "unionc-agent-purge-started-v2-0.3.2\r\n"@,
        )),
{
}

/// A snapshot of access is accepted exactly where it has the known form and version, holds its
/// root, and no path twice.
pub proof fn which_snapshots_are_accepted(format: u32, version: Seq<char>, entries: Seq<AclEntry>)
    ensures
        ({
            let verdict = snapshot_verdict(format, version, entries);
            let known = format == 2 && version == "0.3.2"@;
            let twice = exists|i: int, j: int|
                0 <= i < j < entries.len() && #[trigger] entries[i].path@
                    == #[trigger] entries[j].path@;
            let rooted = exists|i: int|
                0 <= i < entries.len() && (#[trigger] entries[i]).path@.len() == 0;
            &&& verdict is Ok <==> known && !twice && rooted
            &&& !known ==> verdict == Err::<(), AclFault>(AclFault::Version)
            &&& known && entries.len() == 0 ==> verdict == Err::<(), AclFault>(AclFault::Empty)
            &&& known && twice ==> verdict == Err::<(), AclFault>(AclFault::Duplicate)
            &&& known && entries.len() > 0 && !twice && !rooted ==> verdict == Err::<(), AclFault>(
                AclFault::NoRoot,
            )
        }),
{
}

/// Access is restored only to what a snapshot names plainly and what is still of its kind, no
/// reparse point and, as a file, of one name.
pub proof fn what_access_is_restored_to(entry: AclEntry, found: Found)
    ensures
        target_verdict(entry, found) is Ok <==> entry.plain && !found.is_reparse_point
            && found.is_directory == entry.is_directory && (found.is_file ==> found.links == 1),
        target_verdict(entry, found) == Err::<(), AclFault>(AclFault::NotRelative)
            <==> !entry.plain,
        target_verdict(entry, found) == Err::<(), AclFault>(AclFault::Reparse) <==> entry.plain
            && found.is_reparse_point,
        target_verdict(entry, found) == Err::<(), AclFault>(AclFault::TypeChanged) <==> entry.plain
            && !found.is_reparse_point && found.is_directory != entry.is_directory,
{
}

} // verus!
