use vstd::prelude::*;

verus! {

/// Name of the manifest file that marks the root of a Foundry project.
pub const MANIFEST_FILE_NAME: &'static str = "foundry.toml";

/// The extension that marks a Solidity source file.
pub const SOURCE_EXTENSION: &'static str = "sol";

/// The language label reported when a project is detected.
pub const LANGUAGE: &'static str = "Solidity";

/// Whether `ext` is, character for character, the Solidity source extension.
///
/// The comparison is case-sensitive: `SOL` or `Sol` do not count.
pub open spec fn matches_source_extension(ext: Seq<char>) -> bool {
    ext == "sol"@
}

/// Tests an extension (without its dot) against the Solidity source extension.
pub fn is_source_extension(ext: &String) -> (r: bool)
    ensures
        r == matches_source_extension(ext@),
{
    let wanted = SOURCE_EXTENSION.to_owned();
    *ext == wanted
}

/// One item yielded by a recursive walk of the directory under test.
#[derive(Debug, PartialEq, Eq)]
pub enum WalkEntry {
    /// An entry the walk could read, with the extension of its path (without
    /// the dot), or `None` when the path has no extension or it is not text.
    Found { extension: Option<String> },
    /// An entry the walk could not read (a permission error, a broken link).
    Failed,
}

/// What the file system shows of one directory: whether the manifest sits
/// directly inside it, and the entries of a recursive walk from it (the whole
/// walk, or the walk up to its first Solidity source file).
#[derive(Debug)]
pub struct DirectoryScan {
    pub manifest_present: bool,
    pub entries: Vec<WalkEntry>,
}

/// The outcome of one detection: a language label on success, nothing otherwise.
#[derive(Debug, PartialEq, Eq)]
pub enum DetectResult {
    Pass(String),
    Fail,
}

impl View for DetectResult {
    type V = Option<Seq<char>>;

    open spec fn view(&self) -> Option<Seq<char>> {
        match self {
            DetectResult::Pass(label) => Some(label@),
            DetectResult::Fail => None,
        }
    }
}

impl DetectResult {
    /// A successful detection carrying `label`.
    pub fn pass(label: String) -> (r: DetectResult)
        ensures
            r@ == Some(label@),
    {
        DetectResult::Pass(label)
    }

    /// An unsuccessful detection.
    pub fn fail() -> (r: DetectResult)
        ensures
            r@ == None::<Seq<char>>,
    {
        DetectResult::Fail
    }

    /// Whether this is a successful detection.
    pub fn is_pass(&self) -> (r: bool)
        ensures
            r == self@.is_some(),
    {
        match self {
            DetectResult::Pass(_) => true,
            DetectResult::Fail => false,
        }
    }
}

/// Whether a walk entry counts as evidence of a Solidity source file: it was
/// readable and its extension is the source extension.
pub open spec fn is_source_entry(e: WalkEntry) -> bool {
    match e {
        WalkEntry::Found { extension: Some(ext) } => matches_source_extension(ext@),
        _ => false,
    }
}

/// Whether some entry of the walk is a Solidity source file.
pub open spec fn has_source_entry(entries: Seq<WalkEntry>) -> bool {
    exists|i: int| 0 <= i < entries.len() && #[trigger] is_source_entry(entries[i])
}

/// The verdict on a directory: the Solidity label exactly when the manifest is
/// present and some readable entry is a Solidity source file.
pub open spec fn verdict(manifest_present: bool, entries: Seq<WalkEntry>) -> Option<Seq<char>> {
    if manifest_present && has_source_entry(entries) {
        Some("Solidity"@)
    } else {
        None
    }
}

/// The verdict depends on what the walk found, not on the order in which it
/// found it: two walks of an unchanged directory that yield the same entries,
/// in any order and with any repetition, get the same verdict. In particular
/// detecting twice on one scan gives one answer.
pub proof fn lemma_verdict_independent_of_walk_order(
    manifest_present: bool,
    a: Seq<WalkEntry>,
    b: Seq<WalkEntry>,
)
    requires
        forall|i: int| 0 <= i < a.len() ==> b.contains(#[trigger] a[i]),
        forall|j: int| 0 <= j < b.len() ==> a.contains(#[trigger] b[j]),
    ensures
        verdict(manifest_present, a) == verdict(manifest_present, b),
{
    if has_source_entry(a) {
        let i = choose|i: int| 0 <= i < a.len() && #[trigger] is_source_entry(a[i]);
        assert(b.contains(a[i]));
        let j = choose|j: int| 0 <= j < b.len() && b[j] == a[i];
        assert(is_source_entry(b[j]));
    }
    if has_source_entry(b) {
        let j = choose|j: int| 0 <= j < b.len() && #[trigger] is_source_entry(b[j]);
        assert(a.contains(b[j]));
        let i = choose|i: int| 0 <= i < a.len() && a[i] == b[j];
        assert(is_source_entry(a[i]));
    }
}

/// An entry that the walk could not read is skipped: adding one anywhere in
/// the walk leaves the verdict as the remaining entries give it.
pub proof fn lemma_failed_entry_ignored(manifest_present: bool, entries: Seq<WalkEntry>, i: int)
    requires
        0 <= i <= entries.len(),
    ensures
        verdict(manifest_present, entries.insert(i, WalkEntry::Failed)) == verdict(
            manifest_present,
            entries,
        ),
{
    let longer = entries.insert(i, WalkEntry::Failed);
    if has_source_entry(entries) {
        let k = choose|k: int| 0 <= k < entries.len() && #[trigger] is_source_entry(entries[k]);
        if k < i {
            assert(longer[k] == entries[k]);
        } else {
            assert(longer[k + 1] == entries[k]);
        }
    }
    if has_source_entry(longer) {
        let k = choose|k: int| 0 <= k < longer.len() && #[trigger] is_source_entry(longer[k]);
        assert(k != i);
        if k < i {
            assert(longer[k] == entries[k]);
        } else {
            assert(longer[k] == entries[k - 1]);
        }
    }
}

/// Stopping the walk at the first Solidity source file gives the verdict of
/// the whole walk.
pub proof fn lemma_walk_may_stop_at_first_source(
    manifest_present: bool,
    entries: Seq<WalkEntry>,
    k: int,
)
    requires
        0 <= k < entries.len(),
        is_source_entry(entries[k]),
    ensures
        verdict(manifest_present, entries.take(k + 1)) == verdict(manifest_present, entries),
{
    let prefix = entries.take(k + 1);
    assert(prefix[k] == entries[k]);
    assert(has_source_entry(prefix));
    assert(has_source_entry(entries));
}

/// Tests whether one walk entry is a readable Solidity source file.
pub fn is_source_file(entry: &WalkEntry) -> (r: bool)
    ensures
        r == is_source_entry(*entry),
{
    match entry {
        WalkEntry::Found { extension: Some(ext) } => is_source_extension(ext),
        _ => false,
    }
}

/// Scans the entries of a walk for a Solidity source file, stopping at the
/// first one found. Entries the walk could not read are skipped.
pub fn has_source_file(entries: &Vec<WalkEntry>) -> (r: bool)
    ensures
        r == has_source_entry(entries@),
{
    let mut i: usize = 0;
    while i < entries.len()
        invariant
            i <= entries@.len(),
            forall|j: int| 0 <= j < i ==> !is_source_entry(#[trigger] entries@[j]),
        decreases entries@.len() - i,
    {
        if is_source_file(&entries[i]) {
            return true;
        }
        i += 1;
    }
    false
}

/// Detector of Solidity projects built with Foundry. It holds no state.
pub struct SolidityFoundryDetector;

impl SolidityFoundryDetector {
    /// Decides whether the scanned directory is a Foundry project: it passes
    /// with the label `Solidity` when `foundry.toml` is present and the walk
    /// found at least one readable `.sol` file, and fails otherwise.
    pub fn detect(&self, scan: &DirectoryScan) -> (r: DetectResult)
        ensures
            r@ == verdict(scan.manifest_present, scan.entries@),
            scan.manifest_present && has_source_entry(scan.entries@) ==> r@ == Some("Solidity"@),
            !scan.manifest_present ==> r@ == None::<Seq<char>>,
            !has_source_entry(scan.entries@) ==> r@ == None::<Seq<char>>,
    {
        let manifest_present = scan.manifest_present;
        if manifest_present && has_source_file(&scan.entries) {
            DetectResult::pass(LANGUAGE.to_owned())
        } else {
            DetectResult::fail()
        }
    }
}

} // verus!
