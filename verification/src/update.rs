//! Reconciliation: what to do about each file of a manifest, given what lies
//! in the installation directory.
//!
//! For every entry the decision is a function of the entry, the platform, the
//! digest of the local file and the dry-run flag alone: skip an entry of
//! another platform, leave a file whose digest is the expected one, patch a
//! file for whose digest the manifest holds a delta, and download anything
//! else in full. A dry run decides the same and fetches nothing.
//!
//! A run handles the entries one at a time, in the order of the manifest. The
//! first error ends it. When every entry has been handled the run is finalized
//! once, unless it is dry.

use crate::download::{check_digest, spec_check_digest, Asset};
use crate::error::{Error, ErrorView};
use crate::hash::{same_digest, sha1_of, sha_of_bytes};
use crate::manifest::{FileEntry, FileEntryView, PatchEntry, PatchEntryView};
use crate::patch::{apply_patch, spec_apply_patch};
use vstd::prelude::*;
use vstd::string::StringExecFns;

verus! {

/// Size of the buffer with which files are read and hashed chunk by chunk.
pub const BUFFER_SIZE: usize = 0x2000;

/// What lies under an entry's name in the installation directory: nothing, or a
/// file with this digest.
#[derive(Debug)]
pub enum LocalFile {
    Absent,
    Present([u8; 20]),
}

impl View for LocalFile {
    type V = Option<Seq<u8>>;

    open spec fn view(&self) -> Option<Seq<u8>> {
        match *self {
            LocalFile::Absent => None,
            LocalFile::Present(digest) => Some(digest@),
        }
    }
}

/// What reconciliation does about one entry.
#[derive(Debug, PartialEq, Eq, Structural, Clone, Copy)]
pub enum Plan {
    /// The entry is not for this platform: nothing is looked at.
    Skipped,
    /// The local file has the expected digest: nothing is done.
    UpToDate,
    /// The delta at this index of the entry's patches is fetched and applied.
    Patching(usize),
    /// The whole asset is downloaded.
    FullDownload,
    /// A dry run found that the delta at this index would be applied.
    WouldPatch(usize),
    /// A dry run found that the whole asset would be downloaded.
    WouldDownload,
}

/// Whether a plan fetches from the network and writes to disk.
pub open spec fn fetches(plan: Plan) -> bool {
    plan is Patching || plan is FullDownload
}

/// Whether an entry is for `platform`: the tag is among the entry's tags.
pub open spec fn supported(entry: FileEntryView, platform: Seq<char>) -> bool {
    entry.supported_platforms.contains(platform)
}

/// The index of the first delta that applies to content with the digest
/// `local`.
pub open spec fn spec_find_patch(patches: Seq<PatchEntryView>, local: Seq<u8>) -> Option<int>
    decreases patches.len(),
{
    if patches.len() == 0 {
        None
    } else if patches[0].source_hash == local {
        Some(0)
    } else {
        match spec_find_patch(patches.drop_first(), local) {
            Some(i) => Some(i + 1),
            None => None,
        }
    }
}

/// What [`spec_find_patch`] finds is the least index of a delta whose source
/// digest is `local`, and `None` exactly when there is no such delta.
pub proof fn find_patch_is_first_match(patches: Seq<PatchEntryView>, local: Seq<u8>)
    ensures
        match spec_find_patch(patches, local) {
            Some(i) => 0 <= i < patches.len() && patches[i].source_hash == local && forall|j: int|
                0 <= j < i ==> (#[trigger] patches[j]).source_hash != local,
            None => forall|j: int|
                0 <= j < patches.len() ==> (#[trigger] patches[j]).source_hash != local,
        },
    decreases patches.len(),
{
    if patches.len() > 0 && patches[0].source_hash != local {
        let rest = patches.drop_first();
        find_patch_is_first_match(rest, local);
        match spec_find_patch(rest, local) {
            Some(i) => {
                assert(rest[i] == patches[i + 1]);
                assert forall|j: int| 0 <= j < i + 1 implies (#[trigger] patches[j]).source_hash
                    != local by {
                    if j > 0 {
                        assert(patches[j] == rest[j - 1]);
                    }
                }
            },
            None => {
                assert forall|j: int| 0 <= j < patches.len() implies (#[trigger] patches[
                    j
                ]).source_hash != local by {
                    if j > 0 {
                        assert(patches[j] == rest[j - 1]);
                    }
                }
            },
        }
    }
}

/// The least index of a matching delta is what [`spec_find_patch`] finds.
proof fn first_match_is_found(patches: Seq<PatchEntryView>, local: Seq<u8>, found: Option<int>)
    requires
        match found {
            Some(i) => 0 <= i < patches.len() && patches[i].source_hash == local && forall|j: int|
                0 <= j < i ==> (#[trigger] patches[j]).source_hash != local,
            None => forall|j: int|
                0 <= j < patches.len() ==> (#[trigger] patches[j]).source_hash != local,
        },
    ensures
        spec_find_patch(patches, local) == found,
{
    find_patch_is_first_match(patches, local);
    match (spec_find_patch(patches, local), found) {
        (Some(a), Some(b)) => {
            if a < b {
                assert(patches[a].source_hash != local);
            } else if b < a {
                assert(patches[b].source_hash != local);
            }
        },
        (Some(a), None) => {
            assert(patches[a].source_hash != local);
        },
        (None, Some(b)) => {
            assert(patches[b].source_hash != local);
        },
        (None, None) => {},
    }
}

/// What is done about an entry whose file is present with the digest `local`.
pub open spec fn spec_update_existing_file(entry: FileEntryView, local: Seq<u8>, dry: bool) -> Plan {
    if local == entry.content_hash {
        Plan::UpToDate
    } else {
        match spec_find_patch(entry.patches, local) {
            Some(i) => if dry {
                Plan::WouldPatch(i as usize)
            } else {
                Plan::Patching(i as usize)
            },
            None => if dry {
                Plan::WouldDownload
            } else {
                Plan::FullDownload
            },
        }
    }
}

/// What is done about an entry.
pub open spec fn spec_update_entry(
    entry: FileEntryView,
    platform: Seq<char>,
    local: Option<Seq<u8>>,
    dry: bool,
) -> Plan {
    if !supported(entry, platform) {
        Plan::Skipped
    } else {
        match local {
            None => if dry {
                Plan::WouldDownload
            } else {
                Plan::FullDownload
            },
            Some(digest) => spec_update_existing_file(entry, digest, dry),
        }
    }
}

/// Whether an entry is for `platform`.
pub fn supports(entry: &FileEntry, platform: &str) -> (yes: bool)
    ensures
        yes == supported(entry@, platform@),
{
    let tag = String::from_str(platform);
    let ghost tags = entry@.supported_platforms;
    let mut i: usize = 0;
    while i < entry.supported_platforms.len()
        invariant
            i <= entry.supported_platforms@.len(),
            tag@ == platform@,
            tags == entry.supported_platforms@.map_values(|s: String| s@),
            forall|j: int| 0 <= j < i ==> tags[j] != platform@,
        decreases entry.supported_platforms@.len() - i,
    {
        if entry.supported_platforms[i] == tag {
            assert(tags[i as int] == platform@);
            return true;
        }
        i += 1;
    }
    false
}

/// Looks for the delta that applies to content with the digest `local`.
pub fn find_patch(patches: &Vec<PatchEntry>, local: &[u8; 20]) -> (found: Option<usize>)
    ensures
        match found {
            Some(i) => spec_find_patch(patches@.map_values(|p: PatchEntry| p@), local@) == Some(
                i as int,
            ),
            None => spec_find_patch(patches@.map_values(|p: PatchEntry| p@), local@) is None,
        },
        found matches Some(i) ==> i < patches@.len() && patches@[i as int].source_hash@ == local@,
{
    let ghost views = patches@.map_values(|p: PatchEntry| p@);
    let mut i: usize = 0;
    while i < patches.len()
        invariant
            i <= patches@.len(),
            views == patches@.map_values(|p: PatchEntry| p@),
            forall|j: int| 0 <= j < i ==> (#[trigger] views[j]).source_hash != local@,
        decreases patches@.len() - i,
    {
        if same_digest(&patches[i].source_hash, local) {
            proof {
                assert(views[i as int].source_hash == local@);
                first_match_is_found(views, local@, Some(i as int));
            }
            return Some(i);
        }
        i += 1;
    }
    proof {
        first_match_is_found(views, local@, None);
    }
    None
}

/// Decides about an entry whose file is present, from the digest of the file.
pub fn update_existing_file(entry: &FileEntry, local_sha: &[u8; 20], dry: bool) -> (plan: Plan)
    ensures
        plan == spec_update_existing_file(entry@, local_sha@, dry),
        dry ==> !fetches(plan),
        plan matches Plan::Patching(i) ==> i < entry.patches@.len() && entry.patches@[i as int].source_hash@
            == local_sha@,
        plan matches Plan::WouldPatch(i) ==> i < entry.patches@.len() && entry.patches@[i as int].source_hash@
            == local_sha@,
{
    if same_digest(local_sha, &entry.content_hash) {
        return Plan::UpToDate;
    }
    match find_patch(&entry.patches, local_sha) {
        Some(i) => if dry {
            Plan::WouldPatch(i)
        } else {
            Plan::Patching(i)
        },
        None => if dry {
            Plan::WouldDownload
        } else {
            Plan::FullDownload
        },
    }
}

/// Decides about an entry: the whole decision procedure for one file.
pub fn update_entry(entry: &FileEntry, platform: &str, local: &LocalFile, dry: bool) -> (plan: Plan)
    ensures
        plan == spec_update_entry(entry@, platform@, local@, dry),
        dry ==> !fetches(plan),
        plan matches Plan::Patching(i) ==> i < entry.patches@.len(),
        plan matches Plan::WouldPatch(i) ==> i < entry.patches@.len(),
{
    if !supports(entry, platform) {
        return Plan::Skipped;
    }
    match local {
        LocalFile::Absent => if dry {
            Plan::WouldDownload
        } else {
            Plan::FullDownload
        },
        LocalFile::Present(digest) => update_existing_file(entry, digest, dry),
    }
}

/// An entry together with what was found under its name.
#[derive(Debug)]
pub struct Probed {
    pub entry: FileEntry,
    pub local: LocalFile,
}

/// What a reconciliation run does: one plan for each entry, in order, and
/// whether the finalization step runs after them.
#[derive(Debug)]
pub struct RunPlan {
    pub steps: Vec<Plan>,
    pub finalize: bool,
}

/// The entries of a list of probed entries.
pub open spec fn entries_of(probed: Seq<Probed>) -> Seq<FileEntryView> {
    probed.map_values(|p: Probed| p.entry@)
}

/// The local states of a list of probed entries.
pub open spec fn locals_of(probed: Seq<Probed>) -> Seq<Option<Seq<u8>>> {
    probed.map_values(|p: Probed| p.local@)
}

/// The plans of a run: each entry is decided on its own, from its own local
/// state.
pub open spec fn spec_update(
    entries: Seq<FileEntryView>,
    platform: Seq<char>,
    locals: Seq<Option<Seq<u8>>>,
    dry: bool,
) -> Seq<Plan>
    recommends
        locals.len() == entries.len(),
{
    Seq::new(entries.len(), |i: int| spec_update_entry(entries[i], platform, locals[i], dry))
}

/// Plans a reconciliation run over the entries of a manifest, each with the
/// state of its local file.
///
/// Each entry is decided on its own, by [`spec_update_entry`]. A dry run
/// neither fetches nor finalizes.
pub fn update(probed: &Vec<Probed>, platform: &str, dry: bool) -> (run: RunPlan)
    ensures
        run.steps@ == spec_update(entries_of(probed@), platform@, locals_of(probed@), dry),
        run.finalize == !dry,
        dry ==> forall|i: int| 0 <= i < run.steps@.len() ==> !fetches(#[trigger] run.steps@[i]),
{
    let mut steps: Vec<Plan> = Vec::new();
    let mut i: usize = 0;
    while i < probed.len()
        invariant
            i <= probed@.len(),
            steps@.len() == i,
            forall|j: int|
                0 <= j < i ==> (#[trigger] steps@[j]) == spec_update_entry(
                    probed@[j].entry@,
                    platform@,
                    probed@[j].local@,
                    dry,
                ),
            dry ==> forall|j: int| 0 <= j < i ==> !fetches(#[trigger] steps@[j]),
        decreases probed@.len() - i,
    {
        let plan = update_entry(&probed[i].entry, platform, &probed[i].local, dry);
        steps.push(plan);
        i += 1;
    }
    assert(steps@ =~= spec_update(entries_of(probed@), platform@, locals_of(probed@), dry));
    RunPlan { steps, finalize: !dry }
}

/// Whether a run may create the installation directory and the cache directory
/// where they are missing: a dry run creates nothing, and takes a missing
/// installation directory as one without files.
pub fn makes_directories(dry: bool) -> (makes: bool)
    ensures
        makes == !dry,
{
    !dry
}

/// Where a run stands: how many entries the manifest has, how many of them have
/// been handled, whether the run is dry, and whether it has been finalized.
pub struct ProgressView {
    pub total: nat,
    pub handled: nat,
    pub dry: bool,
    pub finalized: bool,
}

/// What a run does next: handle the entry at an index, finalize, or end.
#[derive(Debug, PartialEq, Eq, Structural, Clone, Copy)]
pub enum Turn {
    Entry(usize),
    Finalize,
    Finished,
}

/// What a run does next. The entries are handled one at a time, in the order of
/// the manifest. When all are handled the run is finalized once, unless it is
/// dry; then it ends.
pub open spec fn spec_turn(progress: ProgressView) -> Turn {
    if progress.handled < progress.total {
        Turn::Entry(progress.handled as usize)
    } else if !progress.dry && !progress.finalized {
        Turn::Finalize
    } else {
        Turn::Finished
    }
}

/// Where a run stands after one more entry has been handled with success.
pub open spec fn spec_entry_done(progress: ProgressView) -> ProgressView {
    if progress.handled < progress.total {
        ProgressView { handled: progress.handled + 1, ..progress }
    } else {
        progress
    }
}

/// Where a run stands after `n` more entries have been handled with success.
pub open spec fn spec_entries_done(progress: ProgressView, n: nat) -> ProgressView
    decreases n,
{
    if n == 0 {
        progress
    } else {
        spec_entries_done(spec_entry_done(progress), (n - 1) as nat)
    }
}

/// The state of a run between its steps.
pub struct Progress {
    total: usize,
    handled: usize,
    dry: bool,
    finalized: bool,
}

impl View for Progress {
    type V = ProgressView;

    closed spec fn view(&self) -> ProgressView {
        ProgressView {
            total: self.total as nat,
            handled: self.handled as nat,
            dry: self.dry,
            finalized: self.finalized,
        }
    }
}

impl Progress {
    #[verifier::type_invariant]
    closed spec fn within_total(&self) -> bool {
        self.handled <= self.total
    }

    /// What the run does next.
    pub fn turn(&self) -> (turn: Turn)
        ensures
            turn == spec_turn(self@),
            turn matches Turn::Entry(i) ==> i < self@.total,
    {
        if self.handled < self.total {
            Turn::Entry(self.handled)
        } else if !self.dry && !self.finalized {
            Turn::Finalize
        } else {
            Turn::Finished
        }
    }

    /// Takes in how the handling of the current entry ended. An error ends the
    /// run: it is the error of the run, and no further entry is handled. After
    /// a success the run goes on with the next entry.
    pub fn entry_done(self, outcome: Result<(), Error>) -> (res: Result<Progress, Error>)
        ensures
            match outcome {
                Ok(_) => res matches Ok(next) && next@ == spec_entry_done(self@),
                Err(e) => res matches Err(g) && g == e,
            },
    {
        proof {
            use_type_invariant(&self);
        }
        match outcome {
            Err(e) => Err(e),
            Ok(()) => {
                if self.handled < self.total {
                    Ok(
                        Progress {
                            total: self.total,
                            handled: self.handled + 1,
                            dry: self.dry,
                            finalized: self.finalized,
                        },
                    )
                } else {
                    Ok(self)
                }
            },
        }
    }

    /// Takes in how the finalization ended. An error is the error of the run;
    /// after a success the run is finalized and has nothing left to do.
    pub fn finalize_done(self, outcome: Result<(), Error>) -> (res: Result<Progress, Error>)
        ensures
            match outcome {
                Ok(_) => res matches Ok(next) && next@ == (ProgressView {
                    finalized: true,
                    ..self@
                }),
                Err(e) => res matches Err(g) && g == e,
            },
    {
        proof {
            use_type_invariant(&self);
        }
        match outcome {
            Err(e) => Err(e),
            Ok(()) => Ok(
                Progress {
                    total: self.total,
                    handled: self.handled,
                    dry: self.dry,
                    finalized: true,
                },
            ),
        }
    }
}

/// Begins a run over a manifest of `total` entries.
pub fn begin_run(total: usize, dry: bool) -> (progress: Progress)
    ensures
        progress@ == (ProgressView { total: total as nat, handled: 0, dry, finalized: false }),
{
    Progress { total, handled: 0, dry, finalized: false }
}

/// A run without failures handles every entry once, in the order of the
/// manifest: after `n` entries it turns to the entry at index `n`, and after
/// all of them to the finalization, or to its end where it is dry.
pub proof fn run_takes_entries_in_order(total: nat, dry: bool, n: nat)
    requires
        n <= total <= usize::MAX,
    ensures
        ({
            let start = ProgressView { total, handled: 0, dry, finalized: false };
            let now = spec_entries_done(start, n);
            &&& now == ProgressView { handled: n, ..start }
            &&& n < total ==> spec_turn(now) == Turn::Entry(n as usize)
            &&& n == total ==> spec_turn(now) == (if dry {
                Turn::Finished
            } else {
                Turn::Finalize
            })
        }),
{
    let start = ProgressView { total, handled: 0, dry, finalized: false };
    entries_add_up(start, n);
}

/// Handling `n` entries of those that are left moves the run on by `n`.
proof fn entries_add_up(progress: ProgressView, n: nat)
    requires
        progress.handled + n <= progress.total,
    ensures
        spec_entries_done(progress, n) == (ProgressView {
            handled: progress.handled + n,
            ..progress
        }),
    decreases n,
{
    if n > 0 {
        entries_add_up(spec_entry_done(progress), (n - 1) as nat);
    }
}

/// A dry run is never finalized, and a finalized run has ended.
pub proof fn dry_run_is_not_finalized(progress: ProgressView)
    ensures
        progress.dry ==> spec_turn(progress) != Turn::Finalize,
        progress.finalized ==> spec_turn(progress) != Turn::Finalize,
{
}

/// The permission bits that finalization gives the main executable: a mode
/// whose owner may not execute the file gets all owner bits added; any other
/// mode stays.
pub open spec fn spec_executable_mode(mode: u32) -> Option<u32> {
    if mode & 0o100 == 0 {
        Some(mode | 0o700)
    } else {
        None
    }
}

/// Decides whether finalization changes the permission bits of the main
/// executable, and to what.
pub fn executable_mode(mode: u32) -> (change: Option<u32>)
    ensures
        change == spec_executable_mode(mode),
{
    if (mode & 0o100) == 0 {
        Some(mode | 0o700)
    } else {
        None
    }
}

/// The address of an asset: the base address with the asset's name appended.
pub fn asset_uri(cdn_uri: &str, download_name: &str) -> (uri: String)
    ensures
        uri@ == cdn_uri@ + download_name@,
{
    let mut uri = String::from_str(cdn_uri);
    uri.append(download_name);
    uri
}

/// The download that a full replacement of `entry` asks for.
pub fn file_asset(
    entry: &FileEntry,
    cdn_uri: &str,
    staged_path: &str,
    final_path: &str,
) -> (asset: Asset)
    ensures
        asset@.uri == cdn_uri@ + entry@.download_name,
        asset@.staged_path == staged_path@,
        asset@.final_path == final_path@,
        asset@.compressed_hash == entry@.compressed_hash,
        asset@.content_hash == entry@.content_hash,
{
    Asset {
        uri: asset_uri(cdn_uri, entry.download_name.as_str()),
        staged_path: String::from_str(staged_path),
        final_path: String::from_str(final_path),
        compressed_hash: entry.compressed_hash,
        content_hash: entry.content_hash,
    }
}

/// The name under which a decompressed delta is kept: the name of the
/// compressed delta with `.extracted` appended.
pub fn extracted_name(patch: &PatchEntry) -> (name: String)
    ensures
        name@ == patch@.download_name + ".extracted"@,
{
    let mut name = patch.download_name.clone();
    name.append(".extracted");
    name
}

/// The download that fetching the delta `patch` asks for.
pub fn patch_asset(
    patch: &PatchEntry,
    cdn_uri: &str,
    staged_path: &str,
    final_path: &str,
) -> (asset: Asset)
    ensures
        asset@.uri == cdn_uri@ + patch@.download_name,
        asset@.staged_path == staged_path@,
        asset@.final_path == final_path@,
        asset@.compressed_hash == patch@.patch_compressed_hash,
        asset@.content_hash == patch@.patch_content_hash,
{
    Asset {
        uri: asset_uri(cdn_uri, patch.download_name.as_str()),
        staged_path: String::from_str(staged_path),
        final_path: String::from_str(final_path),
        compressed_hash: patch.patch_compressed_hash,
        content_hash: patch.patch_content_hash,
    }
}

/// What patching the local file of an entry gives: the target that the delta
/// makes of the file, if it has the digest that the manifest expects of the
/// file. A target with another digest is a mismatch that names `path`.
pub open spec fn spec_patch_entry(
    entry: FileEntryView,
    delta: Seq<u8>,
    file: Seq<u8>,
    path: Seq<char>,
) -> Result<Seq<u8>, ErrorView> {
    match spec_apply_patch(delta, file) {
        Err(e) => Err(e),
        Ok(target) => match spec_check_digest(sha1_of(target), entry.content_hash, path) {
            Err(e) => Err(e),
            Ok(_) => Ok(target),
        },
    }
}

/// Patches the local file of an entry: `file` holds the old content before the
/// call, and the new content after it.
///
/// The content changes only when the whole delta has been decoded and the
/// target has the digest that the manifest expects. On any failure `file` is
/// what it was.
pub fn patch_entry(
    entry: &FileEntry,
    delta: &[u8],
    file: &mut Vec<u8>,
    path: &str,
) -> (res: Result<(), Error>)
    ensures
        match spec_patch_entry(entry@, delta@, old(file)@, path@) {
            Ok(target) => res is Ok && final(file)@ == target,
            Err(e) => res matches Err(g) && g@ == e && *final(file) == *old(file),
        },
        res is Ok ==> sha1_of(final(file)@) == entry@.content_hash,
{
    let target = match apply_patch(delta, file.as_slice()) {
        Ok(target) => target,
        Err(e) => {
            return Err(e);
        },
    };
    let digest = sha_of_bytes(target.as_slice());
    match check_digest(&digest, &entry.content_hash, path) {
        Ok(()) => {
            *file = target;
            Ok(())
        },
        Err(e) => Err(e),
    }
}

/// The digest of an entry's file after its plan has been carried out with
/// success. A full download and a patch both leave content with the expected
/// digest: the download pipeline hands out no other, and a patched file is kept
/// only with that digest. Every other plan leaves the file as it was.
pub open spec fn spec_local_after(
    entry: FileEntryView,
    plan: Plan,
    local: Option<Seq<u8>>,
) -> Option<Seq<u8>> {
    if fetches(plan) {
        Some(entry.content_hash)
    } else {
        local
    }
}

/// Dry-run non-mutation: with the dry-run flag set, no entry of any manifest on
/// any platform and over any local state is given a plan that fetches or
/// writes.
pub proof fn dry_run_fetches_nothing(
    entry: FileEntryView,
    platform: Seq<char>,
    local: Option<Seq<u8>>,
)
    ensures
        !fetches(spec_update_entry(entry, platform, local, true)),
{
}

/// Idempotence: after a run has carried out its plan for an entry, a second run
/// over the same manifest finds the entry up to date, or skips it as the first
/// run did, and fetches nothing.
pub proof fn second_run_is_up_to_date(
    entry: FileEntryView,
    platform: Seq<char>,
    local: Option<Seq<u8>>,
    dry: bool,
)
    ensures
        ({
            let first = spec_update_entry(entry, platform, local, false);
            let then = spec_local_after(entry, first, local);
            let second = spec_update_entry(entry, platform, then, dry);
            &&& !fetches(second)
            &&& supported(entry, platform) ==> second == Plan::UpToDate
            &&& !supported(entry, platform) ==> second == Plan::Skipped
        }),
{
}

/// The local states after a run has carried out all its plans with success.
pub open spec fn spec_locals_after(
    entries: Seq<FileEntryView>,
    plans: Seq<Plan>,
    locals: Seq<Option<Seq<u8>>>,
) -> Seq<Option<Seq<u8>>> {
    Seq::new(entries.len(), |i: int| spec_local_after(entries[i], plans[i], locals[i]))
}

/// Idempotence of a whole run: after a run over a manifest has been carried
/// out, a second run over the same manifest plans no fetch, and finds every
/// entry of the platform up to date.
pub proof fn second_run_fetches_nothing(
    entries: Seq<FileEntryView>,
    platform: Seq<char>,
    locals: Seq<Option<Seq<u8>>>,
    dry: bool,
)
    requires
        locals.len() == entries.len(),
    ensures
        ({
            let first = spec_update(entries, platform, locals, false);
            let then = spec_locals_after(entries, first, locals);
            let second = spec_update(entries, platform, then, dry);
            forall|i: int|
                0 <= i < entries.len() ==> !fetches(#[trigger] second[i]) && (second[i]
                    == Plan::UpToDate || second[i] == Plan::Skipped)
        }),
{
    let first = spec_update(entries, platform, locals, false);
    let then = spec_locals_after(entries, first, locals);
    let second = spec_update(entries, platform, then, dry);
    assert forall|i: int| 0 <= i < entries.len() implies !fetches(#[trigger] second[i]) && (
    second[i] == Plan::UpToDate || second[i] == Plan::Skipped) by {
        second_run_is_up_to_date(entries[i], platform, locals[i], dry);
    }
}

/// Dry-run non-mutation of a whole run: a dry run over any manifest and any
/// local state plans no fetch.
pub proof fn dry_run_plans_no_fetch(
    entries: Seq<FileEntryView>,
    platform: Seq<char>,
    locals: Seq<Option<Seq<u8>>>,
)
    ensures
        forall|i: int|
            0 <= i < entries.len() ==> !fetches(
                #[trigger] spec_update(entries, platform, locals, true)[i],
            ),
{
}

/// A patch is chosen only for a file that is present, differs from what the
/// manifest expects, and has a digest that a delta of the entry applies to;
/// where such a delta exists, the file is never downloaded in full.
pub proof fn patch_is_preferred(
    entry: FileEntryView,
    platform: Seq<char>,
    local: Option<Seq<u8>>,
    dry: bool,
)
    ensures
        ({
            let plan = spec_update_entry(entry, platform, local, dry);
            &&& (plan is Patching || plan is WouldPatch) ==> local != Some(entry.content_hash)
                && exists|j: int|
                0 <= j < entry.patches.len() && Some((#[trigger] entry.patches[j]).source_hash)
                    == local
            &&& (plan is FullDownload || plan is WouldDownload) ==> local != Some(
                entry.content_hash,
            ) && forall|j: int|
                0 <= j < entry.patches.len() ==> Some((#[trigger] entry.patches[j]).source_hash)
                    != local
        }),
{
    match local {
        Some(digest) => {
            find_patch_is_first_match(entry.patches, digest);
        },
        None => {},
    }
}

} // verus!
