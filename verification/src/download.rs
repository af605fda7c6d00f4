//! The download pipeline: judging what one attempt to fetch an asset brought,
//! and deciding whether to try again.
//!
//! The program around the library performs the requests. After each attempt it
//! hands over what came back, and is told to fetch again, to keep the
//! decompressed content, or to give up with an error. Content is released only
//! when the compressed bytes and the decompressed bytes both carry the digests
//! that the manifest names. Every failure of an attempt is tried again, as long
//! as attempts are left: a failed request, a status without success, a mismatch
//! of either digest, a body that does not decompress, and a passing failure of
//! the file system. Only a failure of the file system that no attempt can mend
//! ends a download at once.

use crate::error::{result_view, Error, ErrorView};
use crate::hash::{same_digest, sha1_of, sha_of_bytes};
use crate::json::{parse_json, spec_parse_json, Json};
use vstd::prelude::*;
use vstd::string::StringExecFns;

verus! {

/// The number of attempts that a caller gets who names none.
pub const DEFAULT_MAX_TRIES: usize = 5;

/// What one attempt to fetch brought: a failure of the transport with its
/// cause, or an answer with its status code, the reason phrase of the status,
/// and its body.
pub enum Fetched<B> {
    Failed(String),
    Answer(u16, String, B),
}

/// Whether an HTTP status means success: the range 200 to 299.
pub open spec fn is_success(status: u16) -> bool {
    200 <= status <= 299
}

/// Whether an HTTP status means success.
pub fn status_is_success(status: u16) -> (ok: bool)
    ensures
        ok == is_success(status),
{
    200 <= status && status <= 299
}

/// The count of attempts of one download: how many are allowed, and how many
/// have failed so far. There is always at least one attempt left.
pub struct Tries {
    max_tries: usize,
    made: usize,
}

impl Tries {
    /// The number of attempts allowed.
    pub closed spec fn limit(&self) -> nat {
        self.max_tries as nat
    }

    /// The number of attempts that have failed.
    pub closed spec fn spent(&self) -> nat {
        self.made as nat
    }

    #[verifier::type_invariant]
    closed spec fn attempts_left(&self) -> bool {
        self.made < self.max_tries
    }

    /// A fresh count that allows `max_tries` attempts.
    pub fn new(max_tries: usize) -> (tries: Tries)
        requires
            max_tries > 0,
        ensures
            tries.limit() == max_tries,
            tries.spent() == 0,
    {
        Tries { max_tries, made: 0 }
    }

    /// The number of attempts allowed.
    pub fn max_tries(&self) -> (n: usize)
        ensures
            n == self.limit(),
            n > self.spent(),
    {
        proof {
            use_type_invariant(self);
        }
        self.max_tries
    }

    /// The number of the attempt that comes next, counted from 1.
    pub fn attempt(&self) -> (n: usize)
        ensures
            n == self.spent() + 1,
            n <= self.limit(),
    {
        proof {
            use_type_invariant(self);
        }
        self.made + 1
    }

    /// Counts one failed attempt: the count for the next attempt, or `None`
    /// when it was the last one allowed.
    pub fn after_failure(self) -> (res: Option<Tries>)
        ensures
            match res {
                Some(tries) => self.spent() + 1 < self.limit() && tries.limit() == self.limit()
                    && tries.spent() == self.spent() + 1,
                None => self.spent() + 1 == self.limit(),
            },
    {
        proof {
            use_type_invariant(&self);
        }
        if self.made + 1 < self.max_tries {
            Some(Tries { max_tries: self.max_tries, made: self.made + 1 })
        } else {
            None
        }
    }
}

/// The error for content whose digest is not the expected one: it names the
/// path, the expected digest and the actual one.
pub open spec fn spec_check_digest(
    actual: Seq<u8>,
    expected: Seq<u8>,
    path: Seq<char>,
) -> Result<(), ErrorView> {
    if actual == expected {
        Ok(())
    } else {
        Err(ErrorView::HashMismatch(path, expected, actual))
    }
}

/// Holds the digest of what lies at `path` against the digest that the manifest
/// names for it.
pub fn check_digest(actual: &[u8; 20], expected: &[u8; 20], path: &str) -> (res: Result<(), Error>)
    ensures
        result_view(res) == spec_check_digest(actual@, expected@, path@),
{
    if same_digest(actual, expected) {
        Ok(())
    } else {
        Err(Error::HashMismatch(String::from_str(path), *expected, *actual))
    }
}

/// What a bzip2 writer makes of `input`, written to it in full and then
/// finished: the decompressed content, where `input` is one complete, valid
/// stream and nothing more; else the message of the error.
pub uninterp spec fn bz_whole(input: Seq<u8>) -> Result<Seq<u8>, Seq<char>>;

/// The mathematical value of a decompression outcome.
pub open spec fn inflated_view(r: Result<Vec<u8>, String>) -> Result<Seq<u8>, Seq<char>> {
    match r {
        Ok(bytes) => Ok(bytes@),
        Err(message) => Err(message@),
    }
}

/// Writes `input` to a `bzip2::write::BzDecoder` over a vector and finishes it.
///
/// Trusted: the outcome depends on `input` alone and is named [`bz_whole`]. The
/// decoder fails on invalid data, on input that ends before the stream does, and
/// on input that goes on after it; an error is handed back as its message.
#[verifier::external_body]
fn bz_inflate(input: &[u8]) -> (out: Result<Vec<u8>, String>)
    ensures
        inflated_view(out) == bz_whole(input@),
{
    let mut decoder = bzip2::write::BzDecoder::new(Vec::new());
    if let Err(e) = std::io::Write::write_all(&mut decoder, input) {
        return Err(e.to_string());
    }
    match decoder.finish() {
        Ok(bytes) => Ok(bytes),
        Err(e) => Err(e.to_string()),
    }
}

/// What decompressing an asset gives: its content, or a decoding error that
/// names `path` and the cause.
pub open spec fn spec_decompress_file(
    input: Seq<u8>,
    path: Seq<char>,
) -> Result<Seq<u8>, ErrorView> {
    match bz_whole(input) {
        Ok(bytes) => Ok(bytes),
        Err(cause) => Err(ErrorView::Decode(path, cause)),
    }
}

/// Decompresses the bytes of an asset; `path` names, for an error, the file
/// that the content is meant for.
pub fn decompress_file(compressed: &[u8], path: &str) -> (res: Result<Vec<u8>, Error>)
    ensures
        result_view(res) == spec_decompress_file(compressed@, path@),
{
    match bz_inflate(compressed) {
        Ok(bytes) => Ok(bytes),
        Err(cause) => Err(Error::Decode(String::from_str(path), cause)),
    }
}

/// What is to be downloaded: where from, under which paths it is staged and
/// kept, and the digests that the manifest names for it.
pub struct Asset {
    /// Address of the compressed asset.
    pub uri: String,
    /// Path under which the compressed bytes are staged.
    pub staged_path: String,
    /// Path under which the decompressed content is kept.
    pub final_path: String,
    /// Expected digest of the compressed bytes.
    pub compressed_hash: [u8; 20],
    /// Expected digest of the decompressed content.
    pub content_hash: [u8; 20],
}

/// The mathematical value of an [`Asset`].
pub struct AssetView {
    pub uri: Seq<char>,
    pub staged_path: Seq<char>,
    pub final_path: Seq<char>,
    pub compressed_hash: Seq<u8>,
    pub content_hash: Seq<u8>,
}

impl View for Asset {
    type V = AssetView;

    open spec fn view(&self) -> AssetView {
        AssetView {
            uri: self.uri@,
            staged_path: self.staged_path@,
            final_path: self.final_path@,
            compressed_hash: self.compressed_hash@,
            content_hash: self.content_hash@,
        }
    }
}

/// How one attempt is judged: its content is accepted, or it failed in a way
/// that another attempt may mend, or in a way that none can.
pub enum Verdict {
    Accept(Vec<u8>),
    Retry(Error),
    Fatal(Error),
}

/// The mathematical value of a [`Verdict`].
pub enum VerdictView {
    Accept(Seq<u8>),
    Retry(ErrorView),
    Fatal(ErrorView),
}

impl View for Verdict {
    type V = VerdictView;

    open spec fn view(&self) -> VerdictView {
        match *self {
            Verdict::Accept(bytes) => VerdictView::Accept(bytes@),
            Verdict::Retry(e) => VerdictView::Retry(e@),
            Verdict::Fatal(e) => VerdictView::Fatal(e@),
        }
    }
}

/// The mathematical value of what an attempt brought.
pub open spec fn fetched_bytes_view(fetched: Fetched<Vec<u8>>) -> Fetched<Seq<u8>> {
    match fetched {
        Fetched::Failed(cause) => Fetched::Failed(cause),
        Fetched::Answer(status, reason, body) => Fetched::Answer(status, reason, body@),
    }
}

/// The verdict on a body that was answered with success.
///
/// A body whose digest is not the expected one is a mismatch at the staged
/// path. A body that cannot be decompressed is a decoding error at the final
/// path. Content whose digest is not the expected one is a mismatch at the final
/// path. Each of the three is a failed attempt, to be tried again: the whole
/// cycle of fetching, decompressing and verifying is repeated. Only content that
/// passes all three is accepted.
pub open spec fn spec_check_body(asset: AssetView, body: Seq<u8>) -> VerdictView {
    match spec_check_digest(sha1_of(body), asset.compressed_hash, asset.staged_path) {
        Err(e) => VerdictView::Retry(e),
        Ok(_) => match spec_decompress_file(body, asset.final_path) {
            Err(e) => VerdictView::Retry(e),
            Ok(content) => match spec_check_digest(
                sha1_of(content),
                asset.content_hash,
                asset.final_path,
            ) {
                Err(e) => VerdictView::Retry(e),
                Ok(_) => VerdictView::Accept(content),
            },
        },
    }
}

/// The verdict on what an attempt brought. A failure of the transport and an
/// answer without success are to be tried again; a body is judged by
/// [`spec_check_body`].
pub open spec fn spec_judge(asset: AssetView, fetched: Fetched<Seq<u8>>) -> VerdictView {
    match fetched {
        Fetched::Failed(cause) => VerdictView::Retry(ErrorView::DownloadRequest(cause@)),
        Fetched::Answer(status, reason, body) => if is_success(status) {
            spec_check_body(asset, body)
        } else {
            VerdictView::Retry(ErrorView::DownloadRequestStatus(status, reason@))
        },
    }
}

/// Whether an error of the file system is one that no further attempt can
/// mend: a denied permission, a path that is no directory, a failed rename.
pub open spec fn is_fatal(e: ErrorView) -> bool {
    e is PermissionDenied || e is NotDir || e is FileRename
}

/// The verdict on an attempt whose bytes could not be stored, by the error of
/// the file system: a fatal one ends the download, any other is a failed
/// attempt, to be tried again.
pub open spec fn spec_judge_unstaged(e: ErrorView) -> VerdictView {
    if is_fatal(e) {
        VerdictView::Fatal(e)
    } else {
        VerdictView::Retry(e)
    }
}

/// Judges the body of an answer: both digests and the decompression.
pub fn check_body(asset: &Asset, body: &[u8]) -> (verdict: Verdict)
    ensures
        verdict@ == spec_check_body(asset@, body@),
        verdict matches Verdict::Accept(content) ==> sha1_of(body@) == asset.compressed_hash@
            && bz_whole(body@) == Ok::<Seq<u8>, Seq<char>>(content@) && sha1_of(content@)
            == asset.content_hash@,
{
    let staged_digest = sha_of_bytes(body);
    match check_digest(&staged_digest, &asset.compressed_hash, asset.staged_path.as_str()) {
        Err(e) => {
            return Verdict::Retry(e);
        },
        Ok(()) => {},
    }
    let content = match decompress_file(body, asset.final_path.as_str()) {
        Err(e) => {
            return Verdict::Retry(e);
        },
        Ok(content) => content,
    };
    let content_digest = sha_of_bytes(content.as_slice());
    match check_digest(&content_digest, &asset.content_hash, asset.final_path.as_str()) {
        Err(e) => Verdict::Retry(e),
        Ok(()) => Verdict::Accept(content),
    }
}

/// Judges what an attempt brought.
pub fn judge(asset: &Asset, fetched: Fetched<Vec<u8>>) -> (verdict: Verdict)
    ensures
        verdict@ == spec_judge(asset@, fetched_bytes_view(fetched)),
{
    match fetched {
        Fetched::Failed(cause) => Verdict::Retry(Error::DownloadRequest(cause)),
        Fetched::Answer(status, reason, body) => {
            if status_is_success(status) {
                check_body(asset, body.as_slice())
            } else {
                Verdict::Retry(Error::DownloadRequestStatus(status, reason))
            }
        },
    }
}

/// Whether an error of the file system is one that no further attempt can
/// mend.
pub fn ends_download(e: &Error) -> (fatal: bool)
    ensures
        fatal == is_fatal(e@),
{
    match e {
        Error::PermissionDenied(_, _) => true,
        Error::NotDir(_) => true,
        Error::FileRename(_, _) => true,
        _ => false,
    }
}

/// Judges an attempt whose bytes could not be stored.
pub fn judge_unstaged(e: Error) -> (verdict: Verdict)
    ensures
        verdict@ == spec_judge_unstaged(e@),
        !(verdict is Accept),
{
    if ends_download(&e) {
        Verdict::Fatal(e)
    } else {
        Verdict::Retry(e)
    }
}

/// A download in progress: the asset and the count of attempts.
pub struct Download {
    pub asset: Asset,
    pub tries: Tries,
}

/// What the program does next for a download: fetch again after an attempt
/// that failed with the given error, store the content that was accepted, or
/// give up. The download that comes with accepted content is the one to hand to
/// [`storing_failed`] where the content cannot be stored.
pub enum Next {
    Fetch(Download, Error),
    Done(Download, Vec<u8>),
    Failed(Error),
}

/// What follows a verdict when `spent` of `limit` attempts had failed before:
/// accepted content ends the download, a fatal error ends it at once, and any
/// other failure ends it only when it was the last attempt allowed.
pub open spec fn spec_after_verdict(limit: nat, spent: nat, verdict: VerdictView) -> Outcome {
    match verdict {
        VerdictView::Accept(content) => Outcome::Done(content),
        VerdictView::Fatal(e) => Outcome::Failed(e),
        VerdictView::Retry(e) => if spent + 1 < limit {
            Outcome::Again(e)
        } else {
            Outcome::Failed(e)
        },
    }
}

/// The mathematical value of a [`Next`], but for the state of the download.
pub enum Outcome {
    Again(ErrorView),
    Done(Seq<u8>),
    Failed(ErrorView),
}

/// The outcome that a [`Next`] stands for.
pub open spec fn outcome_of(next: Next) -> Outcome {
    match next {
        Next::Fetch(_, e) => Outcome::Again(e@),
        Next::Done(_, content) => Outcome::Done(content@),
        Next::Failed(e) => Outcome::Failed(e@),
    }
}

/// Begins the download of `asset` with `max_tries` attempts allowed.
pub fn begin_download(asset: Asset, max_tries: usize) -> (job: Download)
    requires
        max_tries > 0,
    ensures
        job.asset == asset,
        job.tries.limit() == max_tries,
        job.tries.spent() == 0,
{
    Download { asset, tries: Tries::new(max_tries) }
}

/// Takes in what one attempt of a download brought and says what comes next.
///
/// The attempt is judged by [`spec_judge`]. Accepted content is handed out: it
/// carries both expected digests. A failure leads to another attempt on the
/// same asset, with one more attempt counted, unless all attempts allowed are
/// spent: then that failure is the error of the download.
pub fn download_file(job: Download, fetched: Fetched<Vec<u8>>) -> (next: Next)
    ensures
        outcome_of(next) == spec_after_verdict(
            job.tries.limit(),
            job.tries.spent(),
            spec_judge(job.asset@, fetched_bytes_view(fetched)),
        ),
        next matches Next::Fetch(again, _) ==> again.asset == job.asset && again.tries.limit()
            == job.tries.limit() && again.tries.spent() == job.tries.spent() + 1,
        next matches Next::Done(same, content) ==> same == job && sha1_of(content@)
            == job.asset.content_hash@,
{
    let Download { asset, tries } = job;
    match judge(&asset, fetched) {
        Verdict::Accept(content) => Next::Done(Download { asset, tries }, content),
        Verdict::Fatal(e) => Next::Failed(e),
        Verdict::Retry(e) => match tries.after_failure() {
            Some(tries) => Next::Fetch(Download { asset, tries }, e),
            None => Next::Failed(e),
        },
    }
}

/// What follows an attempt that the file system failed: `Ok` stands for
/// another attempt after the error, `Err` for the end of the download.
pub open spec fn storing_outcome(res: Result<(Download, Error), Error>) -> Outcome {
    match res {
        Ok((_, e)) => Outcome::Again(e@),
        Err(e) => Outcome::Failed(e@),
    }
}

/// Takes in that the file system failed while the bytes of an attempt were
/// stored, be it the body at the staged path or the accepted content at the
/// final path, and says what comes next. An error that no further attempt can
/// mend ends the download at once; any other is a failed attempt like a failed
/// fetch: the download goes on with the next attempt, or ends with this error
/// where it was the last attempt allowed.
pub fn storing_failed(job: Download, e: Error) -> (res: Result<(Download, Error), Error>)
    ensures
        storing_outcome(res) == spec_after_verdict(
            job.tries.limit(),
            job.tries.spent(),
            spec_judge_unstaged(e@),
        ),
        res matches Ok((again, _)) ==> again.asset == job.asset && again.tries.limit()
            == job.tries.limit() && again.tries.spent() == job.tries.spent() + 1,
{
    if ends_download(&e) {
        return Err(e);
    }
    let Download { asset, tries } = job;
    match tries.after_failure() {
        Some(tries) => Ok((Download { asset, tries }, e)),
        None => Err(e),
    }
}

/// What the program does next for the manifest: fetch again after an attempt
/// that failed with the given error, go on with the document, or give up.
pub enum NextManifest {
    Fetch(Tries, Error),
    Done(Json),
    Failed(Error),
}

/// How an attempt to fetch the manifest is judged: any failure may be mended
/// by another attempt, also a body that is no JSON.
pub open spec fn spec_judge_manifest(fetched: Fetched<String>) -> Result<Json, ErrorView> {
    match fetched {
        Fetched::Failed(cause) => Err(ErrorView::ManifestRequest(cause@)),
        Fetched::Answer(status, reason, body) => if is_success(status) {
            match spec_parse_json(body@) {
                Ok(json) => Ok(json),
                Err(message) => Err(ErrorView::Deserialize(message)),
            }
        } else {
            Err(ErrorView::ManifestRequestStatus(status, reason@))
        },
    }
}

/// The mathematical value of a [`NextManifest`], but for the count of attempts.
pub enum ManifestOutcome {
    Again(ErrorView),
    Done(Json),
    Failed(ErrorView),
}

/// What follows an attempt to fetch the manifest when `spent` of `limit`
/// attempts had failed before: the document ends the fetching, and a failure
/// ends it only when it was the last attempt allowed.
pub open spec fn spec_get_manifest(limit: nat, spent: nat, fetched: Fetched<String>) -> ManifestOutcome {
    match spec_judge_manifest(fetched) {
        Ok(json) => ManifestOutcome::Done(json),
        Err(e) => if spent + 1 < limit {
            ManifestOutcome::Again(e)
        } else {
            ManifestOutcome::Failed(e)
        },
    }
}

/// The outcome that a [`NextManifest`] stands for.
pub open spec fn manifest_outcome_of(next: NextManifest) -> ManifestOutcome {
    match next {
        NextManifest::Fetch(_, e) => ManifestOutcome::Again(e@),
        NextManifest::Done(json) => ManifestOutcome::Done(json),
        NextManifest::Failed(e) => ManifestOutcome::Failed(e@),
    }
}

/// Takes in what one attempt to fetch the manifest brought and says what comes
/// next: the parsed document, another attempt, or the error of the last attempt
/// allowed.
pub fn get_manifest(tries: Tries, fetched: Fetched<String>) -> (next: NextManifest)
    ensures
        manifest_outcome_of(next) == spec_get_manifest(tries.limit(), tries.spent(), fetched),
        next matches NextManifest::Fetch(again, _) ==> again.limit() == tries.limit()
            && again.spent() == tries.spent() + 1,
{
    let failure = match fetched {
        Fetched::Failed(cause) => Error::ManifestRequest(cause),
        Fetched::Answer(status, reason, body) => {
            if status_is_success(status) {
                match parse_json(body.as_str()) {
                    Ok(json) => {
                        return NextManifest::Done(json);
                    },
                    Err(message) => Error::Deserialize(message),
                }
            } else {
                Error::ManifestRequestStatus(status, reason)
            }
        },
    };
    match tries.after_failure() {
        Some(tries) => NextManifest::Fetch(tries, failure),
        None => NextManifest::Failed(failure),
    }
}

/// What one attempt of a download brought, for the laws of the pipeline: what
/// was fetched, or the error with which the file system failed while the bytes
/// of the attempt were stored.
pub enum Attempt {
    Fetched(Fetched<Seq<u8>>),
    Unstaged(ErrorView),
}

/// The verdict on an attempt.
pub open spec fn spec_judge_attempt(asset: AssetView, attempt: Attempt) -> VerdictView {
    match attempt {
        Attempt::Fetched(fetched) => spec_judge(asset, fetched),
        Attempt::Unstaged(e) => spec_judge_unstaged(e),
    }
}

/// How a download ends on a series of attempts, and how many of them it makes:
/// `attempts` holds what each attempt brings, in order. The download goes on
/// while the outcome is to try again; it has no end yet where `attempts` runs
/// out before that.
pub open spec fn spec_run(
    asset: AssetView,
    limit: nat,
    spent: nat,
    attempts: Seq<Attempt>,
) -> (Option<Result<Seq<u8>, ErrorView>>, nat)
    decreases attempts.len(),
{
    if attempts.len() == 0 {
        (None, 0)
    } else {
        match spec_after_verdict(limit, spent, spec_judge_attempt(asset, attempts[0])) {
            Outcome::Again(_) => {
                let (outcome, made) = spec_run(asset, limit, spent + 1, attempts.drop_first());
                (outcome, made + 1)
            },
            Outcome::Done(content) => (Some(Ok(content)), 1),
            Outcome::Failed(e) => (Some(Err(e)), 1),
        }
    }
}

/// The error of a verdict that is no acceptance.
pub open spec fn verdict_error(verdict: VerdictView) -> ErrorView
    recommends
        !(verdict is Accept),
{
    match verdict {
        VerdictView::Retry(e) => e,
        VerdictView::Fatal(e) => e,
        VerdictView::Accept(_) => ErrorView::BadPatchSize,
    }
}

/// Retry exhaustion: a download whose every attempt fails in a way that may be
/// mended (a failed request, a status without success, a mismatch of either
/// digest, a body that does not decompress, a passing failure of the file
/// system while staging) makes exactly as many attempts as it has left, and
/// then fails with the error of the last of them. No content is handed out.
pub proof fn retries_are_exhausted(
    asset: AssetView,
    limit: nat,
    spent: nat,
    attempts: Seq<Attempt>,
)
    requires
        spent < limit,
        attempts.len() >= limit - spent,
        forall|i: int|
            0 <= i < attempts.len() ==> (#[trigger] spec_judge_attempt(asset, attempts[i]))
                is Retry,
    ensures
        spec_run(asset, limit, spent, attempts).1 == limit - spent,
        spec_run(asset, limit, spent, attempts).0 == Some(
            Err::<Seq<u8>, ErrorView>(
                verdict_error(spec_judge_attempt(asset, attempts[limit - spent - 1])),
            ),
        ),
    decreases attempts.len(),
{
    let first = spec_judge_attempt(asset, attempts[0]);
    assert(first is Retry);
    if spent + 1 < limit {
        let rest = attempts.drop_first();
        assert forall|i: int| 0 <= i < rest.len() implies (#[trigger] spec_judge_attempt(
            asset,
            rest[i],
        )) is Retry by {
            assert(rest[i] == attempts[i + 1]);
        }
        retries_are_exhausted(asset, limit, spent + 1, rest);
        assert(rest[limit - spent - 2] == attempts[limit - spent - 1]);
    }
}

/// Whether an attempt was answered with success and a body that does not carry
/// the digest expected of the compressed asset.
pub open spec fn is_mismatch(asset: AssetView, attempt: Attempt) -> bool {
    match attempt {
        Attempt::Fetched(Fetched::Answer(status, _, body)) => is_success(status) && sha1_of(body)
            != asset.compressed_hash,
        _ => false,
    }
}

/// The error of an attempt that was answered with a body of the wrong digest:
/// the mismatch at the staged path, with the expected digest and the digest of
/// the body.
pub open spec fn mismatch_error(asset: AssetView, attempt: Attempt) -> ErrorView
    recommends
        is_mismatch(asset, attempt),
{
    match attempt {
        Attempt::Fetched(Fetched::Answer(_, _, body)) => ErrorView::HashMismatch(
            asset.staged_path,
            asset.compressed_hash,
            sha1_of(body),
        ),
        _ => ErrorView::BadPatchSize,
    }
}

/// A body that does not carry the expected digest is judged a mismatch at the
/// staged path, to be tried again, whatever else it holds.
pub proof fn mismatch_is_retried(asset: AssetView, attempt: Attempt)
    ensures
        is_mismatch(asset, attempt) ==> spec_judge_attempt(asset, attempt) == VerdictView::Retry(
            mismatch_error(asset, attempt),
        ),
{
}

/// A body with the expected digest that does not decompress is a failed
/// attempt, to be tried again, with the decoding error at the final path.
pub proof fn undecodable_is_retried(asset: AssetView, status: u16, reason: String, body: Seq<u8>)
    requires
        is_success(status),
    ensures
        sha1_of(body) == asset.compressed_hash && bz_whole(body) is Err ==> spec_judge(
            asset,
            Fetched::Answer(status, reason, body),
        ) == VerdictView::Retry(ErrorView::Decode(asset.final_path, bz_whole(body)->Err_0)),
{
}

/// No verdict on what a fetch brought is fatal: whatever an attempt brings, the
/// download goes on while attempts are left. Only a failure of the file system
/// that no further attempt can mend ends a download before its time.
pub proof fn only_the_file_system_is_fatal(asset: AssetView, attempt: Attempt)
    ensures
        spec_judge_attempt(asset, attempt) is Fatal <==> (attempt matches Attempt::Unstaged(e)
            && is_fatal(e)),
{
}

/// Retry exhaustion on digest mismatches: a download for which every attempt is
/// answered with a body of the wrong digest is attempted exactly `max_tries`
/// times, and then fails with the mismatch of the last attempt.
pub proof fn mismatches_exhaust_all_tries(
    asset: AssetView,
    max_tries: nat,
    attempts: Seq<Attempt>,
)
    requires
        max_tries > 0,
        attempts.len() >= max_tries,
        forall|i: int| 0 <= i < attempts.len() ==> is_mismatch(asset, #[trigger] attempts[i]),
    ensures
        spec_run(asset, max_tries, 0, attempts) == (
            Some(Err::<Seq<u8>, ErrorView>(mismatch_error(asset, attempts[max_tries - 1]))),
            max_tries,
        ),
{
    assert forall|i: int| 0 <= i < attempts.len() implies (#[trigger] spec_judge_attempt(
        asset,
        attempts[i],
    )) is Retry by {
        mismatch_is_retried(asset, attempts[i]);
    }
    retries_are_exhausted(asset, max_tries, 0, attempts);
    mismatch_is_retried(asset, attempts[max_tries - 1]);
}

} // verus!
