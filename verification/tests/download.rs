use shticker_book_unwritten::download::{
    begin_download, check_body, check_digest, decompress_file, download_file, get_manifest, judge,
    judge_unstaged, status_is_success, storing_failed, Asset, Download, Fetched, Next,
    NextManifest, Tries, Verdict, DEFAULT_MAX_TRIES,
};
use shticker_book_unwritten::error::Error;
use shticker_book_unwritten::hash::sha_of_bytes;
use shticker_book_unwritten::json::Json;
use std::io::Write;

fn reason(status: u16) -> String {
    match status {
        200 => "OK",
        404 => "Not Found",
        500 => "Internal Server Error",
        502 => "Bad Gateway",
        503 => "Service Unavailable",
        _ => "<unknown status code>",
    }
    .to_string()
}

fn bz(data: &[u8]) -> Vec<u8> {
    let mut enc = bzip2::write::BzEncoder::new(Vec::new(), bzip2::Compression::best());
    enc.write_all(data).unwrap();
    enc.finish().unwrap()
}

fn asset_for(content: &[u8]) -> (Asset, Vec<u8>) {
    let body = bz(content);
    let asset = Asset {
        uri: "https://cdn.example/a.bz2".to_string(),
        staged_path: "\"/install/a.bz2\"".to_string(),
        final_path: "\"/install/a\"".to_string(),
        compressed_hash: sha_of_bytes(&body),
        content_hash: sha_of_bytes(content),
    };
    (asset, body)
}

fn copy(asset: &Asset) -> Asset {
    Asset {
        uri: asset.uri.clone(),
        staged_path: asset.staged_path.clone(),
        final_path: asset.final_path.clone(),
        compressed_hash: asset.compressed_hash,
        content_hash: asset.content_hash,
    }
}

#[test]
fn success_statuses() {
    for s in [200u16, 201, 204, 250, 299] {
        assert!(status_is_success(s));
    }
    for s in [0u16, 100, 199, 300, 301, 404, 500, u16::MAX] {
        assert!(!status_is_success(s));
    }
}

#[test]
fn default_number_of_tries() {
    assert_eq!(DEFAULT_MAX_TRIES, 5);
}

#[test]
fn tries_count_failures() {
    let tries = Tries::new(3);
    assert_eq!((tries.attempt(), tries.max_tries()), (1, 3));
    let tries = tries.after_failure().unwrap();
    assert_eq!((tries.attempt(), tries.max_tries()), (2, 3));
    let tries = tries.after_failure().unwrap();
    assert_eq!((tries.attempt(), tries.max_tries()), (3, 3));
    assert!(tries.after_failure().is_none());
    assert!(Tries::new(1).after_failure().is_none());
}

#[test]
fn check_digest_is_byte_exact() {
    let a = sha_of_bytes(b"a");
    let b = sha_of_bytes(b"b");
    assert!(check_digest(&a, &a, "p").is_ok());
    match check_digest(&a, &b, "\"/x/y\"") {
        Err(Error::HashMismatch(path, expected, actual)) => {
            assert_eq!(path, "\"/x/y\"");
            assert_eq!(expected, b);
            assert_eq!(actual, a);
        }
        other => panic!("{:?}", other),
    }
}

#[test]
fn decompress_file_inverts_compression() {
    for content in [&b""[..], b"x", b"hello hello hello hello"] {
        assert_eq!(decompress_file(&bz(content), "p").unwrap(), content.to_vec());
    }
    let big: Vec<u8> = (0..300_000u32).map(|i| (i * 31 % 256) as u8).collect();
    assert_eq!(decompress_file(&bz(&big), "p").unwrap(), big);
}

#[test]
fn decompress_file_rejects_bad_streams() {
    let good = bz(b"some content");
    let mut truncated = good.clone();
    truncated.truncate(good.len() - 3);
    let mut trailing = good.clone();
    trailing.extend_from_slice(b"junk");
    let mut corrupt = good.clone();
    let at = corrupt.len() / 2;
    corrupt[at] ^= 0xff;
    for bad in [&b""[..], b"plain text", &truncated, &trailing, &corrupt] {
        match decompress_file(bad, "\"/install/a\"") {
            Err(Error::Decode(what, cause)) => {
                assert_eq!(what, "\"/install/a\"");
                assert!(!cause.is_empty());
            }
            other => panic!("{:?}", other),
        }
    }
}

#[test]
fn check_body_accepts_only_matching_content() {
    let (asset, body) = asset_for(b"the asset");
    match check_body(&asset, &body) {
        Verdict::Accept(content) => assert_eq!(content, b"the asset".to_vec()),
        _ => panic!(),
    }
}

#[test]
fn check_body_compressed_mismatch_is_retried() {
    let (asset, _) = asset_for(b"the asset");
    let other = bz(b"another asset");
    match check_body(&asset, &other) {
        Verdict::Retry(Error::HashMismatch(path, expected, actual)) => {
            assert_eq!(path, asset.staged_path);
            assert_eq!(expected, asset.compressed_hash);
            assert_eq!(actual, sha_of_bytes(&other));
        }
        _ => panic!(),
    }
}

#[test]
fn check_body_content_mismatch_is_retried() {
    let (mut asset, body) = asset_for(b"the asset");
    asset.content_hash = sha_of_bytes(b"what the manifest expects");
    match check_body(&asset, &body) {
        Verdict::Retry(Error::HashMismatch(path, expected, actual)) => {
            assert_eq!(path, asset.final_path);
            assert_eq!(expected, asset.content_hash);
            assert_eq!(actual, sha_of_bytes(b"the asset"));
        }
        _ => panic!(),
    }
}

#[test]
fn check_body_undecodable_is_retried() {
    let body = b"not bzip2".to_vec();
    let asset = Asset {
        uri: String::new(),
        staged_path: "s".to_string(),
        final_path: "f".to_string(),
        compressed_hash: sha_of_bytes(&body),
        content_hash: [0; 20],
    };
    match check_body(&asset, &body) {
        Verdict::Retry(Error::Decode(what, cause)) => {
            assert_eq!(what, "f");
            assert!(!cause.is_empty());
        }
        _ => panic!(),
    }
}

#[test]
fn judge_transport_and_status() {
    let (asset, body) = asset_for(b"x");
    match judge(&asset, Fetched::Failed("connection reset".to_string())) {
        Verdict::Retry(Error::DownloadRequest(cause)) => assert_eq!(cause, "connection reset"),
        _ => panic!(),
    }
    match judge(&asset, Fetched::Answer(404, reason(404), body.clone())) {
        Verdict::Retry(Error::DownloadRequestStatus(404, phrase)) => {
            assert_eq!(phrase, "Not Found")
        }
        _ => panic!(),
    }
    assert!(matches!(judge(&asset, Fetched::Answer(200, reason(200), body)), Verdict::Accept(_)));
}

fn fetch_again(next: Next) -> (Download, Error) {
    match next {
        Next::Fetch(job, e) => (job, e),
        Next::Done(_, _) => panic!("done"),
        Next::Failed(e) => panic!("{:?}", e),
    }
}

#[test]
fn download_succeeds_at_once() {
    let (asset, body) = asset_for(b"content");
    let job = begin_download(asset, 5);
    assert_eq!(job.tries.attempt(), 1);
    match download_file(job, Fetched::Answer(200, reason(200), body)) {
        Next::Done(job, content) => {
            assert_eq!(content, b"content".to_vec());
            assert_eq!(job.tries.attempt(), 1);
        }
        _ => panic!(),
    }
}

#[test]
fn download_succeeds_after_failures() {
    let (asset, body) = asset_for(b"content");
    let job = begin_download(copy(&asset), 3);
    let (job, e) = fetch_again(download_file(job, Fetched::Failed("timeout".to_string())));
    assert!(matches!(e, Error::DownloadRequest(cause) if cause == "timeout"));
    assert_eq!(job.tries.attempt(), 2);
    assert_eq!(job.asset.uri, asset.uri);
    let (job, e) = fetch_again(download_file(job, Fetched::Answer(503, reason(503), Vec::new())));
    assert!(matches!(e, Error::DownloadRequestStatus(503, _)));
    assert_eq!(job.tries.attempt(), 3);
    match download_file(job, Fetched::Answer(200, reason(200), body)) {
        Next::Done(job, content) => {
            assert_eq!(sha_of_bytes(&content), asset.content_hash);
            assert_eq!(job.tries.attempt(), 3);
        }
        _ => panic!(),
    }
}

#[test]
fn download_always_mismatching_is_attempted_exactly_max_tries_times() {
    for max_tries in [1usize, 2, 5, 9] {
        let (asset, _) = asset_for(b"content");
        let wrong = bz(b"something else");
        let mut job = begin_download(copy(&asset), max_tries);
        let mut attempts = 0;
        let last = loop {
            attempts += 1;
            assert_eq!(job.tries.attempt(), attempts);
            match download_file(job, Fetched::Answer(200, reason(200), wrong.clone())) {
                Next::Fetch(again, e) => {
                    assert!(matches!(e, Error::HashMismatch(_, _, _)));
                    job = again;
                }
                Next::Done(_, _) => panic!("corrupt content was handed out"),
                Next::Failed(e) => break e,
            }
        };
        assert_eq!(attempts, max_tries);
        match last {
            Error::HashMismatch(path, expected, actual) => {
                assert_eq!(path, asset.staged_path);
                assert_eq!(expected, asset.compressed_hash);
                assert_eq!(actual, sha_of_bytes(&wrong));
            }
            other => panic!("{:?}", other),
        }
    }
}

#[test]
fn download_reports_the_error_of_the_last_attempt() {
    let (asset, _) = asset_for(b"content");
    let job = begin_download(asset, 2);
    let (job, _) = fetch_again(download_file(job, Fetched::Failed("first".to_string())));
    match download_file(job, Fetched::Answer(500, reason(500), Vec::new())) {
        Next::Failed(Error::DownloadRequestStatus(500, phrase)) => {
            assert_eq!(phrase, "Internal Server Error")
        }
        _ => panic!(),
    }
}

#[test]
fn download_retries_a_body_that_does_not_decompress() {
    let body = b"not bzip2".to_vec();
    let asset = Asset {
        uri: String::new(),
        staged_path: "s".to_string(),
        final_path: "f".to_string(),
        compressed_hash: sha_of_bytes(&body),
        content_hash: [0; 20],
    };
    let mut job = begin_download(asset, 3);
    let mut attempts = 0;
    let last = loop {
        attempts += 1;
        match download_file(job, Fetched::Answer(200, reason(200), body.clone())) {
            Next::Fetch(again, Error::Decode(what, _)) => {
                assert_eq!(what, "f");
                job = again;
            }
            Next::Failed(e) => break e,
            _ => panic!(),
        }
    };
    assert_eq!(attempts, 3);
    assert!(matches!(last, Error::Decode(_, _)));
}

#[test]
fn download_succeeds_after_a_bad_body() {
    let (asset, body) = asset_for(b"content");
    let job = begin_download(asset, 2);
    // A body cut short has another digest; one that is no bzip2 at all, too.
    let (job, e) = fetch_again(download_file(
        job,
        Fetched::Answer(200, reason(200), b"garbage".to_vec()),
    ));
    assert!(matches!(e, Error::HashMismatch(_, _, _)));
    assert!(matches!(
        download_file(job, Fetched::Answer(200, reason(200), body)),
        Next::Done(_, _)
    ));
}

#[test]
fn staging_errors_are_retried_unless_fatal() {
    let transient = || Error::CopyIntoFile("\"/install/a.bz2\"".to_string(), "reset".to_string());
    assert!(matches!(judge_unstaged(transient()), Verdict::Retry(Error::CopyIntoFile(_, _))));
    assert!(matches!(
        judge_unstaged(Error::UnknownIo("creating".to_string(), "busy".to_string())),
        Verdict::Retry(Error::UnknownIo(_, _))
    ));
    assert!(matches!(
        judge_unstaged(Error::PermissionDenied("creating".to_string(), "denied".to_string())),
        Verdict::Fatal(Error::PermissionDenied(_, _))
    ));
    assert!(matches!(
        judge_unstaged(Error::NotDir("\"/install\"".to_string())),
        Verdict::Fatal(Error::NotDir(_))
    ));
    assert!(matches!(
        judge_unstaged(Error::FileRename("a".to_string(), "b".to_string())),
        Verdict::Fatal(Error::FileRename(_, _))
    ));

    let (asset, body) = asset_for(b"content");
    let job = begin_download(copy(&asset), 2);
    let (job, e) = storing_failed(job, transient()).unwrap();
    assert!(matches!(e, Error::CopyIntoFile(_, _)));
    assert_eq!(job.tries.attempt(), 2);
    assert_eq!(job.asset.uri, asset.uri);
    assert!(matches!(storing_failed(job, transient()), Err(Error::CopyIntoFile(_, _))));

    let job = begin_download(copy(&asset), 5);
    assert!(matches!(
        storing_failed(job, Error::PermissionDenied("creating".to_string(), "no".to_string())),
        Err(Error::PermissionDenied(_, _))
    ));

    let job = begin_download(asset, 2);
    let (job, _) = storing_failed(job, transient()).unwrap();
    assert!(matches!(
        download_file(job, Fetched::Answer(200, reason(200), body)),
        Next::Done(_, _)
    ));
}

#[test]
fn accepted_content_that_cannot_be_stored_is_fetched_again() {
    let (asset, body) = asset_for(b"content");
    let job = begin_download(asset, 2);
    let job = match download_file(job, Fetched::Answer(200, reason(200), body.clone())) {
        Next::Done(job, _) => job,
        _ => panic!(),
    };
    let full = || Error::FileWrite("\"/install/a\"".to_string(), "disk full".to_string());
    let (job, e) = storing_failed(job, full()).unwrap();
    assert!(matches!(e, Error::FileWrite(_, _)));
    let job = match download_file(job, Fetched::Answer(200, reason(200), body)) {
        Next::Done(job, _) => job,
        _ => panic!(),
    };
    assert!(matches!(storing_failed(job, full()), Err(Error::FileWrite(_, _))));
}

fn manifest_again(next: NextManifest) -> Tries {
    match next {
        NextManifest::Fetch(tries, _) => tries,
        _ => panic!(),
    }
}

#[test]
fn get_manifest_parses_the_body() {
    match get_manifest(Tries::new(1), Fetched::Answer(200, reason(200), "{\"a\": 1}".to_string())) {
        NextManifest::Done(Json::Object(members)) => assert_eq!(members[0].0, "a"),
        _ => panic!(),
    }
}

#[test]
fn get_manifest_retries_every_failure() {
    let tries = Tries::new(4);
    match get_manifest(Tries::new(2), Fetched::Answer(500, reason(500), String::new())) {
        NextManifest::Fetch(_, Error::ManifestRequestStatus(500, _)) => {}
        _ => panic!(),
    }
    let tries = manifest_again(get_manifest(tries, Fetched::Failed("dns".to_string())));
    let tries = manifest_again(get_manifest(tries, Fetched::Answer(502, reason(502), String::new())));
    let tries = manifest_again(get_manifest(tries, Fetched::Answer(200, reason(200), "{ not json".to_string())));
    assert_eq!(tries.attempt(), 4);
    match get_manifest(tries, Fetched::Answer(200, reason(200), "[]".to_string())) {
        NextManifest::Done(Json::Array(items)) => assert!(items.is_empty()),
        _ => panic!(),
    }
}

#[test]
fn get_manifest_gives_up_with_the_last_error() {
    match get_manifest(Tries::new(1), Fetched::Failed("dns".to_string())) {
        NextManifest::Failed(Error::ManifestRequest(cause)) => assert_eq!(cause, "dns"),
        _ => panic!(),
    }
    match get_manifest(Tries::new(1), Fetched::Answer(404, reason(404), "{}".to_string())) {
        NextManifest::Failed(Error::ManifestRequestStatus(404, phrase)) => {
            assert_eq!(phrase, "Not Found")
        }
        _ => panic!(),
    }
    let tries = manifest_again(get_manifest(Tries::new(2), Fetched::Failed("dns".to_string())));
    match get_manifest(tries, Fetched::Answer(200, reason(200), "{".to_string())) {
        NextManifest::Failed(Error::Deserialize(message)) => assert!(!message.is_empty()),
        _ => panic!(),
    }
}
