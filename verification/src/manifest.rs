//! The manifest: which files an installation consists of, what their content
//! hashes are, and which deltas exist for them.
//!
//! A manifest arrives as a JSON object keyed by file name. Each value is an
//! object with the keys `only` (platform tags), `dl` (name of the compressed
//! asset), `hash` and `compHash` (digests of the file and of the compressed
//! asset) and `patches` (an object keyed by the digest of the file that a delta
//! applies to, each value with `filename`, `patchHash` and `compPatchHash`).

use crate::error::{result_view, Error, ErrorView};
use crate::hash::{sha_from_hash_str, spec_sha_from_hash_str};
use crate::json::{member, spec_member, Json};
use vstd::prelude::*;
use vstd::string::{StringExecFns, StringSliceAdditionalSpecFns};
use vstd::utf8::encode_utf8;

verus! {

/// A delta for one file: it turns the content with digest `source_hash` into the
/// content that the manifest expects.
#[derive(Debug)]
pub struct PatchEntry {
    /// Digest of the content that the delta applies to.
    pub source_hash: [u8; 20],
    /// Name of the compressed delta on the distribution endpoint.
    pub download_name: String,
    /// Digest of the decompressed delta.
    pub patch_content_hash: [u8; 20],
    /// Digest of the compressed delta.
    pub patch_compressed_hash: [u8; 20],
}

/// The mathematical value of a [`PatchEntry`].
pub struct PatchEntryView {
    pub source_hash: Seq<u8>,
    pub download_name: Seq<char>,
    pub patch_content_hash: Seq<u8>,
    pub patch_compressed_hash: Seq<u8>,
}

impl View for PatchEntry {
    type V = PatchEntryView;

    open spec fn view(&self) -> PatchEntryView {
        PatchEntryView {
            source_hash: self.source_hash@,
            download_name: self.download_name@,
            patch_content_hash: self.patch_content_hash@,
            patch_compressed_hash: self.patch_compressed_hash@,
        }
    }
}

/// One file of the installation.
#[derive(Debug)]
pub struct FileEntry {
    /// Name of the file in the installation directory.
    pub name: String,
    /// Tags of the platforms that the file belongs to.
    pub supported_platforms: Vec<String>,
    /// Name of the compressed asset on the distribution endpoint.
    pub download_name: String,
    /// Digest of the file.
    pub content_hash: [u8; 20],
    /// Digest of the compressed asset.
    pub compressed_hash: [u8; 20],
    /// The deltas that exist for the file, in the manifest's order.
    pub patches: Vec<PatchEntry>,
}

/// The mathematical value of a [`FileEntry`].
pub struct FileEntryView {
    pub name: Seq<char>,
    pub supported_platforms: Seq<Seq<char>>,
    pub download_name: Seq<char>,
    pub content_hash: Seq<u8>,
    pub compressed_hash: Seq<u8>,
    pub patches: Seq<PatchEntryView>,
}

impl View for FileEntry {
    type V = FileEntryView;

    open spec fn view(&self) -> FileEntryView {
        FileEntryView {
            name: self.name@,
            supported_platforms: self.supported_platforms@.map_values(|s: String| s@),
            download_name: self.download_name@,
            content_hash: self.content_hash@,
            compressed_hash: self.compressed_hash@,
            patches: self.patches@.map_values(|p: PatchEntry| p@),
        }
    }
}

/// A parsed manifest: its entries in the order of the document.
#[derive(Debug)]
pub struct Manifest {
    pub entries: Vec<FileEntry>,
}

impl View for Manifest {
    type V = Seq<FileEntryView>;

    open spec fn view(&self) -> Seq<FileEntryView> {
        self.entries@.map_values(|e: FileEntry| e@)
    }
}

/// Whether a byte may stand in a plain path component: any byte but the slash,
/// the backslash, the colon of a drive prefix, and zero.
pub open spec fn is_name_byte(b: u8) -> bool {
    b != 0x2f && b != 0x5c && b != 0x3a && b != 0
}

/// Whether the UTF-8 bytes of a name make one plain path component: not empty,
/// neither `.` nor `..`, and without a slash, a backslash, a colon or a zero
/// byte. Joined to a directory, such a name stays inside it, also where a colon
/// ends a drive prefix.
pub open spec fn is_component(bytes: Seq<u8>) -> bool {
    &&& bytes.len() > 0
    &&& bytes != seq![0x2eu8]
    &&& bytes != seq![0x2eu8, 0x2eu8]
    &&& forall|i: int| 0 <= i < bytes.len() ==> is_name_byte(#[trigger] bytes[i])
}

/// The format error with the given message.
pub open spec fn bad_format(message: Seq<char>) -> ErrorView {
    ErrorView::BadManifestFormat(message)
}

/// The message for a name that is no plain path component.
pub open spec fn bad_name_message(name: Seq<char>) -> Seq<char> {
    "Expected a plain file name, without directories: "@ + name
}

/// A name as it stands, if it is a plain path component.
pub open spec fn spec_component(name: Seq<char>) -> Result<Seq<char>, ErrorView> {
    if is_component(encode_utf8(name)) {
        Ok(name)
    } else {
        Err(bad_format(bad_name_message(name)))
    }
}

/// The text of the member `key` of an object, with the messages for a member
/// that is absent and for one that is no string.
pub open spec fn spec_text_field(
    fields: Seq<(String, Json)>,
    key: Seq<char>,
    missing: Seq<char>,
    wrong: Seq<char>,
) -> Result<Seq<char>, ErrorView> {
    match spec_member(fields, key) {
        None => Err(bad_format(missing)),
        Some(Json::Text(s)) => Ok(s@),
        Some(_) => Err(bad_format(wrong)),
    }
}

/// The digest that the member `key` of an object spells.
pub open spec fn spec_hash_field(
    fields: Seq<(String, Json)>,
    key: Seq<char>,
    missing: Seq<char>,
    wrong: Seq<char>,
) -> Result<Seq<u8>, ErrorView> {
    match spec_text_field(fields, key, missing, wrong) {
        Ok(text) => spec_sha_from_hash_str(text),
        Err(e) => Err(e),
    }
}

/// The name that the member `key` of an object holds, which must be a plain
/// path component.
pub open spec fn spec_name_field(
    fields: Seq<(String, Json)>,
    key: Seq<char>,
    missing: Seq<char>,
    wrong: Seq<char>,
) -> Result<Seq<char>, ErrorView> {
    match spec_text_field(fields, key, missing, wrong) {
        Ok(text) => spec_component(text),
        Err(e) => Err(e),
    }
}

/// The text of a JSON string; `None` for any other value.
pub open spec fn spec_text(value: Json) -> Option<Seq<char>> {
    match value {
        Json::Text(s) => Some(s@),
        _ => None,
    }
}

/// The platform tags of an entry: the value of `only`, which must be an array
/// of strings.
pub open spec fn spec_platforms(
    fields: Seq<(String, Json)>,
) -> Result<Seq<Seq<char>>, ErrorView> {
    match spec_member(fields, "only"@) {
        None => Err(bad_format("Missing the \"only\" key"@)),
        Some(Json::Array(items)) => {
            if forall|i: int| 0 <= i < items@.len() ==> (#[trigger] spec_text(items@[i])) is Some {
                Ok(Seq::new(items@.len(), |i: int| spec_text(items@[i]).unwrap()))
            } else {
                Err(bad_format("Expected OS & architecture values to be Strings"@))
            }
        },
        Some(_) => Err(bad_format("Expected \"only\"'s value to be an Array"@)),
    }
}

/// One delta of an entry, from its key and value in `patches`. The key spells
/// the digest of the content that the delta applies to.
pub open spec fn spec_patch(key: Seq<char>, value: Json) -> Result<PatchEntryView, ErrorView> {
    match spec_sha_from_hash_str(key) {
        Err(e) => Err(e),
        Ok(source_hash) => match value {
            Json::Object(fields) => match spec_name_field(
                fields@,
                "filename"@,
                "Expected \"filename\" key in patch Object"@,
                "Expected \"filename\" key in patch Object"@,
            ) {
                Err(e) => Err(e),
                Ok(download_name) => match spec_hash_field(
                    fields@,
                    "compPatchHash"@,
                    "Expected \"compPatchHash\""@,
                    "Expected \"compPatchHash\" to be a String"@,
                ) {
                    Err(e) => Err(e),
                    Ok(patch_compressed_hash) => match spec_hash_field(
                        fields@,
                        "patchHash"@,
                        "Expected \"patchHash\""@,
                        "Expected \"patchHash\" to be a String"@,
                    ) {
                        Err(e) => Err(e),
                        Ok(patch_content_hash) => Ok(
                            PatchEntryView {
                                source_hash,
                                download_name,
                                patch_content_hash,
                                patch_compressed_hash,
                            },
                        ),
                    },
                },
            },
            _ => Err(bad_format("Expected \"patches\" to be objects"@)),
        },
    }
}

/// The deltas of an entry, in order; the error of the first member that is no
/// delta.
pub open spec fn spec_patch_list(
    members: Seq<(String, Json)>,
) -> Result<Seq<PatchEntryView>, ErrorView>
    decreases members.len(),
{
    if members.len() == 0 {
        Ok(Seq::empty())
    } else {
        match spec_patch_list(members.drop_last()) {
            Err(e) => Err(e),
            Ok(before) => match spec_patch(members.last().0@, members.last().1) {
                Err(e) => Err(e),
                Ok(patch) => Ok(before.push(patch)),
            },
        }
    }
}

/// The message for an entry without an object under `patches`.
pub open spec fn no_patches_message(name: Seq<char>) -> Seq<char> {
    "Expected \"patches\" key with Object value to be in the \""@ + name + "\" Object"@
}

/// The deltas of the entry `name`: the value of `patches`, which must be an
/// object.
pub open spec fn spec_patches(
    name: Seq<char>,
    fields: Seq<(String, Json)>,
) -> Result<Seq<PatchEntryView>, ErrorView> {
    match spec_member(fields, "patches"@) {
        Some(Json::Object(members)) => spec_patch_list(members@),
        _ => Err(bad_format(no_patches_message(name))),
    }
}

/// One entry of a manifest, from its name and value. The name and the download
/// name must be plain path components; then `only`, `dl`, `compHash`, `hash`
/// and `patches` are read in this order, and the first that fails gives the
/// error.
pub open spec fn spec_entry(name: Seq<char>, value: Json) -> Result<FileEntryView, ErrorView> {
    match value {
        Json::Object(fields) => match spec_component(name) {
            Err(e) => Err(e),
            Ok(_) => match spec_platforms(fields@) {
                Err(e) => Err(e),
                Ok(supported_platforms) => match spec_name_field(
                    fields@,
                    "dl"@,
                    "Expected \"dl\""@,
                    "Expected \"dl\" to be a String"@,
                ) {
                    Err(e) => Err(e),
                    Ok(download_name) => match spec_hash_field(
                        fields@,
                        "compHash"@,
                        "Expected \"compHash\""@,
                        "Expected \"compHash\" to be a String"@,
                    ) {
                        Err(e) => Err(e),
                        Ok(compressed_hash) => match spec_hash_field(
                            fields@,
                            "hash"@,
                            "Expected \"hash\""@,
                            "Expected \"hash\" to be a String"@,
                        ) {
                            Err(e) => Err(e),
                            Ok(content_hash) => match spec_patches(name, fields@) {
                                Err(e) => Err(e),
                                Ok(patches) => Ok(
                                    FileEntryView {
                                        name,
                                        supported_platforms,
                                        download_name,
                                        content_hash,
                                        compressed_hash,
                                        patches,
                                    },
                                ),
                            },
                        },
                    },
                },
            },
        },
        _ => Err(bad_format("Expected Object at 2nd-to-top level"@)),
    }
}

/// The entries of a manifest, in order; the error of the first member that is
/// no entry.
pub open spec fn spec_entry_list(
    members: Seq<(String, Json)>,
) -> Result<Seq<FileEntryView>, ErrorView>
    decreases members.len(),
{
    if members.len() == 0 {
        Ok(Seq::empty())
    } else {
        match spec_entry_list(members.drop_last()) {
            Err(e) => Err(e),
            Ok(before) => match spec_entry(members.last().0@, members.last().1) {
                Err(e) => Err(e),
                Ok(entry) => Ok(before.push(entry)),
            },
        }
    }
}

/// What a JSON document means as a manifest.
pub open spec fn spec_parse_manifest(json: Json) -> Result<Seq<FileEntryView>, ErrorView> {
    match json {
        Json::Object(members) => spec_entry_list(members@),
        _ => Err(bad_format("Top-level value is not an Object"@)),
    }
}

/// The mathematical value of a result that holds platform tags.
pub open spec fn platforms_view(r: Result<Vec<String>, Error>) -> Result<Seq<Seq<char>>, ErrorView> {
    match r {
        Ok(tags) => Ok(tags@.map_values(|s: String| s@)),
        Err(e) => Err(e@),
    }
}

/// The mathematical value of a result that holds deltas.
pub open spec fn patches_view(
    r: Result<Vec<PatchEntry>, Error>,
) -> Result<Seq<PatchEntryView>, ErrorView> {
    match r {
        Ok(list) => Ok(list@.map_values(|p: PatchEntry| p@)),
        Err(e) => Err(e@),
    }
}

/// The mathematical value of the entries read so far.
pub open spec fn entries_view(entries: Vec<FileEntry>) -> Result<Seq<FileEntryView>, ErrorView> {
    Ok(entries@.map_values(|e: FileEntry| e@))
}

/// The format error with the message `text`.
fn format_error(text: &str) -> (e: Error)
    ensures
        e@ == bad_format(text@),
{
    Error::BadManifestFormat(String::from_str(text))
}

/// Whether `name` is a plain path component.
pub fn is_plain_name(name: &str) -> (plain: bool)
    ensures
        plain == is_component(encode_utf8(name@)),
{
    let bytes = name.as_bytes();
    let n: usize = bytes.len();
    if n == 0 {
        return false;
    }
    if n == 1 && bytes[0] == 0x2e {
        assert(bytes@ =~= seq![0x2eu8]);
        return false;
    }
    if n == 2 && bytes[0] == 0x2e && bytes[1] == 0x2e {
        assert(bytes@ =~= seq![0x2eu8, 0x2eu8]);
        return false;
    }
    assert(bytes@ != seq![0x2eu8]) by {
        if bytes@ == seq![0x2eu8] {
            assert(seq![0x2eu8].len() == 1 && seq![0x2eu8][0] == 0x2e);
        }
    }
    assert(bytes@ != seq![0x2eu8, 0x2eu8]) by {
        let dots = seq![0x2eu8, 0x2eu8];
        if bytes@ == dots {
            assert(dots.len() == 2 && dots[0] == 0x2e && dots[1] == 0x2e);
        }
    }
    let mut i: usize = 0;
    while i < n
        invariant
            i <= n == bytes@.len(),
            bytes@ == encode_utf8(name@),
            forall|j: int| 0 <= j < i ==> is_name_byte(#[trigger] bytes@[j]),
        decreases n - i,
    {
        let b: u8 = bytes[i];
        if b == 0x2f || b == 0x5c || b == 0x3a || b == 0 {
            assert(!is_name_byte(bytes@[i as int]));
            return false;
        }
        i += 1;
    }
    true
}

/// A copy of `name`, if it is a plain path component.
fn component(name: &str) -> (res: Result<String, Error>)
    ensures
        result_view(res) == spec_component(name@),
{
    if is_plain_name(name) {
        Ok(String::from_str(name))
    } else {
        let mut message = String::from_str("Expected a plain file name, without directories: ");
        message.append(name);
        Err(Error::BadManifestFormat(message))
    }
}

/// The text of the member `key` of an object.
fn text_field<'a>(
    fields: &'a Vec<(String, Json)>,
    key: &str,
    missing: &str,
    wrong: &str,
) -> (res: Result<&'a String, Error>)
    ensures
        result_view(res) == spec_text_field(fields@, key@, missing@, wrong@),
{
    match member(fields, key) {
        None => Err(format_error(missing)),
        Some(Json::Text(s)) => Ok(s),
        Some(_) => Err(format_error(wrong)),
    }
}

/// The digest that the member `key` of an object spells.
fn hash_field(
    fields: &Vec<(String, Json)>,
    key: &str,
    missing: &str,
    wrong: &str,
) -> (res: Result<[u8; 20], Error>)
    ensures
        result_view(res) == spec_hash_field(fields@, key@, missing@, wrong@),
{
    match text_field(fields, key, missing, wrong) {
        Ok(text) => sha_from_hash_str(text.as_str()),
        Err(e) => Err(e),
    }
}

/// The name that the member `key` of an object holds.
fn name_field(
    fields: &Vec<(String, Json)>,
    key: &str,
    missing: &str,
    wrong: &str,
) -> (res: Result<String, Error>)
    ensures
        result_view(res) == spec_name_field(fields@, key@, missing@, wrong@),
{
    match text_field(fields, key, missing, wrong) {
        Ok(text) => component(text.as_str()),
        Err(e) => Err(e),
    }
}

/// The platform tags of an entry.
fn platforms(fields: &Vec<(String, Json)>) -> (res: Result<Vec<String>, Error>)
    ensures
        platforms_view(res) == spec_platforms(fields@),
{
    match member(fields, "only") {
        None => Err(format_error("Missing the \"only\" key")),
        Some(Json::Array(items)) => {
            let mut tags: Vec<String> = Vec::new();
            let mut i: usize = 0;
            while i < items.len()
                invariant
                    i <= items@.len(),
                    tags@.len() == i,
                    spec_member(fields@, "only"@) == Some(Json::Array(*items)),
                    forall|j: int|
                        0 <= j < i ==> (#[trigger] spec_text(items@[j])) == Some(tags@[j]@),
                decreases items@.len() - i,
            {
                match &items[i] {
                    Json::Text(s) => {
                        tags.push(s.clone());
                    },
                    _ => {
                        assert(spec_text(items@[i as int]) is None);
                        return Err(
                            format_error("Expected OS & architecture values to be Strings"),
                        );
                    },
                }
                i += 1;
            }
            assert(tags@.map_values(|s: String| s@) =~= Seq::new(
                items@.len(),
                |i: int| spec_text(items@[i]).unwrap(),
            ));
            Ok(tags)
        },
        Some(_) => Err(format_error("Expected \"only\"'s value to be an Array")),
    }
}

/// One delta of an entry.
fn patch(key: &str, value: &Json) -> (res: Result<PatchEntry, Error>)
    ensures
        result_view(res) == spec_patch(key@, *value),
{
    let source_hash = match sha_from_hash_str(key) {
        Ok(d) => d,
        Err(e) => {
            return Err(e);
        },
    };
    let fields = match value {
        Json::Object(fields) => fields,
        _ => {
            return Err(format_error("Expected \"patches\" to be objects"));
        },
    };
    let download_name = match name_field(
        fields,
        "filename",
        "Expected \"filename\" key in patch Object",
        "Expected \"filename\" key in patch Object",
    ) {
        Ok(s) => s,
        Err(e) => {
            return Err(e);
        },
    };
    let patch_compressed_hash = match hash_field(
        fields,
        "compPatchHash",
        "Expected \"compPatchHash\"",
        "Expected \"compPatchHash\" to be a String",
    ) {
        Ok(d) => d,
        Err(e) => {
            return Err(e);
        },
    };
    let patch_content_hash = match hash_field(
        fields,
        "patchHash",
        "Expected \"patchHash\"",
        "Expected \"patchHash\" to be a String",
    ) {
        Ok(d) => d,
        Err(e) => {
            return Err(e);
        },
    };
    Ok(PatchEntry { source_hash, download_name, patch_content_hash, patch_compressed_hash })
}

/// The deltas of the entry `name`.
fn patches(name: &str, fields: &Vec<(String, Json)>) -> (res: Result<Vec<PatchEntry>, Error>)
    ensures
        patches_view(res) == spec_patches(name@, fields@),
{
    let members = match member(fields, "patches") {
        Some(Json::Object(members)) => members,
        _ => {
            let mut message = String::from_str(
                "Expected \"patches\" key with Object value to be in the \"",
            );
            message.append(name);
            message.append("\" Object");
            return Err(Error::BadManifestFormat(message));
        },
    };
    let mut list: Vec<PatchEntry> = Vec::new();
    let mut i: usize = 0;
    assert(members@.take(0) =~= Seq::<(String, Json)>::empty());
    assert(list@.map_values(|p: PatchEntry| p@) =~= Seq::<PatchEntryView>::empty());
    while i < members.len()
        invariant
            i <= members@.len(),
            spec_member(fields@, "patches"@) == Some(Json::Object(*members)),
            spec_patch_list(members@.take(i as int)) == patches_view(Ok(list)),
        decreases members@.len() - i,
    {
        let ghost upto = members@.take(i + 1);
        assert(upto.drop_last() =~= members@.take(i as int));
        assert(upto.last() == members@[i as int]);
        let ghost before = list@.map_values(|p: PatchEntry| p@);
        match patch(members[i].0.as_str(), &members[i].1) {
            Ok(p) => {
                list.push(p);
                assert(list@.map_values(|p: PatchEntry| p@) =~= before.push(p@));
            },
            Err(e) => {
                proof {
                    lemma_patch_list_fails(members@, i + 1);
                }
                return Err(e);
            },
        }
        i += 1;
    }
    assert(members@.take(i as int) =~= members@);
    Ok(list)
}

/// Once a prefix of the members is no list of deltas, the whole is none, with
/// the same error.
proof fn lemma_patch_list_fails(members: Seq<(String, Json)>, n: int)
    requires
        0 <= n <= members.len(),
        spec_patch_list(members.take(n)) is Err,
    ensures
        spec_patch_list(members) == spec_patch_list(members.take(n)),
    decreases members.len() - n,
{
    if n < members.len() {
        let upto = members.take(n + 1);
        assert(upto.drop_last() =~= members.take(n));
        lemma_patch_list_fails(members, n + 1);
    } else {
        assert(members.take(n) =~= members);
    }
}

/// One entry of a manifest.
fn entry(name: &str, value: &Json) -> (res: Result<FileEntry, Error>)
    ensures
        result_view(res) == spec_entry(name@, *value),
{
    let fields = match value {
        Json::Object(fields) => fields,
        _ => {
            return Err(format_error("Expected Object at 2nd-to-top level"));
        },
    };
    let own_name = match component(name) {
        Ok(s) => s,
        Err(e) => {
            return Err(e);
        },
    };
    let supported_platforms = match platforms(fields) {
        Ok(tags) => tags,
        Err(e) => {
            return Err(e);
        },
    };
    let download_name = match name_field(
        fields,
        "dl",
        "Expected \"dl\"",
        "Expected \"dl\" to be a String",
    ) {
        Ok(s) => s,
        Err(e) => {
            return Err(e);
        },
    };
    let compressed_hash = match hash_field(
        fields,
        "compHash",
        "Expected \"compHash\"",
        "Expected \"compHash\" to be a String",
    ) {
        Ok(d) => d,
        Err(e) => {
            return Err(e);
        },
    };
    let content_hash = match hash_field(
        fields,
        "hash",
        "Expected \"hash\"",
        "Expected \"hash\" to be a String",
    ) {
        Ok(d) => d,
        Err(e) => {
            return Err(e);
        },
    };
    let patches = match patches(name, fields) {
        Ok(list) => list,
        Err(e) => {
            return Err(e);
        },
    };
    Ok(
        FileEntry {
            name: own_name,
            supported_platforms,
            download_name,
            content_hash,
            compressed_hash,
            patches,
        },
    )
}

/// Once a prefix of the members is no list of entries, the whole is none, with
/// the same error.
proof fn lemma_entry_list_fails(members: Seq<(String, Json)>, n: int)
    requires
        0 <= n <= members.len(),
        spec_entry_list(members.take(n)) is Err,
    ensures
        spec_entry_list(members) == spec_entry_list(members.take(n)),
    decreases members.len() - n,
{
    if n < members.len() {
        let upto = members.take(n + 1);
        assert(upto.drop_last() =~= members.take(n));
        lemma_entry_list_fails(members, n + 1);
    } else {
        assert(members.take(n) =~= members);
    }
}

/// Reads a JSON document as a manifest.
///
/// The result is exactly [`spec_parse_manifest`]: the typed entries in the
/// order of the document, or the format error of the first thing in it that is
/// not as a manifest must be.
pub fn parse_manifest(json: &Json) -> (res: Result<Manifest, Error>)
    ensures
        result_view(res) == spec_parse_manifest(*json),
{
    let members = match json {
        Json::Object(members) => members,
        _ => {
            return Err(format_error("Top-level value is not an Object"));
        },
    };
    let mut entries: Vec<FileEntry> = Vec::new();
    let mut i: usize = 0;
    assert(members@.take(0) =~= Seq::<(String, Json)>::empty());
    assert(entries@.map_values(|e: FileEntry| e@) =~= Seq::<FileEntryView>::empty());
    while i < members.len()
        invariant
            i <= members@.len(),
            *json == Json::Object(*members),
            spec_entry_list(members@.take(i as int)) == entries_view(entries),
        decreases members@.len() - i,
    {
        let ghost upto = members@.take(i + 1);
        assert(upto.drop_last() =~= members@.take(i as int));
        assert(upto.last() == members@[i as int]);
        let ghost before = entries@.map_values(|e: FileEntry| e@);
        match entry(members[i].0.as_str(), &members[i].1) {
            Ok(e) => {
                entries.push(e);
                assert(entries@.map_values(|e: FileEntry| e@) =~= before.push(e@));
            },
            Err(e) => {
                proof {
                    lemma_entry_list_fails(members@, i + 1);
                }
                return Err(e);
            },
        }
        i += 1;
    }
    assert(members@.take(i as int) =~= members@);
    Ok(Manifest { entries })
}

} // verus!
