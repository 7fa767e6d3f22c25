//! The fingerprint store: one small file per provider and set of requested
//! servers, which holds a digest of the servers that were last found
//! available. The library names the file and decides what it must hold;
//! reading and writing it is left to the caller.
//!
//! Both digests are taken over the sorted list, so neither the file's name
//! nor its content depends on the order in which servers were asked for.

use crate::error::ErrorView;
use crate::json::{json_of_list, list_to_json};
use crate::sorting::{lemma_sorted_texts_of_permutation, sort_strings, sorted_texts};
use crate::text::{digit_char, is_space, lower_hex, to_lower_hex, trim, trimmed, trimmed_end, trimmed_start};
use crate::{CheckResult, LibError};
use sha2::{Digest, Sha256};
use vstd::prelude::*;
use vstd::utf8::encode_utf8;

verus! {

/// The SHA-256 digest of a sequence of bytes.
pub uninterp spec fn sha256(data: Seq<u8>) -> Seq<u8>;

/// Computes the SHA-256 digest of `data`, through `Sha256::digest` of the
/// `sha2` crate: the digest depends on the bytes alone and is 32 bytes
/// long.
#[verifier::external_body]
fn sha256_digest(data: &[u8]) -> (digest: Vec<u8>)
    ensures
        digest@ == sha256(data@),
        digest@.len() == 32,
{
    Sha256::digest(data).to_vec()
}

/// The hexadecimal SHA-256 digest of the compact JSON array of `items`.
pub open spec fn list_digest(items: Seq<Seq<char>>) -> Seq<char> {
    lower_hex(sha256(encode_utf8(json_of_list(items))))
}

/// The digest that stands for a list whatever its order: that of the
/// sorted list.
pub open spec fn fingerprint(items: Seq<Seq<char>>) -> Seq<char> {
    list_digest(sorted_texts(items))
}

/// The name of the file that keeps the fingerprint for a provider and a
/// list of requested servers.
pub open spec fn record_name(provider_name: Seq<char>, servers: Seq<Seq<char>>) -> Seq<char> {
    provider_name + "-"@ + fingerprint(servers) + ".sha256"@
}

/// A file's place under a directory: the two joined by one slash, unless
/// the directory is empty or already ends in one.
pub open spec fn path_under(root: Seq<char>, file_name: Seq<char>) -> Seq<char> {
    if root.len() == 0 || root.last() == '/' {
        root + file_name
    } else {
        root + "/"@ + file_name
    }
}

/// What the caller found when it tried to make sure that the storage
/// directory exists.
#[derive(Debug)]
pub enum DirectoryProbe {
    /// The path is a directory now.
    Directory,
    /// The path exists and is something else.
    NotADirectory,
    /// The directory could not be created.
    Failed(std::io::Error),
}

/// What the caller found when it tried to read a record.
#[derive(Debug)]
pub enum RecordRead {
    /// There is no such file.
    Missing,
    /// The file's whole content.
    Content(String),
    /// The file is there and could not be read as text.
    Failed(std::io::Error),
}

/// A record that the caller is asked to write, replacing what the file held.
#[derive(Clone, Debug, PartialEq, Eq)]
pub struct StoredRecord {
    pub path: String,
    pub hash: String,
}

/// Gives access to the records below one directory.
#[derive(Clone, Debug, PartialEq, Eq)]
pub struct CheckResultStorage {
    pub path: String,
}

/// Generates the hexadecimal SHA-256 digest of a list of strings, taken over
/// its compact JSON form.
pub fn to_json_sha256(value: &Vec<String>) -> (r: Result<String, LibError>)
    ensures
        r matches Ok(hash) && hash@ == list_digest(value.deep_view()) && hash@.len() == 64,
{
    match list_to_json(value) {
        Ok(json) => Ok(digest_of_json(json.as_str())),
        Err(source) => Err(LibError::JsonError { source }),
    }
}

/// The hexadecimal SHA-256 digest of a text.
pub fn digest_of_json(json: &str) -> (hash: String)
    ensures
        hash@ == lower_hex(sha256(encode_utf8(json@))),
        hash@.len() == 64,
{
    let digest = sha256_digest(json.as_bytes());
    to_lower_hex(&digest)
}

/// The fingerprint of a list of strings: the digest of the sorted list.
pub fn fingerprint_of(items: &Vec<String>) -> (r: Result<String, LibError>)
    ensures
        r matches Ok(hash) && hash@ == fingerprint(items.deep_view()) && hash@.len() == 64,
{
    let sorted = sort_strings(items);
    to_json_sha256(&sorted)
}

/// What `get_hash` answers for what was read.
pub open spec fn stored_hash(read: RecordRead) -> Result<Option<Seq<char>>, ErrorView> {
    match read {
        RecordRead::Missing => Ok(None),
        RecordRead::Content(content) => Ok(Some(trimmed(content@))),
        RecordRead::Failed(source) => Err(ErrorView::IOError { source }),
    }
}

/// What `is_equal` answers: whether the record holds the fingerprint of the
/// available servers, which no missing record does, or the failure to read
/// the record.
pub open spec fn equal_outcome(available: Seq<Seq<char>>, read: RecordRead) -> Result<
    bool,
    ErrorView,
> {
    match stored_hash(read) {
        Ok(None) => Ok(false),
        Ok(Some(stored)) => Ok(stored == fingerprint(available)),
        Err(failure) => Err(failure),
    }
}

/// The view of a result that holds an optional text or a failure.
pub open spec fn hash_result_view(r: Result<Option<String>, LibError>) -> Result<
    Option<Seq<char>>,
    ErrorView,
> {
    match r {
        Ok(Some(text)) => Ok(Some(text@)),
        Ok(None) => Ok(None),
        Err(e) => Err(e@),
    }
}

impl CheckResultStorage {
    /// Builds a storage on a directory that the caller has tried to create.
    pub fn new(path: &str, probe: DirectoryProbe) -> (r: Result<Self, LibError>)
        ensures
            match probe {
                DirectoryProbe::Directory => r matches Ok(storage) && storage.path@ == path@,
                DirectoryProbe::NotADirectory => r matches Err(e) && e@ == (ErrorView::ValueError {
                    name: "Storage directory is not an accessible directory"@,
                    value: path@,
                }),
                DirectoryProbe::Failed(source) => r matches Err(e) && e@ == (ErrorView::IOError {
                    source,
                }),
            },
    {
        match probe {
            DirectoryProbe::Directory => Ok(Self { path: path.to_owned() }),
            DirectoryProbe::NotADirectory => Err(
                LibError::ValueError {
                    name: "Storage directory is not an accessible directory".to_owned(),
                    value: path.to_owned(),
                },
            ),
            DirectoryProbe::Failed(source) => Err(LibError::IOError { source }),
        }
    }

    /// The name of the record for a provider and a list of requested servers.
    pub fn file_name(provider_name: &str, servers: &Vec<String>) -> (r: Result<String, LibError>)
        ensures
            r matches Ok(name) && name@ == record_name(provider_name@, servers.deep_view())
                && name@.len() == provider_name@.len() + 72,
    {
        let hash = fingerprint_of(servers)?;
        let mut name = provider_name.to_owned();
        name.append("-");
        name.append(hash.as_str());
        name.append(".sha256");
        proof {
            reveal_strlit("-");
            reveal_strlit(".sha256");
        }
        Ok(name)
    }

    /// Places a file name under the storage directory.
    pub fn place(&self, file_name: &str) -> (path: String)
        ensures
            path@ == path_under(self.path@, file_name@),
    {
        let mut path = self.path.clone();
        let root = crate::text::chars_of(self.path.as_str());
        if root.len() > 0 && root[root.len() - 1] != '/' {
            path.append("/");
        }
        path.append(file_name);
        path
    }

    /// Builds the storage path for a provider and a list of requested servers.
    pub fn get_path(&self, provider_name: &str, servers: &Vec<String>) -> (r: Result<
        String,
        LibError,
    >)
        ensures
            r matches Ok(path) && path@ == path_under(
                self.path@,
                record_name(provider_name@, servers.deep_view()),
            ),
    {
        let name = Self::file_name(provider_name, servers)?;
        Ok(self.place(name.as_str()))
    }

    /// The record to write for a result: where it goes and what it holds.
    pub fn put_hash(&self, provider_name: &str, servers: &Vec<String>, check_result: &CheckResult) -> (r:
        Result<StoredRecord, LibError>)
        ensures
            r matches Ok(record) && record.path@ == path_under(
                self.path@,
                record_name(provider_name@, servers.deep_view()),
            ) && record.hash@ == fingerprint(check_result@.available_servers)
                && record.hash@.len() == 64,
    {
        let path = self.get_path(provider_name, servers)?;
        let hash = fingerprint_of(&check_result.available_servers)?;
        Ok(StoredRecord { path, hash })
    }

    /// The hash that a record holds: none where the file is missing, the
    /// trimmed content where it was read, a failure where it could not be.
    pub fn get_hash(&self, read: RecordRead) -> (r: Result<Option<String>, LibError>)
        ensures
            hash_result_view(r) == stored_hash(read),
    {
        match read {
            RecordRead::Missing => Ok(None),
            RecordRead::Content(content) => Ok(Some(trim(content.as_str()))),
            RecordRead::Failed(source) => Err(LibError::IOError { source }),
        }
    }

    /// Compares a result with what the record holds. A missing record
    /// equals nothing.
    pub fn is_equal(&self, check_result: &CheckResult, read: RecordRead) -> (r: Result<
        bool,
        LibError,
    >)
        ensures
            crate::providers::check_view(r) == equal_outcome(check_result@.available_servers, read),
    {
        let stored_hash = self.get_hash(read)?;
        match stored_hash {
            None => Ok(false),
            Some(stored_hash) => {
                let available_server_hash = fingerprint_of(&check_result.available_servers)?;
                Ok(crate::text::text_eq(available_server_hash.as_str(), stored_hash.as_str()))
            },
        }
    }
}

proof fn lemma_hex_has_no_space(bytes: Seq<u8>)
    ensures
        forall|i: int| 0 <= i < lower_hex(bytes).len() ==> !is_space(#[trigger] lower_hex(bytes)[i]),
    decreases bytes.len(),
{
    if bytes.len() > 0 {
        lemma_hex_has_no_space(bytes.drop_last());
        let high = bytes.last() as int / 16;
        let low = bytes.last() as int % 16;
        assert(!is_space(digit_char(high)));
        assert(!is_space(digit_char(low)));
        let head = lower_hex(bytes.drop_last());
        let text = lower_hex(bytes);
        assert(text == head.push(digit_char(high)).push(digit_char(low)));
        assert forall|i: int| 0 <= i < text.len() implies !is_space(#[trigger] text[i]) by {
            if i < head.len() {
                assert(text[i] == head[i]);
            }
        }
    }
}

/// A fingerprint reads back as it was written: trimming takes nothing
/// away from it.
pub proof fn lemma_fingerprint_is_trimmed(items: Seq<Seq<char>>)
    ensures
        trimmed(fingerprint(items)) == fingerprint(items),
{
    let bytes = sha256(encode_utf8(json_of_list(sorted_texts(items))));
    lemma_hex_has_no_space(bytes);
    let hash = lower_hex(bytes);
    if hash.len() > 0 {
        assert(!is_space(hash[0]));
        assert(!is_space(hash[hash.len() - 1]));
    }
    assert(trimmed_start(hash) == hash);
    assert(trimmed_end(hash) == hash);
}

/// Where no record exists yet, no result compares equal: the first run
/// always counts as a change.
pub proof fn law_first_run_differs(available: Seq<Seq<char>>)
    ensures
        equal_outcome(available, RecordRead::Missing) == Ok::<bool, ErrorView>(false),
{
}

/// A result compares equal to the record that was written for it, and to a
/// record written for any result with the same available servers.
pub proof fn law_written_record_matches(available: Seq<Seq<char>>, record: StoredRecord)
    requires
        record.hash@ == fingerprint(available),
    ensures
        equal_outcome(available, RecordRead::Content(record.hash)) == Ok::<bool, ErrorView>(true),
{
    lemma_fingerprint_is_trimmed(available);
}

/// Neither the name of a record nor the fingerprint in it depends on the
/// order of the servers: two lists that hold the same servers equally
/// often give the same name and the same fingerprint.
pub proof fn law_order_is_irrelevant(provider_name: Seq<char>, a: Seq<Seq<char>>, b: Seq<Seq<char>>)
    requires
        a.to_multiset() == b.to_multiset(),
    ensures
        fingerprint(a) == fingerprint(b),
        record_name(provider_name, a) == record_name(provider_name, b),
{
    lemma_sorted_texts_of_permutation(a, b);
}

} // verus!
