//! The release manifest: for each artifact and target, where to download it
//! and which digests its bytes must have.
use vstd::prelude::*;
use vstd::string::*;
use crate::text::{chars_of, owned};
use crate::validation::{Channel, channel_name_spec};

verus! {

/// Download location and expected digests of one artifact build.
#[derive(Debug, Clone)]
pub struct ArtifactEntry {
    pub url: String,
    /// Expected SHA-256 digest, as hex.
    pub hash_strong: String,
    /// Expected SHA-1 digest, as hex.
    pub hash_weak: String,
}

/// One manifest line: the entry of `artifact` for `target`.
#[derive(Debug, Clone)]
pub struct ManifestRecord {
    pub artifact: String,
    pub target: String,
    pub entry: ArtifactEntry,
}

/// A parsed manifest. `validate` accepts it only where no two records share
/// an artifact and a target; lookups take the first matching record.
#[derive(Debug, Clone)]
pub struct Manifest {
    pub records: Vec<ManifestRecord>,
}

/// An artifact to install, with everything needed to fetch and check it.
#[derive(Debug, Clone)]
pub struct ResolvedArtifact {
    pub name: String,
    pub url: String,
    pub hash_strong: String,
    pub hash_weak: String,
}

/// Why a manifest could not give what was asked of it.
#[derive(Debug, Clone)]
pub enum ManifestError {
    /// No manifest file for the channel; holds the file name.
    NotFound(String),
    /// The manifest file is malformed; holds the reader's message.
    Parse(String),
    /// The manifest has no entry of `artifact` for `target`.
    MissingTargetEntry { artifact: String, target: String },
    /// The entry of `artifact` for `target` has an empty URL or a digest
    /// that is not hex of the right length.
    InvalidEntry { artifact: String, target: String },
    /// Two records give an entry of `artifact` for `target`.
    DuplicateEntry { artifact: String, target: String },
}

/// Whether two records are for the same artifact and target.
pub open spec fn same_key(a: ManifestRecord, b: ManifestRecord) -> bool {
    a.artifact@ == b.artifact@ && a.target@ == b.target@
}

/// Whether no two records are for the same artifact and target.
pub open spec fn keys_unique(recs: Seq<ManifestRecord>) -> bool {
    forall|i: int, j: int| 0 <= i < j < recs.len() ==> !same_key(#[trigger] recs[i], #[trigger] recs[j])
}

/// Whether a character is a hex digit, in either case.
pub open spec fn is_hex_digit(c: char) -> bool {
    ('0' <= c && c <= '9') || ('a' <= c && c <= 'f') || ('A' <= c && c <= 'F')
}

/// Whether `s` is `n` hex digits.
pub open spec fn is_hex_of_len(s: Seq<char>, n: nat) -> bool {
    s.len() == n && forall|i: int| 0 <= i < s.len() ==> is_hex_digit(#[trigger] s[i])
}

/// Whether an entry is usable: a URL, a 64-digit SHA-256 and a 40-digit
/// SHA-1 digest.
pub open spec fn entry_valid(e: ArtifactEntry) -> bool {
    e.url@.len() > 0 && is_hex_of_len(e.hash_strong@, 64) && is_hex_of_len(e.hash_weak@, 40)
}

/// Whether `s` is `n` hex digits.
pub fn is_hex_text(s: &str, n: usize) -> (r: bool)
    ensures
        r == is_hex_of_len(s@, n as nat),
{
    let cs = chars_of(s);
    if cs.len() != n {
        return false;
    }
    let mut i: usize = 0;
    while i < cs.len()
        invariant
            cs@ == s@,
            i <= cs@.len(),
            forall|k: int| 0 <= k < i ==> is_hex_digit(#[trigger] cs@[k]),
        decreases cs@.len() - i,
    {
        let c = cs[i];
        if !(('0' <= c && c <= '9') || ('a' <= c && c <= 'f') || ('A' <= c && c <= 'F')) {
            return false;
        }
        i = i + 1;
    }
    true
}

/// Whether an entry is usable.
pub fn check_entry(e: &ArtifactEntry) -> (r: bool)
    ensures
        r == entry_valid(*e),
{
    !e.url.as_str().is_empty() && is_hex_text(e.hash_strong.as_str(), 64) && is_hex_text(e.hash_weak.as_str(), 40)
}

/// The artifacts every install or update brings in, in order.
pub open spec fn required_artifacts_spec() -> Seq<Seq<char>> {
    seq!["hoon"@, "hoonc"@]
}

/// The names of the artifacts every install or update brings in.
pub fn required_artifacts() -> (r: Vec<String>)
    ensures
        r@.map_values(|s: String| s@) == required_artifacts_spec(),
{
    let r = vec![owned("hoon"), owned("hoonc")];
    assert(r@.map_values(|s: String| s@) =~= required_artifacts_spec());
    r
}

/// The file name of a product's manifest for a channel.
pub open spec fn manifest_file_name_spec(product: Seq<char>, channel: Channel) -> Seq<char> {
    "channel-"@ + product + "-"@ + channel_name_spec(channel) + ".toml"@
}

/// The file name of a product's manifest for a channel:
/// `channel-<product>-<channel>.toml`.
pub fn manifest_file_name(product: &str, channel: Channel) -> (r: String)
    ensures
        r@ == manifest_file_name_spec(product@, channel),
{
    let mut r = owned("channel-");
    r.append(product);
    r.append("-");
    r.append(channel.name());
    r.append(".toml");
    r
}

/// Whether a record is the entry of `artifact` for `target`.
pub open spec fn record_matches(rec: ManifestRecord, artifact: Seq<char>, target: Seq<char>) -> bool {
    rec.artifact@ == artifact && rec.target@ == target
}

/// The index of the first record at or after `i` that is the entry of
/// `artifact` for `target`.
pub open spec fn find_from(
    recs: Seq<ManifestRecord>,
    artifact: Seq<char>,
    target: Seq<char>,
    i: int,
) -> Option<int>
    decreases recs.len() - i,
{
    if i < 0 || i >= recs.len() {
        None
    } else if record_matches(recs[i], artifact, target) {
        Some(i)
    } else {
        find_from(recs, artifact, target, i + 1)
    }
}

/// The index of the record that gives `artifact` for `target`, if any.
pub open spec fn find_record(recs: Seq<ManifestRecord>, artifact: Seq<char>, target: Seq<char>) -> Option<int> {
    find_from(recs, artifact, target, 0)
}

/// `r` carries the name `name` and the entry of record `rec`.
pub open spec fn resolved_from(r: ResolvedArtifact, name: Seq<char>, rec: ManifestRecord) -> bool {
    r.name@ == name && r.url@ == rec.entry.url@ && r.hash_strong@ == rec.entry.hash_strong@
        && r.hash_weak@ == rec.entry.hash_weak@
}

/// Every name of `names[..n]` has an entry for `target`.
pub open spec fn all_present(
    recs: Seq<ManifestRecord>,
    names: Seq<String>,
    target: Seq<char>,
    n: int,
) -> bool {
    forall|k: int| 0 <= k < n ==> (#[trigger] find_record(recs, names[k]@, target)) is Some
}

impl Manifest {
    /// Checks the manifest: every entry must be usable, and no two records
    /// may be for the same artifact and target. The first unusable entry is
    /// named; where all are usable, a key given twice is named.
    pub fn validate(&self) -> (r: Result<(), ManifestError>)
        ensures
            r is Ok <==> (forall|i: int| 0 <= i < self.records@.len() ==> entry_valid(#[trigger] self.records@[i].entry))
                && keys_unique(self.records@),
            r is Err ==> match r {
                Err(ManifestError::InvalidEntry { artifact, target }) => exists|i: int|
                    0 <= i < self.records@.len() && !entry_valid(#[trigger] self.records@[i].entry)
                    && artifact@ == self.records@[i].artifact@ && target@ == self.records@[i].target@
                    && forall|j: int| 0 <= j < i ==> entry_valid(#[trigger] self.records@[j].entry),
                Err(ManifestError::DuplicateEntry { artifact, target }) => (forall|i: int|
                    0 <= i < self.records@.len() ==> entry_valid(#[trigger] self.records@[i].entry)) && exists|
                    i: int,
                    j: int,
                | 0 <= i < j < self.records@.len() && same_key(#[trigger] self.records@[i], #[trigger] self.records@[j])
                    && artifact@ == self.records@[j].artifact@ && target@ == self.records@[j].target@,
                _ => false,
            },
    {
        let mut i: usize = 0;
        while i < self.records.len()
            invariant
                i <= self.records@.len(),
                forall|j: int| 0 <= j < i ==> entry_valid(#[trigger] self.records@[j].entry),
            decreases self.records@.len() - i,
        {
            let rec = &self.records[i];
            if !check_entry(&rec.entry) {
                return Err(ManifestError::InvalidEntry { artifact: rec.artifact.clone(), target: rec.target.clone() });
            }
            i = i + 1;
        }
        let mut j: usize = 0;
        while j < self.records.len()
            invariant
                j <= self.records@.len(),
                forall|j: int| 0 <= j < self.records@.len() ==> entry_valid(#[trigger] self.records@[j].entry),
                forall|a: int, b: int| 0 <= a < b < j ==> !same_key(#[trigger] self.records@[a], #[trigger] self.records@[b]),
            decreases self.records@.len() - j,
        {
            let rj = &self.records[j];
            let mut k: usize = 0;
            while k < j
                invariant
                    k <= j < self.records@.len(),
                    rj == self.records@[j as int],
                    forall|i: int| 0 <= i < self.records@.len() ==> entry_valid(#[trigger] self.records@[i].entry),
                    forall|a: int| 0 <= a < k ==> !same_key(#[trigger] self.records@[a], self.records@[j as int]),
                decreases j - k,
            {
                let rk = &self.records[k];
                if rk.artifact == rj.artifact && rk.target == rj.target {
                    let artifact = rj.artifact.clone();
                    let target = rj.target.clone();
                    assert(same_key(self.records@[k as int], self.records@[j as int]));
                    assert(artifact@ == self.records@[j as int].artifact@ && target@ == self.records@[j as int].target@);
                    assert(exists|a: int, b: int| 0 <= a < b < self.records@.len() && same_key(#[trigger] self.records@[a], #[trigger] self.records@[b])
                        && artifact@ == self.records@[b].artifact@ && target@ == self.records@[b].target@) by {
                        assert(0 <= k < j < self.records@.len());
                    }
                    return Err(ManifestError::DuplicateEntry { artifact, target });
                }
                k = k + 1;
            }
            j = j + 1;
        }
        Ok(())
    }

    /// Looks up the entry of `artifact` for `target`: the index of the first
    /// matching record.
    pub fn find(&self, artifact: &String, target: &String) -> (r: Option<usize>)
        ensures
            r matches Some(i) ==> find_record(self.records@, artifact@, target@) == Some(i as int),
            r is None ==> find_record(self.records@, artifact@, target@) is None,
            r matches Some(i) ==> i < self.records@.len() && record_matches(self.records@[i as int], artifact@, target@),
    {
        let mut i: usize = 0;
        while i < self.records.len()
            invariant
                i <= self.records@.len(),
                find_record(self.records@, artifact@, target@) == find_from(self.records@, artifact@, target@, i as int),
            decreases self.records@.len() - i,
        {
            let rec = &self.records[i];
            if rec.artifact == *artifact && rec.target == *target {
                return Some(i);
            }
            i = i + 1;
        }
        None
    }

    /// Resolves each of `names` for `target`, in order. Fails on the first
    /// name without an entry for `target`.
    pub fn resolve(&self, target: &String, names: &Vec<String>) -> (r: Result<Vec<ResolvedArtifact>, ManifestError>)
        ensures
            r is Ok <==> all_present(self.records@, names@, target@, names@.len() as int),
            r matches Ok(v) ==> v@.len() == names@.len() && forall|k: int| 0 <= k < names@.len() ==>
                #[trigger] resolved_from(v@[k], names@[k]@, self.records@[find_record(self.records@, names@[k]@, target@)->Some_0]),
            r is Err ==> match r {
                Err(ManifestError::MissingTargetEntry { artifact, target: t }) => t@ == target@ && exists|k: int|
                    0 <= k < names@.len() && all_present(self.records@, names@, target@, k)
                    && (#[trigger] names@[k])@ == artifact@
                    && find_record(self.records@, names@[k]@, target@) is None,
                _ => false,
            },
    {
        let mut out: Vec<ResolvedArtifact> = Vec::new();
        let mut k: usize = 0;
        while k < names.len()
            invariant
                k <= names@.len(),
                out@.len() == k,
                all_present(self.records@, names@, target@, k as int),
                forall|j: int| 0 <= j < k ==>
                    #[trigger] resolved_from(out@[j], names@[j]@, self.records@[find_record(self.records@, names@[j]@, target@)->Some_0]),
            decreases names@.len() - k,
        {
            match self.find(&names[k], target) {
                Some(i) => {
                    let rec = &self.records[i];
                    out.push(ResolvedArtifact {
                        name: names[k].clone(),
                        url: rec.entry.url.clone(),
                        hash_strong: rec.entry.hash_strong.clone(),
                        hash_weak: rec.entry.hash_weak.clone(),
                    });
                    k = k + 1;
                },
                None => {
                    assert(!all_present(self.records@, names@, target@, names@.len() as int));
                    return Err(ManifestError::MissingTargetEntry { artifact: names[k].clone(), target: target.clone() });
                },
            }
        }
        Ok(out)
    }
}

} // verus!
