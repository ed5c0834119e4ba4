//! The distribution, its packages and the rules of a download run.

pub mod errors;
pub mod routing;
pub mod run;
pub mod text;
pub mod zip_wrapper;

use self::errors::{InvalidMd5Hash, ManifestFormatError};
use self::routing::{destination, get_file_dir, relative};
use self::text::{
    decimal_u64, ends_with, has_suffix, lines_of, parse_u64, same_text, split_lines, texts,
};
use vstd::prelude::*;
use vstd::string::*;

verus! {

/// What a package is, as plain values.
pub struct PackageModel {
    pub filename: Seq<char>,
    pub checksum: Seq<char>,
    pub compressed_size: u64,
    pub decompressed_size: u64,
}

/// One package of a distribution, as its manifest records it.
#[derive(Debug, PartialEq, Eq, Hash)]
pub struct RbxPackage {
    filename: String,
    md5: String,
    compressed_size: u64,
    decompressed_size: u64,
}

impl View for RbxPackage {
    type V = PackageModel;

    closed spec fn view(&self) -> PackageModel {
        PackageModel {
            filename: self.filename@,
            checksum: self.md5@,
            compressed_size: self.compressed_size,
            decompressed_size: self.decompressed_size,
        }
    }
}

/// The models of a run of packages, in order.
pub open spec fn models(v: Seq<RbxPackage>) -> Seq<PackageModel> {
    Seq::new(v.len(), |i: int| v[i]@)
}

/// The package that four manifest fields record: a name, a checksum, and the
/// compressed and the decompressed size as unsigned 64-bit decimal numbers.
/// There is none if either size is not such a number.
pub open spec fn record_of(
    name: Seq<char>,
    checksum: Seq<char>,
    compressed: Seq<char>,
    decompressed: Seq<char>,
) -> Option<PackageModel> {
    match (decimal_u64(compressed), decimal_u64(decompressed)) {
        (Some(c), Some(d)) => Some(
            PackageModel {
                filename: name,
                checksum: checksum,
                compressed_size: c,
                decompressed_size: d,
            },
        ),
        _ => None,
    }
}

/// The number of whole records in a manifest of the given lines: the first
/// line is a marker, the others come in groups of four, and lines after the
/// last whole group count for nothing.
pub open spec fn record_count(lines: Seq<Seq<char>>) -> nat {
    if lines.len() == 0 {
        0
    } else {
        ((lines.len() - 1) / 4) as nat
    }
}

/// The record that the `i`-th group of four lines holds.
pub open spec fn record_at(lines: Seq<Seq<char>>, i: int) -> Option<PackageModel> {
    record_of(lines[4 * i + 1], lines[4 * i + 2], lines[4 * i + 3], lines[4 * i + 4])
}

/// The packages that a manifest of the given lines lists, in order. There are
/// none to be had if the marker line is missing or a whole group holds a size
/// that is no number.
pub open spec fn manifest_records(lines: Seq<Seq<char>>) -> Option<Seq<PackageModel>> {
    if lines.len() > 0 && (forall|i: int|
        0 <= i < record_count(lines) ==> (#[trigger] record_at(lines, i)) is Some) {
        Some(Seq::new(record_count(lines), |i: int| record_at(lines, i).unwrap()))
    } else {
        None
    }
}

/// A manifest of one marker line and `k` whole groups lists exactly `k`
/// packages, the `i`-th of them read from the `i`-th group.
pub proof fn lemma_whole_groups_give_all_records(lines: Seq<Seq<char>>, k: nat)
    requires
        lines.len() == 1 + 4 * k,
        manifest_records(lines) is Some,
    ensures
        manifest_records(lines).unwrap().len() == k,
        forall|i: int|
            0 <= i < k ==> record_at(lines, i) == Some(
                #[trigger] manifest_records(lines).unwrap()[i],
            ),
{
}

/// Up to three lines after the last whole group change nothing: the manifest
/// lists what it lists without them.
pub proof fn lemma_partial_group_is_dropped(lines: Seq<Seq<char>>, k: nat, r: nat)
    requires
        lines.len() == 1 + 4 * k + r,
        0 < r < 4,
    ensures
        manifest_records(lines) == manifest_records(lines.subrange(0, 1 + 4 * (k as int))),
{
    let whole = lines.subrange(0, 1 + 4 * (k as int));
    assert(record_count(lines) == k);
    assert(record_count(whole) == k);
    assert forall|i: int| 0 <= i < k implies record_at(lines, i) == record_at(whole, i) by {}
    if manifest_records(lines) is Some {
        assert forall|i: int| 0 <= i < record_count(whole) implies (#[trigger] record_at(
            whole,
            i,
        )) is Some by {
            assert(record_at(lines, i) is Some);
        }
        assert(manifest_records(lines).unwrap() =~= manifest_records(whole).unwrap());
    } else {
        if manifest_records(whole) is Some {
            assert forall|i: int| 0 <= i < record_count(lines) implies (#[trigger] record_at(
                lines,
                i,
            )) is Some by {
                assert(record_at(whole, i) is Some);
            }
        }
    }
}

impl RbxPackage {
    /// Reads a package from the four fields of one manifest record.
    pub fn from(chunks: &[&str]) -> (r: Result<RbxPackage, ManifestFormatError>)
        requires
            chunks@.len() >= 4,
        ensures
            match record_of(chunks@[0]@, chunks@[1]@, chunks@[2]@, chunks@[3]@) {
                Some(m) => r is Ok && r.unwrap()@ == m,
                None => r is Err,
            },
    {
        let file_name = String::from_str(chunks[0]);
        let file_hash = String::from_str(chunks[1]);
        let compressed_size: u64 = match parse_u64(chunks[2]) {
            Some(n) => n,
            None => {
                return Err(ManifestFormatError);
            },
        };
        let decompressed_size: u64 = match parse_u64(chunks[3]) {
            Some(n) => n,
            None => {
                return Err(ManifestFormatError);
            },
        };
        Ok(
            RbxPackage {
                filename: file_name,
                md5: file_hash,
                compressed_size: compressed_size,
                decompressed_size: decompressed_size,
            },
        )
    }

    /// The package's file name, by which it is fetched and routed.
    pub fn filename(&self) -> (r: &str)
        ensures
            r@ == self@.filename,
    {
        self.filename.as_str()
    }

    /// The checksum the manifest records, in lower-case hexadecimal.
    pub fn md5(&self) -> (r: &str)
        ensures
            r@ == self@.checksum,
    {
        self.md5.as_str()
    }

    /// The size of the payload as it is fetched.
    pub fn compressed_size(&self) -> (r: u64)
        ensures
            r == self@.compressed_size,
    {
        self.compressed_size
    }

    /// The size of the payload once unpacked.
    pub fn decompressed_size(&self) -> (r: u64)
        ensures
            r == self@.decompressed_size,
    {
        self.decompressed_size
    }
}

/// Reads the packages that a manifest text lists.
pub fn parse_manifest(manifest: &str) -> (r: Result<Vec<RbxPackage>, ManifestFormatError>)
    ensures
        match manifest_records(lines_of(manifest@)) {
            Some(records) => r is Ok && models(r.unwrap()@) == records,
            None => r is Err,
        },
{
    let lines: Vec<String> = split_lines(manifest);
    let ghost ls = lines_of(manifest@);
    let n: usize = lines.len();
    if n == 0 {
        return Err(ManifestFormatError);
    }
    let count: usize = (n - 1) / 4;
    let mut packages: Vec<RbxPackage> = Vec::new();
    let mut i: usize = 0;
    while i < count
        invariant
            ls == lines_of(manifest@),
            ls == texts(lines@),
            n == lines@.len(),
            n > 0,
            count == record_count(ls),
            i <= count,
            packages@.len() == i,
            forall|j: int| 0 <= j < i ==> record_at(ls, j) == Some(#[trigger] packages@[j]@),
        decreases count - i,
    {
        let base: usize = 4 * i + 1;
        let mut fields: Vec<&str> = Vec::new();
        fields.push(lines[base].as_str());
        fields.push(lines[base + 1].as_str());
        fields.push(lines[base + 2].as_str());
        fields.push(lines[base + 3].as_str());
        assert(ls[base as int] == lines@[base as int]@);
        assert(ls[base + 1] == lines@[base + 1]@);
        assert(ls[base + 2] == lines@[base + 2]@);
        assert(ls[base + 3] == lines@[base + 3]@);
        match RbxPackage::from(fields.as_slice()) {
            Ok(package) => {
                packages.push(package);
            },
            Err(e) => {
                assert(record_at(ls, i as int) is None);
                return Err(e);
            },
        }
        i += 1;
    }
    proof {
        assert forall|j: int| 0 <= j < record_count(ls) implies (#[trigger] record_at(
            ls,
            j,
        )) is Some by {
            assert(record_at(ls, j) == Some(packages@[j]@));
        }
        assert(models(packages@) =~= manifest_records(ls).unwrap());
    }
    Ok(packages)
}

/// The MD5 digest of `data`, written as 32 lower-case hexadecimal digits.
pub uninterp spec fn md5_hex(data: Seq<u8>) -> Seq<char>;

/// Calls `md5::compute` on the payload and renders the digest with the
/// crate's lower-case hexadecimal formatting. The digest depends on the bytes
/// alone; the contract gives that text its name and claims nothing else.
#[verifier::external_body]
fn md5_hex_of(data: &[u8]) -> (hex: String)
    ensures
        hex@ == md5_hex(data@),
{
    format!("{:x}", md5::compute(data))
}

/// What is done with a validated payload.
#[derive(Debug, PartialEq, Eq)]
pub enum Job {
    /// An empty file is created at `path`; the payload is not written.
    Placeholder { path: String },
    /// Payload number `index` is unpacked into the directory `dir`.
    Extract { index: usize, dir: String },
}

/// A package that is not unpacked: an executable, or one whose compressed and
/// decompressed sizes agree.
pub open spec fn is_passthrough(p: PackageModel) -> bool {
    has_suffix(p.filename, ".exe"@) || p.compressed_size == p.decompressed_size
}

/// `job` is what is done with package `p`, the `index`-th of its
/// distribution. Paths are relative to the staging directory.
pub open spec fn is_job_for(job: Job, p: PackageModel, index: int) -> bool {
    if is_passthrough(p) {
        job matches Job::Placeholder { path } && path@ == relative(p.filename)
    } else {
        job matches Job::Extract { index: k, dir } && k == index && dir@ == relative(
            destination(p.filename),
        )
    }
}

/// `jobs` holds the job of each package, in the packages' order.
pub open spec fn is_plan_for(jobs: Seq<Job>, packages: Seq<RbxPackage>) -> bool {
    &&& jobs.len() == packages.len()
    &&& forall|i: int| 0 <= i < jobs.len() ==> is_job_for(#[trigger] jobs[i], packages[i]@, i)
}

/// Every payload has the checksum that its package records.
pub open spec fn all_valid(packages: Seq<RbxPackage>, payloads: Seq<Vec<u8>>) -> bool {
    forall|i: int|
        0 <= i < packages.len() ==> md5_hex(#[trigger] payloads[i]@) == packages[i]@.checksum
}

impl RbxPackage {
    /// The address of the package below `version_plus_cdn`, the address of
    /// its distribution.
    pub fn url(&self, version_plus_cdn: &str) -> (r: String)
        ensures
            r@ == version_plus_cdn@ + "-"@ + self@.filename,
    {
        String::from_str(version_plus_cdn).concat("-").concat(self.filename.as_str())
    }

    /// Tells whether the size a server advertised for the payload, taken as 0
    /// where it advertised none, is the compressed size on record. A
    /// difference is worth a warning and nothing more.
    pub fn size_matches(&self, advertised: Option<u64>) -> (r: bool)
        ensures
            r == (advertised.unwrap_or(0) == self@.compressed_size),
    {
        let total_size: u64 = match advertised {
            Some(n) => n,
            None => 0,
        };
        total_size == self.compressed_size
    }

    /// Tells whether `hash` is the checksum on record.
    pub fn checksum_matches(&self, hash: &str) -> (r: bool)
        ensures
            r == (hash@ == self@.checksum),
    {
        same_text(hash, self.md5.as_str())
    }

    /// Tells whether a payload has the checksum on record.
    pub fn is_valid(&self, payload: &[u8]) -> (r: bool)
        ensures
            r == (md5_hex(payload@) == self@.checksum),
    {
        let hash = md5_hex_of(payload);
        self.checksum_matches(hash.as_str())
    }

    /// Tells whether the package is left packed.
    pub fn is_passthrough(&self) -> (r: bool)
        ensures
            r == is_passthrough(self@),
    {
        ends_with(self.filename.as_str(), ".exe") || self.compressed_size
            == self.decompressed_size
    }

    /// What is done with the package's payload once it is validated.
    pub fn job(&self, index: usize) -> (job: Job)
        ensures
            is_job_for(job, self@, index as int),
    {
        if self.is_passthrough() {
            Job::Placeholder { path: String::from_str("./").concat(self.filename.as_str()) }
        } else {
            Job::Extract { index: index, dir: get_file_dir(self.filename.as_str()) }
        }
    }
}

/// A distribution: where it is served, its version, and its packages.
pub struct Downloader {
    pub cdn: String,
    pub version_hash: String,
    pub roblox_packages: Vec<RbxPackage>,
}

impl Downloader {
    /// Appends the packages that the manifest text lists. A malformed
    /// manifest leaves the distribution as it was.
    pub fn populate(&mut self, manifest: &str) -> (r: Result<(), ManifestFormatError>)
        ensures
            final(self).cdn == old(self).cdn,
            final(self).version_hash == old(self).version_hash,
            match manifest_records(lines_of(manifest@)) {
                Some(records) => r is Ok && models(final(self).roblox_packages@) == models(
                    old(self).roblox_packages@,
                ) + records,
                None => r is Err && final(self).roblox_packages == old(self).roblox_packages,
            },
    {
        match parse_manifest(manifest) {
            Ok(mut packages) => {
                let ghost before = self.roblox_packages@;
                let ghost added = packages@;
                self.roblox_packages.append(&mut packages);
                assert(models(before + added) =~= models(before) + models(added));
                Ok(())
            },
            Err(e) => Err(e),
        }
    }

    /// The address below which everything of this version is served.
    pub fn get_url(&self) -> (r: String)
        ensures
            r@ == self.cdn@ + "/"@ + self.version_hash@,
    {
        String::from_str(self.cdn.as_str()).concat("/").concat(self.version_hash.as_str())
    }

    /// The address of the package manifest.
    pub fn manifest_url(&self) -> (r: String)
        ensures
            r@ == self.cdn@ + "/"@ + self.version_hash@ + "-rbxPkgManifest.txt"@,
    {
        self.get_url().concat("-rbxPkgManifest.txt")
    }

    /// The address of the file manifest, which is stored beside the packages
    /// as it comes.
    pub fn file_manifest_url(&self) -> (r: String)
        ensures
            r@ == self.cdn@ + "/"@ + self.version_hash@ + "-rbxManifest.txt"@,
    {
        self.get_url().concat("-rbxManifest.txt")
    }

    /// The file name of the archive that holds the finished distribution.
    pub fn archive_name(&self) -> (r: String)
        ensures
            r@ == self.version_hash@ + ".zip"@,
    {
        String::from_str(self.version_hash.as_str()).concat(".zip")
    }

    /// Holds each payload against its package's checksum. One payload that
    /// fails is enough to fail them all.
    pub fn validate(&self, payloads: &Vec<Vec<u8>>) -> (r: Result<(), InvalidMd5Hash>)
        requires
            payloads@.len() == self.roblox_packages@.len(),
        ensures
            r is Ok <==> all_valid(self.roblox_packages@, payloads@),
    {
        let n: usize = self.roblox_packages.len();
        let mut i: usize = 0;
        while i < n
            invariant
                n == self.roblox_packages@.len(),
                n == payloads@.len(),
                i <= n,
                forall|j: int|
                    0 <= j < i ==> md5_hex(#[trigger] payloads@[j]@)
                        == self.roblox_packages@[j]@.checksum,
            decreases n - i,
        {
            if !self.roblox_packages[i].is_valid(payloads[i].as_slice()) {
                assert(md5_hex(payloads@[i as int]@) != self.roblox_packages@[i as int]@.checksum);
                return Err(InvalidMd5Hash);
            }
            i += 1;
        }
        Ok(())
    }

    /// The job of each package, in the packages' order.
    pub fn plan(&self) -> (jobs: Vec<Job>)
        ensures
            is_plan_for(jobs@, self.roblox_packages@),
    {
        let n: usize = self.roblox_packages.len();
        let mut jobs: Vec<Job> = Vec::new();
        let mut i: usize = 0;
        while i < n
            invariant
                n == self.roblox_packages@.len(),
                i <= n,
                jobs@.len() == i,
                forall|j: int|
                    0 <= j < i ==> is_job_for(#[trigger] jobs@[j], self.roblox_packages@[j]@, j),
            decreases n - i,
        {
            jobs.push(self.roblox_packages[i].job(i));
            i += 1;
        }
        jobs
    }

    /// Decides what follows the fetches. With every payload valid, each
    /// package gets its job; with one that is not, the run ends here and no
    /// job is handed out.
    pub fn dispatch(&self, payloads: &Vec<Vec<u8>>) -> (r: Result<Vec<Job>, InvalidMd5Hash>)
        requires
            payloads@.len() == self.roblox_packages@.len(),
        ensures
            r is Ok <==> all_valid(self.roblox_packages@, payloads@),
            r matches Ok(jobs) ==> is_plan_for(jobs@, self.roblox_packages@),
    {
        match self.validate(payloads) {
            Ok(_) => Ok(self.plan()),
            Err(e) => Err(e),
        }
    }
}

} // verus!
