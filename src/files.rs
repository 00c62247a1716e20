use vstd::prelude::*;
use vstd::string::StringExecFns;
use crate::authentication::AuthResp;

verus! {

/// Largest accepted size of a submitted file, in bytes.
pub const MAX_FILE_SIZE: u64 = 1000000;

/// A file already present in the object store.
#[derive(Debug, Clone, Default)]
pub struct FileDescription {
    pub key: String,
    pub bucket: String,
}

impl FileDescription {
    /// A field-by-field copy.
    pub fn duplicate(&self) -> (r: FileDescription)
        ensures
            r == *self,
    {
        FileDescription { key: self.key.clone(), bucket: self.bucket.clone() }
    }
}

/// Copies a list of descriptors, keeping their order.
pub fn copy_descriptions(v: &Vec<FileDescription>) -> (r: Vec<FileDescription>)
    ensures
        r@ == v@,
{
    let mut r: Vec<FileDescription> = Vec::new();
    let mut i: usize = 0;
    while i < v.len()
        invariant
            i <= v@.len(),
            r@ == v@.subrange(0, i as int),
        decreases v@.len() - i,
    {
        r.push(v[i].duplicate());
        i = i + 1;
        assert(r@ =~= v@.subrange(0, i as int));
    }
    assert(v@.subrange(0, v@.len() as int) =~= v@);
    r
}

/// What the local file system reported about one submitted path.
#[derive(Debug, Clone)]
pub struct LocalFile {
    /// Where the file lies, as handed to the file system.
    pub path: String,
    /// The last component of the path.
    pub file_name: String,
    /// The path names a regular file.
    pub is_file: bool,
    /// Its size in bytes.
    pub size: u64,
}

#[derive(Debug, Clone, Copy, PartialEq, Eq, Structural)]
pub enum ValidationError {
    /// The path does not name a regular file.
    NotFound,
    /// The file is larger than `MAX_FILE_SIZE`.
    TooLarge,
}

/// The text shown for a rejected file.
pub open spec fn validation_text(e: ValidationError) -> Seq<char> {
    match e {
        ValidationError::NotFound => "File not found. Please double check the file path."@,
        ValidationError::TooLarge => "File too large. Text file is unlikely to exceed 1MB."@,
    }
}

impl ValidationError {
    pub fn message(&self) -> (r: &'static str)
        ensures
            r@ == validation_text(*self),
    {
        match self {
            ValidationError::NotFound => "File not found. Please double check the file path.",
            ValidationError::TooLarge => "File too large. Text file is unlikely to exceed 1MB.",
        }
    }
}

/// The fault of one file, if it has one.
pub open spec fn fault(f: LocalFile) -> Option<ValidationError> {
    if !f.is_file {
        Some(ValidationError::NotFound)
    } else if f.size > MAX_FILE_SIZE {
        Some(ValidationError::TooLarge)
    } else {
        None
    }
}

/// The fault of the first faulty file of the list, if any.
pub open spec fn first_fault(files: Seq<LocalFile>) -> Option<ValidationError>
    decreases files.len(),
{
    if files.len() == 0 {
        None
    } else if fault(files[0]) is Some {
        fault(files[0])
    } else {
        first_fault(files.drop_first())
    }
}

/// Every file of the list is a regular file of accepted size.
pub open spec fn all_acceptable(files: Seq<LocalFile>) -> bool {
    forall|i: int| 0 <= i < files.len() ==> #[trigger] fault(files[i]) is None
}

pub proof fn lemma_first_fault_none(files: Seq<LocalFile>)
    ensures
        first_fault(files) is None <==> all_acceptable(files),
    decreases files.len(),
{
    if files.len() > 0 {
        lemma_first_fault_none(files.drop_first());
        if all_acceptable(files) {
            assert forall|i: int| 0 <= i < files.drop_first().len() implies #[trigger] fault(
                files.drop_first()[i],
            ) is None by {
                assert(files.drop_first()[i] == files[i + 1]);
            }
        }
        if fault(files[0]) is None && all_acceptable(files.drop_first()) {
            assert forall|i: int| 0 <= i < files.len() implies #[trigger] fault(files[i]) is None by {
                if i > 0 {
                    assert(files[i] == files.drop_first()[i - 1]);
                }
            }
        }
    }
}

/// Checks, in order, that each file is a regular file of at most
/// `MAX_FILE_SIZE` bytes, and reports the fault of the first that is not.
pub fn validate_files(files: &Vec<LocalFile>) -> (r: Result<(), ValidationError>)
    ensures
        r == (match first_fault(files@) {
            None => Ok(()),
            Some(e) => Err(e),
        }),
        r is Ok <==> all_acceptable(files@),
{
    proof {
        lemma_first_fault_none(files@);
        assert(files@.subrange(0, files@.len() as int) =~= files@);
    }
    let mut i: usize = 0;
    while i < files.len()
        invariant
            i <= files@.len(),
            first_fault(files@) == first_fault(files@.subrange(i as int, files@.len() as int)),
        decreases files@.len() - i,
    {
        let ghost rest = files@.subrange(i as int, files@.len() as int);
        assert(rest[0] == files@[i as int]);
        if !files[i].is_file {
            return Err(ValidationError::NotFound);
        }
        if files[i].size > MAX_FILE_SIZE {
            return Err(ValidationError::TooLarge);
        }
        assert(rest.drop_first() =~= files@.subrange(i + 1, files@.len() as int));
        i = i + 1;
    }
    assert(files@.subrange(i as int, files@.len() as int) =~= Seq::<LocalFile>::empty());
    Ok(())
}

/// Where a file of the submission is stored: under the bundle's directory,
/// by its file name.
pub open spec fn storage_key(dir: Seq<char>, file_name: Seq<char>) -> Seq<char> {
    dir + "/"@ + file_name
}

/// The upload endpoint of a bucket of the object store.
pub open spec fn object_store_url(bucket: Seq<char>) -> Seq<char> {
    "https://"@ + bucket + ".oss-accelerate.aliyuncs.com"@
}

/// One signed upload of one local file to the object store.
#[derive(Debug, Clone)]
pub struct UploadJob {
    pub key: String,
    pub bucket: String,
    pub destination: String,
    pub oss_access_key: String,
    pub policy: String,
    pub signature: String,
    pub file_name: String,
    /// The local file whose bytes are sent.
    pub path: String,
}

impl UploadJob {
    /// The job uploads `file` with the credentials of `params`.
    pub open spec fn uploads(&self, params: AuthResp, file: LocalFile) -> bool {
        &&& self.key@ == storage_key(params.dir.unwrap()@, file.file_name@)
        &&& self.bucket == params.bucket.unwrap()
        &&& self.destination@ == object_store_url(params.bucket.unwrap()@)
        &&& self.oss_access_key == params.oss_access_key_id.unwrap()
        &&& self.policy == params.policy.unwrap()
        &&& self.signature == params.signature.unwrap()
        &&& self.file_name == file.file_name
        &&& self.path == file.path
    }

    /// The upload of `file` under the credentials of the bundle `params`.
    pub fn build(params: &AuthResp, file: &LocalFile) -> (r: UploadJob)
        requires
            params.granted(),
        ensures
            r.uploads(*params, *file),
    {
        let mut key = params.dir().clone();
        key.append("/");
        key.append(file.file_name.as_str());
        let mut destination = String::from_str("https://");
        destination.append(params.bucket().as_str());
        destination.append(".oss-accelerate.aliyuncs.com");
        UploadJob {
            key,
            bucket: params.bucket().clone(),
            destination,
            oss_access_key: params.oss_access_key_id().clone(),
            policy: params.policy().clone(),
            signature: params.signature().clone(),
            file_name: file.file_name.clone(),
            path: file.path.clone(),
        }
    }

    /// The descriptor of the file once the object store holds it.
    pub fn stored(&self) -> (r: FileDescription)
        ensures
            r.key == self.key,
            r.bucket == self.bucket,
    {
        FileDescription { key: self.key.clone(), bucket: self.bucket.clone() }
    }
}

} // verus!
