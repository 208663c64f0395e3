//! File descriptions for asset storage, and where each store puts a file.
use vstd::prelude::*;

verus! {

/// A file to store: its name, its bytes and an optional directory.
#[derive(Clone, Debug)]
pub struct FileInfo {
    pub name: String,
    pub content: Vec<u8>,
    pub dir_path: Option<String>,
}

/// Stores files on local disk, under `images/`.
#[derive(Clone, Copy, Debug, Default)]
pub struct LocalFileManager;

/// Stores files in an object-storage bucket.
#[derive(Clone, Debug, Default)]
pub struct AWSFileManager {
    bucket_name: String,
}

/// Directory used on local disk for a file without one.
pub const DEFAULT_LOCAL_DIR: &'static str = "./tmp";

/// The directory of `file` below `images/` on local disk.
pub open spec fn local_dir_spec(dir_path: Option<Seq<char>>) -> Seq<char> {
    match dir_path {
        Some(d) => d,
        None => DEFAULT_LOCAL_DIR@,
    }
}

/// The object key of a file: `dir/name` when it has a directory, else `name`.
pub open spec fn object_key_spec(name: Seq<char>, dir_path: Option<Seq<char>>) -> Seq<char> {
    match dir_path {
        Some(d) => d + seq!['/'] + name,
        None => name,
    }
}

pub open spec fn dir_view(dir_path: Option<String>) -> Option<Seq<char>> {
    match dir_path {
        Some(d) => Some(d@),
        None => None,
    }
}

impl FileInfo {
    pub fn new(name: String, content: Vec<u8>, dir_path: Option<String>) -> (r: FileInfo)
        ensures
            r.name == name,
            r.content == content,
            r.dir_path == dir_path,
    {
        FileInfo { name, content, dir_path }
    }

    /// The directory that a local store writes this file into.
    pub fn local_dir(&self) -> (r: String)
        ensures
            r@ == local_dir_spec(dir_view(self.dir_path)),
    {
        match &self.dir_path {
            Some(d) => d.clone(),
            None => String::from_str(DEFAULT_LOCAL_DIR),
        }
    }

    /// The key under which a bucket store keeps this file.
    pub fn object_key(&self) -> (r: String)
        ensures
            r@ == object_key_spec(self.name@, dir_view(self.dir_path)),
    {
        match &self.dir_path {
            Some(d) => {
                let mut key = d.clone();
                key.append("/");
                proof {
                    reveal_strlit("/");
                }
                key.append(self.name.as_str());
                key
            },
            None => self.name.clone(),
        }
    }
}

impl AWSFileManager {
    /// The name of the bucket that files go to.
    pub closed spec fn bucket(&self) -> Seq<char> {
        self.bucket_name@
    }

    /// A store that writes into the named bucket.
    pub fn new(bucket_name: String) -> (r: AWSFileManager)
        ensures
            r.bucket() == bucket_name@,
    {
        AWSFileManager { bucket_name }
    }

    pub fn bucket_name(&self) -> (r: &String)
        ensures
            r@ == self.bucket(),
    {
        &self.bucket_name
    }
}

} // verus!
