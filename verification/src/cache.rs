//! Small values kept between runs, one file per value in a cache directory.
use vstd::prelude::*;

verus! {

/// A cached value: the file `file` in the directory `dir`.
pub struct Cache {
    file: String,
    dir: String,
}

/// The path of the cache file named `file` in `dir`: `dir/file.cache`.
pub open spec fn cache_path(file: Seq<char>, dir: Seq<char>) -> Seq<char> {
    dir + "/"@ + file + ".cache"@
}

impl Cache {
    /// The name of the cache file, without its extension.
    pub closed spec fn file_name(&self) -> Seq<char> {
        self.file@
    }

    /// The directory the cache file lives in.
    pub closed spec fn dir_name(&self) -> Seq<char> {
        self.dir@
    }

    /// The cache kept in the file `file` of the directory `dir`.
    pub fn new(file: String, dir: String) -> (res: Cache)
        ensures
            res.file_name() == file@,
            res.dir_name() == dir@,
    {
        Cache { file, dir }
    }

    /// The directory the cache file lives in.
    pub fn dir(&self) -> (res: &str)
        ensures
            res@ == self.dir_name(),
    {
        self.dir.as_str()
    }

    /// The path of the cache file: `dir/file.cache`.
    pub fn full_path(&self) -> (res: String)
        ensures
            res@ == cache_path(self.file_name(), self.dir_name()),
    {
        let mut res = String::new();
        res.append(self.dir.as_str());
        res.append("/");
        res.append(self.file.as_str());
        res.append(".cache");
        res
    }
}

/// What the console showed, and how far the current download had come.
pub struct ConsoleCache {
    pub history: Vec<String>,
    pub percentage: u16,
}

} // verus!
