//! The parameters of one synchronisation run.

use vstd::prelude::*;

verus! {

/// The characters of each string of `strings`, in the same order.
pub open spec fn texts(strings: Seq<String>) -> Seq<Seq<char>> {
    Seq::new(strings.len(), |i: int| strings[i]@)
}

/// The mathematical value of a [`Config`].
pub struct ConfigView {
    pub file_extensions: Seq<Seq<char>>,
    pub scan_paths: Seq<Seq<char>>,
    pub output_dir: Seq<char>,
    pub history_store_path: Seq<char>,
    pub calculate_md5_hash: bool,
}

/// Immutable run parameters: which files to look at, where to look for them,
/// where to copy them, where the history lives, and how changes are detected.
#[derive(Debug)]
pub struct Config {
    file_extensions: Vec<String>,
    scan_paths: Vec<String>,
    output_dir: String,
    history_store_path: String,
    calculate_md5_hash: bool,
}

impl View for Config {
    type V = ConfigView;

    closed spec fn view(&self) -> ConfigView {
        ConfigView {
            file_extensions: texts(self.file_extensions@),
            scan_paths: texts(self.scan_paths@),
            output_dir: self.output_dir@,
            history_store_path: self.history_store_path@,
            calculate_md5_hash: self.calculate_md5_hash,
        }
    }
}

impl Config {
    /// Puts the five parameters together.
    pub fn new(
        file_extensions: Vec<String>,
        scan_paths: Vec<String>,
        output_dir: String,
        history_store_path: String,
        calculate_md5_hash: bool,
    ) -> (config: Self)
        ensures
            config@ == (ConfigView {
                file_extensions: texts(file_extensions@),
                scan_paths: texts(scan_paths@),
                output_dir: output_dir@,
                history_store_path: history_store_path@,
                calculate_md5_hash,
            }),
    {
        Config { file_extensions, scan_paths, output_dir, history_store_path, calculate_md5_hash }
    }

    /// The recognised file extensions, as configured.
    pub fn file_extensions(&self) -> (extensions: &Vec<String>)
        ensures
            texts(extensions@) == self@.file_extensions,
    {
        &self.file_extensions
    }

    /// The scan roots, in the order in which they are walked.
    pub fn scan_paths(&self) -> (roots: &Vec<String>)
        ensures
            texts(roots@) == self@.scan_paths,
    {
        &self.scan_paths
    }

    /// The directory that receives the copies.
    pub fn output_dir(&self) -> (dir: &String)
        ensures
            dir@ == self@.output_dir,
    {
        &self.output_dir
    }

    /// The file that holds the history store between runs.
    pub fn history_store_path(&self) -> (path: &String)
        ensures
            path@ == self@.history_store_path,
    {
        &self.history_store_path
    }

    /// Whether changes are detected by content fingerprint rather than by
    /// modification time and size alone.
    pub fn calculate_md5_hash(&self) -> (enabled: bool)
        ensures
            enabled == self@.calculate_md5_hash,
    {
        self.calculate_md5_hash
    }
}

} // verus!
