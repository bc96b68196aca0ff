//! Run configuration the harness hands the kernel: which application
//! binaries to emulate.

use vstd::prelude::*;

verus! {

/// One application to run: the path of its binary on the host.
pub struct AppInfo {
    bin_path: String,
}

impl View for AppInfo {
    type V = Seq<char>;

    closed spec fn view(&self) -> Seq<char> {
        self.bin_path@
    }
}

impl AppInfo {
    pub fn new(path: String) -> (r: AppInfo)
        ensures
            r@ == path@,
    {
        AppInfo { bin_path: path }
    }

    /// The path of the application's binary.
    pub fn bin_path(&self) -> (r: &String)
        ensures
            r@ == self@,
    {
        &self.bin_path
    }
}

} // verus!
