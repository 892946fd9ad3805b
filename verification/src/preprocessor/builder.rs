//! Sets up a preprocessor step by step.

use crate::preprocessor::Preprocessor;
use crate::util::{default_out_file, names_file};
use vstd::prelude::*;

verus! {

/// Collects what a preprocessor works with: the source file, the output
/// file, and whether the source is watched.
pub struct Builder {
    preprocessor: Preprocessor,
}

impl View for Builder {
    type V = Preprocessor;

    closed spec fn view(&self) -> Preprocessor {
        self.preprocessor
    }
}

impl Default for Builder {
    /// A builder that nothing has been set in.
    fn default() -> (builder: Self)
        ensures
            builder@.src() is None,
            builder@.out() is None,
            !builder@.is_watch_mode(),
    {
        Builder { preprocessor: Preprocessor::default() }
    }
}

impl Builder {
    /// Sets the source file. The caller has seen to it that the file exists
    /// and is a Smiley source.
    pub fn set_src_file(self, file: &str) -> (builder: Self)
        ensures
            builder@.src() == Some(file@),
            builder@.out() == self@.out(),
            builder@.is_watch_mode() == self@.is_watch_mode(),
    {
        let mut preprocessor = self.preprocessor;
        preprocessor.set_src(String::from_str(file));
        Builder { preprocessor }
    }

    /// Sets the output file: `file` if there is one, else the file that goes
    /// with the source file, which must have been set.
    pub fn set_out_file(self, file: Option<&str>) -> (builder: Self)
        requires
            file is None ==> self@.src() is Some && names_file(self@.src()->0),
        ensures
            builder@.src() == self@.src(),
            builder@.is_watch_mode() == self@.is_watch_mode(),
            builder@.out() == Some(
                match file {
                    Some(path) => path@,
                    None => default_out_file(self@.src()->0),
                },
            ),
    {
        let mut preprocessor = self.preprocessor;
        let file = match file {
            Some(path) => String::from_str(path),
            None => preprocessor.default_out(),
        };
        preprocessor.set_out(file);
        Builder { preprocessor }
    }

    /// Hands out the preprocessor as it has been set up.
    pub fn build(self) -> (preprocessor: Preprocessor)
        ensures
            preprocessor == self@,
    {
        self.preprocessor
    }
}

} // verus!
