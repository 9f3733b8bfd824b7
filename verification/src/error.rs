//! Errors reported by the library.

use vstd::prelude::*;

verus! {

/// An application error.
#[derive(Clone, Debug)]
pub enum AppError {
    /// A message with a stable key and its Chinese and English texts.
    Localized { key: String, zh: String, en: String },
    /// A failed filesystem operation on `path`.
    Io { path: String, message: String },
}

impl AppError {
    /// A localized error.
    pub fn localized(key: &str, zh: &str, en: &str) -> (e: AppError)
        ensures
            e matches AppError::Localized { key: k, zh: z, en: n } && k@ == key@ && z@ == zh@
                && n@ == en@,
    {
        AppError::Localized { key: key.to_owned(), zh: zh.to_owned(), en: en.to_owned() }
    }

    /// An error of a filesystem operation.
    pub fn io(path: &str, message: &str) -> (e: AppError)
        ensures
            e matches AppError::Io { path: p, message: m } && p@ == path@ && m@ == message@,
    {
        AppError::Io { path: path.to_owned(), message: message.to_owned() }
    }
}

} // verus!
