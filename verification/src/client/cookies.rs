//! Location of a Chromium profile's cookie store.
use vstd::prelude::*;
use crate::text::{join_path, join_path_spec};
use crate::client::EngineError;

verus! {

/// Reads cookies of a Chromium-based browser profile.
pub struct CookieExtractor {
    browser_path: String,
}

impl View for CookieExtractor {
    type V = Seq<char>;

    closed spec fn view(&self) -> Seq<char> {
        self.browser_path@
    }
}

impl CookieExtractor {
    /// An extractor for the browser profile directory `path`.
    pub fn new(path: &str) -> (r: Self)
        ensures
            r@ == path@,
    {
        CookieExtractor { browser_path: String::from_str(path) }
    }

    /// The browser profile directory.
    pub fn browser_path(&self) -> (p: &str)
        ensures
            p@ == self@,
    {
        self.browser_path.as_str()
    }

    /// The cookie database of the profile: `Network/Cookies` inside it.
    pub fn cookies_db_path(&self) -> (p: String)
        ensures
            p@ == join_path_spec(self@, "Network/Cookies"@),
    {
        join_path(self.browser_path.as_str(), "Network/Cookies")
    }

    /// The error for a cookie database that cannot be opened: a database
    /// locked by a running browser (access denied, or the open would block)
    /// is reported as such, any other failure by its own message.
    pub fn open_failure(&self, locked: bool, detail: String) -> (e: EngineError)
        ensures
            e matches EngineError::FileSystemError(m) && m@ == if locked {
                "Cookies database is locked by a running browser instance."@
            } else {
                detail@
            },
    {
        if locked {
            EngineError::FileSystemError(
                String::from_str("Cookies database is locked by a running browser instance."),
            )
        } else {
            EngineError::FileSystemError(detail)
        }
    }

    /// The `Local State` file of the profile, which holds the encrypted key.
    pub fn local_state_path(&self) -> (p: String)
        ensures
            p@ == join_path_spec(self@, "Local State"@),
    {
        join_path(self.browser_path.as_str(), "Local State")
    }
}

/// The DPAPI blob of a Chromium key: the key without its five-byte `DPAPI`
/// prefix, or the whole key when it is not longer than that.
pub fn dpapi_blob(key: &[u8]) -> (r: Vec<u8>)
    ensures
        r@ == if key@.len() > 5 {
            key@.skip(5)
        } else {
            key@
        },
{
    let n = key.len();
    if n > 5 {
        let r = vstd::slice::slice_to_vec(&key[5..n]);
        assert(r@ =~= key@.skip(5));
        r
    } else {
        let r = vstd::slice::slice_to_vec(key);
        r
    }
}

} // verus!
