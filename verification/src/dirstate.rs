//! The engine's own notion of current working directory: a single
//! absolute-path string, kept independently of the OS process state and
//! re-synchronized from it around each delegated command run.

use vstd::prelude::*;
use vstd::string::StrSliceExecFns;
use vstd::string::StringExecFns;

verus! {

/// A path string is (syntactically) absolute when it is non-empty and
/// begins with a separator.
pub open spec fn is_absolute(s: Seq<char>) -> bool {
    s.len() > 0 && s[0] == '/'
}

/// Exec test for `is_absolute`.
pub fn absolute(s: &str) -> (r: bool)
    ensures
        r == is_absolute(s@),
{
    s.unicode_len() > 0 && s.get_char(0) == '/'
}

/// What re-synchronizing from an OS-reported working directory does to the
/// held directory: an absolute report replaces it, anything else (no
/// report, or a non-absolute one) leaves it alone.
pub open spec fn sync_dir_spec(cur: Seq<char>, os: Option<Seq<char>>) -> Seq<char> {
    match os {
        Some(d) => if is_absolute(d) {
            d
        } else {
            cur
        },
        None => cur,
    }
}

/// The directory held at construction, given the OS report at that time:
/// the report when it is absolute, the filesystem root otherwise.
pub open spec fn init_dir_spec(os: Option<Seq<char>>) -> Seq<char> {
    sync_dir_spec("/"@, os)
}

/// Re-synchronizing is idempotent: a second sync from the same OS report
/// changes nothing more.
pub proof fn lemma_sync_idempotent(cur: Seq<char>, os: Option<Seq<char>>)
    ensures
        sync_dir_spec(sync_dir_spec(cur, os), os) == sync_dir_spec(cur, os),
{
}

/// Re-synchronizing from an OS working directory equal to what is already
/// held is a no-op: the read before equals the read after.
pub proof fn lemma_sync_noop(cur: Seq<char>)
    ensures
        sync_dir_spec(cur, Some(cur)) == cur,
{
}

/// The engine's current working directory. Invariant: always a
/// syntactically absolute path once initialized. Mutated only by a
/// successful `cd` or by re-synchronizing from the OS. Exactly one
/// logical operation touches it at a time (the engine runs one command
/// at a time), so ownership by the single foreground task is all the
/// sharing discipline it needs.
pub struct DirectoryState {
    current: String,
}

impl DirectoryState {
    /// The held path.
    pub closed spec fn dir(&self) -> Seq<char> {
        self.current@
    }

    /// Well-formedness: the held path is absolute.
    pub open spec fn inv(&self) -> bool {
        is_absolute(self.dir())
    }

    /// Builds the state from the OS-reported working directory, falling
    /// back to the filesystem root when the report is missing or not
    /// absolute.
    pub fn new(os_cwd: Option<String>) -> (r: Self)
        ensures
            r.inv(),
            r.dir() == init_dir_spec(match os_cwd {
                Some(d) => Some(d@),
                None => None,
            }),
    {
        proof {
            reveal_strlit("/");
        }
        match os_cwd {
            Some(d) => {
                if absolute(d.as_str()) {
                    DirectoryState { current: d }
                } else {
                    DirectoryState { current: String::from_str("/") }
                }
            },
            None => DirectoryState { current: String::from_str("/") },
        }
    }

    /// Reads the held path.
    pub fn read(&self) -> (r: String)
        ensures
            r@ == self.dir(),
    {
        self.current.clone()
    }

    /// Replaces the held path; callers only hand in absolute paths.
    pub fn write(&mut self, path: &str)
        requires
            is_absolute(path@),
        ensures
            final(self).inv(),
            final(self).dir() == path@,
    {
        self.current = String::from_str(path);
    }

    /// Re-synchronizes from the OS-reported working directory, absorbing
    /// out-of-band changes; see `sync_dir_spec`.
    pub fn sync_from_os(&mut self, os_cwd: Option<&str>)
        requires
            old(self).inv(),
        ensures
            final(self).inv(),
            final(self).dir() == sync_dir_spec(old(self).dir(), match os_cwd {
                Some(d) => Some(d@),
                None => None,
            }),
    {
        match os_cwd {
            Some(d) => {
                if absolute(d) {
                    self.current = String::from_str(d);
                }
            },
            None => {},
        }
    }
}

} // verus!
